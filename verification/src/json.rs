use vstd::prelude::*;

use crate::things::same_text;

verus! {

/// A value of a decoded response body, as far as the rules read it: texts
/// and lists keep their content, every other value is only known to be there.
#[derive(Debug)]
pub enum Json {
    Text(String),
    Array(Vec<Json>),
    Other,
}

/// The answer to a call that replaces an item's text.
#[derive(Debug)]
pub enum EditResponse {
    /// The body had the expected shape: a flag, and the list of calls that
    /// the service wants made on the page.
    Success { jquery: Vec<Json>, success: bool },
    /// The body had any other shape.
    Unexpected,
}

/// What became of a call that replaces an item's text.
#[derive(Clone, Copy, Debug, PartialEq, Eq, Structural)]
pub enum EditOutcome {
    /// The text was replaced.
    Edited,
    /// The service refused the call because too many were made.
    RateLimited,
    /// The call failed for another reason.
    Failed,
}

/// The text by which the service marks an answer as rate limited.
pub open spec fn marker() -> Seq<char> {
    ".error.RATELIMIT.field-ratelimit"@
}

/// Whether a value is the marker text.
pub open spec fn is_marker(value: Json) -> bool {
    match value {
        Json::Text(s) => s@ == marker(),
        _ => false,
    }
}

/// Whether one of the values is the marker text.
pub open spec fn names_marker(values: Seq<Json>) -> bool {
    exists|k: int| 0 <= k < values.len() && is_marker(#[trigger] values[k])
}

/// Whether a value is a list that names the marker.
pub open spec fn is_marked_list(value: Json) -> bool {
    match value {
        Json::Array(values) => names_marker(values@),
        _ => false,
    }
}

/// Whether a call holds a list that names the marker. A call that is no list
/// holds none.
pub open spec fn call_is_marked(call: Json) -> bool {
    match call {
        Json::Array(parts) => exists|j: int|
            0 <= j < parts@.len() && is_marked_list(#[trigger] parts@[j]),
        _ => false,
    }
}

/// Whether the calls of an answer carry the rate-limit marker: one of the
/// calls holds a list with the marker text in it.
pub open spec fn rate_limited(jquery: Seq<Json>) -> bool {
    exists|i: int| 0 <= i < jquery.len() && call_is_marked(#[trigger] jquery[i])
}

/// What an answer says of the edit: rate limited where it carries the marker,
/// whatever its flag; else done where the flag is set; else failed.
pub open spec fn outcome_of(response: EditResponse) -> EditOutcome {
    match response {
        EditResponse::Success { jquery, success } => {
            if rate_limited(jquery@) {
                EditOutcome::RateLimited
            } else if success {
                EditOutcome::Edited
            } else {
                EditOutcome::Failed
            }
        },
        EditResponse::Unexpected => EditOutcome::Failed,
    }
}

fn value_is_marker(value: &Json) -> (r: bool)
    ensures
        r == is_marker(*value),
{
    match value {
        Json::Text(s) => same_text(s.as_str(), ".error.RATELIMIT.field-ratelimit"),
        _ => false,
    }
}

fn values_name_marker(values: &Vec<Json>) -> (r: bool)
    ensures
        r == names_marker(values@),
{
    let mut k: usize = 0;
    while k < values.len()
        invariant
            k <= values.len(),
            forall|m: int| 0 <= m < k ==> !is_marker(#[trigger] values@[m]),
        decreases values.len() - k,
    {
        if value_is_marker(&values[k]) {
            return true;
        }
        k += 1;
    }
    false
}

fn list_is_marked(value: &Json) -> (r: bool)
    ensures
        r == is_marked_list(*value),
{
    match value {
        Json::Array(values) => values_name_marker(values),
        _ => false,
    }
}

fn parts_hold_marker(parts: &Vec<Json>) -> (r: bool)
    ensures
        r == exists|j: int| 0 <= j < parts@.len() && is_marked_list(#[trigger] parts@[j]),
{
    let mut j: usize = 0;
    while j < parts.len()
        invariant
            j <= parts.len(),
            forall|m: int| 0 <= m < j ==> !is_marked_list(#[trigger] parts@[m]),
        decreases parts.len() - j,
    {
        if list_is_marked(&parts[j]) {
            return true;
        }
        j += 1;
    }
    false
}

fn call_holds_marker(call: &Json) -> (r: bool)
    ensures
        r == call_is_marked(*call),
{
    match call {
        Json::Array(parts) => parts_hold_marker(parts),
        _ => false,
    }
}

/// Whether the calls of an answer carry the rate-limit marker.
pub fn is_rate_limited(jquery: &Vec<Json>) -> (r: bool)
    ensures
        r == rate_limited(jquery@),
{
    let mut i: usize = 0;
    while i < jquery.len()
        invariant
            i <= jquery.len(),
            forall|m: int| 0 <= m < i ==> !call_is_marked(#[trigger] jquery@[m]),
        decreases jquery.len() - i,
    {
        if call_holds_marker(&jquery[i]) {
            return true;
        }
        i += 1;
    }
    false
}

/// Reads an answer to an edit.
pub fn classify(response: &EditResponse) -> (r: EditOutcome)
    ensures
        r == outcome_of(*response),
{
    match response {
        EditResponse::Success { jquery, success } => {
            if is_rate_limited(jquery) {
                EditOutcome::RateLimited
            } else if *success {
                EditOutcome::Edited
            } else {
                EditOutcome::Failed
            }
        },
        EditResponse::Unexpected => EditOutcome::Failed,
    }
}

impl EditOutcome {
    /// The outcome as a result: only a replaced text is a success.
    pub fn into_result(self) -> (r: Result<(), crate::things::ShredditError>)
        ensures
            r == match self {
                EditOutcome::Edited => Ok::<(), crate::things::ShredditError>(()),
                EditOutcome::RateLimited => Err(crate::things::ShredditError::RateLimited),
                EditOutcome::Failed => Err(crate::things::ShredditError::Unknown),
            },
    {
        match self {
            EditOutcome::Edited => Ok(()),
            EditOutcome::RateLimited => Err(crate::things::ShredditError::RateLimited),
            EditOutcome::Failed => Err(crate::things::ShredditError::Unknown),
        }
    }
}

/// An answer that carries the marker is read as rate limited, whatever else
/// it holds.
pub proof fn lemma_marker_means_rate_limited(jquery: Vec<Json>, success: bool)
    requires
        rate_limited(jquery@),
    ensures
        outcome_of(EditResponse::Success { jquery, success }) == EditOutcome::RateLimited,
{
}

} // verus!
