use vstd::prelude::*;
use vstd::string::*;

use crate::things::subreddit_set::{CommentIdSet, PostIdSet, SubredditSet};
use crate::things::{ThingType, LOREM_IPSUM};
use crate::time::Timestamp;

verus! {

/// What the user asked for: whose things, which of them, and what may be done
/// to them.
pub struct Config {
    /// The account whose things are listed.
    pub username: String,
    /// The account's password.
    pub password: String,
    /// The id of the client that the user registered with the service.
    pub client_id: String,
    /// The secret of that client.
    pub client_secret: String,
    /// Nothing is changed or removed; the run only tells what it would do.
    pub dry_run: bool,
    /// The kinds of things to work through, in this order.
    pub thing_types: Vec<ThingType>,
    /// Only things created before this instant are touched.
    pub before: Option<Timestamp>,
    /// Only things created after this instant are touched.
    pub after: Option<Timestamp>,
    /// Only things that score at most this are touched.
    pub max_score: Option<i64>,
    /// The text that an edited thing is left with.
    pub replacement_comment: String,
    /// The `User-Agent` of every request.
    pub user_agent: String,
    /// The directory of an unpacked export. Where it is set, things are read
    /// from it and not from the service's listings.
    pub gdpr_export_dir: Option<String>,
    /// Comments and posts are edited and not removed. Things of the other
    /// kinds, which cannot be edited, are removed as in any other run.
    pub edit_only: bool,
    /// Things of these subreddits are left alone.
    pub skip_subreddits: Option<SubredditSet>,
    /// Things of any other subreddit than these are left alone.
    pub only_subreddits: Option<SubredditSet>,
    /// Comments and saved comments with these ids are left alone.
    pub skip_comment_ids: Option<CommentIdSet>,
    /// Posts and saved posts with these ids are left alone.
    pub skip_post_ids: Option<PostIdSet>,
}

/// Whether a text asks for an instant by its distance from now: it starts with
/// a minus sign.
pub open spec fn is_relative(input: Seq<char>) -> bool {
    input.len() > 0 && input[0] == '-'
}

/// The part of a text that is read as a date: all of it, or what follows the
/// leading minus sign.
pub open spec fn date_text(input: Seq<char>) -> Seq<char> {
    if is_relative(input) {
        input.subrange(1, input.len() as int)
    } else {
        input
    }
}

/// The two bounds in time that a user can set.
#[derive(Clone, Copy, Debug, PartialEq, Eq, Structural)]
pub enum Bound {
    /// Only things created before the bound are touched.
    Before,
    /// Only things created after the bound are touched.
    After,
}

impl Bound {
    /// The name of the variable that sets the bound.
    pub open spec fn variable_spec(self) -> Seq<char> {
        match self {
            Bound::Before => "SHREDDIT_BEFORE"@,
            Bound::After => "SHREDDIT_AFTER"@,
        }
    }

    /// The name of the variable that sets the bound.
    pub fn variable(self) -> (r: &'static str)
        ensures
            r@ == self.variable_spec(),
    {
        match self {
            Bound::Before => "SHREDDIT_BEFORE",
            Bound::After => "SHREDDIT_AFTER",
        }
    }
}

/// The message for a text that cannot be read as a date: it names the bound
/// and repeats the text.
pub open spec fn unreadable(bound: Bound, input: Seq<char>) -> Seq<char> {
    if is_relative(input) {
        "Invalid duration format for "@ + bound.variable_spec() + ": "@ + input
    } else {
        "Invalid timestamp format for "@ + bound.variable_spec() + ": "@ + input
    }
}

/// The message for a distance that leads out of the range of instants: it
/// names the bound and repeats the text.
pub open spec fn unreachable(bound: Bound, input: Seq<char>) -> Seq<char> {
    "Date out of range for "@ + bound.variable_spec() + ": "@ + input
}

/// The message for a `before` bound that cannot be read as a date.
pub open spec fn unreadable_before(input: Seq<char>) -> Seq<char> {
    unreadable(Bound::Before, input)
}

/// The message for a `before` bound whose distance leads out of the range of
/// instants.
pub open spec fn unreachable_before(input: Seq<char>) -> Seq<char> {
    unreachable(Bound::Before, input)
}

/// What a bound settles to, given what the date parser made of the date part
/// of `input` and the clock's two readings: the message for an unreadable
/// text where the parser refused; the date itself for a plain date; for a
/// distance, the instant that lies as far before `now` as the parser laid it
/// off after `asked`, or the message for a distance out of range.
pub open spec fn settles(
    bound: Bound,
    input: Seq<char>,
    parsed: Option<Timestamp>,
    asked: Timestamp,
    now: Timestamp,
    r: Result<Timestamp, String>,
) -> bool {
    match r {
        Ok(t) => match parsed {
            Some(p) => if is_relative(input) {
                &&& Timestamp::representable(mirrored(p, asked, now))
                &&& t.nanoseconds() == mirrored(p, asked, now)
                &&& t.nanos < 1_000_000_000
            } else {
                t == p
            },
            None => false,
        },
        Err(e) => match parsed {
            Some(p) => {
                &&& is_relative(input)
                &&& !Timestamp::representable(mirrored(p, asked, now))
                &&& e@ == unreachable(bound, input)
            },
            None => e@ == unreadable(bound, input),
        },
    }
}

/// What holds of a bound that was read from a text, whatever the date parser
/// and the clock answered.
pub open spec fn read_from(bound: Bound, input: Seq<char>, r: Result<Timestamp, String>) -> bool {
    match r {
        Ok(t) => t.nanos < 1_000_000_000,
        Err(e) => e@ == unreadable(bound, input) || (is_relative(input) && e@ == unreachable(
            bound,
            input,
        )),
    }
}

/// The instant, in nanoseconds since the epoch, that lies as far before
/// `now` as `later` lay after `asked`.
pub open spec fn mirrored(later: Timestamp, asked: Timestamp, now: Timestamp) -> int {
    now.nanoseconds() - (later.nanoseconds() - asked.nanoseconds())
}

/// Reads a text with the date parser of `parse_datetime`, by a call of
/// `parse_datetime::parse_datetime`, and hands back the instant it found as
/// seconds and nanoseconds since the epoch, or nothing where the parser
/// refused the text. The parser reads relative dates against the clock and
/// dates without an offset in the machine's time zone, so the contract says
/// nothing of which instant comes back; it only repeats what the accessor
/// `subsec_nanosecond` documents, that the nanoseconds stay below one second.
#[verifier::external_body]
fn read_date(text: &str) -> (r: Option<Timestamp>)
    ensures
        match r {
            Some(t) => t.nanos < 1_000_000_000,
            None => true,
        },
{
    match parse_datetime::parse_datetime(text) {
        Ok(parsed) => Some(
            Timestamp { secs: parsed.unix_epoch_second(), nanos: parsed.subsec_nanosecond() as u32 },
        ),
        Err(_) => None,
    }
}

/// Reads the clock, by a call of `chrono::Utc::now`, and hands back the
/// instant as seconds and nanoseconds since the epoch, as `timestamp` and
/// `timestamp_subsec_nanos` give them. Nothing is claimed of the instant, not
/// even that its nanoseconds stay below one second: during a leap second they
/// do not. On a machine whose clock stands before the epoch the call panics.
#[verifier::external_body]
fn current_time() -> (r: Timestamp) {
    let now = chrono::Utc::now();
    Timestamp { secs: now.timestamp(), nanos: now.timestamp_subsec_nanos() }
}

/// Whether a text asks for an instant by its distance from now.
pub fn starts_with_minus(input: &str) -> (r: bool)
    ensures
        r == is_relative(input@),
{
    input.unicode_len() > 0 && input.get_char(0) == '-'
}

/// The part of a text that is handed to the date parser.
pub fn date_part(input: &str) -> (r: &str)
    ensures
        r@ == date_text(input@),
{
    if starts_with_minus(input) {
        input.substring_char(1, input.unicode_len())
    } else {
        input
    }
}

/// Settles a bound once the date parser and the clock have answered.
/// `parsed` is what the parser made of the date part of `input`; `asked` and
/// `now` are the clock's readings when the parser was asked and when the
/// bound is settled.
///
/// A text that the parser refused gives the message for an unreadable text.
/// A plain date is the bound itself. A text with a leading minus sign names a
/// distance: the parser has laid it off after `asked`, and the bound lies as
/// far before `now`; where that leaves the range of instants, the message
/// says so. Both messages name the bound.
pub fn resolve_bound(
    bound: Bound,
    input: &str,
    parsed: Option<Timestamp>,
    asked: Timestamp,
    now: Timestamp,
) -> (r: Result<Timestamp, String>)
    ensures
        settles(bound, input@, parsed, asked, now, r),
{
    let relative = starts_with_minus(input);
    match parsed {
        None => {
            let mut message = if relative {
                String::from_str("Invalid duration format for ")
            } else {
                String::from_str("Invalid timestamp format for ")
            };
            message.append(bound.variable());
            message.append(": ");
            message.append(input);
            Err(message)
        },
        Some(p) => {
            if !relative {
                return Ok(p);
            }
            let billion: i128 = 1_000_000_000;
            let later: i128 = (p.secs as i128) * billion + (p.nanos as i128);
            let first: i128 = (asked.secs as i128) * billion + (asked.nanos as i128);
            let second: i128 = (now.secs as i128) * billion + (now.nanos as i128);
            let total: i128 = second - (later - first);
            match Timestamp::from_nanoseconds(total) {
                Some(t) => Ok(t),
                None => {
                    let mut message = String::from_str("Date out of range for ");
                    message.append(bound.variable());
                    message.append(": ");
                    message.append(input);
                    Err(message)
                },
            }
        },
    }
}

/// Settles the `before` bound once the date parser and the clock have
/// answered, as `resolve_bound` does for either bound.
pub fn resolve_before(input: &str, parsed: Option<Timestamp>, asked: Timestamp, now: Timestamp) -> (r:
    Result<Timestamp, String>)
    ensures
        settles(Bound::Before, input@, parsed, asked, now, r),
{
    resolve_bound(Bound::Before, input, parsed, asked, now)
}

/// Reads a bound that a user wrote: a date, or a minus sign and a distance
/// back from now, such as `-30 days`. The date parser and the clock decide
/// which instant comes back; a text that the parser refuses, and a distance
/// that leads out of the range of instants, give a message that names the
/// bound and repeats the text.
pub fn parse_bound(bound: Bound, input: &str) -> (r: Result<Timestamp, String>)
    ensures
        read_from(bound, input@, r),
{
    let parsed = read_date(date_part(input));
    if parsed.is_some() && starts_with_minus(input) {
        let asked = current_time();
        let now = current_time();
        resolve_bound(bound, input, parsed, asked, now)
    } else {
        resolve_bound(bound, input, parsed, Timestamp::from_secs(0), Timestamp::from_secs(0))
    }
}

/// Reads the `before` bound that a user wrote: a date, or a minus sign and a
/// distance back from now, such as `-30 days`. The date parser and the clock
/// decide which instant comes back; a text that the parser refuses, and a
/// distance that leads out of the range of instants, give a message that
/// repeats the text.
pub fn parse_before(input: &str) -> (r: Result<Timestamp, String>)
    ensures
        match r {
            Ok(t) => t.nanos < 1_000_000_000,
            Err(e) => e@ == unreadable_before(input@) || (is_relative(input@) && e@
                == unreachable_before(input@)),
        },
{
    parse_bound(Bound::Before, input)
}

/// Reads the `after` bound that a user wrote, as `parse_before` reads the
/// `before` bound; its messages name the `after` bound.
pub fn parse_after(input: &str) -> (r: Result<Timestamp, String>)
    ensures
        read_from(Bound::After, input@, r),
{
    parse_bound(Bound::After, input)
}

/// A mode of a run that keeps items from being removed.
#[derive(Clone, Copy, Debug, PartialEq, Eq, Structural)]
pub enum Prevention {
    EditOnly,
    DryRun,
}

/// The `User-Agent` that is sent unless the user names another one.
pub const DEFAULT_USER_AGENT: &'static str = "ShredditRustClient";

impl Config {
    /// The configuration of a user who asks for nothing in particular and has
    /// not given any credentials yet: posts and comments are worked through,
    /// from the service's listings, with no filter and no mode set, and
    /// edited things are left with the usual replacement text.
    pub fn new(username: &str) -> (r: Config)
        ensures
            r.username@ == username@,
            r.password@ == Seq::<char>::empty(),
            r.client_id@ == Seq::<char>::empty(),
            r.client_secret@ == Seq::<char>::empty(),
            !r.dry_run,
            !r.edit_only,
            r.thing_types@ == seq![ThingType::Posts, ThingType::Comments],
            r.before.is_none(),
            r.after.is_none(),
            r.max_score.is_none(),
            r.replacement_comment@ == LOREM_IPSUM@,
            r.user_agent@ == DEFAULT_USER_AGENT@,
            r.gdpr_export_dir.is_none(),
            r.skip_subreddits.is_none(),
            r.only_subreddits.is_none(),
            r.skip_comment_ids.is_none(),
            r.skip_post_ids.is_none(),
            r.wf(),
    {
        let mut thing_types: Vec<ThingType> = Vec::new();
        thing_types.push(ThingType::Posts);
        thing_types.push(ThingType::Comments);
        Config {
            username: String::from_str(username),
            password: String::new(),
            client_id: String::new(),
            client_secret: String::new(),
            dry_run: false,
            thing_types,
            before: None,
            after: None,
            max_score: None,
            replacement_comment: String::from_str(LOREM_IPSUM),
            user_agent: String::from_str(DEFAULT_USER_AGENT),
            gdpr_export_dir: None,
            edit_only: false,
            skip_subreddits: None,
            only_subreddits: None,
            skip_comment_ids: None,
            skip_post_ids: None,
        }
    }

    /// A configuration is well formed when it does not name both the
    /// subreddits to skip and the only subreddits to touch.
    pub open spec fn wf(&self) -> bool {
        !(self.skip_subreddits.is_some() && self.only_subreddits.is_some())
    }

    /// Whether the configuration is well formed.
    pub fn is_consistent(&self) -> (r: bool)
        ensures
            r == self.wf(),
    {
        !(self.skip_subreddits.is_some() && self.only_subreddits.is_some())
    }

    /// The mode that keeps an item from being removed, if one does. A dry run
    /// keeps every item; edit-only mode keeps the items of a kind that has an
    /// edit phase, and no others: an item that cannot be edited is removed
    /// in edit-only mode as in any other.
    pub open spec fn prevention_spec(&self, has_edit_phase: bool) -> Option<Prevention> {
        if self.dry_run {
            Some(Prevention::DryRun)
        } else if self.edit_only && has_edit_phase {
            Some(Prevention::EditOnly)
        } else {
            None
        }
    }

    /// The mode that keeps an item from being removed, if one does, given
    /// whether the item's kind has an edit phase.
    pub fn prevention(&self, has_edit_phase: bool) -> (r: Option<Prevention>)
        ensures
            r == self.prevention_spec(has_edit_phase),
    {
        if self.dry_run {
            Some(Prevention::DryRun)
        } else if self.edit_only && has_edit_phase {
            Some(Prevention::EditOnly)
        } else {
            None
        }
    }

    /// Whether the run's mode keeps comments and posts from being removed: in
    /// edit-only mode and in a dry run.
    pub fn should_prevent_deletion(&self) -> (r: bool)
        ensures
            r == (self.edit_only || self.dry_run),
            r == self.prevention_spec(true).is_some(),
    {
        self.edit_only || self.dry_run
    }

    /// Whether an edit-only run will miss things: the service's listings end
    /// after about a thousand items, so only an export reaches them all.
    pub fn listing_is_partial(&self) -> (r: bool)
        ensures
            r == (self.edit_only && self.gdpr_export_dir.is_none()),
    {
        self.edit_only && self.gdpr_export_dir.is_none()
    }
}

} // verus!
