use vstd::prelude::*;
use vstd::string::*;

verus! {

/// Whether `s[a..b]` is one of the fields that the commas of `s` separate: it
/// holds no comma, and on either side it ends at a comma or at an end of `s`.
pub open spec fn is_field(s: Seq<char>, a: int, b: int) -> bool {
    &&& 0 <= a <= b <= s.len()
    &&& forall|k: int| a <= k < b ==> s[k] != ','
    &&& (a == 0 || s[a - 1] == ',')
    &&& (b == s.len() || s[b] == ',')
}

/// Whether `name` is one of the comma-separated fields of `s`. The empty text
/// has one field, the empty name.
pub open spec fn has_field(s: Seq<char>, name: Seq<char>) -> bool {
    exists|a: int, b: int| #[trigger] is_field(s, a, b) && s.subrange(a, b) == name
}

/// A set of names, written by the user as one comma-separated text. It serves
/// for subreddit names and for item ids alike.
#[derive(Debug)]
pub struct SubredditSet {
    names: Vec<String>,
}

/// The ids of comments that are to be left alone.
pub type CommentIdSet = SubredditSet;

/// The ids of posts that are to be left alone.
pub type PostIdSet = SubredditSet;

impl View for SubredditSet {
    type V = Set<Seq<char>>;

    closed spec fn view(&self) -> Set<Seq<char>> {
        Set::new(|name: Seq<char>| self.holds(name))
    }
}

impl SubredditSet {
    spec fn holds(&self, name: Seq<char>) -> bool {
        exists|i: int| 0 <= i < self.names.len() && (#[trigger] self.names[i])@ == name
    }

    /// The set without any name.
    pub fn new() -> (r: SubredditSet)
        ensures
            r@ == Set::<Seq<char>>::empty(),
    {
        let r = SubredditSet { names: Vec::new() };
        assert(r@ =~= Set::<Seq<char>>::empty());
        r
    }

    /// Adds one name to the set.
    pub fn insert(&mut self, name: &str)
        ensures
            final(self)@ == old(self)@.insert(name@),
    {
        let ghost before = self.names@;
        self.names.push(name.to_owned());
        proof {
            let after = self.names@;
            assert(after[before.len() as int]@ == name@);
            assert forall|n: Seq<char>| self.holds(n) <==> (old(self).holds(n) || n == name@) by {
                if old(self).holds(n) {
                    let i = choose|i: int| 0 <= i < before.len() && (#[trigger] before[i])@ == n;
                    assert(after[i]@ == n);
                }
                if self.holds(n) {
                    let i = choose|i: int| 0 <= i < after.len() && (#[trigger] after[i])@ == n;
                    if i < before.len() {
                        assert(before[i]@ == n);
                    }
                }
            }
            assert(self@ =~= old(self)@.insert(name@));
        }
    }

    /// Whether the set holds `name`.
    pub fn contains(&self, name: &str) -> (r: bool)
        ensures
            r == self@.contains(name@),
    {
        let wanted = name.to_owned();
        let mut i: usize = 0;
        while i < self.names.len()
            invariant
                i <= self.names.len(),
                wanted@ == name@,
                forall|k: int| 0 <= k < i ==> (#[trigger] self.names[k])@ != name@,
            decreases self.names.len() - i,
        {
            if self.names[i] == wanted {
                return true;
            }
            i += 1;
        }
        false
    }

    /// Reads a comma-separated text: the set holds each field of `s`, and
    /// nothing else. A text without a comma is one name, the empty text too.
    pub fn from(s: &str) -> (r: SubredditSet)
        ensures
            forall|name: Seq<char>| r@.contains(name) <==> has_field(s@, name),
    {
        let n = s.unicode_len();
        let mut set = SubredditSet::new();
        let mut start: usize = 0;
        let mut i: usize = 0;
        while i < n
            invariant
                n == s@.len(),
                start <= i <= n,
                forall|k: int| start <= k < i ==> s@[k] != ',',
                start == 0 || s@[start - 1] == ',',
                forall|name: Seq<char>|
                    set@.contains(name) <==> exists|a: int, b: int|
                        #[trigger] is_field(s@, a, b) && b < i && s@.subrange(a, b) == name,
            decreases n - i,
        {
            if s.get_char(i) == ',' {
                let field = s.substring_char(start, i);
                let ghost before = set@;
                set.insert(field);
                proof {
                    let a0 = start as int;
                    let b0 = i as int;
                    assert(is_field(s@, a0, b0));
                    assert forall|name: Seq<char>|
                        set@.contains(name) <==> exists|a: int, b: int|
                            #[trigger] is_field(s@, a, b) && b < i + 1 && s@.subrange(a, b)
                                == name by {
                        if exists|a: int, b: int|
                            #[trigger] is_field(s@, a, b) && b < i + 1 && s@.subrange(a, b)
                                == name {
                            let (a, b) = choose|a: int, b: int|
                                #[trigger] is_field(s@, a, b) && b < i + 1 && s@.subrange(a, b)
                                    == name;
                            if b == i {
                                if a < a0 {
                                    assert(s@[a0 - 1] == ',');
                                }
                                if a > a0 {
                                    assert(s@[a - 1] == ',');
                                }
                                assert(a == a0);
                            } else {
                                assert(is_field(s@, a, b) && b < i && s@.subrange(a, b) == name);
                            }
                        }
                        if before.contains(name) {
                            let (a, b) = choose|a: int, b: int|
                                #[trigger] is_field(s@, a, b) && b < i && s@.subrange(a, b)
                                    == name;
                            assert(is_field(s@, a, b) && b < i + 1 && s@.subrange(a, b) == name);
                        }
                    }
                }
                start = i + 1;
            }
            i += 1;
        }
        let field = s.substring_char(start, n);
        let ghost before = set@;
        set.insert(field);
        proof {
            let a0 = start as int;
            let b0 = n as int;
            assert(is_field(s@, a0, b0));
            assert forall|name: Seq<char>| set@.contains(name) <==> has_field(s@, name) by {
                if has_field(s@, name) {
                    let (a, b) = choose|a: int, b: int|
                        #[trigger] is_field(s@, a, b) && s@.subrange(a, b) == name;
                    if b == n {
                        if a < a0 {
                            assert(s@[a0 - 1] == ',');
                        }
                        if a > a0 {
                            assert(s@[a - 1] == ',');
                        }
                        assert(a == a0);
                    } else {
                        assert(is_field(s@, a, b) && b < n && s@.subrange(a, b) == name);
                    }
                }
                if before.contains(name) {
                    let (a, b) = choose|a: int, b: int|
                        #[trigger] is_field(s@, a, b) && b < n && s@.subrange(a, b) == name;
                    assert(is_field(s@, a, b));
                }
            }
        }
        set
    }
}

} // verus!
