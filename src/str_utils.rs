//! Shorthands on string slices.
use vstd::prelude::*;
use vstd::string::StrSliceExecFns;

verus! {

/// Whether `part` occurs in `s` as a run of consecutive characters.
pub open spec fn occurs_in(part: Seq<char>, s: Seq<char>) -> bool {
    exists|i: int| 0 <= i <= s.len() - part.len() && #[trigger] s.subrange(i, i + part.len()) == part
}

/// What `char::to_uppercase` gives for a character.
pub uninterp spec fn upper_of(c: char) -> Seq<char>;

/// Relies on `str::contains` with a `&str` pattern: true exactly when the
/// pattern matches a sub-slice of the string.
#[verifier::external_body]
fn str_contains(s: &str, part: &str) -> (r: bool)
    ensures
        r == occurs_in(part@, s@),
{
    s.contains(part)
}

/// Relies on `char::to_uppercase`: the upper-case mapping of one character,
/// which depends on the character alone.
#[verifier::external_body]
fn char_upper(c: char) -> (r: String)
    ensures
        r@ == upper_of(c),
{
    c.to_uppercase().collect::<String>()
}

/// The title case of `s`, given `first_upper`, the upper-case form of its
/// first character: empty for an empty `s`, else `first_upper` followed by
/// all of `s` but its first character.
pub fn title_case_with(first_upper: &str, s: &str) -> (r: String)
    ensures
        s@.len() == 0 ==> r@ == Seq::<char>::empty(),
        s@.len() > 0 ==> r@ == first_upper@ + s@.subrange(1, s@.len() as int),
{
    let n: usize = s.unicode_len();
    if n == 0 {
        String::new()
    } else {
        let rest = s.substring_char(1, n);
        String::from_str(first_upper).concat(rest)
    }
}

/// Extra methods for string slices.
pub trait StrUtils {
    /// Whether every one of `parts` occurs in the string.
    fn contains_all(&self, parts: &[&str]) -> bool;

    /// Whether at least one of `parts` occurs in the string.
    fn contains_any(&self, parts: &[&str]) -> bool;

    /// The string with its first character upper-cased.
    fn to_title_case(&self) -> String;
}

impl StrUtils for str {
    fn contains_all(&self, parts: &[&str]) -> (r: bool)
        ensures
            r == forall|i: int| 0 <= i < parts@.len() ==> occurs_in(#[trigger] parts@[i]@, self@),
    {
        let mut i: usize = 0;
        while i < parts.len()
            invariant
                i <= parts@.len(),
                forall|j: int| 0 <= j < i ==> occurs_in(#[trigger] parts@[j]@, self@),
            decreases parts@.len() - i,
        {
            if !str_contains(self, parts[i]) {
                return false;
            }
            i = i + 1;
        }
        true
    }

    fn contains_any(&self, parts: &[&str]) -> (r: bool)
        ensures
            r == exists|i: int| 0 <= i < parts@.len() && occurs_in(#[trigger] parts@[i]@, self@),
    {
        let mut i: usize = 0;
        while i < parts.len()
            invariant
                i <= parts@.len(),
                forall|j: int| 0 <= j < i ==> !occurs_in(#[trigger] parts@[j]@, self@),
            decreases parts@.len() - i,
        {
            if str_contains(self, parts[i]) {
                return true;
            }
            i = i + 1;
        }
        false
    }

    fn to_title_case(&self) -> (r: String)
        ensures
            self@.len() == 0 ==> r@ == Seq::<char>::empty(),
            self@.len() > 0 ==> r@ == upper_of(self@[0]) + self@.subrange(1, self@.len() as int),
    {
        if self.unicode_len() == 0 {
            String::new()
        } else {
            let first = char_upper(self.get_char(0));
            title_case_with(first.as_str(), self)
        }
    }
}

} // verus!
