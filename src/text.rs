//! String helpers shared by the naming, emission and linker modules.

use vstd::prelude::*;

verus! {

/// `s` with every occurrence of `from` replaced by `to`.
pub open spec fn replaced(s: Seq<char>, from: char, to: char) -> Seq<char> {
    Seq::new(s.len(), |i: int| if s[i] == from { to } else { s[i] })
}

/// The parts separated by single spaces.
pub open spec fn spaced(parts: Seq<Seq<char>>) -> Seq<char>
    decreases parts.len(),
{
    if parts.len() == 0 {
        seq![]
    } else if parts.len() == 1 {
        parts[0]
    } else {
        spaced(parts.drop_last()) + " "@ + parts.last()
    }
}

/// The characters of a string in upper case.
pub uninterp spec fn upper_of(s: Seq<char>) -> Seq<char>;

/// Relies on `str::to_uppercase`: the result depends on the characters alone.
#[verifier::external_body]
pub(crate) fn uppercase(s: &str) -> (r: String)
    ensures
        r@ == upper_of(s@),
{
    s.to_uppercase()
}

/// Whether two strings hold the same characters.
pub fn str_eq(a: &str, b: &str) -> (r: bool)
    ensures
        r == (a@ == b@),
{
    String::from_str(a) == String::from_str(b)
}

/// Whether `list` holds a string equal to `s`.
pub fn contains_str(list: &Vec<String>, s: &str) -> (r: bool)
    ensures
        r == list.deep_view().contains(s@),
{
    let wanted = String::from_str(s);
    let mut i: usize = 0;
    while i < list.len()
        invariant
            i <= list.len(),
            wanted@ == s@,
            forall|j: int| 0 <= j < i ==> list.deep_view()[j] != s@,
        decreases list.len() - i,
    {
        if list[i] == wanted {
            assert(list.deep_view()[i as int] == s@);
            return true;
        }
        i = i + 1;
    }
    assert(!list.deep_view().contains(s@));
    false
}

/// Replaces every `from` of `s` by the single character that `to` holds.
pub fn replace_char(s: &str, from: char, to: &str) -> (r: String)
    requires
        to@.len() == 1,
    ensures
        r@ == replaced(s@, from, to@[0]),
{
    let n = s.unicode_len();
    let mut r = String::new();
    let mut i: usize = 0;
    while i < n
        invariant
            n == s@.len(),
            i <= n,
            to@.len() == 1,
            r@ =~= replaced(s@.subrange(0, i as int), from, to@[0]),
        decreases n - i,
    {
        let c = s.get_char(i);
        if c == from {
            r.append(to);
        } else {
            r.append(s.substring_char(i, i + 1));
        }
        assert(r@ =~= replaced(s@.subrange(0, i + 1), from, to@[0]));
        i = i + 1;
    }
    assert(s@.subrange(0, n as int) =~= s@);
    r
}

/// Joins the parts with single spaces.
pub fn join_spaced(parts: &Vec<String>) -> (r: String)
    ensures
        r@ == spaced(parts.deep_view()),
{
    let mut r = String::new();
    let mut i: usize = 0;
    while i < parts.len()
        invariant
            i <= parts.len(),
            r@ == spaced(parts.deep_view().subrange(0, i as int)),
        decreases parts.len() - i,
    {
        let ghost prefix = parts.deep_view().subrange(0, i + 1);
        assert(prefix.drop_last() =~= parts.deep_view().subrange(0, i as int));
        if i == 0 {
            r = parts[i].clone();
            assert(r@ == parts.deep_view()[0]);
        } else {
            r.append(" ");
            r.append(parts[i].as_str());
        }
        assert(r@ =~= spaced(prefix));
        i = i + 1;
    }
    assert(parts.deep_view().subrange(0, i as int) =~= parts.deep_view());
    r
}

} // verus!
