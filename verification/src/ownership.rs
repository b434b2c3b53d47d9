//! Ownership, borrowing and slices over heap-backed text values.

use vstd::prelude::*;
use vstd::slice::slice_subrange;
use vstd::string::*;
use vstd::utf8::encode_utf8;

verus! {

/// Allocates a text value and hands ownership of it to the caller.
pub fn gives_ownership() -> (r: String)
    ensures
        r@ == "yours"@,
{
    let some_string: String = "yours".to_owned();
    some_string
}

/// Borrows a text value and reports its length in bytes — the length of its
/// UTF-8 encoding — leaving the caller the owner.
pub fn calculate_length(s: &String) -> (r: usize)
    ensures
        r == encode_utf8(s@).len(),
{
    let bytes: &[u8] = s.as_str().as_bytes();
    bytes.len()
}

/// Through a mutable borrow, appends ", world" to the text value in place.
pub fn change(some_string: &mut String)
    ensures
        final(some_string)@ == old(some_string)@ + ", world"@,
{
    some_string.append(", world");
}

/// The first whitespace-delimited token of the input: the longest prefix that
/// holds no space character, which is the whole input when it has none.
pub fn first_word<'a>(s: &'a str) -> (r: &'a str)
    ensures
        r@.len() <= s@.len(),
        r@ == s@.subrange(0, r@.len() as int),
        forall|j: int| 0 <= j < r@.len() ==> s@[j] != ' ',
        r@.len() < s@.len() ==> s@[r@.len() as int] == ' ',
{
    let n: usize = s.unicode_len();
    let mut i: usize = 0;
    while i < n
        invariant
            0 <= i <= n,
            n == s@.len(),
            forall|j: int| 0 <= j < i ==> s@[j] != ' ',
        decreases n - i,
    {
        if s.get_char(i) == ' ' {
            return s.substring_char(0, i);
        }
        i = i + 1;
    }
    proof {
        assert(s@.subrange(0, s@.len() as int) =~= s@);
    }
    s
}

/// An input that holds no space character is its own first token: any result
/// that meets the contract of [`first_word`] on such an input is the whole
/// input.
pub proof fn lemma_first_word_of_spaceless_input(s: Seq<char>, r: Seq<char>)
    requires
        r.len() <= s.len(),
        r == s.subrange(0, r.len() as int),
        r.len() < s.len() ==> s[r.len() as int] == ' ',
        forall|j: int| 0 <= j < s.len() ==> s[j] != ' ',
    ensures
        r == s,
{
    assert(r.len() == s.len());
    assert(s.subrange(0, s.len() as int) =~= s);
}

/// A read-only view over the subrange `[start, end)` of a sequence of
/// integers, start inclusive and end exclusive.
pub fn slice_range<'a>(a: &'a [i32], start: usize, end: usize) -> (r: &'a [i32])
    requires
        start <= end <= a@.len(),
    ensures
        r@ == a@.subrange(start as int, end as int),
{
    slice_subrange(a, start, end)
}

} // verus!
