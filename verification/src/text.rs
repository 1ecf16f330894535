//! Text helpers shared by the editor and the screen: what the standard
//! string operations that the editor relies on do to a string's characters.

use std::borrow::Cow;
use vstd::prelude::*;

verus! {

/// `String::push` appends the given character to the end of the string.
pub assume_specification[ String::push ](s: &mut String, ch: char)
    ensures
        final(s)@ == old(s)@.push(ch),
;

/// `String::pop` removes the last character and returns it; on an empty
/// string it returns `None` and leaves the string empty.
pub assume_specification[ String::pop ](s: &mut String) -> (last: Option<char>)
    ensures
        old(s)@.len() == 0 ==> last is None && final(s)@ == old(s)@,
        old(s)@.len() > 0 ==> last == Some(old(s)@.last()) && final(s)@ == old(s)@.drop_last(),
;

/// `String::clear` removes every character of the string.
pub assume_specification[ String::clear ](s: &mut String)
    ensures
        final(s)@ == Seq::<char>::empty(),
;

/// The characters of `n` copies of `ch`.
pub open spec fn repeated(ch: char, n: nat) -> Seq<char> {
    Seq::new(n, |i: int| ch)
}

/// A string of `n` copies of `ch`.
pub fn repeat_char(ch: char, n: usize) -> (out: String)
    ensures
        out@ == repeated(ch, n as nat),
{
    let mut out = String::new();
    let mut i: usize = 0;
    while i < n
        invariant
            i <= n,
            out@ == repeated(ch, i as nat),
        decreases n - i,
    {
        out.push(ch);
        i = i + 1;
    }
    out
}

/// An owned copy of a shared or owned text fragment.
pub fn cow_to_string(text: &Cow<'static, str>) -> (out: String)
    ensures
        out@ == text@,
{
    match text {
        Cow::Borrowed(s) => (*s).to_owned(),
        Cow::Owned(s) => s.clone(),
    }
}

} // verus!
