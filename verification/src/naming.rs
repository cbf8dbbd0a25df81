//! The names that native identifiers get in the emitted Rust code.

use vstd::prelude::*;
use vstd::std_specs::iter::IteratorSpec;

use crate::text::push_char;

verus! {

/// Whether `c` is one of the letters `a` to `z` or `A` to `Z`.
pub open spec fn is_letter(c: char) -> bool {
    ('a' <= c && c <= 'z') || ('A' <= c && c <= 'Z')
}

/// The capital of a letter from `a` to `z`; any other character itself.
pub open spec fn capital(c: char) -> char {
    if 'a' <= c && c <= 'z' {
        ((c as u8 - 32) as u8) as char
    } else {
        c
    }
}

/// The first `n` characters of `s` in camel case: underscores are dropped,
/// and the character at the start and each one behind an underscore is
/// written as a capital.
pub open spec fn camel_prefix(s: Seq<char>, n: nat) -> Seq<char>
    decreases n,
{
    if n == 0 {
        Seq::<char>::empty()
    } else {
        let before = camel_prefix(s, (n - 1) as nat);
        let c = s[n - 1];
        if c == '_' {
            before
        } else if n == 1 || s[n - 2] == '_' {
            before.push(capital(c))
        } else {
            before.push(c)
        }
    }
}

/// `s` in camel case.
pub open spec fn camel(s: Seq<char>) -> Seq<char> {
    camel_prefix(s, s.len())
}

/// What goes in front of the camel case of `name`: an underscore, unless
/// `name` starts with a letter.
pub open spec fn lead(name: Seq<char>) -> Seq<char> {
    if name.len() > 0 && is_letter(name[0]) {
        Seq::<char>::empty()
    } else {
        seq!['_']
    }
}

/// The name of the variant that stands for the native member `name`: the
/// name in camel case, with an underscore in front where `name` does not
/// start with a letter.
pub open spec fn member_name(name: Seq<char>) -> Seq<char> {
    lead(name) + camel(name)
}

fn to_capital(c: char) -> (capital_of_c: char)
    ensures
        capital_of_c == capital(c),
{
    if 'a' <= c && c <= 'z' {
        let code: u8 = c as u8;
        let raised: u8 = code - 32;
        raised as char
    } else {
        c
    }
}

/// The name of the variant that stands for the native member `name`.
pub fn enum_member_name(name: &str) -> (variant: String)
    ensures
        variant@ == member_name(name@),
{
    let mut out = String::new();
    let mut first: bool = true;
    let mut at_start: bool = true;
    for c in it: name.chars()
        invariant
            it.seq() == name@,
            first == (it.index() == 0),
            at_start == (it.index() == 0 || name@[it.index() - 1] == '_'),
            first ==> out@ == Seq::<char>::empty(),
            !first ==> out@ == lead(name@) + camel_prefix(name@, it.index() as nat),
    {
        if first {
            if !(('a' <= c && c <= 'z') || ('A' <= c && c <= 'Z')) {
                push_char(&mut out, '_');
            }
            first = false;
            assert(out@ =~= lead(name@) + camel_prefix(name@, 0));
        }
        if c == '_' {
            at_start = true;
        } else {
            if at_start {
                push_char(&mut out, to_capital(c));
            } else {
                push_char(&mut out, c);
            }
            at_start = false;
        }
    }
    if first {
        push_char(&mut out, '_');
    }
    out
}

} // verus!
