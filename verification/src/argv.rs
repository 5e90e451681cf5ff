//! Building the argument list of a command line.
//!
//! An argument list is a `Vec<String>`; contracts speak of it as a sequence
//! of character sequences, its `deep_view`.

use crate::text::{decimal, decimal_text, string_view};
use vstd::prelude::*;

verus! {

/// A flag and its value where there is a value, else nothing.
pub open spec fn optional(flag: Seq<char>, value: Option<Seq<char>>) -> Seq<Seq<char>> {
    match value {
        Some(v) => seq![flag, v],
        None => Seq::empty(),
    }
}

/// A flag and a number in decimal where there is a number, else nothing.
pub open spec fn optional_number(flag: Seq<char>, value: Option<nat>) -> Seq<Seq<char>> {
    match value {
        Some(n) => seq![flag, decimal(n)],
        None => Seq::empty(),
    }
}

/// A flag where it is switched on, else nothing.
pub open spec fn switch(flag: Seq<char>, on: bool) -> Seq<Seq<char>> {
    if on {
        seq![flag]
    } else {
        Seq::empty()
    }
}

/// Appends one argument.
pub fn push_arg(args: &mut Vec<String>, value: String)
    ensures
        final(args).deep_view() == old(args).deep_view().push(value@),
{
    args.push(value);
    assert(args.deep_view() =~= old(args).deep_view().push(value@));
}

/// Appends one argument given as a string slice.
pub fn push_word(args: &mut Vec<String>, word: &str)
    ensures
        final(args).deep_view() == old(args).deep_view().push(word@),
{
    push_arg(args, word.to_string());
}

/// Appends a number in decimal.
pub fn push_number(args: &mut Vec<String>, n: u128)
    ensures
        final(args).deep_view() == old(args).deep_view().push(decimal(n as nat)),
{
    push_arg(args, decimal_text(n));
}

/// Appends `flag` and the value, where there is a value.
pub fn push_optional(args: &mut Vec<String>, flag: &str, value: Option<String>)
    ensures
        final(args).deep_view() == old(args).deep_view() + optional(flag@, string_view(value)),
{
    match value {
        Some(v) => {
            push_word(args, flag);
            push_arg(args, v);
            assert(args.deep_view() =~= old(args).deep_view() + seq![flag@, v@]);
        },
        None => {
            assert(args.deep_view() =~= old(args).deep_view() + Seq::<Seq<char>>::empty());
        },
    }
}

/// Appends `flag` where `on` holds.
pub fn push_switch(args: &mut Vec<String>, flag: &str, on: bool)
    ensures
        final(args).deep_view() == old(args).deep_view() + switch(flag@, on),
{
    if on {
        push_word(args, flag);
        assert(args.deep_view() =~= old(args).deep_view() + seq![flag@]);
    } else {
        assert(args.deep_view() =~= old(args).deep_view() + Seq::<Seq<char>>::empty());
    }
}

/// An argument list of one word.
pub fn one_word(word: &str) -> (args: Vec<String>)
    ensures
        args.deep_view() == seq![word@],
{
    let mut args: Vec<String> = Vec::new();
    assert(args.deep_view() =~= Seq::<Seq<char>>::empty());
    push_word(&mut args, word);
    assert(args.deep_view() =~= seq![word@]);
    args
}

/// An argument list of a word and one argument.
pub fn word_and_arg(word: &str, value: String) -> (args: Vec<String>)
    ensures
        args.deep_view() == seq![word@, value@],
{
    let mut args = one_word(word);
    push_arg(&mut args, value);
    assert(args.deep_view() =~= seq![word@, value@]);
    args
}

} // verus!
