//! Text as sequences of characters: conversion between strings and character
//! vectors, decimal numerals, and the substitution of placeholders.
use vstd::prelude::*;

verus! {

/// `String::push` appends the character to the end of the string and leaves
/// what was there before untouched.
pub assume_specification[ String::push ](text: &mut String, ch: char)
    ensures
        final(text)@ == old(text)@.push(ch),
;

/// The characters of `text`, in order.
pub fn chars_of(text: &str) -> (chars: Vec<char>)
    ensures
        chars@ == text@,
{
    let mut chars: Vec<char> = Vec::new();
    for c in it: text.chars()
        invariant
            it.seq() == text@,
            chars@ == text@.subrange(0, it.index() as int),
    {
        chars.push(c);
    }
    chars
}

/// The string made of `chars`, in order.
pub fn string_of(chars: &Vec<char>) -> (text: String)
    ensures
        text@ == chars@,
{
    let mut text = String::new();
    let mut i: usize = 0;
    while i < chars.len()
        invariant
            i <= chars.len(),
            text@ == chars@.subrange(0, i as int),
        decreases chars.len() - i,
    {
        text.push(chars[i]);
        i += 1;
    }
    text
}

/// The numeral for a single digit; `'9'` for anything above.
pub open spec fn digit_char(d: nat) -> char {
    if d == 0 {
        '0'
    } else if d == 1 {
        '1'
    } else if d == 2 {
        '2'
    } else if d == 3 {
        '3'
    } else if d == 4 {
        '4'
    } else if d == 5 {
        '5'
    } else if d == 6 {
        '6'
    } else if d == 7 {
        '7'
    } else if d == 8 {
        '8'
    } else {
        '9'
    }
}

/// `n` written in base ten, most significant digit first, without leading
/// zeros; zero is written as `0`.
pub open spec fn decimal(n: nat) -> Seq<char>
    decreases n,
{
    if n < 10 {
        seq![digit_char(n)]
    } else {
        decimal(n / 10).push(digit_char(n % 10))
    }
}

fn digit(d: u32) -> (c: char)
    requires
        d < 10,
    ensures
        c == digit_char(d as nat),
{
    match d {
        0 => '0',
        1 => '1',
        2 => '2',
        3 => '3',
        4 => '4',
        5 => '5',
        6 => '6',
        7 => '7',
        8 => '8',
        _ => '9',
    }
}

/// The decimal numeral of `n` as characters.
pub fn decimal_chars(n: u32) -> (digits: Vec<char>)
    ensures
        digits@ == decimal(n as nat),
    decreases n,
{
    if n < 10 {
        let mut digits: Vec<char> = Vec::new();
        digits.push(digit(n));
        digits
    } else {
        let mut digits = decimal_chars(n / 10);
        digits.push(digit(n % 10));
        digits
    }
}

/// The decimal numeral of `n`.
pub fn decimal_string(n: u32) -> (text: String)
    ensures
        text@ == decimal(n as nat),
{
    let digits = decimal_chars(n);
    string_of(&digits)
}

/// `text` with each occurrence of `from` replaced by `to`. Occurrences are
/// found from the left and do not overlap; what was put in is not searched
/// again. An empty `from` occurs nowhere.
pub open spec fn replaced(text: Seq<char>, from: Seq<char>, to: Seq<char>) -> Seq<char>
    decreases text.len(),
{
    if from.len() == 0 || text.len() < from.len() {
        text
    } else if text.subrange(0, from.len() as int) == from {
        to + replaced(text.subrange(from.len() as int, text.len() as int), from, to)
    } else {
        seq![text[0]] + replaced(text.subrange(1, text.len() as int), from, to)
    }
}

/// Whether `from` stands in `text` at position `at`.
fn occurs_at(text: &Vec<char>, at: usize, from: &Vec<char>) -> (found: bool)
    requires
        at + from.len() <= text.len(),
    ensures
        found == (text@.subrange(at as int, at + from.len()) == from@),
{
    let mut k: usize = 0;
    while k < from.len()
        invariant
            k <= from.len(),
            at + from.len() <= text.len(),
            forall|j: int| 0 <= j < k ==> text@[at + j] == from@[j],
        decreases from.len() - k,
    {
        if text[at + k] != from[k] {
            return false;
        }
        k += 1;
    }
    assert(text@.subrange(at as int, at + from.len()) =~= from@);
    true
}

/// Replaces each occurrence of `from` in `text` by `to`.
pub fn replace_chars(text: &Vec<char>, from: &Vec<char>, to: &Vec<char>) -> (out: Vec<char>)
    ensures
        out@ == replaced(text@, from@, to@),
{
    let mut out: Vec<char> = Vec::new();
    let mut i: usize = 0;
    assert(text@.subrange(0, text@.len() as int) =~= text@);
    while i < text.len()
        invariant
            i <= text.len(),
            out@ + replaced(text@.subrange(i as int, text@.len() as int), from@, to@) == replaced(
                text@,
                from@,
                to@,
            ),
        decreases text.len() - i,
    {
        let ghost rest = text@.subrange(i as int, text@.len() as int);
        let ghost before = out@;
        if from.len() > 0 && from.len() <= text.len() - i && occurs_at(text, i, from) {
            let mut k: usize = 0;
            while k < to.len()
                invariant
                    k <= to.len(),
                    out@ == before + to@.subrange(0, k as int),
                decreases to.len() - k,
            {
                out.push(to[k]);
                k += 1;
            }
            i += from.len();
            proof {
                assert(rest.subrange(0, from@.len() as int) =~= text@.subrange(
                    i - from@.len(),
                    i as int,
                ));
                assert(rest.subrange(from@.len() as int, rest.len() as int) =~= text@.subrange(
                    i as int,
                    text@.len() as int,
                ));
            }
        } else {
            out.push(text[i]);
            i += 1;
            proof {
                let tail = text@.subrange(i as int, text@.len() as int);
                assert(rest.subrange(1, rest.len() as int) =~= tail);
                if from@.len() > 0 && from@.len() <= rest.len() {
                    assert(rest.subrange(0, from@.len() as int) =~= text@.subrange(
                        i - 1,
                        i - 1 + from@.len(),
                    ));
                }
            }
        }
    }
    out
}

/// `text` with each occurrence of `from` replaced by `to`.
pub fn replace(text: &str, from: &str, to: &str) -> (out: String)
    ensures
        out@ == replaced(text@, from@, to@),
{
    let out = replace_chars(&chars_of(text), &chars_of(from), &chars_of(to));
    string_of(&out)
}

} // verus!
