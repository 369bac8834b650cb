//! Character classes and maximal-run scanning over citation strings.
//!
//! The tokenizer cuts a citation into five positional segments, each a maximal
//! run of one character class. This module defines the classes, the length of
//! a maximal run as a specification function, and the executable scan that
//! realises it.

use vstd::prelude::*;
use vstd::string::StrSliceExecFns;

verus! {

/// A character class the tokenizer scans by.
#[derive(Clone, Copy, Debug)]
pub enum CharClass {
    /// An ASCII decimal digit, `0` through `9`.
    Digit,
    /// An ASCII alphabetic letter, `a` through `z` or `A` through `Z`.
    Alpha,
}

/// Whether `c` belongs to the class `cls`.
pub open spec fn in_class(cls: CharClass, c: char) -> bool {
    match cls {
        CharClass::Digit => '0' as u32 <= c as u32 && c as u32 <= '9' as u32,
        CharClass::Alpha => ('a' as u32 <= c as u32 && c as u32 <= 'z' as u32) || ('A' as u32
            <= c as u32 && c as u32 <= 'Z' as u32),
    }
}

/// Whether `c` names a chamber: one of `h`, `H`, `s`, `S`.
pub open spec fn is_chamber_letter(c: char) -> bool {
    c == 'h' || c == 'H' || c == 's' || c == 'S'
}

/// The length of the maximal run of characters of class `cls` in `s`
/// beginning at position `from`.
pub open spec fn run_len(s: Seq<char>, from: int, cls: CharClass) -> int
    decreases s.len() - from,
{
    if from < 0 || from >= s.len() {
        0
    } else if in_class(cls, s[from]) {
        1 + run_len(s, from + 1, cls)
    } else {
        0
    }
}

/// A stretch of characters of class `cls`, ended by the end of the string or
/// by a character outside the class, is exactly the maximal run.
pub proof fn lemma_run_len_is(s: Seq<char>, from: int, to: int, cls: CharClass)
    requires
        0 <= from <= to <= s.len(),
        forall|k: int| from <= k < to ==> in_class(cls, s[k]),
        to == s.len() || !in_class(cls, s[to]),
    ensures
        run_len(s, from, cls) == to - from,
    decreases to - from,
{
    if from < to {
        lemma_run_len_is(s, from + 1, to, cls);
    }
}

/// Whether `c` belongs to the class `cls`.
pub fn class_check(cls: CharClass, c: char) -> (r: bool)
    ensures
        r == in_class(cls, c),
{
    let u: u32 = c as u32;
    match cls {
        CharClass::Digit => 48 <= u && u <= 57,
        CharClass::Alpha => (97 <= u && u <= 122) || (65 <= u && u <= 90),
    }
}

/// Whether `c` names a chamber: one of `h`, `H`, `s`, `S`.
pub fn chamber_letter_check(c: char) -> (r: bool)
    ensures
        r == is_chamber_letter(c),
{
    c == 'h' || c == 'H' || c == 's' || c == 'S'
}

/// Whether a scan of class `cls` may continue at position `i` of `s`: `i` is
/// inside the string and the character there belongs to the class.
fn continues(s: &str, i: usize, cls: CharClass) -> (r: bool)
    requires
        i <= s@.len(),
    ensures
        r == (i < s@.len() && in_class(cls, s@[i as int])),
{
    if i == s.unicode_len() {
        false
    } else {
        class_check(cls, s.get_char(i))
    }
}

/// The position where the maximal run of class `cls` beginning at `from` ends.
pub fn scan_run(s: &str, from: usize, cls: CharClass) -> (end: usize)
    requires
        from <= s@.len(),
    ensures
        end as int == from + run_len(s@, from as int, cls),
        from <= end <= s@.len(),
{
    let n: usize = s.unicode_len();
    let mut i: usize = from;
    while continues(s, i, cls)
        invariant
            n == s@.len(),
            from <= i <= n,
            forall|k: int| from <= k < i ==> in_class(cls, s@[k]),
        decreases s@.len() - i,
    {
        i = i + 1;
    }
    proof {
        lemma_run_len_is(s@, from as int, i as int, cls);
    }
    i
}

/// The characters of `s` from `from` (inclusive) to `to` (exclusive).
pub fn collect_range(s: &str, from: usize, to: usize) -> (v: Vec<char>)
    requires
        from <= to <= s@.len(),
    ensures
        v@ == s@.subrange(from as int, to as int),
{
    let mut v: Vec<char> = Vec::new();
    let mut i: usize = from;
    while i < to
        invariant
            from <= i <= to <= s@.len(),
            v@ == s@.subrange(from as int, i as int),
        decreases to - i,
    {
        let c = s.get_char(i);
        v.push(c);
        i = i + 1;
        proof {
            assert(v@ =~= s@.subrange(from as int, i as int));
        }
    }
    v
}

} // verus!
