//! The closed vocabulary of bill-version codes.
//!
//! A bill citation may end in a short lowercase tag naming a stage or printing
//! of the bill's text (`ih`, introduced in House; `enr`, enrolled; and so on).
//! The vocabulary is fixed: thirty-seven codes, matched case-insensitively
//! after folding.

use vstd::prelude::*;

verus! {

/// Whether `s` is exactly the one given character.
pub open spec fn chars1(s: Seq<char>, c0: char) -> bool {
    s.len() == 1 && s[0] == c0
}

/// Whether `s` is exactly the two given characters.
pub open spec fn chars2(s: Seq<char>, c0: char, c1: char) -> bool {
    s.len() == 2 && s[0] == c0 && s[1] == c1
}

/// Whether `s` is exactly the three given characters.
pub open spec fn chars3(s: Seq<char>, c0: char, c1: char, c2: char) -> bool {
    s.len() == 3 && s[0] == c0 && s[1] == c1 && s[2] == c2
}

/// Whether `s` is exactly the four given characters.
pub open spec fn chars4(s: Seq<char>, c0: char, c1: char, c2: char, c3: char) -> bool {
    s.len() == 4 && s[0] == c0 && s[1] == c1 && s[2] == c2 && s[3] == c3
}

/// Whether `s` is exactly the six given characters.
pub open spec fn chars6(s: Seq<char>, c0: char, c1: char, c2: char, c3: char, c4: char, c5: char) -> bool {
    s.len() == 6 && s[0] == c0 && s[1] == c1 && s[2] == c2 && s[3] == c3 && s[4] == c4 && s[5]
        == c5
}

/// Whether `v` is exactly the one given character.
pub fn eq_chars1(v: &Vec<char>, c0: char) -> (r: bool)
    ensures
        r == chars1(v@, c0),
{
    v.len() == 1 && v[0] == c0
}

/// Whether `v` is exactly the two given characters.
pub fn eq_chars2(v: &Vec<char>, c0: char, c1: char) -> (r: bool)
    ensures
        r == chars2(v@, c0, c1),
{
    v.len() == 2 && v[0] == c0 && v[1] == c1
}

/// Whether `v` is exactly the three given characters.
pub fn eq_chars3(v: &Vec<char>, c0: char, c1: char, c2: char) -> (r: bool)
    ensures
        r == chars3(v@, c0, c1, c2),
{
    v.len() == 3 && v[0] == c0 && v[1] == c1 && v[2] == c2
}

/// Whether `v` is exactly the four given characters.
pub fn eq_chars4(v: &Vec<char>, c0: char, c1: char, c2: char, c3: char) -> (r: bool)
    ensures
        r == chars4(v@, c0, c1, c2, c3),
{
    v.len() == 4 && v[0] == c0 && v[1] == c1 && v[2] == c2 && v[3] == c3
}

/// Whether `v` is exactly the six given characters.
pub fn eq_chars6(v: &Vec<char>, c0: char, c1: char, c2: char, c3: char, c4: char, c5: char) -> (r:
    bool)
    ensures
        r == chars6(v@, c0, c1, c2, c3, c4, c5),
{
    v.len() == 6 && v[0] == c0 && v[1] == c1 && v[2] == c2 && v[3] == c3 && v[4] == c4 && v[5]
        == c5
}

/// Whether `s` (already folded to lower case) is one of the thirty-seven
/// bill-version codes.
pub open spec fn spec_is_bill_version(s: Seq<char>) -> bool {
    ||| chars2(s, 'a', 's')
    ||| chars3(s, 'a', 's', 'h')
    ||| chars3(s, 'a', 't', 'h')
    ||| chars3(s, 'a', 't', 's')
    ||| chars3(s, 'c', 'd', 'h')
    ||| chars3(s, 'c', 'd', 's')
    ||| chars3(s, 'c', 'p', 'h')
    ||| chars3(s, 'c', 'p', 's')
    ||| chars3(s, 'e', 'a', 'h')
    ||| chars3(s, 'e', 'a', 's')
    ||| chars2(s, 'e', 'h')
    ||| chars3(s, 'e', 'n', 'r')
    ||| chars2(s, 'e', 's')
    ||| chars3(s, 'f', 'p', 'h')
    ||| chars3(s, 'f', 'p', 's')
    ||| chars3(s, 'h', 'd', 's')
    ||| chars2(s, 'i', 'h')
    ||| chars3(s, 'i', 'p', 'h')
    ||| chars3(s, 'i', 'p', 's')
    ||| chars2(s, 'i', 's')
    ||| chars3(s, 'l', 't', 'h')
    ||| chars3(s, 'l', 't', 's')
    ||| chars3(s, 'p', 'a', 'p')
    ||| chars3(s, 'p', 'c', 's')
    ||| chars2(s, 'p', 'p')
    ||| chars3(s, 'r', 'c', 'h')
    ||| chars3(s, 'r', 'c', 's')
    ||| chars3(s, 'r', 'd', 's')
    ||| chars3(s, 'r', 'f', 'h')
    ||| chars3(s, 'r', 'f', 's')
    ||| chars2(s, 'r', 'h')
    ||| chars4(s, 'r', 'h', 'u', 'c')
    ||| chars3(s, 'r', 'i', 'h')
    ||| chars2(s, 'r', 's')
    ||| chars3(s, 'r', 't', 'h')
    ||| chars3(s, 'r', 't', 's')
    ||| chars2(s, 's', 'c')
}

/// Whether `v` (already folded to lower case) is one of the thirty-seven
/// bill-version codes.
pub fn is_bill_version(v: &Vec<char>) -> (r: bool)
    ensures
        r == spec_is_bill_version(v@),
{
    eq_chars2(v, 'a', 's') || eq_chars3(v, 'a', 's', 'h') || eq_chars3(v, 'a', 't', 'h')
        || eq_chars3(v, 'a', 't', 's') || eq_chars3(v, 'c', 'd', 'h') || eq_chars3(
        v,
        'c',
        'd',
        's',
    ) || eq_chars3(v, 'c', 'p', 'h') || eq_chars3(v, 'c', 'p', 's') || eq_chars3(v, 'e', 'a', 'h')
        || eq_chars3(v, 'e', 'a', 's') || eq_chars2(v, 'e', 'h') || eq_chars3(v, 'e', 'n', 'r')
        || eq_chars2(v, 'e', 's') || eq_chars3(v, 'f', 'p', 'h') || eq_chars3(v, 'f', 'p', 's')
        || eq_chars3(v, 'h', 'd', 's') || eq_chars2(v, 'i', 'h') || eq_chars3(v, 'i', 'p', 'h')
        || eq_chars3(v, 'i', 'p', 's') || eq_chars2(v, 'i', 's') || eq_chars3(v, 'l', 't', 'h')
        || eq_chars3(v, 'l', 't', 's') || eq_chars3(v, 'p', 'a', 'p') || eq_chars3(
        v,
        'p',
        'c',
        's',
    ) || eq_chars2(v, 'p', 'p') || eq_chars3(v, 'r', 'c', 'h') || eq_chars3(v, 'r', 'c', 's')
        || eq_chars3(v, 'r', 'd', 's') || eq_chars3(v, 'r', 'f', 'h') || eq_chars3(v, 'r', 'f', 's')
        || eq_chars2(v, 'r', 'h') || eq_chars4(v, 'r', 'h', 'u', 'c') || eq_chars3(
        v,
        'r',
        'i',
        'h',
    ) || eq_chars2(v, 'r', 's') || eq_chars3(v, 'r', 't', 'h') || eq_chars3(v, 'r', 't', 's')
        || eq_chars2(v, 's', 'c')
}

} // verus!
