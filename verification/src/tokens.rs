//! The tokenized segments of a citation string.
//!
//! Tokenization is total: it cuts any string into five positional segments by
//! greedy character-class scanning and never fails. Whatever trails after the
//! last segment is discarded; every rejection of an input happens later, in
//! the typed validation of the segments.

use vstd::prelude::*;
use vstd::string::StrSliceExecFns;
use crate::scan::{chamber_letter_check, collect_range, run_len, is_chamber_letter, scan_run,
    CharClass};

verus! {

/// The five raw segments the tokenizer cuts a citation string into: congress
/// digits, chamber letter (absent if the character after the congress digits
/// is no chamber letter), object-type letters, document-number digits, and
/// trailing version letters (absent if there are none).
#[derive(Debug, PartialEq)]
pub struct CiteParts {
    /// Leading decimal digits naming the congress.
    pub congress: Vec<char>,
    /// The chamber letter: one of `h`, `H`, `s`, `S`, if present.
    pub chamber: Option<char>,
    /// The letters naming the kind of document, case preserved.
    pub object_type: Vec<char>,
    /// The decimal digits of the document number.
    pub number: Vec<char>,
    /// The trailing letters naming a bill version, if there are any.
    pub ver: Option<Vec<char>>,
}

/// The mathematical value of [`CiteParts`]: each segment as a sequence of
/// characters.
pub struct CitePartsView {
    /// Leading decimal digits naming the congress.
    pub congress: Seq<char>,
    /// The chamber letter, if present.
    pub chamber: Option<char>,
    /// The letters naming the kind of document, case preserved.
    pub object_type: Seq<char>,
    /// The decimal digits of the document number.
    pub number: Seq<char>,
    /// The trailing version letters, if there are any.
    pub ver: Option<Seq<char>>,
}

impl View for CiteParts {
    type V = CitePartsView;

    open spec fn view(&self) -> CitePartsView {
        CitePartsView {
            congress: self.congress@,
            chamber: self.chamber,
            object_type: self.object_type@,
            number: self.number@,
            ver: match self.ver {
                Some(v) => Some(v@),
                None => None,
            },
        }
    }
}

/// Where each segment of `s` ends: the congress digits, the optional chamber
/// letter, the object-type letters, the number digits, and the version
/// letters, scanned left to right, each a maximal run of its class.
pub open spec fn segment_bounds(s: Seq<char>) -> (int, int, int, int, int) {
    let congress_end = run_len(s, 0, CharClass::Digit);
    let chamber_end = if congress_end < s.len() && is_chamber_letter(s[congress_end]) {
        congress_end + 1
    } else {
        congress_end
    };
    let type_end = chamber_end + run_len(s, chamber_end, CharClass::Alpha);
    let number_end = type_end + run_len(s, type_end, CharClass::Digit);
    let ver_end = number_end + run_len(s, number_end, CharClass::Alpha);
    (congress_end, chamber_end, type_end, number_end, ver_end)
}

/// The tokenization of `s`: its five segments, as sequences of characters.
pub open spec fn spec_tokenize(s: Seq<char>) -> CitePartsView {
    let (congress_end, chamber_end, type_end, number_end, ver_end) = segment_bounds(s);
    CitePartsView {
        congress: s.subrange(0, congress_end),
        chamber: if chamber_end == congress_end + 1 {
            Some(s[congress_end])
        } else {
            None
        },
        object_type: s.subrange(chamber_end, type_end),
        number: s.subrange(type_end, number_end),
        ver: if number_end == ver_end {
            None
        } else {
            Some(s.subrange(number_end, ver_end))
        },
    }
}

/// Cut `input` into its five segments. Total: any string tokenizes, and
/// whatever the five scans leave unconsumed is discarded.
pub fn tokenize(input: &str) -> (r: CiteParts)
    ensures
        r@ == spec_tokenize(input@),
{
    let n: usize = input.unicode_len();
    let congress_end: usize = scan_run(input, 0, CharClass::Digit);
    let congress = collect_range(input, 0, congress_end);
    let mut chamber: Option<char> = None;
    let mut chamber_end: usize = congress_end;
    if congress_end < n {
        let c = input.get_char(congress_end);
        if chamber_letter_check(c) {
            chamber = Some(c);
            chamber_end = congress_end + 1;
        }
    }
    let type_end: usize = scan_run(input, chamber_end, CharClass::Alpha);
    let object_type = collect_range(input, chamber_end, type_end);
    let number_end: usize = scan_run(input, type_end, CharClass::Digit);
    let number = collect_range(input, type_end, number_end);
    let ver_end: usize = scan_run(input, number_end, CharClass::Alpha);
    let ver = if number_end == ver_end {
        None
    } else {
        Some(collect_range(input, number_end, ver_end))
    };
    CiteParts { congress, chamber, object_type, number, ver }
}

} // verus!
