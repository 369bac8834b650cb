//! Properties of parsing and rendering, stated and proved once for all
//! inputs.

use vstd::prelude::*;
use crate::citation::{spec_chamber, spec_congress, spec_object_type, spec_parse, spec_to_url,
    CitationView, Chamber};
use crate::digits::{digits_value, lemma_dec_str_value, parses_to_u64, spec_dec_str};
use crate::error::Error;
use crate::scan::{in_class, lemma_run_len_is, CharClass};
use crate::text::to_lower;
use crate::tokens::spec_tokenize;

verus! {

/// Round-trip canonicalization: the URL rendered for a parsed citation is one
/// fixed string, a function of the input text and the congress bound alone,
/// so repeated parsing and rendering of one valid citation string cannot
/// differ between calls.
pub proof fn lemma_canonical_url(s: Seq<char>, current: u64, c1: CitationView, c2: CitationView)
    requires
        spec_parse(s, current) == Ok::<CitationView, Error>(c1),
        spec_parse(s, current) == Ok::<CitationView, Error>(c2),
    ensures
        spec_to_url(c1) == spec_to_url(c2),
{
}

/// A citation naming the congress after the one now in session is rejected as
/// out of range: whatever the current congress, the text `{current + 1}hr51`
/// fails with `CongressOutOfRange`.
pub proof fn lemma_future_congress_rejected(current: u64)
    requires
        current < u64::MAX,
    ensures
        spec_parse(spec_dec_str((current + 1) as nat) + "hr51"@, current) == Err::<
            CitationView,
            Error,
        >(Error::CongressOutOfRange),
{
    let d = spec_dec_str((current + 1) as nat);
    let s = d + "hr51"@;
    lemma_dec_str_value((current + 1) as nat);
    reveal_strlit("hr51");
    assert(s.len() == d.len() + 4);
    assert(s[d.len() as int] == 'h');
    assert(!in_class(CharClass::Digit, 'h'));
    assert(forall|k: int| 0 <= k < d.len() ==> s[k] == d[k]);
    lemma_run_len_is(s, 0, d.len() as int, CharClass::Digit);
    let t = spec_tokenize(s);
    assert(t.congress =~= d);
    assert(digits_value(t.congress) == current + 1);
    assert(parses_to_u64(t.congress));
    assert(spec_congress(t.congress, current) == Err::<crate::citation::Congress, Error>(
        Error::CongressOutOfRange,
    ));
}

/// Chamber-tag cross-validation: the House-only bill tag `r` names nothing
/// together with the Senate chamber, so `1sr1` is rejected — even though it
/// tokenizes cleanly — whatever the current congress.
pub proof fn lemma_house_tag_rejected_for_senate(current: u64)
    requires
        1 <= current,
    ensures
        spec_parse("1sr1"@, current) == Err::<CitationView, Error>(Error::UnknownObjectType),
{
    let s = "1sr1"@;
    reveal_strlit("1sr1");
    assert(s.len() == 4 && s[0] == '1' && s[1] == 's' && s[2] == 'r' && s[3] == '1');
    lemma_run_len_is(s, 0, 1, CharClass::Digit);
    lemma_run_len_is(s, 2, 3, CharClass::Alpha);
    lemma_run_len_is(s, 3, 4, CharClass::Digit);
    lemma_run_len_is(s, 4, 4, CharClass::Alpha);
    let t = spec_tokenize(s);
    assert(t.congress =~= seq!['1']);
    assert(t.chamber == Some('s'));
    assert(t.object_type =~= seq!['r']);
    assert(t.number =~= seq!['1']);
    assert(t.ver is None);
    assert(digits_value(Seq::<char>::empty()) == 0);
    assert(seq!['1'].drop_last() =~= Seq::<char>::empty());
    assert(digits_value(seq!['1']) == 1);
    assert(spec_congress(t.congress, current) == Ok::<crate::citation::Congress, Error>(
        crate::citation::Congress(1),
    ));
    assert(spec_chamber(t.chamber) == Some(Chamber::Senate));
    assert(to_lower(t.object_type) =~= seq!['r']);
    assert(spec_object_type(to_lower(t.object_type), Chamber::Senate) is None);
}

} // verus!

