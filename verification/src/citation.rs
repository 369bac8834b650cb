//! The citation model: typed, validated fields and the parser and URL
//! renderer over them.
//!
//! A [`Citation`] is built atomically: either every segment of the input
//! validates, or parsing fails with the first violated rule and no partial
//! value exists.

use vstd::prelude::*;
use vstd::string::StringExecFns;
use crate::clock::current_congress;
use crate::digits::{spec_dec_str, spec_parse_u64};
use crate::error::Error;
use crate::text::{chars_to_string, lowercase, to_lower, u64_to_string};
use crate::tokens::{spec_tokenize, tokenize, CiteParts};
use crate::vocab::{chars1, chars3, chars4, chars6, eq_chars1, eq_chars3, eq_chars4, eq_chars6,
    is_bill_version, spec_is_bill_version};

verus! {

/// A congress: a numbered two-year legislative session. Validation only
/// constructs values in `1..=current` for the current congress at evaluation
/// time.
#[derive(Debug, Clone, Copy, PartialEq, Eq)]
pub struct Congress(pub u64);

/// A chamber of Congress.
#[derive(Debug, Clone, Copy, PartialEq, Eq)]
pub enum Chamber {
    /// The House of Representatives, letter `h`.
    House,
    /// The Senate, letter `s`.
    Senate,
}

/// The kind of congressional document: the cross product of document type and
/// chamber, as far as citations support it.
#[derive(Debug, Clone, Copy, PartialEq, Eq)]
pub enum CongObjectType {
    /// A Senate bill: empty tag with chamber `s`.
    SenateBill,
    /// A House bill: empty tag or tag `r` with chamber `h`.
    HouseBill,
    /// A Senate resolution: tag `res` with chamber `s`.
    SenateResolution,
    /// A House resolution: tag `res` with chamber `h`.
    HouseResolution,
    /// A Senate concurrent resolution: tag `conres` with chamber `s`.
    SenateConcurrentResolution,
    /// A House concurrent resolution: tag `conres` with chamber `h`.
    HouseConcurrentResolution,
    /// A Senate joint resolution: tag `jres` with chamber `s`.
    SenateJointResolution,
    /// A House joint resolution: tag `jres` with chamber `h`.
    HouseJointResolution,
    /// A House committee report: tag `rpt` with chamber `h`.
    HouseReport,
    /// A Senate committee report: tag `rpt` with chamber `s`.
    SenateReport,
}

/// A bill-version code, stored folded to lower case.
#[derive(Debug, PartialEq, Eq)]
pub struct Version(pub String);

/// A validated legislative citation: congress, chamber, object type, document
/// number and, optionally for bills, a version of the bill's text.
#[derive(Debug, PartialEq, Eq)]
pub struct Citation {
    /// The congress the document belongs to.
    pub congress: Congress,
    /// The chamber the document originates from.
    pub chamber: Chamber,
    /// The kind of document.
    pub object_type: CongObjectType,
    /// The number of the document within congress, chamber and type; strictly
    /// positive.
    pub number: u64,
    /// The version of the bill's text, if the citation names one.
    pub ver: Option<Version>,
}

/// The mathematical value of a [`Citation`]: the same fields, with the
/// version as a sequence of characters.
pub struct CitationView {
    /// The congress the document belongs to.
    pub congress: Congress,
    /// The chamber the document originates from.
    pub chamber: Chamber,
    /// The kind of document.
    pub object_type: CongObjectType,
    /// The document number.
    pub number: u64,
    /// The version code, folded to lower case, if the citation names one.
    pub ver: Option<Seq<char>>,
}

impl View for Citation {
    type V = CitationView;

    open spec fn view(&self) -> CitationView {
        CitationView {
            congress: self.congress,
            chamber: self.chamber,
            object_type: self.object_type,
            number: self.number,
            ver: match self.ver {
                Some(v) => Some(v.0@),
                None => None,
            },
        }
    }
}

/// What validating the congress digit segment returns: the digits read as an
/// unsigned integer, which must lie in `1..=current`.
pub open spec fn spec_congress(s: Seq<char>, current: u64) -> Result<Congress, Error> {
    match spec_parse_u64(s) {
        Ok(v) => if 1 <= v && v <= current {
            Ok(Congress(v))
        } else {
            Err(Error::CongressOutOfRange)
        },
        Err(e) => Err(e),
    }
}

impl Congress {
    /// Validate the congress digit segment against the bound `current`, the
    /// congress in session at evaluation time.
    pub fn parse(input: &Vec<char>, current: u64) -> (r: Result<Congress, Error>)
        ensures
            r == spec_congress(input@, current),
    {
        match crate::digits::parse_u64_digits(input) {
            Ok(v) => if 1 <= v && v <= current {
                Ok(Congress(v))
            } else {
                Err(Error::CongressOutOfRange)
            },
            Err(e) => Err(e),
        }
    }
}

impl Congress {
    /// The pair of calendar years the congress sits: the first congress met
    /// in 1789 and each sits two years, so congress `n` starts in
    /// `(n - 1) * 2 + 1789` and ends the year after.
    pub fn years(&self) -> (r: (u64, u64))
        requires
            1 <= self.0,
            (self.0 - 1) * 2 + 1789 < u64::MAX,
        ensures
            r.0 == (self.0 - 1) * 2 + 1789,
            r.1 == r.0 + 1,
    {
        let start: u64 = (self.0 - 1) * 2 + 1789;
        (start, start + 1)
    }
}

/// What mapping the optional chamber letter to a chamber returns: `h` or `H`
/// names the House, `s` or `S` the Senate; an absent letter names no chamber.
pub open spec fn spec_chamber(letter: Option<char>) -> Option<Chamber> {
    match letter {
        Some(c) => if c == 'h' || c == 'H' {
            Some(Chamber::House)
        } else if c == 's' || c == 'S' {
            Some(Chamber::Senate)
        } else {
            None
        },
        None => None,
    }
}

impl Chamber {
    /// Map the optional chamber letter of a citation to a chamber. The letter
    /// must be present: a citation without one names no chamber and fails
    /// validation.
    pub fn parse(input: Option<char>) -> (r: Option<Chamber>)
        ensures
            r == spec_chamber(input),
    {
        match input {
            Some(c) => if c == 'h' || c == 'H' {
                Some(Chamber::House)
            } else if c == 's' || c == 'S' {
                Some(Chamber::Senate)
            } else {
                None
            },
            None => None,
        }
    }
}

/// The table of recognized object types: what the tag (folded to lower case),
/// combined with the chamber, names. The bill tag `r` is House-only; a pair
/// absent from the table names nothing.
pub open spec fn spec_object_type(tag: Seq<char>, chamber: Chamber) -> Option<CongObjectType> {
    match chamber {
        Chamber::House => if tag.len() == 0 || chars1(tag, 'r') {
            Some(CongObjectType::HouseBill)
        } else if chars3(tag, 'r', 'e', 's') {
            Some(CongObjectType::HouseResolution)
        } else if chars6(tag, 'c', 'o', 'n', 'r', 'e', 's') {
            Some(CongObjectType::HouseConcurrentResolution)
        } else if chars4(tag, 'j', 'r', 'e', 's') {
            Some(CongObjectType::HouseJointResolution)
        } else if chars3(tag, 'r', 'p', 't') {
            Some(CongObjectType::HouseReport)
        } else {
            None
        },
        Chamber::Senate => if tag.len() == 0 {
            Some(CongObjectType::SenateBill)
        } else if chars3(tag, 'r', 'e', 's') {
            Some(CongObjectType::SenateResolution)
        } else if chars6(tag, 'c', 'o', 'n', 'r', 'e', 's') {
            Some(CongObjectType::SenateConcurrentResolution)
        } else if chars4(tag, 'j', 'r', 'e', 's') {
            Some(CongObjectType::SenateJointResolution)
        } else if chars3(tag, 'r', 'p', 't') {
            Some(CongObjectType::SenateReport)
        } else {
            None
        },
    }
}

impl CongObjectType {
    /// Fold the object-type letters of a citation to lower case and look the
    /// tag up in the table for `chamber`.
    pub fn parse(input: &Vec<char>, chamber: Chamber) -> (r: Result<CongObjectType, Error>)
        ensures
            r == match spec_object_type(to_lower(input@), chamber) {
                Some(t) => Ok::<CongObjectType, Error>(t),
                None => Err::<CongObjectType, Error>(Error::UnknownObjectType),
            },
    {
        let tag = lowercase(input);
        match chamber {
            Chamber::House => if tag.len() == 0 || eq_chars1(&tag, 'r') {
                Ok(CongObjectType::HouseBill)
            } else if eq_chars3(&tag, 'r', 'e', 's') {
                Ok(CongObjectType::HouseResolution)
            } else if eq_chars6(&tag, 'c', 'o', 'n', 'r', 'e', 's') {
                Ok(CongObjectType::HouseConcurrentResolution)
            } else if eq_chars4(&tag, 'j', 'r', 'e', 's') {
                Ok(CongObjectType::HouseJointResolution)
            } else if eq_chars3(&tag, 'r', 'p', 't') {
                Ok(CongObjectType::HouseReport)
            } else {
                Err(Error::UnknownObjectType)
            },
            Chamber::Senate => if tag.len() == 0 {
                Ok(CongObjectType::SenateBill)
            } else if eq_chars3(&tag, 'r', 'e', 's') {
                Ok(CongObjectType::SenateResolution)
            } else if eq_chars6(&tag, 'c', 'o', 'n', 'r', 'e', 's') {
                Ok(CongObjectType::SenateConcurrentResolution)
            } else if eq_chars4(&tag, 'j', 'r', 'e', 's') {
                Ok(CongObjectType::SenateJointResolution)
            } else if eq_chars3(&tag, 'r', 'p', 't') {
                Ok(CongObjectType::SenateReport)
            } else {
                Err(Error::UnknownObjectType)
            },
        }
    }
}

/// What validating the document-number digit segment returns: the digits read
/// as an unsigned integer, which must be strictly positive.
pub open spec fn spec_number(s: Seq<char>) -> Result<u64, Error> {
    match spec_parse_u64(s) {
        Ok(v) => if v == 0 {
            Err(Error::ZeroNumber)
        } else {
            Ok(v)
        },
        Err(e) => Err(e),
    }
}

/// Validate the document-number digit segment: an unsigned integer, strictly
/// positive.
fn parse_number(input: &Vec<char>) -> (r: Result<u64, Error>)
    ensures
        r == spec_number(input@),
{
    match crate::digits::parse_u64_digits(input) {
        Ok(v) => if v == 0 {
            Err(Error::ZeroNumber)
        } else {
            Ok(v)
        },
        Err(e) => Err(e),
    }
}

/// What parsing `s` returns when the congress in session is `current`: the
/// tokenized segments are validated left to right — congress, chamber, object
/// type, number, version — and the first violated rule is the result.
pub open spec fn spec_parse(s: Seq<char>, current: u64) -> Result<CitationView, Error> {
    let t = spec_tokenize(s);
    match spec_congress(t.congress, current) {
        Err(e) => Err(e),
        Ok(congress) => match spec_chamber(t.chamber) {
            None => Err(Error::UnknownObjectType),
            Some(chamber) => match spec_object_type(to_lower(t.object_type), chamber) {
                None => Err(Error::UnknownObjectType),
                Some(object_type) => match spec_number(t.number) {
                    Err(e) => Err(e),
                    Ok(number) => match t.ver {
                        None => Ok(
                            CitationView { congress, chamber, object_type, number, ver: None },
                        ),
                        Some(v) => if spec_is_bill_version(to_lower(v)) {
                            Ok(
                                CitationView {
                                    congress,
                                    chamber,
                                    object_type,
                                    number,
                                    ver: Some(to_lower(v)),
                                },
                            )
                        } else {
                            Err(Error::InvalidBillVersion)
                        },
                    },
                },
            },
        },
    }
}

/// Whether the parse result `r` is exactly what [`spec_parse`] says for the
/// input `s` under the congress bound `current`.
pub open spec fn parse_matches(r: Result<Citation, Error>, s: Seq<char>, current: u64) -> bool {
    match r {
        Ok(c) => spec_parse(s, current) == Ok::<CitationView, Error>(c@),
        Err(e) => spec_parse(s, current) == Err::<CitationView, Error>(e),
    }
}

impl Citation {
    /// Cut `input` into its five raw segments. Total: tokenization never
    /// fails; every rejection happens in the typed validation afterwards.
    pub fn tokenize(input: &str) -> (r: CiteParts)
        ensures
            r@ == spec_tokenize(input@),
    {
        tokenize(input)
    }

    /// Parse a legislative citation, validating the congress number against
    /// the explicit bound `current`, the congress in session at evaluation
    /// time.
    ///
    /// # Errors
    ///
    /// Exactly as [`spec_parse`] says: the first segment whose validation
    /// fails decides the error.
    pub fn parse_with_current(input: &str, current: u64) -> (r: Result<Citation, Error>)
        ensures
            parse_matches(r, input@, current),
    {
        let parts = Self::tokenize(input);
        let congress = match Congress::parse(&parts.congress, current) {
            Ok(c) => c,
            Err(e) => return Err(e),
        };
        let chamber = match Chamber::parse(parts.chamber) {
            Some(c) => c,
            None => return Err(Error::UnknownObjectType),
        };
        let object_type = match CongObjectType::parse(&parts.object_type, chamber) {
            Ok(t) => t,
            Err(e) => return Err(e),
        };
        let number = match parse_number(&parts.number) {
            Ok(n) => n,
            Err(e) => return Err(e),
        };
        let ver = match parts.ver {
            None => None,
            Some(v) => {
                let folded = lowercase(&v);
                if is_bill_version(&folded) {
                    Some(Version(chars_to_string(&folded)))
                } else {
                    return Err(Error::InvalidBillVersion);
                }
            },
        };
        Ok(Citation { congress, chamber, object_type, number, ver })
    }

    /// Parse a legislative citation.
    ///
    /// The string is cut into its segments, and each segment is validated:
    /// the congress must not exceed the congress in session now (read from
    /// the wall clock), the chamber letter must be present, the object-type
    /// tag must be in the table for that chamber, the document number must be
    /// a positive integer, and trailing letters, if any, must name a bill
    /// version.
    ///
    /// # Errors
    ///
    /// The first violated rule decides the error, exactly as [`spec_parse`]
    /// says for the congress bound read from the clock.
    pub fn parse(input: &str) -> (r: Result<Citation, Error>)
        ensures
            exists|current: u64| 91 <= current && #[trigger] parse_matches(r, input@, current),
    {
        let current: u64 = current_congress();
        let r = Self::parse_with_current(input, current);
        proof {
            assert(91 <= current && parse_matches(r, input@, current));
        }
        r
    }
}

/// The ordinal suffix the congress number takes, decided by its last digit
/// alone: 1 takes `st`, 2 `nd`, 3 `rd`, anything else `th`.
pub open spec fn spec_ordinal_suffix(n: nat) -> Seq<char> {
    if n % 10 == 1 {
        "st"@
    } else if n % 10 == 2 {
        "nd"@
    } else if n % 10 == 3 {
        "rd"@
    } else {
        "th"@
    }
}

/// The ordinal form of the congress number: its decimal digits followed by
/// the suffix its last digit takes.
pub open spec fn spec_ordinal(n: nat) -> Seq<char> {
    spec_dec_str(n) + spec_ordinal_suffix(n)
}

impl Congress {
    /// The ordinal form of the congress number, `118` rendering as `118th`.
    /// The suffix goes by the last digit alone, so `113` renders as `113rd`.
    pub fn as_ordinal(&self) -> (r: String)
        ensures
            r@ == spec_ordinal(self.0 as nat),
    {
        let mut ordinal = u64_to_string(self.0);
        let last: u64 = self.0 % 10;
        if last == 1 {
            ordinal.append("st");
        } else if last == 2 {
            ordinal.append("nd");
        } else if last == 3 {
            ordinal.append("rd");
        } else {
            ordinal.append("th");
        }
        ordinal
    }
}

/// The top-level collection segment of the URL: reports live under
/// `congressional-report`, everything else under `bill`.
pub open spec fn spec_collection(t: CongObjectType) -> Seq<char> {
    match t {
        CongObjectType::HouseReport | CongObjectType::SenateReport => "congressional-report"@,
        _ => "bill"@,
    }
}

/// The chamber as a lowercase word in the URL path.
pub open spec fn spec_chamber_slug(c: Chamber) -> Seq<char> {
    match c {
        Chamber::House => "house"@,
        Chamber::Senate => "senate"@,
    }
}

/// The object type's canonical slug in the URL path. The slug collapses the
/// House and Senate variants of one logical type to the same word; the
/// chamber stands separately in the path.
pub open spec fn spec_type_slug(t: CongObjectType) -> Seq<char> {
    match t {
        CongObjectType::HouseBill | CongObjectType::SenateBill => "bill"@,
        CongObjectType::HouseResolution | CongObjectType::SenateResolution => "resolution"@,
        CongObjectType::HouseConcurrentResolution | CongObjectType::SenateConcurrentResolution =>
            "concurrent-resolution"@,
        CongObjectType::HouseJointResolution | CongObjectType::SenateJointResolution =>
            "joint-resolution"@,
        CongObjectType::HouseReport | CongObjectType::SenateReport => "report"@,
    }
}

/// The canonical congress.gov URL of a citation:
/// `https://www.congress.gov/{collection}/{ordinal}-congress/{chamber}-{slug}/{number}`,
/// with `/text/{version}` appended when the citation names a version.
pub open spec fn spec_to_url(c: CitationView) -> Seq<char> {
    let head = "https://www.congress.gov/"@ + spec_collection(c.object_type) + "/"@ + spec_ordinal(
        c.congress.0 as nat,
    ) + "-congress/"@ + spec_chamber_slug(c.chamber) + "-"@ + spec_type_slug(c.object_type) + "/"@
        + spec_dec_str(c.number as nat);
    match c.ver {
        None => head,
        Some(v) => head + "/text/"@ + v,
    }
}

impl Citation {
    /// Render the citation as its canonical congress.gov URL. Pure: the URL
    /// is a function of the citation's fields alone, exactly
    /// [`spec_to_url`].
    pub fn to_url(&self) -> (r: String)
        ensures
            r@ == spec_to_url(self@),
    {
        let mut url = String::new();
        url.append("https://www.congress.gov/");
        match self.object_type {
            CongObjectType::HouseReport | CongObjectType::SenateReport => url.append(
                "congressional-report",
            ),
            _ => url.append("bill"),
        }
        url.append("/");
        let ordinal = self.congress.as_ordinal();
        url.append(ordinal.as_str());
        url.append("-congress/");
        match self.chamber {
            Chamber::House => url.append("house"),
            Chamber::Senate => url.append("senate"),
        }
        url.append("-");
        match self.object_type {
            CongObjectType::HouseBill | CongObjectType::SenateBill => url.append("bill"),
            CongObjectType::HouseResolution | CongObjectType::SenateResolution => url.append(
                "resolution",
            ),
            CongObjectType::HouseConcurrentResolution
                | CongObjectType::SenateConcurrentResolution => url.append("concurrent-resolution"),
            CongObjectType::HouseJointResolution | CongObjectType::SenateJointResolution => url
                .append("joint-resolution"),
            CongObjectType::HouseReport | CongObjectType::SenateReport => url.append("report"),
        }
        url.append("/");
        let number = u64_to_string(self.number);
        url.append(number.as_str());
        match &self.ver {
            Some(v) => {
                url.append("/text/");
                url.append(v.0.as_str());
            },
            None => {},
        }
        proof {
            assert(url@ =~= spec_to_url(self@));
        }
        url
    }
}

impl core::str::FromStr for Citation {
    type Err = Error;

    fn from_str(s: &str) -> Result<Citation, Error> {
        Citation::parse(s)
    }
}

} // verus!
