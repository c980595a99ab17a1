//! The diagnostic data model: positions, ranges, locations, diagnostic codes,
//! diagnostics, and the `textDocument/publishDiagnostics` notification
//! payload, together with the applicability predicate `is_for` and the
//! textual projection of a diagnostic code.

use vstd::prelude::*;
use crate::json::JsonV;

verus! {

/// A point in a text document: zero-based line and UTF-16 code-unit offset.
#[derive(Debug, Clone, PartialEq, Eq)]
pub struct Position {
    pub line: usize,
    pub character: usize,
}

/// A span in a text document.  This layer does not require `start <= end`;
/// the span is server-supplied and trusted as-is.
#[derive(Debug, Clone, PartialEq, Eq)]
pub struct Range {
    pub start: Position,
    pub end: Position,
}

/// A span inside the document named by `uri`; the uri is opaque here.
#[derive(Debug, Clone, PartialEq, Eq)]
pub struct Location {
    pub uri: String,
    pub range: Range,
}

/// The severity a server may attach to a diagnostic.  This fragment carries
/// no severity field on `Diagnostic`; the type is an extension point.
#[derive(Debug, Clone, Copy, PartialEq, Eq)]
pub enum DiagnosticSeverity {
    Error,
    Warning,
    Information,
    Hint,
}

/// A diagnostic code: on the wire a bare JSON number or string, never an
/// object, so the variant is discriminated structurally at decode time.
#[derive(Debug, Clone, PartialEq, Eq)]
pub enum DiagnosticCode {
    Int(i128),
    String(String),
}

/// A link to further documentation for a diagnostic code.
#[derive(Debug, Clone, PartialEq, Eq)]
pub struct DiagnosticCodeDescription {
    pub href: String,
}

/// An auxiliary location (often in another file) that explains a diagnostic.
#[derive(Debug, Clone, PartialEq, Eq)]
pub struct DiagnosticRelatedInformation {
    pub location: Location,
    pub message: String,
}

/// One reported problem.  `data` is a passthrough payload, never interpreted.
#[derive(Debug, Clone, PartialEq, Eq)]
pub struct Diagnostic {
    pub range: Range,
    pub code: Option<DiagnosticCode>,
    pub message: String,
    pub related_information: Option<Vec<DiagnosticRelatedInformation>>,
    pub data: Option<crate::json::Json>,
}

/// The payload of a `textDocument/publishDiagnostics` notification; the
/// order of `diagnostics` is the server's reporting order and is preserved.
#[derive(Debug, Clone, PartialEq, Eq)]
pub struct TextDocumentPublishDiagnostics {
    pub uri: Option<String>,
    pub diagnostics: Vec<Diagnostic>,
}

// ------------------------------------------------------------------
// Mathematical models.

#[verifier::ext_equal]
pub struct PositionV {
    pub line: int,
    pub character: int,
}

#[verifier::ext_equal]
pub struct RangeV {
    pub start: PositionV,
    pub end: PositionV,
}

#[verifier::ext_equal]
pub struct LocationV {
    pub uri: Seq<char>,
    pub range: RangeV,
}

#[verifier::ext_equal]
pub enum CodeV {
    Int(int),
    Str(Seq<char>),
}

#[verifier::ext_equal]
pub struct RelatedV {
    pub location: LocationV,
    pub message: Seq<char>,
}

#[verifier::ext_equal]
pub struct DiagnosticV {
    pub range: RangeV,
    pub code: Option<CodeV>,
    pub message: Seq<char>,
    pub related_information: Option<Seq<RelatedV>>,
    pub data: Option<JsonV>,
}

#[verifier::ext_equal]
pub struct PublishV {
    pub uri: Option<Seq<char>>,
    pub diagnostics: Seq<DiagnosticV>,
}

impl View for Position {
    type V = PositionV;

    open spec fn view(&self) -> PositionV {
        PositionV { line: self.line as int, character: self.character as int }
    }
}

impl View for Range {
    type V = RangeV;

    open spec fn view(&self) -> RangeV {
        RangeV { start: self.start@, end: self.end@ }
    }
}

impl View for Location {
    type V = LocationV;

    open spec fn view(&self) -> LocationV {
        LocationV { uri: self.uri@, range: self.range@ }
    }
}

impl View for DiagnosticCode {
    type V = CodeV;

    open spec fn view(&self) -> CodeV {
        match self {
            DiagnosticCode::Int(n) => CodeV::Int(*n as int),
            DiagnosticCode::String(s) => CodeV::Str(s@),
        }
    }
}

impl View for DiagnosticRelatedInformation {
    type V = RelatedV;

    open spec fn view(&self) -> RelatedV {
        RelatedV { location: self.location@, message: self.message@ }
    }
}

impl View for Diagnostic {
    type V = DiagnosticV;

    open spec fn view(&self) -> DiagnosticV {
        DiagnosticV {
            range: self.range@,
            code: match self.code {
                None => None,
                Some(c) => Some(c@),
            },
            message: self.message@,
            related_information: match self.related_information {
                None => None,
                Some(rs) => Some(rs@.map_values(|r: DiagnosticRelatedInformation| r@)),
            },
            data: match self.data {
                None => None,
                Some(d) => Some(d@),
            },
        }
    }
}

impl View for TextDocumentPublishDiagnostics {
    type V = PublishV;

    open spec fn view(&self) -> PublishV {
        PublishV {
            uri: match self.uri {
                None => None,
                Some(u) => Some(u@),
            },
            diagnostics: self.diagnostics@.map_values(|d: Diagnostic| d@),
        }
    }
}

// ------------------------------------------------------------------
// Applicability.

/// What `Diagnostic::is_for` decides: a diagnostic without a
/// related-information breakdown applies to every uri; one with a breakdown
/// applies exactly to the uris its entries name.
pub open spec fn is_for_spec(d: DiagnosticV, uri: Seq<char>) -> bool {
    match d.related_information {
        None => true,
        Some(rs) => exists|i: int| 0 <= i < rs.len() && rs[i].location.uri == uri,
    }
}

impl Diagnostic {
    /// Whether this diagnostic applies to the document named `uri`: true
    /// unconditionally when `related_information` is absent, and otherwise
    /// true iff some entry's location uri equals `uri` exactly (plain string
    /// equality, no normalization).
    #[verifier::loop_isolation(false)]
    pub fn is_for(&self, uri: &str) -> (r: bool)
        ensures
            r == is_for_spec(self@, uri@),
    {
        let related_infos = match &self.related_information {
            None => {
                return true;
            },
            Some(v) => v,
        };
        let u: String = uri.to_owned();
        let mut i: usize = 0;
        while i < related_infos.len()
            invariant
                0 <= i <= related_infos.len(),
                forall|k: int| 0 <= k < i ==> related_infos@[k].location.uri@ != uri@,
            decreases related_infos.len() - i,
        {
            if related_infos[i].location.uri == u {
                proof {
                    let rs = self@.related_information->Some_0;
                    assert(rs[i as int].location.uri == uri@);
                }
                return true;
            }
            i += 1;
        }
        false
    }
}

// ------------------------------------------------------------------
// Textual form of a code.

/// The decimal digit characters of `n` (for `n >= 0`), most significant
/// first.
pub open spec fn dec_str(n: int) -> Seq<char>
    decreases n,
{
    if n < 10 {
        seq![digit_char(n)]
    } else {
        dec_str(n / 10).push(digit_char(n % 10))
    }
}

/// The character for one decimal digit.
pub open spec fn digit_char(d: int) -> char {
    if d == 0 {
        '0'
    } else if d == 1 {
        '1'
    } else if d == 2 {
        '2'
    } else if d == 3 {
        '3'
    } else if d == 4 {
        '4'
    } else if d == 5 {
        '5'
    } else if d == 6 {
        '6'
    } else if d == 7 {
        '7'
    } else if d == 8 {
        '8'
    } else {
        '9'
    }
}

/// The decimal form of any integer: a minus sign before the digits of the
/// magnitude when `n` is negative.
pub open spec fn int_str(n: int) -> Seq<char> {
    if n < 0 {
        seq!['-'] + dec_str(-n)
    } else {
        dec_str(n)
    }
}

/// The textual form of a code: decimal digits for a numeric code, the string
/// itself for a string code.
pub open spec fn code_chars(c: DiagnosticCode) -> Seq<char> {
    match c {
        DiagnosticCode::Int(n) => int_str(n as int),
        DiagnosticCode::String(s) => s@,
    }
}

/// Relies on `String::push` from std: appends the given `char` to the end of
/// this `String`.
pub assume_specification[ std::string::String::push ](s: &mut std::string::String, c: char)
    ensures
        final(s)@ == old(s)@.push(c),
;

fn digit_of(d: usize) -> (c: char)
    requires
        d < 10,
    ensures
        c == digit_char(d as int),
{
    if d == 0 {
        '0'
    } else if d == 1 {
        '1'
    } else if d == 2 {
        '2'
    } else if d == 3 {
        '3'
    } else if d == 4 {
        '4'
    } else if d == 5 {
        '5'
    } else if d == 6 {
        '6'
    } else if d == 7 {
        '7'
    } else if d == 8 {
        '8'
    } else {
        '9'
    }
}

fn push_dec(s: &mut String, n: u128)
    ensures
        final(s)@ == old(s)@ + dec_str(n as int),
    decreases n,
{
    if n < 10 {
        s.push(digit_of((n % 10) as usize));
        proof {
            assert(s@ =~= old(s)@ + dec_str(n as int));
        }
    } else {
        push_dec(s, n / 10);
        s.push(digit_of((n % 10) as usize));
        proof {
            assert(s@ =~= old(s)@ + dec_str(n as int));
        }
    }
}

impl DiagnosticCode {
    /// The textual form of the code, whatever its wire representation:
    /// integers render in decimal, strings pass through unchanged.  Total:
    /// it succeeds on every code.
    pub fn as_string(&self) -> (r: String)
        ensures
            r@ == code_chars(*self),
    {
        match self {
            DiagnosticCode::Int(i) => {
                let mut s = String::new();
                let m: u128 = if *i < 0 {
                    s.push('-');
                    ((-(*i + 1)) as u128) + 1
                } else {
                    *i as u128
                };
                proof {
                    if *i < 0 {
                        assert(s@ =~= seq!['-']);
                        assert(m as int == -(*i as int));
                    } else {
                        assert(s@ =~= Seq::<char>::empty());
                    }
                }
                push_dec(&mut s, m);
                proof {
                    assert(s@ =~= code_chars(*self));
                }
                s
            },
            DiagnosticCode::String(s) => s.clone(),
        }
    }
}

} // verus!
