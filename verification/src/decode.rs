//! Decoding of `textDocument/publishDiagnostics` payloads from a JSON value
//! tree.  Unknown object members are ignored for forward compatibility;
//! a value that does not match the expected shape fails the whole payload
//! with an error naming the offending field.

use vstd::prelude::*;
use crate::json::{get_field, json_seq_view, lemma_json_seq_view, obj_get, Json, JsonV};
use crate::types::{
    CodeV, Diagnostic, DiagnosticCode, DiagnosticRelatedInformation, DiagnosticV, Location,
    LocationV, Position, PositionV, PublishV, Range, RangeV, RelatedV,
    TextDocumentPublishDiagnostics,
};

verus! {

/// Why a payload was rejected: the field that did not match the expected
/// shape (`Bad...`), or a required field that was absent (`Missing...`).
#[derive(Debug, Clone, Copy, PartialEq, Eq, Structural)]
pub enum DecodeError {
    /// The notification payload is not a JSON object.
    NotAnObject,
    /// `uri` is present but not a string.
    BadUri,
    /// The required `diagnostics` member is absent.
    MissingDiagnostics,
    /// `diagnostics` is present but not an array.
    BadDiagnostics,
    /// An element of `diagnostics` is not a JSON object.
    BadDiagnostic,
    /// A diagnostic has no `range` member.
    MissingRange,
    /// A range is not an object with `start` and `end` members.
    BadRange,
    /// A position is not an object with integral `line` and `character`.
    BadPosition,
    /// A `code` is present but neither an integer nor a string.
    BadCode,
    /// A diagnostic has no `message` member.
    MissingMessage,
    /// `message` is present but not a string.
    BadMessage,
    /// `relatedInformation` or one of its entries has the wrong shape.
    BadRelatedInformation,
    /// A related-information `location` has the wrong shape.
    BadLocation,
}

/// The model of a decoder's result: the model of the value on success, the
/// error itself on failure.
pub open spec fn dec_result<T: View>(r: Result<T, DecodeError>) -> Result<T::V, DecodeError> {
    match r {
        Ok(t) => Ok(t@),
        Err(e) => Err(e),
    }
}

pub open spec fn pos_dec(v: JsonV) -> Result<PositionV, DecodeError> {
    match v {
        JsonV::Obj(fs) => match (obj_get(fs, "line"@), obj_get(fs, "character"@)) {
            (Some(JsonV::Int(l)), Some(JsonV::Int(c))) => if 0 <= l <= usize::MAX as int && 0 <= c
                <= usize::MAX as int {
                Ok(PositionV { line: l, character: c })
            } else {
                Err(DecodeError::BadPosition)
            },
            _ => Err(DecodeError::BadPosition),
        },
        _ => Err(DecodeError::BadPosition),
    }
}

pub open spec fn range_dec(v: JsonV) -> Result<RangeV, DecodeError> {
    match v {
        JsonV::Obj(fs) => match (obj_get(fs, "start"@), obj_get(fs, "end"@)) {
            (Some(sv), Some(ev)) => match (pos_dec(sv), pos_dec(ev)) {
                (Ok(s), Ok(e)) => Ok(RangeV { start: s, end: e }),
                (Err(e), _) => Err(e),
                (_, Err(e)) => Err(e),
            },
            _ => Err(DecodeError::BadRange),
        },
        _ => Err(DecodeError::BadRange),
    }
}

pub open spec fn loc_dec(v: JsonV) -> Result<LocationV, DecodeError> {
    match v {
        JsonV::Obj(fs) => match (obj_get(fs, "uri"@), obj_get(fs, "range"@)) {
            (Some(JsonV::Str(u)), Some(rv)) => match range_dec(rv) {
                Ok(r) => Ok(LocationV { uri: u, range: r }),
                Err(e) => Err(e),
            },
            _ => Err(DecodeError::BadLocation),
        },
        _ => Err(DecodeError::BadLocation),
    }
}

pub open spec fn rel_dec(v: JsonV) -> Result<RelatedV, DecodeError> {
    match v {
        JsonV::Obj(fs) => match (obj_get(fs, "location"@), obj_get(fs, "message"@)) {
            (Some(lv), Some(JsonV::Str(m))) => match loc_dec(lv) {
                Ok(l) => Ok(RelatedV { location: l, message: m }),
                Err(e) => Err(e),
            },
            _ => Err(DecodeError::BadRelatedInformation),
        },
        _ => Err(DecodeError::BadRelatedInformation),
    }
}

/// The structural decoding rule for a code: a bare integer — of either sign
/// — decodes to `Int`, a bare string to `Str`, anything else is malformed.
/// The integer shape is tried first; the two shapes are mutually exclusive
/// on the wire.
pub open spec fn code_dec(v: JsonV) -> Result<CodeV, DecodeError> {
    match v {
        JsonV::Int(n) => Ok(CodeV::Int(n)),
        JsonV::Str(s) => Ok(CodeV::Str(s)),
        _ => Err(DecodeError::BadCode),
    }
}

pub open spec fn rel_seq_dec(vs: Seq<JsonV>) -> Result<Seq<RelatedV>, DecodeError>
    decreases vs.len(),
{
    if vs.len() == 0 {
        Ok(Seq::empty())
    } else {
        match rel_seq_dec(vs.drop_last()) {
            Err(e) => Err(e),
            Ok(rs) => match rel_dec(vs.last()) {
                Err(e) => Err(e),
                Ok(r) => Ok(rs.push(r)),
            },
        }
    }
}

pub open spec fn diag_dec(v: JsonV) -> Result<DiagnosticV, DecodeError> {
    match v {
        JsonV::Obj(fs) => match obj_get(fs, "range"@) {
            None => Err(DecodeError::MissingRange),
            Some(rv) => match range_dec(rv) {
                Err(e) => Err(e),
                Ok(range) => match obj_get(fs, "code"@) {
                    Some(cv) => match code_dec(cv) {
                        Err(e) => Err(e),
                        Ok(c) => diag_dec_rest(fs, range, Some(c)),
                    },
                    None => diag_dec_rest(fs, range, None),
                },
            },
        },
        _ => Err(DecodeError::BadDiagnostic),
    }
}

/// The members of a diagnostic after `range` and `code`: `message`,
/// `relatedInformation` and the passthrough `data`.
pub open spec fn diag_dec_rest(
    fs: Seq<(Seq<char>, JsonV)>,
    range: RangeV,
    code: Option<CodeV>,
) -> Result<DiagnosticV, DecodeError> {
    match obj_get(fs, "message"@) {
        None => Err(DecodeError::MissingMessage),
        Some(JsonV::Str(message)) => {
            let rel = match obj_get(fs, "relatedInformation"@) {
                None => Ok(None),
                Some(JsonV::Arr(a)) => match rel_seq_dec(a) {
                    Err(e) => Err(e),
                    Ok(rs) => Ok(Some(rs)),
                },
                Some(_) => Err(DecodeError::BadRelatedInformation),
            };
            match rel {
                Err(e) => Err(e),
                Ok(related_information) => Ok(
                    DiagnosticV {
                        range,
                        code,
                        message,
                        related_information,
                        data: obj_get(fs, "data"@),
                    },
                ),
            }
        },
        Some(_) => Err(DecodeError::BadMessage),
    }
}

pub open spec fn diag_seq_dec(vs: Seq<JsonV>) -> Result<Seq<DiagnosticV>, DecodeError>
    decreases vs.len(),
{
    if vs.len() == 0 {
        Ok(Seq::empty())
    } else {
        match diag_seq_dec(vs.drop_last()) {
            Err(e) => Err(e),
            Ok(ds) => match diag_dec(vs.last()) {
                Err(e) => Err(e),
                Ok(d) => Ok(ds.push(d)),
            },
        }
    }
}

/// What decoding a whole notification payload yields: the `uri` member may
/// be absent (then the payload carries no uri), `diagnostics` is required
/// and every element must decode; the first malformed part decides the
/// error.
pub open spec fn publish_dec(v: JsonV) -> Result<PublishV, DecodeError> {
    match v {
        JsonV::Obj(fs) => {
            let uri = match obj_get(fs, "uri"@) {
                None => Ok(None),
                Some(JsonV::Str(u)) => Ok(Some(u)),
                Some(_) => Err(DecodeError::BadUri),
            };
            match uri {
                Err(e) => Err(e),
                Ok(uri) => match obj_get(fs, "diagnostics"@) {
                    None => Err(DecodeError::MissingDiagnostics),
                    Some(JsonV::Arr(a)) => match diag_seq_dec(a) {
                        Err(e) => Err(e),
                        Ok(diagnostics) => Ok(PublishV { uri, diagnostics }),
                    },
                    Some(_) => Err(DecodeError::BadDiagnostics),
                },
            }
        },
        _ => Err(DecodeError::NotAnObject),
    }
}

// ------------------------------------------------------------------
// Executable decoders.

pub fn decode_position(j: &Json) -> (r: Result<Position, DecodeError>)
    ensures
        dec_result(r) == pos_dec(j@),
{
    let fields = match j {
        Json::Obj(fs) => fs,
        _ => {
            return Err(DecodeError::BadPosition);
        },
    };
    let l = match get_field(fields, &"line".to_owned()) {
        Some(Json::Int(n)) => *n,
        _ => {
            return Err(DecodeError::BadPosition);
        },
    };
    let c = match get_field(fields, &"character".to_owned()) {
        Some(Json::Int(n)) => *n,
        _ => {
            return Err(DecodeError::BadPosition);
        },
    };
    if l < 0 || l > usize::MAX as i128 || c < 0 || c > usize::MAX as i128 {
        return Err(DecodeError::BadPosition);
    }
    Ok(Position { line: l as usize, character: c as usize })
}

pub fn decode_range(j: &Json) -> (r: Result<Range, DecodeError>)
    ensures
        dec_result(r) == range_dec(j@),
{
    let fields = match j {
        Json::Obj(fs) => fs,
        _ => {
            return Err(DecodeError::BadRange);
        },
    };
    let sv = match get_field(fields, &"start".to_owned()) {
        Some(v) => v,
        None => {
            return Err(DecodeError::BadRange);
        },
    };
    let ev = match get_field(fields, &"end".to_owned()) {
        Some(v) => v,
        None => {
            return Err(DecodeError::BadRange);
        },
    };
    let start = match decode_position(sv) {
        Ok(p) => p,
        Err(e) => {
            return Err(e);
        },
    };
    let end = match decode_position(ev) {
        Ok(p) => p,
        Err(e) => {
            return Err(e);
        },
    };
    Ok(Range { start, end })
}

pub fn decode_location(j: &Json) -> (r: Result<Location, DecodeError>)
    ensures
        dec_result(r) == loc_dec(j@),
{
    let fields = match j {
        Json::Obj(fs) => fs,
        _ => {
            return Err(DecodeError::BadLocation);
        },
    };
    let uri = match get_field(fields, &"uri".to_owned()) {
        Some(Json::Str(u)) => u.clone(),
        _ => {
            return Err(DecodeError::BadLocation);
        },
    };
    let rv = match get_field(fields, &"range".to_owned()) {
        Some(v) => v,
        None => {
            return Err(DecodeError::BadLocation);
        },
    };
    let range = match decode_range(rv) {
        Ok(rg) => rg,
        Err(e) => {
            return Err(e);
        },
    };
    Ok(Location { uri, range })
}

pub fn decode_related_information(j: &Json) -> (r: Result<
    DiagnosticRelatedInformation,
    DecodeError,
>)
    ensures
        dec_result(r) == rel_dec(j@),
{
    let fields = match j {
        Json::Obj(fs) => fs,
        _ => {
            return Err(DecodeError::BadRelatedInformation);
        },
    };
    let lv = match get_field(fields, &"location".to_owned()) {
        Some(v) => v,
        None => {
            return Err(DecodeError::BadRelatedInformation);
        },
    };
    let message = match get_field(fields, &"message".to_owned()) {
        Some(Json::Str(m)) => m.clone(),
        _ => {
            return Err(DecodeError::BadRelatedInformation);
        },
    };
    let location = match decode_location(lv) {
        Ok(l) => l,
        Err(e) => {
            return Err(e);
        },
    };
    Ok(DiagnosticRelatedInformation { location, message })
}

/// Decodes a bare scalar code, trying the integer shape before the string
/// shape; no discriminant tag is present on the wire.
pub fn decode_code(j: &Json) -> (r: Result<DiagnosticCode, DecodeError>)
    ensures
        dec_result(r) == code_dec(j@),
{
    match j {
        Json::Int(n) => Ok(DiagnosticCode::Int(*n)),
        Json::Str(s) => Ok(DiagnosticCode::String(s.clone())),
        _ => Err(DecodeError::BadCode),
    }
}

proof fn lemma_rel_seq_dec_err(vs: Seq<JsonV>, i: int)
    requires
        0 <= i <= vs.len(),
        rel_seq_dec(vs.take(i)) is Err,
    ensures
        rel_seq_dec(vs) == rel_seq_dec(vs.take(i)),
    decreases vs.len() - i,
{
    if i < vs.len() {
        assert(vs.take(i + 1).drop_last() =~= vs.take(i));
        lemma_rel_seq_dec_err(vs, i + 1);
    } else {
        assert(vs.take(i) =~= vs);
    }
}

proof fn lemma_diag_seq_dec_err(vs: Seq<JsonV>, i: int)
    requires
        0 <= i <= vs.len(),
        diag_seq_dec(vs.take(i)) is Err,
    ensures
        diag_seq_dec(vs) == diag_seq_dec(vs.take(i)),
    decreases vs.len() - i,
{
    if i < vs.len() {
        assert(vs.take(i + 1).drop_last() =~= vs.take(i));
        lemma_diag_seq_dec_err(vs, i + 1);
    } else {
        assert(vs.take(i) =~= vs);
    }
}

#[verifier::loop_isolation(false)]
fn decode_related_list(items: &Vec<Json>) -> (r: Result<
    Vec<DiagnosticRelatedInformation>,
    DecodeError,
>)
    ensures
        match r {
            Ok(rs) => rel_seq_dec(json_seq_view(items@)) == Ok::<_, DecodeError>(
                rs@.map_values(|x: DiagnosticRelatedInformation| x@),
            ),
            Err(e) => rel_seq_dec(json_seq_view(items@)) == Err::<Seq<RelatedV>, _>(e),
        },
{
    proof {
        lemma_json_seq_view(items@);
    }
    let ghost sv = json_seq_view(items@);
    let mut out: Vec<DiagnosticRelatedInformation> = Vec::new();
    proof {
        assert(sv.take(0) =~= Seq::<JsonV>::empty());
        assert(out@.map_values(|x: DiagnosticRelatedInformation| x@) =~= Seq::<RelatedV>::empty());
    }
    let mut i: usize = 0;
    while i < items.len()
        invariant
            0 <= i <= items.len(),
            rel_seq_dec(sv.take(i as int)) == Ok::<_, DecodeError>(
                out@.map_values(|x: DiagnosticRelatedInformation| x@),
            ),
        decreases items.len() - i,
    {
        proof {
            assert(sv.take(i + 1).drop_last() =~= sv.take(i as int));
            assert(sv.take(i + 1).last() == sv[i as int]);
        }
        match decode_related_information(&items[i]) {
            Ok(d) => {
                let ghost prev = out@;
                out.push(d);
                proof {
                    assert(out@.map_values(|x: DiagnosticRelatedInformation| x@) =~= prev
                        .map_values(|x: DiagnosticRelatedInformation| x@).push(d@));
                }
            },
            Err(e) => {
                proof {
                    assert(rel_seq_dec(sv.take(i + 1)) == Err::<Seq<RelatedV>, _>(e));
                    lemma_rel_seq_dec_err(sv, i + 1);
                }
                return Err(e);
            },
        }
        i += 1;
    }
    proof {
        assert(sv.take(items@.len() as int) =~= sv);
    }
    Ok(out)
}

/// Decodes one element of a `diagnostics` array.
pub fn decode_diagnostic(j: &Json) -> (r: Result<Diagnostic, DecodeError>)
    ensures
        dec_result(r) == diag_dec(j@),
{
    let fields = match j {
        Json::Obj(fs) => fs,
        _ => {
            return Err(DecodeError::BadDiagnostic);
        },
    };
    let range = match get_field(fields, &"range".to_owned()) {
        None => {
            return Err(DecodeError::MissingRange);
        },
        Some(rv) => match decode_range(rv) {
            Ok(rg) => rg,
            Err(e) => {
                return Err(e);
            },
        },
    };
    let code = match get_field(fields, &"code".to_owned()) {
        None => None,
        Some(cv) => match decode_code(cv) {
            Ok(c) => Some(c),
            Err(e) => {
                return Err(e);
            },
        },
    };
    let message = match get_field(fields, &"message".to_owned()) {
        None => {
            return Err(DecodeError::MissingMessage);
        },
        Some(Json::Str(m)) => m.clone(),
        Some(_) => {
            return Err(DecodeError::BadMessage);
        },
    };
    let related_information = match get_field(fields, &"relatedInformation".to_owned()) {
        None => None,
        Some(Json::Arr(a)) => match decode_related_list(a) {
            Ok(rs) => Some(rs),
            Err(e) => {
                return Err(e);
            },
        },
        Some(_) => {
            return Err(DecodeError::BadRelatedInformation);
        },
    };
    let data = match get_field(fields, &"data".to_owned()) {
        None => None,
        Some(d) => Some(d.clone()),
    };
    Ok(Diagnostic { range, code, message, related_information, data })
}

#[verifier::loop_isolation(false)]
fn decode_diagnostic_list(items: &Vec<Json>) -> (r: Result<Vec<Diagnostic>, DecodeError>)
    ensures
        match r {
            Ok(ds) => diag_seq_dec(json_seq_view(items@)) == Ok::<_, DecodeError>(
                ds@.map_values(|x: Diagnostic| x@),
            ),
            Err(e) => diag_seq_dec(json_seq_view(items@)) == Err::<Seq<DiagnosticV>, _>(e),
        },
{
    proof {
        lemma_json_seq_view(items@);
    }
    let ghost sv = json_seq_view(items@);
    let mut out: Vec<Diagnostic> = Vec::new();
    proof {
        assert(sv.take(0) =~= Seq::<JsonV>::empty());
        assert(out@.map_values(|x: Diagnostic| x@) =~= Seq::<DiagnosticV>::empty());
    }
    let mut i: usize = 0;
    while i < items.len()
        invariant
            0 <= i <= items.len(),
            diag_seq_dec(sv.take(i as int)) == Ok::<_, DecodeError>(
                out@.map_values(|x: Diagnostic| x@),
            ),
        decreases items.len() - i,
    {
        proof {
            assert(sv.take(i + 1).drop_last() =~= sv.take(i as int));
            assert(sv.take(i + 1).last() == sv[i as int]);
        }
        match decode_diagnostic(&items[i]) {
            Ok(d) => {
                let ghost prev = out@;
                out.push(d);
                proof {
                    assert(out@.map_values(|x: Diagnostic| x@) =~= prev.map_values(
                        |x: Diagnostic| x@,
                    ).push(d@));
                }
            },
            Err(e) => {
                proof {
                    assert(diag_seq_dec(sv.take(i + 1)) == Err::<Seq<DiagnosticV>, _>(e));
                    lemma_diag_seq_dec_err(sv, i + 1);
                }
                return Err(e);
            },
        }
        i += 1;
    }
    proof {
        assert(sv.take(items@.len() as int) =~= sv);
    }
    Ok(out)
}

/// Decodes a whole `textDocument/publishDiagnostics` payload.  Succeeds
/// exactly when the payload is an object whose optional `uri` is a string
/// and whose required `diagnostics` member is an array of well-formed
/// diagnostics; unknown members are ignored.
pub fn decode_publish_diagnostics(j: &Json) -> (r: Result<
    TextDocumentPublishDiagnostics,
    DecodeError,
>)
    ensures
        dec_result(r) == publish_dec(j@),
{
    let fields = match j {
        Json::Obj(fs) => fs,
        _ => {
            return Err(DecodeError::NotAnObject);
        },
    };
    let uri = match get_field(fields, &"uri".to_owned()) {
        None => None,
        Some(Json::Str(u)) => Some(u.clone()),
        Some(_) => {
            return Err(DecodeError::BadUri);
        },
    };
    let diagnostics = match get_field(fields, &"diagnostics".to_owned()) {
        None => {
            return Err(DecodeError::MissingDiagnostics);
        },
        Some(Json::Arr(a)) => match decode_diagnostic_list(a) {
            Ok(ds) => ds,
            Err(e) => {
                return Err(e);
            },
        },
        Some(_) => {
            return Err(DecodeError::BadDiagnostics);
        },
    };
    Ok(TextDocumentPublishDiagnostics { uri, diagnostics })
}

} // verus!
