//! The general properties of the library, stated and proved: applicability
//! of diagnostics, the decode/encode round trip, and omission of absent
//! members in the serialized capability tree.

use vstd::prelude::*;
use crate::capabilities::{CompletionItem, InitializeParams};
use crate::decode::{
    code_dec, diag_dec, diag_seq_dec, loc_dec, pos_dec, publish_dec, range_dec, rel_dec,
    rel_seq_dec, DecodeError,
};
use crate::encode::{
    code_jval, completion_item_jval, diag_jval, init_fields, init_jval, loc_jval, pos_jval,
    publish_jval, range_jval, rel_jval,
};
use crate::json::{obj_get, JsonV, lemma_obj_get_push};
use crate::types::{
    is_for_spec, CodeV, Diagnostic, DiagnosticCode, DiagnosticRelatedInformation, DiagnosticV,
    Location, LocationV, Position, PositionV, PublishV, Range, RangeV, RelatedV,
    TextDocumentPublishDiagnostics,
};

verus! {

broadcast use lemma_obj_get_push;

/// A diagnostic that carries no related-information breakdown applies to
/// every uri.
pub proof fn lemma_is_for_absent_related(d: DiagnosticV, uri: Seq<char>)
    requires
        d.related_information is None,
    ensures
        is_for_spec(d, uri),
{
}

/// With a breakdown present, a diagnostic applies to a uri exactly when
/// some entry's location names that uri.
pub proof fn lemma_is_for_present_related(d: DiagnosticV, uri: Seq<char>)
    requires
        d.related_information is Some,
    ensures
        is_for_spec(d, uri) <==> exists|i: int|
            0 <= i < d.related_information->Some_0.len()
                && d.related_information->Some_0[i].location.uri == uri,
{
}

/// A breakdown that is present but empty applies to no uri at all.
pub proof fn lemma_is_for_empty_related(d: DiagnosticV, uri: Seq<char>)
    requires
        d.related_information == Some(Seq::<RelatedV>::empty()),
    ensures
        !is_for_spec(d, uri),
{
}

/// Re-decoding an encoded position gives the position back.
pub proof fn lemma_position_round_trip(p: Position)
    ensures
        pos_dec(pos_jval(p)) == Ok::<PositionV, DecodeError>(p@),
{
    reveal_strlit("line");
    reveal_strlit("character");
    assert("line"@.len() == 4);
    assert("character"@.len() == 9);
    assert("line"@ != "character"@);
}

/// Re-decoding an encoded range gives the range back.
pub proof fn lemma_range_round_trip(r: Range)
    ensures
        range_dec(range_jval(r)) == Ok::<RangeV, DecodeError>(r@),
{
    reveal_strlit("start");
    reveal_strlit("end");
    assert("start"@.len() == 5);
    assert("end"@.len() == 3);
    assert("start"@ != "end"@);
    lemma_position_round_trip(r.start);
    lemma_position_round_trip(r.end);
}

/// Re-decoding an encoded location gives the location back.
pub proof fn lemma_location_round_trip(l: Location)
    ensures
        loc_dec(loc_jval(l)) == Ok::<LocationV, DecodeError>(l@),
{
    reveal_strlit("uri");
    reveal_strlit("range");
    assert("uri"@.len() == 3);
    assert("range"@.len() == 5);
    assert("uri"@ != "range"@);
    lemma_range_round_trip(l.range);
}

/// Re-decoding an encoded code gives the code back: the two wire shapes are
/// mutually exclusive, so no information is lost.
pub proof fn lemma_code_round_trip(c: DiagnosticCode)
    ensures
        code_dec(code_jval(c)) == Ok::<CodeV, DecodeError>(c@),
{
}

/// Re-decoding an encoded related-information entry gives the entry back.
pub proof fn lemma_related_round_trip(r: DiagnosticRelatedInformation)
    ensures
        rel_dec(rel_jval(r)) == Ok::<RelatedV, DecodeError>(r@),
{
    reveal_strlit("location");
    reveal_strlit("message");
    lemma_location_round_trip(r.location);
    assert("location"@.len() == 8);
    assert("message"@.len() == 7);
    assert("location"@ != "message"@);
}

proof fn lemma_rel_seq_round_trip(rs: Seq<DiagnosticRelatedInformation>)
    ensures
        rel_seq_dec(rs.map_values(|x: DiagnosticRelatedInformation| rel_jval(x))) == Ok::<
            Seq<RelatedV>,
            DecodeError,
        >(rs.map_values(|x: DiagnosticRelatedInformation| x@)),
    decreases rs.len(),
{
    let vs = rs.map_values(|x: DiagnosticRelatedInformation| rel_jval(x));
    let ms = rs.map_values(|x: DiagnosticRelatedInformation| x@);
    if rs.len() == 0 {
        assert(vs =~= Seq::<JsonV>::empty());
        assert(ms =~= Seq::<RelatedV>::empty());
    } else {
        lemma_rel_seq_round_trip(rs.drop_last());
        lemma_related_round_trip(rs.last());
        assert(vs.drop_last() =~= rs.drop_last().map_values(
            |x: DiagnosticRelatedInformation| rel_jval(x),
        ));
        assert(vs.last() == rel_jval(rs.last()));
        assert(ms =~= rs.drop_last().map_values(|x: DiagnosticRelatedInformation| x@).push(
            rs.last()@,
        ));
    }
}

/// Re-decoding an encoded diagnostic gives the diagnostic back, its
/// passthrough `data` included.
pub proof fn lemma_diagnostic_round_trip(d: Diagnostic)
    ensures
        diag_dec(diag_jval(d)) == Ok::<DiagnosticV, DecodeError>(d@),
{
    reveal_strlit("range");
    reveal_strlit("code");
    reveal_strlit("message");
    reveal_strlit("relatedInformation");
    reveal_strlit("data");
    assert("range"@.len() == 5);
    assert("code"@.len() == 4);
    assert("message"@.len() == 7);
    assert("relatedInformation"@.len() == 18);
    assert("data"@.len() == 4);
    assert("code"@[0] == 'c' && "data"@[0] == 'd');
    assert("code"@ != "data"@);
    lemma_range_round_trip(d.range);
    match d.code {
        None => {},
        Some(c) => {
            lemma_code_round_trip(c);
        },
    }
    match d.related_information {
        None => {},
        Some(rs) => {
            lemma_rel_seq_round_trip(rs@);
        },
    }
    let r = diag_dec(diag_jval(d));
    assert(r is Ok);
    assert(r->Ok_0 =~~= d@);
}

proof fn lemma_diag_seq_round_trip(ds: Seq<Diagnostic>)
    ensures
        diag_seq_dec(ds.map_values(|x: Diagnostic| diag_jval(x))) == Ok::<
            Seq<DiagnosticV>,
            DecodeError,
        >(ds.map_values(|x: Diagnostic| x@)),
    decreases ds.len(),
{
    let vs = ds.map_values(|x: Diagnostic| diag_jval(x));
    let ms = ds.map_values(|x: Diagnostic| x@);
    if ds.len() == 0 {
        assert(vs =~= Seq::<JsonV>::empty());
        assert(ms =~= Seq::<DiagnosticV>::empty());
    } else {
        lemma_diag_seq_round_trip(ds.drop_last());
        lemma_diagnostic_round_trip(ds.last());
        assert(vs.drop_last() =~= ds.drop_last().map_values(|x: Diagnostic| diag_jval(x)));
        assert(vs.last() == diag_jval(ds.last()));
        assert(ms =~= ds.drop_last().map_values(|x: Diagnostic| x@).push(ds.last()@));
    }
}

/// The round trip: decoding the encoding of a notification payload succeeds
/// and gives the payload back — the order of the diagnostics and every field
/// value, the opaque `data` included, are preserved exactly.
pub proof fn lemma_publish_round_trip(p: TextDocumentPublishDiagnostics)
    ensures
        publish_dec(publish_jval(p)) == Ok::<PublishV, DecodeError>(p@),
{
    reveal_strlit("uri");
    reveal_strlit("diagnostics");
    assert("uri"@.len() == 3);
    assert("diagnostics"@.len() == 11);
    assert("uri"@ != "diagnostics"@);
    lemma_diag_seq_round_trip(p.diagnostics@);
    let r = publish_dec(publish_jval(p));
    assert(r is Ok);
    assert(r->Ok_0 =~~= p@);
}

/// The serialized `initialize` params omit every optional member that is
/// unset and contain every member that is set; `capabilities` always
/// appears.  In particular, params with nothing set serialize to an object
/// holding solely the `capabilities` member.
pub proof fn lemma_initialize_params_omission(p: InitializeParams)
    ensures
        init_jval(p) matches JsonV::Obj(fs) && {
            &&& (obj_get(fs, "processId"@) is Some <==> p.process_id is Some)
            &&& (obj_get(fs, "locale"@) is Some <==> p.locale is Some)
            &&& (obj_get(fs, "rootPath"@) is Some <==> p.root_path is Some)
            &&& (obj_get(fs, "rootUri"@) is Some <==> p.root_uri is Some)
            &&& (obj_get(fs, "initializationOptions"@) is Some <==> p.initialization_options
                is Some)
            &&& obj_get(fs, "capabilities"@) is Some
            &&& fs.len() == 1 + (if p.process_id is Some {
                1int
            } else {
                0int
            }) + (if p.locale is Some {
                1int
            } else {
                0int
            }) + (if p.root_path is Some {
                1int
            } else {
                0int
            }) + (if p.root_uri is Some {
                1int
            } else {
                0int
            }) + (if p.initialization_options is Some {
                1int
            } else {
                0int
            })
        },
{
    reveal_strlit("processId");
    reveal_strlit("locale");
    reveal_strlit("rootPath");
    reveal_strlit("rootUri");
    reveal_strlit("initializationOptions");
    reveal_strlit("capabilities");
    assert("processId"@.len() == 9);
    assert("locale"@.len() == 6);
    assert("rootPath"@.len() == 8);
    assert("rootUri"@.len() == 7);
    assert("initializationOptions"@.len() == 21);
    assert("capabilities"@.len() == 12);
    assert(obj_get(init_fields(p), "capabilities"@) is Some);
}

/// The facts the per-key lemmas below share: the lengths of the ten
/// completion-item member names, and the disequality of the two same-length
/// pairs among them.  Any two names of different lengths differ by these
/// facts alone.
proof fn lemma_completion_item_key_facts()
    ensures
        "snippetSupport"@.len() == 14,
        "commitCharactersSupport"@.len() == 23,
        "documentationFormat"@.len() == 19,
        "deprecatedSupport"@.len() == 17,
        "preselectSupport"@.len() == 16,
        "tagSupport"@.len() == 10,
        "insertReplaceSupport"@.len() == 20,
        "resolveSupport"@.len() == 14,
        "insertTextModeSupport"@.len() == 21,
        "labelDetailsSupport"@.len() == 19,
        "snippetSupport"@ != "resolveSupport"@,
        "documentationFormat"@ != "labelDetailsSupport"@,
{
    reveal_strlit("snippetSupport");
    reveal_strlit("commitCharactersSupport");
    reveal_strlit("documentationFormat");
    reveal_strlit("deprecatedSupport");
    reveal_strlit("preselectSupport");
    reveal_strlit("tagSupport");
    reveal_strlit("insertReplaceSupport");
    reveal_strlit("resolveSupport");
    reveal_strlit("insertTextModeSupport");
    reveal_strlit("labelDetailsSupport");
    assert("snippetSupport"@[0] == 's' && "resolveSupport"@[0] == 'r');
    assert("snippetSupport"@ != "resolveSupport"@);
    assert("documentationFormat"@[0] == 'd' && "labelDetailsSupport"@[0] == 'l');
    assert("documentationFormat"@ != "labelDetailsSupport"@);
}

#[verifier::rlimit(100)]
#[verifier::spinoff_prover]
proof fn lemma_completion_item_key_snippet_support(ci: CompletionItem)
    ensures
        completion_item_jval(ci) matches JsonV::Obj(fs) && (obj_get(fs, "snippetSupport"@) is Some
            <==> ci.snippet_support is Some),
{
    reveal_strlit("snippetSupport");
    reveal_strlit("commitCharactersSupport");
    reveal_strlit("documentationFormat");
    reveal_strlit("deprecatedSupport");
    reveal_strlit("preselectSupport");
    reveal_strlit("tagSupport");
    reveal_strlit("insertReplaceSupport");
    reveal_strlit("resolveSupport");
    reveal_strlit("insertTextModeSupport");
    reveal_strlit("labelDetailsSupport");
    lemma_completion_item_key_facts();
}

#[verifier::rlimit(100)]
#[verifier::spinoff_prover]
proof fn lemma_completion_item_key_commit_characters_support(ci: CompletionItem)
    ensures
        completion_item_jval(ci) matches JsonV::Obj(fs) && (obj_get(fs, "commitCharactersSupport"@) is Some
            <==> ci.commit_characters_support is Some),
{
    reveal_strlit("snippetSupport");
    reveal_strlit("commitCharactersSupport");
    reveal_strlit("documentationFormat");
    reveal_strlit("deprecatedSupport");
    reveal_strlit("preselectSupport");
    reveal_strlit("tagSupport");
    reveal_strlit("insertReplaceSupport");
    reveal_strlit("resolveSupport");
    reveal_strlit("insertTextModeSupport");
    reveal_strlit("labelDetailsSupport");
    lemma_completion_item_key_facts();
}

#[verifier::rlimit(100)]
#[verifier::spinoff_prover]
proof fn lemma_completion_item_key_documentation_format(ci: CompletionItem)
    ensures
        completion_item_jval(ci) matches JsonV::Obj(fs) && (obj_get(fs, "documentationFormat"@) is Some
            <==> ci.documentation_format is Some),
{
    reveal_strlit("snippetSupport");
    reveal_strlit("commitCharactersSupport");
    reveal_strlit("documentationFormat");
    reveal_strlit("deprecatedSupport");
    reveal_strlit("preselectSupport");
    reveal_strlit("tagSupport");
    reveal_strlit("insertReplaceSupport");
    reveal_strlit("resolveSupport");
    reveal_strlit("insertTextModeSupport");
    reveal_strlit("labelDetailsSupport");
    lemma_completion_item_key_facts();
}

#[verifier::rlimit(100)]
#[verifier::spinoff_prover]
proof fn lemma_completion_item_key_deprecated_support(ci: CompletionItem)
    ensures
        completion_item_jval(ci) matches JsonV::Obj(fs) && (obj_get(fs, "deprecatedSupport"@) is Some
            <==> ci.deprecated_support is Some),
{
    reveal_strlit("snippetSupport");
    reveal_strlit("commitCharactersSupport");
    reveal_strlit("documentationFormat");
    reveal_strlit("deprecatedSupport");
    reveal_strlit("preselectSupport");
    reveal_strlit("tagSupport");
    reveal_strlit("insertReplaceSupport");
    reveal_strlit("resolveSupport");
    reveal_strlit("insertTextModeSupport");
    reveal_strlit("labelDetailsSupport");
    lemma_completion_item_key_facts();
}

#[verifier::rlimit(100)]
#[verifier::spinoff_prover]
proof fn lemma_completion_item_key_preselect_support(ci: CompletionItem)
    ensures
        completion_item_jval(ci) matches JsonV::Obj(fs) && (obj_get(fs, "preselectSupport"@) is Some
            <==> ci.preselect_support is Some),
{
    reveal_strlit("snippetSupport");
    reveal_strlit("commitCharactersSupport");
    reveal_strlit("documentationFormat");
    reveal_strlit("deprecatedSupport");
    reveal_strlit("preselectSupport");
    reveal_strlit("tagSupport");
    reveal_strlit("insertReplaceSupport");
    reveal_strlit("resolveSupport");
    reveal_strlit("insertTextModeSupport");
    reveal_strlit("labelDetailsSupport");
    lemma_completion_item_key_facts();
}

#[verifier::rlimit(100)]
#[verifier::spinoff_prover]
proof fn lemma_completion_item_key_tag_support(ci: CompletionItem)
    ensures
        completion_item_jval(ci) matches JsonV::Obj(fs) && (obj_get(fs, "tagSupport"@) is Some
            <==> ci.tag_support is Some),
{
    reveal_strlit("snippetSupport");
    reveal_strlit("commitCharactersSupport");
    reveal_strlit("documentationFormat");
    reveal_strlit("deprecatedSupport");
    reveal_strlit("preselectSupport");
    reveal_strlit("tagSupport");
    reveal_strlit("insertReplaceSupport");
    reveal_strlit("resolveSupport");
    reveal_strlit("insertTextModeSupport");
    reveal_strlit("labelDetailsSupport");
    lemma_completion_item_key_facts();
}

#[verifier::rlimit(100)]
#[verifier::spinoff_prover]
proof fn lemma_completion_item_key_insert_replace_support(ci: CompletionItem)
    ensures
        completion_item_jval(ci) matches JsonV::Obj(fs) && (obj_get(fs, "insertReplaceSupport"@) is Some
            <==> ci.insert_replace_support is Some),
{
    reveal_strlit("snippetSupport");
    reveal_strlit("commitCharactersSupport");
    reveal_strlit("documentationFormat");
    reveal_strlit("deprecatedSupport");
    reveal_strlit("preselectSupport");
    reveal_strlit("tagSupport");
    reveal_strlit("insertReplaceSupport");
    reveal_strlit("resolveSupport");
    reveal_strlit("insertTextModeSupport");
    reveal_strlit("labelDetailsSupport");
    lemma_completion_item_key_facts();
}

#[verifier::rlimit(100)]
#[verifier::spinoff_prover]
proof fn lemma_completion_item_key_resolve_support(ci: CompletionItem)
    ensures
        completion_item_jval(ci) matches JsonV::Obj(fs) && (obj_get(fs, "resolveSupport"@) is Some
            <==> ci.resolve_support is Some),
{
    reveal_strlit("snippetSupport");
    reveal_strlit("commitCharactersSupport");
    reveal_strlit("documentationFormat");
    reveal_strlit("deprecatedSupport");
    reveal_strlit("preselectSupport");
    reveal_strlit("tagSupport");
    reveal_strlit("insertReplaceSupport");
    reveal_strlit("resolveSupport");
    reveal_strlit("insertTextModeSupport");
    reveal_strlit("labelDetailsSupport");
    lemma_completion_item_key_facts();
}

#[verifier::rlimit(100)]
#[verifier::spinoff_prover]
proof fn lemma_completion_item_key_insert_text_mode_support(ci: CompletionItem)
    ensures
        completion_item_jval(ci) matches JsonV::Obj(fs) && (obj_get(fs, "insertTextModeSupport"@) is Some
            <==> ci.insert_text_mode_support is Some),
{
    reveal_strlit("snippetSupport");
    reveal_strlit("commitCharactersSupport");
    reveal_strlit("documentationFormat");
    reveal_strlit("deprecatedSupport");
    reveal_strlit("preselectSupport");
    reveal_strlit("tagSupport");
    reveal_strlit("insertReplaceSupport");
    reveal_strlit("resolveSupport");
    reveal_strlit("insertTextModeSupport");
    reveal_strlit("labelDetailsSupport");
    lemma_completion_item_key_facts();
}

#[verifier::rlimit(100)]
#[verifier::spinoff_prover]
proof fn lemma_completion_item_key_label_details_support(ci: CompletionItem)
    ensures
        completion_item_jval(ci) matches JsonV::Obj(fs) && (obj_get(fs, "labelDetailsSupport"@) is Some
            <==> ci.label_details_support is Some),
{
    reveal_strlit("snippetSupport");
    reveal_strlit("commitCharactersSupport");
    reveal_strlit("documentationFormat");
    reveal_strlit("deprecatedSupport");
    reveal_strlit("preselectSupport");
    reveal_strlit("tagSupport");
    reveal_strlit("insertReplaceSupport");
    reveal_strlit("resolveSupport");
    reveal_strlit("insertTextModeSupport");
    reveal_strlit("labelDetailsSupport");
    lemma_completion_item_key_facts();
}

/// The serialized completion-item capabilities omit every flag that is
/// unset and contain every flag that is set.
pub proof fn lemma_completion_item_omission(ci: CompletionItem)
    ensures
        completion_item_jval(ci) matches JsonV::Obj(fs) && {
            &&& (obj_get(fs, "snippetSupport"@) is Some <==> ci.snippet_support is Some)
            &&& (obj_get(fs, "commitCharactersSupport"@) is Some <==> ci.commit_characters_support is Some)
            &&& (obj_get(fs, "documentationFormat"@) is Some <==> ci.documentation_format is Some)
            &&& (obj_get(fs, "deprecatedSupport"@) is Some <==> ci.deprecated_support is Some)
            &&& (obj_get(fs, "preselectSupport"@) is Some <==> ci.preselect_support is Some)
            &&& (obj_get(fs, "tagSupport"@) is Some <==> ci.tag_support is Some)
            &&& (obj_get(fs, "insertReplaceSupport"@) is Some <==> ci.insert_replace_support is Some)
            &&& (obj_get(fs, "resolveSupport"@) is Some <==> ci.resolve_support is Some)
            &&& (obj_get(fs, "insertTextModeSupport"@) is Some <==> ci.insert_text_mode_support is Some)
            &&& (obj_get(fs, "labelDetailsSupport"@) is Some <==> ci.label_details_support is Some)
        },
{
    lemma_completion_item_key_snippet_support(ci);
    lemma_completion_item_key_commit_characters_support(ci);
    lemma_completion_item_key_documentation_format(ci);
    lemma_completion_item_key_deprecated_support(ci);
    lemma_completion_item_key_preselect_support(ci);
    lemma_completion_item_key_tag_support(ci);
    lemma_completion_item_key_insert_replace_support(ci);
    lemma_completion_item_key_resolve_support(ci);
    lemma_completion_item_key_insert_text_mode_support(ci);
    lemma_completion_item_key_label_details_support(ci);
}

} // verus!
