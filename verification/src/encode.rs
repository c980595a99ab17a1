//! Encoding to a JSON value tree: re-encoding of decoded diagnostics and the
//! one-shot serialization of the capability tree.  A member whose semantic
//! value is absent is omitted from the encoded object entirely; an explicit
//! `null` is never emitted for it.

use vstd::prelude::*;
use crate::capabilities::{
    ClientCapabilities, CompletionClientCapabilities, CompletionItem, CompletionItemTag,
    CompletionResolveSupport, CompletionTag, InitializeParams, InsertTextMode, MarkupKind,
    TextDocumentClientCapabilities,
};
use crate::json::{
    Json, JsonV, json_fields_view, json_seq_view, lemma_json_fields_view_push,
    lemma_json_seq_view_push,
};
use crate::types::{
    Diagnostic, DiagnosticCode, DiagnosticRelatedInformation, Location, Position, Range,
    TextDocumentPublishDiagnostics,
};

verus! {

broadcast use lemma_json_fields_view_push, lemma_json_seq_view_push;

// ------------------------------------------------------------------
// The canonical encoded form, as a model value.

pub open spec fn empty_fields() -> Seq<(Seq<char>, JsonV)> {
    Seq::empty()
}

pub open spec fn pos_jval(p: Position) -> JsonV {
    JsonV::Obj(
        empty_fields().push(("line"@, JsonV::Int(p.line as int))).push(
            ("character"@, JsonV::Int(p.character as int)),
        ),
    )
}

pub open spec fn range_jval(r: Range) -> JsonV {
    JsonV::Obj(
        empty_fields().push(("start"@, pos_jval(r.start))).push(("end"@, pos_jval(r.end))),
    )
}

pub open spec fn loc_jval(l: Location) -> JsonV {
    JsonV::Obj(
        empty_fields().push(("uri"@, JsonV::Str(l.uri@))).push(("range"@, range_jval(l.range))),
    )
}

/// A numeric code re-encodes as a bare number, a string code as a bare
/// string, exactly as it arrived.
pub open spec fn code_jval(c: DiagnosticCode) -> JsonV {
    match c {
        DiagnosticCode::Int(n) => JsonV::Int(n as int),
        DiagnosticCode::String(s) => JsonV::Str(s@),
    }
}

pub open spec fn rel_jval(r: DiagnosticRelatedInformation) -> JsonV {
    JsonV::Obj(
        empty_fields().push(("location"@, loc_jval(r.location))).push(
            ("message"@, JsonV::Str(r.message@)),
        ),
    )
}

pub open spec fn diag_fields(d: Diagnostic) -> Seq<(Seq<char>, JsonV)> {
    let f = empty_fields().push(("range"@, range_jval(d.range)));
    let f = if d.code is Some {
        f.push(("code"@, code_jval(d.code->Some_0)))
    } else {
        f
    };
    let f = f.push(("message"@, JsonV::Str(d.message@)));
    let f = if d.related_information is Some {
        f.push(
            (
                "relatedInformation"@,
                JsonV::Arr(
                    d.related_information->Some_0@.map_values(
                        |x: DiagnosticRelatedInformation| rel_jval(x),
                    ),
                ),
            ),
        )
    } else {
        f
    };
    if d.data is Some {
        f.push(("data"@, d.data->Some_0@))
    } else {
        f
    }
}

pub open spec fn diag_jval(d: Diagnostic) -> JsonV {
    JsonV::Obj(diag_fields(d))
}

pub open spec fn publish_fields(p: TextDocumentPublishDiagnostics) -> Seq<(Seq<char>, JsonV)> {
    let f = empty_fields();
    let f = if p.uri is Some {
        f.push(("uri"@, JsonV::Str(p.uri->Some_0@)))
    } else {
        f
    };
    f.push(("diagnostics"@, JsonV::Arr(p.diagnostics@.map_values(|d: Diagnostic| diag_jval(d)))))
}

pub open spec fn publish_jval(p: TextDocumentPublishDiagnostics) -> JsonV {
    JsonV::Obj(publish_fields(p))
}

pub open spec fn markup_jval(k: MarkupKind) -> JsonV {
    match k {
        MarkupKind::PlainText => JsonV::Str("plaintext"@),
        MarkupKind::Markdown => JsonV::Str("markdown"@),
    }
}

pub open spec fn item_tag_jval(t: CompletionItemTag) -> JsonV {
    JsonV::Int(1)
}

pub open spec fn completion_tag_jval(t: CompletionTag) -> JsonV {
    JsonV::Obj(
        empty_fields().push(
            ("valueSet"@, JsonV::Arr(t.value_set@.map_values(|x: CompletionItemTag| item_tag_jval(x)))),
        ),
    )
}

pub open spec fn resolve_jval(r: CompletionResolveSupport) -> JsonV {
    JsonV::Obj(
        empty_fields().push(
            ("properties"@, JsonV::Arr(r.properties@.map_values(|s: String| JsonV::Str(s@)))),
        ),
    )
}

pub open spec fn insert_text_mode_jval(m: InsertTextMode) -> JsonV {
    JsonV::Obj(
        empty_fields().push(
            ("valueSet"@, JsonV::Arr(m.value_set@.map_values(|n: u64| JsonV::Int(n as int)))),
        ),
    )
}

pub open spec fn completion_item_fields(ci: CompletionItem) -> Seq<(Seq<char>, JsonV)> {
    let f = empty_fields();
    let f = if ci.snippet_support is Some {
        f.push(("snippetSupport"@, JsonV::Bool(ci.snippet_support->Some_0)))
    } else {
        f
    };
    let f = if ci.commit_characters_support is Some {
        f.push(("commitCharactersSupport"@, JsonV::Bool(ci.commit_characters_support->Some_0)))
    } else {
        f
    };
    let f = if ci.documentation_format is Some {
        f.push(
            (
                "documentationFormat"@,
                JsonV::Arr(
                    ci.documentation_format->Some_0@.map_values(|k: MarkupKind| markup_jval(k)),
                ),
            ),
        )
    } else {
        f
    };
    let f = if ci.deprecated_support is Some {
        f.push(("deprecatedSupport"@, JsonV::Bool(ci.deprecated_support->Some_0)))
    } else {
        f
    };
    let f = if ci.preselect_support is Some {
        f.push(("preselectSupport"@, JsonV::Bool(ci.preselect_support->Some_0)))
    } else {
        f
    };
    let f = if ci.tag_support is Some {
        f.push(("tagSupport"@, completion_tag_jval(ci.tag_support->Some_0)))
    } else {
        f
    };
    let f = if ci.insert_replace_support is Some {
        f.push(("insertReplaceSupport"@, JsonV::Bool(ci.insert_replace_support->Some_0)))
    } else {
        f
    };
    let f = if ci.resolve_support is Some {
        f.push(("resolveSupport"@, resolve_jval(ci.resolve_support->Some_0)))
    } else {
        f
    };
    let f = if ci.insert_text_mode_support is Some {
        f.push(("insertTextModeSupport"@, insert_text_mode_jval(ci.insert_text_mode_support->Some_0)))
    } else {
        f
    };
    if ci.label_details_support is Some {
        f.push(("labelDetailsSupport"@, JsonV::Bool(ci.label_details_support->Some_0)))
    } else {
        f
    }
}

pub open spec fn completion_item_jval(ci: CompletionItem) -> JsonV {
    JsonV::Obj(completion_item_fields(ci))
}

pub open spec fn completion_caps_jval(c: CompletionClientCapabilities) -> JsonV {
    JsonV::Obj(
        if c.completion_item is Some {
            empty_fields().push(("completionItem"@, completion_item_jval(c.completion_item->Some_0)))
        } else {
            empty_fields()
        },
    )
}

pub open spec fn text_document_caps_jval(c: TextDocumentClientCapabilities) -> JsonV {
    JsonV::Obj(
        if c.completion is Some {
            empty_fields().push(("completion"@, completion_caps_jval(c.completion->Some_0)))
        } else {
            empty_fields()
        },
    )
}

pub open spec fn client_caps_jval(c: ClientCapabilities) -> JsonV {
    JsonV::Obj(
        if c.text_document is Some {
            empty_fields().push(("textDocument"@, text_document_caps_jval(c.text_document->Some_0)))
        } else {
            empty_fields()
        },
    )
}

pub open spec fn init_fields(p: InitializeParams) -> Seq<(Seq<char>, JsonV)> {
    let f = empty_fields();
    let f = if p.process_id is Some {
        f.push(("processId"@, JsonV::Int(p.process_id->Some_0 as int)))
    } else {
        f
    };
    let f = if p.locale is Some {
        f.push(("locale"@, JsonV::Str(p.locale->Some_0@)))
    } else {
        f
    };
    let f = if p.root_path is Some {
        f.push(("rootPath"@, JsonV::Str(p.root_path->Some_0@)))
    } else {
        f
    };
    let f = if p.root_uri is Some {
        f.push(("rootUri"@, JsonV::Str(p.root_uri->Some_0@)))
    } else {
        f
    };
    let f = if p.initialization_options is Some {
        f.push(("initializationOptions"@, p.initialization_options->Some_0@))
    } else {
        f
    };
    f.push(("capabilities"@, client_caps_jval(p.capabilities)))
}

/// The serialized `initialize` params: only the members that are set appear.
pub open spec fn init_jval(p: InitializeParams) -> JsonV {
    JsonV::Obj(init_fields(p))
}

// ------------------------------------------------------------------
// Executable encoders.

pub fn encode_position(p: &Position) -> (r: Json)
    ensures
        r@ == pos_jval(*p),
{
    let mut fields: Vec<(String, Json)> = Vec::new();
    fields.push(("line".to_owned(), Json::Int(p.line as i128)));
    fields.push(("character".to_owned(), Json::Int(p.character as i128)));
    Json::Obj(fields)
}

pub fn encode_range(r: &Range) -> (res: Json)
    ensures
        res@ == range_jval(*r),
{
    let mut fields: Vec<(String, Json)> = Vec::new();
    fields.push(("start".to_owned(), encode_position(&r.start)));
    fields.push(("end".to_owned(), encode_position(&r.end)));
    Json::Obj(fields)
}

pub fn encode_location(l: &Location) -> (r: Json)
    ensures
        r@ == loc_jval(*l),
{
    let mut fields: Vec<(String, Json)> = Vec::new();
    fields.push(("uri".to_owned(), Json::Str(l.uri.clone())));
    fields.push(("range".to_owned(), encode_range(&l.range)));
    Json::Obj(fields)
}

pub fn encode_code(c: &DiagnosticCode) -> (r: Json)
    ensures
        r@ == code_jval(*c),
{
    match c {
        DiagnosticCode::Int(n) => Json::Int(*n),
        DiagnosticCode::String(s) => Json::Str(s.clone()),
    }
}

pub fn encode_related_information(r: &DiagnosticRelatedInformation) -> (res: Json)
    ensures
        res@ == rel_jval(*r),
{
    let mut fields: Vec<(String, Json)> = Vec::new();
    fields.push(("location".to_owned(), encode_location(&r.location)));
    fields.push(("message".to_owned(), Json::Str(r.message.clone())));
    Json::Obj(fields)
}

#[verifier::loop_isolation(false)]
fn encode_related_list(rs: &Vec<DiagnosticRelatedInformation>) -> (r: Vec<Json>)
    ensures
        json_seq_view(r@) == rs@.map_values(|x: DiagnosticRelatedInformation| rel_jval(x)),
{
    let mut out: Vec<Json> = Vec::new();
    proof {
        assert(json_seq_view(out@) =~= rs@.take(0).map_values(
            |x: DiagnosticRelatedInformation| rel_jval(x),
        ));
    }
    let mut i: usize = 0;
    while i < rs.len()
        invariant
            0 <= i <= rs.len(),
            json_seq_view(out@) == rs@.take(i as int).map_values(
                |x: DiagnosticRelatedInformation| rel_jval(x),
            ),
        decreases rs.len() - i,
    {
        out.push(encode_related_information(&rs[i]));
        proof {
            assert(json_seq_view(out@) =~= rs@.take(i + 1).map_values(
                |x: DiagnosticRelatedInformation| rel_jval(x),
            ));
        }
        i += 1;
    }
    proof {
        assert(rs@.take(rs@.len() as int) =~= rs@);
    }
    out
}

/// Re-encodes one diagnostic; members the diagnostic does not carry are
/// omitted, and `data` is re-emitted unchanged.
pub fn encode_diagnostic(d: &Diagnostic) -> (r: Json)
    ensures
        r@ == diag_jval(*d),
{
    let mut fields: Vec<(String, Json)> = Vec::new();
    fields.push(("range".to_owned(), encode_range(&d.range)));
    match &d.code {
        None => {},
        Some(c) => {
            fields.push(("code".to_owned(), encode_code(c)));
        },
    }
    fields.push(("message".to_owned(), Json::Str(d.message.clone())));
    match &d.related_information {
        None => {},
        Some(rs) => {
            fields.push(("relatedInformation".to_owned(), Json::Arr(encode_related_list(rs))));
        },
    }
    match &d.data {
        None => {},
        Some(v) => {
            fields.push(("data".to_owned(), v.clone()));
        },
    }
    proof {
        assert(json_fields_view(fields@) =~= diag_fields(*d));
    }
    Json::Obj(fields)
}

#[verifier::loop_isolation(false)]
fn encode_diagnostic_list(ds: &Vec<Diagnostic>) -> (r: Vec<Json>)
    ensures
        json_seq_view(r@) == ds@.map_values(|x: Diagnostic| diag_jval(x)),
{
    let mut out: Vec<Json> = Vec::new();
    proof {
        assert(json_seq_view(out@) =~= ds@.take(0).map_values(|x: Diagnostic| diag_jval(x)));
    }
    let mut i: usize = 0;
    while i < ds.len()
        invariant
            0 <= i <= ds.len(),
            json_seq_view(out@) == ds@.take(i as int).map_values(|x: Diagnostic| diag_jval(x)),
        decreases ds.len() - i,
    {
        out.push(encode_diagnostic(&ds[i]));
        proof {
            assert(json_seq_view(out@) =~= ds@.take(i + 1).map_values(
                |x: Diagnostic| diag_jval(x),
            ));
        }
        i += 1;
    }
    proof {
        assert(ds@.take(ds@.len() as int) =~= ds@);
    }
    out
}

/// Re-encodes a whole notification payload, preserving the order of the
/// diagnostics and every field value.
pub fn encode_publish_diagnostics(p: &TextDocumentPublishDiagnostics) -> (r: Json)
    ensures
        r@ == publish_jval(*p),
{
    let mut fields: Vec<(String, Json)> = Vec::new();
    match &p.uri {
        None => {},
        Some(u) => {
            fields.push(("uri".to_owned(), Json::Str(u.clone())));
        },
    }
    fields.push(("diagnostics".to_owned(), Json::Arr(encode_diagnostic_list(&p.diagnostics))));
    proof {
        assert(json_fields_view(fields@) =~= publish_fields(*p));
    }
    Json::Obj(fields)
}

pub fn encode_markup_kind(k: &MarkupKind) -> (r: Json)
    ensures
        r@ == markup_jval(*k),
{
    match k {
        MarkupKind::PlainText => Json::Str("plaintext".to_owned()),
        MarkupKind::Markdown => Json::Str("markdown".to_owned()),
    }
}

pub fn encode_completion_item_tag(t: &CompletionItemTag) -> (r: Json)
    ensures
        r@ == item_tag_jval(*t),
{
    Json::Int(1)
}

#[verifier::loop_isolation(false)]
pub fn encode_completion_tag(t: &CompletionTag) -> (r: Json)
    ensures
        r@ == completion_tag_jval(*t),
{
    let mut items: Vec<Json> = Vec::new();
    proof {
        assert(json_seq_view(items@) =~= t.value_set@.take(0).map_values(
            |x: CompletionItemTag| item_tag_jval(x),
        ));
    }
    let mut i: usize = 0;
    while i < t.value_set.len()
        invariant
            0 <= i <= t.value_set.len(),
            json_seq_view(items@) == t.value_set@.take(i as int).map_values(
                |x: CompletionItemTag| item_tag_jval(x),
            ),
        decreases t.value_set.len() - i,
    {
        items.push(encode_completion_item_tag(&t.value_set[i]));
        proof {
            assert(json_seq_view(items@) =~= t.value_set@.take(i + 1).map_values(
                |x: CompletionItemTag| item_tag_jval(x),
            ));
        }
        i += 1;
    }
    proof {
        assert(t.value_set@.take(t.value_set@.len() as int) =~= t.value_set@);
    }
    let mut fields: Vec<(String, Json)> = Vec::new();
    fields.push(("valueSet".to_owned(), Json::Arr(items)));
    Json::Obj(fields)
}

#[verifier::loop_isolation(false)]
pub fn encode_resolve_support(rs: &CompletionResolveSupport) -> (r: Json)
    ensures
        r@ == resolve_jval(*rs),
{
    let mut items: Vec<Json> = Vec::new();
    proof {
        assert(json_seq_view(items@) =~= rs.properties@.take(0).map_values(
            |s: String| JsonV::Str(s@),
        ));
    }
    let mut i: usize = 0;
    while i < rs.properties.len()
        invariant
            0 <= i <= rs.properties.len(),
            json_seq_view(items@) == rs.properties@.take(i as int).map_values(
                |s: String| JsonV::Str(s@),
            ),
        decreases rs.properties.len() - i,
    {
        items.push(Json::Str(rs.properties[i].clone()));
        proof {
            assert(json_seq_view(items@) =~= rs.properties@.take(i + 1).map_values(
                |s: String| JsonV::Str(s@),
            ));
        }
        i += 1;
    }
    proof {
        assert(rs.properties@.take(rs.properties@.len() as int) =~= rs.properties@);
    }
    let mut fields: Vec<(String, Json)> = Vec::new();
    fields.push(("properties".to_owned(), Json::Arr(items)));
    Json::Obj(fields)
}

#[verifier::loop_isolation(false)]
pub fn encode_insert_text_mode(m: &InsertTextMode) -> (r: Json)
    ensures
        r@ == insert_text_mode_jval(*m),
{
    let mut items: Vec<Json> = Vec::new();
    proof {
        assert(json_seq_view(items@) =~= m.value_set@.take(0).map_values(
            |n: u64| JsonV::Int(n as int),
        ));
    }
    let mut i: usize = 0;
    while i < m.value_set.len()
        invariant
            0 <= i <= m.value_set.len(),
            json_seq_view(items@) == m.value_set@.take(i as int).map_values(
                |n: u64| JsonV::Int(n as int),
            ),
        decreases m.value_set.len() - i,
    {
        items.push(Json::Int(m.value_set[i] as i128));
        proof {
            assert(json_seq_view(items@) =~= m.value_set@.take(i + 1).map_values(
                |n: u64| JsonV::Int(n as int),
            ));
        }
        i += 1;
    }
    proof {
        assert(m.value_set@.take(m.value_set@.len() as int) =~= m.value_set@);
    }
    let mut fields: Vec<(String, Json)> = Vec::new();
    fields.push(("valueSet".to_owned(), Json::Arr(items)));
    Json::Obj(fields)
}

#[verifier::loop_isolation(false)]
fn encode_markup_list(ks: &Vec<MarkupKind>) -> (r: Vec<Json>)
    ensures
        json_seq_view(r@) == ks@.map_values(|k: MarkupKind| markup_jval(k)),
{
    let mut out: Vec<Json> = Vec::new();
    proof {
        assert(json_seq_view(out@) =~= ks@.take(0).map_values(|k: MarkupKind| markup_jval(k)));
    }
    let mut i: usize = 0;
    while i < ks.len()
        invariant
            0 <= i <= ks.len(),
            json_seq_view(out@) == ks@.take(i as int).map_values(|k: MarkupKind| markup_jval(k)),
        decreases ks.len() - i,
    {
        out.push(encode_markup_kind(&ks[i]));
        proof {
            assert(json_seq_view(out@) =~= ks@.take(i + 1).map_values(
                |k: MarkupKind| markup_jval(k),
            ));
        }
        i += 1;
    }
    proof {
        assert(ks@.take(ks@.len() as int) =~= ks@);
    }
    out
}

#[verifier::rlimit(100)]
pub fn encode_completion_item(ci: &CompletionItem) -> (r: Json)
    ensures
        r@ == completion_item_jval(*ci),
{
    let mut fields: Vec<(String, Json)> = Vec::new();
    match &ci.snippet_support {
        None => {},
        Some(b) => {
            fields.push(("snippetSupport".to_owned(), Json::Bool(*b)));
        },
    }
    match &ci.commit_characters_support {
        None => {},
        Some(b) => {
            fields.push(("commitCharactersSupport".to_owned(), Json::Bool(*b)));
        },
    }
    match &ci.documentation_format {
        None => {},
        Some(ks) => {
            fields.push(("documentationFormat".to_owned(), Json::Arr(encode_markup_list(ks))));
        },
    }
    match &ci.deprecated_support {
        None => {},
        Some(b) => {
            fields.push(("deprecatedSupport".to_owned(), Json::Bool(*b)));
        },
    }
    match &ci.preselect_support {
        None => {},
        Some(b) => {
            fields.push(("preselectSupport".to_owned(), Json::Bool(*b)));
        },
    }
    match &ci.tag_support {
        None => {},
        Some(t) => {
            fields.push(("tagSupport".to_owned(), encode_completion_tag(t)));
        },
    }
    match &ci.insert_replace_support {
        None => {},
        Some(b) => {
            fields.push(("insertReplaceSupport".to_owned(), Json::Bool(*b)));
        },
    }
    match &ci.resolve_support {
        None => {},
        Some(rs) => {
            fields.push(("resolveSupport".to_owned(), encode_resolve_support(rs)));
        },
    }
    match &ci.insert_text_mode_support {
        None => {},
        Some(m) => {
            fields.push(("insertTextModeSupport".to_owned(), encode_insert_text_mode(m)));
        },
    }
    match &ci.label_details_support {
        None => {},
        Some(b) => {
            fields.push(("labelDetailsSupport".to_owned(), Json::Bool(*b)));
        },
    }
    proof {
        assert(json_fields_view(fields@) =~= completion_item_fields(*ci));
    }
    Json::Obj(fields)
}

pub fn encode_completion_capabilities(c: &CompletionClientCapabilities) -> (r: Json)
    ensures
        r@ == completion_caps_jval(*c),
{
    let mut fields: Vec<(String, Json)> = Vec::new();
    match &c.completion_item {
        None => {},
        Some(ci) => {
            fields.push(("completionItem".to_owned(), encode_completion_item(ci)));
        },
    }
    proof {
        assert(json_fields_view(fields@) =~= completion_caps_jval(*c)->Obj_0);
    }
    Json::Obj(fields)
}

pub fn encode_text_document_capabilities(c: &TextDocumentClientCapabilities) -> (r: Json)
    ensures
        r@ == text_document_caps_jval(*c),
{
    let mut fields: Vec<(String, Json)> = Vec::new();
    match &c.completion {
        None => {},
        Some(cc) => {
            fields.push(("completion".to_owned(), encode_completion_capabilities(cc)));
        },
    }
    proof {
        assert(json_fields_view(fields@) =~= text_document_caps_jval(*c)->Obj_0);
    }
    Json::Obj(fields)
}

pub fn encode_client_capabilities(c: &ClientCapabilities) -> (r: Json)
    ensures
        r@ == client_caps_jval(*c),
{
    let mut fields: Vec<(String, Json)> = Vec::new();
    match &c.text_document {
        None => {},
        Some(td) => {
            fields.push(("textDocument".to_owned(), encode_text_document_capabilities(td)));
        },
    }
    proof {
        assert(json_fields_view(fields@) =~= client_caps_jval(*c)->Obj_0);
    }
    Json::Obj(fields)
}

/// Serializes the `initialize` params.  Every optional member that is unset
/// is omitted; `capabilities` always appears.
pub fn encode_initialize_params(p: &InitializeParams) -> (r: Json)
    ensures
        r@ == init_jval(*p),
{
    let mut fields: Vec<(String, Json)> = Vec::new();
    match &p.process_id {
        None => {},
        Some(n) => {
            fields.push(("processId".to_owned(), Json::Int(*n as i128)));
        },
    }
    match &p.locale {
        None => {},
        Some(s) => {
            fields.push(("locale".to_owned(), Json::Str(s.clone())));
        },
    }
    match &p.root_path {
        None => {},
        Some(s) => {
            fields.push(("rootPath".to_owned(), Json::Str(s.clone())));
        },
    }
    match &p.root_uri {
        None => {},
        Some(s) => {
            fields.push(("rootUri".to_owned(), Json::Str(s.clone())));
        },
    }
    match &p.initialization_options {
        None => {},
        Some(v) => {
            fields.push(("initializationOptions".to_owned(), v.clone()));
        },
    }
    fields.push(("capabilities".to_owned(), encode_client_capabilities(&p.capabilities)));
    proof {
        assert(json_fields_view(fields@) =~= init_fields(*p));
    }
    Json::Obj(fields)
}

} // verus!
