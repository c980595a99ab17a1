use lsp_model::capabilities::{
    ClientCapabilities, CompletionClientCapabilities, CompletionItem, CompletionItemTag,
    CompletionResolveSupport, CompletionTag, InitializeParams, InsertTextMode, MarkupKind,
    TextDocumentClientCapabilities,
};
use lsp_model::encode::{encode_completion_item, encode_initialize_params};
use lsp_model::json::Json;

fn keys_of(j: &Json) -> Vec<String> {
    match j {
        Json::Obj(fields) => fields.iter().map(|(k, _)| k.clone()).collect(),
        _ => panic!("expected an object"),
    }
}

fn get<'a>(j: &'a Json, key: &str) -> &'a Json {
    match j {
        Json::Obj(fields) => {
            &fields.iter().find(|(k, _)| k == key).expect("member absent").1
        },
        _ => panic!("expected an object"),
    }
}

#[test]
fn defaults_are_fully_empty() {
    let p = InitializeParams::default();
    assert_eq!(p.process_id, None);
    assert_eq!(p.locale, None);
    assert_eq!(p.root_path, None);
    assert_eq!(p.root_uri, None);
    assert_eq!(p.initialization_options, None);
    assert_eq!(p.capabilities.text_document, None);
    let ci = CompletionItem::default();
    assert_eq!(ci, CompletionItem {
        snippet_support: None,
        commit_characters_support: None,
        documentation_format: None,
        deprecated_support: None,
        preselect_support: None,
        tag_support: None,
        insert_replace_support: None,
        resolve_support: None,
        insert_text_mode_support: None,
        label_details_support: None,
    });
    assert_eq!(ClientCapabilities::default().text_document, None);
}

#[test]
fn default_params_serialize_to_solely_capabilities() {
    let p = InitializeParams::default();
    let j = encode_initialize_params(&p);
    assert_eq!(keys_of(&j), vec!["capabilities".to_owned()]);
    assert_eq!(keys_of(get(&j, "capabilities")), Vec::<String>::new());
}

#[test]
fn set_members_appear_in_declaration_order() {
    let p = InitializeParams {
        process_id: Some(4242),
        locale: Some("en-US".to_owned()),
        root_path: None,
        root_uri: Some("file:///proj".to_owned()),
        initialization_options: Some(Json::Bool(true)),
        capabilities: ClientCapabilities::default(),
    };
    let j = encode_initialize_params(&p);
    assert_eq!(
        keys_of(&j),
        vec!["processId", "locale", "rootUri", "initializationOptions", "capabilities"]
            .into_iter()
            .map(str::to_owned)
            .collect::<Vec<_>>(),
    );
    assert_eq!(get(&j, "processId"), &Json::Int(4242));
    assert_eq!(get(&j, "locale"), &Json::Str("en-US".to_owned()));
    assert_eq!(get(&j, "rootUri"), &Json::Str("file:///proj".to_owned()));
    assert_eq!(get(&j, "initializationOptions"), &Json::Bool(true));
}

#[test]
fn nested_capability_tree_serializes_through() {
    let p = InitializeParams {
        process_id: None,
        locale: None,
        root_path: None,
        root_uri: None,
        initialization_options: None,
        capabilities: ClientCapabilities {
            text_document: Some(TextDocumentClientCapabilities {
                completion: Some(CompletionClientCapabilities {
                    completion_item: Some(CompletionItem {
                        snippet_support: Some(true),
                        ..CompletionItem::default()
                    }),
                }),
            }),
        },
    };
    let j = encode_initialize_params(&p);
    let caps = get(&j, "capabilities");
    assert_eq!(keys_of(caps), vec!["textDocument".to_owned()]);
    let td = get(caps, "textDocument");
    assert_eq!(keys_of(td), vec!["completion".to_owned()]);
    let completion = get(td, "completion");
    assert_eq!(keys_of(completion), vec!["completionItem".to_owned()]);
    let item = get(completion, "completionItem");
    assert_eq!(keys_of(item), vec!["snippetSupport".to_owned()]);
    assert_eq!(get(item, "snippetSupport"), &Json::Bool(true));
}

#[test]
fn completion_item_omits_unset_flags_and_keeps_set_ones() {
    let ci = CompletionItem {
        snippet_support: Some(true),
        commit_characters_support: None,
        documentation_format: Some(vec![MarkupKind::PlainText, MarkupKind::Markdown]),
        deprecated_support: Some(false),
        preselect_support: None,
        tag_support: Some(CompletionTag { value_set: vec![CompletionItemTag::Deprecated] }),
        insert_replace_support: None,
        resolve_support: Some(CompletionResolveSupport {
            properties: vec!["documentation".to_owned(), "detail".to_owned()],
        }),
        insert_text_mode_support: Some(InsertTextMode { value_set: vec![1, 2] }),
        label_details_support: None,
    };
    let j = encode_completion_item(&ci);
    assert_eq!(
        keys_of(&j),
        vec![
            "snippetSupport",
            "documentationFormat",
            "deprecatedSupport",
            "tagSupport",
            "resolveSupport",
            "insertTextModeSupport",
        ]
        .into_iter()
        .map(str::to_owned)
        .collect::<Vec<_>>(),
    );
    assert_eq!(
        get(&j, "documentationFormat"),
        &Json::Arr(vec![
            Json::Str("plaintext".to_owned()),
            Json::Str("markdown".to_owned()),
        ]),
    );
    assert_eq!(get(&j, "deprecatedSupport"), &Json::Bool(false));
    assert_eq!(
        get(get(&j, "tagSupport"), "valueSet"),
        &Json::Arr(vec![Json::Int(1)]),
    );
    assert_eq!(
        get(get(&j, "resolveSupport"), "properties"),
        &Json::Arr(vec![
            Json::Str("documentation".to_owned()),
            Json::Str("detail".to_owned()),
        ]),
    );
    assert_eq!(
        get(get(&j, "insertTextModeSupport"), "valueSet"),
        &Json::Arr(vec![Json::Int(1), Json::Int(2)]),
    );
}
