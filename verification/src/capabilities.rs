//! The capability tree a client sends once during the `initialize`
//! handshake.  Every node below the root is optional: an absent node means
//! "capability not advertised", never "capability disabled", and an absent
//! node is omitted from the serialized form entirely.

use vstd::prelude::*;
use crate::json::Json;

verus! {

/// The params of the `initialize` request.
#[derive(Debug, Clone, PartialEq, Eq)]
pub struct InitializeParams {
    pub process_id: Option<u64>,
    pub locale: Option<String>,
    pub root_path: Option<String>,
    pub root_uri: Option<String>,
    pub initialization_options: Option<Json>,
    pub capabilities: ClientCapabilities,
}

#[derive(Debug, Clone, PartialEq, Eq)]
pub struct ClientCapabilities {
    pub text_document: Option<TextDocumentClientCapabilities>,
}

#[derive(Debug, Clone, PartialEq, Eq)]
pub struct TextDocumentClientCapabilities {
    pub completion: Option<CompletionClientCapabilities>,
}

#[derive(Debug, Clone, PartialEq, Eq)]
pub struct CompletionClientCapabilities {
    pub completion_item: Option<CompletionItem>,
}

/// The completion-item capability flags; each one is advertised only when
/// set.
#[derive(Debug, Clone, PartialEq, Eq)]
pub struct CompletionItem {
    pub snippet_support: Option<bool>,
    pub commit_characters_support: Option<bool>,
    pub documentation_format: Option<Vec<MarkupKind>>,
    pub deprecated_support: Option<bool>,
    pub preselect_support: Option<bool>,
    pub tag_support: Option<CompletionTag>,
    pub insert_replace_support: Option<bool>,
    pub resolve_support: Option<CompletionResolveSupport>,
    pub insert_text_mode_support: Option<InsertTextMode>,
    pub label_details_support: Option<bool>,
}

/// The completion-item tags the client understands.
#[derive(Debug, Clone, PartialEq, Eq)]
pub struct CompletionTag {
    pub value_set: Vec<CompletionItemTag>,
}

/// The completion-item properties the client can resolve lazily.
#[derive(Debug, Clone, PartialEq, Eq)]
pub struct CompletionResolveSupport {
    pub properties: Vec<String>,
}

/// The insert-text modes the client supports, by their wire numbers.
#[derive(Debug, Clone, PartialEq, Eq)]
pub struct InsertTextMode {
    pub value_set: Vec<u64>,
}

/// On the wire this tag is the number 1.
#[derive(Debug, Clone, Copy, PartialEq, Eq)]
pub enum CompletionItemTag {
    Deprecated,
}

#[derive(Debug, Clone, Copy, PartialEq, Eq)]
pub enum MarkupKind {
    PlainText,
    Markdown,
}

impl Default for InitializeParams {
    /// The fully-empty params: nothing advertised until a caller sets it.
    fn default() -> (r: Self)
        ensures
            r.process_id is None,
            r.locale is None,
            r.root_path is None,
            r.root_uri is None,
            r.initialization_options is None,
            r.capabilities.text_document is None,
    {
        InitializeParams {
            process_id: None,
            locale: None,
            root_path: None,
            root_uri: None,
            initialization_options: None,
            capabilities: ClientCapabilities { text_document: None },
        }
    }
}

impl Default for ClientCapabilities {
    fn default() -> (r: Self)
        ensures
            r.text_document is None,
    {
        ClientCapabilities { text_document: None }
    }
}

impl Default for CompletionItem {
    fn default() -> (r: Self)
        ensures
            r.snippet_support is None,
            r.commit_characters_support is None,
            r.documentation_format is None,
            r.deprecated_support is None,
            r.preselect_support is None,
            r.tag_support is None,
            r.insert_replace_support is None,
            r.resolve_support is None,
            r.insert_text_mode_support is None,
            r.label_details_support is None,
    {
        CompletionItem {
            snippet_support: None,
            commit_characters_support: None,
            documentation_format: None,
            deprecated_support: None,
            preselect_support: None,
            tag_support: None,
            insert_replace_support: None,
            resolve_support: None,
            insert_text_mode_support: None,
            label_details_support: None,
        }
    }
}

} // verus!
