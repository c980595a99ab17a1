use lsp_model::decode::{
    decode_code, decode_position, decode_publish_diagnostics, DecodeError,
};
use lsp_model::encode::encode_publish_diagnostics;
use lsp_model::json::Json;
use lsp_model::types::{
    Diagnostic, DiagnosticCode, DiagnosticRelatedInformation, Location, Position, Range,
    TextDocumentPublishDiagnostics,
};

fn obj(fields: Vec<(&str, Json)>) -> Json {
    Json::Obj(fields.into_iter().map(|(k, v)| (k.to_owned(), v)).collect())
}

fn str_json(s: &str) -> Json {
    Json::Str(s.to_owned())
}

fn position_json(line: i128, character: i128) -> Json {
    obj(vec![("line", Json::Int(line)), ("character", Json::Int(character))])
}

fn range_json(l0: i128, c0: i128, l1: i128, c1: i128) -> Json {
    obj(vec![("start", position_json(l0, c0)), ("end", position_json(l1, c1))])
}

fn related_json(uri: &str, message: &str) -> Json {
    obj(vec![
        ("location", obj(vec![("uri", str_json(uri)), ("range", range_json(2, 0, 2, 3))])),
        ("message", str_json(message)),
    ])
}

fn range_val(l0: usize, c0: usize, l1: usize, c1: usize) -> Range {
    Range {
        start: Position { line: l0, character: c0 },
        end: Position { line: l1, character: c1 },
    }
}

fn related_val(uri: &str, message: &str) -> DiagnosticRelatedInformation {
    DiagnosticRelatedInformation {
        location: Location { uri: uri.to_owned(), range: range_val(2, 0, 2, 3) },
        message: message.to_owned(),
    }
}

#[test]
fn is_for_absent_related_information_applies_to_any_uri() {
    let d = Diagnostic {
        range: range_val(0, 0, 0, 1),
        code: None,
        message: "dup symbol".to_owned(),
        related_information: None,
        data: None,
    };
    assert!(d.is_for("file:///anything"));
    assert!(d.is_for(""));
}

#[test]
fn is_for_present_related_information_matches_entry_uris() {
    let d = Diagnostic {
        range: range_val(0, 0, 0, 1),
        code: None,
        message: "dup symbol".to_owned(),
        related_information: Some(vec![
            related_val("file:///b.rs", "first defined here"),
            related_val("file:///c.rs", "also here"),
        ]),
        data: None,
    };
    assert!(d.is_for("file:///b.rs"));
    assert!(d.is_for("file:///c.rs"));
    assert!(!d.is_for("file:///a.rs"));
}

#[test]
fn is_for_empty_related_information_applies_to_no_uri() {
    let d = Diagnostic {
        range: range_val(0, 0, 0, 1),
        code: None,
        message: "dup symbol".to_owned(),
        related_information: Some(vec![]),
        data: None,
    };
    assert!(!d.is_for("file:///a.rs"));
    assert!(!d.is_for(""));
}

#[test]
fn as_string_renders_int_and_string_codes() {
    assert_eq!(DiagnosticCode::Int(42).as_string(), "42");
    assert_eq!(DiagnosticCode::String("E001".to_owned()).as_string(), "E001");
    assert_eq!(DiagnosticCode::Int(0).as_string(), "0");
    assert_eq!(DiagnosticCode::Int(1000000007).as_string(), "1000000007");
}

#[test]
fn as_string_renders_large_and_negative_codes() {
    assert_eq!(
        DiagnosticCode::Int(1234567890123456789).as_string(),
        "1234567890123456789",
    );
    assert_eq!(DiagnosticCode::Int(-1).as_string(), "-1");
    assert_eq!(DiagnosticCode::Int(-1000000007).as_string(), "-1000000007");
}

#[test]
fn code_decodes_int_before_string() {
    let c = decode_code(&Json::Int(7)).unwrap();
    assert_eq!(c, DiagnosticCode::Int(7));
    assert_eq!(c.as_string(), "7");
    let c = decode_code(&str_json("E42")).unwrap();
    assert_eq!(c, DiagnosticCode::String("E42".to_owned()));
    assert_eq!(decode_code(&Json::Bool(true)), Err(DecodeError::BadCode));
    assert_eq!(decode_code(&Json::Null), Err(DecodeError::BadCode));
}

#[test]
fn code_decodes_negative_integers() {
    let c = decode_code(&Json::Int(-1)).unwrap();
    assert_eq!(c, DiagnosticCode::Int(-1));
    assert_eq!(c.as_string(), "-1");
    assert_eq!(decode_code(&Json::Int(-42)).unwrap().as_string(), "-42");
}

#[test]
fn publish_scenario_with_related_information() {
    let payload = obj(vec![
        ("uri", str_json("file:///a.rs")),
        (
            "diagnostics",
            Json::Arr(vec![obj(vec![
                ("range", range_json(0, 0, 0, 1)),
                ("message", str_json("dup symbol")),
                (
                    "relatedInformation",
                    Json::Arr(vec![related_json("file:///b.rs", "first defined here")]),
                ),
            ])]),
        ),
    ]);
    let p = decode_publish_diagnostics(&payload).unwrap();
    assert_eq!(p.uri.as_deref(), Some("file:///a.rs"));
    assert_eq!(p.diagnostics.len(), 1);
    assert!(!p.diagnostics[0].is_for("file:///a.rs"));
    assert!(p.diagnostics[0].is_for("file:///b.rs"));
}

#[test]
fn publish_scenario_without_related_information() {
    let payload = obj(vec![
        ("uri", str_json("file:///a.rs")),
        (
            "diagnostics",
            Json::Arr(vec![obj(vec![
                ("range", range_json(0, 0, 0, 1)),
                ("message", str_json("dup symbol")),
            ])]),
        ),
    ]);
    let p = decode_publish_diagnostics(&payload).unwrap();
    assert!(p.diagnostics[0].is_for("file:///anything"));
}

#[test]
fn round_trip_preserves_order_and_fields() {
    let payload = obj(vec![
        ("uri", str_json("file:///a.rs")),
        (
            "diagnostics",
            Json::Arr(vec![
                obj(vec![
                    ("range", range_json(0, 0, 0, 1)),
                    ("code", Json::Int(42)),
                    ("message", str_json("first")),
                    (
                        "relatedInformation",
                        Json::Arr(vec![related_json("file:///b.rs", "first defined here")]),
                    ),
                    ("data", obj(vec![("extra", Json::Arr(vec![Json::Int(-3), Json::Null]))])),
                ]),
                obj(vec![
                    ("range", range_json(5, 2, 5, 9)),
                    ("code", str_json("E001")),
                    ("message", str_json("second")),
                ]),
                obj(vec![
                    ("range", range_json(7, 0, 7, 1)),
                    ("code", Json::Int(-7)),
                    ("message", str_json("third")),
                ]),
            ]),
        ),
    ]);
    let p = decode_publish_diagnostics(&payload).unwrap();
    assert_eq!(
        p.diagnostics.iter().map(|d| d.message.as_str()).collect::<Vec<_>>(),
        vec!["first", "second", "third"],
    );
    let re = encode_publish_diagnostics(&p);
    assert_eq!(re, payload);
}

#[test]
fn round_trip_without_uri() {
    let payload = obj(vec![("diagnostics", Json::Arr(vec![]))]);
    let p = decode_publish_diagnostics(&payload).unwrap();
    assert_eq!(p.uri, None);
    assert_eq!(p.diagnostics.len(), 0);
    assert_eq!(encode_publish_diagnostics(&p), payload);
}

#[test]
fn encode_omits_absent_diagnostic_members() {
    let p = TextDocumentPublishDiagnostics {
        uri: None,
        diagnostics: vec![Diagnostic {
            range: range_val(0, 0, 0, 1),
            code: None,
            message: "m".to_owned(),
            related_information: None,
            data: None,
        }],
    };
    let expected = obj(vec![(
        "diagnostics",
        Json::Arr(vec![obj(vec![
            ("range", range_json(0, 0, 0, 1)),
            ("message", str_json("m")),
        ])]),
    )]);
    assert_eq!(encode_publish_diagnostics(&p), expected);
}

#[test]
fn unknown_members_are_ignored() {
    let payload = obj(vec![
        ("jsonrpc", str_json("2.0")),
        ("uri", str_json("file:///a.rs")),
        ("diagnostics", Json::Arr(vec![])),
        ("version", Json::Int(3)),
    ]);
    let p = decode_publish_diagnostics(&payload).unwrap();
    assert_eq!(p.uri.as_deref(), Some("file:///a.rs"));
}

#[test]
fn decode_position_rejects_bad_shapes() {
    assert!(decode_position(&position_json(3, 4)).is_ok());
    assert_eq!(decode_position(&Json::Int(1)), Err(DecodeError::BadPosition));
    assert_eq!(
        decode_position(&obj(vec![("line", Json::Int(1))])),
        Err(DecodeError::BadPosition),
    );
    assert_eq!(
        decode_position(&obj(vec![("line", Json::Int(-1)), ("character", Json::Int(0))])),
        Err(DecodeError::BadPosition),
    );
}

fn diag_with(fields: Vec<(&str, Json)>) -> Json {
    let payload = obj(vec![("diagnostics", Json::Arr(vec![obj(fields)]))]);
    payload
}

#[test]
fn each_malformed_part_yields_its_error() {
    assert_eq!(
        decode_publish_diagnostics(&Json::Int(1)),
        Err(DecodeError::NotAnObject),
    );
    assert_eq!(
        decode_publish_diagnostics(&obj(vec![
            ("uri", Json::Int(1)),
            ("diagnostics", Json::Arr(vec![])),
        ])),
        Err(DecodeError::BadUri),
    );
    assert_eq!(
        decode_publish_diagnostics(&obj(vec![])),
        Err(DecodeError::MissingDiagnostics),
    );
    assert_eq!(
        decode_publish_diagnostics(&obj(vec![("diagnostics", str_json("nope"))])),
        Err(DecodeError::BadDiagnostics),
    );
    assert_eq!(
        decode_publish_diagnostics(&obj(vec![("diagnostics", Json::Arr(vec![Json::Int(1)]))])),
        Err(DecodeError::BadDiagnostic),
    );
    assert_eq!(
        decode_publish_diagnostics(&diag_with(vec![("message", str_json("m"))])),
        Err(DecodeError::MissingRange),
    );
    assert_eq!(
        decode_publish_diagnostics(&diag_with(vec![
            ("range", obj(vec![("start", position_json(0, 0))])),
            ("message", str_json("m")),
        ])),
        Err(DecodeError::BadRange),
    );
    assert_eq!(
        decode_publish_diagnostics(&diag_with(vec![
            ("range", obj(vec![("start", Json::Null), ("end", position_json(0, 0))])),
            ("message", str_json("m")),
        ])),
        Err(DecodeError::BadPosition),
    );
    assert_eq!(
        decode_publish_diagnostics(&diag_with(vec![
            ("range", range_json(0, 0, 0, 1)),
            ("code", Json::Bool(false)),
            ("message", str_json("m")),
        ])),
        Err(DecodeError::BadCode),
    );
    assert_eq!(
        decode_publish_diagnostics(&diag_with(vec![("range", range_json(0, 0, 0, 1))])),
        Err(DecodeError::MissingMessage),
    );
    assert_eq!(
        decode_publish_diagnostics(&diag_with(vec![
            ("range", range_json(0, 0, 0, 1)),
            ("message", Json::Int(4)),
        ])),
        Err(DecodeError::BadMessage),
    );
    assert_eq!(
        decode_publish_diagnostics(&diag_with(vec![
            ("range", range_json(0, 0, 0, 1)),
            ("message", str_json("m")),
            ("relatedInformation", str_json("nope")),
        ])),
        Err(DecodeError::BadRelatedInformation),
    );
    assert_eq!(
        decode_publish_diagnostics(&diag_with(vec![
            ("range", range_json(0, 0, 0, 1)),
            ("message", str_json("m")),
            (
                "relatedInformation",
                Json::Arr(vec![obj(vec![
                    ("location", Json::Int(1)),
                    ("message", str_json("r")),
                ])]),
            ),
        ])),
        Err(DecodeError::BadLocation),
    );
}

#[test]
fn first_member_wins_on_duplicate_keys() {
    let payload = obj(vec![
        ("uri", str_json("file:///first.rs")),
        ("uri", str_json("file:///second.rs")),
        ("diagnostics", Json::Arr(vec![])),
    ]);
    let p = decode_publish_diagnostics(&payload).unwrap();
    assert_eq!(p.uri.as_deref(), Some("file:///first.rs"));
}
