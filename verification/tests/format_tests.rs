use distant::data::{
    Capability, Change, ChangeKind, DirEntry, Envelope, FileType, Metadata, Msg, ResponseData,
    ResponseErrorKind, SearchQueryContentsMatch, SearchQueryMatch, SearchQueryPathMatch,
};
use distant::format::{format_shell, Format, FormatError, Formatter, FormatterState, Output};

#[test]
fn shell_renders_nothing_for_ok() {
    let mut st = FormatterState::new();
    assert_eq!(format_shell(&mut st, ResponseData::Okay), Output::Silent);
}

#[test]
fn shell_renders_error_description_to_stderr() {
    let mut st = FormatterState::new();
    let out = format_shell(
        &mut st,
        ResponseData::Error {
            kind: ResponseErrorKind::NotFound,
            description: String::from("missing file"),
        },
    );
    assert_eq!(out, Output::StderrLine(b"missing file".to_vec()));
}

#[test]
fn shell_renders_changed_paths_with_bullets() {
    let mut st = FormatterState::new();
    let out = format_shell(
        &mut st,
        ResponseData::Changed(Change {
            kind: ChangeKind::Create,
            paths: vec![String::from("/tmp/x/file"), String::from("/tmp/x/other")],
        }),
    );
    assert_eq!(
        out,
        Output::StdoutLine(
            b"Following paths were created:\n* /tmp/x/file\n* /tmp/x/other".to_vec()
        )
    );
}

#[test]
fn shell_renders_exists_value() {
    let mut st = FormatterState::new();
    let out = format_shell(&mut st, ResponseData::Exists { value: true });
    assert_eq!(out, Output::StdoutLine(b"true".to_vec()));
}

#[test]
fn shell_renders_minimal_metadata() {
    let mut st = FormatterState::new();
    let out = format_shell(
        &mut st,
        ResponseData::Metadata(Metadata {
            canonicalized_path: None,
            file_type: FileType::File,
            len: 42,
            readonly: false,
            accessed: None,
            created: None,
            modified: None,
            unix: None,
            windows: None,
        }),
    );
    assert_eq!(
        out,
        Output::StdoutLine(
            b"Type: file\nLen: 42\nReadonly: false\nCreated: 0\nLast Accessed: 0\nLast Modified: 0\n\n"
                .to_vec()
        )
    );
}

#[test]
fn shell_renders_proc_done_failure_with_code() {
    let mut st = FormatterState::new();
    let out = format_shell(
        &mut st,
        ResponseData::ProcDone { id: 12, success: false, code: Some(7) },
    );
    assert_eq!(out, Output::StderrLine(b"Proc 12 failed with code 7".to_vec()));
    let silent = format_shell(
        &mut st,
        ResponseData::ProcDone { id: 12, success: true, code: Some(0) },
    );
    assert_eq!(silent, Output::Silent);
}

#[test]
fn shell_groups_search_results_by_path() {
    let mut st = FormatterState::new();
    let out = format_shell(
        &mut st,
        ResponseData::SearchResults {
            id: 1,
            matches: vec![
                SearchQueryMatch::Contents(SearchQueryContentsMatch {
                    path: String::from("a.txt"),
                    lines: String::from("hello "),
                    line_number: 1,
                }),
                SearchQueryMatch::Path(SearchQueryPathMatch { path: String::from("b.txt") }),
            ],
        },
    );
    assert_eq!(out, Output::Stdout(b"a.txt\n1:hello\nb.txt\n".to_vec()));
}

#[test]
fn shell_separates_content_groups_across_batches() {
    let mut st = FormatterState::new();
    let first = format_shell(
        &mut st,
        ResponseData::SearchResults {
            id: 1,
            matches: vec![SearchQueryMatch::Contents(SearchQueryContentsMatch {
                path: String::from("a.txt"),
                lines: String::from("one"),
                line_number: 1,
            })],
        },
    );
    assert_eq!(first, Output::Stdout(b"a.txt\n1:one\n".to_vec()));
    let second = format_shell(
        &mut st,
        ResponseData::SearchResults {
            id: 1,
            matches: vec![SearchQueryMatch::Contents(SearchQueryContentsMatch {
                path: String::from("b.txt"),
                lines: String::from("two"),
                line_number: 9,
            })],
        },
    );
    // A blank line separates content-match groups, and the same path would
    // not repeat its header.
    assert_eq!(second, Output::Stdout(b"\nb.txt\n9:two\n".to_vec()));
}

#[test]
fn shell_renders_dir_entries_as_table() {
    let mut st = FormatterState::new();
    let out = format_shell(
        &mut st,
        ResponseData::DirEntries {
            entries: vec![
                DirEntry { path: String::from("sub"), file_type: FileType::Dir, depth: 1 },
                DirEntry { path: String::from("file.txt"), file_type: FileType::File, depth: 1 },
            ],
            errors: Vec::new(),
        },
    );
    match out {
        Output::Stdout(bytes) => {
            let text = String::from_utf8(bytes).unwrap();
            assert!(text.contains("<DIR>"));
            assert!(text.contains("sub"));
            assert!(text.contains("file.txt"));
        }
        other => panic!("expected stdout table, got {:?}", other),
    }
}

#[test]
fn shell_renders_capabilities_as_table_with_header() {
    let mut st = FormatterState::new();
    let out = format_shell(
        &mut st,
        ResponseData::Capabilities {
            supported: vec![Capability {
                kind: String::from("exec"),
                description: String::from("run programs"),
            }],
        },
    );
    match out {
        Output::StdoutLine(bytes) => {
            let text = String::from_utf8(bytes).unwrap();
            assert!(text.contains("kind"));
            assert!(text.contains("description"));
            assert!(text.contains("exec"));
            assert!(text.contains("run programs"));
        }
        other => panic!("expected stdout table, got {:?}", other),
    }
}

#[test]
fn shell_sorts_capabilities_by_kind() {
    let mut st = FormatterState::new();
    let out = format_shell(
        &mut st,
        ResponseData::Capabilities {
            supported: vec![
                Capability {
                    kind: String::from("watch"),
                    description: String::from("watch paths"),
                },
                Capability {
                    kind: String::from("exec"),
                    description: String::from("run programs"),
                },
            ],
        },
    );
    match out {
        Output::StdoutLine(bytes) => {
            let text = String::from_utf8(bytes).unwrap();
            let exec_at = text.find("exec").unwrap();
            let watch_at = text.find("watch").unwrap();
            assert!(exec_at < watch_at, "expected sorted kinds in {text}");
        }
        other => panic!("expected stdout table, got {:?}", other),
    }
}

#[test]
fn shell_rejects_batch_responses() {
    let mut f = Formatter::shell();
    let res = Envelope {
        id: String::from("1"),
        origin_id: Some(String::from("A")),
        payload: Msg::Batch(vec![ResponseData::Okay, ResponseData::Okay]),
    };
    assert_eq!(f.render(res), Err(FormatError::InvalidData));
}

#[test]
fn json_envelope_for_watch_ok_response() {
    let mut f = Formatter::new(Format::Json);
    let res = Envelope {
        id: String::from("server-1"),
        origin_id: Some(String::from("A")),
        payload: Msg::Single(ResponseData::Okay),
    };
    let out = f.render(res).unwrap();
    let bytes = match out {
        Output::StdoutLine(b) => b,
        other => panic!("expected a stdout line, got {:?}", other),
    };
    let v: serde_json::Value = serde_json::from_slice(&bytes).unwrap();
    assert_eq!(v["id"].as_str(), Some("server-1"));
    assert_eq!(v["origin_id"].as_str(), Some("A"));
    assert_eq!(v["payload"]["type"].as_str(), Some("ok"));
}

#[test]
fn json_envelope_for_watch_changed_event() {
    let mut f = Formatter::new(Format::Json);
    let res = Envelope {
        id: String::from("server-2"),
        origin_id: Some(String::from("A")),
        payload: Msg::Single(ResponseData::Changed(Change {
            kind: ChangeKind::Modify,
            paths: vec![String::from("/tmp/x/file")],
        })),
    };
    let out = f.render(res).unwrap();
    let bytes = match out {
        Output::StdoutLine(b) => b,
        other => panic!("expected a stdout line, got {:?}", other),
    };
    let v: serde_json::Value = serde_json::from_slice(&bytes).unwrap();
    assert_eq!(v["origin_id"].as_str(), Some("A"));
    assert_eq!(v["payload"]["type"].as_str(), Some("changed"));
    assert_eq!(v["payload"]["kind"].as_str(), Some("modify"));
    assert_eq!(v["payload"]["paths"][0].as_str(), Some("/tmp/x/file"));
}

#[test]
fn json_envelope_for_watch_error_response() {
    let mut f = Formatter::new(Format::Json);
    let res = Envelope {
        id: String::from("server-3"),
        origin_id: Some(String::from("A")),
        payload: Msg::Single(ResponseData::Error {
            kind: ResponseErrorKind::NotFound,
            description: String::from("no such path"),
        }),
    };
    let out = f.render(res).unwrap();
    let bytes = match out {
        Output::StdoutLine(b) => b,
        other => panic!("expected a stdout line, got {:?}", other),
    };
    let v: serde_json::Value = serde_json::from_slice(&bytes).unwrap();
    assert_eq!(v["payload"]["type"].as_str(), Some("error"));
    assert_eq!(v["payload"]["kind"].as_str(), Some("not_found"));
    assert_eq!(v["payload"]["description"].as_str(), Some("no such path"));
}

#[test]
fn json_escapes_quotes_and_newlines() {
    let mut f = Formatter::new(Format::Json);
    let res = Envelope {
        id: String::from("x"),
        origin_id: None,
        payload: Msg::Single(ResponseData::Text { data: String::from("a\"b\\c\nd") }),
    };
    let out = f.render(res).unwrap();
    let bytes = match out {
        Output::StdoutLine(b) => b,
        other => panic!("expected a stdout line, got {:?}", other),
    };
    let v: serde_json::Value = serde_json::from_slice(&bytes).unwrap();
    assert_eq!(v["payload"]["data"].as_str(), Some("a\"b\\c\nd"));
    assert!(v.get("origin_id").is_none());
}

#[test]
fn json_blob_is_an_array_of_numbers() {
    let mut f = Formatter::new(Format::Json);
    let res = Envelope {
        id: String::from("x"),
        origin_id: None,
        payload: Msg::Single(ResponseData::Blob { data: vec![0, 7, 255] }),
    };
    let out = f.render(res).unwrap();
    let bytes = match out {
        Output::StdoutLine(b) => b,
        other => panic!("expected a stdout line, got {:?}", other),
    };
    let v: serde_json::Value = serde_json::from_slice(&bytes).unwrap();
    assert_eq!(v["payload"]["data"][0].as_u64(), Some(0));
    assert_eq!(v["payload"]["data"][1].as_u64(), Some(7));
    assert_eq!(v["payload"]["data"][2].as_u64(), Some(255));
}

#[test]
fn json_batch_payload_is_an_array() {
    let mut f = Formatter::new(Format::Json);
    let res = Envelope {
        id: String::from("x"),
        origin_id: None,
        payload: Msg::Batch(vec![
            ResponseData::Okay,
            ResponseData::Exists { value: false },
        ]),
    };
    let out = f.render(res).unwrap();
    let bytes = match out {
        Output::StdoutLine(b) => b,
        other => panic!("expected a stdout line, got {:?}", other),
    };
    let v: serde_json::Value = serde_json::from_slice(&bytes).unwrap();
    assert_eq!(v["payload"][0]["type"].as_str(), Some("ok"));
    assert_eq!(v["payload"][1]["type"].as_str(), Some("exists"));
    assert_eq!(v["payload"][1]["value"].as_bool(), Some(false));
}

#[test]
fn json_proc_done_carries_exit_code() {
    let mut f = Formatter::new(Format::Json);
    let res = Envelope {
        id: String::from("x"),
        origin_id: Some(String::from("S")),
        payload: Msg::Single(ResponseData::ProcDone { id: 3, success: false, code: Some(-7) }),
    };
    let out = f.render(res).unwrap();
    let bytes = match out {
        Output::StdoutLine(b) => b,
        other => panic!("expected a stdout line, got {:?}", other),
    };
    let v: serde_json::Value = serde_json::from_slice(&bytes).unwrap();
    assert_eq!(v["payload"]["type"].as_str(), Some("proc_done"));
    assert_eq!(v["payload"]["success"].as_bool(), Some(false));
    assert_eq!(v["payload"]["code"].as_i64(), Some(-7));
}
