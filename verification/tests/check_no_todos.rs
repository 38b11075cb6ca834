use code_checks::Blob;
use code_checks::Change;
use code_checks::ChangedFile;
use code_checks::Check;
use code_checks::CheckContext;
use code_checks::CheckFilter;
use code_checks::CheckNoTodosInCommittedCode;
use code_checks::CheckViolation;
use code_checks::Commit;
use code_checks::CompiledRegex;
use code_checks::FileContext;
use code_checks::GitContext;
use code_checks::Provenance;
use code_checks::Repository;
use code_checks::Span;

#[test]
fn marker_changes_each_yield_a_diagnostic() {
    let blob = "fn main() {\n    // TODO fix\n    // FIXME later\n}\n";
    let repository = Repository {
        commits: vec![Commit {
            id: "abc123".to_string(),
            message: Some("first commit".to_string()),
            changed_files: vec![ChangedFile {
                file_path: "src/main.rs".to_string(),
                changes: vec![
                    Change {
                        content: "    // TODO fix\n".to_string(),
                        content_range: Span { start: 12, end: 28 },
                        blob_id: 1,
                    },
                    Change {
                        content: "    // FIXME later\n".to_string(),
                        content_range: Span { start: 28, end: 47 },
                        blob_id: 1,
                    },
                    Change {
                        content: "}\n".to_string(),
                        content_range: Span { start: 47, end: 49 },
                        blob_id: 1,
                    },
                ],
            }],
        }],
        blobs: vec![Blob {
            id: 1,
            bytes: blob.as_bytes().to_vec(),
        }],
    };

    let context = CheckContext::Git(GitContext { repository });
    let check = CheckNoTodosInCommittedCode {};

    let errors = check.execute_check(&context, &vec![]).unwrap();

    assert_eq!(errors.len(), 2);
    for error in &errors {
        assert!(error
            .message
            .contains("expected no commited changes to contain TODO or FIXME"));
        assert!(error.message.contains("abc123"));
        assert!(error.message.contains("first commit"));
        assert!(matches!(&error.provenance, Provenance::CommitId(id) if id == "abc123"));
    }
}

#[test]
fn content_without_markers_yields_nothing() {
    let blob = "fn main() {}\n";
    let repository = Repository {
        commits: vec![Commit {
            id: "abc123".to_string(),
            message: Some("clean".to_string()),
            changed_files: vec![ChangedFile {
                file_path: "src/main.rs".to_string(),
                changes: vec![Change {
                    content: "fn main() {}\n".to_string(),
                    content_range: Span { start: 0, end: 13 },
                    blob_id: 1,
                }],
            }],
        }],
        blobs: vec![Blob {
            id: 1,
            bytes: blob.as_bytes().to_vec(),
        }],
    };

    let context = CheckContext::Git(GitContext { repository });
    let check = CheckNoTodosInCommittedCode {};

    let errors = check.execute_check(&context, &vec![]).unwrap();

    assert!(errors.is_empty());
}

#[test]
fn ignored_path_discards_every_finding() {
    let blob = "// TODO one\n// TODO two\n";
    let repository = Repository {
        commits: vec![
            Commit {
                id: "first".to_string(),
                message: Some("has markers".to_string()),
                changed_files: vec![ChangedFile {
                    file_path: "src/kept.rs".to_string(),
                    changes: vec![Change {
                        content: "// TODO one\n".to_string(),
                        content_range: Span { start: 0, end: 12 },
                        blob_id: 1,
                    }],
                }],
            },
            Commit {
                id: "second".to_string(),
                message: Some("touches generated file".to_string()),
                changed_files: vec![ChangedFile {
                    file_path: "gen/ignored.rs".to_string(),
                    changes: vec![Change {
                        content: "// TODO two\n".to_string(),
                        content_range: Span { start: 12, end: 24 },
                        blob_id: 1,
                    }],
                }],
            },
        ],
        blobs: vec![Blob {
            id: 1,
            bytes: blob.as_bytes().to_vec(),
        }],
    };

    let filters = vec![CheckFilter::IgnoreByFilePathRegex(
        CompiledRegex::compile(r#"gen/.*"#).unwrap(),
    )];

    let context = CheckContext::Git(GitContext { repository });
    let check = CheckNoTodosInCommittedCode {};

    let errors = check.execute_check(&context, &filters).unwrap();

    assert!(errors.is_empty());
}

#[test]
fn non_matching_path_filter_keeps_findings() {
    let blob = "// TODO kept\n";
    let repository = Repository {
        commits: vec![Commit {
            id: "abc123".to_string(),
            message: Some("kept".to_string()),
            changed_files: vec![ChangedFile {
                file_path: "src/kept.rs".to_string(),
                changes: vec![Change {
                    content: "// TODO kept\n".to_string(),
                    content_range: Span { start: 0, end: 13 },
                    blob_id: 1,
                }],
            }],
        }],
        blobs: vec![Blob {
            id: 1,
            bytes: blob.as_bytes().to_vec(),
        }],
    };

    let filters = vec![CheckFilter::IgnoreByFilePathRegex(
        CompiledRegex::compile(r#"gen/.*"#).unwrap(),
    )];

    let context = CheckContext::Git(GitContext { repository });
    let check = CheckNoTodosInCommittedCode {};

    let errors = check.execute_check(&context, &filters).unwrap();

    assert_eq!(errors.len(), 1);
}

#[test]
fn displayed_range_drops_terminator_and_leading_whitespace() {
    let blob = "    // TODO indented\n";
    let repository = Repository {
        commits: vec![Commit {
            id: "abc123".to_string(),
            message: Some("indented marker".to_string()),
            changed_files: vec![ChangedFile {
                file_path: "src/main.rs".to_string(),
                changes: vec![Change {
                    content: "    // TODO indented\n".to_string(),
                    content_range: Span { start: 0, end: 21 },
                    blob_id: 1,
                }],
            }],
        }],
        blobs: vec![Blob {
            id: 1,
            bytes: blob.as_bytes().to_vec(),
        }],
    };

    let context = CheckContext::Git(GitContext { repository });
    let check = CheckNoTodosInCommittedCode {};

    let errors = check.execute_check(&context, &vec![]).unwrap();

    assert_eq!(errors.len(), 1);
    // The annotation underlines the marker text itself: 16 characters from
    // the first non-blank one to just before the line terminator.
    assert!(errors[0].message.contains("^^^^^^^^^^^^^^^^"));
    assert!(!errors[0].message.contains("^^^^^^^^^^^^^^^^^"));
}

#[test]
fn multibyte_whitespace_is_trimmed_by_whole_characters() {
    // Two no-break spaces (two bytes each) lead the marker line.
    let blob = "\u{a0}\u{a0}// TODO x\n";
    let repository = Repository {
        commits: vec![Commit {
            id: "abc123".to_string(),
            message: Some("indented with no-break spaces".to_string()),
            changed_files: vec![ChangedFile {
                file_path: "src/main.rs".to_string(),
                changes: vec![Change {
                    content: "\u{a0}\u{a0}// TODO x\n".to_string(),
                    content_range: Span {
                        start: 0,
                        end: blob.len(),
                    },
                    blob_id: 1,
                }],
            }],
        }],
        blobs: vec![Blob {
            id: 1,
            bytes: blob.as_bytes().to_vec(),
        }],
    };

    let context = CheckContext::Git(GitContext { repository });
    let check = CheckNoTodosInCommittedCode {};

    let errors = check.execute_check(&context, &vec![]).unwrap();

    assert_eq!(errors.len(), 1);
    assert!(errors[0].message.contains("// TODO x"));
}

#[test]
fn missing_commit_message_is_a_violation() {
    let repository = Repository {
        commits: vec![Commit {
            id: "abc123".to_string(),
            message: None,
            changed_files: vec![ChangedFile {
                file_path: "src/main.rs".to_string(),
                changes: vec![],
            }],
        }],
        blobs: vec![],
    };

    let context = CheckContext::Git(GitContext { repository });
    let check = CheckNoTodosInCommittedCode {};

    let result = check.execute_check(&context, &vec![]);

    assert_eq!(result.unwrap_err(), CheckViolation::MissingCommitMessage);
}

#[test]
fn commit_without_files_needs_no_message() {
    let repository = Repository {
        commits: vec![Commit {
            id: "abc123".to_string(),
            message: None,
            changed_files: vec![],
        }],
        blobs: vec![],
    };

    let context = CheckContext::Git(GitContext { repository });
    let check = CheckNoTodosInCommittedCode {};

    let errors = check.execute_check(&context, &vec![]).unwrap();

    assert!(errors.is_empty());
}

#[test]
fn missing_blob_is_a_violation() {
    let repository = Repository {
        commits: vec![Commit {
            id: "abc123".to_string(),
            message: Some("dangling".to_string()),
            changed_files: vec![ChangedFile {
                file_path: "src/main.rs".to_string(),
                changes: vec![Change {
                    content: "// TODO lost\n".to_string(),
                    content_range: Span { start: 0, end: 13 },
                    blob_id: 99,
                }],
            }],
        }],
        blobs: vec![],
    };

    let context = CheckContext::Git(GitContext { repository });
    let check = CheckNoTodosInCommittedCode {};

    let result = check.execute_check(&context, &vec![]);

    assert_eq!(result.unwrap_err(), CheckViolation::MissingBlob);
}

#[test]
fn undecodable_blob_is_a_violation() {
    let repository = Repository {
        commits: vec![Commit {
            id: "abc123".to_string(),
            message: Some("binary".to_string()),
            changed_files: vec![ChangedFile {
                file_path: "src/main.rs".to_string(),
                changes: vec![Change {
                    content: "// TODO binary\n".to_string(),
                    content_range: Span { start: 0, end: 15 },
                    blob_id: 1,
                }],
            }],
        }],
        blobs: vec![Blob {
            id: 1,
            bytes: vec![0xff, 0xfe, 0x00],
        }],
    };

    let context = CheckContext::Git(GitContext { repository });
    let check = CheckNoTodosInCommittedCode {};

    let result = check.execute_check(&context, &vec![]);

    assert_eq!(result.unwrap_err(), CheckViolation::BlobNotText);
}

#[test]
fn range_past_the_blob_is_a_violation() {
    let repository = Repository {
        commits: vec![Commit {
            id: "abc123".to_string(),
            message: Some("bad range".to_string()),
            changed_files: vec![ChangedFile {
                file_path: "src/main.rs".to_string(),
                changes: vec![Change {
                    content: "// TODO short\n".to_string(),
                    content_range: Span { start: 0, end: 50 },
                    blob_id: 1,
                }],
            }],
        }],
        blobs: vec![Blob {
            id: 1,
            bytes: b"tiny\n".to_vec(),
        }],
    };

    let context = CheckContext::Git(GitContext { repository });
    let check = CheckNoTodosInCommittedCode {};

    let result = check.execute_check(&context, &vec![]);

    assert_eq!(result.unwrap_err(), CheckViolation::RangeOutOfBounds);
}

#[test]
fn file_context_is_not_understood() {
    let context = CheckContext::File(FileContext {
        file_path: "some/file.cs".to_string(),
        file_contents: "// TODO not history".to_string(),
    });

    let check = CheckNoTodosInCommittedCode {};

    let errors = check.execute_check(&context, &vec![]).unwrap();

    assert!(errors.is_empty());
}
