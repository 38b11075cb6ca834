use code_checks::Check;
use code_checks::CheckAsyncForTask;
use code_checks::CheckContext;
use code_checks::CheckFilter;
use code_checks::CheckViolation;
use code_checks::CompiledRegex;
use code_checks::DirectoryContext;
use code_checks::FileContext;
use code_checks::NodeField;
use code_checks::SyntaxNode;

#[test]
fn check_should_succeed() {
    let contents = vec![
        r#"public Task CorrectAsync() { }"#,
        r#" public Task CorrectAsync(Some arguments) { }"#,
        r#"public async Task Correct2Async() { }"#,
    ];

    let filters: Vec<CheckFilter> = vec![];

    for file_contents in contents {
        let context = CheckContext::File(FileContext {
            file_path: "some/file.cs".to_string(),
            file_contents: file_contents.to_string(),
        });

        let check = CheckAsyncForTask {};

        let errors = check.execute_check(&context, &filters).unwrap();

        assert!(errors.is_empty());
    }
}

#[test]
fn check_should_return_errors() {
    let contents = vec![
        r#"public Task Incorrect1() { } "#,
        r#"  public Task Incorrect1() { } "#,
        r#"public Task Incorrect1(Async) { } "#,
        r#"public async Task Incorrect2() { } "#,
        r#"public async Task IncorrectAsync3() { } "#,
        r#"public Task IncorrectAsync4() { }"#,
    ];

    let filters: Vec<CheckFilter> = vec![];

    for file_contents in contents {
        let context = CheckContext::File(FileContext {
            file_path: "some/file.cs".to_string(),
            file_contents: file_contents.to_string(),
        });

        let check = CheckAsyncForTask {};

        let errors = check.execute_check(&context, &filters).unwrap();

        assert!(
            errors.len() == 1,
            "File should contain errors\n---\n{}\n---\n",
            file_contents
        );

        let regex = regex::Regex::new(r#"consider.*Async"#).unwrap();

        assert_eq!(true, regex.is_match(&errors[0].message));
    }
}

#[test]
fn check_should_ignore_namespaces() {
    let contents = vec![
        r#"
                namespace ignore_me {
                    public Task IncorrectButIgnored() { }
                }
            "#,
        r#"
                namespace ignore_me;
                public Task IncorrectButIgnored() { }
            "#,
        r#"
                namespace prefix_ignore_me;
                public Task IncorrectButIgnored() { }
            "#,
        r#"
                namespace ignore_me_postfix;
                public Task IncorrectButIgnored() { }
            "#,
    ];

    let ignore_namespace =
        CheckFilter::IgnoreByNameSpaceRegex(CompiledRegex::compile(r#"ignore_me"#).unwrap());

    let filters = vec![ignore_namespace];

    for file_contents in contents {
        let context = CheckContext::File(FileContext {
            file_path: "some/file.cs".to_string(),
            file_contents: file_contents.to_string(),
        });

        let check = CheckAsyncForTask {};

        let errors = check.execute_check(&context, &filters).unwrap();

        assert!(errors.is_empty());
    }
}

#[test]
fn check_should_ignore_file_paths() {
    let contents = vec![
        r#"
                public Task IncorrectButIgnored() { }
            "#,
    ];

    let file_name = "some/FileTests.cs";

    let filepath_regex = CompiledRegex::compile(r#".*Tests\.cs"#).unwrap();

    let ignore_filepath = CheckFilter::IgnoreByFilePathRegex(filepath_regex);

    let filters = vec![ignore_filepath];

    for file_contents in contents {
        let context = CheckContext::File(FileContext {
            file_path: file_name.to_string(),
            file_contents: file_contents.to_string(),
        });

        let check = CheckAsyncForTask {};

        let errors = check.execute_check(&context, &filters).unwrap();

        assert!(errors.is_empty());
    }
}

#[test]
fn violation_help_suggests_corrected_name() {
    let context = CheckContext::File(FileContext {
        file_path: "some/file.cs".to_string(),
        file_contents: "public Task Foo() { }".to_string(),
    });

    let check = CheckAsyncForTask {};

    let errors = check.execute_check(&context, &vec![]).unwrap();

    assert_eq!(errors.len(), 1);
    assert!(errors[0].message.contains("consider FooAsync"));
    assert!(errors[0]
        .message
        .contains("expected postfix Async for method that returns Task"));
}

#[test]
fn compliant_declaration_yields_nothing() {
    let context = CheckContext::File(FileContext {
        file_path: "some/file.cs".to_string(),
        file_contents: "public Task FooAsync() { }".to_string(),
    });

    let check = CheckAsyncForTask {};

    let errors = check.execute_check(&context, &vec![]).unwrap();

    assert!(errors.is_empty());
}

#[test]
fn non_matching_filters_do_not_suppress() {
    let filters = vec![
        CheckFilter::IgnoreByFilePathRegex(CompiledRegex::compile(r#".*Tests\.cs"#).unwrap()),
        CheckFilter::IgnoreByNameSpaceRegex(CompiledRegex::compile(r#"ignore_me"#).unwrap()),
    ];

    let context = CheckContext::File(FileContext {
        file_path: "some/file.cs".to_string(),
        file_contents: "namespace kept;\npublic Task Foo() { }".to_string(),
    });

    let check = CheckAsyncForTask {};

    let errors = check.execute_check(&context, &filters).unwrap();

    assert_eq!(errors.len(), 1);
}

#[test]
fn multibyte_text_before_a_violation_is_handled() {
    let context = CheckContext::File(FileContext {
        file_path: "some/file.cs".to_string(),
        file_contents: "// éééééééééééééééééééé\npublic Task Foo() { }".to_string(),
    });

    let check = CheckAsyncForTask {};

    let errors = check.execute_check(&context, &vec![]).unwrap();

    assert_eq!(errors.len(), 1);
    assert!(errors[0].message.contains("consider FooAsync"));
}

#[test]
fn directory_context_is_not_understood() {
    let context = CheckContext::Directory(DirectoryContext {
        path: "some/dir".to_string(),
    });

    let check = CheckAsyncForTask {};

    let errors = check.execute_check(&context, &vec![]).unwrap();

    assert!(errors.is_empty());
}

#[test]
fn missing_name_field_aborts_the_run() {
    let nodes = vec![SyntaxNode {
        kind: "method_declaration".to_string(),
        text: "public Task Foo() { }".to_string(),
        name_field: None,
        type_field: Some(NodeField {
            start: 7,
            end: 11,
            text: "Task".to_string(),
        }),
    }];

    let result = CheckAsyncForTask::check_parsed(
        &"some/file.cs".to_string(),
        &"public Task Foo() { }".to_string(),
        &nodes,
        &vec![],
    );

    assert_eq!(result.unwrap_err(), CheckViolation::MissingTreeField);
}

#[test]
fn parsed_nodes_drive_the_scan() {
    let contents = "public Task Foo() { }".to_string();
    let nodes = vec![SyntaxNode {
        kind: "method_declaration".to_string(),
        text: contents.clone(),
        name_field: Some(NodeField {
            start: 12,
            end: 15,
            text: "Foo".to_string(),
        }),
        type_field: Some(NodeField {
            start: 7,
            end: 11,
            text: "Task".to_string(),
        }),
    }];

    let errors =
        CheckAsyncForTask::check_parsed(&"some/file.cs".to_string(), &contents, &nodes, &vec![])
            .unwrap();

    assert_eq!(errors.len(), 1);
    assert!(errors[0].message.contains("consider FooAsync"));
}
