use operator_host::cli::{parse_args, ArgsError};
use operator_host::config::{
    clone_env, collect_documents, split_documents, EnvironmentVariable, WasmComponentMetadata,
};

fn config(name: &str) -> WasmComponentMetadata {
    WasmComponentMetadata {
        name: name.to_string(),
        wasm: format!("{}.wasm", name),
        env: vec![
            EnvironmentVariable { name: "IN_NAMESPACE".to_string(), value: "a".to_string() },
            EnvironmentVariable { name: "OUT_NAMESPACE".to_string(), value: "b".to_string() },
        ],
        args: vec!["one".to_string(), "two".to_string()],
    }
}

fn args(list: &[&str]) -> Vec<String> {
    list.iter().map(|a| a.to_string()).collect()
}

#[test]
fn metadata_clone_keeps_every_field() {
    let first = config("t1");
    let copy = first.clone();
    assert_eq!(copy.name, "t1");
    assert_eq!(copy.wasm, "t1.wasm");
    assert_eq!(copy.env.len(), 2);
    assert_eq!(copy.env[0].name, "IN_NAMESPACE");
    assert_eq!(copy.env[0].value, "a");
    assert_eq!(copy.env[1].name, "OUT_NAMESPACE");
    assert_eq!(copy.env[1].value, "b");
    assert_eq!(copy.args, vec!["one".to_string(), "two".to_string()]);
    let env = clone_env(&first.env);
    assert_eq!(env.len(), 2);
    assert_eq!(env[1].value, "b");
    let variable = first.env[0].clone();
    assert_eq!(variable.name, "IN_NAMESPACE");
    assert_eq!(variable.value, "a");
}

#[test]
fn env_pairs_keep_the_configured_order() {
    assert_eq!(
        config("t1").env_pairs(),
        vec![
            ("IN_NAMESPACE".to_string(), "a".to_string()),
            ("OUT_NAMESPACE".to_string(), "b".to_string()),
        ]
    );
    let bare =
        WasmComponentMetadata { name: "x".into(), wasm: "x".into(), env: vec![], args: vec![] };
    assert!(bare.env_pairs().is_empty());
}

#[test]
fn blank_file_holds_no_document() {
    assert!(split_documents("").is_empty());
    assert!(split_documents("  \n\t \r\n").is_empty());
    assert!(split_documents("\u{00a0}\u{2003}\u{3000}").is_empty());
}

#[test]
fn file_without_separator_is_one_document() {
    assert_eq!(split_documents("name: t1\nwasm: a.wasm\n"), vec!["name: t1\nwasm: a.wasm\n"]);
    assert_eq!(split_documents("---\nname: t1"), vec!["---\nname: t1"]);
    assert_eq!(split_documents("x"), vec!["x"]);
}

#[test]
fn documents_are_cut_at_each_separator() {
    assert_eq!(
        split_documents("name: t1\n---\nname: t2\n---\nname: t3\n"),
        vec!["name: t1", "\nname: t2", "\nname: t3\n"]
    );
    assert_eq!(split_documents("a\n---"), vec!["a", ""]);
    assert_eq!(split_documents("a\n---\n---b"), vec!["a", "", "b"]);
    assert_eq!(split_documents("a\n----b"), vec!["a", "-b"]);
    assert_eq!(split_documents("\n---a"), vec!["", "a"]);
    assert_eq!(split_documents("é\n---ü"), vec!["é", "ü"]);
    for contents in ["name: t1\n---\nname: t2\n---\n", "a\n---\n---b", "x", "\n---", "a\n--\n---"] {
        let expected: Vec<String> = contents.split("\n---").map(|d| d.to_string()).collect();
        assert_eq!(split_documents(contents), expected);
    }
}

#[test]
fn collected_documents_keep_their_order() {
    let collected = collect_documents(vec![Ok(config("t1")), Ok(config("t2"))]).expect("configs");
    assert_eq!(collected.len(), 2);
    assert_eq!(collected[0].name, "t1");
    assert_eq!(collected[1].name, "t2");
    assert!(collect_documents(Vec::new()).expect("configs").is_empty());
}

#[test]
fn empty_documents_are_passed_over() {
    let collected = collect_documents(vec![
        Err("EOF while parsing a value".to_string()),
        Ok(config("t1")),
        Err("at line 1: EOF while parsing a value at position 0".to_string()),
        Ok(config("t2")),
    ])
    .expect("configs");
    assert_eq!(collected.len(), 2);
    assert_eq!(collected[0].name, "t1");
    assert_eq!(collected[1].name, "t2");
}

#[test]
fn first_unreadable_document_fails_the_file() {
    let result = collect_documents(vec![
        Ok(config("t1")),
        Err("missing field `name`".to_string()),
        Err("invalid type".to_string()),
        Ok(config("t2")),
    ]);
    assert_eq!(result.unwrap_err(), "Failed to parse module: missing field `name`");
    let result = collect_documents(vec![
        Err("EOF while parsing a value".to_string()),
        Err("eof while parsing a value".to_string()),
    ]);
    assert_eq!(result.unwrap_err(), "Failed to parse module: eof while parsing a value");
}

#[test]
fn config_path_alone_is_accepted() {
    let (path, debug) = parse_args(&args(&["host", "config.yaml"])).expect("arguments");
    assert_eq!(path, "config.yaml");
    assert!(!debug);
}

#[test]
fn debug_flag_is_accepted_before_and_after_the_path() {
    let (path, debug) = parse_args(&args(&["host", "--debug", "config.yaml"])).expect("arguments");
    assert_eq!(path, "config.yaml");
    assert!(debug);
    let (path, debug) = parse_args(&args(&["host", "config.yaml", "--debug"])).expect("arguments");
    assert_eq!(path, "config.yaml");
    assert!(debug);
    let (path, debug) =
        parse_args(&args(&["host", "--debug", "config.yaml", "--debug"])).expect("arguments");
    assert_eq!(path, "config.yaml");
    assert!(debug);
}

#[test]
fn missing_config_path_gives_the_usage() {
    for list in [&["host"][..], &["host", "--debug"][..]] {
        match parse_args(&args(list)) {
            Err(error) => {
                assert!(
                    matches!(&error, ArgsError::MissingConfigPath { program } if program == "host")
                );
                assert_eq!(error.message(), "Usage: host [--debug] <path_to_wasm_config.yaml>");
            }
            Ok(read) => panic!("unexpected arguments {:?}", read),
        }
    }
}

#[test]
fn second_path_is_unexpected() {
    match parse_args(&args(&["host", "a.yaml", "b.yaml", "c.yaml"])) {
        Err(error) => {
            assert!(matches!(&error, ArgsError::UnexpectedArgument(a) if a == "b.yaml"));
            assert_eq!(error.message(), "Unexpected argument: b.yaml");
        }
        Ok(read) => panic!("unexpected arguments {:?}", read),
    }
    assert!(matches!(
        parse_args(&args(&["host", "a.yaml", "-debug"])),
        Err(ArgsError::UnexpectedArgument(a)) if a == "-debug"
    ));
    assert!(matches!(
        parse_args(&args(&["host", "a.yaml", "b.yaml", "--debug"])),
        Err(ArgsError::UnexpectedArgument(a)) if a == "b.yaml"
    ));
}
