use agenix::config::Config;
use agenix::nix::{
    all_files_query, armor_flag, armor_query, eval_json, eval_query, get_all_files,
    get_public_keys, public_keys_query, rules_probe, should_armor, string_list,
    validate_rules_file, JsonDoc, JsonItem, NixError,
};
use agenix::process::ProcessReply;

fn create_test_config() -> Config {
    Config {
        nix_instantiate: "nix-instantiate".to_string(),
        rules_path: "./test_secrets.nix".to_string(),
        ..Config::default()
    }
}

fn answer(text: &str) -> ProcessReply {
    ProcessReply::exited(true, text.as_bytes().to_vec())
}

#[test]
fn test_validate_rules_file_nonexistent() {
    let mut config = create_test_config();
    config.rules_path = "/nonexistent/path".to_string();

    let result = validate_rules_file(false, &answer("[]"));
    assert!(result.is_err());
    assert!(result
        .unwrap_err()
        .message(&config.rules_path)
        .contains("does not exist"));
}

#[test]
fn test_eval_json_simple() {
    // What nix-instantiate prints for the expression `42`.
    if let Ok(result) = eval_json(&answer("42\n")) {
        assert_eq!(result, JsonDoc::Other);
    } else {
        panic!("a number is a JSON document");
    }
}

#[test]
fn test_eval_json_invalid() {
    // nix-instantiate rejects "invalid nix expression !!!" and reports failure.
    let result = eval_json(&ProcessReply::exited(false, Vec::new()));
    assert!(result.is_err());
}

#[test]
fn test_get_public_keys_with_real_nix() {
    // The answer for "secret1.age", whose rule lists two recipients.
    let result = get_public_keys(&answer("[\"age1abc123...\",\"age1def456...\"]\n"));

    match result {
        Ok(keys) => {
            assert!(!keys.is_empty());
            assert!(keys.contains(&"age1abc123...".to_string()));
        }
        Err(_) => {
            panic!("the answer is a list of strings");
        }
    }
}

#[test]
fn test_should_armor_with_real_nix() {
    // "secret1.age" is declared with armor = true.
    assert!(should_armor(&answer("true\n")));
    // "secret2.age" is declared without it.
    assert!(!should_armor(&answer("false\n")));
}

#[test]
fn test_get_all_files_with_real_nix() {
    match get_all_files(&answer("[\"secret1.age\",\"secret2.age\"]\n")) {
        Ok(files) => {
            assert_eq!(files.len(), 2);
            assert!(files.contains(&"secret1.age".to_string()));
            assert!(files.contains(&"secret2.age".to_string()));
        }
        Err(_) => {
            panic!("the answer is a list of strings");
        }
    }
}

#[test]
fn public_keys_query_asks_strictly_for_the_keys() {
    let config = create_test_config();
    let query = public_keys_query(&config, "secret1.age");
    assert_eq!(query.program, "nix-instantiate");
    assert_eq!(
        query.args,
        vec![
            "--json",
            "--eval",
            "--strict",
            "-E",
            "(let rules = import ./test_secrets.nix; in rules.\"secret1.age\".publicKeys)"
        ]
    );
    assert_eq!(query.input, None);
    assert!(query.capture);
}

#[test]
fn armor_query_asks_for_the_armor_attribute() {
    let config = create_test_config();
    let query = armor_query(&config, "s.age");
    assert_eq!(
        query.args,
        vec![
            "--json",
            "--eval",
            "--strict",
            "-E",
            "(let rules = import ./test_secrets.nix; in (builtins.hasAttr \"armor\" rules.\"s.age\" && rules.\"s.age\".armor))"
        ]
    );
}

#[test]
fn all_files_query_lists_attribute_names() {
    let config = create_test_config().with_nix_instantiate("/opt/nix-instantiate");
    let query = all_files_query(&config);
    assert_eq!(query.program, "/opt/nix-instantiate");
    assert_eq!(
        query.args,
        vec![
            "--json",
            "--eval",
            "-E",
            "(let rules = import ./test_secrets.nix; in builtins.attrNames rules)"
        ]
    );
}

#[test]
fn rules_probe_evaluates_a_trivial_expression() {
    let query = rules_probe(&create_test_config());
    assert_eq!(
        query.args,
        vec!["--json", "--eval", "-E", "builtins.attrNames {}"]
    );
}

#[test]
fn eval_query_is_strict_on_request_only() {
    let config = create_test_config();
    assert_eq!(
        eval_query(&config, "1 + 1", true).args,
        vec!["--json", "--eval", "--strict", "-E", "1 + 1"]
    );
    assert_eq!(
        eval_query(&config, "1 + 1", false).args,
        vec!["--json", "--eval", "-E", "1 + 1"]
    );
}

#[test]
fn string_list_keeps_strings_in_order() {
    let doc = JsonDoc::Array(vec![
        JsonItem::Text("b".to_string()),
        JsonItem::Other,
        JsonItem::Text("a".to_string()),
        JsonItem::Text("b".to_string()),
    ]);
    assert_eq!(
        string_list(doc),
        Ok(vec!["b".to_string(), "a".to_string(), "b".to_string()])
    );
    assert_eq!(string_list(JsonDoc::Array(Vec::new())), Ok(Vec::new()));
    assert_eq!(string_list(JsonDoc::Other), Err(NixError::NotAnArray));
}

#[test]
fn eval_json_reads_arrays_element_by_element() {
    assert_eq!(
        eval_json(&answer(" [ \"x\", 1, null, \"y\", [\"z\"], {\"k\": \"v\"}, true ] ")),
        Ok(JsonDoc::Array(vec![
            JsonItem::Text("x".to_string()),
            JsonItem::Other,
            JsonItem::Other,
            JsonItem::Text("y".to_string()),
            JsonItem::Other,
            JsonItem::Other,
            JsonItem::Other,
        ]))
    );
    assert_eq!(eval_json(&answer("\"text\"")), Ok(JsonDoc::Other));
    assert_eq!(eval_json(&answer("{\"a\": [\"b\"]}")), Ok(JsonDoc::Other));
    assert_eq!(eval_json(&answer("null")), Ok(JsonDoc::Other));
}

#[test]
fn eval_json_decodes_escapes_and_unicode() {
    assert_eq!(
        eval_json(&answer("[\"a\\\"b\\u00e9\", \"\u{00fc}\"]")),
        Ok(JsonDoc::Array(vec![
            JsonItem::Text("a\"b\u{00e9}".to_string()),
            JsonItem::Text("\u{00fc}".to_string()),
        ]))
    );
}

#[test]
fn every_nix_error_has_an_input() {
    assert_eq!(
        get_public_keys(&ProcessReply::not_started()),
        Err(NixError::NotStarted)
    );
    assert_eq!(
        get_public_keys(&ProcessReply::exited(false, b"[\"k\"]".to_vec())),
        Err(NixError::EvalFailed)
    );
    assert_eq!(
        get_public_keys(&ProcessReply::exited(true, vec![0xff, 0xfe])),
        Err(NixError::InvalidUtf8)
    );
    assert_eq!(
        get_public_keys(&answer("[\"k\"")),
        Err(NixError::InvalidJson)
    );
    assert_eq!(get_public_keys(&answer("")), Err(NixError::InvalidJson));
    assert_eq!(
        get_public_keys(&answer("[\"k\"] trailing")),
        Err(NixError::InvalidJson)
    );
    assert_eq!(
        get_public_keys(&answer("{\"k\": 1}")),
        Err(NixError::NotAnArray)
    );
    assert_eq!(
        validate_rules_file(false, &answer("[]")),
        Err(NixError::RulesFileMissing)
    );
}

#[test]
fn public_keys_skip_what_is_not_a_string() {
    assert_eq!(
        get_public_keys(&answer("[\"k1\", 7, \"k2\"]")),
        Ok(vec!["k1".to_string(), "k2".to_string()])
    );
    assert_eq!(get_public_keys(&answer("[]")), Ok(Vec::new()));
}

#[test]
fn all_files_keep_the_order_of_the_answer() {
    assert_eq!(
        get_all_files(&answer("[\"c.age\",\"a.age\",\"b.age\"]")),
        Ok(vec![
            "c.age".to_string(),
            "a.age".to_string(),
            "b.age".to_string()
        ])
    );
}

#[test]
fn armor_is_false_on_any_failure() {
    assert!(!should_armor(&ProcessReply::not_started()));
    assert!(!should_armor(&ProcessReply::exited(false, b"true".to_vec())));
    assert!(!should_armor(&ProcessReply::exited(true, vec![0xff])));
    assert!(!should_armor(&answer("")));
    assert!(!should_armor(&answer("\"true\"")));
    assert!(!should_armor(&answer("True")));
}

#[test]
fn armor_ignores_surrounding_white_space() {
    assert!(should_armor(&answer("true")));
    assert!(should_armor(&answer("  true\r\n")));
    assert!(should_armor(&answer("\ttrue \n\n")));
    assert!(!should_armor(&answer("tr ue")));
}

#[test]
fn armor_flag_is_exact() {
    assert!(armor_flag("true"));
    assert!(!armor_flag("true\n"));
    assert!(!armor_flag("false"));
    assert!(!armor_flag(""));
}

#[test]
fn validate_rules_file_needs_file_and_working_nix() {
    assert_eq!(validate_rules_file(true, &answer("[]")), Ok(()));
    assert_eq!(
        validate_rules_file(true, &ProcessReply::not_started()),
        Err(NixError::NotStarted)
    );
    assert_eq!(
        validate_rules_file(true, &ProcessReply::exited(false, Vec::new())),
        Err(NixError::EvalFailed)
    );
    assert_eq!(
        validate_rules_file(false, &ProcessReply::not_started()),
        Err(NixError::RulesFileMissing)
    );
}

#[test]
fn nix_error_messages() {
    assert_eq!(
        NixError::NotStarted.message("r.nix"),
        "Failed to run nix-instantiate"
    );
    assert_eq!(
        NixError::EvalFailed.message("r.nix"),
        "nix-instantiate failed to evaluate the rules"
    );
    assert_eq!(
        NixError::InvalidUtf8.message("r.nix"),
        "Failed to parse nix output as UTF-8"
    );
    assert_eq!(
        NixError::InvalidJson.message("r.nix"),
        "Failed to parse nix output as JSON"
    );
    assert_eq!(
        NixError::NotAnArray.message("r.nix"),
        "Expected JSON array in nix output"
    );
    assert_eq!(
        NixError::RulesFileMissing.message("r.nix"),
        "Rules file does not exist: r.nix"
    );
}
