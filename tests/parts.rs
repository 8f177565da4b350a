use build_tool::{
    cache_key, decode_entry, encode_entry, only_error_message, split_words, verdict_of_decoded,
    Cache, Lang,
};

#[test]
fn only_error_message_keeps_output_on_failure() {
    assert_eq!(only_error_message("boom", 1), "boom");
    assert_eq!(only_error_message("boom", 0), "");
    assert_eq!(only_error_message("", 2), "");
}

#[test]
fn split_words_on_single_spaces() {
    assert_eq!(split_words("run test"), vec!["run".to_string(), "test".to_string()]);
    assert_eq!(split_words("a  b"), vec!["a".to_string(), String::new(), "b".to_string()]);
    assert_eq!(split_words(""), vec![String::new()]);
    assert_eq!(split_words(" x "), vec![String::new(), "x".to_string(), String::new()]);
    assert_eq!(split_words("pytest"), vec!["pytest".to_string()]);
}

#[test]
fn cache_key_joins_with_newlines() {
    let contents = vec!["a".to_string(), "b".to_string(), "c".to_string()];
    assert_eq!(cache_key("cmd", &contents), "cmda\nb\nc");
    assert_eq!(cache_key("cmd", &Vec::new()), "cmd");
    assert_eq!(cache_key("", &vec!["only".to_string()]), "only");
}

#[test]
fn cache_key_changes_with_one_byte() {
    let a = vec!["dep".to_string(), "fn f() {}".to_string()];
    let b = vec!["dep".to_string(), "fn g() {}".to_string()];
    let c = vec!["dex".to_string(), "fn f() {}".to_string()];
    assert_ne!(cache_key("cargo test", &a), cache_key("cargo test", &b));
    assert_ne!(cache_key("cargo test", &a), cache_key("cargo test", &c));
    assert_eq!(cache_key("cargo test", &a), cache_key("cargo test", &a.clone()));
}

#[test]
fn program_name_per_platform() {
    assert_eq!(Lang::Java.program_name("mvn", true), "mvn.cmd");
    assert_eq!(Lang::Kotlin.program_name("gradlew", true), "gradlew.bat");
    assert_eq!(Lang::Rust.program_name("cargo", true), "cargo");
    assert_eq!(Lang::Swift.program_name("swift", true), "swift");
    assert_eq!(Lang::Java.program_name("mvn", false), "mvn");
}

#[test]
fn source_files_in_key_order() {
    assert_eq!(Lang::Rust.source_files(), vec!["Cargo.toml", "src/lib.rs"]);
    assert_eq!(
        Lang::TypeScript.source_files(),
        vec!["package.json", "tsconfig.json", "src/solution.ts", "src/solution.test.ts"]
    );
    assert_eq!(
        Lang::Java.source_files(),
        vec![
            "pom.xml",
            "src/main/java/com/example/solution/Solution.java",
            "src/test/java/com/example/solution/SolutionTest.java",
        ]
    );
    assert_eq!(Lang::Python.source_files(), vec!["requirements.txt", "solution.py", "test.py"]);
    assert!(Lang::Python.empty_command_runs_nothing());
    assert!(!Lang::Php.empty_command_runs_nothing());
}

#[test]
fn entry_encoding_is_json() {
    assert_eq!(encode_entry(1, "assertion failed"), "[1,\"assertion failed\"]");
    assert_eq!(encode_entry(0, ""), "[0,\"\"]");
    assert_eq!(encode_entry(-3, "a\"b\nc"), "[-3,\"a\\\"b\\nc\"]");
}

#[test]
fn entry_decoding_round_trips() {
    assert_eq!(decode_entry("[1,\"assertion failed\"]"), (false, "assertion failed".to_string()));
    assert_eq!(decode_entry(&encode_entry(7, "x\ty\u{1F600}")), (false, "x\ty\u{1F600}".to_string()));
    assert_eq!(decode_entry("[0,\"ignored\"]"), (true, String::new()));
    assert_eq!(decode_entry("Failed to serialize output"), (false, "Failed to parse result".to_string()));
    assert_eq!(decode_entry("[1]"), (false, "Failed to parse result".to_string()));
}

#[test]
fn verdict_of_decoded_values() {
    assert_eq!(verdict_of_decoded(Some((0, "noise".to_string()))), (true, String::new()));
    assert_eq!(verdict_of_decoded(Some((4, "bad".to_string()))), (false, "bad".to_string()));
    assert_eq!(verdict_of_decoded(None), (false, "Failed to parse result".to_string()));
}

#[test]
fn cache_get_and_set() {
    let mut cache = Cache::new();
    let k = "key".to_string();
    assert_eq!(cache.get(&k), None);
    cache.set(k.clone(), "one".to_string());
    assert_eq!(cache.get(&k), Some("one".to_string()));
    cache.set("other".to_string(), "two".to_string());
    cache.set(k.clone(), "three".to_string());
    assert_eq!(cache.get(&k), Some("three".to_string()));
    assert_eq!(cache.get(&"other".to_string()), Some("two".to_string()));
    assert_eq!(cache.get(&"missing".to_string()), None);
}
