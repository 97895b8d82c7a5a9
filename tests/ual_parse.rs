use maple::ual::parse_ual;

fn pair(k: &str, v: &str) -> (String, String) {
    (k.to_string(), v.to_string())
}

#[test]
fn parse_example_statement() {
    let stmt = parse_ual("EXEC build_app app_developer features=auth,tasks").unwrap();
    assert_eq!(stmt.type_, "EXEC");
    assert_eq!(stmt.target, "build_app");
    assert_eq!(stmt.destination, "app_developer");
    assert_eq!(stmt.params, vec![pair("features", "auth,tasks")]);
}

#[test]
fn parse_too_few_tokens_fails() {
    assert_eq!(parse_ual(""), Err("Invalid UAL: Too few parts".to_string()));
    assert_eq!(parse_ual("EXEC"), Err("Invalid UAL: Too few parts".to_string()));
    assert_eq!(parse_ual("EXEC task1"), Err("Invalid UAL: Too few parts".to_string()));
    assert!(parse_ual("   \t  ").is_err());
}

#[test]
fn parse_skips_words_without_equals() {
    let stmt = parse_ual("EXEC task1 agent1 WITH priority=5").unwrap();
    assert_eq!(stmt.params, vec![pair("priority", "5")]);
}

#[test]
fn parse_keeps_duplicates_in_order() {
    let stmt = parse_ual("MOV a b k=1 x k=2 j=").unwrap();
    assert_eq!(stmt.params, vec![pair("k", "1"), pair("k", "2"), pair("j", "")]);
}

#[test]
fn parse_splits_on_first_equals_only() {
    let stmt = parse_ual("EXEC t d url=a=b =v").unwrap();
    assert_eq!(stmt.params, vec![pair("url", "a=b"), pair("", "v")]);
}

#[test]
fn parse_splits_on_any_whitespace() {
    let stmt = parse_ual("\tEXEC\n deploy \u{3000}system_engineer  region=us-east\r\n").unwrap();
    assert_eq!(stmt.type_, "EXEC");
    assert_eq!(stmt.target, "deploy");
    assert_eq!(stmt.destination, "system_engineer");
    assert_eq!(stmt.params, vec![pair("region", "us-east")]);
}

#[test]
fn parse_non_ascii_tokens() {
    let stmt = parse_ual("ÉXEC tâche agent1 clé=välue").unwrap();
    assert_eq!(stmt.type_, "ÉXEC");
    assert_eq!(stmt.target, "tâche");
    assert_eq!(stmt.params, vec![pair("clé", "välue")]);
}
