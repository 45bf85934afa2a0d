use josh_sync::config::{ConfigError, JoshConfig, PostPullOperation, default_org};

fn path_config(repo: &str, path: &str) -> JoshConfig {
    JoshConfig {
        org: "rust-lang".to_string(),
        repo: repo.to_string(),
        path: Some(path.to_string()),
        filter: None,
        post_pull: Vec::new(),
    }
}

#[test]
fn full_repo_name_joins_org_and_repo() {
    let config = path_config("miri", "src/tools/miri");
    assert_eq!(config.full_repo_name(), "rust-lang/miri");
}

#[test]
fn josh_filter_from_path() {
    let config = path_config("x", "lib/x");
    assert_eq!(config.construct_josh_filter(), ":/lib/x");
}

#[test]
fn josh_filter_from_filter_expression() {
    let config = JoshConfig {
        org: "rust-lang".to_string(),
        repo: "x".to_string(),
        path: None,
        filter: Some(":/src/x:prefix=y".to_string()),
        post_pull: Vec::new(),
    };
    assert_eq!(config.construct_josh_filter(), ":/src/x:prefix=y");
}

#[test]
fn validate_accepts_exactly_one_of_path_and_filter() {
    assert!(path_config("x", "lib/x").validate().is_ok());
}

#[test]
fn validate_rejects_both_path_and_filter() {
    let config = JoshConfig {
        org: "rust-lang".to_string(),
        repo: "x".to_string(),
        path: Some("lib/x".to_string()),
        filter: Some(":/lib/x".to_string()),
        post_pull: Vec::new(),
    };
    let err = config.validate().unwrap_err();
    assert_eq!(err, ConfigError::BothPathAndFilter);
    assert_eq!(err.message(), "Cannot specify both `path` and `filter`");
}

#[test]
fn validate_rejects_neither_path_nor_filter() {
    let config = JoshConfig {
        org: "rust-lang".to_string(),
        repo: "x".to_string(),
        path: None,
        filter: None,
        post_pull: Vec::new(),
    };
    let err = config.validate().unwrap_err();
    assert_eq!(err, ConfigError::MissingPathAndFilter);
    assert_eq!(err.message(), "Must specify one of `path` and `filter`");
}

#[test]
fn validate_rejects_empty_post_pull_command() {
    let mut config = path_config("x", "lib/x");
    config.post_pull = vec![PostPullOperation {
        cmd: Vec::new(),
        commit_message: "tidy".to_string(),
    }];
    let err = config.validate().unwrap_err();
    assert_eq!(err, ConfigError::EmptyPostPullCommand);
}

#[test]
fn validate_accepts_non_empty_post_pull_command() {
    let mut config = path_config("x", "lib/x");
    config.post_pull = vec![PostPullOperation {
        cmd: vec!["cargo".to_string(), "fmt".to_string()],
        commit_message: "reformat".to_string(),
    }];
    assert!(config.validate().is_ok());
}

#[test]
fn default_org_is_rust_lang() {
    assert_eq!(default_org(), "rust-lang");
}

#[test]
fn config_clone_preserves_fields() {
    let mut config = path_config("x", "lib/x");
    config.post_pull = vec![PostPullOperation {
        cmd: vec!["cargo".to_string(), "fmt".to_string()],
        commit_message: "reformat".to_string(),
    }];
    let copy = config.clone();
    assert_eq!(copy.org, "rust-lang");
    assert_eq!(copy.repo, "x");
    assert_eq!(copy.path.as_deref(), Some("lib/x"));
    assert!(copy.filter.is_none());
    assert_eq!(copy.post_pull.len(), 1);
    assert_eq!(copy.post_pull[0].cmd, vec!["cargo", "fmt"]);
    assert_eq!(copy.post_pull[0].commit_message, "reformat");
}
