use iterm2_client::auth::{resolve_credentials_with_env, AppleScriptRunner};

struct MockRunner {
    result: std::result::Result<String, String>,
}

impl AppleScriptRunner for MockRunner {
    fn run_osascript(&self, _script: &str) -> std::result::Result<String, String> {
        self.result.clone()
    }
}

#[test]
fn resolve_from_env_vars() {
    let runner = MockRunner {
        result: Err("should not be called".to_string()),
    };
    let creds = resolve_credentials_with_env(&runner, |key| match key {
        "ITERM2_COOKIE" => Some("test_cookie".to_string()),
        "ITERM2_KEY" => Some("test_key".to_string()),
        _ => None,
    })
    .unwrap();
    assert_eq!(creds.cookie, "test_cookie");
    assert_eq!(creds.key, "test_key");
}

#[test]
fn empty_env_vars_fall_through_to_osascript() {
    let runner = MockRunner {
        result: Ok("abc123 def456".to_string()),
    };
    let creds = resolve_credentials_with_env(&runner, |key| match key {
        "ITERM2_COOKIE" => Some("".to_string()),
        "ITERM2_KEY" => Some("".to_string()),
        _ => None,
    })
    .unwrap();
    assert_eq!(creds.cookie, "abc123");
    assert_eq!(creds.key, "def456");
}

#[test]
fn resolve_from_osascript() {
    let runner = MockRunner {
        result: Ok("abc123 def456".to_string()),
    };
    let creds =
        resolve_credentials_with_env(&runner, |_| None).unwrap();
    assert_eq!(creds.cookie, "abc123");
    assert_eq!(creds.key, "def456");
}

#[test]
fn resolve_from_osascript_newline_separated() {
    let runner = MockRunner {
        result: Ok("abc123\ndef456".to_string()),
    };
    let creds =
        resolve_credentials_with_env(&runner, |_| None).unwrap();
    assert_eq!(creds.cookie, "abc123");
    assert_eq!(creds.key, "def456");
}

#[test]
fn osascript_failure() {
    let runner = MockRunner {
        result: Err("connection refused".to_string()),
    };
    let err =
        resolve_credentials_with_env(&runner, |_| None).err().unwrap();
    assert!(err.to_string().contains("osascript failed"));
}

#[test]
fn parse_bad_output() {
    let runner = MockRunner {
        result: Ok("justonetoken".to_string()),
    };
    let err =
        resolve_credentials_with_env(&runner, |_| None).err().unwrap();
    assert!(err.to_string().contains("Failed to parse"));
}
