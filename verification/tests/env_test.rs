use agplatform::Env;
use agplatform::EnvImpl;

#[test]
fn env_var() {
    const KEY: &str = "TEST_VAR";
    let mut env = EnvImpl::new();

    assert_eq!(env.var(KEY), None);

    assert_eq!(env.set_var(KEY, "value"), None);
    assert_eq!(env.var(KEY), Some("value"));
    assert_eq!(
        env.vars().iter().find(|(k, _)| k == KEY),
        Some(&(KEY.to_string(), "value".to_string()))
    );

    assert_eq!(env.set_var(KEY, "value2"), Some("value".to_string()));
    assert_eq!(env.var(KEY), Some("value2"));
    assert_eq!(
        env.vars().iter().find(|(k, _)| k == KEY),
        Some(&(KEY.to_string(), "value2".to_string()))
    );

    assert_eq!(env.remove_var(KEY), Some("value2".to_string()));
    assert_eq!(env.var(KEY), None);
    assert_eq!(env.vars().iter().find(|(k, _)| k == KEY), None);

    assert_eq!(env.remove_var(KEY), None);
}

#[test]
fn new_env_is_empty() {
    let env = EnvImpl::new();
    assert!(env.args().is_empty());
    assert!(env.vars().is_empty());
    assert_eq!(env.current_dir(), "");
}

#[test]
fn set_current_dir_returns_previous() {
    let mut env = EnvImpl::new();
    assert_eq!(env.set_current_dir("/some/path"), "");
    assert_eq!(env.current_dir(), "/some/path");
    assert_eq!(env.set_current_dir("/other"), "/some/path");
    assert_eq!(env.current_dir(), "/other");
}

#[test]
fn set_var_keeps_position_of_existing_key() {
    let mut env = EnvImpl::new();
    env.set_var("A", "1");
    env.set_var("B", "2");
    env.set_var("C", "3");
    assert_eq!(env.set_var("B", "20"), Some("2".to_string()));
    let expected = vec![
        ("A".to_string(), "1".to_string()),
        ("B".to_string(), "20".to_string()),
        ("C".to_string(), "3".to_string()),
    ];
    assert_eq!(env.vars(), expected.as_slice());
}

#[test]
fn set_var_leaves_other_keys() {
    let mut env = EnvImpl::new();
    env.set_var("A", "1");
    env.set_var("B", "2");
    assert_eq!(env.var("A"), Some("1"));
    assert_eq!(env.var("B"), Some("2"));
    env.remove_var("A");
    assert_eq!(env.var("B"), Some("2"));
    assert_eq!(env.vars().len(), 1);
}

#[test]
fn remove_undoes_set_of_fresh_key() {
    let mut env = EnvImpl::from_parts(
        vec![],
        vec![("X".to_string(), "1".to_string()), ("Y".to_string(), "2".to_string())],
        String::new(),
    );
    let before = env.vars().to_vec();
    assert_eq!(env.set_var("Z", "3"), None);
    assert_eq!(env.remove_var("Z"), Some("3".to_string()));
    assert_eq!(env.vars(), before.as_slice());
}

#[test]
fn set_twice_is_set_once() {
    let mut twice = EnvImpl::new();
    twice.set_var("K", "a");
    twice.set_var("K", "b");
    let mut once = EnvImpl::new();
    once.set_var("K", "b");
    assert_eq!(twice.vars(), once.vars());
}

#[test]
fn duplicate_keys_use_first_entry() {
    let mut env = EnvImpl::from_parts(
        vec![],
        vec![("K".to_string(), "first".to_string()), ("K".to_string(), "second".to_string())],
        String::new(),
    );
    assert_eq!(env.var("K"), Some("first"));
    assert_eq!(env.set_var("K", "new"), Some("first".to_string()));
    assert_eq!(env.var("K"), Some("new"));
    assert_eq!(env.remove_var("K"), Some("new".to_string()));
    assert_eq!(env.var("K"), Some("second"));
}

#[test]
fn from_parts_holds_parts() {
    let env = EnvImpl::from_parts(
        vec!["app".to_string(), "--verbose".to_string()],
        vec![("TEST_VAR".to_string(), "value".to_string())],
        "/tmp/project".to_string(),
    );
    assert_eq!(env.args(), &["app".to_string(), "--verbose".to_string()]);
    assert_eq!(env.var("TEST_VAR"), Some("value"));
    assert_eq!(env.var("OTHER"), None);
    assert_eq!(env.current_dir(), "/tmp/project");
}

#[test]
fn var_ops_keep_args_and_dir() {
    let mut env = EnvImpl::from_parts(vec!["a".to_string()], vec![], "/d".to_string());
    env.set_var("K", "v");
    env.remove_var("K");
    assert_eq!(env.args(), &["a".to_string()]);
    assert_eq!(env.current_dir(), "/d");
}

#[test]
fn empty_key_and_value() {
    let mut env = EnvImpl::new();
    assert_eq!(env.set_var("", ""), None);
    assert_eq!(env.var(""), Some(""));
    assert_eq!(env.remove_var(""), Some(String::new()));
    assert_eq!(env.var(""), None);
}
