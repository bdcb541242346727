use agplatform::Env;
use agplatform::Platform;
use agplatform::TestEnv;
use agplatform::TestFs;
use agplatform::test_platform::test_platform;

#[test]
fn test_platform_api() {
    agplatform::TestFs::new();
    agplatform::TestEnv::new();

    let mut platform = test_platform();
    platform.env();
    platform.env_mut();
    platform.fs();
    platform.fs_mut();
}

#[test]
fn test_platform_with_env() {
    let test_env = TestEnv::new();
    let current_dir = test_env.current_dir().to_string();
    let mut test_platform = test_platform().with_env(test_env);
    assert_eq!(test_platform.env().current_dir(), current_dir);
    test_platform.env_mut().set_current_dir("/tmp");
    assert_eq!(test_platform.env().current_dir(), "/tmp");
}

#[test]
fn test_platform_with_fs() {
    let test_fs = TestFs::new();
    let mut test_platform = test_platform().with_fs(test_fs);
    let _ = test_platform.fs();
    let _ = test_platform.fs_mut();
}

#[test]
fn test_platform_with_env_args() {
    let test_env = TestEnv::new().with_args(vec!["arg1", "arg2"]);
    let platform = test_platform().with_env(test_env);
    assert_eq!(platform.env().args().to_vec(), vec!["arg1".to_string(), "arg2".to_string()]);
}

#[test]
fn test_env_builders() {
    let env = TestEnv::new()
        .with_args(vec!["app", "--verbose"])
        .with_vars(vec![("TEST_VAR", "value"), ("OTHER", "x")])
        .with_current_dir("/tmp/project");
    assert_eq!(env.args().to_vec(), vec!["app".to_string(), "--verbose".to_string()]);
    assert_eq!(env.var("TEST_VAR"), Some("value"));
    assert_eq!(env.var("OTHER"), Some("x"));
    assert_eq!(env.vars().len(), 2);
    assert_eq!(env.current_dir(), "/tmp/project");
}

#[test]
fn test_env_builders_replace() {
    let env = TestEnv::new()
        .with_args(vec!["a"])
        .with_args(vec!["b", "c"])
        .with_vars(vec![("K", "1")])
        .with_vars(vec![])
        .with_current_dir("/x")
        .with_current_dir("/y");
    assert_eq!(env.args().to_vec(), vec!["b".to_string(), "c".to_string()]);
    assert!(env.vars().is_empty());
    assert_eq!(env.current_dir(), "/y");
}

#[test]
fn test_env_is_empty_at_start() {
    let env = TestEnv::new();
    assert!(env.args().is_empty());
    assert!(env.vars().is_empty());
    assert_eq!(env.current_dir(), "");
}

#[test]
fn test_env_mutation() {
    let mut env = TestEnv::new().with_vars(vec![("A", "1")]);
    assert_eq!(env.set_var("A", "2"), Some("1".to_string()));
    assert_eq!(env.set_var("B", "3"), None);
    assert_eq!(env.remove_var("A"), Some("2".to_string()));
    assert_eq!(env.var("A"), None);
    assert_eq!(env.var("B"), Some("3"));
    assert_eq!(env.set_current_dir("/tmp"), "");
}

#[test]
fn test_platform_env_mut_keeps_fs() {
    let mut platform = test_platform();
    platform.env_mut().set_var("K", "v");
    assert_eq!(platform.env.var("K"), Some("v"));
    let _ = platform.fs_mut();
    assert_eq!(platform.env().var("K"), Some("v"));
}
