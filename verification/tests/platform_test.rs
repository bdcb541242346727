use agplatform::Env;
use agplatform::EnvImpl;
use agplatform::Platform;

#[test]
fn public_api() {
    agplatform::Error::fs("fs error");
    agplatform::Error::env("env error");

    let mut platform = agplatform::platform(EnvImpl::new());
    platform.env();
    platform.env_mut();
    platform.fs();
    platform.fs_mut();
}

#[test]
fn platform_env_mut_changes_are_seen() {
    let mut platform = agplatform::platform(EnvImpl::new());
    assert_eq!(platform.env().var("KEY"), None);
    assert_eq!(platform.env_mut().set_var("KEY", "value"), None);
    assert_eq!(platform.env().var("KEY"), Some("value"));
    assert_eq!(platform.env_mut().set_current_dir("/new/path"), "");
    assert_eq!(platform.env().current_dir(), "/new/path");
}

#[test]
fn platform_holds_given_env() {
    let env = EnvImpl::from_parts(
        vec!["prog".to_string(), "arg".to_string()],
        vec![("A".to_string(), "1".to_string())],
        "/home".to_string(),
    );
    let platform = agplatform::platform(env);
    assert_eq!(platform.env().args(), &["prog".to_string(), "arg".to_string()]);
    assert_eq!(platform.env().var("A"), Some("1"));
    assert_eq!(platform.env().current_dir(), "/home");
}
