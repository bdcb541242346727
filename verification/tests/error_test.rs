use agplatform::Error;
use agplatform::ErrorKind;

#[test]
fn display_with_kind() {
    let error = Error::io("some error");
    assert_eq!(error.to_string(), "[IO] some error");
}

#[test]
fn std_io_error_conversion() {
    let io_error = std::io::Error::other("some io error");

    let error: Error = io_error.into();
    assert_eq!(error.kind(), ErrorKind::IO);

    assert!(
        error.to_string().len() > "[IO] ".len(),
        "Error string representation with cause should contain more than just the prefix, got: '{}'",
        error.to_string()
    );

    let orig_error = error.source().unwrap();
    assert_eq!(orig_error.to_string(), "some io error");
}

#[test]
fn error_description_and_kind() {
    let error = Error::io("some error");
    assert_eq!(error.description(), "some error");
    assert_eq!(error.kind(), ErrorKind::IO);
    assert!(error.source().is_none());
}

#[test]
fn error_env_and_fs_kinds() {
    let env_error = Error::env("env error");
    assert_eq!(env_error.kind(), ErrorKind::Env);
    assert_eq!(env_error.description(), "env error");
    assert_eq!(env_error.to_string(), "[Env] env error");

    let fs_error = Error::fs("fs error");
    assert_eq!(fs_error.kind(), ErrorKind::Fs);
    assert_eq!(fs_error.description(), "fs error");
    assert_eq!(fs_error.to_string(), "[Fs] fs error");
}

#[test]
fn error_empty_description() {
    let error = Error::io("");
    assert_eq!(error.to_string(), "[IO] ");
}

#[test]
fn io_error_conversion_takes_its_text() {
    let io_error = std::io::Error::other("disk full");
    let error = Error::from(io_error);
    assert_eq!(error.kind(), ErrorKind::IO);
    assert_eq!(error.description(), "disk full");
    assert_eq!(error.to_string(), "[IO] disk full");
    assert_eq!(error.source().unwrap().kind(), std::io::ErrorKind::Other);
}

#[test]
fn error_clone_keeps_fields() {
    let error = Error::from(std::io::Error::other("cause"));
    let copy = error.clone();
    assert_eq!(copy.kind(), ErrorKind::IO);
    assert_eq!(copy.description(), "cause");
    assert_eq!(copy.source().unwrap().to_string(), "cause");
}

#[test]
fn error_kind_names() {
    assert_eq!(ErrorKind::IO.to_string(), "IO");
    assert_eq!(ErrorKind::Env.to_string(), "Env");
    assert_eq!(ErrorKind::Fs.to_string(), "Fs");
}
