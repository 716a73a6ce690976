use git_spawn::error::Error;

#[test]
fn categories() {
    assert_eq!(Error::GitNotFound.category(), "prerequisites");
    assert_eq!(
        Error::command_failed("git status", 1, "", "").category(),
        "command"
    );
    assert_eq!(Error::parse_error("x").category(), "parsing");
    assert_eq!(Error::not_a_repository("/tmp").category(), "repository");
}

#[test]
fn from_io_error() {
    let io = std::io::Error::new(std::io::ErrorKind::NotFound, "nope");
    let err: Error = io.into();
    assert!(matches!(err, Error::Io { .. }));
}
