use fersk::fserr::{FileError, FileErrorKind};

#[test]
fn missing_file_message_names_the_path() {
    let e = FileError::new(FileErrorKind::NotFound, "/etc/fersk/config.toml".to_string());
    assert_eq!(e.message(), "File not found: /etc/fersk/config.toml");
}

#[test]
fn other_failures_keep_their_own_description() {
    let e = FileError::new(
        FileErrorKind::Other("permission denied".to_string()),
        "/etc/fersk/config.toml".to_string(),
    );
    assert_eq!(e.message(), "permission denied");
    assert_eq!(e.path, "/etc/fersk/config.toml");
}
