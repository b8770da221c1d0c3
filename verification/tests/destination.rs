use rcpt::destination::{needs_directory, written_message, DEFAULT_PATH};

#[test]
fn default_path() {
    assert_eq!(DEFAULT_PATH, "receipt.json");
}

#[test]
fn nested_destination_needs_its_directory() {
    assert!(needs_directory(Some("a/b")));
    assert!(needs_directory(Some("/tmp")));
    assert!(needs_directory(Some("/")));
    assert!(needs_directory(Some(" ")));
}

#[test]
fn bare_file_name_needs_no_directory() {
    assert!(!needs_directory(Some("")));
}

#[test]
fn destination_without_parent_needs_no_directory() {
    assert!(!needs_directory(None));
}

#[test]
fn written_message_names_the_path() {
    assert_eq!(written_message("receipt.json"), "Receipt written to: receipt.json");
    assert_eq!(written_message("a/b/c.json"), "Receipt written to: a/b/c.json");
    assert_eq!(written_message(""), "Receipt written to: ");
}
