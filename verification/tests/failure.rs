use media_sorter::failure::{DateUndeterminable, FilesystemError};

#[test]
fn file_without_date_has_its_message() {
    assert_eq!(DateUndeterminable.message(), "Could not determine a media file creation date.");
}

#[test]
fn filesystem_error_names_path_and_cause() {
    let error = FilesystemError {
        path: "target/2023/7".to_string(),
        cause: "Permission denied (os error 13)".to_string(),
    };
    assert_eq!(error.message(), "target/2023/7: Permission denied (os error 13)");
    let empty = FilesystemError { path: String::new(), cause: String::new() };
    assert_eq!(empty.message(), ": ");
}
