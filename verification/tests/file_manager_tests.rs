use moonstone::errors::FmError;
use moonstone::file_manager::{create_directory, create_file, validate_extension, Notifier};
use moonstone::fs_model::{FsEntry, FsState};

#[test]
fn test_validate_extension() {
    assert!(validate_extension("tex"));
    assert!(!validate_extension("pdf"));
}

#[test]
fn test_creat_file() {
    let mut fs = FsState::new();
    let result = create_file(
        &mut fs,
        "/tmp/workdir".to_string(),
        "test_file".to_string(),
        "tex".to_string(),
    );
    assert!(result.is_ok());
}

#[test]
fn test_create_directory_success() {
    let mut fs = FsState::new();
    let mut notifier = Notifier::new();
    let result = create_directory(
        &mut fs,
        &mut notifier,
        "/tmp/workdir".to_string(),
        "test_folder".to_string(),
    );
    assert!(result.is_ok());
}

#[test]
fn create_file_leaves_zero_byte_file_at_composed_path() {
    let mut fs = FsState::new();
    let path = create_file(
        &mut fs,
        "/tmp/workdir".to_string(),
        "test_file".to_string(),
        "tex".to_string(),
    )
    .unwrap();
    assert_eq!(path, "/tmp/workdir/test_file.tex");
    assert_eq!(fs.entry(&path), Some(FsEntry::File { size: 0 }));
    assert_eq!(fs.len(), 1);
}

#[test]
fn create_file_empty_name_fails_regardless_of_other_arguments() {
    let mut fs = FsState::new();
    let err = create_file(
        &mut fs,
        "/tmp/workdir".to_string(),
        "".to_string(),
        "tex".to_string(),
    )
    .unwrap_err();
    assert!(matches!(err, FmError::EmptyName(_)));
    assert_eq!(err.message(), "File name can't be empty");
    assert_eq!(fs.len(), 0);

    let err2 = create_file(
        &mut fs,
        "elsewhere".to_string(),
        "".to_string(),
        "pdf".to_string(),
    )
    .unwrap_err();
    assert!(matches!(err2, FmError::EmptyName(_)));
}

#[test]
fn create_file_unrecognized_extension_fails() {
    let mut fs = FsState::new();
    let err = create_file(
        &mut fs,
        "/tmp/workdir".to_string(),
        "notes".to_string(),
        "pdf".to_string(),
    )
    .unwrap_err();
    assert!(matches!(err, FmError::InvalidExtension(_)));
    assert_eq!(err.message(), "The extension pdf isn't valid");
    assert_eq!(fs.len(), 0);
}

#[test]
fn create_file_existing_target_fails() {
    let mut fs = FsState::new();
    create_file(
        &mut fs,
        "/tmp/workdir".to_string(),
        "test_file".to_string(),
        "tex".to_string(),
    )
    .unwrap();
    let err = create_file(
        &mut fs,
        "/tmp/workdir".to_string(),
        "test_file".to_string(),
        "tex".to_string(),
    )
    .unwrap_err();
    assert!(matches!(err, FmError::AlreadyExists(_, _)));
    assert_eq!(err.message(), "File test_file already exists");
    assert_eq!(fs.len(), 1);
}

#[test]
fn create_directory_emits_notification_with_full_path() {
    let mut fs = FsState::new();
    let mut notifier = Notifier::new();
    let path = create_directory(
        &mut fs,
        &mut notifier,
        "/tmp/workdir".to_string(),
        "test_folder".to_string(),
    )
    .unwrap();
    assert_eq!(path, "/tmp/workdir/test_folder");
    assert_eq!(notifier.count(), 1);
    assert_eq!(notifier.payload_at(0), "/tmp/workdir/test_folder");
    assert_eq!(fs.entry(&path), Some(FsEntry::Directory));
}

#[test]
fn create_directory_twice_fails_second_time_and_changes_nothing() {
    let mut fs = FsState::new();
    let mut notifier = Notifier::new();
    create_directory(
        &mut fs,
        &mut notifier,
        "/tmp/workdir".to_string(),
        "test_folder".to_string(),
    )
    .unwrap();
    let err = create_directory(
        &mut fs,
        &mut notifier,
        "/tmp/workdir".to_string(),
        "test_folder".to_string(),
    )
    .unwrap_err();
    assert!(matches!(err, FmError::AlreadyExists(_, _)));
    assert_eq!(err.message(), "Directory test_folder already exists");
    assert_eq!(fs.len(), 1);
    assert_eq!(notifier.count(), 1);
}

#[test]
fn create_directory_empty_name_fails() {
    let mut fs = FsState::new();
    let mut notifier = Notifier::new();
    let err = create_directory(
        &mut fs,
        &mut notifier,
        "/tmp/workdir".to_string(),
        "".to_string(),
    )
    .unwrap_err();
    assert!(matches!(err, FmError::EmptyName(_)));
    assert_eq!(err.message(), "Directory cannot be empty");
    assert_eq!(fs.len(), 0);
    assert_eq!(notifier.count(), 0);
}

#[test]
fn io_and_notification_failures_render_their_message() {
    let io = FmError::IoFailure("No space left on device (os error 28)".to_string());
    assert_eq!(io.message(), "No space left on device (os error 28)");
    let nf = FmError::NotificationFailure("event bus closed".to_string());
    assert_eq!(nf.message(), "event bus closed");
}
