use moonstone::errors::FmError;
use moonstone::fs_model::{FsEntry, FsState};
use moonstone::project_manager::{Project, Timestamp};

// Helper to build a Project without going through ::new,
// useful for testing getters/setters in isolation.
fn make_test_project() -> Project {
    Project::from_parts(
        "test_project".to_string(),
        "/tmp".to_string(),
        Timestamp { millis: 0 },
        Timestamp { millis: 0 },
        1,
    )
}

// --- Project::new tests ---

#[test]
fn test_new_rejects_empty_name() {
    let mut fs = FsState::new();
    let result = Project::new(&mut fs, "".to_string(), "/tmp/workdir".to_string());
    assert!(result.is_err());
    assert_eq!(
        result.unwrap_err().message(),
        "Projects must have a name that isn't empty"
    );
    assert_eq!(fs.len(), 0);
}

#[test]
fn test_new_creates_project_directory() {
    let mut fs = FsState::new();
    let result = Project::new(&mut fs, "my_project".to_string(), "/tmp/workdir".to_string());
    assert!(result.is_ok());
    assert!(fs.contains("/tmp/workdir/my_project"));
    assert_eq!(
        fs.entry("/tmp/workdir/my_project"),
        Some(FsEntry::Directory)
    );
}

#[test]
fn test_new_creates_initial_tex_file() {
    let mut fs = FsState::new();
    let project = Project::new(&mut fs, "my_project".to_string(), "/tmp/workdir".to_string())
        .unwrap();
    assert!(fs.contains("/tmp/workdir/my_project/my_project.tex"));
    assert_eq!(project.get_amount_of_files(), 1);
}

#[test]
fn test_new_rejects_duplicate_project() {
    let mut fs = FsState::new();
    Project::new(&mut fs, "duplicate".to_string(), "/tmp/workdir".to_string()).unwrap();
    let result = Project::new(&mut fs, "duplicate".to_string(), "/tmp/workdir".to_string());
    assert!(result.is_err());
}

#[test]
fn new_project_on_empty_directory_leaves_exactly_directory_and_seed_file() {
    let mut fs = FsState::new();
    let project = Project::new(&mut fs, "demo".to_string(), "/tmp/scratch".to_string()).unwrap();
    assert_eq!(project.get_name(), "demo");
    assert_eq!(project.get_path(), "/tmp/scratch");
    assert_eq!(project.get_amount_of_files(), 1);
    assert_eq!(fs.len(), 2);
    assert_eq!(fs.entry("/tmp/scratch/demo"), Some(FsEntry::Directory));
    assert_eq!(
        fs.entry("/tmp/scratch/demo/demo.tex"),
        Some(FsEntry::File { size: 0 })
    );
}

#[test]
fn new_project_duplicate_leaves_filesystem_unchanged() {
    let mut fs = FsState::new();
    Project::new(&mut fs, "demo".to_string(), "/tmp/scratch".to_string()).unwrap();
    let err = Project::new(&mut fs, "demo".to_string(), "/tmp/scratch".to_string()).unwrap_err();
    assert!(matches!(err, FmError::AlreadyExists(_, _)));
    assert_eq!(err.message(), "Project demo already exists");
    assert_eq!(fs.len(), 2);
    assert_eq!(fs.entry("/tmp/scratch/demo"), Some(FsEntry::Directory));
    assert_eq!(
        fs.entry("/tmp/scratch/demo/demo.tex"),
        Some(FsEntry::File { size: 0 })
    );
}

#[test]
fn new_project_taken_seed_path_propagates_file_error_and_keeps_directory() {
    let mut fs = FsState::new();
    fs.put(
        "/tmp/scratch/demo/demo.tex".to_string(),
        FsEntry::File { size: 7 },
    );
    let err = Project::new(&mut fs, "demo".to_string(), "/tmp/scratch".to_string()).unwrap_err();
    assert_eq!(err.message(), "File demo already exists");
    // The directory created before the seed-file step failed is left in place.
    assert_eq!(fs.entry("/tmp/scratch/demo"), Some(FsEntry::Directory));
    assert_eq!(
        fs.entry("/tmp/scratch/demo/demo.tex"),
        Some(FsEntry::File { size: 7 })
    );
}

// --- Getter tests ---

#[test]
fn test_get_name() {
    let project = make_test_project();
    assert_eq!(project.get_name(), "test_project");
}

#[test]
fn test_get_path() {
    let project = make_test_project();
    assert_eq!(project.get_path(), "/tmp");
}

#[test]
fn test_get_amount_of_files() {
    let project = make_test_project();
    assert_eq!(project.get_amount_of_files(), 1);
}

#[test]
fn timestamps_are_kept_as_given() {
    let project = Project::from_parts(
        "test_project".to_string(),
        "/tmp".to_string(),
        Timestamp { millis: 1700000000000 },
        Timestamp { millis: 1700000000001 },
        1,
    );
    assert_eq!(project.get_creation_date(), Timestamp { millis: 1700000000000 });
    assert_eq!(
        project.get_last_modification_date(),
        Timestamp { millis: 1700000000001 }
    );
}

// --- Setter tests ---

#[test]
fn test_set_amount_of_files() {
    let mut project = make_test_project();
    project.set_amount_of_files(5);
    assert_eq!(project.get_amount_of_files(), 5);
}

#[test]
fn test_increment_amount_of_files() {
    let mut project = make_test_project();
    assert_eq!(project.get_amount_of_files(), 1);
    project.increment_amount_of_files();
    assert_eq!(project.get_amount_of_files(), 2);
}
