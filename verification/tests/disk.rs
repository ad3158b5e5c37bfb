use ress::checker::{target_exists, LaunchState};
use ress::frame::check_path;

fn named_target() -> tempfile::Builder<'static, 'static> {
    let mut builder = tempfile::Builder::new();
    builder.prefix("PXStudioRuntimeMMO").suffix(".exe").rand_bytes(0);
    builder
}

#[test]
fn directory_with_target_file_is_ready() {
    let dir = tempfile::tempdir().unwrap();
    let _file = named_target().tempfile_in(dir.path()).unwrap();
    let path = String::from(dir.path().to_str().unwrap());
    assert!(target_exists(&path));
    let status = check_path(&path);
    assert_eq!(status.state, LaunchState::Ready);
    assert_eq!(
        status.label,
        format!("Path: '{}' contains 'PXStudioRuntimeMMO.exe', ready to launch!", path)
    );
    assert_eq!(status.button, Some(String::from("Launch")));
}

#[test]
fn directory_with_other_files_is_invalid() {
    let dir = tempfile::tempdir().unwrap();
    let _file = tempfile::Builder::new()
        .prefix("PXStudioRuntimeMMO")
        .suffix(".exe.bak")
        .rand_bytes(0)
        .tempfile_in(dir.path())
        .unwrap();
    let path = String::from(dir.path().to_str().unwrap());
    assert!(!target_exists(&path));
    assert_eq!(check_path(&path).state, LaunchState::Invalid);
}

#[test]
fn target_name_as_directory_is_not_ready() {
    let dir = tempfile::tempdir().unwrap();
    let _inner = named_target().tempdir_in(dir.path()).unwrap();
    let path = String::from(dir.path().to_str().unwrap());
    assert!(!target_exists(&path));
    assert_eq!(check_path(&path).state, LaunchState::Invalid);
}

#[test]
fn target_below_a_subdirectory_is_not_ready() {
    let dir = tempfile::tempdir().unwrap();
    let inner = tempfile::tempdir_in(dir.path()).unwrap();
    let _file = named_target().tempfile_in(inner.path()).unwrap();
    let path = String::from(dir.path().to_str().unwrap());
    assert!(!target_exists(&path));
    assert_eq!(check_path(&path).state, LaunchState::Invalid);
    assert!(target_exists(&String::from(inner.path().to_str().unwrap())));
}
