use watch_bridge::EventLog;
use watch_bridge::SetupError;
use watch_bridge::arm;
use watch_bridge::pump_one;

#[test]
fn missing_path_yields_setup_error() {
    let armed = arm("/nonexistent/__watch_bridge_missing__/x");
    assert!(matches!(armed, Err(SetupError::Arm(_))));
}

#[test]
fn existing_directory_arms() {
    let dir = tempfile::tempdir().unwrap();
    let armed = arm(dir.path().to_str().unwrap());
    assert!(armed.is_ok());
}

#[test]
fn created_file_reaches_the_sink() {
    let dir = tempfile::tempdir().unwrap();
    let mut watch = match arm(dir.path().to_str().unwrap()) {
        Ok(watch) => watch,
        Err(_) => panic!("arming an existing directory failed"),
    };
    let file = tempfile::NamedTempFile::new_in(dir.path()).unwrap();
    let mut log = EventLog::new();
    let done = pump_one(&mut watch, &mut log);
    assert!(!done);
    assert_eq!(log.events().len(), 1);
    drop(file);
}
