use analog_desktop::debounce::DebouncedWriter;
use analog_desktop::window_state::{
    load_window_state, restore_window_state, save_window_state, save_window_state_immediate,
    Placement, StoredFile, WindowState, WindowStateError, CONFIG_DIR_NAME, STATE_FILE_NAME,
};

#[test]
fn new_keeps_the_four_fields() {
    let state = WindowState::new(800, 600, 10, -20);
    assert_eq!(state.width, 800);
    assert_eq!(state.height, 600);
    assert_eq!(state.x, 10);
    assert_eq!(state.y, -20);
}

#[test]
fn records_are_equal_when_their_fields_are() {
    assert_eq!(WindowState::new(1, 2, 3, 4), WindowState::new(1, 2, 3, 4));
    assert_ne!(WindowState::new(1, 2, 3, 4), WindowState::new(1, 2, 3, 5));
    assert_ne!(WindowState::new(1, 2, 3, 4), WindowState::new(2, 1, 3, 4));
}

#[test]
fn new_takes_the_extremes() {
    let state = WindowState::new(u32::MAX, 0, i32::MIN, i32::MAX);
    assert_eq!(state.width, u32::MAX);
    assert_eq!(state.height, 0);
    assert_eq!(state.x, i32::MIN);
    assert_eq!(state.y, i32::MAX);
}

#[test]
fn the_record_is_kept_in_a_fixed_place() {
    assert_eq!(CONFIG_DIR_NAME, "analog");
    assert_eq!(STATE_FILE_NAME, "window_state.json");
}

#[test]
fn load_on_a_fresh_environment_finds_nothing() {
    assert_eq!(load_window_state(StoredFile::Absent), None);
    assert_eq!(restore_window_state(StoredFile::Absent), Placement::Default);
}

#[test]
fn load_of_a_corrupted_file_finds_nothing() {
    assert_eq!(load_window_state(StoredFile::Malformed), None);
    assert_eq!(restore_window_state(StoredFile::Malformed), Placement::Default);
}

#[test]
fn load_without_a_readable_file_finds_nothing() {
    assert_eq!(load_window_state(StoredFile::NoConfigDir), None);
    assert_eq!(load_window_state(StoredFile::Unreadable), None);
    assert_eq!(restore_window_state(StoredFile::NoConfigDir), Placement::Default);
    assert_eq!(restore_window_state(StoredFile::Unreadable), Placement::Default);
}

#[test]
fn a_missing_file_is_no_error_and_a_bad_one_is() {
    assert_eq!(StoredFile::Absent.error(), None);
    assert_eq!(StoredFile::Parsed(WindowState::new(1, 2, 3, 4)).error(), None);
    assert_eq!(StoredFile::NoConfigDir.error(), Some(WindowStateError::Io));
    assert_eq!(StoredFile::Unreadable.error(), Some(WindowStateError::Io));
    assert_eq!(StoredFile::Malformed.error(), Some(WindowStateError::Decode));
}

#[test]
fn load_gives_back_the_persisted_record() {
    let state = WindowState::new(1024, 768, 50, 60);
    assert_eq!(load_window_state(StoredFile::Parsed(state)), Some(state));
    assert_eq!(
        restore_window_state(StoredFile::Parsed(state)),
        Placement::Restore { width: 1024, height: 768, x: 50, y: 60 }
    );
}

#[test]
fn immediate_save_takes_the_geometry_as_it_is() {
    assert_eq!(
        save_window_state_immediate(Some((900, 700)), Some((15, 25))),
        Ok(WindowState::new(900, 700, 15, 25))
    );
}

#[test]
fn a_window_that_cannot_be_read_is_a_query_error() {
    assert_eq!(save_window_state_immediate(None, Some((1, 2))), Err(WindowStateError::Query));
    assert_eq!(save_window_state_immediate(Some((1, 2)), None), Err(WindowStateError::Query));
    assert_eq!(save_window_state_immediate(None, None), Err(WindowStateError::Query));
}

#[test]
fn save_queues_the_geometry_and_asks_for_a_cycle_once() {
    let mut writer = DebouncedWriter::new(500);
    assert_eq!(save_window_state(&mut writer, Some((800, 600)), Some((10, 20)), 0), Ok(true));
    assert_eq!(save_window_state(&mut writer, Some((1024, 768)), Some((50, 60)), 100), Ok(false));
    let pending = writer.pending().unwrap();
    assert_eq!(pending.state, WindowState::new(1024, 768, 50, 60));
    assert_eq!(pending.recorded_at, 100);
    assert!(writer.is_running());
}

#[test]
fn save_of_an_unreadable_window_changes_nothing() {
    let mut writer = DebouncedWriter::new(500);
    assert_eq!(
        save_window_state(&mut writer, None, Some((10, 20)), 0),
        Err(WindowStateError::Query)
    );
    assert_eq!(writer.pending(), None);
    assert!(!writer.is_running());
    assert_eq!(save_window_state(&mut writer, Some((800, 600)), Some((10, 20)), 5), Ok(true));
    assert_eq!(
        save_window_state(&mut writer, Some((1, 1)), None, 9),
        Err(WindowStateError::Query)
    );
    assert_eq!(writer.pending().unwrap().state, WindowState::new(800, 600, 10, 20));
    assert_eq!(writer.pending().unwrap().recorded_at, 5);
}
