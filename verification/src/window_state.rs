//! The geometry record that is persisted across runs, and the decisions taken
//! when it is recorded, flushed, and read back at startup.
//!
//! Reading the window, the clock and the file is the host's part. It hands the
//! outcome to the functions here, which decide what follows.

use vstd::prelude::*;
use crate::debounce::DebouncedWriter;

verus! {

/// Size and position of a window, in physical pixels.
///
/// A record has no identity beyond its four fields: it is replaced as a whole
/// on every change and compared field by field.
#[derive(Debug, Clone, Copy, PartialEq, Eq, Structural)]
pub struct WindowState {
    pub width: u32,
    pub height: u32,
    pub x: i32,
    pub y: i32,
}

impl WindowState {
    /// The record of a window of the given size at the given position.
    pub fn new(width: u32, height: u32, x: i32, y: i32) -> (state: Self)
        ensures
            state.width == width,
            state.height == height,
            state.x == x,
            state.y == y,
    {
        Self { width, height, x, y }
    }
}

/// The directory below the user's configuration directory that holds the
/// persisted record.
pub const CONFIG_DIR_NAME: &'static str = "analog";

/// The name of the file that holds the persisted record.
pub const STATE_FILE_NAME: &'static str = "window_state.json";

/// Why the geometry could not be recorded, written or read back. None of these
/// is fatal to the host: the geometry is a convenience.
#[derive(Debug, Clone, Copy, PartialEq, Eq, Structural)]
pub enum WindowStateError {
    /// The directory could not be made or the file not written.
    Io,
    /// The persisted content is not a geometry record.
    Decode,
    /// The host could not tell the window's size or position.
    Query,
}

/// What the host found when it looked for the persisted record.
#[derive(Debug, Clone, Copy, PartialEq, Eq, Structural)]
pub enum StoredFile {
    /// The user has no configuration directory.
    NoConfigDir,
    /// There is no file: nothing was ever persisted.
    Absent,
    /// The file is there and could not be read.
    Unreadable,
    /// The file was read and does not hold a record.
    Malformed,
    /// The file holds this record.
    Parsed(WindowState),
}

impl StoredFile {
    /// Why nothing could be loaded, if something went wrong. That there is
    /// no file is not an error: nothing was persisted yet.
    pub open spec fn failure(self) -> Option<WindowStateError> {
        match self {
            StoredFile::NoConfigDir => Some(WindowStateError::Io),
            StoredFile::Unreadable => Some(WindowStateError::Io),
            StoredFile::Malformed => Some(WindowStateError::Decode),
            StoredFile::Absent => None,
            StoredFile::Parsed(_) => None,
        }
    }

    /// Why nothing could be loaded, if something went wrong.
    pub fn error(&self) -> (error: Option<WindowStateError>)
        ensures
            error == self.failure(),
    {
        match self {
            StoredFile::NoConfigDir => Some(WindowStateError::Io),
            StoredFile::Unreadable => Some(WindowStateError::Io),
            StoredFile::Malformed => Some(WindowStateError::Decode),
            StoredFile::Absent => None,
            StoredFile::Parsed(_) => None,
        }
    }
}

/// Where a window is put at startup.
#[derive(Debug, Clone, Copy, PartialEq, Eq, Structural)]
pub enum Placement {
    /// Leave the window where the host put it.
    Default,
    /// Give the window this size, then this position.
    Restore { width: u32, height: u32, x: i32, y: i32 },
}

/// The geometry that the host read from a window: the record, if both the
/// size and the position could be told.
pub open spec fn geometry_read(
    size: Option<(u32, u32)>,
    position: Option<(i32, i32)>,
) -> Result<WindowState, WindowStateError> {
    match (size, position) {
        (Some((width, height)), Some((x, y))) => Ok(WindowState { width, height, x, y }),
        _ => Err(WindowStateError::Query),
    }
}

/// Records the window's geometry, read at `now`, with the debounced writer.
///
/// `size` and `position` are what the host could tell of the window. If
/// either is missing nothing is recorded. Otherwise the geometry replaces the
/// pending update, and the result says whether the host has to start a flush
/// cycle.
pub fn save_window_state(
    writer: &mut DebouncedWriter,
    size: Option<(u32, u32)>,
    position: Option<(i32, i32)>,
    now: u64,
) -> (queued: Result<bool, WindowStateError>)
    ensures
        match geometry_read(size, position) {
            Ok(state) => {
                &&& queued == Ok::<bool, WindowStateError>(old(writer)@.spawns())
                &&& final(writer)@ == old(writer)@.record(state, now as nat)
            },
            Err(e) => queued == Err::<bool, WindowStateError>(e) && final(writer)@ == old(
                writer,
            )@,
        },
{
    match read_geometry(size, position) {
        Ok(state) => Ok(writer.record(state, now)),
        Err(e) => Err(e),
    }
}

/// The record that the host writes at once on a terminal event such as the
/// closing of the window, from what it could tell of the window. The debounced
/// writer has no part in this.
pub fn save_window_state_immediate(
    size: Option<(u32, u32)>,
    position: Option<(i32, i32)>,
) -> (flushed: Result<WindowState, WindowStateError>)
    ensures
        flushed == geometry_read(size, position),
{
    read_geometry(size, position)
}

fn read_geometry(size: Option<(u32, u32)>, position: Option<(i32, i32)>) -> (read: Result<
    WindowState,
    WindowStateError,
>)
    ensures
        read == geometry_read(size, position),
{
    match size {
        Some((width, height)) => match position {
            Some((x, y)) => Ok(WindowState::new(width, height, x, y)),
            None => Err(WindowStateError::Query),
        },
        None => Err(WindowStateError::Query),
    }
}

/// The record to restore at startup: the one in the file, and none if there
/// is no file or if it cannot be used.
pub fn load_window_state(found: StoredFile) -> (loaded: Option<WindowState>)
    ensures
        loaded == match found {
            StoredFile::Parsed(state) => Some(state),
            _ => None,
        },
        found is Absent ==> loaded is None,
        found is Malformed ==> loaded is None,
        found.failure() is Some ==> loaded is None,
{
    match found {
        StoredFile::Parsed(state) => Some(state),
        _ => None,
    }
}

/// Where the window goes at startup: to the persisted geometry if there is
/// one, and else to the host's default placement.
pub fn restore_window_state(found: StoredFile) -> (placement: Placement)
    ensures
        placement == match found {
            StoredFile::Parsed(state) => Placement::Restore {
                width: state.width,
                height: state.height,
                x: state.x,
                y: state.y,
            },
            _ => Placement::Default,
        },
        found is Absent ==> placement is Default,
        found is Malformed ==> placement is Default,
{
    match load_window_state(found) {
        Some(state) => Placement::Restore {
            width: state.width,
            height: state.height,
            x: state.x,
            y: state.y,
        },
        None => Placement::Default,
    }
}

} // verus!
