//! The decisions of the interface: from the current state and an event to
//! the next state and the outside work to do. The caller performs that work
//! (file dialog, parsing, saving settings) and reports back with events.

use vstd::prelude::*;
use crate::metadata::{error_message, AudioMetadata, MetadataView, ParseError};
use crate::recent::{add_recent_file, after_open, paths_of, remove_recent_file, without, AppTheme};

verus! {

/// The smallest zoom, in tenths (50%).
pub const MIN_ZOOM_TENTHS: u32 = 5;

/// The largest zoom, in tenths (200%).
pub const MAX_ZOOM_TENTHS: u32 = 20;

/// What the interface shows and remembers.
pub struct State {
    pub file_path: Option<String>,
    pub metadata: Option<AudioMetadata>,
    pub error: Option<String>,
    pub recent_files: Vec<String>,
    pub theme: AppTheme,
    /// Zoom level in tenths: 10 is 100%.
    pub zoom_tenths: u32,
    pub settings_open: bool,
}

pub struct StateView {
    pub file_path: Option<Seq<char>>,
    pub metadata: Option<MetadataView>,
    pub error: Option<Seq<char>>,
    pub recent_files: Seq<Seq<char>>,
    pub theme: AppTheme,
    pub zoom_tenths: u32,
    pub settings_open: bool,
}

impl View for State {
    type V = StateView;

    open spec fn view(&self) -> StateView {
        StateView {
            file_path: match self.file_path {
                Some(p) => Some(p@),
                None => None,
            },
            metadata: match self.metadata {
                Some(m) => Some(m@),
                None => None,
            },
            error: match self.error {
                Some(e) => Some(e@),
                None => None,
            },
            recent_files: paths_of(self.recent_files@),
            theme: self.theme,
            zoom_tenths: self.zoom_tenths,
            settings_open: self.settings_open,
        }
    }
}

/// An event for the interface.
pub enum Message {
    OpenFileDialog,
    /// The file dialog closed, with the chosen path if any.
    FileSelected(Option<String>),
    /// A recent file was chosen; `exists` tells whether it is still there.
    SelectRecentFile { path: String, exists: bool },
    MetadataParsed(Result<AudioMetadata, ParseError>),
    ToggleSettings,
    ThemeChanged(AppTheme),
    ZoomIncrease,
    ZoomDecrease,
}

/// The outside work that an event calls for.
#[derive(Debug, PartialEq, Eq)]
pub enum Action {
    Nothing,
    /// Show the file dialog.
    OpenFileDialog,
    /// Save the recent list, then parse the file at this path.
    Parse(String),
    /// Save the recent list.
    SaveRecentFiles,
    /// Save theme and zoom.
    SaveSettings,
}

/// The zoom after one step up, at most 200%.
pub open spec fn zoom_in(z: u32) -> u32 {
    if z + 1 > MAX_ZOOM_TENTHS {
        MAX_ZOOM_TENTHS
    } else {
        (z + 1) as u32
    }
}

/// The zoom after one step down, at least 50%.
pub open spec fn zoom_out(z: u32) -> u32 {
    if z < MIN_ZOOM_TENTHS + 1 {
        MIN_ZOOM_TENTHS
    } else {
        (z - 1) as u32
    }
}

/// The state after opening `p`: it is the current file, first in the
/// recent list, and any earlier error is cleared.
pub open spec fn opened(s: StateView, p: Seq<char>) -> StateView {
    StateView { file_path: Some(p), error: None, recent_files: after_open(s.recent_files, p), ..s }
}

impl State {
    /// A session with nothing open, from the saved settings.
    pub fn new(theme: AppTheme, zoom_tenths: u32, recent_files: Vec<String>) -> (r: State)
        ensures
            r@ == (StateView {
                file_path: None,
                metadata: None,
                error: None,
                recent_files: paths_of(recent_files@),
                theme,
                zoom_tenths,
                settings_open: false,
            }),
    {
        State {
            file_path: None,
            metadata: None,
            error: None,
            recent_files,
            theme,
            zoom_tenths,
            settings_open: false,
        }
    }

    fn open(&mut self, path: String) -> (r: Action)
        ensures
            final(self)@ == opened(old(self)@, path@),
            r == Action::Parse(path),
    {
        let p = path.clone();
        self.file_path = Some(path);
        add_recent_file(&mut self.recent_files, p);
        self.error = None;
        Action::Parse(self.file_path.clone().unwrap())
    }
}

/// Applies an event to the session and says what outside work follows.
pub fn update(state: &mut State, message: Message) -> (r: Action)
    ensures
        match message {
            Message::OpenFileDialog => final(state)@ == old(state)@ && r == Action::OpenFileDialog,
            Message::FileSelected(None) => final(state)@ == old(state)@ && r == Action::Nothing,
            Message::FileSelected(Some(p)) => final(state)@ == opened(old(state)@, p@) && r
                == Action::Parse(p),
            Message::SelectRecentFile { path, exists } => if exists {
                final(state)@ == opened(old(state)@, path@) && r == Action::Parse(path)
            } else {
                final(state)@ == (StateView {
                    error: Some("File no longer exists"@),
                    recent_files: without(old(state)@.recent_files, path@),
                    ..old(state)@
                }) && r == Action::SaveRecentFiles
            },
            Message::MetadataParsed(Ok(m)) => final(state)@ == (StateView {
                metadata: Some(m@),
                error: None,
                ..old(state)@
            }) && r == Action::Nothing,
            Message::MetadataParsed(Err(e)) => final(state)@ == (StateView {
                metadata: None,
                error: Some(error_message(e@)),
                ..old(state)@
            }) && r == Action::Nothing,
            Message::ToggleSettings => final(state)@ == (StateView {
                settings_open: !old(state)@.settings_open,
                ..old(state)@
            }) && r == Action::Nothing,
            Message::ThemeChanged(t) => final(state)@ == (StateView { theme: t, ..old(state)@ })
                && r == Action::SaveSettings,
            Message::ZoomIncrease => final(state)@ == (StateView {
                zoom_tenths: zoom_in(old(state)@.zoom_tenths),
                ..old(state)@
            }) && r == Action::SaveSettings,
            Message::ZoomDecrease => final(state)@ == (StateView {
                zoom_tenths: zoom_out(old(state)@.zoom_tenths),
                ..old(state)@
            }) && r == Action::SaveSettings,
        },
{
    match message {
        Message::OpenFileDialog => Action::OpenFileDialog,
        Message::FileSelected(None) => Action::Nothing,
        Message::FileSelected(Some(p)) => state.open(p),
        Message::SelectRecentFile { path, exists } => {
            if exists {
                state.open(path)
            } else {
                state.error = Some(String::from_str("File no longer exists"));
                remove_recent_file(&mut state.recent_files, path.as_str());
                Action::SaveRecentFiles
            }
        },
        Message::MetadataParsed(Ok(m)) => {
            state.metadata = Some(m);
            state.error = None;
            Action::Nothing
        },
        Message::MetadataParsed(Err(e)) => {
            state.error = Some(e.message());
            state.metadata = None;
            Action::Nothing
        },
        Message::ToggleSettings => {
            state.settings_open = !state.settings_open;
            Action::Nothing
        },
        Message::ThemeChanged(t) => {
            state.theme = t;
            Action::SaveSettings
        },
        Message::ZoomIncrease => {
            state.zoom_tenths = if state.zoom_tenths >= MAX_ZOOM_TENTHS {
                MAX_ZOOM_TENTHS
            } else {
                state.zoom_tenths + 1
            };
            Action::SaveSettings
        },
        Message::ZoomDecrease => {
            state.zoom_tenths = if state.zoom_tenths <= MIN_ZOOM_TENTHS {
                MIN_ZOOM_TENTHS
            } else {
                state.zoom_tenths - 1
            };
            Action::SaveSettings
        },
    }
}

} // verus!
