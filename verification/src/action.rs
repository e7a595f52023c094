//! User intents produced by key bindings, mouse clicks and media keys.
use vstd::prelude::*;

verus! {

/// Direction of a list movement.
#[derive(PartialEq, Eq, Structural, Clone, Copy, Debug)]
pub enum Direction {
    Up,
    Down,
    /// `g`
    Top,
    /// `G`
    Bottom,
}

/// Everything the interface can be asked to do.
#[derive(PartialEq, Eq, Structural, Clone, Copy, Debug)]
pub enum Action {
    Navigate(Direction),
    Select,
    Back,
    /// Cycle tabs forward (Tab key).
    SwitchTab,
    /// Cycle tabs backward (Backtick / Shift+Tab).
    SwitchTabReverse,
    /// Jump directly to the Home tab.
    GoToHome,
    /// Jump directly to the Browser tab.
    GoToBrowser,
    /// Jump directly to the NowPlaying tab.
    GoToNowPlaying,
    FocusLeft,
    FocusRight,
    AddToQueue,
    AddAllToQueue,
    PlayPause,
    NextTrack,
    PrevTrack,
    VolumeUp,
    VolumeDown,
    ClearQueue,
    Shuffle,
    Unshuffle,
    SeekForward,
    SeekBackward,
    /// Seek to an exact position in milliseconds (progress-bar clicks).
    SeekTo(u64),
    SearchStart,
    SearchInput(char),
    SearchBackspace,
    SearchConfirm,
    SearchCancel,
    /// Toggle dynamic accent colour extraction from album art.
    ToggleDynamicTheme,
    /// Toggle the lyrics overlay on the NowPlaying tab.
    ToggleLyrics,
    /// Toggle the spectrum visualizer overlay on the NowPlaying tab.
    ToggleVisualizer,
    /// Toggle the keybind reference popup.
    ToggleHelp,
    /// Next section on the Home tab.
    HomeSectionNext,
    /// Previous section on the Home tab.
    HomeSectionPrev,
    /// Refresh Home tab data.
    HomeRefresh,
    /// Art strip: previous album.
    HomeAlbumLeft,
    /// Art strip: next album.
    HomeAlbumRight,
    /// Replace the queue with the selected strip album.
    HomeAlbumPlay,
    /// Append the selected strip album to the queue.
    HomeAlbumAddToQueue,
    /// Toggle the playlist browser overlay.
    TogglePlaylistOverlay,
    PlaylistScrollUp,
    PlaylistScrollDown,
    PlaylistFocusTracks,
    PlaylistFocusList,
    PlaylistPlayAll,
    PlaylistAppendAll,
    PlaylistPlayTrack,
    PlaylistAppendTrack,
    PlaylistCreate,
    PlaylistDelete,
    PlaylistRename,
    PlaylistRemoveTrack,
    BrowserAddToPlaylist,
    PlaylistPickerSelect,
    PlaylistPickerCancel,
    PlaylistPickerScrollUp,
    PlaylistPickerScrollDown,
    PlaylistInputConfirm,
    PlaylistInputCancel,
    PlaylistInputChar(char),
    PlaylistConfirmYes,
    PlaylistConfirmNo,
    Quit,
    /// No action (an unbound key).
    NoOp,
}

} // verus!
