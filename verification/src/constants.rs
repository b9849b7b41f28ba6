//! Limits and defaults shared by the engine and its front ends.

use vstd::prelude::*;

verus! {

/// Entries loaded when a space is first shown.
pub const DEFAULT_ENTRY_LIMIT: usize = 100;

/// Spaces that one environment is opened for.
pub const MAX_DATABASES: u32 = 128;

/// Milliseconds the foreground waits for an input event.
pub const EVENT_POLL_TIMEOUT_MS: u64 = 200;

/// Entries in one page of results.
pub const DEFAULT_PAGE_SIZE: usize = 100;

/// Share of the screen, in percent, taken by the help popup.
pub const HELP_POPUP_PERCENTAGE: u16 = 60;

/// Width of a dialog popup, in percent of the screen.
pub const DIALOG_POPUP_WIDTH_PERCENTAGE: u16 = 70;

/// Height of a dialog popup, in percent of the screen.
pub const DIALOG_POPUP_HEIGHT_PERCENTAGE: u16 = 70;

/// Entries kept in the jump history.
pub const MAX_JUMP_HISTORY: usize = 50;

/// Seconds within which repeated file events count as one.
pub const FILE_WATCH_DEBOUNCE_SECS: u64 = 1;

} // verus!
