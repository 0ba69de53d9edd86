//! Foreground window state carried inside the snapshot: the current
//! call and debug-logger popout windows, toast notifications, and window
//! metadata. Window ids are the host shell's numeric identifiers.

use vstd::prelude::*;

verus! {

/// Counters of pending notifications shown by the shell.
#[derive(Clone, Copy, PartialEq, Eq, Structural, Debug)]
pub struct Notifications {
    pub friends: u32,
    pub messages: u32,
}

/// Window metadata the shell reports.
#[derive(Clone, Copy, PartialEq, Eq, Structural, Debug)]
pub struct WindowMeta {
    pub focused: bool,
    pub maximized: bool,
    pub minimized: bool,
    pub width: u32,
    pub height: u32,
    /// Detects mobile or portrait mode.
    pub minimal_view: bool,
}

/// State of the current call and its popout media-player window.
#[derive(Clone, Copy, PartialEq, Eq, Structural, Debug)]
pub struct Call {
    /// The window displaying the call's video stream, if popped out.
    pub popout_window_id: Option<u64>,
    pub muted: bool,
    pub silenced: bool,
}

impl Call {
    pub fn new(popout_window_id: Option<u64>) -> (r: Call)
        ensures
            r == (Call { popout_window_id, muted: false, silenced: false }),
    {
        Call { popout_window_id, muted: false, silenced: false }
    }

    /// Hands the popout window id out, leaving none behind.
    pub fn take_window_id(&mut self) -> (r: Option<u64>)
        ensures
            r == old(self).popout_window_id,
            *final(self) == (Call { popout_window_id: None, ..*old(self) }),
    {
        let id = self.popout_window_id;
        self.popout_window_id = None;
        id
    }
}

/// State of the debug-logger window.
#[derive(Clone, Copy, PartialEq, Eq, Structural, Debug)]
pub struct DebugLogger {
    pub debug_logger_window_id: Option<u64>,
}

impl DebugLogger {
    pub fn new(popout_window_id: Option<u64>) -> (r: DebugLogger)
        ensures
            r == (DebugLogger { debug_logger_window_id: popout_window_id }),
    {
        DebugLogger { debug_logger_window_id: popout_window_id }
    }

    /// Hands the window id out, leaving none behind.
    pub fn take_window_id(&mut self) -> (r: Option<u64>)
        ensures
            r == old(self).debug_logger_window_id,
            *final(self) == (DebugLogger { debug_logger_window_id: None }),
    {
        let id = self.debug_logger_window_id;
        self.debug_logger_window_id = None;
        id
    }
}

/// A transient toast notification with a countdown.
#[derive(Clone, Debug)]
pub struct ToastNotification {
    pub title: String,
    pub content: String,
    pub initial_time: u32,
    pub remaining_time: u32,
}

impl ToastNotification {
    pub fn init(title: String, content: String, icon: Option<bool>, timeout: u32) -> (r:
        ToastNotification)
        ensures
            r.title == title,
            r.content == content,
            r.initial_time == timeout,
            r.remaining_time == timeout,
    {
        let _ = icon;
        ToastNotification { title, content, initial_time: timeout, remaining_time: timeout }
    }

    pub fn remaining_time(&self) -> (r: u32)
        ensures
            r == self.remaining_time,
    {
        self.remaining_time
    }

    /// Restarts the countdown at the original timeout.
    pub fn reset_time(&mut self)
        ensures
            final(self).remaining_time == old(self).initial_time,
            final(self).initial_time == old(self).initial_time,
            final(self).title == old(self).title,
            final(self).content == old(self).content,
    {
        self.remaining_time = self.initial_time;
    }

    /// Counts one second down, stopping at zero.
    pub fn decrement_time(&mut self)
        ensures
            final(self).remaining_time == (if old(self).remaining_time > 0 {
                (old(self).remaining_time - 1) as u32
            } else {
                0u32
            }),
            final(self).initial_time == old(self).initial_time,
            final(self).title == old(self).title,
            final(self).content == old(self).content,
    {
        if self.remaining_time > 0 {
            self.remaining_time = self.remaining_time - 1;
        }
    }
}

/// A visual theme.
#[derive(Clone, Debug)]
pub struct Theme {
    pub filename: String,
    pub name: String,
    pub styles: String,
}

/// The foreground window state.
#[derive(Debug)]
pub struct UI {
    pub notifications: Notifications,
    /// The current call, if one is ongoing.
    pub current_call: Option<Call>,
    pub current_debug_logger: Option<DebugLogger>,
    /// False: the media player is anchored in place; true: it can move
    /// around in its own window.
    pub popout_player: bool,
    pub toast_notifications: Vec<(u128, ToastNotification)>,
    pub theme: Option<Theme>,
    pub enable_overlay: bool,
    pub sidebar_hidden: bool,
    pub metadata: WindowMeta,
}

impl UI {
    /// Takes the popout player's window id, anchoring the player again.
    fn take_popout_id(&mut self) -> (r: Option<u64>)
        ensures
            !final(self).popout_player,
            match old(self).current_call {
                Some(c) => r == c.popout_window_id && final(self).current_call == Some(
                    Call { popout_window_id: None, ..c },
                ),
                None => r is None && final(self).current_call == old(self).current_call,
            },
    {
        self.popout_player = false;
        match self.current_call.take() {
            Some(mut call) => {
                let id = call.take_window_id();
                self.current_call = Some(call);
                id
            }
            None => None,
        }
    }

    /// Takes the debug logger's window id and drops the logger.
    fn take_debug_logger_id(&mut self) -> (r: Option<u64>)
        ensures
            final(self).current_debug_logger is None,
            match old(self).current_debug_logger {
                Some(d) => r == d.debug_logger_window_id,
                None => r is None,
            },
    {
        match self.current_debug_logger.take() {
            Some(mut debug_logger) => debug_logger.take_window_id(),
            None => None,
        }
    }

    pub fn get_meta(&self) -> (r: WindowMeta)
        ensures
            r == self.metadata,
    {
        self.metadata
    }

    pub fn is_minimal_view(&self) -> (r: bool)
        ensures
            r == self.metadata.minimal_view,
    {
        self.metadata.minimal_view
    }

    /// Ends the popout player; the returned window id, if any, is for
    /// the shell to close.
    pub fn clear_popout(&mut self) -> (close: Option<u64>)
        ensures
            !final(self).popout_player,
            match old(self).current_call {
                Some(c) => close == c.popout_window_id && final(self).current_call == Some(
                    Call { popout_window_id: None, ..c },
                ),
                None => close is None && final(self).current_call == old(self).current_call,
            },
    {
        self.take_popout_id()
    }

    /// Starts a call popped out into window `id`.
    pub fn set_popout(&mut self, id: u64)
        ensures
            final(self).current_call == Some(
                Call { popout_window_id: Some(id), muted: false, silenced: false },
            ),
            final(self).popout_player,
    {
        self.current_call = Some(Call::new(Some(id)));
        self.popout_player = true;
    }

    /// Opens the debug logger in window `id`.
    pub fn set_debug_logger(&mut self, id: u64)
        ensures
            final(self).current_debug_logger == Some(
                DebugLogger { debug_logger_window_id: Some(id) },
            ),
    {
        self.current_debug_logger = Some(DebugLogger::new(Some(id)));
    }

    /// Closes the debug logger; the returned window id, if any, is for
    /// the shell to close.
    pub fn clear_debug_logger(&mut self) -> (close: Option<u64>)
        ensures
            final(self).current_debug_logger is None,
            match old(self).current_debug_logger {
                Some(d) => close == d.debug_logger_window_id,
                None => close is None,
            },
    {
        self.take_debug_logger_id()
    }

    /// Flips the current call's mute flag, if a call is ongoing.
    pub fn toggle_muted(&mut self)
        ensures
            match old(self).current_call {
                Some(c) => final(self).current_call == Some(Call { muted: !c.muted, ..c }),
                None => final(self).current_call is None,
            },
            final(self).current_debug_logger == old(self).current_debug_logger,
            final(self).popout_player == old(self).popout_player,
            final(self).metadata == old(self).metadata,
    {
        match self.current_call {
            Some(mut c) => {
                c.muted = !c.muted;
                self.current_call = Some(c);
            }
            None => {}
        }
    }

    /// Flips the current call's silence flag, if a call is ongoing.
    pub fn toggle_silenced(&mut self)
        ensures
            match old(self).current_call {
                Some(c) => final(self).current_call == Some(Call { silenced: !c.silenced, ..c }),
                None => final(self).current_call is None,
            },
            final(self).current_debug_logger == old(self).current_debug_logger,
            final(self).popout_player == old(self).popout_player,
            final(self).metadata == old(self).metadata,
    {
        match self.current_call {
            Some(mut c) => {
                c.silenced = !c.silenced;
                self.current_call = Some(c);
            }
            None => {}
        }
    }
}

} // verus!
