//! The append-only message log with severities and a scrolling viewport:
//! appends snap the view to the newest message, manual scrolling holds
//! until the next append.

use vstd::prelude::*;

verus! {

#[derive(Clone, Debug, PartialEq, Eq, Structural)]
pub enum MessageType {
    Info,
    Warning,
    Error,
}

#[derive(Debug)]
pub struct AppMessage {
    pub text: String,
    pub msg_type: MessageType,
}

/// The log: messages never leave it but by an explicit clear; the scroll
/// position never runs past the last window.
#[derive(Debug)]
pub struct OutputLog {
    pub messages: Vec<AppMessage>,
    pub scroll_position: usize,
    pub window_height: usize,
}

impl OutputLog {
    /// How far the log can scroll: past that, the last window is empty.
    pub open spec fn spec_max_scroll(&self) -> int {
        if self.messages@.len() >= self.window_height {
            self.messages@.len() - self.window_height
        } else {
            0
        }
    }

    pub open spec fn wf(&self) -> bool {
        self.window_height >= 1
    }

    pub fn new() -> (r: Self)
        ensures
            r.messages@.len() == 0,
            r.scroll_position == 0,
            r.window_height == 1,
            r.wf(),
    {
        OutputLog { messages: Vec::new(), scroll_position: 0, window_height: 1 }
    }

    /// Removes every message and rewinds the view.
    pub fn clear(&mut self)
        ensures
            final(self).messages@.len() == 0,
            final(self).scroll_position == 0,
            final(self).window_height == old(self).window_height,
    {
        self.messages.clear();
        self.scroll_position = 0;
    }

    /// Sets the visible height (two rows go to the frame), clamping the
    /// scroll position to the new bounds.
    pub fn set_window_height(&mut self, height: usize)
        ensures
            final(self).window_height == if height >= 3 {
                height - 2
            } else {
                1
            },
            final(self).messages@ == old(self).messages@,
            final(self).scroll_position == if old(self).scroll_position
                <= final(self).spec_max_scroll() {
                old(self).scroll_position as int
            } else {
                final(self).spec_max_scroll()
            },
            final(self).wf(),
    {
        let inner = if height >= 2 {
            height - 2
        } else {
            0
        };
        self.window_height = if inner >= 1 {
            inner
        } else {
            1
        };
        self.clamp_scroll();
    }

    fn clamp_scroll(&mut self)
        ensures
            final(self).messages@ == old(self).messages@,
            final(self).window_height == old(self).window_height,
            final(self).scroll_position == if old(self).scroll_position <= old(
                self,
            ).spec_max_scroll() {
                old(self).scroll_position as int
            } else {
                old(self).spec_max_scroll()
            },
    {
        let len = self.messages.len();
        let max_scroll = if len >= self.window_height {
            len - self.window_height
        } else {
            0
        };
        if self.scroll_position > max_scroll {
            self.scroll_position = max_scroll;
        }
    }

    /// Manual scroll toward older messages.
    pub fn scroll_up(&mut self, lines: usize)
        ensures
            final(self).messages@ == old(self).messages@,
            final(self).window_height == old(self).window_height,
            final(self).scroll_position == if old(self).scroll_position >= lines {
                old(self).scroll_position - lines
            } else {
                0
            },
    {
        if self.scroll_position >= lines {
            self.scroll_position = self.scroll_position - lines;
        } else {
            self.scroll_position = 0;
        }
    }

    /// Manual scroll toward newer messages, stopping at the last window.
    pub fn scroll_down(&mut self, lines: usize)
        ensures
            final(self).messages@ == old(self).messages@,
            final(self).window_height == old(self).window_height,
            final(self).scroll_position == if old(self).scroll_position + lines <= old(
                self,
            ).spec_max_scroll() {
                old(self).scroll_position + lines
            } else {
                old(self).spec_max_scroll()
            },
    {
        let len = self.messages.len();
        let max_scroll = if len >= self.window_height {
            len - self.window_height
        } else {
            0
        };
        if self.scroll_position >= max_scroll {
            self.scroll_position = max_scroll;
        } else if max_scroll - self.scroll_position >= lines {
            self.scroll_position = self.scroll_position + lines;
        } else {
            self.scroll_position = max_scroll;
        }
    }

    /// Snaps the view to the newest message.
    pub fn scroll_to_bottom(&mut self)
        ensures
            final(self).messages@ == old(self).messages@,
            final(self).window_height == old(self).window_height,
            final(self).scroll_position == final(self).spec_max_scroll(),
    {
        let len = self.messages.len();
        self.scroll_position = if len >= self.window_height {
            len - self.window_height
        } else {
            0
        };
    }

    fn append_message(&mut self, message: String, msg_type: MessageType)
        ensures
            final(self).messages@.len() == old(self).messages@.len() + 1,
            final(self).messages@.last().text == message,
            final(self).messages@.last().msg_type == msg_type,
            final(self).messages@.take(old(self).messages@.len() as int) == old(self).messages@,
            final(self).window_height == old(self).window_height,
            final(self).scroll_position == final(self).spec_max_scroll(),
    {
        self.messages.push(AppMessage { text: message, msg_type });
        self.scroll_to_bottom();
        proof {
            assert(self.messages@.take(old(self).messages@.len() as int) =~= old(self).messages@);
        }
    }

    /// Appends an informational message and snaps the view to it.
    pub fn info(&mut self, message: String)
        ensures
            final(self).messages@.len() == old(self).messages@.len() + 1,
            final(self).messages@.last().text == message,
            final(self).messages@.last().msg_type == MessageType::Info,
            final(self).messages@.take(old(self).messages@.len() as int) == old(self).messages@,
            final(self).window_height == old(self).window_height,
            final(self).scroll_position == final(self).spec_max_scroll(),
    {
        self.append_message(message, MessageType::Info);
    }

    /// Appends a warning and snaps the view to it.
    pub fn warn(&mut self, message: String)
        ensures
            final(self).messages@.len() == old(self).messages@.len() + 1,
            final(self).messages@.last().text == message,
            final(self).messages@.last().msg_type == MessageType::Warning,
            final(self).messages@.take(old(self).messages@.len() as int) == old(self).messages@,
            final(self).window_height == old(self).window_height,
            final(self).scroll_position == final(self).spec_max_scroll(),
    {
        self.append_message(message, MessageType::Warning);
    }

    /// Appends an error message and snaps the view to it.
    pub fn error(&mut self, message: String)
        ensures
            final(self).messages@.len() == old(self).messages@.len() + 1,
            final(self).messages@.last().text == message,
            final(self).messages@.last().msg_type == MessageType::Error,
            final(self).messages@.take(old(self).messages@.len() as int) == old(self).messages@,
            final(self).window_height == old(self).window_height,
            final(self).scroll_position == final(self).spec_max_scroll(),
    {
        self.append_message(message, MessageType::Error);
    }
}

impl Default for OutputLog {
    fn default() -> (r: Self)
        ensures
            r.messages@.len() == 0,
            r.scroll_position == 0,
            r.window_height == 1,
    {
        OutputLog::new()
    }
}

} // verus!
