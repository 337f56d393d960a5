//! Scrollback state for one pane of container logs.
//!
//! `LogView` keeps a bounded buffer of log entries (the same
//! eviction rule as the collection engine, [`crate::watcher::push_evict`]),
//! a scroll position that always stays inside the buffer, and a follow
//! flag: while following, every new entry snaps the view to the bottom,
//! and any manual scroll turns following off.

use std::collections::VecDeque;
use vstd::prelude::*;

use crate::watcher::push_evict;

verus! {

/// Severity attached to a log entry.
pub enum LogLevel {
    Info,
    Warning,
    Error,
    Debug,
}

pub struct LogEntry {
    /// Wall-clock milliseconds at which the entry was recorded.
    pub timestamp_ms: u64,
    pub message: String,
    pub level: LogLevel,
}

/// What a log entry says, apart from when it was recorded.
pub ghost struct LogEntryView {
    pub message: Seq<char>,
    pub level: LogLevel,
}

/// The abstract state of a log view.
pub ghost struct LogViewView {
    pub entries: Seq<LogEntryView>,
    pub cap: nat,
    pub scroll: nat,
    pub follow: bool,
}

pub struct LogView {
    logs: VecDeque<LogEntry>,
    max_logs: usize,
    scroll_position: usize,
    follow_mode: bool,
}

impl View for LogView {
    type V = LogViewView;

    closed spec fn view(&self) -> LogViewView {
        LogViewView {
            entries: self.logs@.map_values(
                |e: LogEntry| LogEntryView { message: e.message@, level: e.level },
            ),
            cap: self.max_logs as nat,
            scroll: self.scroll_position as nat,
            follow: self.follow_mode,
        }
    }
}

impl LogView {
    /// The buffer stays within capacity and the scroll position inside the
    /// buffer (position zero when it is empty).
    pub open spec fn wf(self) -> bool {
        &&& self@.entries.len() <= self@.cap
        &&& (self@.entries.len() == 0 ==> self@.scroll == 0)
        &&& (self@.entries.len() > 0 ==> self@.scroll < self@.entries.len())
    }

    /// An empty view in follow mode.
    pub fn new(max_logs: usize) -> (r: Self)
        ensures
            r@.entries =~= Seq::<LogEntryView>::empty(),
            r@.cap == max_logs as nat,
            r@.scroll == 0,
            r@.follow,
            r.wf(),
    {
        let r = Self {
            logs: VecDeque::with_capacity(max_logs),
            max_logs,
            scroll_position: 0,
            follow_mode: true,
        };
        assert(r@.entries =~= Seq::<LogEntryView>::empty());
        r
    }

    /// Record one entry, evicting the oldest at capacity.  While following,
    /// the scroll position snaps to the newest entry; otherwise it is only
    /// clamped back into the buffer.
    pub fn add_log(&mut self, message: String, level: LogLevel)
        requires
            old(self).wf(),
        ensures
            final(self).wf(),
            final(self)@.entries =~= push_evict(
                old(self)@.entries,
                old(self)@.cap,
                (LogEntryView { message: message@, level }),
            ),
            final(self)@.cap == old(self)@.cap,
            final(self)@.follow == old(self)@.follow,
            old(self)@.follow && final(self)@.entries.len() > 0 ==> final(self)@.scroll
                == final(self)@.entries.len() - 1,
    {
        let entry = LogEntry { timestamp_ms: crate::clock::now_millis(), message, level };
        self.logs.push_back(entry);
        if self.logs.len() > self.max_logs {
            self.logs.pop_front();
        }
        if self.follow_mode {
            self.scroll_to_bottom();
        }
        assert(self@.entries =~= push_evict(
            old(self)@.entries,
            old(self)@.cap,
            (LogEntryView { message: message@, level }),
        ));
    }

    /// One line up; turns follow mode off.  At the top nothing moves.
    pub fn scroll_up(&mut self)
        requires
            old(self).wf(),
        ensures
            final(self).wf(),
            final(self)@.entries == old(self)@.entries,
            final(self)@.cap == old(self)@.cap,
            final(self)@.scroll == if old(self)@.scroll > 0 {
                old(self)@.scroll - 1
            } else {
                0
            },
            old(self)@.scroll > 0 ==> !final(self)@.follow,
            old(self)@.scroll == 0 ==> final(self)@.follow == old(self)@.follow,
    {
        if self.scroll_position > 0 {
            self.scroll_position -= 1;
            self.follow_mode = false;
        }
    }

    /// One line down; turns follow mode off.  At the bottom nothing moves.
    pub fn scroll_down(&mut self)
        requires
            old(self).wf(),
        ensures
            final(self).wf(),
            final(self)@.entries == old(self)@.entries,
            final(self)@.cap == old(self)@.cap,
            final(self)@.scroll == if old(self)@.scroll + 1 < old(self)@.entries.len() {
                old(self)@.scroll + 1
            } else {
                old(self)@.scroll
            },
            old(self)@.scroll + 1 < old(self)@.entries.len() ==> !final(self)@.follow,
            !(old(self)@.scroll + 1 < old(self)@.entries.len()) ==> final(self)@.follow == old(
                self,
            )@.follow,
    {
        let len = self.logs.len();
        if len > 0 && self.scroll_position < len - 1 {
            self.scroll_position += 1;
            self.follow_mode = false;
        }
    }

    /// One page up (a page is `visible_height` lines); stops at the top
    /// and turns follow mode off.
    pub fn page_up(&mut self, visible_height: usize)
        requires
            old(self).wf(),
        ensures
            final(self).wf(),
            final(self)@.entries == old(self)@.entries,
            final(self)@.cap == old(self)@.cap,
            !final(self)@.follow,
            final(self)@.scroll == if old(self)@.scroll > visible_height {
                old(self)@.scroll - visible_height
            } else {
                0
            },
    {
        if self.scroll_position > visible_height {
            self.scroll_position -= visible_height;
        } else {
            self.scroll_position = 0;
        }
        self.follow_mode = false;
    }

    /// One page down; stops at the newest entry and turns follow mode off.
    pub fn page_down(&mut self, visible_height: usize)
        requires
            old(self).wf(),
        ensures
            final(self).wf(),
            final(self)@.entries == old(self)@.entries,
            final(self)@.cap == old(self)@.cap,
            !final(self)@.follow,
            final(self)@.scroll == if old(self)@.entries.len() == 0 {
                0nat
            } else if old(self)@.scroll + visible_height < old(self)@.entries.len() {
                (old(self)@.scroll + visible_height) as nat
            } else {
                (old(self)@.entries.len() - 1) as nat
            },
    {
        let len = self.logs.len();
        let max_scroll = if len == 0 {
            0
        } else {
            len - 1
        };
        if visible_height < max_scroll && self.scroll_position < max_scroll - visible_height {
            self.scroll_position += visible_height;
        } else {
            self.scroll_position = max_scroll;
        }
        self.follow_mode = false;
    }

    /// Turn follow mode back on and snap to the newest entry.
    pub fn enable_follow(&mut self)
        requires
            old(self).wf(),
        ensures
            final(self).wf(),
            final(self)@.entries == old(self)@.entries,
            final(self)@.cap == old(self)@.cap,
            final(self)@.follow,
            final(self)@.scroll == if old(self)@.entries.len() == 0 {
                0nat
            } else {
                (old(self)@.entries.len() - 1) as nat
            },
    {
        self.follow_mode = true;
        self.scroll_to_bottom();
    }

    /// Snap to the newest entry (position zero when there is none).
    pub fn scroll_to_bottom(&mut self)
        requires
            old(self).wf(),
        ensures
            final(self).wf(),
            final(self)@.entries == old(self)@.entries,
            final(self)@.cap == old(self)@.cap,
            final(self)@.follow == old(self)@.follow,
            final(self)@.scroll == if old(self)@.entries.len() == 0 {
                0nat
            } else {
                (old(self)@.entries.len() - 1) as nat
            },
    {
        let len = self.logs.len();
        self.scroll_position = if len == 0 {
            0
        } else {
            len - 1
        };
    }

    /// Snap to the oldest entry.
    pub fn scroll_to_top(&mut self)
        requires
            old(self).wf(),
        ensures
            final(self).wf(),
            final(self)@.entries == old(self)@.entries,
            final(self)@.cap == old(self)@.cap,
            final(self)@.follow == old(self)@.follow,
            final(self)@.scroll == 0,
    {
        self.scroll_position = 0;
    }

    /// The current scroll position.
    pub fn get_scroll_position(&mut self) -> (r: usize)
        ensures
            *final(self) == *old(self),
            r as nat == final(self)@.scroll,
    {
        self.scroll_position
    }

    /// How many entries the buffer holds.
    pub fn get_log_count(&self) -> (r: usize)
        ensures
            r as nat == self@.entries.len(),
    {
        self.logs.len()
    }

    /// Move to `position`, clamped to the newest entry.
    pub fn set_scroll_position(&mut self, position: usize)
        requires
            old(self).wf(),
        ensures
            final(self).wf(),
            final(self)@.entries == old(self)@.entries,
            final(self)@.cap == old(self)@.cap,
            final(self)@.follow == old(self)@.follow,
            final(self)@.scroll == if old(self)@.entries.len() == 0 {
                0nat
            } else if position < old(self)@.entries.len() {
                position as nat
            } else {
                (old(self)@.entries.len() - 1) as nat
            },
    {
        let len = self.logs.len();
        let max_scroll = if len == 0 {
            0
        } else {
            len - 1
        };
        self.scroll_position = if position < max_scroll {
            position
        } else {
            max_scroll
        };
    }
}

} // verus!
