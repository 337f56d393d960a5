//! Modal interaction state: the mode itself, the visual-mode selection,
//! the command-line editor with its history, and the search state.
//!
//! Key presses reach `CommandState::handle_key` as plain
//! [`KeyInput`] values; decoding terminal events into them is the
//! caller's job.

use std::collections::HashSet;
use vstd::prelude::*;

use crate::text::push_char;

verus! {

broadcast use vstd::std_specs::hash::group_hash_axioms;

/// How many commands the history keeps before the oldest is dropped.
pub const MAX_COMMAND_HISTORY: usize = 100;

#[derive(Debug, Clone, PartialEq, Eq, Structural)]
pub enum Mode {
    Normal,
    Visual,
    Command,
    Search,
}

impl Mode {
    /// The label shown for the mode in the status line.
    pub fn display_name(&self) -> (r: &'static str)
        ensures
            r@ == match self {
                Mode::Normal => "NORMAL"@,
                Mode::Visual => "VISUAL"@,
                Mode::Command => "COMMAND"@,
                Mode::Search => "SEARCH"@,
            },
    {
        match self {
            Mode::Normal => "NORMAL",
            Mode::Visual => "VISUAL",
            Mode::Command => "COMMAND",
            Mode::Search => "SEARCH",
        }
    }
}

/// The set of positions from `lo` through `hi`, both included.
pub open spec fn index_range(lo: usize, hi: usize) -> Set<usize> {
    Set::new(|j: usize| lo <= j <= hi)
}

/// The anchored selection of visual mode: every position between the
/// anchor and the cursor, both included, is selected.
#[derive(Debug)]
pub struct VisualSelection {
    pub start_index: usize,
    pub current_index: usize,
    pub selected_indices: HashSet<usize>,
}

impl VisualSelection {
    /// The selected set is exactly the span between anchor and cursor.
    pub open spec fn wf(self) -> bool {
        self.selected_indices@ == index_range(
            vstd::math::min(self.start_index as int, self.current_index as int) as usize,
            vstd::math::max(self.start_index as int, self.current_index as int) as usize,
        )
    }

    /// A selection of just the anchor position.
    pub fn new(start_index: usize) -> (r: Self)
        ensures
            r.start_index == start_index,
            r.current_index == start_index,
            r.selected_indices@ == index_range(start_index, start_index),
            r.wf(),
    {
        let mut selected_indices = HashSet::new();
        selected_indices.insert(start_index);
        let r = Self { start_index, current_index: start_index, selected_indices };
        proof {
            assert(r.selected_indices@ =~= index_range(start_index, start_index));
        }
        r
    }

    /// Move the cursor to `index` and select the whole span between the
    /// anchor and it.
    pub fn extend_to(&mut self, index: usize)
        ensures
            final(self).start_index == old(self).start_index,
            final(self).current_index == index,
            final(self).selected_indices@ == index_range(
                vstd::math::min(old(self).start_index as int, index as int) as usize,
                vstd::math::max(old(self).start_index as int, index as int) as usize,
            ),
            final(self).wf(),
    {
        self.current_index = index;
        self.selected_indices = HashSet::new();
        let lo = if self.start_index < index {
            self.start_index
        } else {
            index
        };
        let hi = if self.start_index < index {
            index
        } else {
            self.start_index
        };
        let mut i = lo;
        while i < hi
            invariant
                lo <= i <= hi,
                self.start_index == old(self).start_index,
                self.current_index == index,
                self.selected_indices@ == Set::new(|j: usize| lo <= j < i),
            decreases hi - i,
        {
            self.selected_indices.insert(i);
            proof {
                assert(self.selected_indices@ =~= Set::new(|j: usize| lo <= j < i + 1));
            }
            i += 1;
        }
        self.selected_indices.insert(hi);
        proof {
            assert(self.selected_indices@ =~= index_range(lo, hi));
        }
    }

    /// Whether `index` lies in the selected span.
    pub fn is_selected(&self, index: usize) -> (r: bool)
        ensures
            r == self.selected_indices@.contains(index),
    {
        self.selected_indices.contains(&index)
    }
}

/// The command-line editor: the text being typed, the cursor inside it
/// (as a character position), and the history of submitted commands.
#[derive(Debug, Clone)]
pub struct CommandState {
    pub input: String,
    pub cursor_pos: usize,
    pub history: Vec<String>,
    pub history_index: Option<usize>,
}

impl CommandState {
    /// The cursor always sits inside or just past the input, and a history
    /// cursor always points at an entry.
    pub open spec fn wf(self) -> bool {
        &&& self.cursor_pos <= self.input@.len()
        &&& match self.history_index {
            Some(i) => i < self.history@.len(),
            None => true,
        }
    }

    /// Empty input, no history.
    pub fn new() -> (r: Self)
        ensures
            r.input@.len() == 0,
            r.cursor_pos == 0,
            r.history@.len() == 0,
            r.history_index is None,
            r.wf(),
    {
        Self { input: String::new(), cursor_pos: 0, history: Vec::new(), history_index: None }
    }

    /// Clear the input line; the history itself is kept.
    pub fn clear(&mut self)
        ensures
            final(self).input@.len() == 0,
            final(self).cursor_pos == 0,
            final(self).history == old(self).history,
            final(self).history_index is None,
            final(self).wf(),
    {
        self.input = String::new();
        self.cursor_pos = 0;
        self.history_index = None;
    }

    fn history_holds(&self, command: &String) -> (r: bool)
        ensures
            r == exists|i: int| 0 <= i < self.history@.len() && self.history@[i]@ == command@,
    {
        let n = self.history.len();
        let mut i: usize = 0;
        while i < n
            invariant
                i <= n,
                n == self.history@.len(),
                forall|j: int| 0 <= j < i ==> self.history@[j]@ != command@,
            decreases n - i,
        {
            if self.history[i] == *command {
                return true;
            }
            i += 1;
        }
        false
    }

    /// Remember a submitted command.  Empty commands and commands already
    /// in the history are not recorded; past the history bound the oldest
    /// entry makes room.
    pub fn add_to_history(&mut self, command: String)
        requires
            old(self).wf(),
        ensures
            final(self).wf(),
            final(self).input == old(self).input,
            final(self).cursor_pos == old(self).cursor_pos,
            final(self).history_index == old(self).history_index,
            (command@.len() == 0 || exists|i: int|
                0 <= i < old(self).history@.len() && old(self).history@[i]@ == command@)
                ==> final(self).history == old(self).history,
            !(command@.len() == 0 || exists|i: int|
                0 <= i < old(self).history@.len() && old(self).history@[i]@ == command@) ==> {
                let grown = old(self).history@.push(command);
                final(self).history@ == if grown.len() > MAX_COMMAND_HISTORY {
                    grown.subrange(1, grown.len() as int)
                } else {
                    grown
                }
            },
    {
        if !command.as_str().is_empty() && !self.history_holds(&command) {
            self.history.push(command);
            if self.history.len() > MAX_COMMAND_HISTORY {
                self.history.remove(0);
            }
        }
    }

    /// How one history step relates the editor state before (`pre`) and
    /// after (`post`): `up` moves from the newest entry towards the
    /// oldest, `down` back towards fresh input.  The recalled entry
    /// replaces the input with the cursor at its end; stepping past the
    /// newest entry clears the line.
    pub open spec fn history_step(pre: CommandState, post: CommandState, up: bool) -> bool {
        &&& post.history == pre.history
        &&& (pre.history@.len() == 0 ==> post == pre)
        &&& (pre.history@.len() > 0 && up ==> match pre.history_index {
            None => post.history_index == Some((pre.history@.len() - 1) as usize) && post.input@
                == pre.history@.last()@,
            Some(i) => if i > 0 {
                post.history_index == Some((i - 1) as usize) && post.input@ == pre.history@[i
                    - 1]@
            } else {
                post.history_index == pre.history_index && post.input == pre.input
            },
        })
        &&& (pre.history@.len() > 0 && !up ==> match pre.history_index {
            Some(i) => if i + 1 < pre.history@.len() {
                post.history_index == Some((i + 1) as usize) && post.input@ == pre.history@[i
                    + 1]@
            } else {
                post.history_index is None && post.input@.len() == 0
            },
            None => post.history_index == pre.history_index && post.input == pre.input,
        })
        &&& (pre.history@.len() > 0 ==> post.cursor_pos == post.input@.len())
    }

    /// Step through the history; see [`CommandState::history_step`].
    pub fn navigate_history(&mut self, up: bool)
        requires
            old(self).wf(),
        ensures
            final(self).wf(),
            Self::history_step(*old(self), *final(self), up),
    {
        if self.history.is_empty() {
            return ;
        }
        if up {
            match self.history_index {
                None => {
                    let last = self.history.len() - 1;
                    self.history_index = Some(last);
                    self.input = self.history[last].clone();
                },
                Some(index) => {
                    if index > 0 {
                        self.history_index = Some(index - 1);
                        self.input = self.history[index - 1].clone();
                    }
                },
            }
        } else {
            match self.history_index {
                Some(index) => {
                    if index < self.history.len() - 1 {
                        self.history_index = Some(index + 1);
                        self.input = self.history[index + 1].clone();
                    } else {
                        self.history_index = None;
                        self.input = String::new();
                    }
                },
                None => {},
            }
        }
        self.cursor_pos = self.input.as_str().unicode_len();
    }
}


/// A decoded key press, as the command-line editor understands it.
/// Decoding the terminal's own event type into this is the caller's job.
#[derive(Debug, Clone, Copy, PartialEq, Eq, Structural)]
pub enum KeyInput {
    Char(char),
    Backspace,
    Delete,
    Left,
    Right,
    Home,
    End,
    Up,
    Down,
    Other,
}

impl CommandState {
    /// How one key press relates the editor state before (`pre`) and
    /// after (`post`), and whether it is consumed.  Printable characters
    /// go in at the cursor (a character position); control-modified
    /// characters and unknown keys are not consumed and change nothing.
    pub open spec fn key_step(
        pre: CommandState,
        post: CommandState,
        key: KeyInput,
        ctrl: bool,
        consumed: bool,
    ) -> bool {
        &&& post.history == pre.history
        &&& match key {
            KeyInput::Char(c) => if ctrl {
                !consumed && post == pre
            } else {
                &&& consumed
                &&& post.input@ =~= pre.input@.take(pre.cursor_pos as int).push(c)
                    + pre.input@.skip(pre.cursor_pos as int)
                &&& post.cursor_pos == pre.cursor_pos + 1
                &&& post.history_index is None
            },
            KeyInput::Backspace => consumed && if pre.cursor_pos > 0 {
                &&& post.input@ =~= pre.input@.take(pre.cursor_pos - 1)
                    + pre.input@.skip(pre.cursor_pos as int)
                &&& post.cursor_pos == pre.cursor_pos - 1
                &&& post.history_index is None
            } else {
                post == pre
            },
            KeyInput::Delete => consumed && if pre.cursor_pos < pre.input@.len() {
                &&& post.input@ =~= pre.input@.take(pre.cursor_pos as int)
                    + pre.input@.skip(pre.cursor_pos + 1)
                &&& post.cursor_pos == pre.cursor_pos
                &&& post.history_index is None
            } else {
                post == pre
            },
            KeyInput::Left => {
                &&& consumed
                &&& post.input == pre.input
                &&& post.history_index == pre.history_index
                &&& post.cursor_pos == if pre.cursor_pos > 0 {
                    (pre.cursor_pos - 1) as usize
                } else {
                    0
                }
            },
            KeyInput::Right => {
                &&& consumed
                &&& post.input == pre.input
                &&& post.history_index == pre.history_index
                &&& post.cursor_pos == if pre.cursor_pos < pre.input@.len() {
                    (pre.cursor_pos + 1) as usize
                } else {
                    pre.cursor_pos
                }
            },
            KeyInput::Home => {
                &&& consumed
                &&& post.input == pre.input
                &&& post.history_index == pre.history_index
                &&& post.cursor_pos == 0
            },
            KeyInput::End => {
                &&& consumed
                &&& post.input == pre.input
                &&& post.history_index == pre.history_index
                &&& post.cursor_pos == pre.input@.len()
            },
            KeyInput::Up => consumed && Self::history_step(pre, post, true),
            KeyInput::Down => consumed && Self::history_step(pre, post, false),
            KeyInput::Other => !consumed && post == pre,
        }
    }

    /// Apply one key press to the command line; `ctrl` reports whether the
    /// control modifier was held.  Returns whether the key was consumed;
    /// see [`CommandState::key_step`] for what each key does.
    pub fn handle_key(&mut self, key: KeyInput, ctrl: bool) -> (r: bool)
        requires
            old(self).wf(),
            old(self).input@.len() < usize::MAX,
        ensures
            final(self).wf(),
            Self::key_step(*old(self), *final(self), key, ctrl, r),
    {
        match key {
            KeyInput::Char(c) => {
                if ctrl {
                    false
                } else {
                    let len = self.input.as_str().unicode_len();
                    let head = self.input.as_str().substring_char(0, self.cursor_pos);
                    let mut rebuilt = head.to_owned();
                    push_char(&mut rebuilt, c);
                    let tail = self.input.as_str().substring_char(self.cursor_pos, len);
                    rebuilt.append(tail);
                    self.input = rebuilt;
                    self.cursor_pos += 1;
                    self.history_index = None;
                    true
                }
            },
            KeyInput::Backspace => {
                if self.cursor_pos > 0 {
                    let len = self.input.as_str().unicode_len();
                    self.cursor_pos -= 1;
                    let head = self.input.as_str().substring_char(0, self.cursor_pos);
                    let mut rebuilt = head.to_owned();
                    let tail = self.input.as_str().substring_char(self.cursor_pos + 1, len);
                    rebuilt.append(tail);
                    self.input = rebuilt;
                    self.history_index = None;
                }
                true
            },
            KeyInput::Delete => {
                let len = self.input.as_str().unicode_len();
                if self.cursor_pos < len {
                    let head = self.input.as_str().substring_char(0, self.cursor_pos);
                    let mut rebuilt = head.to_owned();
                    let tail = self.input.as_str().substring_char(self.cursor_pos + 1, len);
                    rebuilt.append(tail);
                    self.input = rebuilt;
                    self.history_index = None;
                }
                true
            },
            KeyInput::Left => {
                if self.cursor_pos > 0 {
                    self.cursor_pos -= 1;
                }
                true
            },
            KeyInput::Right => {
                if self.cursor_pos < self.input.as_str().unicode_len() {
                    self.cursor_pos += 1;
                }
                true
            },
            KeyInput::Home => {
                self.cursor_pos = 0;
                true
            },
            KeyInput::End => {
                self.cursor_pos = self.input.as_str().unicode_len();
                true
            },
            KeyInput::Up => {
                self.navigate_history(true);
                true
            },
            KeyInput::Down => {
                self.navigate_history(false);
                true
            },
            KeyInput::Other => false,
        }
    }
}

/// The search prompt: the query being typed, the direction, and the match
/// positions the last search produced.
#[derive(Debug, Clone)]
pub struct SearchState {
    pub query: String,
    pub is_forward: bool,
    pub current_match: Option<usize>,
    pub matches: Vec<usize>,
    pub last_query: String,
}

impl SearchState {
    /// A match cursor always points at one of the matches.
    pub open spec fn wf(self) -> bool {
        match self.current_match {
            Some(i) => i < self.matches@.len(),
            None => true,
        }
    }

    /// No query, no matches, searching forward.
    pub fn new() -> (r: Self)
        ensures
            r.query@.len() == 0,
            r.is_forward,
            r.current_match is None,
            r.matches@.len() == 0,
            r.last_query@.len() == 0,
            r.wf(),
    {
        Self {
            query: String::new(),
            is_forward: true,
            current_match: None,
            matches: Vec::new(),
            last_query: String::new(),
        }
    }

    /// Drop the query and the matches; the remembered last query and the
    /// direction are kept.
    pub fn clear(&mut self)
        ensures
            final(self).query@.len() == 0,
            final(self).current_match is None,
            final(self).matches@.len() == 0,
            final(self).is_forward == old(self).is_forward,
            final(self).last_query == old(self).last_query,
            final(self).wf(),
    {
        self.query = String::new();
        self.current_match = None;
        self.matches = Vec::new();
    }

    /// Begin a fresh search with `query` in the given direction.
    pub fn set_query(&mut self, query: String, is_forward: bool)
        ensures
            final(self).query@ == query@,
            final(self).is_forward == is_forward,
            final(self).current_match is None,
            final(self).matches@.len() == 0,
            final(self).last_query == old(self).last_query,
            final(self).wf(),
    {
        self.query = query;
        self.is_forward = is_forward;
        self.matches = Vec::new();
        self.current_match = None;
    }

    /// Step the match cursor and hand back the match position it now
    /// points at: the first match when no cursor is placed yet, otherwise
    /// one step in the search direction, wrapping at either end.  With no
    /// matches there is nothing to step to.
    pub fn next_match(&mut self) -> (r: Option<usize>)
        requires
            old(self).wf(),
        ensures
            final(self).wf(),
            final(self).query == old(self).query,
            final(self).is_forward == old(self).is_forward,
            final(self).matches == old(self).matches,
            final(self).last_query == old(self).last_query,
            old(self).matches@.len() == 0 ==> r is None && final(self).current_match == old(
                self,
            ).current_match,
            old(self).matches@.len() > 0 ==> {
                let step = match old(self).current_match {
                    None => 0int,
                    Some(i) => if old(self).is_forward {
                        (i + 1) % (old(self).matches@.len() as int)
                    } else if i == 0 {
                        old(self).matches@.len() - 1
                    } else {
                        i - 1
                    },
                };
                final(self).current_match == Some(step as usize) && r == Some(
                    old(self).matches@[step],
                )
            },
    {
        let n = self.matches.len();
        if n == 0 {
            return None;
        }
        match self.current_match {
            None => {
                self.current_match = Some(0);
                Some(self.matches[0])
            },
            Some(index) => {
                let next_index = if self.is_forward {
                    (index + 1) % n
                } else if index == 0 {
                    n - 1
                } else {
                    index - 1
                };
                self.current_match = Some(next_index);
                Some(self.matches[next_index])
            },
        }
    }

    /// Adopt the positions a fresh search produced; the cursor lands on
    /// the first of them (or nowhere, when there is none), unless it was
    /// already placed.
    pub fn update_matches(&mut self, matches: Vec<usize>)
        ensures
            final(self).query == old(self).query,
            final(self).is_forward == old(self).is_forward,
            final(self).last_query == old(self).last_query,
            final(self).matches@ == matches@,
            final(self).current_match == if matches@.len() > 0 && old(self).current_match is None {
                Some(0usize)
            } else if matches@.len() == 0 {
                None::<usize>
            } else {
                old(self).current_match
            },
    {
        self.matches = matches;
        if !self.matches.is_empty() && self.current_match.is_none() {
            self.current_match = Some(0);
        } else if self.matches.is_empty() {
            self.current_match = None;
        }
    }
}

} // verus!
