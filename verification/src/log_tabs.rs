//! Tab state for switching between the log views of different containers.
//!
//! `LogTabs` keeps the list of container titles and the index of the tab
//! that is currently selected.  Navigation wraps around at both ends, and
//! the selected index always stays inside the title list.

use vstd::prelude::*;

verus! {

pub struct LogTabs {
    pub titles: Vec<String>,
    pub index: usize,
}

impl LogTabs {
    /// Every reachable `LogTabs` keeps its index inside the title list,
    /// except that an empty list pins the index to zero.
    pub open spec fn wf(self) -> bool {
        if self.titles@.len() == 0 {
            self.index == 0
        } else {
            self.index < self.titles@.len()
        }
    }

    pub fn new(titles: Vec<String>) -> (r: Self)
        ensures
            r.titles@ == titles@,
            r.index == 0,
            r.wf(),
    {
        Self { titles, index: 0 }
    }

    /// Advance to the next tab, wrapping to the first after the last.
    pub fn next(&mut self)
        requires
            old(self).titles@.len() > 0,
            old(self).wf(),
        ensures
            final(self).titles@ == old(self).titles@,
            final(self).index == (old(self).index + 1) % (old(self).titles@.len() as int),
            final(self).wf(),
    {
        let n = self.titles.len();
        self.index = (self.index + 1) % n;
    }

    /// Move to the previous tab, wrapping to the last from the first.
    pub fn previous(&mut self)
        requires
            old(self).titles@.len() > 0,
            old(self).wf(),
        ensures
            final(self).titles@ == old(self).titles@,
            final(self).index == if old(self).index > 0 {
                old(self).index - 1
            } else {
                old(self).titles@.len() - 1
            },
            final(self).wf(),
    {
        if self.index > 0 {
            self.index -= 1;
        } else {
            self.index = self.titles.len() - 1;
        }
    }

    /// Select a tab by position; an out-of-range index leaves the
    /// selection unchanged.
    pub fn set_index(&mut self, index: usize)
        requires
            old(self).wf(),
        ensures
            final(self).titles@ == old(self).titles@,
            final(self).index == if index < old(self).titles@.len() {
                index as int
            } else {
                old(self).index as int
            },
            final(self).wf(),
    {
        if index < self.titles.len() {
            self.index = index;
        }
    }

    /// The title of the selected tab, or `None` when there are no tabs.
    pub fn get_active_tab_name(&self) -> (r: Option<&String>)
        ensures
            match r {
                Some(name) => self.index < self.titles@.len() && name@ == self.titles@[self.index as int]@,
                None => self.index >= self.titles@.len(),
            },
    {
        if self.index < self.titles.len() {
            Some(&self.titles[self.index])
        } else {
            None
        }
    }
}

} // verus!
