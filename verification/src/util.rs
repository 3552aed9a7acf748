//! A cyclic tab cursor for the top-level tab bar.

use vstd::prelude::*;

verus! {

/// The tab bar's state: the tab titles and the index of the selected tab.
pub struct TabsState {
    pub titles: Vec<String>,
    pub index: usize,
}

impl TabsState {
    /// The selected index is in bounds.
    pub open spec fn wf(&self) -> bool {
        self.index < self.titles@.len()
    }

    pub fn new(titles: Vec<String>) -> (r: TabsState)
        requires
            titles@.len() >= 1,
        ensures
            r.titles == titles,
            r.index == 0,
            r.wf(),
    {
        TabsState { titles, index: 0 }
    }

    /// Select the next tab, wrapping past the last one.
    pub fn next(&mut self)
        requires
            old(self).wf(),
        ensures
            final(self).wf(),
            final(self).titles == old(self).titles,
            final(self).index as int == (old(self).index + 1) % (old(self).titles@.len() as int),
    {
        let n: usize = self.titles.len();
        self.index = (self.index + 1) % n;
    }

    /// Select the previous tab, wrapping before the first one.
    pub fn previous(&mut self)
        requires
            old(self).wf(),
        ensures
            final(self).wf(),
            final(self).titles == old(self).titles,
            final(self).index as int == if old(self).index == 0 {
                old(self).titles@.len() - 1
            } else {
                old(self).index - 1
            },
    {
        if self.index == 0 {
            self.index = self.titles.len() - 1;
        } else {
            self.index = self.index - 1;
        }
    }
}

} // verus!
