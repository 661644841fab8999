//! The tab strip: every tool opens in a tab of its own; tabs can be added
//! and closed, and one of them is always the active one.
use vstd::prelude::*;

use crate::browse::TabOpenMode;
use crate::text::{decimal, u64_to_string};

verus! {

/// Calls `rand::random::<u64>()`: a random number from the thread-local
/// generator. Nothing is stated of its value.
#[verifier::external_body]
fn random_u64() -> (res: u64) {
    rand::random::<u64>()
}

/// A tab: a random identifier and what it shows.
pub struct Tab<C> {
    pub id: String,
    pub content: C,
}

impl<C> Tab<C> {
    /// A tab showing `content`, with a random decimal identifier.
    pub fn new(content: C) -> (res: Self)
        ensures
            res.content == content,
            exists|n: u64| res.id@ == decimal(n as int),
    {
        let n = random_u64();
        let id = u64_to_string(n);
        Tab { id, content }
    }
}

/// What the tab strip was asked to do: make a tab active, close it, or
/// close every other tab.
pub enum TabAction {
    Switch(usize),
    Close(usize),
    CloseOthers(usize),
}

/// The open tabs and which of them is active.
pub struct TabManager<C> {
    pub tabs: Vec<Tab<C>>,
    pub active_tab_index: usize,
}

impl<C> TabManager<C> {
    /// There is at least one tab and the active index points at one.
    pub open spec fn wf(&self) -> bool {
        self.tabs@.len() > 0 && self.active_tab_index < self.tabs@.len()
    }

    /// A strip holding a single tab showing `home`, which is active.
    pub fn new(home: C) -> (res: Self)
        ensures
            res.wf(),
            res.tabs@.len() == 1,
            res.tabs@[0].content == home,
            res.active_tab_index == 0,
    {
        let mut tabs: Vec<Tab<C>> = Vec::new();
        tabs.push(Tab::new(home));
        TabManager { tabs, active_tab_index: 0 }
    }

    /// Opens a tab showing `content` at the end of the strip, making it the
    /// active one when `switch_to_it`.
    pub fn add_tab(&mut self, content: C, switch_to_it: bool)
        ensures
            final(self).tabs@.len() == old(self).tabs@.len() + 1,
            final(self).tabs@.drop_last() == old(self).tabs@,
            final(self).tabs@.last().content == content,
            final(self).active_tab_index == if switch_to_it {
                old(self).tabs@.len() as int
            } else {
                old(self).active_tab_index as int
            },
            old(self).wf() ==> final(self).wf(),
    {
        let new_tab = Tab::new(content);
        self.tabs.push(new_tab);
        if switch_to_it {
            self.active_tab_index = self.tabs.len() - 1;
        }
        assert(self.tabs@.drop_last() =~= old(self).tabs@);
    }

    /// Closes the tab at `index` (nothing happens when there is none). A
    /// tab at or before the active one moves the active index back by one,
    /// unless it is already the first. When the last tab closes, a tab
    /// showing `home` takes its place and becomes active.
    pub fn close_tab(&mut self, index: usize, home: C)
        ensures
            index >= old(self).tabs@.len() ==> final(self).tabs@ == old(self).tabs@
                && final(self).active_tab_index == old(self).active_tab_index,
            index < old(self).tabs@.len() && old(self).tabs@.len() > 1 ==> final(self).tabs@ == old(
                self,
            ).tabs@.remove(index as int) && final(self).active_tab_index == if old(
                self,
            ).active_tab_index >= index && old(self).active_tab_index > 0 {
                (old(self).active_tab_index - 1) as usize
            } else {
                old(self).active_tab_index
            },
            index < old(self).tabs@.len() && old(self).tabs@.len() == 1 ==> final(self).tabs@.len()
                == 1 && final(self).tabs@[0].content == home && final(self).active_tab_index == 0,
            old(self).wf() ==> final(self).wf(),
    {
        if index < self.tabs.len() {
            self.tabs.remove(index);
            if self.active_tab_index >= index && self.active_tab_index > 0 {
                self.active_tab_index -= 1;
            }
            if self.tabs.len() == 0 {
                self.tabs.push(Tab::new(home));
                self.active_tab_index = 0;
            }
        }
    }

    /// Makes the tab at `index` the active one.
    pub fn switch_to(&mut self, index: usize)
        ensures
            final(self).tabs == old(self).tabs,
            final(self).active_tab_index == index,
            index < old(self).tabs@.len() ==> final(self).wf(),
    {
        self.active_tab_index = index;
    }

    /// Closes every tab but the one at `index`, which becomes the first and
    /// active one; nothing happens when there is no such tab.
    pub fn close_others(&mut self, index: usize)
        ensures
            index < old(self).tabs@.len() ==> final(self).tabs@ == seq![old(self).tabs@[index as int]]
                && final(self).active_tab_index == 0,
            index >= old(self).tabs@.len() ==> final(self).tabs == old(self).tabs
                && final(self).active_tab_index == old(self).active_tab_index,
            old(self).wf() ==> final(self).wf(),
    {
        if index < self.tabs.len() {
            let keep = self.tabs.remove(index);
            self.tabs.clear();
            self.tabs.push(keep);
            self.active_tab_index = 0;
        }
    }

    /// A tab dragged onto another: the two trade places and the active
    /// index follows the active tab.
    pub fn swap_tabs(&mut self, from: usize, to: usize)
        requires
            from < old(self).tabs@.len(),
            to < old(self).tabs@.len(),
        ensures
            final(self).tabs@ == old(self).tabs@.update(from as int, old(self).tabs@[to as int]).update(
                to as int,
                old(self).tabs@[from as int],
            ),
            final(self).active_tab_index == if from != to && old(self).active_tab_index == from {
                to
            } else if from != to && old(self).active_tab_index == to {
                from
            } else {
                old(self).active_tab_index
            },
            old(self).wf() ==> final(self).wf(),
    {
        if from == to {
            assert(self.tabs@.update(from as int, self.tabs@[to as int]).update(
                to as int,
                self.tabs@[from as int],
            ) =~= self.tabs@);
            return;
        }
        let (lo, hi) = if from < to { (from, to) } else { (to, from) };
        let ghost t = self.tabs@;
        let high = self.tabs.remove(hi);
        let low = self.tabs.remove(lo);
        self.tabs.insert(lo, high);
        self.tabs.insert(hi, low);
        assert(self.tabs@ =~= t.update(from as int, t[to as int]).update(to as int, t[from as int]));
        if self.active_tab_index == from {
            self.active_tab_index = to;
        } else if self.active_tab_index == to {
            self.active_tab_index = from;
        }
    }

    /// Carries out what the tab strip was asked to do; closing the last tab
    /// opens `home` in its place.
    pub fn apply(&mut self, action: TabAction, home: C)
        ensures
            match action {
                TabAction::Switch(i) => final(self).tabs@ == old(self).tabs@
                    && final(self).active_tab_index == i,
                TabAction::Close(i) => {
                    &&& i >= old(self).tabs@.len() ==> final(self).tabs@ == old(self).tabs@
                        && final(self).active_tab_index == old(self).active_tab_index
                    &&& i < old(self).tabs@.len() && old(self).tabs@.len() > 1 ==> final(self).tabs@
                        == old(self).tabs@.remove(i as int) && final(self).active_tab_index
                        == if old(self).active_tab_index >= i && old(self).active_tab_index > 0 {
                        (old(self).active_tab_index - 1) as usize
                    } else {
                        old(self).active_tab_index
                    }
                    &&& i < old(self).tabs@.len() && old(self).tabs@.len() == 1
                        ==> final(self).tabs@.len() == 1 && final(self).tabs@[0].content == home
                        && final(self).active_tab_index == 0
                },
                TabAction::CloseOthers(i) => i < old(self).tabs@.len() ==> final(self).tabs@ == seq![
                    old(self).tabs@[i as int],
                ] && final(self).active_tab_index == 0,
            },
            match action {
                TabAction::Switch(i) => i < old(self).tabs@.len() ==> final(self).wf(),
                _ => old(self).wf() ==> final(self).wf(),
            },
    {
        match action {
            TabAction::Switch(i) => self.switch_to(i),
            TabAction::Close(i) => self.close_tab(i, home),
            TabAction::CloseOthers(i) => self.close_others(i),
        }
    }

    /// Shows what a view asked for: in a new active tab, in a new tab in
    /// the background, or in place of the active tab's content (the tab
    /// keeps its identifier; nothing happens when no tab is active).
    pub fn open(&mut self, content: C, mode: TabOpenMode)
        ensures
            mode == TabOpenMode::NewTabActive ==> final(self).tabs@.drop_last() == old(self).tabs@
                && final(self).tabs@.len() == old(self).tabs@.len() + 1 && final(self).tabs@.last().content
                == content && final(self).active_tab_index == old(self).tabs@.len(),
            mode == TabOpenMode::NewTabBackground ==> final(self).tabs@.drop_last() == old(self).tabs@
                && final(self).tabs@.len() == old(self).tabs@.len() + 1 && final(self).tabs@.last().content
                == content && final(self).active_tab_index == old(self).active_tab_index,
            mode == TabOpenMode::ReplaceCurrent && old(self).active_tab_index < old(self).tabs@.len()
                ==> final(self).tabs@ == old(self).tabs@.update(
                old(self).active_tab_index as int,
                Tab { id: old(self).tabs@[old(self).active_tab_index as int].id, content },
            ) && final(self).active_tab_index == old(self).active_tab_index,
            mode == TabOpenMode::ReplaceCurrent && old(self).active_tab_index >= old(self).tabs@.len()
                ==> final(self).tabs@ == old(self).tabs@ && final(self).active_tab_index == old(
                self,
            ).active_tab_index,
            old(self).wf() ==> final(self).wf(),
    {
        match mode {
            TabOpenMode::NewTabActive => self.add_tab(content, true),
            TabOpenMode::NewTabBackground => self.add_tab(content, false),
            TabOpenMode::ReplaceCurrent => {
                let a = self.active_tab_index;
                if a < self.tabs.len() {
                    let ghost before = self.tabs@;
                    let tab = self.tabs.remove(a);
                    let replaced = Tab { id: tab.id, content };
                    self.tabs.insert(a, replaced);
                    assert(self.tabs@ =~= before.update(
                        a as int,
                        Tab { id: before[a as int].id, content },
                    ));
                }
            },
        }
    }

    /// What the active tab shows.
    pub fn active_content(&self) -> (res: Option<&C>)
        ensures
            match res {
                Some(c) => self.active_tab_index < self.tabs@.len() && *c
                    == self.tabs@[self.active_tab_index as int].content,
                None => self.active_tab_index >= self.tabs@.len(),
            },
    {
        if self.active_tab_index < self.tabs.len() {
            Some(&self.tabs[self.active_tab_index].content)
        } else {
            None
        }
    }
}

} // verus!
