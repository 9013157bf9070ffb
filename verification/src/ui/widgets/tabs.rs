//! The state of a row of tabs, each with its own list of messages.

use vstd::prelude::*;


verus! {

/// A row of tabs. Tab `i` has the title `titles[i]` and shows the messages
/// `contents[i]`; `index` is the tab that is selected.
pub struct TabsState {
    pub titles: Vec<String>,
    pub index: usize,
    pub contents: Vec<Vec<String>>,
}

/// A row of tabs as contracts see it.
pub struct TabsView {
    pub titles: Seq<String>,
    pub index: usize,
    pub contents: Seq<Seq<String>>,
}

/// Whether a title occurs among some titles.
pub open spec fn has_title(titles: Seq<String>, title: Seq<char>) -> bool {
    exists|i: int| 0 <= i < titles.len() && (#[trigger] titles[i])@ == title
}

/// Whether `i` is the first place at which a title occurs among some titles.
pub open spec fn is_first_title(titles: Seq<String>, title: Seq<char>, i: int) -> bool {
    &&& 0 <= i < titles.len()
    &&& titles[i]@ == title
    &&& forall|j: int| 0 <= j < i ==> (#[trigger] titles[j])@ != title
}

/// The first place at which a title occurs among some titles.
pub open spec fn first_title(titles: Seq<String>, title: Seq<char>) -> int {
    choose|i: int| is_first_title(titles, title, i)
}

impl TabsView {
    /// Tabs with the given titles, each with no messages, the first one
    /// selected.
    pub open spec fn with_titles(titles: Seq<String>) -> TabsView {
        TabsView { titles, index: 0, contents: Seq::new(titles.len(), |i: int| Seq::empty()) }
    }

    /// Whether there is a list of messages for every title and the other
    /// way round.
    pub open spec fn is_consistent(self) -> bool {
        self.titles.len() == self.contents.len()
    }

    /// With one more tab at the end, which has no messages.
    pub open spec fn add_tab(self, title: String) -> TabsView {
        TabsView {
            titles: self.titles.push(title),
            contents: self.contents.push(Seq::empty()),
            ..self
        }
    }

    /// With one more message at the end of a tab's list. An index that
    /// names no tab changes nothing.
    pub open spec fn add_message(self, tab_index: usize, message: String) -> TabsView {
        if tab_index < self.contents.len() {
            TabsView {
                contents: self.contents.update(
                    tab_index as int,
                    self.contents[tab_index as int].push(message),
                ),
                ..self
            }
        } else {
            self
        }
    }

    /// Without the tab at an index and without its messages. The selected
    /// index stays where it was unless it would point past the last tab,
    /// and is 0 when no tab remains. An index that names no tab changes
    /// nothing.
    pub open spec fn remove_tab(self, index: usize) -> TabsView {
        if index < self.titles.len() {
            let titles = self.titles.remove(index as int);
            TabsView {
                titles,
                index: if titles.len() == 0 {
                    0
                } else if self.index <= titles.len() - 1 {
                    self.index
                } else {
                    (titles.len() - 1) as usize
                },
                contents: if index < self.contents.len() {
                    self.contents.remove(index as int)
                } else {
                    self.contents
                },
            }
        } else {
            self
        }
    }

    /// Without the first tab that has the given title, as `remove_tab`
    /// does. Where no tab has it nothing changes.
    pub open spec fn remove_tab_by_title(self, title: Seq<char>) -> TabsView {
        if has_title(self.titles, title) {
            self.remove_tab(first_title(self.titles, title) as usize)
        } else {
            self
        }
    }

    /// With the next tab selected, the first one after the last. Without
    /// tabs nothing changes.
    pub open spec fn next(self) -> TabsView {
        if self.titles.len() == 0 {
            self
        } else {
            TabsView { index: ((self.index + 1) % (self.titles.len() as int)) as usize, ..self }
        }
    }

    /// With the tab before selected, the last one before the first. Without
    /// tabs nothing changes.
    pub open spec fn previous(self) -> TabsView {
        if self.titles.len() == 0 {
            self
        } else if self.index > 0 {
            TabsView { index: (self.index - 1) as usize, ..self }
        } else {
            TabsView { index: (self.titles.len() - 1) as usize, ..self }
        }
    }

    /// With every tab's list of messages emptied.
    pub open spec fn clear_messages(self) -> TabsView {
        TabsView { contents: Seq::new(self.contents.len(), |i: int| Seq::empty()), ..self }
    }
}

/// The first place of a title is the only place that `is_first_title`
/// accepts.
pub proof fn lemma_first_title(titles: Seq<String>, title: Seq<char>, i: int)
    requires
        is_first_title(titles, title, i),
    ensures
        has_title(titles, title),
        first_title(titles, title) == i,
{
    let j = first_title(titles, title);
    assert(is_first_title(titles, title, j));
    if j < i {
        assert(titles[j]@ != title);
    }
    if i < j {
        assert(titles[i]@ != title);
    }
}

impl View for TabsState {
    type V = TabsView;

    open spec fn view(&self) -> TabsView {
        TabsView {
            titles: self.titles@,
            index: self.index,
            contents: Seq::new(self.contents@.len(), |i: int| self.contents@[i]@),
        }
    }
}

impl TabsState {
    /// Tabs with the given titles, each with no messages, the first one
    /// selected.
    pub fn new(titles: Vec<String>) -> (tabs: TabsState)
        ensures
            tabs@ == TabsView::with_titles(titles@),
            tabs.titles == titles,
    {
        let num_tabs = titles.len();
        let mut contents: Vec<Vec<String>> = Vec::new();
        let mut i: usize = 0;
        while i < num_tabs
            invariant
                i <= num_tabs,
                contents@.len() == i,
                forall|j: int| 0 <= j < contents@.len() ==> (#[trigger] contents@[j])@.len() == 0,
            decreases num_tabs - i,
        {
            contents.push(Vec::new());
            i += 1;
        }
        let tabs = TabsState { titles, index: 0, contents };
        assert(tabs@.contents =~~= TabsView::with_titles(titles@).contents);
        tabs
    }

    /// Adds a tab with no messages at the end.
    pub fn add_tab(&mut self, title: String)
        ensures
            final(self)@ == old(self)@.add_tab(title),
    {
        self.titles.push(title);
        self.contents.push(Vec::new());
        assert(self@.contents =~~= old(self)@.add_tab(title).contents);
    }

    /// Removes the tab at an index, with its messages. See
    /// `TabsView::remove_tab`.
    pub fn remove_tab(&mut self, index: usize)
        ensures
            final(self)@ == old(self)@.remove_tab(index),
    {
        if index < self.titles.len() {
            let _ = self.titles.remove(index);
            if index < self.contents.len() {
                let _ = self.contents.remove(index);
            }
            if self.titles.len() > 0 {
                let last = self.titles.len() - 1;
                if self.index > last {
                    self.index = last;
                }
            } else {
                self.index = 0;
            }
            assert(self@.contents =~~= old(self)@.remove_tab(index).contents);
        }
    }

    fn position(&self, title: &str) -> (r: Option<usize>)
        ensures
            match r {
                Some(i) => is_first_title(self.titles@, title@, i as int),
                None => !has_title(self.titles@, title@),
            },
    {
        let wanted = title.to_owned();
        let mut i: usize = 0;
        while i < self.titles.len()
            invariant
                i <= self.titles@.len(),
                wanted@ == title@,
                forall|j: int| 0 <= j < i ==> (#[trigger] self.titles@[j])@ != title@,
            decreases self.titles.len() - i,
        {
            if self.titles[i] == wanted {
                return Some(i);
            }
            i += 1;
        }
        None
    }

    /// Removes the first tab that has the given title. See
    /// `TabsView::remove_tab_by_title`.
    pub fn remove_tab_by_title(&mut self, title: &str)
        ensures
            final(self)@ == old(self)@.remove_tab_by_title(title@),
    {
        match self.position(title) {
            Some(index) => {
                proof {
                    lemma_first_title(self.titles@, title@, index as int);
                }
                self.remove_tab(index);
            },
            None => {},
        }
    }

    /// Adds a message at the end of a tab's list. An index that names no
    /// tab changes nothing.
    pub fn add_message(&mut self, tab_index: usize, message: String)
        ensures
            final(self)@ == old(self)@.add_message(tab_index, message),
    {
        if tab_index < self.contents.len() {
            self.contents[tab_index].push(message);
            assert(self@.contents =~~= old(self)@.add_message(tab_index, message).contents);
        }
    }

    /// Selects the next tab, the first one after the last.
    pub fn next(&mut self)
        ensures
            final(self)@ == old(self)@.next(),
    {
        let count = self.titles.len();
        if count > 0 {
            let here = self.index % count;
            assert((self.index + 1) % (count as int) == (here + 1) % (count as int)) by {
                vstd::arithmetic::div_mod::lemma_add_mod_noop(
                    self.index as int,
                    1,
                    count as int,
                );
                vstd::arithmetic::div_mod::lemma_add_mod_noop(here as int, 1, count as int);
                vstd::arithmetic::div_mod::lemma_mod_twice(self.index as int, count as int);
            }
            self.index = (here + 1) % count;
        }
    }

    /// Selects the tab before, the last one before the first.
    pub fn previous(&mut self)
        ensures
            final(self)@ == old(self)@.previous(),
    {
        if self.titles.len() > 0 {
            if self.index > 0 {
                self.index -= 1;
            } else {
                self.index = self.titles.len() - 1;
            }
        }
    }

    /// Empties every tab's list of messages.
    pub fn clear_messages(&mut self)
        ensures
            final(self)@ == old(self)@.clear_messages(),
    {
        let mut i: usize = 0;
        while i < self.contents.len()
            invariant
                i <= self.contents@.len(),
                self.titles == old(self).titles,
                self.index == old(self).index,
                self.contents@.len() == old(self).contents@.len(),
                forall|j: int| 0 <= j < i ==> (#[trigger] self.contents@[j])@.len() == 0,
            decreases self.contents.len() - i,
        {
            self.contents[i].clear();
            i += 1;
        }
        assert(self@.contents =~~= old(self)@.clear_messages().contents);
    }
}

} // verus!
