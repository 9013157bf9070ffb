//! The state of one pane of messages: a plain list, or a list per
//! connection shown under tabs.

use vstd::prelude::*;
use vstd::string::StringExecFns;

use crate::ui::widgets::tabs::TabsState;
use crate::ui::widgets::tabs::TabsView;

verus! {

/// How many messages the plain list keeps. Older ones are dropped.
pub const MAX_MESSAGES: usize = 100;

/// One pane of messages.
pub struct MessageView {
    title: String,
    messages: Vec<String>,
    has_multiple_connections: bool,
    tabs: Option<TabsState>,
    scroll: usize,
}

/// A pane of messages as contracts see it.
pub struct MessageViewState {
    pub title: Seq<char>,
    /// The plain list, oldest first.
    pub messages: Seq<String>,
    /// Whether the pane is showing more than one connection.
    pub has_multiple_connections: bool,
    /// The tabs, once there are any.
    pub tabs: Option<TabsView>,
    /// How many lines the view is scrolled by.
    pub scroll: usize,
}

/// The newest `MAX_MESSAGES` of a list of messages, or all of them where
/// there are no more than that.
pub open spec fn newest(all: Seq<String>) -> Seq<String> {
    if all.len() > MAX_MESSAGES {
        all.subrange(all.len() - MAX_MESSAGES, all.len() as int)
    } else {
        all
    }
}

/// Whether a list of titles is the single title `Default`.
pub open spec fn is_default_titles(titles: Seq<String>) -> bool {
    titles.len() == 1 && titles[0]@ == "Default"@
}

/// The index of the first of `len` lines that is shown when `max_visible`
/// lines fit and the view is scrolled by `scroll`: with more lines than fit,
/// the last screenful moved on by the scroll, and never past the end; with
/// no more lines than fit, the first line.
pub open spec fn spec_first_visible(len: usize, max_visible: usize, scroll: usize) -> int {
    if len > max_visible {
        if len - max_visible + scroll <= len {
            len - max_visible + scroll
        } else {
            len as int
        }
    } else {
        0
    }
}

impl MessageViewState {
    /// A new pane: no messages, no tabs, not scrolled.
    pub open spec fn initial(title: Seq<char>) -> MessageViewState {
        MessageViewState {
            title,
            messages: Seq::empty(),
            has_multiple_connections: false,
            tabs: None,
            scroll: 0,
        }
    }

    /// With one more message in the plain list.
    pub open spec fn add_message(self, message: String) -> MessageViewState {
        MessageViewState { messages: newest(self.messages.push(message)), ..self }
    }

    /// Whether this is the pane with tabs set up from the given one, which
    /// had none: a single tab, holding what the plain list holds.
    pub open spec fn is_initialized_from(self, before: MessageViewState) -> bool {
        &&& self.title == before.title
        &&& self.messages == before.messages
        &&& self.scroll == before.scroll
        &&& self.has_multiple_connections
        &&& self.tabs matches Some(tabs) && is_default_titles(tabs.titles) && tabs.index == 0
            && tabs.contents == seq![before.messages]
    }

    /// Whether this is the given pane with one more connection.
    pub open spec fn is_connection_added_to(self, before: MessageViewState, name: Seq<char>)
        -> bool {
        &&& self.title == before.title
        &&& self.messages == before.messages
        &&& self.scroll == before.scroll
        &&& self.has_multiple_connections
        &&& self.tabs matches Some(tabs) && match before.tabs {
            Some(had) => tabs.index == had.index && tabs.contents == had.contents.push(Seq::empty())
                && tabs.titles.len() == had.titles.len() + 1 && tabs.titles.drop_last()
                == had.titles && tabs.titles.last()@ == name,
            None => tabs.index == 0 && tabs.contents == seq![
                Seq::<String>::empty(),
                Seq::<String>::empty(),
            ] && tabs.titles.len() == 2 && tabs.titles[0]@ == "Default"@ && tabs.titles[1]@
                == name,
        }
    }

    /// With the tab at an index closed. A pane left with one tab or none no
    /// longer shows several connections.
    pub open spec fn close_connection(self, tab_index: usize) -> MessageViewState {
        match self.tabs {
            Some(tabs) => {
                let left = tabs.remove_tab(tab_index);
                MessageViewState {
                    tabs: Some(left),
                    has_multiple_connections: if left.titles.len() <= 1 {
                        false
                    } else {
                        self.has_multiple_connections
                    },
                    ..self
                }
            },
            None => self,
        }
    }

    /// With every message gone, from the plain list and from every tab, and
    /// the scroll back at 0.
    pub open spec fn clear(self) -> MessageViewState {
        MessageViewState {
            messages: Seq::empty(),
            scroll: 0,
            tabs: match self.tabs {
                Some(tabs) => Some(tabs.clear_messages()),
                None => None,
            },
            ..self
        }
    }

    /// Scrolled up by one line, unless at the top.
    pub open spec fn scroll_up(self) -> MessageViewState {
        if self.scroll > 0 {
            MessageViewState { scroll: (self.scroll - 1) as usize, ..self }
        } else {
            self
        }
    }

    /// Scrolled down by one line, as long as a full screen of `max_visible`
    /// lines still lies below.
    pub open spec fn scroll_down(self, max_visible: usize) -> MessageViewState {
        if self.scroll + max_visible < self.messages.len() {
            MessageViewState { scroll: (self.scroll + 1) as usize, ..self }
        } else {
            self
        }
    }

    /// Scrolled so that the last `max_visible` lines of the plain list show.
    pub open spec fn scroll_to_bottom(self, max_visible: usize) -> MessageViewState {
        MessageViewState {
            scroll: if self.messages.len() > max_visible {
                (self.messages.len() - max_visible) as usize
            } else {
                0
            },
            ..self
        }
    }

    /// With the tabs changed by a function, where there are tabs.
    pub open spec fn map_tabs(self, f: spec_fn(TabsView) -> TabsView) -> MessageViewState {
        match self.tabs {
            Some(tabs) => MessageViewState { tabs: Some(f(tabs)), ..self },
            None => self,
        }
    }

    /// Whether the pane is drawn with tabs.
    pub open spec fn shows_tabs(self) -> bool {
        self.has_multiple_connections && self.tabs is Some
    }

    /// The lines that the pane draws when `max_visible` lines fit: those of
    /// the selected tab where the pane is drawn with tabs, those of the
    /// plain list otherwise.
    pub open spec fn shown_lines(self) -> Seq<String> {
        if self.shows_tabs() {
            let tabs = self.tabs->0;
            if tabs.index < tabs.contents.len() {
                tabs.contents[tabs.index as int]
            } else {
                Seq::empty()
            }
        } else {
            self.messages
        }
    }
}

impl View for MessageView {
    type V = MessageViewState;

    closed spec fn view(&self) -> MessageViewState {
        MessageViewState {
            title: self.title@,
            messages: self.messages@,
            has_multiple_connections: self.has_multiple_connections,
            tabs: match self.tabs {
                Some(tabs) => Some(tabs@),
                None => None,
            },
            scroll: self.scroll,
        }
    }
}

/// The index of the first line that is shown. See `spec_first_visible`.
pub fn first_visible(len: usize, max_visible: usize, scroll: usize) -> (first: usize)
    ensures
        first == spec_first_visible(len, max_visible, scroll),
        first <= len,
{
    if len > max_visible {
        if scroll <= max_visible {
            len - max_visible + scroll
        } else {
            len
        }
    } else {
        0
    }
}

fn copy_from(lines: &Vec<String>, first: usize) -> (copy: Vec<String>)
    requires
        first <= lines@.len(),
    ensures
        copy@ == lines@.subrange(first as int, lines@.len() as int),
{
    let mut copy: Vec<String> = Vec::new();
    let mut i: usize = first;
    while i < lines.len()
        invariant
            first <= i <= lines@.len(),
            copy@ == lines@.subrange(first as int, i as int),
        decreases lines.len() - i,
    {
        copy.push(lines[i].clone());
        assert(copy@ =~= lines@.subrange(first as int, i + 1));
        i += 1;
    }
    copy
}

impl MessageView {
    /// A new pane with the given title.
    pub fn new(title: &str) -> (view: MessageView)
        ensures
            view@ == MessageViewState::initial(title@),
    {
        MessageView {
            title: String::from_str(title),
            messages: Vec::new(),
            has_multiple_connections: false,
            tabs: None,
            scroll: 0,
        }
    }

    /// The title of the pane.
    pub fn title(&self) -> (title: &str)
        ensures
            title@ == self@.title,
    {
        self.title.as_str()
    }

    /// The plain list of messages, oldest first.
    pub fn messages(&self) -> (messages: &Vec<String>)
        ensures
            messages@ == self@.messages,
    {
        &self.messages
    }

    /// The tabs, once there are any.
    pub fn tabs(&self) -> (tabs: &Option<TabsState>)
        ensures
            match *tabs {
                Some(t) => self@.tabs == Some(t@),
                None => self@.tabs is None,
            },
    {
        &self.tabs
    }

    /// How many lines the view is scrolled by.
    pub fn scroll(&self) -> (scroll: usize)
        ensures
            scroll == self@.scroll,
    {
        self.scroll
    }

    /// Whether the pane is showing more than one connection.
    pub fn has_multiple_connections(&self) -> (r: bool)
        ensures
            r == self@.has_multiple_connections,
    {
        self.has_multiple_connections
    }

    /// Adds a message to the plain list. The list keeps the newest
    /// `MAX_MESSAGES` messages and drops what is older.
    pub fn add_message(&mut self, message: String)
        ensures
            final(self)@ == old(self)@.add_message(message),
            final(self)@.messages.len() <= MAX_MESSAGES,
            final(self)@.messages.last() == message,
    {
        self.messages.push(message);
        let len = self.messages.len();
        if len > MAX_MESSAGES {
            let kept = self.messages.split_off(len - MAX_MESSAGES);
            self.messages = kept;
        }
    }

    /// Sets up the tabs of a pane that has none: a single tab `Default`
    /// that holds what the plain list holds. A pane that has tabs is left
    /// as it is.
    pub fn initialize_tabs(&mut self)
        ensures
            old(self)@.tabs is Some ==> final(self)@ == old(self)@,
            old(self)@.tabs is None ==> final(self)@.is_initialized_from(old(self)@),
    {
        if self.tabs.is_none() {
            let mut titles: Vec<String> = Vec::new();
            titles.push(String::from_str("Default"));
            let mut tabs = TabsState::new(titles);
            let mut i: usize = 0;
            while i < self.messages.len()
                invariant
                    i <= self.messages@.len(),
                    is_default_titles(tabs@.titles),
                    tabs@.index == 0,
                    tabs@.contents.len() == 1,
                    tabs@.contents[0] == self.messages@.subrange(0, i as int),
                decreases self.messages.len() - i,
            {
                let ghost before = tabs@;
                tabs.add_message(0, self.messages[i].clone());
                assert(tabs@.contents[0] =~= self.messages@.subrange(0, i + 1));
                i += 1;
            }
            assert(self.messages@.subrange(0, self.messages@.len() as int) == self.messages@);
            assert(tabs@.contents =~= seq![self.messages@]);
            self.tabs = Some(tabs);
            self.has_multiple_connections = true;
        }
    }

    /// Adds a message to a tab, setting up the tabs first if the pane has
    /// none. An index that names no tab adds nothing.
    pub fn add_message_to_tab(&mut self, tab_index: usize, message: String)
        ensures
            match old(self)@.tabs {
                Some(tabs) => final(self)@ == (MessageViewState {
                    tabs: Some(tabs.add_message(tab_index, message)),
                    ..old(self)@
                }),
                None => exists|between: MessageViewState|
                    #![trigger between.is_initialized_from(old(self)@)]
                    between.is_initialized_from(old(self)@) && final(self)@ == (MessageViewState {
                        tabs: Some(between.tabs->0.add_message(tab_index, message)),
                        ..between
                    }),
            },
    {
        self.initialize_tabs();
        let ghost between = self@;
        match &mut self.tabs {
            Some(tabs) => {
                tabs.add_message(tab_index, message);
            },
            None => {},
        }
        proof {
            if old(self)@.tabs is None {
                assert(between.is_initialized_from(old(self)@));
            }
        }
    }

    /// Adds a tab for a connection. A pane without tabs gets the tab
    /// `Default` first, with no messages in it.
    pub fn add_connection(&mut self, connection_name: &str)
        ensures
            final(self)@.is_connection_added_to(old(self)@, connection_name@),
    {
        self.has_multiple_connections = true;
        match &mut self.tabs {
            Some(tabs) => {
                let ghost had = tabs@;
                tabs.add_tab(String::from_str(connection_name));
                assert(tabs@.titles.drop_last() =~= had.titles);
            },
            None => {
                let mut titles: Vec<String> = Vec::new();
                titles.push(String::from_str("Default"));
                let mut tabs = TabsState::new(titles);
                tabs.add_tab(String::from_str(connection_name));
                assert(tabs@.contents =~~= seq![Seq::<String>::empty(), Seq::<String>::empty()]);
                self.tabs = Some(tabs);
            },
        }
    }

    /// Closes the tab at an index. See `MessageViewState::close_connection`.
    pub fn close_connection(&mut self, tab_index: usize)
        ensures
            final(self)@ == old(self)@.close_connection(tab_index),
    {
        let mut single = false;
        match &mut self.tabs {
            Some(tabs) => {
                tabs.remove_tab(tab_index);
                single = tabs.titles.len() <= 1;
            },
            None => {},
        }
        if single {
            self.has_multiple_connections = false;
        }
    }

    /// Removes every message, from the plain list and from every tab, and
    /// scrolls back to the top. The tabs themselves stay.
    pub fn clear(&mut self)
        ensures
            final(self)@ == old(self)@.clear(),
    {
        self.messages.clear();
        self.scroll = 0;
        match &mut self.tabs {
            Some(tabs) => {
                tabs.clear_messages();
            },
            None => {},
        }
    }

    /// Scrolls up by one line, unless at the top.
    pub fn scroll_up(&mut self)
        ensures
            final(self)@ == old(self)@.scroll_up(),
    {
        if self.scroll > 0 {
            self.scroll -= 1;
        }
    }

    /// Scrolls down by one line, as long as a full screen of `max_visible`
    /// lines still lies below.
    pub fn scroll_down(&mut self, max_visible: usize)
        ensures
            final(self)@ == old(self)@.scroll_down(max_visible),
    {
        let len = self.messages.len();
        if max_visible < len && self.scroll < len - max_visible {
            self.scroll += 1;
        }
    }

    /// Scrolls to the top.
    pub fn scroll_to_top(&mut self)
        ensures
            final(self)@ == (MessageViewState { scroll: 0, ..old(self)@ }),
    {
        self.scroll = 0;
    }

    /// Scrolls so that the last `max_visible` lines of the plain list show.
    pub fn scroll_to_bottom(&mut self, max_visible: usize)
        ensures
            final(self)@ == old(self)@.scroll_to_bottom(max_visible),
    {
        if self.messages.len() > max_visible {
            self.scroll = self.messages.len() - max_visible;
        } else {
            self.scroll = 0;
        }
    }

    /// Selects the next tab, where there are tabs.
    pub fn next_tab(&mut self)
        ensures
            final(self)@ == old(self)@.map_tabs(|t: TabsView| t.next()),
    {
        match &mut self.tabs {
            Some(tabs) => {
                tabs.next();
            },
            None => {},
        }
    }

    /// Selects the tab before, where there are tabs.
    pub fn prev_tab(&mut self)
        ensures
            final(self)@ == old(self)@.map_tabs(|t: TabsView| t.previous()),
    {
        match &mut self.tabs {
            Some(tabs) => {
                tabs.previous();
            },
            None => {},
        }
    }

    /// Whether the pane is drawn with tabs: it shows several connections
    /// and has tabs.
    pub fn shows_tabs(&self) -> (r: bool)
        ensures
            r == self@.shows_tabs(),
    {
        self.has_multiple_connections && self.tabs.is_some()
    }

    /// The lines to draw when `max_visible` lines fit: of the lines that the
    /// pane shows, those from the first visible one to the last.
    pub fn visible_messages(&self, max_visible: usize) -> (lines: Vec<String>)
        ensures
            self@.shown_lines().len() <= usize::MAX,
            lines@ == self@.shown_lines().subrange(
                spec_first_visible(
                    self@.shown_lines().len() as usize,
                    max_visible,
                    self@.scroll,
                ),
                self@.shown_lines().len() as int,
            ),
    {
        if self.has_multiple_connections {
            match &self.tabs {
                Some(tabs) => {
                    if tabs.index < tabs.contents.len() {
                        let shown = &tabs.contents[tabs.index];
                        return copy_from(
                            shown,
                            first_visible(shown.len(), max_visible, self.scroll),
                        );
                    } else {
                        return Vec::new();
                    }
                },
                None => {},
            }
        }
        copy_from(
            &self.messages,
            first_visible(self.messages.len(), max_visible, self.scroll),
        )
    }
}

} // verus!
