use vstd::prelude::*;
use crate::http::{update_spec, Command, Http, HttpState};
use crate::headers::HeaderRow;
use crate::text::{decimal, decimal_text};

verus! {

/// What the user did on the row of request tabs, or a message for the
/// request tab that is showing.
#[derive(Debug, Clone)]
pub enum Message {
    TabSelect(usize),
    TabClose(usize),
    TabNew,
    Http(crate::http::Message),
}

/// The open request tabs and which one is showing.
pub struct Stage {
    selected_tab: usize,
    tabs: Vec<Http>,
}

/// What a stage holds.
pub struct StageState {
    pub selected_tab: usize,
    pub tabs: Seq<HttpState>,
}

impl View for Stage {
    type V = StageState;

    closed spec fn view(&self) -> StageState {
        StageState { selected_tab: self.selected_tab, tabs: self.tabs@.map_values(|h: Http| h@) }
    }
}

/// The title of the `n`-th request tab, counting from 1.
pub open spec fn tab_title(n: nat) -> Seq<char> {
    "Request #"@ + decimal(n)
}

/// A request view as `Http::new` makes it.
pub open spec fn fresh_http(h: HttpState, title: Seq<char>) -> bool {
    &&& h.title == title
    &&& h.url.len() == 0
    &&& h.method == crate::method::HttpMethod::Get
    &&& h.headers == seq![HeaderRow { key: "Content-Type"@, value: "application/json"@ }]
    &&& h.active_tab == crate::http::TabId::Body
    &&& h.body.len() == 0
    &&& h.response.len() == 0
    &&& h.script.len() == 0
}

impl Stage {
    /// No tabs open.
    pub fn new() -> (r: Stage)
        ensures
            r@.selected_tab == 0,
            r@.tabs.len() == 0,
    {
        let r = Stage { selected_tab: 0, tabs: Vec::new() };
        assert(r@.tabs =~= Seq::<HttpState>::empty());
        r
    }

    pub fn selected_tab(&self) -> (r: usize)
        ensures
            r == self@.selected_tab,
    {
        self.selected_tab
    }

    pub fn len(&self) -> (r: usize)
        ensures
            r == self@.tabs.len(),
    {
        self.tabs.len()
    }

    /// The tab at `i`, if there is one.
    pub fn tab(&self, i: usize) -> (r: Option<&Http>)
        ensures
            i < self@.tabs.len() ==> (r matches Some(h) && h@ == self@.tabs[i as int]),
            i >= self@.tabs.len() ==> r is None,
    {
        if i < self.tabs.len() {
            Some(&self.tabs[i])
        } else {
            None
        }
    }

    /// Applies one message. A new tab is titled "Request #n" where n is the
    /// number of tabs once it is added; closing a tab that does not exist,
    /// or sending a message while no tab is showing, changes nothing. The
    /// showing tab's own messages go to it, and its command is handed on.
    pub fn update(&mut self, message: Message) -> (c: Command)
        requires
            old(self)@.tabs.len() < usize::MAX,
        ensures
            match message {
                Message::TabNew => {
                    &&& c is Idle
                    &&& final(self)@.selected_tab == old(self)@.selected_tab
                    &&& final(self)@.tabs.len() == old(self)@.tabs.len() + 1
                    &&& final(self)@.tabs.drop_last() == old(self)@.tabs
                    &&& fresh_http(
                        final(self)@.tabs.last(),
                        tab_title(old(self)@.tabs.len() + 1),
                    )
                },
                Message::TabClose(i) => {
                    &&& c is Idle
                    &&& final(self)@.selected_tab == old(self)@.selected_tab
                    &&& i < old(self)@.tabs.len() ==> final(self)@.tabs == old(self)@.tabs.remove(
                        i as int,
                    )
                    &&& i >= old(self)@.tabs.len() ==> final(self)@.tabs == old(self)@.tabs
                },
                Message::TabSelect(i) => {
                    &&& c is Idle
                    &&& final(self)@.selected_tab == i
                    &&& final(self)@.tabs == old(self)@.tabs
                },
                Message::Http(m) => {
                    &&& final(self)@.selected_tab == old(self)@.selected_tab
                    &&& final(self)@.tabs.len() == old(self)@.tabs.len()
                    &&& old(self)@.selected_tab < old(self)@.tabs.len() ==> {
                        let i = old(self)@.selected_tab as int;
                        &&& final(self)@.tabs == old(self)@.tabs.update(i, final(self)@.tabs[i])
                        &&& update_spec(old(self)@.tabs[i], m, final(self)@.tabs[i], c)
                    }
                    &&& old(self)@.selected_tab >= old(self)@.tabs.len() ==> {
                        &&& c is Idle
                        &&& final(self)@.tabs == old(self)@.tabs
                    }
                },
            },
    {
        match message {
            Message::TabNew => {
                let mut title = String::from_str("Request #");
                let n = decimal_text(self.tabs.len() + 1);
                title.append(n.as_str());
                let h = Http::new(title);
                self.tabs.push(h);
                assert(self@.tabs.drop_last() =~= old(self)@.tabs);
                Command::Idle
            },
            Message::TabClose(i) => {
                if i < self.tabs.len() {
                    self.tabs.remove(i);
                    assert(self@.tabs =~= old(self)@.tabs.remove(i as int));
                }
                Command::Idle
            },
            Message::TabSelect(i) => {
                self.selected_tab = i;
                Command::Idle
            },
            Message::Http(m) => {
                let i = self.selected_tab;
                if i < self.tabs.len() {
                    let c = self.tabs[i].update(m);
                    assert(self@.tabs =~= old(self)@.tabs.update(i as int, self@.tabs[i as int]));
                    c
                } else {
                    Command::Idle
                }
            },
        }
    }
}

} // verus!
