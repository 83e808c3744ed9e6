//! The application state and its transition function: the only place where
//! the view is switched and data is mutated, one key press at a time.

use vstd::prelude::*;
use vstd::string::StringExecFns;

verus! {

/// One key press, as far as the transition function distinguishes them.
/// Every other key a terminal can produce is `Other` and changes nothing.
#[derive(Clone, Copy, Debug, PartialEq, Eq)]
pub enum Key {
    Esc,
    Char(char),
    Backspace,
    Left,
    Up,
    Down,
    Other,
}

/// The active interaction mode: browsing the contact list, or composing
/// chat messages for the contact at the carried index.
#[derive(Clone, Copy, Debug, PartialEq, Eq)]
pub enum Screen {
    List,
    Chat(usize),
}

/// One event of the merged input/tick stream that drives the main loop.
#[derive(Clone, Copy, Debug, PartialEq, Eq)]
pub enum Event {
    Input(Key),
    Tick,
}

/// The mathematical model of the application state: the same data as
/// `App`, with every string taken as its sequence of characters.
#[verifier::ext_equal]
pub ghost struct AppModel {
    pub should_quit: bool,
    pub screen: Screen,
    pub items: Seq<Seq<char>>,
    pub selected: Option<usize>,
    pub secondary: Seq<Seq<char>>,
    pub input: Seq<char>,
    pub messages: Seq<Seq<char>>,
}

/// The character sequences of a sequence of strings.
pub open spec fn views_of(v: Seq<String>) -> Seq<Seq<char>> {
    v.map_values(|s: String| s@)
}

impl AppModel {
    /// Every index the state holds is a valid index into the contact list.
    pub open spec fn wf(self) -> bool {
        &&& (self.selected matches Some(i) ==> i < self.items.len())
        &&& (self.screen matches Screen::Chat(i) ==> i < self.items.len())
    }
}

/// The application state: everything the transition function may read or
/// change, and everything the render function draws.
pub struct App {
    pub should_quit: bool,
    pub screen: Screen,
    pub items: Vec<String>,
    pub selected: Option<usize>,
    pub secondary: Vec<String>,
    pub input: String,
    pub messages: Vec<String>,
}

impl View for App {
    type V = AppModel;

    open spec fn view(&self) -> AppModel {
        AppModel {
            should_quit: self.should_quit,
            screen: self.screen,
            items: views_of(self.items@),
            selected: self.selected,
            secondary: views_of(self.secondary@),
            input: self.input@,
            messages: views_of(self.messages@),
        }
    }
}

/// The last element moved to the front; an empty sequence is unchanged.
pub open spec fn rotated(s: Seq<Seq<char>>) -> Seq<Seq<char>> {
    if s.len() == 0 {
        s
    } else {
        seq![s.last()] + s.drop_last()
    }
}

/// Where the selection cursor moves on `Down`: first entry from no
/// selection, wrapping to the first entry past the last one. On an empty
/// contact list the cursor does not move.
pub open spec fn next_down(sel: Option<usize>, n: nat) -> Option<usize> {
    if n == 0 {
        sel
    } else {
        match sel {
            None => Some(0usize),
            Some(i) => if i + 1 >= n {
                Some(0usize)
            } else {
                Some((i + 1) as usize)
            },
        }
    }
}

/// Where the selection cursor moves on `Up`: first entry from no
/// selection, wrapping to the last entry past the first one. On an empty
/// contact list the cursor does not move.
pub open spec fn next_up(sel: Option<usize>, n: nat) -> Option<usize> {
    if n == 0 {
        sel
    } else {
        match sel {
            None => Some(0usize),
            Some(i) => if i == 0 {
                Some((n - 1) as usize)
            } else {
                Some((i - 1) as usize)
            },
        }
    }
}

/// The transition of the list screen.
pub open spec fn step_list(s: AppModel, k: Key) -> AppModel {
    match k {
        Key::Esc => AppModel { should_quit: true, ..s },
        Key::Char(c) => if c == '\n' {
            match s.selected {
                Some(i) => AppModel { screen: Screen::Chat(i), ..s },
                None => s,
            }
        } else if c == 'r' {
            AppModel { secondary: rotated(s.secondary), ..s }
        } else {
            s
        },
        Key::Left => AppModel { selected: None, ..s },
        Key::Down => AppModel { selected: next_down(s.selected, s.items.len()), ..s },
        Key::Up => AppModel { selected: next_up(s.selected, s.items.len()), ..s },
        _ => s,
    }
}

/// The transition of the chat screen.
pub open spec fn step_chat(s: AppModel, k: Key) -> AppModel {
    match k {
        Key::Esc => AppModel { screen: Screen::List, ..s },
        Key::Char(c) => if c == '\n' {
            AppModel { messages: s.messages.push(s.input), input: Seq::empty(), ..s }
        } else {
            AppModel { input: s.input.push(c), ..s }
        },
        Key::Backspace => if s.input.len() == 0 {
            s
        } else {
            AppModel { input: s.input.drop_last(), ..s }
        },
        _ => s,
    }
}

/// The transition function: one key press maps the current state to the
/// next. It is the sole place where the view switches or data changes.
pub open spec fn step(s: AppModel, k: Key) -> AppModel {
    match s.screen {
        Screen::List => step_list(s, k),
        Screen::Chat(_) => step_chat(s, k),
    }
}

/// The contact list the application starts with.
pub open spec fn initial_contacts() -> Seq<Seq<char>> {
    seq![
        "Dovy"@,
        "Ingveldur"@,
        "Gu\u{f0}mundur"@,
        "Andri"@,
        "Sigmar"@,
        "J\u{f3}n"@,
        "Gestur"@,
        "Siggi"@,
        "\u{de}\u{f3}rhildur"@,
    ]
}

/// The secondary list the application starts with.
pub open spec fn initial_secondary() -> Seq<Seq<char>> {
    seq!["test"@, "test2"@, "test3"@]
}

/// The state at startup: list screen, nothing selected, empty input
/// buffer and message log.
pub open spec fn initial_model() -> AppModel {
    AppModel {
        should_quit: false,
        screen: Screen::List,
        items: initial_contacts(),
        selected: None,
        secondary: initial_secondary(),
        input: Seq::empty(),
        messages: Seq::empty(),
    }
}

proof fn lemma_views_of_push(v: Seq<String>, x: String)
    ensures
        views_of(v.push(x)) == views_of(v).push(x@),
{
    assert(views_of(v.push(x)) =~= views_of(v).push(x@));
}

proof fn lemma_views_of_rotate(v: Seq<String>)
    requires
        v.len() > 0,
    ensures
        views_of(v.drop_last().insert(0, v.last())) == rotated(views_of(v)),
{
    assert(views_of(v.drop_last().insert(0, v.last())) =~= rotated(views_of(v)));
}

impl App {
    /// Every index the state holds is a valid index into the contact list.
    pub open spec fn wf(&self) -> bool {
        self@.wf()
    }

    /// The state at startup.
    pub fn new() -> (a: App)
        ensures
            a@ == initial_model(),
            a.wf(),
    {
        let mut items: Vec<String> = Vec::new();
        items.push(String::from_str("Dovy"));
        items.push(String::from_str("Ingveldur"));
        items.push(String::from_str("Gu\u{f0}mundur"));
        items.push(String::from_str("Andri"));
        items.push(String::from_str("Sigmar"));
        items.push(String::from_str("J\u{f3}n"));
        items.push(String::from_str("Gestur"));
        items.push(String::from_str("Siggi"));
        items.push(String::from_str("\u{de}\u{f3}rhildur"));
        let mut secondary: Vec<String> = Vec::new();
        secondary.push(String::from_str("test"));
        secondary.push(String::from_str("test2"));
        secondary.push(String::from_str("test3"));
        let a = App {
            should_quit: false,
            screen: Screen::List,
            items,
            selected: None,
            secondary,
            input: String::new(),
            messages: Vec::new(),
        };
        proof {
            assert(views_of(a.items@) =~= initial_contacts());
            assert(views_of(a.secondary@) =~= initial_secondary());
            assert(views_of(a.messages@) =~= Seq::<Seq<char>>::empty());
            assert(a@ =~= initial_model());
        }
        a
    }

    /// The idle hook run on every tick: a reserved extension point that
    /// changes nothing.
    pub fn advance(&mut self)
        ensures
            *final(self) == *old(self),
    {
    }

    /// The transition function on the live state: applies one key press.
    pub fn process_events(&mut self, input: Key)
        requires
            old(self).wf(),
        ensures
            final(self).wf(),
            final(self)@ == step(old(self)@, input),
    {
        match self.screen {
            Screen::Chat(_) => {
                match input {
                    Key::Esc => {
                        self.screen = Screen::List;
                    },
                    Key::Char(c) => {
                        if c == '\n' {
                            let msg = self.input.clone();
                            let ghost gm = msg;
                            self.input = String::new();
                            self.messages.push(msg);
                            proof {
                                lemma_views_of_push(old(self).messages@, gm);
                            }
                        } else {
                            self.input.push(c);
                        }
                    },
                    Key::Backspace => {
                        let _ = self.input.pop();
                    },
                    _ => {},
                }
            },
            Screen::List => {
                match input {
                    Key::Esc => {
                        self.should_quit = true;
                    },
                    Key::Char(c) => {
                        if c == '\n' {
                            if let Some(sel) = self.selected {
                                self.screen = Screen::Chat(sel);
                            }
                        } else if c == 'r' {
                            match self.secondary.pop() {
                                Some(last) => {
                                    let ghost gl = last;
                                    self.secondary.insert(0, last);
                                    proof {
                                        lemma_views_of_rotate(old(self).secondary@);
                                    }
                                },
                                None => {},
                            }
                        }
                    },
                    Key::Left => {
                        self.selected = None;
                    },
                    Key::Down => {
                        let n: usize = self.items.len();
                        if n > 0 {
                            self.selected = match self.selected {
                                None => Some(0),
                                Some(i) => if i + 1 >= n {
                                    Some(0)
                                } else {
                                    Some(i + 1)
                                },
                            };
                        }
                    },
                    Key::Up => {
                        let n: usize = self.items.len();
                        if n > 0 {
                            self.selected = match self.selected {
                                None => Some(0),
                                Some(i) => if i == 0 {
                                    Some(n - 1)
                                } else {
                                    Some(i - 1)
                                },
                            };
                        }
                    },
                    _ => {},
                }
            },
        }
        proof {
            assert(self@ =~= step(old(self)@, input));
        }
    }

    /// One step of the main loop's decision: an input key runs the
    /// transition function; a tick runs the idle hook and reports whether
    /// the loop must terminate.
    pub fn handle_event(&mut self, e: Event) -> (quit: bool)
        requires
            old(self).wf(),
        ensures
            final(self).wf(),
            e matches Event::Input(k) ==> final(self)@ == step(old(self)@, k) && !quit,
            e == Event::Tick ==> *final(self) == *old(self) && quit == old(self).should_quit,
    {
        match e {
            Event::Input(k) => {
                self.process_events(k);
                false
            },
            Event::Tick => {
                self.advance();
                self.should_quit
            },
        }
    }
}

} // verus!
