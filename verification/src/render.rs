//! The render function: a pure, side-effect-free mapping from the
//! application state to a frame description. The display loop draws the
//! description; nothing here touches a terminal.

use vstd::prelude::*;
use vstd::string::StringExecFns;
use crate::state::{App, AppModel, Screen, views_of};
use crate::text::{decimal_digits, decimal_string};

verus! {

/// The frame of the list screen: the contact list as display lines with
/// the selected row marked, the index of the highlighted row, and the
/// secondary list drawn from the bottom-left corner up.
pub struct ListFrame {
    pub lines: Vec<String>,
    pub selected: Option<usize>,
    pub secondary: Vec<String>,
}

/// The frame of the chat screen: a bordered input box showing the live
/// buffer, above the message log titled with the contact's name.
pub struct ChatFrame {
    pub title: String,
    pub input: String,
    pub lines: Vec<String>,
}

/// What one redraw puts on the screen, one variant per screen.
pub enum Frame {
    List(ListFrame),
    Chat(ChatFrame),
}

/// A contact's display line: the highlight glyph before the selected
/// row's name, blank padding before every other.
pub open spec fn list_line(name: Seq<char>, marked: bool) -> Seq<char> {
    (if marked {
        "> "@
    } else {
        "  "@
    }) + name
}

/// A message-log line: the entry's index, a separator, the entry's text.
pub open spec fn message_line(idx: nat, text: Seq<char>) -> Seq<char> {
    decimal_digits(idx) + ": "@ + text
}

impl ListFrame {
    /// This frame is what state `m` renders to on the list screen.
    pub open spec fn matches_model(&self, m: AppModel) -> bool {
        &&& self.lines@.len() == m.items.len()
        &&& (forall|j: int|
            0 <= j < m.items.len() ==> self.lines@[j]@ == list_line(
                m.items[j],
                m.selected == Some(j as usize),
            ))
        &&& self.selected == m.selected
        &&& views_of(self.secondary@) == m.secondary
    }
}

impl ChatFrame {
    /// This frame is what state `m` renders to on the chat screen for the
    /// contact at index `i`.
    pub open spec fn matches_model(&self, m: AppModel, i: usize) -> bool {
        &&& self.title@ == m.items[i as int]
        &&& self.input@ == m.input
        &&& self.lines@.len() == m.messages.len()
        &&& (forall|j: int|
            0 <= j < m.messages.len() ==> self.lines@[j]@ == message_line(
                j as nat,
                m.messages[j],
            ))
    }
}

fn clone_strings(v: &Vec<String>) -> (r: Vec<String>)
    ensures
        views_of(r@) == views_of(v@),
{
    let mut r: Vec<String> = Vec::new();
    let mut j: usize = 0;
    while j < v.len()
        invariant
            j <= v.len(),
            r@.len() == j,
            forall|k: int| 0 <= k < j ==> r@[k]@ == v@[k]@,
        decreases v.len() - j,
    {
        r.push(v[j].clone());
        j += 1;
    }
    proof {
        assert(views_of(r@) =~= views_of(v@));
    }
    r
}

/// The render function: maps the current state to the frame the display
/// draws, without changing the state.
pub fn render(app: &App) -> (f: Frame)
    requires
        app.wf(),
    ensures
        app@.screen == Screen::List ==> (f matches Frame::List(lf) && lf.matches_model(app@)),
        app@.screen matches Screen::Chat(i) ==> (f matches Frame::Chat(cf)
            && cf.matches_model(app@, i)),
{
    match app.screen {
        Screen::List => {
            let mut lines: Vec<String> = Vec::new();
            let mut j: usize = 0;
            while j < app.items.len()
                invariant
                    app.wf(),
                    j <= app.items.len(),
                    lines@.len() == j,
                    forall|k: int|
                        0 <= k < j ==> lines@[k]@ == list_line(
                            app@.items[k],
                            app.selected == Some(k as usize),
                        ),
                decreases app.items.len() - j,
            {
                let marked = match app.selected {
                    Some(s) => s == j,
                    None => false,
                };
                let mut line = String::from_str(
                    if marked {
                        "> "
                    } else {
                        "  "
                    },
                );
                line.append(app.items[j].as_str());
                lines.push(line);
                j += 1;
            }
            Frame::List(
                ListFrame { lines, selected: app.selected, secondary: clone_strings(&app.secondary) },
            )
        },
        Screen::Chat(i) => {
            let title = app.items[i].clone();
            let input = app.input.clone();
            let mut lines: Vec<String> = Vec::new();
            let mut j: usize = 0;
            while j < app.messages.len()
                invariant
                    j <= app.messages.len(),
                    lines@.len() == j,
                    forall|k: int|
                        0 <= k < j ==> lines@[k]@ == message_line(k as nat, app@.messages[k]),
                decreases app.messages.len() - j,
            {
                let mut line = decimal_string(j);
                line.append(": ");
                line.append(app.messages[j].as_str());
                lines.push(line);
                j += 1;
            }
            Frame::Chat(ChatFrame { title, input, lines })
        },
    }
}

} // verus!
