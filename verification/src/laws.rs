//! Laws of the transition function: what repeated cursor movement visits,
//! when the chat screen can be entered and left, which presses change
//! nothing, and that every transition preserves well-formedness.

use vstd::prelude::*;
use vstd::arithmetic::div_mod::{lemma_add_mod_noop, lemma_mod_bound, lemma_mod_self_0,
    lemma_small_mod};
use crate::state::{AppModel, Key, Screen, step};

verus! {

/// The state after `n` presses of key `k` from state `s`.
pub open spec fn press(s: AppModel, k: Key, n: nat) -> AppModel
    decreases n,
{
    if n == 0 {
        s
    } else {
        step(press(s, k, (n - 1) as nat), k)
    }
}

/// Pressing `Down` on the list screen, starting from no selection, visits
/// the indices `0, 1, ..., n-1, 0, 1, ...` of the contact list: after the
/// `n`-th press the cursor stands at `(n - 1) mod len`.
pub proof fn lemma_down_visits(s: AppModel, n: nat)
    requires
        s.screen == Screen::List,
        s.selected is None,
        0 < s.items.len() <= usize::MAX,
        n >= 1,
    ensures
        press(s, Key::Down, n).selected == Some(
            ((((n - 1) as int) % (s.items.len() as int)) as usize),
        ),
        press(s, Key::Down, n).screen == Screen::List,
        press(s, Key::Down, n).items == s.items,
    decreases n,
{
    let len: int = s.items.len() as int;
    if n == 1 {
        lemma_small_mod(0, s.items.len());
    } else {
        lemma_down_visits(s, (n - 1) as nat);
        lemma_mod_bound((n - 2) as int, len);
        let i: int = ((n - 2) as int) % len;
        if len == 1 {
            lemma_mod_bound((n - 1) as int, len);
        } else {
            lemma_add_mod_noop((n - 2) as int, 1, len);
            lemma_small_mod(1, s.items.len());
            if i + 1 == len {
                lemma_mod_self_0(len);
            } else {
                lemma_small_mod((i + 1) as nat, s.items.len());
            }
        }
    }
}

/// Pressing `Up` on the list screen, starting from no selection, visits
/// the indices `0, n-1, n-2, ..., 0, n-1, ...` of the contact list: the
/// first press selects the first entry, every further press walks
/// backwards with wraparound.
pub proof fn lemma_up_visits(s: AppModel, n: nat)
    requires
        s.screen == Screen::List,
        s.selected is None,
        0 < s.items.len() <= usize::MAX,
        n >= 1,
    ensures
        n == 1 ==> press(s, Key::Up, n).selected == Some(0usize),
        n >= 2 ==> press(s, Key::Up, n).selected == Some(
            ((s.items.len() - 1 - (((n - 2) as int) % (s.items.len() as int))) as usize),
        ),
        press(s, Key::Up, n).screen == Screen::List,
        press(s, Key::Up, n).items == s.items,
    decreases n,
{
    let len: int = s.items.len() as int;
    if n == 1 {
    } else if n == 2 {
        lemma_up_visits(s, 1);
        lemma_small_mod(0, s.items.len());
    } else {
        lemma_up_visits(s, (n - 1) as nat);
        lemma_mod_bound((n - 3) as int, len);
        let m: int = ((n - 3) as int) % len;
        if len == 1 {
            lemma_mod_bound((n - 2) as int, len);
        } else {
            lemma_add_mod_noop((n - 3) as int, 1, len);
            lemma_small_mod(1, s.items.len());
            if m == len - 1 {
                lemma_mod_self_0(len);
            } else {
                lemma_small_mod((m + 1) as nat, s.items.len());
            }
        }
    }
}

/// `Left` on the list screen clears the selection cursor, whatever it
/// held before; nothing else changes.
pub proof fn lemma_left_clears(s: AppModel)
    requires
        s.screen == Screen::List,
    ensures
        (step(s, Key::Left).selected is None),
        step(s, Key::Left) == (AppModel { selected: None, ..s }),
{
}

/// The chat screen is entered only by a newline on the list screen while
/// a contact is selected, and it carries exactly that contact's index; a
/// newline with no selection changes nothing at all.
pub proof fn lemma_chat_entry(s: AppModel, k: Key, i: usize)
    requires
        s.screen == Screen::List,
    ensures
        step(s, k).screen == Screen::Chat(i) ==> k == Key::Char('\n') && s.selected == Some(i),
        k == Key::Char('\n') && s.selected is None ==> step(s, k) == s,
{
}

/// Backspace with an empty input buffer changes nothing, on either
/// screen.
pub proof fn lemma_backspace_empty(s: AppModel)
    requires
        s.input.len() == 0,
    ensures
        step(s, Key::Backspace) == s,
{
}

/// `Esc` on the chat screen returns to the list screen and leaves
/// everything else — the selection cursor in particular — exactly as it
/// was before.
pub proof fn lemma_esc_leaves_chat(s: AppModel, i: usize)
    requires
        s.screen == Screen::Chat(i),
    ensures
        step(s, Key::Esc) == (AppModel { screen: Screen::List, ..s }),
        step(s, Key::Esc).selected == s.selected,
{
}

/// No key pressed on the chat screen moves the selection cursor, so on
/// leaving the chat it still holds what it held when the chat was entered.
pub proof fn lemma_chat_keeps_selection(s: AppModel, k: Key)
    requires
        (s.screen matches Screen::Chat(_)),
    ensures
        step(s, k).selected == s.selected,
{
}

/// The transition function preserves well-formedness, and never changes
/// the contact list.
pub proof fn lemma_step_preserves_wf(s: AppModel, k: Key)
    requires
        s.wf(),
    ensures
        step(s, k).wf(),
        step(s, k).items == s.items,
{
}

/// The message log is append-only: whatever the key, the log before the
/// transition is a prefix of the log after it.
pub proof fn lemma_log_append_only(s: AppModel, k: Key)
    ensures
        (s.messages.is_prefix_of(step(s, k).messages)),
{
}

/// The quit flag, once set, is never cleared by any transition: it stays
/// the sole and lasting termination signal.
pub proof fn lemma_quit_flag_monotone(s: AppModel, k: Key)
    requires
        s.should_quit,
    ensures
        step(s, k).should_quit,
{
}

} // verus!
