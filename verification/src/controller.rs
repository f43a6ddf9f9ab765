//! The controller: the per-screen key-event transition table, stated as a
//! relation between the state before and after one event, and the verified
//! dispatcher that implements it.

use vstd::prelude::*;

use crate::model::App;
use crate::model::AppView;
use crate::model::CardFace;
use crate::model::CurrentScreen;
use crate::model::DeckView;
use crate::model::Guess;
use crate::model::pop_char;
use crate::model::push_char;
use crate::model::toggled;
use crate::model::with_guess;
use crate::model::with_new_card;

verus! {

/// Whether a key event is the press or the release of its key; releases are
/// ignored globally.
#[derive(Clone, Copy, PartialEq, Eq, Structural, Debug)]
pub enum KeyKind {
    Press,
    Release,
}

/// The keys the transition table knows; anything else is `Other` and is a
/// no-op on every screen.
#[derive(Clone, Copy, PartialEq, Eq, Structural, Debug)]
pub enum Key {
    Char(char),
    Enter,
    Backspace,
    Esc,
    Tab,
    Other,
}

/// One discrete keyboard input event.
#[derive(Clone, Copy, PartialEq, Eq, Structural, Debug)]
pub struct InputEvent {
    pub kind: KeyKind,
    pub code: Key,
}

/// What the event loop does after one dispatch: go on, or exit, with or
/// without the exit-time dump of the key/value buffer.
#[derive(Clone, Copy, PartialEq, Eq, Structural, Debug)]
pub enum Step {
    Continue,
    Exit { dump: bool },
}

/// Clamped move up of an optional selection index: one step toward the top,
/// never past it; no effect when nothing is selected.
pub open spec fn move_up(sel: Option<int>) -> Option<int> {
    match sel {
        Some(i) => if i > 0 {
            Some(i - 1)
        } else {
            Some(i)
        },
        None => None,
    }
}

/// Clamped move down of an optional selection index: one step toward the
/// bottom, never past it; a first press selects the top entry when the list
/// has one.
pub open spec fn move_down(sel: Option<int>, len: int) -> Option<int> {
    match sel {
        Some(i) => if i + 1 < len {
            Some(i + 1)
        } else {
            Some(i)
        },
        None => if len > 0 {
            Some(0int)
        } else {
            None
        },
    }
}

/// The text with its last character removed; unchanged when empty.
pub open spec fn popped(s: Seq<char>) -> Seq<char> {
    if s.len() > 0 {
        s.take(s.len() - 1)
    } else {
        s
    }
}

/// The transition table of the main screen.
pub open spec fn main_step(pre: AppView, code: Key, post: AppView, r: Step) -> bool {
    match code {
        Key::Char(c) => if c == 'a' {
            post == (AppView {
                current_screen: CurrentScreen::AddingDeck,
                adding_deck: true,
                ..pre
            }) && r == Step::Continue
        } else if c == 'q' {
            post == (AppView { current_screen: CurrentScreen::Exiting, ..pre })
                && r == Step::Continue
        } else if c == 'k' {
            post == (AppView { selected_index: move_up(pre.selected_index), ..pre })
                && r == Step::Continue
        } else if c == 'j' {
            post == (AppView {
                selected_index: move_down(pre.selected_index, pre.decks.len() as int),
                ..pre
            }) && r == Step::Continue
        } else {
            post == pre && r == Step::Continue
        },
        Key::Enter => if pre.selected_index is Some {
            post == (AppView {
                display_decks: false,
                current_screen: CurrentScreen::ViewingDeck,
                ..pre
            }) && r == Step::Continue
        } else {
            post == pre && r == Step::Continue
        },
        _ => post == pre && r == Step::Continue,
    }
}

/// Entering a learning round from the deck view: refused outright, with the
/// state unchanged, when the selected deck has no cards; otherwise some card
/// of the deck is drawn, front showing, and the card selection is cleared.
pub open spec fn learn_entry_step(pre: AppView, post: AppView, r: Step) -> bool {
    match pre.selected_index {
        Some(i) => if pre.selected_cards().len() > 0 {
            &&& post == (AppView {
                selected_card_index: None,
                face_showing: Some(CardFace::CardFront),
                card_currently_learning: post.card_currently_learning,
                current_screen: CurrentScreen::LearningMode,
                ..pre
            })
            &&& post.card_currently_learning matches Some(c)
                && 0 <= c < pre.selected_cards().len()
            &&& r == Step::Continue
        } else {
            post == pre && r == Step::Continue
        },
        None => post == pre && r == Step::Continue,
    }
}

/// The transition table of the deck view screen.
pub open spec fn viewing_step(pre: AppView, code: Key, post: AppView, r: Step) -> bool {
    match code {
        Key::Char(c) => if c == 'q' {
            post == (AppView {
                display_decks: true,
                current_screen: CurrentScreen::Main,
                selected_card_index: None,
                ..pre
            }) && r == Step::Continue
        } else if c == 'k' {
            post == (AppView {
                selected_card_index: move_up(pre.selected_card_index),
                ..pre
            }) && r == Step::Continue
        } else if c == 'j' {
            post == (AppView {
                selected_card_index: move_down(
                    pre.selected_card_index,
                    pre.selected_cards().len() as int,
                ),
                ..pre
            }) && r == Step::Continue
        } else if c == 'a' {
            post == (AppView {
                card_currently_editing: Some(CardFace::CardFront),
                current_screen: CurrentScreen::EditingCard,
                ..pre
            }) && r == Step::Continue
        } else if c == 's' {
            learn_entry_step(pre, post, r)
        } else {
            post == pre && r == Step::Continue
        },
        _ => post == pre && r == Step::Continue,
    }
}

/// Space or Enter in a learning round reveals the back of the drawn card;
/// once the back is showing, nothing changes.
pub open spec fn reveal_step(pre: AppView, post: AppView, r: Step) -> bool {
    if pre.face_showing == Some(CardFace::CardFront) {
        post == (AppView { face_showing: Some(CardFace::CardBack), ..pre })
            && r == Step::Continue
    } else {
        post == pre && r == Step::Continue
    }
}

/// A grading key in a learning round: the outcome is recorded on the drawn
/// card, and a new card of the same deck is drawn, front showing.
pub open spec fn grade_step(pre: AppView, g: Guess, post: AppView, r: Step) -> bool {
    match (pre.selected_index, pre.card_currently_learning) {
        (Some(i), Some(c)) => {
            &&& post == (AppView {
                decks: with_guess(pre.decks, i, c, g),
                face_showing: Some(CardFace::CardFront),
                card_currently_learning: post.card_currently_learning,
                ..pre
            })
            &&& post.card_currently_learning matches Some(c2)
                && 0 <= c2 < pre.selected_cards().len()
            &&& r == Step::Continue
        },
        _ => post == pre && r == Step::Continue,
    }
}

/// The transition table of the learning screen.
pub open spec fn learning_step(pre: AppView, code: Key, post: AppView, r: Step) -> bool {
    match code {
        Key::Char(c) => if c == ' ' {
            reveal_step(pre, post, r)
        } else if c == 'h' {
            grade_step(pre, Guess::Incorrect, post, r)
        } else if c == 'j' {
            grade_step(pre, Guess::Correct, post, r)
        } else if c == 'k' {
            grade_step(pre, Guess::Easy, post, r)
        } else if c == 'q' {
            post == (AppView {
                current_screen: CurrentScreen::ViewingDeck,
                selected_card_index: None,
                ..pre
            }) && r == Step::Continue
        } else {
            post == pre && r == Step::Continue
        },
        Key::Enter => reveal_step(pre, post, r),
        _ => post == pre && r == Step::Continue,
    }
}

/// The transition table of the deck-name entry screen. A non-empty name is
/// committed as a new deck by Enter; Esc discards the entry.
pub open spec fn adding_step(pre: AppView, code: Key, post: AppView, r: Step) -> bool {
    match code {
        Key::Enter => if pre.name_input.len() > 0 {
            post == (AppView {
                decks: pre.decks.push(
                    DeckView {
                        name: pre.name_input,
                        cards: Seq::empty(),
                        date_last_learned: post.decks.last().date_last_learned,
                    },
                ),
                name_input: Seq::empty(),
                adding_deck: false,
                current_screen: CurrentScreen::Main,
                ..pre
            }) && r == Step::Continue
        } else {
            post == pre && r == Step::Continue
        },
        Key::Backspace => post == (AppView { name_input: popped(pre.name_input), ..pre })
            && r == Step::Continue,
        Key::Esc => post == (AppView {
            name_input: Seq::empty(),
            adding_deck: false,
            current_screen: CurrentScreen::Main,
            ..pre
        }) && r == Step::Continue,
        Key::Char(c) => post == (AppView { name_input: pre.name_input.push(c), ..pre })
            && r == Step::Continue,
        _ => post == pre && r == Step::Continue,
    }
}

/// Committing the card under edit: with both faces non-empty, the card is
/// appended to the selected deck and the edit ends; an empty face is
/// silently rejected and the buffers are kept for further editing.
pub open spec fn commit_card_step(pre: AppView, post: AppView, r: Step) -> bool {
    match pre.selected_index {
        Some(i) => if pre.front_input.len() > 0 && pre.back_input.len() > 0 {
            post == (AppView {
                decks: with_new_card(pre.decks, i, pre.front_input, pre.back_input),
                front_input: Seq::empty(),
                back_input: Seq::empty(),
                current_screen: CurrentScreen::ViewingDeck,
                card_currently_editing: None,
                ..pre
            }) && r == Step::Continue
        } else {
            post == pre && r == Step::Continue
        },
        None => post == pre && r == Step::Continue,
    }
}

/// The transition table of the card editing screen. Keystrokes go to the
/// face named by `card_currently_editing`; Enter moves from the front to
/// the back, then commits; Esc discards the card.
pub open spec fn editing_step(pre: AppView, code: Key, post: AppView, r: Step) -> bool {
    match code {
        Key::Enter => match pre.card_currently_editing {
            Some(CardFace::CardFront) => post == (AppView {
                card_currently_editing: Some(CardFace::CardBack),
                ..pre
            }) && r == Step::Continue,
            Some(CardFace::CardBack) => commit_card_step(pre, post, r),
            None => post == pre && r == Step::Continue,
        },
        Key::Backspace => match pre.card_currently_editing {
            Some(CardFace::CardFront) => post == (AppView {
                front_input: popped(pre.front_input),
                ..pre
            }) && r == Step::Continue,
            Some(CardFace::CardBack) => post == (AppView {
                back_input: popped(pre.back_input),
                ..pre
            }) && r == Step::Continue,
            None => post == pre && r == Step::Continue,
        },
        Key::Esc => post == (AppView {
            front_input: Seq::empty(),
            back_input: Seq::empty(),
            card_currently_editing: None,
            current_screen: CurrentScreen::ViewingDeck,
            ..pre
        }) && r == Step::Continue,
        Key::Tab => post == (AppView {
            card_currently_editing: toggled(pre.card_currently_editing),
            ..pre
        }) && r == Step::Continue,
        Key::Char(c) => match pre.card_currently_editing {
            Some(CardFace::CardFront) => post == (AppView {
                front_input: pre.front_input.push(c),
                ..pre
            }) && r == Step::Continue,
            Some(CardFace::CardBack) => post == (AppView {
                back_input: pre.back_input.push(c),
                ..pre
            }) && r == Step::Continue,
            None => post == pre && r == Step::Continue,
        },
        _ => post == pre && r == Step::Continue,
    }
}

/// The transition table of the exit screen: `y` exits with the dump, `n` or
/// `q` exits without it; the state itself never changes here.
pub open spec fn exiting_step(pre: AppView, code: Key, post: AppView, r: Step) -> bool {
    match code {
        Key::Char(c) => if c == 'y' {
            post == pre && r == (Step::Exit { dump: true })
        } else if c == 'n' || c == 'q' {
            post == pre && r == (Step::Exit { dump: false })
        } else {
            post == pre && r == Step::Continue
        },
        _ => post == pre && r == Step::Continue,
    }
}

/// One step of the whole state machine: a release is ignored on every
/// screen, and a press goes to the table of the current screen.
pub open spec fn step_rel(pre: AppView, e: InputEvent, post: AppView, r: Step) -> bool {
    if e.kind is Release {
        post == pre && r == Step::Continue
    } else {
        match pre.current_screen {
            CurrentScreen::Main => main_step(pre, e.code, post, r),
            CurrentScreen::AddingDeck => adding_step(pre, e.code, post, r),
            CurrentScreen::ViewingDeck => viewing_step(pre, e.code, post, r),
            CurrentScreen::EditingCard => editing_step(pre, e.code, post, r),
            CurrentScreen::LearningMode => learning_step(pre, e.code, post, r),
            CurrentScreen::Exiting => exiting_step(pre, e.code, post, r),
        }
    }
}

impl App {
    /// Runtime check of the state invariant that `dispatch` requires, for
    /// unverified callers that must guard the call.
    pub fn invariant_holds(&self) -> (b: bool)
        ensures
            b == self@.inv(),
    {
        let sel_ok = match self.selected_index {
            Some(i) => i < self.decks.len(),
            None => true,
        };
        if !sel_ok {
            return false;
        }
        let card_sel_ok = match self.selected_card_index {
            Some(j) => match self.selected_index {
                Some(i) => j < self.decks[i].cards.len(),
                None => false,
            },
            None => true,
        };
        let card_sel_screen_ok = self.selected_card_index.is_none() || matches!(
            self.current_screen,
            CurrentScreen::ViewingDeck | CurrentScreen::EditingCard,
        );
        let adding_ok = self.adding_deck == matches!(
            self.current_screen,
            CurrentScreen::AddingDeck,
        );
        let display_ok = self.display_decks == matches!(
            self.current_screen,
            CurrentScreen::Main | CurrentScreen::AddingDeck | CurrentScreen::Exiting,
        );
        let deck_screen_ok = self.selected_index.is_some() || !matches!(
            self.current_screen,
            CurrentScreen::ViewingDeck | CurrentScreen::EditingCard | CurrentScreen::LearningMode,
        );
        let editing_ok = self.card_currently_editing.is_some() == matches!(
            self.current_screen,
            CurrentScreen::EditingCard,
        );
        let learning_ok = if matches!(self.current_screen, CurrentScreen::LearningMode) {
            self.face_showing.is_some() && match self.card_currently_learning {
                Some(c) => match self.selected_index {
                    Some(i) => i < self.decks.len() && c < self.decks[i].cards.len(),
                    None => false,
                },
                None => false,
            }
        } else {
            true
        };
        card_sel_ok && card_sel_screen_ok && adding_ok && display_ok && deck_screen_ok
            && editing_ok && learning_ok
    }

    /// Applies one input event to the state following the per-screen key
    /// table, and says whether the event loop goes on or exits, with or
    /// without the exit-time dump.
    pub fn dispatch(&mut self, event: InputEvent) -> (r: Step)
        requires
            old(self)@.inv(),
        ensures
            final(self)@.inv(),
            step_rel(old(self)@, event, final(self)@, r),
    {
        let ghost pre = self@;
        if matches!(event.kind, KeyKind::Release) {
            return Step::Continue;
        }
        let r: Step = match self.current_screen {
            CurrentScreen::Main => match event.code {
                Key::Char(c) => {
                    if c == 'a' {
                        self.current_screen = CurrentScreen::AddingDeck;
                        self.adding_deck = true;
                    } else if c == 'q' {
                        self.current_screen = CurrentScreen::Exiting;
                    } else if c == 'k' {
                        if let Some(index) = self.selected_index {
                            if index > 0 {
                                self.selected_index = Some(index - 1);
                            }
                        }
                    } else if c == 'j' {
                        if let Some(index) = self.selected_index {
                            let n = self.decks.len();
                            proof {
                                assert(index < self@.decks.len());
                            }
                            if index + 1 < n {
                                self.selected_index = Some(index + 1);
                            }
                        } else {
                            if self.decks.len() > 0 {
                                self.selected_index = Some(0);
                            }
                        }
                    }
                    Step::Continue
                }
                Key::Enter => {
                    if self.selected_index.is_some() {
                        self.display_decks = false;
                        self.current_screen = CurrentScreen::ViewingDeck;
                    }
                    Step::Continue
                }
                _ => Step::Continue,
            },
            CurrentScreen::ViewingDeck => match event.code {
                Key::Char(c) => {
                    if c == 'q' {
                        self.display_decks = true;
                        self.current_screen = CurrentScreen::Main;
                        self.selected_card_index = None;
                    } else if c == 'k' {
                        if let Some(index) = self.selected_card_index {
                            if index > 0 {
                                self.selected_card_index = Some(index - 1);
                            }
                        }
                    } else if c == 'j' {
                        if let Some(deck_index) = self.selected_index {
                            let n = self.decks[deck_index].cards.len();
                            if let Some(index) = self.selected_card_index {
                                proof {
                                    assert(index < pre.selected_cards().len());
                                }
                                if index + 1 < n {
                                    self.selected_card_index = Some(index + 1);
                                }
                            } else {
                                if n > 0 {
                                    self.selected_card_index = Some(0);
                                }
                            }
                        }
                    } else if c == 'a' {
                        self.card_currently_editing = Some(CardFace::CardFront);
                        self.current_screen = CurrentScreen::EditingCard;
                    } else if c == 's' {
                        if let Some(deck_index) = self.selected_index {
                            if self.decks[deck_index].cards.len() > 0 {
                                self.selected_card_index = None;
                                let _ = self.next_card_to_learn();
                                self.current_screen = CurrentScreen::LearningMode;
                            }
                        }
                    }
                    Step::Continue
                }
                _ => Step::Continue,
            },
            CurrentScreen::LearningMode => match event.code {
                Key::Char(c) => {
                    if c == ' ' {
                        if self.face_showing == Some(CardFace::CardFront) {
                            self.face_showing = Some(CardFace::CardBack);
                        }
                    } else if c == 'h' {
                        self.record_guess(Guess::Incorrect);
                        let _ = self.next_card_to_learn();
                    } else if c == 'j' {
                        self.record_guess(Guess::Correct);
                        let _ = self.next_card_to_learn();
                    } else if c == 'k' {
                        self.record_guess(Guess::Easy);
                        let _ = self.next_card_to_learn();
                    } else if c == 'q' {
                        self.current_screen = CurrentScreen::ViewingDeck;
                        self.selected_card_index = None;
                    }
                    Step::Continue
                }
                Key::Enter => {
                    if self.face_showing == Some(CardFace::CardFront) {
                        self.face_showing = Some(CardFace::CardBack);
                    }
                    Step::Continue
                }
                _ => Step::Continue,
            },
            CurrentScreen::AddingDeck => match event.code {
                Key::Enter => {
                    if !self.name_input.as_str().is_empty() {
                        let name = self.name_input.clone();
                        self.add_deck(name);
                        self.name_input = String::new();
                        self.adding_deck = false;
                        self.current_screen = CurrentScreen::Main;
                    }
                    Step::Continue
                }
                Key::Backspace => {
                    let _ = pop_char(&mut self.name_input);
                    Step::Continue
                }
                Key::Esc => {
                    self.name_input = String::new();
                    self.adding_deck = false;
                    self.current_screen = CurrentScreen::Main;
                    Step::Continue
                }
                Key::Char(c) => {
                    push_char(&mut self.name_input, c);
                    Step::Continue
                }
                _ => Step::Continue,
            },
            CurrentScreen::EditingCard => match event.code {
                Key::Enter => {
                    match self.card_currently_editing {
                        Some(CardFace::CardFront) => {
                            self.card_currently_editing = Some(CardFace::CardBack);
                        }
                        Some(CardFace::CardBack) => {
                            if !self.front_input.as_str().is_empty()
                                && !self.back_input.as_str().is_empty() {
                                self.add_card();
                                self.front_input = String::new();
                                self.back_input = String::new();
                                self.current_screen = CurrentScreen::ViewingDeck;
                                self.card_currently_editing = None;
                            }
                        }
                        None => {}
                    }
                    Step::Continue
                }
                Key::Backspace => {
                    match self.card_currently_editing {
                        Some(CardFace::CardFront) => {
                            let _ = pop_char(&mut self.front_input);
                        }
                        Some(CardFace::CardBack) => {
                            let _ = pop_char(&mut self.back_input);
                        }
                        None => {}
                    }
                    Step::Continue
                }
                Key::Esc => {
                    self.front_input = String::new();
                    self.back_input = String::new();
                    self.card_currently_editing = None;
                    self.current_screen = CurrentScreen::ViewingDeck;
                    Step::Continue
                }
                Key::Tab => {
                    self.toggle_card_currently_editing();
                    Step::Continue
                }
                Key::Char(c) => {
                    match self.card_currently_editing {
                        Some(CardFace::CardFront) => {
                            push_char(&mut self.front_input, c);
                        }
                        Some(CardFace::CardBack) => {
                            push_char(&mut self.back_input, c);
                        }
                        None => {}
                    }
                    Step::Continue
                }
                _ => Step::Continue,
            },
            CurrentScreen::Exiting => match event.code {
                Key::Char(c) => {
                    if c == 'y' {
                        Step::Exit { dump: true }
                    } else if c == 'n' || c == 'q' {
                        Step::Exit { dump: false }
                    } else {
                        Step::Continue
                    }
                }
                _ => Step::Continue,
            },
        };
        proof {
            crate::props::lemma_step_preserves_inv(pre, event, self@, r);
        }
        r
    }
}

} // verus!
