// Scenario tests of the screen state machine, driven only through `dispatch`.

use okcard::App;
use okcard::CurrentScreen;
use okcard::InputEvent;
use okcard::Key;
use okcard::KeyKind;
use okcard::Step;

fn press(code: Key) -> InputEvent {
    InputEvent { kind: KeyKind::Press, code }
}

fn type_chars(app: &mut App, text: &str) {
    for c in text.chars() {
        assert_eq!(app.dispatch(press(Key::Char(c))), Step::Continue);
    }
}

/// Creates an app with `names.len()` decks, each added through the
/// AddingDeck screen, ending back on Main with nothing selected.
fn app_with_decks(names: &[&str]) -> App {
    let mut app = App::new();
    for name in names {
        assert_eq!(app.dispatch(press(Key::Char('a'))), Step::Continue);
        type_chars(&mut app, name);
        assert_eq!(app.dispatch(press(Key::Enter)), Step::Continue);
        assert_eq!(app.current_screen, CurrentScreen::Main);
    }
    app
}

#[test]
fn adding_deck_round_trip() {
    let mut app = App::new();
    assert_eq!(app.dispatch(press(Key::Char('a'))), Step::Continue);
    assert_eq!(app.current_screen, CurrentScreen::AddingDeck);
    assert!(app.adding_deck);
    type_chars(&mut app, "Biology");
    assert_eq!(app.name_input, "Biology");
    assert_eq!(app.dispatch(press(Key::Enter)), Step::Continue);
    assert_eq!(app.decks.last().unwrap().name, "Biology");
    assert_eq!(app.name_input, "");
    assert_eq!(app.current_screen, CurrentScreen::Main);
    assert!(!app.adding_deck);
    assert!(app.decks.last().unwrap().cards.is_empty());
}

#[test]
fn adding_deck_empty_name_rejected() {
    let mut app = App::new();
    assert_eq!(app.dispatch(press(Key::Char('a'))), Step::Continue);
    assert_eq!(app.dispatch(press(Key::Enter)), Step::Continue);
    assert_eq!(app.current_screen, CurrentScreen::AddingDeck);
    assert!(app.decks.is_empty());
}

#[test]
fn adding_deck_backspace_and_escape() {
    let mut app = App::new();
    assert_eq!(app.dispatch(press(Key::Char('a'))), Step::Continue);
    type_chars(&mut app, "ab");
    assert_eq!(app.dispatch(press(Key::Backspace)), Step::Continue);
    assert_eq!(app.name_input, "a");
    assert_eq!(app.dispatch(press(Key::Esc)), Step::Continue);
    assert_eq!(app.current_screen, CurrentScreen::Main);
    assert_eq!(app.name_input, "");
    assert!(!app.adding_deck);
    assert!(app.decks.is_empty());
}

#[test]
fn main_navigation_stays_in_bounds() {
    let mut app = app_with_decks(&["A", "B", "C"]);
    assert_eq!(app.selected_index, None);
    // A first k keeps nothing selected; a first j selects the top deck.
    assert_eq!(app.dispatch(press(Key::Char('k'))), Step::Continue);
    assert_eq!(app.selected_index, None);
    assert_eq!(app.dispatch(press(Key::Char('j'))), Step::Continue);
    assert_eq!(app.selected_index, Some(0));
    for _ in 0..10 {
        app.dispatch(press(Key::Char('j')));
        let i = app.selected_index.unwrap();
        assert!(i < app.decks.len());
    }
    assert_eq!(app.selected_index, Some(2));
    for _ in 0..10 {
        app.dispatch(press(Key::Char('k')));
        let i = app.selected_index.unwrap();
        assert!(i < app.decks.len());
    }
    assert_eq!(app.selected_index, Some(0));
}

#[test]
fn main_navigation_empty_decks_keeps_none() {
    let mut app = App::new();
    assert_eq!(app.dispatch(press(Key::Char('j'))), Step::Continue);
    assert_eq!(app.selected_index, None);
    assert_eq!(app.dispatch(press(Key::Char('k'))), Step::Continue);
    assert_eq!(app.selected_index, None);
}

#[test]
fn add_deck_then_view_and_back_keeps_selection() {
    let mut app = app_with_decks(&["A"]);
    assert_eq!(app.dispatch(press(Key::Char('j'))), Step::Continue);
    assert_eq!(app.selected_index, Some(0));
    let decks_before = app.decks.len();

    // addDeck("X") through the AddingDeck screen, then Main -> Enter ->
    // ViewingDeck -> q -> Main.
    assert_eq!(app.dispatch(press(Key::Char('a'))), Step::Continue);
    type_chars(&mut app, "X");
    assert_eq!(app.dispatch(press(Key::Enter)), Step::Continue);
    assert_eq!(app.dispatch(press(Key::Enter)), Step::Continue);
    assert_eq!(app.current_screen, CurrentScreen::ViewingDeck);
    assert!(!app.display_decks);
    assert_eq!(app.dispatch(press(Key::Char('q'))), Step::Continue);
    assert_eq!(app.current_screen, CurrentScreen::Main);
    assert!(app.display_decks);

    assert_eq!(app.decks.len(), decks_before + 1);
    assert_eq!(app.decks.last().unwrap().name, "X");
    assert_eq!(app.selected_index, Some(0));
}

#[test]
fn main_enter_without_selection_is_noop() {
    let mut app = app_with_decks(&["A"]);
    assert_eq!(app.dispatch(press(Key::Enter)), Step::Continue);
    assert_eq!(app.current_screen, CurrentScreen::Main);
    assert!(app.display_decks);
}

#[test]
fn editing_card_round_trip() {
    let mut app = app_with_decks(&["A"]);
    assert_eq!(app.dispatch(press(Key::Char('j'))), Step::Continue);
    assert_eq!(app.dispatch(press(Key::Enter)), Step::Continue);
    assert_eq!(app.current_screen, CurrentScreen::ViewingDeck);

    assert_eq!(app.dispatch(press(Key::Char('a'))), Step::Continue);
    assert_eq!(app.current_screen, CurrentScreen::EditingCard);
    assert_eq!(app.card_currently_editing, Some(okcard::CardFace::CardFront));
    type_chars(&mut app, "Q1");
    assert_eq!(app.dispatch(press(Key::Enter)), Step::Continue);
    assert_eq!(app.card_currently_editing, Some(okcard::CardFace::CardBack));
    type_chars(&mut app, "A1");
    assert_eq!(app.dispatch(press(Key::Enter)), Step::Continue);

    assert_eq!(app.current_screen, CurrentScreen::ViewingDeck);
    assert_eq!(app.card_currently_editing, None);
    assert_eq!(app.front_input, "");
    assert_eq!(app.back_input, "");
    let card = app.decks[0].cards.last().unwrap();
    assert_eq!(card.front, "Q1");
    assert_eq!(card.back, "A1");
    assert_eq!(card.last_guess, okcard::Guess::Unanswered);
}

#[test]
fn editing_card_empty_face_rejected() {
    let mut app = app_with_decks(&["A"]);
    app.dispatch(press(Key::Char('j')));
    app.dispatch(press(Key::Enter));
    app.dispatch(press(Key::Char('a')));
    // Front left empty; Enter moves to the back, Enter again must not commit.
    assert_eq!(app.dispatch(press(Key::Enter)), Step::Continue);
    type_chars(&mut app, "A1");
    assert_eq!(app.dispatch(press(Key::Enter)), Step::Continue);
    assert_eq!(app.current_screen, CurrentScreen::EditingCard);
    assert!(app.decks[0].cards.is_empty());
    assert_eq!(app.back_input, "A1");
}

#[test]
fn editing_card_tab_toggles_and_backspace_pops() {
    let mut app = app_with_decks(&["A"]);
    app.dispatch(press(Key::Char('j')));
    app.dispatch(press(Key::Enter));
    app.dispatch(press(Key::Char('a')));
    type_chars(&mut app, "Qx");
    assert_eq!(app.dispatch(press(Key::Backspace)), Step::Continue);
    assert_eq!(app.front_input, "Q");
    assert_eq!(app.dispatch(press(Key::Tab)), Step::Continue);
    assert_eq!(app.card_currently_editing, Some(okcard::CardFace::CardBack));
    type_chars(&mut app, "B");
    assert_eq!(app.back_input, "B");
    assert_eq!(app.front_input, "Q");
    assert_eq!(app.dispatch(press(Key::Tab)), Step::Continue);
    assert_eq!(app.card_currently_editing, Some(okcard::CardFace::CardFront));
}

#[test]
fn editing_card_escape_discards() {
    let mut app = app_with_decks(&["A"]);
    app.dispatch(press(Key::Char('j')));
    app.dispatch(press(Key::Enter));
    app.dispatch(press(Key::Char('a')));
    type_chars(&mut app, "Q");
    app.dispatch(press(Key::Tab));
    type_chars(&mut app, "B");
    assert_eq!(app.dispatch(press(Key::Esc)), Step::Continue);
    assert_eq!(app.current_screen, CurrentScreen::ViewingDeck);
    assert_eq!(app.card_currently_editing, None);
    assert_eq!(app.front_input, "");
    assert_eq!(app.back_input, "");
    assert!(app.decks[0].cards.is_empty());
}

#[test]
fn release_events_are_ignored() {
    let mut app = App::new();
    let release = InputEvent { kind: KeyKind::Release, code: Key::Char('a') };
    assert_eq!(app.dispatch(release), Step::Continue);
    assert_eq!(app.current_screen, CurrentScreen::Main);
    assert!(!app.adding_deck);
}

#[test]
fn unmatched_keys_are_noops() {
    let mut app = app_with_decks(&["A"]);
    assert_eq!(app.dispatch(press(Key::Char('z'))), Step::Continue);
    assert_eq!(app.dispatch(press(Key::Char('e'))), Step::Continue);
    assert_eq!(app.dispatch(press(Key::Tab)), Step::Continue);
    assert_eq!(app.dispatch(press(Key::Other)), Step::Continue);
    assert_eq!(app.current_screen, CurrentScreen::Main);
    assert_eq!(app.decks.len(), 1);
    assert_eq!(app.selected_index, None);
}

#[test]
fn exiting_signals() {
    let mut app = App::new();
    assert_eq!(app.dispatch(press(Key::Char('q'))), Step::Continue);
    assert_eq!(app.current_screen, CurrentScreen::Exiting);
    assert_eq!(app.dispatch(press(Key::Char('y'))), Step::Exit { dump: true });

    let mut app = App::new();
    app.dispatch(press(Key::Char('q')));
    assert_eq!(app.dispatch(press(Key::Char('n'))), Step::Exit { dump: false });

    let mut app = App::new();
    app.dispatch(press(Key::Char('q')));
    assert_eq!(app.dispatch(press(Key::Char('q'))), Step::Exit { dump: false });

    let mut app = App::new();
    app.dispatch(press(Key::Char('q')));
    assert_eq!(app.dispatch(press(Key::Char('x'))), Step::Continue);
    assert_eq!(app.current_screen, CurrentScreen::Exiting);
}

#[test]
fn invariant_holds_along_a_session() {
    let mut app = App::new();
    assert!(app.invariant_holds());
    let keys = [
        Key::Char('a'), Key::Char('D'), Key::Enter, Key::Char('j'), Key::Enter,
        Key::Char('a'), Key::Char('f'), Key::Enter, Key::Char('b'), Key::Enter,
        Key::Char('s'), Key::Char(' '), Key::Char('j'), Key::Char('q'), Key::Char('q'),
    ];
    for k in keys {
        app.dispatch(press(k));
        assert!(app.invariant_holds());
    }
}
