//! The data model: cards, decks, and the whole application state, together
//! with the mathematical view of each and the model operations that the
//! controller calls.

use vstd::prelude::*;
use std::collections::HashMap;

verus! {

/// Which screen the user is looking at; decides which keys are meaningful.
#[derive(Clone, Copy, PartialEq, Eq, Structural, Debug)]
pub enum CurrentScreen {
    Main,
    AddingDeck,
    ViewingDeck,
    EditingCard,
    LearningMode,
    Exiting,
}

/// One face of a card: the question side or the answer side.
#[derive(Clone, Copy, PartialEq, Eq, Structural, Debug)]
pub enum CardFace {
    CardFront,
    CardBack,
}

/// The learner's last self-graded recall outcome for a card.
#[derive(Clone, Copy, PartialEq, Eq, Structural, Debug)]
pub enum Guess {
    Easy,
    Correct,
    Incorrect,
    Unanswered,
}

/// Why a learning round could not start.
#[derive(Clone, Copy, PartialEq, Eq, Structural, Debug)]
pub enum LearnError {
    /// No deck is selected, so there is nothing to draw from.
    NoDeckSelected,
    /// The selected deck has no cards.
    NoCards,
}

/// A front/back text pair plus the last self-graded recall outcome.
pub struct Card {
    pub front: String,
    pub back: String,
    pub last_guess: Guess,
}

/// A named, ordered collection of cards.
pub struct Deck {
    pub name: String,
    pub cards: Vec<Card>,
    /// Milliseconds since the epoch; set when the deck is created.
    pub date_last_learned: i64,
}

/// The whole mutable application state: all decks, the selection and editing
/// fields, the current screen, and the key/value buffer for the exit dump.
pub struct App {
    pub selected_index: Option<usize>,
    pub selected_card_index: Option<usize>,
    pub name_input: String,
    pub front_input: String,
    pub back_input: String,
    pub decks: Vec<Deck>,
    pub pairs: HashMap<String, String>,
    pub current_screen: CurrentScreen,
    pub card_currently_editing: Option<CardFace>,
    pub adding_deck: bool,
    pub display_decks: bool,
    pub card_currently_learning: Option<usize>,
    pub face_showing: Option<CardFace>,
}

/// Mathematical view of a card.
#[verifier::ext_equal]
pub ghost struct CardView {
    pub front: Seq<char>,
    pub back: Seq<char>,
    pub last_guess: Guess,
}

/// Mathematical view of a deck.
#[verifier::ext_equal]
pub ghost struct DeckView {
    pub name: Seq<char>,
    pub cards: Seq<CardView>,
    pub date_last_learned: int,
}

/// Mathematical view of the whole application state.
#[verifier::ext_equal]
pub ghost struct AppView {
    pub selected_index: Option<int>,
    pub selected_card_index: Option<int>,
    pub name_input: Seq<char>,
    pub front_input: Seq<char>,
    pub back_input: Seq<char>,
    pub decks: Seq<DeckView>,
    pub pairs: Map<String, String>,
    pub current_screen: CurrentScreen,
    pub card_currently_editing: Option<CardFace>,
    pub adding_deck: bool,
    pub display_decks: bool,
    pub card_currently_learning: Option<int>,
    pub face_showing: Option<CardFace>,
}

/// An optional machine index, widened to a mathematical integer.
pub open spec fn opt_index(o: Option<usize>) -> Option<int> {
    match o {
        Some(i) => Some(i as int),
        None => None,
    }
}

impl View for Card {
    type V = CardView;

    open spec fn view(&self) -> CardView {
        CardView { front: self.front@, back: self.back@, last_guess: self.last_guess }
    }
}

impl View for Deck {
    type V = DeckView;

    open spec fn view(&self) -> DeckView {
        DeckView {
            name: self.name@,
            cards: self.cards@.map_values(|c: Card| c@),
            date_last_learned: self.date_last_learned as int,
        }
    }
}

impl View for App {
    type V = AppView;

    open spec fn view(&self) -> AppView {
        AppView {
            selected_index: opt_index(self.selected_index),
            selected_card_index: opt_index(self.selected_card_index),
            name_input: self.name_input@,
            front_input: self.front_input@,
            back_input: self.back_input@,
            decks: self.decks@.map_values(|d: Deck| d@),
            pairs: self.pairs@,
            current_screen: self.current_screen,
            card_currently_editing: self.card_currently_editing,
            adding_deck: self.adding_deck,
            display_decks: self.display_decks,
            card_currently_learning: opt_index(self.card_currently_learning),
            face_showing: self.face_showing,
        }
    }
}

impl AppView {
    /// The cards of the selected deck; empty when no deck is selected.
    pub open spec fn selected_cards(self) -> Seq<CardView> {
        match self.selected_index {
            Some(i) => self.decks[i].cards,
            None => Seq::empty(),
        }
    }

    /// Well-formedness of the whole state: every optional index is in bounds
    /// for the collection it points into, and the per-screen flags agree with
    /// the current screen.
    pub open spec fn inv(self) -> bool {
        &&& (self.selected_index matches Some(i) ==> 0 <= i < self.decks.len())
        &&& (self.selected_index is None ==> self.selected_card_index is None)
        &&& (self.selected_card_index matches Some(j) ==> self.selected_index is Some
            && 0 <= j < self.selected_cards().len())
        &&& (self.selected_card_index is Some ==> (self.current_screen is ViewingDeck
            || self.current_screen is EditingCard))
        &&& (self.adding_deck <==> self.current_screen is AddingDeck)
        &&& (self.display_decks <==> (self.current_screen is Main
            || self.current_screen is AddingDeck || self.current_screen is Exiting))
        &&& ((self.current_screen is ViewingDeck || self.current_screen is EditingCard
            || self.current_screen is LearningMode) ==> self.selected_index is Some)
        &&& (self.card_currently_editing is Some <==> self.current_screen is EditingCard)
        &&& (self.current_screen is LearningMode ==> {
            &&& self.face_showing is Some
            &&& self.card_currently_learning matches Some(c)
                && 0 <= c < self.selected_cards().len()
        })
    }

    /// The state of a freshly started application: no decks, nothing
    /// selected, every buffer empty, on the main screen.
    pub open spec fn init() -> AppView {
        AppView {
            selected_index: None,
            selected_card_index: None,
            name_input: Seq::empty(),
            front_input: Seq::empty(),
            back_input: Seq::empty(),
            decks: Seq::empty(),
            pairs: Map::empty(),
            current_screen: CurrentScreen::Main,
            card_currently_editing: None,
            adding_deck: false,
            display_decks: true,
            card_currently_learning: None,
            face_showing: None,
        }
    }
}

/// The face under edit after one toggle: front and back swap, and an
/// inactive edit starts at the front.
pub open spec fn toggled(f: Option<CardFace>) -> Option<CardFace> {
    match f {
        Some(CardFace::CardFront) => Some(CardFace::CardBack),
        Some(CardFace::CardBack) => Some(CardFace::CardFront),
        None => Some(CardFace::CardFront),
    }
}

/// `decks` with one new card appended to deck `i`, created with the given
/// faces and no recall outcome yet.
pub open spec fn with_new_card(
    decks: Seq<DeckView>,
    i: int,
    front: Seq<char>,
    back: Seq<char>,
) -> Seq<DeckView> {
    decks.update(
        i,
        DeckView {
            cards: decks[i].cards.push(
                CardView { front, back, last_guess: Guess::Unanswered },
            ),
            ..decks[i]
        },
    )
}

/// `decks` with the recall outcome of card `c` of deck `i` set to `g`.
pub open spec fn with_guess(decks: Seq<DeckView>, i: int, c: int, g: Guess) -> Seq<DeckView> {
    decks.update(
        i,
        DeckView {
            cards: decks[i].cards.update(
                c,
                CardView { last_guess: g, ..decks[i].cards[c] },
            ),
            ..decks[i]
        },
    )
}

/// Relies on `chrono::Utc::now` and `chrono::DateTime::timestamp_millis`:
/// the current time as milliseconds since the epoch. The value depends on
/// the clock, so nothing is promised of it.
#[verifier::external_body]
fn now_millis() -> i64 {
    chrono::Utc::now().timestamp_millis()
}

/// Relies on `rand::random_range`: a draw from the given range by the
/// thread-local generator, uniform over it. It panics on an empty range,
/// so an empty one is ruled out here.
#[verifier::external_body]
fn random_index_below(n: usize) -> (r: usize)
    requires
        n >= 1,
    ensures
        r < n,
{
    rand::random_range(0..n)
}

/// Relies on `String::push`: appends one character at the end.
#[verifier::external_body]
pub(crate) fn push_char(s: &mut String, c: char)
    ensures
        final(s)@ == old(s)@.push(c),
{
    s.push(c);
}

/// Relies on `String::pop`: removes and returns the last character, if any.
#[verifier::external_body]
pub(crate) fn pop_char(s: &mut String) -> (r: Option<char>)
    ensures
        old(s)@.len() == 0 ==> r is None && final(s)@ == old(s)@,
        old(s)@.len() > 0 ==> r == Some(old(s)@.last())
            && final(s)@ == old(s)@.take(old(s)@.len() - 1),
{
    s.pop()
}

/// A character that JSON string quoting passes through unchanged:
/// everything but the double quote, the backslash, and the control range.
pub open spec fn plain_json_char(c: char) -> bool {
    c != '"' && c != '\\' && (c as u32) >= 0x20
}

/// The lowercase hexadecimal digit of `n`, for `n < 16`.
pub open spec fn hex_digit(n: u32) -> char {
    seq!['0', '1', '2', '3', '4', '5', '6', '7', '8', '9', 'a', 'b', 'c', 'd', 'e', 'f'][n as int]
}

/// The JSON escape of one character inside a quoted string: the double
/// quote, the backslash and five named control characters get two-character
/// escapes, the other control characters get `\u00` escapes with lowercase
/// hexadecimal digits, and everything else stands as itself.
pub open spec fn json_escape_char(c: char) -> Seq<char> {
    if c == '"' {
        seq!['\\', '"']
    } else if c == '\\' {
        seq!['\\', '\\']
    } else if c == '\u{08}' {
        seq!['\\', 'b']
    } else if c == '\u{09}' {
        seq!['\\', 't']
    } else if c == '\u{0a}' {
        seq!['\\', 'n']
    } else if c == '\u{0c}' {
        seq!['\\', 'f']
    } else if c == '\u{0d}' {
        seq!['\\', 'r']
    } else if (c as u32) < 0x20 {
        seq!['\\', 'u', '0', '0', hex_digit((c as u32) >> 4), hex_digit((c as u32) & 0xf)]
    } else {
        seq![c]
    }
}

/// A string with each of its characters escaped for JSON.
pub open spec fn json_escaped(s: Seq<char>) -> Seq<char>
    decreases s.len(),
{
    if s.len() == 0 {
        Seq::empty()
    } else {
        json_escape_char(s.first()) + json_escaped(s.drop_first())
    }
}

/// A string as a JSON string literal: the escaped characters between
/// double quotes.
pub open spec fn json_quoted(s: Seq<char>) -> Seq<char> {
    seq!['"'] + json_escaped(s) + seq!['"']
}

/// The text of the entries of `m`, taken in the order of `keys` and
/// separated by commas: each entry is the quoted key, a colon, the quoted
/// value.
pub open spec fn json_entries(keys: Seq<String>, m: Map<String, String>) -> Seq<char>
    decreases keys.len(),
{
    if keys.len() == 0 {
        Seq::empty()
    } else {
        let entry = json_quoted(keys.first()@) + seq![':'] + json_quoted(m[keys.first()]@);
        if keys.len() == 1 {
            entry
        } else {
            entry + seq![','] + json_entries(keys.drop_first(), m)
        }
    }
}

/// Whether `s` is one flat JSON object holding exactly the entries of `m`,
/// its keys in some order.
pub open spec fn is_json_object_of(s: Seq<char>, m: Map<String, String>) -> bool {
    exists|keys: Seq<String>|
        {
            &&& keys.no_duplicates()
            &&& keys.to_set() == m.dom()
            &&& s == seq!['{'] + #[trigger] json_entries(keys, m) + seq!['}']
        }
}

/// Relies on `serde_json::to_string` on a map from strings to strings. It
/// cannot fail there: serialization errors come only from a failing
/// `Serialize` implementation or a non-string map key, and the writer is a
/// byte vector. It writes one flat JSON object: an opening brace, the
/// comma-separated quoted entries in the map's iteration order, a closing
/// brace. The iteration order of a hash map is no function of its
/// contents, so only "some order of the keys" is stated.
#[verifier::external_body]
fn map_to_json(pairs: &HashMap<String, String>) -> (r: Result<String, serde_json::Error>)
    ensures
        r is Ok,
        is_json_object_of(r->Ok_0@, pairs@),
{
    serde_json::to_string(pairs)
}

#[verifier::external_type_specification]
#[verifier::external_body]
pub struct ExJsonError(serde_json::Error);

impl App {
    pub fn new() -> (app: App)
        ensures
            app@ == AppView::init(),
            app@.inv(),
    {
        let app = App {
            selected_index: None,
            selected_card_index: None,
            name_input: String::new(),
            front_input: String::new(),
            back_input: String::new(),
            decks: Vec::new(),
            pairs: HashMap::new(),
            current_screen: CurrentScreen::Main,
            card_currently_editing: None,
            adding_deck: false,
            display_decks: true,
            card_currently_learning: None,
            face_showing: None,
        };
        proof {
            assert(app@ =~~= AppView::init());
        }
        app
    }

    /// Appends a new deck with the given name, no cards, and the current
    /// time as its creation stamp. The caller is responsible for rejecting
    /// empty names; the model itself accepts any.
    pub fn add_deck(&mut self, name: String)
        ensures
            final(self)@ == (AppView {
                decks: old(self)@.decks.push(
                    DeckView {
                        name: name@,
                        cards: Seq::empty(),
                        date_last_learned: final(self)@.decks.last().date_last_learned,
                    },
                ),
                ..old(self)@
            }),
    {
        let date = now_millis();
        let ghost pre = self@;
        self.decks.push(Deck { name, cards: Vec::new(), date_last_learned: date });
        proof {
            assert(self@.decks =~~= pre.decks.push(
                DeckView {
                    name: self.decks@.last().name@,
                    cards: Seq::empty(),
                    date_last_learned: date as int,
                },
            ));
            assert(self@ =~~= (AppView { decks: self@.decks, ..pre }));
        }
    }

    /// Appends a card built from the two input buffers to the selected deck,
    /// with no recall outcome yet; does nothing when no deck is selected.
    pub fn add_card(&mut self)
        requires
            old(self)@.selected_index matches Some(i) ==> 0 <= i < old(self)@.decks.len(),
        ensures
            old(self)@.selected_index matches Some(i) ==> final(self)@ == (AppView {
                decks: with_new_card(
                    old(self)@.decks,
                    i,
                    old(self)@.front_input,
                    old(self)@.back_input,
                ),
                ..old(self)@
            }),
            old(self)@.selected_index is None ==> *final(self) == *old(self),
    {
        let ghost pre = self@;
        if let Some(index) = self.selected_index {
            let card = Card {
                front: self.front_input.clone(),
                back: self.back_input.clone(),
                last_guess: Guess::Unanswered,
            };
            let deck = &mut self.decks[index];
            deck.cards.push(card);
            proof {
                assert(self@.decks =~~= with_new_card(
                    pre.decks,
                    index as int,
                    pre.front_input,
                    pre.back_input,
                ));
                assert(self@ =~~= (AppView { decks: self@.decks, ..pre }));
            }
        }
    }

    /// Starts a learning round: draws a random card of the selected deck,
    /// uniformly, and shows its front. Fails explicitly, with the state
    /// unchanged, when no deck is selected or the deck has no cards.
    pub fn next_card_to_learn(&mut self) -> (r: Result<(), LearnError>)
        requires
            old(self)@.selected_index matches Some(i) ==> 0 <= i < old(self)@.decks.len(),
        ensures
            old(self)@.selected_index is None ==> r == Err::<(), LearnError>(
                LearnError::NoDeckSelected,
            ) && *final(self) == *old(self),
            old(self)@.selected_index is Some && old(self)@.selected_cards().len() == 0
                ==> r == Err::<(), LearnError>(LearnError::NoCards) && *final(self) == *old(self),
            old(self)@.selected_index is Some && old(self)@.selected_cards().len() > 0 ==> {
                &&& r == Ok::<(), LearnError>(())
                &&& final(self)@ == (AppView {
                    face_showing: Some(CardFace::CardFront),
                    card_currently_learning: final(self)@.card_currently_learning,
                    ..old(self)@
                })
                &&& (final(self)@.card_currently_learning matches Some(c)
                    && 0 <= c < old(self)@.selected_cards().len())
            },
    {
        let ghost pre = self@;
        match self.selected_index {
            None => Err(LearnError::NoDeckSelected),
            Some(index) => {
                let n = self.decks[index].cards.len();
                if n == 0 {
                    Err(LearnError::NoCards)
                } else {
                    self.face_showing = Some(CardFace::CardFront);
                    let card_index = random_index_below(n);
                    self.card_currently_learning = Some(card_index);
                    proof {
                        assert(self@ =~~= (AppView {
                            face_showing: Some(CardFace::CardFront),
                            card_currently_learning: Some(card_index as int),
                            ..pre
                        }));
                    }
                    Ok(())
                }
            }
        }
    }

    /// Flips which face of the card under edit receives keystrokes; starts
    /// with the front when no face was active.
    pub fn toggle_card_currently_editing(&mut self)
        ensures
            final(self)@ == (AppView {
                card_currently_editing: toggled(old(self)@.card_currently_editing),
                ..old(self)@
            }),
    {
        let ghost pre = self@;
        match self.card_currently_editing {
            Some(CardFace::CardFront) => {
                self.card_currently_editing = Some(CardFace::CardBack);
            }
            Some(CardFace::CardBack) => {
                self.card_currently_editing = Some(CardFace::CardFront);
            }
            None => {
                self.card_currently_editing = Some(CardFace::CardFront);
            }
        }
        proof {
            assert(self@ =~~= (AppView {
                card_currently_editing: self@.card_currently_editing,
                ..pre
            }));
        }
    }

    /// Records the learner's self-graded outcome on the card drawn for the
    /// active learning round.
    pub fn record_guess(&mut self, outcome: Guess)
        requires
            old(self)@.selected_index matches Some(i) && 0 <= i < old(self)@.decks.len(),
            old(self)@.card_currently_learning matches Some(c)
                && 0 <= c < old(self)@.selected_cards().len(),
        ensures
            final(self)@ == (AppView {
                decks: with_guess(
                    old(self)@.decks,
                    old(self)@.selected_index.unwrap(),
                    old(self)@.card_currently_learning.unwrap(),
                    outcome,
                ),
                ..old(self)@
            }),
    {
        let ghost pre = self@;
        if let (Some(index), Some(card_index)) = (self.selected_index, self.card_currently_learning)
        {
            let deck = &mut self.decks[index];
            let card = &mut deck.cards[card_index];
            card.last_guess = outcome;
            proof {
                assert(self@.decks =~~= with_guess(
                    pre.decks,
                    index as int,
                    card_index as int,
                    outcome,
                ));
                assert(self@ =~~= (AppView { decks: self@.decks, ..pre }));
            }
        }
    }

    /// The key/value buffer serialized as one flat JSON object, for the
    /// optional exit-time dump. It always succeeds; the text holds exactly
    /// the buffer's entries, in an order of the serializer's choosing.
    pub fn pairs_json(&self) -> (r: Result<String, serde_json::Error>)
        ensures
            r is Ok,
            is_json_object_of(r->Ok_0@, self@.pairs),
    {
        map_to_json(&self.pairs)
    }
}

/// A string whose characters all need no escaping passes through JSON
/// escaping unchanged.
pub proof fn lemma_json_escaped_plain(s: Seq<char>)
    requires
        forall|i: int| 0 <= i < s.len() ==> plain_json_char(#[trigger] s[i]),
    ensures
        json_escaped(s) == s,
    decreases s.len(),
{
    if s.len() == 0 {
        assert(json_escaped(s) =~= s);
    } else {
        assert(plain_json_char(s[0]));
        assert forall|i: int|
            0 <= i < s.drop_first().len() implies plain_json_char(
            #[trigger] s.drop_first()[i],
        ) by {
            assert(s.drop_first()[i] == s[i + 1]);
        }
        lemma_json_escaped_plain(s.drop_first());
        assert(json_escaped(s) =~= s);
    }
}

/// The dump of an empty buffer is exactly `{}`.
pub proof fn lemma_json_object_of_empty(s: Seq<char>)
    requires
        is_json_object_of(s, Map::<String, String>::empty()),
    ensures
        s == seq!['{', '}'],
{
    let keys = choose|keys: Seq<String>|
        {
            &&& keys.no_duplicates()
            &&& keys.to_set() == Map::<String, String>::empty().dom()
            &&& s == seq!['{'] + #[trigger] json_entries(keys, Map::<String, String>::empty())
                + seq!['}']
        };
    if keys.len() > 0 {
        assert(keys.contains(keys[0]));
        assert(keys.to_set().contains(keys[0]));
        assert(Map::<String, String>::empty().dom().contains(keys[0]));
        assert(false);
    }
    assert(s =~= seq!['{', '}']);
}

/// The dump of a buffer with exactly one entry is fixed: the quoted key, a
/// colon, the quoted value, inside braces.
pub proof fn lemma_json_object_of_single(s: Seq<char>, m: Map<String, String>, k: String)
    requires
        is_json_object_of(s, m),
        m.dom() == Set::<String>::empty().insert(k),
    ensures
        s == seq!['{'] + json_quoted(k@) + seq![':'] + json_quoted(m[k]@) + seq!['}'],
{
    let keys = choose|keys: Seq<String>|
        {
            &&& keys.no_duplicates()
            &&& keys.to_set() == m.dom()
            &&& s == seq!['{'] + #[trigger] json_entries(keys, m) + seq!['}']
        };
    assert(m.dom().contains(k));
    assert(keys.to_set().contains(k));
    assert(keys.contains(k));
    let i = choose|i: int| 0 <= i < keys.len() && keys[i] == k;
    if keys.len() >= 2 {
        let j: int = if i == 0 {
            1
        } else {
            0
        };
        assert(keys.contains(keys[j]));
        assert(keys.to_set().contains(keys[j]));
        assert(keys[j] == k);
        assert(false);
    }
    assert(keys =~= seq![k]);
    assert(s =~= seq!['{'] + json_quoted(k@) + seq![':'] + json_quoted(m[k]@) + seq!['}']);
}

} // verus!
