//! A flashcard deck manager: decks of front/back cards, a screen-by-screen
//! key-event state machine that drives deck creation, card editing, browsing,
//! and a learning mode that draws random cards and records self-graded
//! recall outcomes.

pub mod controller;
pub mod model;
pub mod props;

pub use controller::InputEvent;
pub use controller::Key;
pub use controller::KeyKind;
pub use controller::Step;
pub use model::App;
pub use model::AppView;
pub use model::Card;
pub use model::CardFace;
pub use model::CardView;
pub use model::CurrentScreen;
pub use model::Deck;
pub use model::DeckView;
pub use model::Guess;
pub use model::LearnError;
