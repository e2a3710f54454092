//! A single chess game session under Fischer time controls: the move history,
//! the position it leads to, and the clock reading of each side.

pub mod accounting;
pub mod builder;
pub mod clock;
pub mod engine;
pub mod error;
pub mod laws;
pub mod moves;
pub mod position;
pub mod record;
pub mod session;
pub mod side;

pub use builder::ChessGameBuilder;
pub use error::SessionError;
pub use moves::Move;
pub use position::{check_shape, is_playable};
pub use record::{FieldName, RecordError, RecordFields, SessionRecord};
pub use session::ChessGame;
pub use side::Side;
