//! The animation core of a cartoon cat face: facial-element geometry,
//! frame-by-frame easing from a current face towards a target face, the
//! table of named expressions, and the display state machine that drives
//! both and lists the shapes to render each frame.

pub mod color;
pub mod convergence;
pub mod display;
pub mod drawing;
pub mod element;
pub mod expression;
pub mod geometry;
pub mod layout;
pub mod preset;
pub mod primitive;
pub mod touch;

pub use display::KerfurDisplay;
pub use element::KerfurElements;
pub use expression::{KerfurEmote, KerfurExpression};
