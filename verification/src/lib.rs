//! A recursive-descent parser-combinator engine.
//!
//! A parser consumes tokens from a [`cursor::Cursor`] and returns either a
//! parsed value, a recoverable failure (sibling alternatives may still be
//! tried, and the cursor is restored), or an unrecoverable failure carrying a
//! diagnostic trace (a commit point was crossed, so no alternative may be
//! tried).  Combinators build larger parsers out of smaller ones through
//! sequencing, ordered choice, repetition, optionality, guards and commit
//! points.

pub mod choice;
pub mod commit;
pub mod cursor;
pub mod guard;
pub mod laws;
pub mod outcome;
pub mod parser;
pub mod primitive;
pub mod repeat;
pub mod sequence;
