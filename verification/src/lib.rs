//! A bi-directional cursor over an owned sequence of cloneable elements.
//!
//! [`BiIterator`] walks a `Vec` forwards and backwards, can be moved to any
//! position, and can look at the elements around the position without
//! moving. Every operation is specified against [`CursorState`], the
//! mathematical model of a cursor.

pub mod error;
pub mod model;
pub mod cursor;
pub mod lemmas;

pub use cursor::BiIterator;
pub use error::CursorError;
pub use model::CursorState;
