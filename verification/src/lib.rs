//! Parse lists of stringified values into lists of typed values.
//!
//! The heart of the crate is [`ParseListIterator`], a lazy adapter that
//! turns a producer of line results (each either a line of text or an I/O
//! failure) into a sequence of parse results. Each pulled element is either
//! a parsed value of the target type or a [`ParseListError`] telling the
//! caller whether reading or parsing failed at that position. A failure is
//! local to its element: the sequence goes on afterwards.

pub mod adapter;
pub mod errors;
pub mod model;
pub mod parse;

pub use adapter::{
    from_bufread_lines, from_iter, nonblank, string_result_to_item_result, LineProducer,
    ParseListIterator, VecLineProducer,
};
pub use errors::{ParseListError, ParseUintError};
pub use model::LineItem;
pub use parse::FromLine;
