//! Source locations: byte spans and line/column positions.

mod position;
mod position_order;
mod span;

pub use position::Position;
pub use span::Span;
