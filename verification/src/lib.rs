//! The logic of a small chat client: the wire format of its messages, the text handling
//! they need, and the decisions that its window takes on each frame.

pub mod chat;
pub mod clock;
pub mod emoji;
pub mod keys;
pub mod text;
pub mod wire;
