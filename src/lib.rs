pub mod any;
pub mod dumping;
pub mod laws;
pub mod message;
pub mod net;
pub mod vtable;

pub use any::AnyMessage;
pub use dumping::ErasedMessage;
pub use message::{Message, Request};
pub use vtable::{MessageTypeId, MessageVTable, ReprLayout};
