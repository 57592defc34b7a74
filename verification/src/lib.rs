//! A transparent relay's inspection toolkit: a fixed-capacity binary message
//! buffer with a cursor, and the decisions a relay takes for every chunk of
//! traffic that passes through it.

pub mod codec;
pub mod error;
pub mod inspect;
pub mod message;
pub mod relay;
pub mod scalar;
pub mod text;

pub use error::NetworkMessageError;
pub use message::NetworkMessage;
pub use scalar::Scalar;
