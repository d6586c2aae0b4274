//! The wire side: command constants, the text encoder, the transport
//! capability and the protocol encoder.

pub mod constants;
pub mod driver;
pub mod encoder;
pub mod protocol;
pub mod raster;
pub mod symbols;
pub mod wire;

pub use driver::{Driver, NoopDriver};
pub use encoder::{Codec, Encoder, Trap};
pub use protocol::Protocol;
