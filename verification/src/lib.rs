//! Encodes printing intents into the byte sequences that ESC/POS receipt
//! printers understand, and sequences them through a transport.

pub mod decimal;
pub mod domain;
pub mod error;
pub mod io;
pub mod printer;

pub use domain::{
    Alignment, Barcode, BarcodeBuilder, BarcodeFont, BarcodeSystem, BarcodeTextPosition, Font,
    Graphic, GraphicBuilder, GraphicSize, Hardware, Qr, QrBuilder, QrCorrectionLevel, QrModel,
    UnderlineMode,
};
pub use error::{Failure, PrinterError};
pub use io::constants;
pub use io::{Codec, Driver, Encoder, NoopDriver, Protocol, Trap};
pub use printer::{Printer, PrinterBuilder};
