//! The values a caller describes a print job with.

pub mod alignment;
pub mod barcode;
pub mod font;
pub mod graphic;
pub mod hardware;
pub mod qr;
pub mod underline_mode;

pub use alignment::Alignment;
pub use barcode::{
    Barcode, BarcodeBuilder, BarcodeFont, BarcodeModel, BarcodeSystem, BarcodeTextPosition,
};
pub use font::Font;
pub use graphic::{Graphic, GraphicBuilder, GraphicDraft, GraphicModel, GraphicSize};
pub use hardware::Hardware;
pub use qr::{Qr, QrBuilder, QrCorrectionLevel, QrModel, QrModelled};
pub use underline_mode::UnderlineMode;
