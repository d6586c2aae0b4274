use vstd::prelude::*;
use vstd::string::StringExecFns;
use crate::decimal::{decimal, decimal_text};

verus! {

/// The symbologies a printer can be asked to draw.
#[derive(Clone, Copy, Debug, PartialEq, Eq)]
pub enum BarcodeSystem {
    /// Universal Product Code (UPC) System A
    UpcA,
    /// Universal Product Code (UPC) System E
    UpcE,
    /// European Article Number (EAN) System 13
    Ean13,
    /// European Article Number (EAN) System 8
    Ean8,
    /// Code 39
    Code39,
    /// Interleaved 2 of 5 (ITF)
    Itf,
    /// Codabar
    Codabar,
}

/// The customary name of a symbology.
pub open spec fn system_text(system: BarcodeSystem) -> Seq<char> {
    match system {
        BarcodeSystem::UpcA => "UPC-A"@,
        BarcodeSystem::UpcE => "UPC-E"@,
        BarcodeSystem::Ean13 => "EAN13"@,
        BarcodeSystem::Ean8 => "EAN8"@,
        BarcodeSystem::Code39 => "CODE39"@,
        BarcodeSystem::Itf => "ITF"@,
        BarcodeSystem::Codabar => "CODABAR"@,
    }
}

impl BarcodeSystem {
    pub fn describe(&self) -> (text: String)
        ensures
            text@ == system_text(*self),
    {
        match self {
            BarcodeSystem::UpcA => String::from_str("UPC-A"),
            BarcodeSystem::UpcE => String::from_str("UPC-E"),
            BarcodeSystem::Ean13 => String::from_str("EAN13"),
            BarcodeSystem::Ean8 => String::from_str("EAN8"),
            BarcodeSystem::Code39 => String::from_str("CODE39"),
            BarcodeSystem::Itf => String::from_str("ITF"),
            BarcodeSystem::Codabar => String::from_str("CODABAR"),
        }
    }
}

/// The font of the human-readable line of a barcode.
#[derive(Clone, Copy, Debug, PartialEq, Eq)]
pub enum BarcodeFont {
    A,
    B,
}

/// The letter of a barcode font.
pub open spec fn barcode_font_text(font: BarcodeFont) -> Seq<char> {
    match font {
        BarcodeFont::A => "A"@,
        BarcodeFont::B => "B"@,
    }
}

impl BarcodeFont {
    pub fn describe(&self) -> (text: String)
        ensures
            text@ == barcode_font_text(*self),
    {
        match self {
            BarcodeFont::A => String::from_str("A"),
            BarcodeFont::B => String::from_str("B"),
        }
    }
}

/// Where the human-readable line stands relative to the bars.
#[derive(Clone, Copy, Debug, PartialEq, Eq)]
pub enum BarcodeTextPosition {
    Hidden,
    Above,
    Below,
    Both,
}

/// The parameter byte of the text-position command.
pub open spec fn text_position_code(position: BarcodeTextPosition) -> u8 {
    match position {
        BarcodeTextPosition::Hidden => 0,
        BarcodeTextPosition::Above => 1,
        BarcodeTextPosition::Below => 2,
        BarcodeTextPosition::Both => 3,
    }
}

/// The lower-case name of a text position.
pub open spec fn text_position_text(position: BarcodeTextPosition) -> Seq<char> {
    match position {
        BarcodeTextPosition::Hidden => "none"@,
        BarcodeTextPosition::Above => "above"@,
        BarcodeTextPosition::Below => "below"@,
        BarcodeTextPosition::Both => "both"@,
    }
}

impl From<&BarcodeTextPosition> for u8 {
    fn from(position: &BarcodeTextPosition) -> (code: u8) {
        match position {
            BarcodeTextPosition::Hidden => 0,
            BarcodeTextPosition::Above => 1,
            BarcodeTextPosition::Below => 2,
            BarcodeTextPosition::Both => 3,
        }
    }
}

impl vstd::std_specs::convert::FromSpecImpl<&BarcodeTextPosition> for u8 {
    open spec fn obeys_from_spec() -> bool {
        true
    }

    open spec fn from_spec(position: &BarcodeTextPosition) -> u8 {
        text_position_code(*position)
    }
}

impl BarcodeTextPosition {
    pub fn describe(&self) -> (text: String)
        ensures
            text@ == text_position_text(*self),
    {
        match self {
            BarcodeTextPosition::Hidden => String::from_str("none"),
            BarcodeTextPosition::Above => String::from_str("above"),
            BarcodeTextPosition::Below => String::from_str("below"),
            BarcodeTextPosition::Both => String::from_str("both"),
        }
    }
}

/// A barcode to print: what to encode and how to draw it.
#[derive(Clone, Debug, PartialEq)]
pub struct Barcode {
    text_position: BarcodeTextPosition,
    system: BarcodeSystem,
    font: BarcodeFont,
    width: u8,
    height: u8,
    text: String,
}

/// The mathematical value of a [`Barcode`].
pub struct BarcodeModel {
    pub system: BarcodeSystem,
    pub font: BarcodeFont,
    pub width: u8,
    pub height: u8,
    pub text: Seq<char>,
    pub text_position: BarcodeTextPosition,
}

/// The barcode a builder starts from: UPC-A, width 3, height 8, no text
/// yet, the readable line below the bars in font A.
pub open spec fn default_barcode() -> BarcodeModel {
    BarcodeModel {
        system: BarcodeSystem::UpcA,
        font: BarcodeFont::A,
        width: 3,
        height: 8,
        text: Seq::empty(),
        text_position: BarcodeTextPosition::Below,
    }
}

/// What `describe` renders for a barcode.
pub open spec fn barcode_text(barcode: BarcodeModel) -> Seq<char> {
    "Barcode: system: "@ + system_text(barcode.system) + ", width: "@ + decimal_text(
        barcode.width as nat,
    ) + ", height: "@ + decimal_text(barcode.height as nat) + ", text: "@ + barcode.text
}

impl View for Barcode {
    type V = BarcodeModel;

    closed spec fn view(&self) -> BarcodeModel {
        BarcodeModel {
            system: self.system,
            font: self.font,
            width: self.width,
            height: self.height,
            text: self.text@,
            text_position: self.text_position,
        }
    }
}

impl Barcode {
    pub fn new(
        system: BarcodeSystem,
        width: u8,
        height: u8,
        text: String,
        text_position: BarcodeTextPosition,
        font: BarcodeFont,
    ) -> (barcode: Self)
        ensures
            barcode@ == (BarcodeModel { system, font, width, height, text: text@, text_position }),
    {
        Self { text_position, system, font, width, height, text }
    }

    pub fn system(&self) -> (system: &BarcodeSystem)
        ensures
            *system == self@.system,
    {
        &self.system
    }

    pub fn width(&self) -> (width: u8)
        ensures
            width == self@.width,
    {
        self.width
    }

    pub fn height(&self) -> (height: u8)
        ensures
            height == self@.height,
    {
        self.height
    }

    pub fn text(&self) -> (text: &str)
        ensures
            text@ == self@.text,
    {
        self.text.as_str()
    }

    pub fn text_position(&self) -> (position: &BarcodeTextPosition)
        ensures
            *position == self@.text_position,
    {
        &self.text_position
    }

    pub fn font(&self) -> (font: &BarcodeFont)
        ensures
            *font == self@.font,
    {
        &self.font
    }

    pub fn builder() -> (builder: BarcodeBuilder)
        ensures
            builder@ == default_barcode(),
    {
        BarcodeBuilder(Barcode::default())
    }

    pub fn describe(&self) -> (text: String)
        ensures
            text@ == barcode_text(self@),
    {
        let mut text = String::from_str("Barcode: system: ");
        text.append(self.system.describe().as_str());
        text.append(", width: ");
        text.append(decimal(self.width).as_str());
        text.append(", height: ");
        text.append(decimal(self.height).as_str());
        text.append(", text: ");
        text.append(self.text.as_str());
        text
    }
}

impl Default for Barcode {
    fn default() -> (barcode: Self)
        ensures
            barcode@ == default_barcode(),
    {
        Self::new(
            BarcodeSystem::UpcA,
            3,
            8,
            String::new(),
            BarcodeTextPosition::Below,
            BarcodeFont::A,
        )
    }
}

/// Collects the fields of a [`Barcode`], starting from the defaults.
#[derive(Clone, Debug)]
pub struct BarcodeBuilder(Barcode);

impl View for BarcodeBuilder {
    type V = BarcodeModel;

    closed spec fn view(&self) -> BarcodeModel {
        self.0@
    }
}

impl Default for BarcodeBuilder {
    fn default() -> (builder: Self)
        ensures
            builder@ == default_barcode(),
    {
        BarcodeBuilder(Barcode::default())
    }
}

impl BarcodeBuilder {
    pub fn system(self, system: BarcodeSystem) -> (builder: Self)
        ensures
            builder@ == (BarcodeModel { system, ..self@ }),
    {
        let mut builder = self;
        builder.0.system = system;
        builder
    }

    pub fn width(self, width: u8) -> (builder: Self)
        ensures
            builder@ == (BarcodeModel { width, ..self@ }),
    {
        let mut builder = self;
        builder.0.width = width;
        builder
    }

    pub fn height(self, height: u8) -> (builder: Self)
        ensures
            builder@ == (BarcodeModel { height, ..self@ }),
    {
        let mut builder = self;
        builder.0.height = height;
        builder
    }

    pub fn text(self, text: &str) -> (builder: Self)
        ensures
            builder@ == (BarcodeModel { text: text@, ..self@ }),
    {
        let mut builder = self;
        builder.0.text = String::from_str(text);
        builder
    }

    pub fn text_position(self, position: BarcodeTextPosition) -> (builder: Self)
        ensures
            builder@ == (BarcodeModel { text_position: position, ..self@ }),
    {
        let mut builder = self;
        builder.0.text_position = position;
        builder
    }

    pub fn font(self, font: BarcodeFont) -> (builder: Self)
        ensures
            builder@ == (BarcodeModel { font, ..self@ }),
    {
        let mut builder = self;
        builder.0.font = font;
        builder
    }

    pub fn build(self) -> (barcode: Barcode)
        ensures
            barcode@ == self@,
    {
        self.0
    }
}

} // verus!
