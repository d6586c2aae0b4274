use vstd::prelude::*;
use crate::domain::alignment::Alignment;
use crate::domain::barcode::{
    text_position_code, Barcode, BarcodeFont, BarcodeModel, BarcodeSystem,
};
use crate::domain::font::Font;
use crate::domain::graphic::GraphicModel;
use crate::domain::hardware::Hardware;
use crate::domain::qr::{level_code, model_code, Qr, QrModelled};
use crate::domain::underline_mode::UnderlineMode;
use crate::error::{outcome, Failure, PrinterError};
use crate::io::constants::{
    BARCODE_FONT_A, BARCODE_FONT_B, BARCODE_HEIGHT, BARCODE_TEXT_POSITION, BARCODE_TYPE_CODABAR,
    BARCODE_TYPE_CODE39, BARCODE_TYPE_ITF, BARCODE_TYPE_JAN13_EAN13, BARCODE_TYPE_JAN8_EAN8,
    BARCODE_TYPE_UPC_A, BARCODE_TYPE_UPC_E, BARCODE_WIDTH, FONT_A, FONT_B, FONT_C, HARDWARE_INIT,
    HARDWARE_RESET, HARDWARE_SELECT, NIL, PAPER_CUT_FULL, PAPER_CUT_PARTIAL, PAPER_FEED_FORWARD,
    PAPER_FEED_REVERSE, QR_CORRECTION_ERROR_LEVEL, QR_DATA_STORE_PREFIX, QR_DATA_STORE_SUFFIX,
    QR_LEVEL, QR_PRINT, QR_SELECT_MODEL, TEXT_BOLD_MODE_OFF, TEXT_BOLD_MODE_ON,
    TEXT_DOUBLESTRIKE_OFF, TEXT_DOUBLESTRIKE_ON, TEXT_FLIP_OFF, TEXT_FLIP_ON, TEXT_JUSTIFY_CENTER,
    TEXT_JUSTIFY_LEFT, TEXT_JUSTIFY_RIGHT, TEXT_LINESPACING, TEXT_MARGIN_LEFT,
    TEXT_PRINTABLE_AREA, TEXT_RESET_LINESPACING, TEXT_REVERSE_COLOURS_OFF,
    TEXT_REVERSE_COLOURS_ON, TEXT_SIZE_SELECT, TEXT_UNDERLINE_MODE_2_ON,
    TEXT_UNDERLINE_MODE_OFF, TEXT_UNDERLINE_MODE_ON,
};
use crate::io::encoder::{default_encoder, encoded, Codec, Encoder};
use crate::io::raster::graphic_frame;
use crate::io::symbols::{
    check_digit_fits, codabar_bars, codabar_symbol, code39_bars, code39_symbol, ean13_bars,
    ean13_symbol, ean8_bars, ean8_symbol, has_fitting_check_digit, itf_bars, itf_symbol,
};
use crate::io::wire::{le16, u16_le};

verus! {

/// The command that addresses the device.
pub open spec fn hardware_bytes(hardware: Hardware) -> Seq<u8> {
    match hardware {
        Hardware::Init => HARDWARE_INIT@,
        Hardware::Select => HARDWARE_SELECT@,
        Hardware::Reset => HARDWARE_RESET@,
    }
}

/// The command that selects a font.
pub open spec fn font_bytes(font: Font) -> Seq<u8> {
    match font {
        Font::A => FONT_A@,
        Font::B => FONT_B@,
        Font::C => FONT_C@,
    }
}

/// The command that justifies the text.
pub open spec fn align_bytes(alignment: Alignment) -> Seq<u8> {
    match alignment {
        Alignment::Left => TEXT_JUSTIFY_LEFT@,
        Alignment::Center => TEXT_JUSTIFY_CENTER@,
        Alignment::Right => TEXT_JUSTIFY_RIGHT@,
    }
}

/// The command that turns double strike on or off.
pub open spec fn doublestrike_bytes(enabled: bool) -> Seq<u8> {
    if enabled {
        TEXT_DOUBLESTRIKE_ON@
    } else {
        TEXT_DOUBLESTRIKE_OFF@
    }
}

/// The command that turns upside-down printing on or off.
pub open spec fn flip_bytes(enabled: bool) -> Seq<u8> {
    if enabled {
        TEXT_FLIP_ON@
    } else {
        TEXT_FLIP_OFF@
    }
}

/// The command that turns bold on or off.
pub open spec fn bold_bytes(enabled: bool) -> Seq<u8> {
    if enabled {
        TEXT_BOLD_MODE_ON@
    } else {
        TEXT_BOLD_MODE_OFF@
    }
}

/// The command that turns white-on-black printing on or off.
pub open spec fn reverse_colours_bytes(enabled: bool) -> Seq<u8> {
    if enabled {
        TEXT_REVERSE_COLOURS_ON@
    } else {
        TEXT_REVERSE_COLOURS_OFF@
    }
}

/// The command that selects an underline mode.
pub open spec fn underline_bytes(mode: UnderlineMode) -> Seq<u8> {
    match mode {
        UnderlineMode::Off => TEXT_UNDERLINE_MODE_OFF@,
        UnderlineMode::Single => TEXT_UNDERLINE_MODE_ON@,
        UnderlineMode::Double => TEXT_UNDERLINE_MODE_2_ON@,
    }
}

/// The command that cuts the paper.
pub open spec fn cut_bytes(partial: bool) -> Seq<u8> {
    if partial {
        PAPER_CUT_PARTIAL@
    } else {
        PAPER_CUT_FULL@
    }
}

/// The command that sets the line spacing.
pub open spec fn linespacing_bytes(height: u8) -> Seq<u8> {
    TEXT_LINESPACING@.push(height)
}

/// The command that feeds `n` lines.
pub open spec fn feed_bytes(n: u8) -> Seq<u8> {
    PAPER_FEED_FORWARD@.push(n)
}

/// The command that feeds `n` lines backwards.
pub open spec fn reverse_feed_bytes(n: u8) -> Seq<u8> {
    PAPER_FEED_REVERSE@.push(n)
}

/// The command that sets the left margin, in dots.
pub open spec fn left_bytes(dots: u16) -> Seq<u8> {
    TEXT_MARGIN_LEFT@ + le16(dots)
}

/// The command that sets the width of the printable area, in dots.
pub open spec fn width_bytes(dots: u16) -> Seq<u8> {
    TEXT_PRINTABLE_AREA@ + le16(dots)
}

/// Whether a text-size multiplier is one the printer has.
pub open spec fn is_multiplier(multiplier: u8) -> bool {
    1 <= multiplier <= 8
}

/// The parameter of the text-size command: the width scale less one in
/// the high nibble, the height scale less one in the low nibble.
pub open spec fn size_byte(width_multiplier: u8, height_multiplier: u8) -> u8
    recommends
        is_multiplier(width_multiplier),
        is_multiplier(height_multiplier),
{
    (((width_multiplier - 1) as u8) << 4) | ((height_multiplier - 1) as u8)
}

/// What the text-size command is for two multipliers: the command, or the
/// refusal of the first multiplier that is out of range.
pub open spec fn text_size_frame(width_multiplier: u8, height_multiplier: u8) -> Result<
    Seq<u8>,
    Failure,
> {
    if !is_multiplier(width_multiplier) {
        Err(Failure::Input("Invalid width multiplier"@))
    } else if !is_multiplier(height_multiplier) {
        Err(Failure::Input("Invalid height multiplier"@))
    } else {
        Ok(TEXT_SIZE_SELECT@.push(size_byte(width_multiplier, height_multiplier)))
    }
}

/// What a line of text is on the wire: one line feed, then the text in
/// the encoder's character set.
pub open spec fn println_frame(encoder: Encoder, text: Seq<char>) -> Result<Seq<u8>, Failure> {
    match encoded(encoder, text) {
        Ok(bytes) => Ok(feed_bytes(1) + bytes),
        Err(failure) => Err(failure),
    }
}

/// Turns print requests into the bytes of the printer's command
/// language. It keeps nothing between requests but its text encoder.
#[derive(Clone, Copy, Debug, PartialEq, Eq)]
pub struct Protocol {
    pub encoder: Encoder,
}

impl Default for Protocol {
    fn default() -> (protocol: Self)
        ensures
            protocol.encoder == default_encoder(),
    {
        Self { encoder: Encoder::default() }
    }
}

impl Protocol {
    pub fn new(encoder: Encoder) -> (protocol: Self)
        ensures
            protocol.encoder == encoder,
    {
        Self { encoder }
    }

    pub fn hardware(&mut self, hardware: Hardware) -> (bytes: &'static [u8])
        ensures
            bytes@ == hardware_bytes(hardware),
            *final(self) == *old(self),
    {
        match hardware {
            Hardware::Init => &HARDWARE_INIT,
            Hardware::Select => &HARDWARE_SELECT,
            Hardware::Reset => &HARDWARE_RESET,
        }
    }

    pub fn font(&mut self, font: Font) -> (bytes: &'static [u8])
        ensures
            bytes@ == font_bytes(font),
            *final(self) == *old(self),
    {
        match font {
            Font::A => &FONT_A,
            Font::B => &FONT_B,
            Font::C => &FONT_C,
        }
    }

    pub fn align(&mut self, alignment: Alignment) -> (bytes: &'static [u8])
        ensures
            bytes@ == align_bytes(alignment),
            *final(self) == *old(self),
    {
        match alignment {
            Alignment::Left => &TEXT_JUSTIFY_LEFT,
            Alignment::Center => &TEXT_JUSTIFY_CENTER,
            Alignment::Right => &TEXT_JUSTIFY_RIGHT,
        }
    }

    pub fn doublestrike(&mut self, enabled: bool) -> (bytes: &'static [u8])
        ensures
            bytes@ == doublestrike_bytes(enabled),
            *final(self) == *old(self),
    {
        if enabled {
            &TEXT_DOUBLESTRIKE_ON
        } else {
            &TEXT_DOUBLESTRIKE_OFF
        }
    }

    pub fn linespacing(&mut self, height: u8) -> (r: Result<Vec<u8>, PrinterError>)
        ensures
            outcome(r) == Ok::<Seq<u8>, Failure>(linespacing_bytes(height)),
            *final(self) == *old(self),
    {
        let mut buffer = Vec::new();
        buffer.extend_from_slice(&TEXT_LINESPACING);
        buffer.push(height);
        assert(buffer@ =~= linespacing_bytes(height));
        Ok(buffer)
    }

    pub fn flip(&mut self, enabled: bool) -> (bytes: &'static [u8])
        ensures
            bytes@ == flip_bytes(enabled),
            *final(self) == *old(self),
    {
        if enabled {
            &TEXT_FLIP_ON
        } else {
            &TEXT_FLIP_OFF
        }
    }

    pub fn reset_linespacing(&mut self) -> (bytes: &'static [u8])
        ensures
            bytes@ == TEXT_RESET_LINESPACING@,
            *final(self) == *old(self),
    {
        &TEXT_RESET_LINESPACING
    }

    pub fn bold(&mut self, enabled: bool) -> (bytes: &'static [u8])
        ensures
            bytes@ == bold_bytes(enabled),
            *final(self) == *old(self),
    {
        if enabled {
            &TEXT_BOLD_MODE_ON
        } else {
            &TEXT_BOLD_MODE_OFF
        }
    }

    pub fn underline(&mut self, mode: UnderlineMode) -> (bytes: &'static [u8])
        ensures
            bytes@ == underline_bytes(mode),
            *final(self) == *old(self),
    {
        match mode {
            UnderlineMode::Off => &TEXT_UNDERLINE_MODE_OFF,
            UnderlineMode::Single => &TEXT_UNDERLINE_MODE_ON,
            UnderlineMode::Double => &TEXT_UNDERLINE_MODE_2_ON,
        }
    }

    pub fn text_size(&mut self, width_multiplier: u8, height_multiplier: u8) -> (r: Result<
        Vec<u8>,
        PrinterError,
    >)
        ensures
            outcome(r) == text_size_frame(width_multiplier, height_multiplier),
            *final(self) == *old(self),
    {
        if !(1 <= width_multiplier && width_multiplier <= 8) {
            return Err(PrinterError::input("Invalid width multiplier"));
        }
        if !(1 <= height_multiplier && height_multiplier <= 8) {
            return Err(PrinterError::input("Invalid height multiplier"));
        }
        let wide: u8 = width_multiplier - 1;
        let high: u8 = height_multiplier - 1;
        assert(16 * wide + high == (wide << 4) | high) by (bit_vector)
            requires
                wide < 8,
                high < 8,
        ;
        let mut buffer = Vec::new();
        buffer.extend_from_slice(&TEXT_SIZE_SELECT);
        buffer.push(16 * wide + high);
        assert(buffer@ =~= TEXT_SIZE_SELECT@.push(size_byte(width_multiplier, height_multiplier)));
        Ok(buffer)
    }

    pub fn reset(&mut self) -> (bytes: &'static [u8])
        ensures
            bytes@ == HARDWARE_RESET@,
            *final(self) == *old(self),
    {
        &HARDWARE_RESET
    }

    pub fn init(&mut self) -> (bytes: &'static [u8])
        ensures
            bytes@ == HARDWARE_INIT@,
            *final(self) == *old(self),
    {
        &HARDWARE_INIT
    }

    pub fn feed(&mut self, n: u8) -> (r: Result<Vec<u8>, PrinterError>)
        ensures
            outcome(r) == Ok::<Seq<u8>, Failure>(feed_bytes(n)),
            *final(self) == *old(self),
    {
        let mut buffer = Vec::new();
        buffer.extend_from_slice(&PAPER_FEED_FORWARD);
        buffer.push(n);
        assert(buffer@ =~= feed_bytes(n));
        Ok(buffer)
    }

    pub fn reverse_feed(&mut self, n: u8) -> (r: Result<Vec<u8>, PrinterError>)
        ensures
            outcome(r) == Ok::<Seq<u8>, Failure>(reverse_feed_bytes(n)),
            *final(self) == *old(self),
    {
        let mut buffer = Vec::new();
        buffer.extend_from_slice(&PAPER_FEED_REVERSE);
        buffer.push(n);
        assert(buffer@ =~= reverse_feed_bytes(n));
        Ok(buffer)
    }

    pub fn reverse_colours(&self, enabled: bool) -> (r: Result<Vec<u8>, PrinterError>)
        ensures
            outcome(r) == Ok::<Seq<u8>, Failure>(reverse_colours_bytes(enabled)),
    {
        let mut buffer = Vec::new();
        if enabled {
            buffer.extend_from_slice(&TEXT_REVERSE_COLOURS_ON);
        } else {
            buffer.extend_from_slice(&TEXT_REVERSE_COLOURS_OFF);
        }
        assert(buffer@ =~= reverse_colours_bytes(enabled));
        Ok(buffer)
    }

    pub fn left(&self, dots: u16) -> (r: Result<Vec<u8>, PrinterError>)
        ensures
            outcome(r) == Ok::<Seq<u8>, Failure>(left_bytes(dots)),
    {
        let mut buffer = Vec::new();
        buffer.extend_from_slice(&TEXT_MARGIN_LEFT);
        buffer.extend_from_slice(&u16_le(dots));
        assert(buffer@ =~= left_bytes(dots));
        Ok(buffer)
    }

    pub fn width(&self, dots: u16) -> (r: Result<Vec<u8>, PrinterError>)
        ensures
            outcome(r) == Ok::<Seq<u8>, Failure>(width_bytes(dots)),
    {
        let mut buffer = Vec::new();
        buffer.extend_from_slice(&TEXT_PRINTABLE_AREA);
        buffer.extend_from_slice(&u16_le(dots));
        assert(buffer@ =~= width_bytes(dots));
        Ok(buffer)
    }

    pub fn cut(&mut self, partial: bool) -> (r: Result<Vec<u8>, PrinterError>)
        ensures
            outcome(r) == Ok::<Seq<u8>, Failure>(cut_bytes(partial)),
            *final(self) == *old(self),
    {
        let mut buffer = Vec::new();
        if partial {
            buffer.extend_from_slice(&PAPER_CUT_PARTIAL);
        } else {
            buffer.extend_from_slice(&PAPER_CUT_FULL);
        }
        assert(buffer@ =~= cut_bytes(partial));
        Ok(buffer)
    }

    /// The text in the encoder's character set, with nothing around it.
    pub fn print(&mut self, text: &str) -> (r: Result<Vec<u8>, PrinterError>)
        ensures
            outcome(r) == encoded(old(self).encoder, text@),
            old(self).encoder.codec == Codec::Utf8 ==> outcome(r) == Ok::<Seq<u8>, Failure>(
                vstd::utf8::encode_utf8(text@),
            ),
            *final(self) == *old(self),
    {
        self.encoder.encode(text)
    }

    pub fn println(&mut self, text: &str) -> (r: Result<Vec<u8>, PrinterError>)
        ensures
            outcome(r) == println_frame(old(self).encoder, text@),
            old(self).encoder.codec == Codec::Utf8 ==> outcome(r) == Ok::<Seq<u8>, Failure>(
                feed_bytes(1) + vstd::utf8::encode_utf8(text@),
            ),
            *final(self) == *old(self),
    {
        let feed = self.feed(1)?;
        let print = self.print(text)?;
        let mut buffer = Vec::new();
        buffer.extend_from_slice(feed.as_slice());
        buffer.extend_from_slice(print.as_slice());
        assert(buffer@ =~= feed_bytes(1) + print@);
        Ok(buffer)
    }

    pub fn text(&mut self, text: &str) -> (r: Result<Vec<u8>, PrinterError>)
        ensures
            outcome(r) == println_frame(old(self).encoder, text@),
            old(self).encoder.codec == Codec::Utf8 ==> outcome(r) == Ok::<Seq<u8>, Failure>(
                feed_bytes(1) + vstd::utf8::encode_utf8(text@),
            ),
            *final(self) == *old(self),
    {
        self.println(text)
    }
}

/// The longest text, in bytes, whose length and the three bytes counted
/// with it fit the sixteen-bit length field of the QR data command.
pub const QR_TEXT_LIMIT: usize = 65532;

/// The five commands that print a QR code: select the model, set the module
/// size, set the correction level, store the data, print what is stored.
/// The length field of the store command counts the text and three bytes
/// more, those of the fixed suffix that follows it.
pub open spec fn qr_commands(qr: QrModelled) -> Seq<u8> {
    let text = vstd::utf8::encode_utf8(qr.text);
    QR_SELECT_MODEL@.push(model_code(qr.model)) + QR_LEVEL@.push(qr.size)
        + QR_CORRECTION_ERROR_LEVEL@.push(level_code(qr.correction_level)) + QR_DATA_STORE_PREFIX@
        + le16((text.len() + 3) as u16) + QR_DATA_STORE_SUFFIX@ + text + QR_PRINT@
}

/// What a QR code is on the wire: its commands, or a refusal where the
/// length field cannot hold the text's length.
pub open spec fn qr_frame(qr: QrModelled) -> Result<Seq<u8>, Failure> {
    if vstd::utf8::encode_utf8(qr.text).len() > QR_TEXT_LIMIT {
        Err(Failure::Input("QR text too long"@))
    } else {
        Ok(qr_commands(qr))
    }
}

/// The command that selects a symbology.
pub open spec fn system_bytes(system: BarcodeSystem) -> Seq<u8> {
    match system {
        BarcodeSystem::UpcA => BARCODE_TYPE_UPC_A@,
        BarcodeSystem::UpcE => BARCODE_TYPE_UPC_E@,
        BarcodeSystem::Ean13 => BARCODE_TYPE_JAN13_EAN13@,
        BarcodeSystem::Ean8 => BARCODE_TYPE_JAN8_EAN8@,
        BarcodeSystem::Code39 => BARCODE_TYPE_CODE39@,
        BarcodeSystem::Itf => BARCODE_TYPE_ITF@,
        BarcodeSystem::Codabar => BARCODE_TYPE_CODABAR@,
    }
}

/// The command that selects the font of the readable line.
pub open spec fn barcode_font_bytes(font: BarcodeFont) -> Seq<u8> {
    match font {
        BarcodeFont::A => BARCODE_FONT_A@,
        BarcodeFont::B => BARCODE_FONT_B@,
    }
}

/// The bars of `text` in a symbology, as the symbol encoder draws them;
/// nothing where it refuses the text. Both UPC systems are drawn as
/// EAN-13. An interleaved 2 of 5 text whose check digit cannot be
/// computed in eight bits is refused here.
pub open spec fn symbol(system: BarcodeSystem, text: Seq<char>) -> Option<Seq<u8>> {
    match system {
        BarcodeSystem::UpcA => ean13_symbol(text),
        BarcodeSystem::UpcE => ean13_symbol(text),
        BarcodeSystem::Ean13 => ean13_symbol(text),
        BarcodeSystem::Ean8 => ean8_symbol(text),
        BarcodeSystem::Code39 => code39_symbol(text),
        BarcodeSystem::Itf => if check_digit_fits(text) {
            itf_symbol(text)
        } else {
            None
        },
        BarcodeSystem::Codabar => codabar_symbol(text),
    }
}

/// The message with which a text is refused for a symbology.
pub open spec fn symbol_refusal(system: BarcodeSystem) -> Seq<char> {
    match system {
        BarcodeSystem::UpcA => "Invalid UPCA barcode"@,
        BarcodeSystem::UpcE => "Invalid UPCA barcode"@,
        BarcodeSystem::Ean13 => "Invalid EAN13 barcode"@,
        BarcodeSystem::Ean8 => "Invalid EAN8 barcode"@,
        BarcodeSystem::Code39 => "Invalid Code39 barcode"@,
        BarcodeSystem::Itf => "Invalid ITF barcode"@,
        BarcodeSystem::Codabar => "Invalid Codabar barcode"@,
    }
}

/// The commands that print a barcode whose bars are `bars`, in their
/// fixed order: symbology, height, width, font, text position, the bars,
/// and one closing zero. Height and width go out as the barcode holds
/// them; whether the device has such a scale is left to the device.
pub open spec fn barcode_commands(barcode: BarcodeModel, bars: Seq<u8>) -> Seq<u8> {
    system_bytes(barcode.system) + BARCODE_HEIGHT@.push(barcode.height) + BARCODE_WIDTH@.push(
        barcode.width,
    ) + barcode_font_bytes(barcode.font) + BARCODE_TEXT_POSITION@.push(
        text_position_code(barcode.text_position),
    ) + bars + seq![NIL]
}

/// What a barcode is on the wire, given what the symbol encoder made of
/// its text.
pub open spec fn barcode_frame_of(barcode: BarcodeModel, drawn: Option<Seq<u8>>) -> Result<
    Seq<u8>,
    Failure,
> {
    match drawn {
        Some(bars) => Ok(barcode_commands(barcode, bars)),
        None => Err(Failure::Input(symbol_refusal(barcode.system))),
    }
}

/// What a barcode is on the wire.
pub open spec fn barcode_frame(barcode: BarcodeModel) -> Result<Seq<u8>, Failure> {
    barcode_frame_of(barcode, symbol(barcode.system, barcode.text))
}

/// Frames a barcode around the bars the symbol encoder drew, or refuses
/// it where the encoder drew none.
pub fn frame_barcode(barcode: &Barcode, drawn: Option<Vec<u8>>) -> (r: Result<
    Vec<u8>,
    PrinterError,
>)
    ensures
        outcome(r) == barcode_frame_of(
            barcode@,
            match drawn {
                Some(bars) => Some(bars@),
                None => None,
            },
        ),
{
    let bars = match drawn {
        Some(bars) => bars,
        None => {
            let refusal = match barcode.system() {
                BarcodeSystem::UpcA => "Invalid UPCA barcode",
                BarcodeSystem::UpcE => "Invalid UPCA barcode",
                BarcodeSystem::Ean13 => "Invalid EAN13 barcode",
                BarcodeSystem::Ean8 => "Invalid EAN8 barcode",
                BarcodeSystem::Code39 => "Invalid Code39 barcode",
                BarcodeSystem::Itf => "Invalid ITF barcode",
                BarcodeSystem::Codabar => "Invalid Codabar barcode",
            };
            return Err(PrinterError::input(refusal));
        },
    };
    let mut buffer = Vec::new();
    match barcode.system() {
        BarcodeSystem::UpcA => buffer.extend_from_slice(&BARCODE_TYPE_UPC_A),
        BarcodeSystem::UpcE => buffer.extend_from_slice(&BARCODE_TYPE_UPC_E),
        BarcodeSystem::Ean13 => buffer.extend_from_slice(&BARCODE_TYPE_JAN13_EAN13),
        BarcodeSystem::Ean8 => buffer.extend_from_slice(&BARCODE_TYPE_JAN8_EAN8),
        BarcodeSystem::Code39 => buffer.extend_from_slice(&BARCODE_TYPE_CODE39),
        BarcodeSystem::Itf => buffer.extend_from_slice(&BARCODE_TYPE_ITF),
        BarcodeSystem::Codabar => buffer.extend_from_slice(&BARCODE_TYPE_CODABAR),
    }
    buffer.extend_from_slice(&BARCODE_HEIGHT);
    buffer.push(barcode.height());
    buffer.extend_from_slice(&BARCODE_WIDTH);
    buffer.push(barcode.width());
    match barcode.font() {
        BarcodeFont::A => buffer.extend_from_slice(&BARCODE_FONT_A),
        BarcodeFont::B => buffer.extend_from_slice(&BARCODE_FONT_B),
    }
    buffer.extend_from_slice(&BARCODE_TEXT_POSITION);
    buffer.push(u8::from(barcode.text_position()));
    buffer.extend_from_slice(bars.as_slice());
    buffer.push(NIL);
    assert(buffer@ =~= barcode_commands(barcode@, bars@));
    Ok(buffer)
}

/// Draws the bars of a text in a symbology.
pub fn draw_symbol(system: &BarcodeSystem, text: &str) -> (drawn: Option<Vec<u8>>)
    ensures
        match drawn {
            Some(bars) => symbol(*system, text@) == Some(bars@),
            None => symbol(*system, text@) is None,
        },
{
    let drawn = match system {
        BarcodeSystem::UpcA => ean13_bars(text),
        BarcodeSystem::UpcE => ean13_bars(text),
        BarcodeSystem::Ean13 => ean13_bars(text),
        BarcodeSystem::Ean8 => ean8_bars(text),
        BarcodeSystem::Code39 => code39_bars(text),
        BarcodeSystem::Itf => {
            if !has_fitting_check_digit(text) {
                return None;
            }
            itf_bars(text)
        },
        BarcodeSystem::Codabar => codabar_bars(text),
    };
    match drawn {
        Ok(bars) => Some(bars),
        Err(_) => None,
    }
}

impl Protocol {
    pub fn qr(&mut self, qr: Qr) -> (r: Result<Vec<u8>, PrinterError>)
        ensures
            outcome(r) == qr_frame(qr@),
            *final(self) == *old(self),
    {
        let level = u8::from(qr.correction_level());
        let model = u8::from(qr.model());
        let size = qr.size();
        let text = qr.text().as_bytes();
        if text.len() > QR_TEXT_LIMIT {
            return Err(PrinterError::input("QR text too long"));
        }
        let mut buffer = Vec::new();

        // select the QR code model
        buffer.extend_from_slice(&QR_SELECT_MODEL);
        buffer.push(model);

        // set the size of the QR code
        buffer.extend_from_slice(&QR_LEVEL);
        buffer.push(size);

        // set the error correction level
        buffer.extend_from_slice(&QR_CORRECTION_ERROR_LEVEL);
        buffer.push(level);

        // store the data
        buffer.extend_from_slice(&QR_DATA_STORE_PREFIX);
        buffer.extend_from_slice(&u16_le((text.len() + 3) as u16));
        buffer.extend_from_slice(&QR_DATA_STORE_SUFFIX);
        let ghost head = buffer@;
        assert(head =~= QR_SELECT_MODEL@.push(model_code(qr@.model)) + QR_LEVEL@.push(qr@.size)
            + QR_CORRECTION_ERROR_LEVEL@.push(level_code(qr@.correction_level))
            + QR_DATA_STORE_PREFIX@ + le16((text@.len() + 3) as u16) + QR_DATA_STORE_SUFFIX@);
        buffer.extend_from_slice(text);

        // print the QR code
        buffer.extend_from_slice(&QR_PRINT);
        assert(buffer@ =~= head + text@ + QR_PRINT@);
        Ok(buffer)
    }

    pub fn barcode(&mut self, barcode: Barcode) -> (r: Result<Vec<u8>, PrinterError>)
        ensures
            outcome(r) == barcode_frame(barcode@),
            *final(self) == *old(self),
    {
        let drawn = draw_symbol(barcode.system(), barcode.text());
        frame_barcode(&barcode, drawn)
    }
}

/// The length field of the store command of a QR code stands at bytes 28
/// and 29 of its frame and holds the text's length in bytes and three
/// more, the low byte first.
pub proof fn lemma_qr_length_field(qr: QrModelled)
    requires
        vstd::utf8::encode_utf8(qr.text).len() <= QR_TEXT_LIMIT,
    ensures
        qr_frame(qr) is Ok,
        qr_frame(qr)->Ok_0.len() == 41 + vstd::utf8::encode_utf8(qr.text).len(),
        qr_frame(qr)->Ok_0.subrange(28, 30) == le16(
            (vstd::utf8::encode_utf8(qr.text).len() + 3) as u16,
        ),
        qr_frame(qr)->Ok_0[28] + 256 * qr_frame(qr)->Ok_0[29] == vstd::utf8::encode_utf8(
            qr.text,
        ).len() + 3,
{
    let frame = qr_frame(qr)->Ok_0;
    assert(frame.subrange(28, 30) =~= le16((vstd::utf8::encode_utf8(qr.text).len() + 3) as u16));
}

/// A barcode that the symbol encoder accepts goes out as the symbology's
/// command, the height, width, font and text-position commands in that
/// order, each with the value the barcode holds, the bars as drawn, and
/// one closing zero.
pub proof fn lemma_barcode_layout(barcode: BarcodeModel)
    requires
        symbol(barcode.system, barcode.text) is Some,
    ensures
        barcode_frame(barcode) is Ok,
        ({
            let frame = barcode_frame(barcode)->Ok_0;
            let bars = symbol(barcode.system, barcode.text)->Some_0;
            &&& frame.len() == 16 + bars.len()
            &&& frame.subrange(0, 3) == system_bytes(barcode.system)
            &&& frame.subrange(3, 5) == BARCODE_HEIGHT@
            &&& frame[5] == barcode.height
            &&& frame.subrange(6, 8) == BARCODE_WIDTH@
            &&& frame[8] == barcode.width
            &&& frame.subrange(9, 12) == barcode_font_bytes(barcode.font)
            &&& frame.subrange(12, 14) == BARCODE_TEXT_POSITION@
            &&& frame[14] == text_position_code(barcode.text_position)
            &&& frame.subrange(15, 15 + bars.len() as int) == bars
            &&& frame[15 + bars.len() as int] == 0
        }),
{
    let frame = barcode_frame(barcode)->Ok_0;
    let bars = symbol(barcode.system, barcode.text)->Some_0;
    assert(frame.subrange(0, 3) =~= system_bytes(barcode.system));
    assert(frame.subrange(3, 5) =~= BARCODE_HEIGHT@);
    assert(frame.subrange(6, 8) =~= BARCODE_WIDTH@);
    assert(frame.subrange(9, 12) =~= barcode_font_bytes(barcode.font));
    assert(frame.subrange(12, 14) =~= BARCODE_TEXT_POSITION@);
    assert(frame.subrange(15, 15 + bars.len() as int) =~= bars);
}

/// Multipliers from one to eight give the text-size command with the
/// width scale less one in the high nibble of its parameter and the height
/// scale less one in the low nibble; any other multiplier is refused as
/// invalid input.
pub proof fn lemma_text_size(width_multiplier: u8, height_multiplier: u8)
    ensures
        is_multiplier(width_multiplier) && is_multiplier(height_multiplier) ==> {
            let parameter = size_byte(width_multiplier, height_multiplier);
            &&& text_size_frame(width_multiplier, height_multiplier) == Ok::<Seq<u8>, Failure>(
                TEXT_SIZE_SELECT@.push(parameter),
            )
            &&& parameter == 16 * (width_multiplier - 1) + (height_multiplier - 1)
            &&& parameter >> 4 == width_multiplier - 1
            &&& parameter & 0x0F == height_multiplier - 1
        },
        !(is_multiplier(width_multiplier) && is_multiplier(height_multiplier))
            ==> text_size_frame(width_multiplier, height_multiplier) matches Err(
            Failure::Input(_),
        ),
{
    if is_multiplier(width_multiplier) && is_multiplier(height_multiplier) {
        let wide: u8 = (width_multiplier - 1) as u8;
        let high: u8 = (height_multiplier - 1) as u8;
        assert(16 * wide + high == (wide << 4) | high && ((wide << 4) | high) >> 4 == wide && ((wide
            << 4) | high) & 0x0F == high) by (bit_vector)
            requires
                wide < 8,
                high < 8,
        ;
    }
}

/// The feed, cut and alignment commands are their fixed bytes and their
/// parameter, whatever the protocol was asked before.
pub proof fn lemma_fixed_prefix(n: u8, partial: bool, alignment: Alignment)
    ensures
        feed_bytes(n).len() == 3,
        feed_bytes(n).subrange(0, 2) == PAPER_FEED_FORWARD@,
        feed_bytes(n)[2] == n,
        cut_bytes(partial).len() == 3,
        cut_bytes(partial).subrange(0, 2) == seq![0x1Du8, 0x56u8],
        cut_bytes(partial)[2] == (if partial {
            1u8
        } else {
            0u8
        }),
        align_bytes(alignment).len() == 3,
        align_bytes(alignment).subrange(0, 2) == seq![0x1Bu8, 0x61u8],
        align_bytes(alignment)[2] == (match alignment {
            Alignment::Left => 0u8,
            Alignment::Center => 1u8,
            Alignment::Right => 2u8,
        }),
{
    assert(feed_bytes(n).subrange(0, 2) =~= PAPER_FEED_FORWARD@);
    assert(cut_bytes(partial).subrange(0, 2) =~= seq![0x1Du8, 0x56u8]);
    assert(align_bytes(alignment).subrange(0, 2) =~= seq![0x1Bu8, 0x61u8]);
}

/// Encoding is repeatable. A request leaves the protocol as it found
/// it. The frame of a QR code, of a barcode and of a graphic is fixed by
/// the value alone, and the frame of a line of text by the text and the
/// protocol's encoder. So whichever of them is asked for twice, the
/// second time of the protocol as the first request left it, the second
/// answer is the first.
pub proof fn lemma_repeatable(
    before: Protocol,
    between: Protocol,
    after: Protocol,
    qr: QrModelled,
    barcode: BarcodeModel,
    graphic: GraphicModel,
    text: Seq<char>,
    first: Result<Seq<u8>, Failure>,
    second: Result<Seq<u8>, Failure>,
)
    requires
        between == before,
        after == between,
        ({
            ||| first == qr_frame(qr) && second == qr_frame(qr)
            ||| first == barcode_frame(barcode) && second == barcode_frame(barcode)
            ||| first == Ok::<Seq<u8>, Failure>(graphic_frame(graphic)) && second == Ok::<
                Seq<u8>,
                Failure,
            >(graphic_frame(graphic))
            ||| first == println_frame(before.encoder, text) && second == println_frame(
                between.encoder,
                text,
            )
            ||| first == encoded(before.encoder, text) && second == encoded(between.encoder, text)
        }),
    ensures
        second == first,
        after == before,
{
}

} // verus!
