use vstd::prelude::*;
use crate::domain::alignment::Alignment;
use crate::domain::barcode::Barcode;
use crate::domain::font::Font;
use crate::domain::graphic::Graphic;
use crate::domain::hardware::Hardware;
use crate::domain::qr::Qr;
use crate::domain::underline_mode::UnderlineMode;
use crate::error::{Failure, PrinterError};
use crate::io::constants::{HARDWARE_INIT, HARDWARE_RESET, TEXT_RESET_LINESPACING};
use crate::io::driver::{Driver, NoopDriver};
use crate::io::encoder::{default_encoder, Encoder};
use crate::io::protocol::{
    align_bytes, barcode_frame, bold_bytes, cut_bytes, doublestrike_bytes, feed_bytes,
    flip_bytes, font_bytes, hardware_bytes, left_bytes, linespacing_bytes, println_frame,
    qr_frame, reverse_colours_bytes, reverse_feed_bytes, text_size_frame, underline_bytes,
    width_bytes, Protocol,
};
use crate::io::raster::graphic_frame;

verus! {

/// Sends print requests to a transport, one frame for each request, in
/// the order they are made. The transport is any [`Driver`], boxed.
pub struct Printer<D = Box<dyn Driver>> {
    driver: D,
    protocol: Protocol,
    handed: Ghost<Seq<Seq<u8>>>,
}

/// What one request does to a printer. Where the request encodes to a
/// frame, that frame has been handed to the transport, after all earlier
/// ones, whether or not the transport took it; transport and protocol
/// are as they were. Where the request is refused, nothing was handed
/// over and the refusal is what failed.
pub open spec fn requested(
    before: Printer,
    now: Printer,
    encoding: Result<Seq<u8>, Failure>,
    failure: Option<Failure>,
) -> bool {
    match encoding {
        Ok(frame) => now.transport() == before.transport() && now.protocol() == before.protocol()
            && now.handed() == before.handed().push(frame),
        Err(refusal) => now == before && failure == Some(refusal),
    }
}

impl<D> Printer<D> {
    /// The transport the printer hands its frames to.
    pub closed spec fn transport(&self) -> D {
        self.driver
    }

    /// The protocol encoder of the printer.
    pub closed spec fn protocol(&self) -> Protocol {
        self.protocol
    }

    /// Every frame handed to the transport so far, the first one first.
    pub closed spec fn handed(&self) -> Seq<Seq<u8>> {
        self.handed@
    }

    fn new(driver: D, protocol: Protocol) -> (printer: Self)
        ensures
            printer.transport() == driver,
            printer.protocol() == protocol,
            printer.handed() == Seq::<Seq<u8>>::empty(),
    {
        Printer { driver, protocol, handed: Ghost(Seq::empty()) }
    }
}

impl Printer<Box<dyn Driver>> {
    pub fn open(driver: Box<dyn Driver>) -> (r: Result<Self, PrinterError>)
        ensures
            r matches Ok(printer) && printer.transport() == driver && printer.protocol().encoder
                == default_encoder() && printer.handed() == Seq::<Seq<u8>>::empty(),
    {
        let protocol = Protocol::default();
        let printer = Printer::new(driver, protocol);
        Ok(printer)
    }

    /// Hands one frame to the transport.
    fn send(&mut self, bytes: &[u8]) -> (r: Result<&mut Self, PrinterError>)
        ensures
            match r {
                Ok(printer) => requested(*old(self), *printer, Ok(bytes@), None) && *final(self)
                    == *final(printer),
                Err(e) => requested(*old(self), *final(self), Ok(bytes@), Some(e@)),
            },
    {
        proof {
            self.handed@ = self.handed@.push(bytes@);
        }
        let written = self.driver.write(bytes);
        self.answered(written)
    }

    /// What a request returns for each answer of the transport: the
    /// printer itself, ready for the next request, where the transport
    /// took the frame; the transport's own failure where it did not.
    pub fn answered(&mut self, written: Result<(), PrinterError>) -> (r: Result<
        &mut Self,
        PrinterError,
    >)
        ensures
            match r {
                Ok(printer) => written is Ok && *printer == *old(self)
                    && *final(self) == *final(printer),
                Err(e) => written == Err::<(), PrinterError>(e) && *final(self) == *old(self),
            },
    {
        match written {
            Ok(()) => Ok(self),
            Err(e) => Err(e),
        }
    }

    pub fn hardware(&mut self, hardware: Hardware) -> (r: Result<&mut Self, PrinterError>)
        ensures
            match r {
                Ok(printer) => requested(*old(self), *printer, Ok(hardware_bytes(hardware)), None)
                    && *final(self) == *final(printer),
                Err(e) => requested(*old(self), *final(self), Ok(hardware_bytes(hardware)), Some(e@)),
            },
    {
        let bytes = self.protocol.hardware(hardware);
        self.send(bytes)
    }

    pub fn font(&mut self, font: Font) -> (r: Result<&mut Self, PrinterError>)
        ensures
            match r {
                Ok(printer) => requested(*old(self), *printer, Ok(font_bytes(font)), None)
                    && *final(self) == *final(printer),
                Err(e) => requested(*old(self), *final(self), Ok(font_bytes(font)), Some(e@)),
            },
    {
        let bytes = self.protocol.font(font);
        self.send(bytes)
    }

    pub fn align(&mut self, alignment: Alignment) -> (r: Result<&mut Self, PrinterError>)
        ensures
            match r {
                Ok(printer) => requested(*old(self), *printer, Ok(align_bytes(alignment)), None)
                    && *final(self) == *final(printer),
                Err(e) => requested(*old(self), *final(self), Ok(align_bytes(alignment)), Some(e@)),
            },
    {
        let bytes = self.protocol.align(alignment);
        self.send(bytes)
    }

    pub fn doublestrike(&mut self, enabled: bool) -> (r: Result<&mut Self, PrinterError>)
        ensures
            match r {
                Ok(printer) => requested(*old(self), *printer, Ok(doublestrike_bytes(enabled)), None)
                    && *final(self) == *final(printer),
                Err(e) => requested(*old(self), *final(self), Ok(doublestrike_bytes(enabled)), Some(e@)),
            },
    {
        let bytes = self.protocol.doublestrike(enabled);
        self.send(bytes)
    }

    pub fn linespacing(&mut self, height: u8) -> (r: Result<&mut Self, PrinterError>)
        ensures
            match r {
                Ok(printer) => requested(*old(self), *printer, Ok(linespacing_bytes(height)), None)
                    && *final(self) == *final(printer),
                Err(e) => requested(*old(self), *final(self), Ok(linespacing_bytes(height)), Some(e@)),
            },
    {
        let bytes = self.protocol.linespacing(height)?;
        self.send(bytes.as_slice())
    }

    pub fn flip(&mut self, enabled: bool) -> (r: Result<&mut Self, PrinterError>)
        ensures
            match r {
                Ok(printer) => requested(*old(self), *printer, Ok(flip_bytes(enabled)), None)
                    && *final(self) == *final(printer),
                Err(e) => requested(*old(self), *final(self), Ok(flip_bytes(enabled)), Some(e@)),
            },
    {
        let bytes = self.protocol.flip(enabled);
        self.send(bytes)
    }

    pub fn reset_linespacing(&mut self) -> (r: Result<&mut Self, PrinterError>)
        ensures
            match r {
                Ok(printer) => requested(*old(self), *printer, Ok(TEXT_RESET_LINESPACING@), None)
                    && *final(self) == *final(printer),
                Err(e) => requested(*old(self), *final(self), Ok(TEXT_RESET_LINESPACING@), Some(e@)),
            },
    {
        let bytes = self.protocol.reset_linespacing();
        self.send(bytes)
    }

    pub fn bold(&mut self, enabled: bool) -> (r: Result<&mut Self, PrinterError>)
        ensures
            match r {
                Ok(printer) => requested(*old(self), *printer, Ok(bold_bytes(enabled)), None)
                    && *final(self) == *final(printer),
                Err(e) => requested(*old(self), *final(self), Ok(bold_bytes(enabled)), Some(e@)),
            },
    {
        let bytes = self.protocol.bold(enabled);
        self.send(bytes)
    }

    pub fn underline(&mut self, mode: UnderlineMode) -> (r: Result<&mut Self, PrinterError>)
        ensures
            match r {
                Ok(printer) => requested(*old(self), *printer, Ok(underline_bytes(mode)), None)
                    && *final(self) == *final(printer),
                Err(e) => requested(*old(self), *final(self), Ok(underline_bytes(mode)), Some(e@)),
            },
    {
        let bytes = self.protocol.underline(mode);
        self.send(bytes)
    }

    pub fn reset(&mut self) -> (r: Result<&mut Self, PrinterError>)
        ensures
            match r {
                Ok(printer) => requested(*old(self), *printer, Ok(HARDWARE_RESET@), None)
                    && *final(self) == *final(printer),
                Err(e) => requested(*old(self), *final(self), Ok(HARDWARE_RESET@), Some(e@)),
            },
    {
        let bytes = self.protocol.reset();
        self.send(bytes)
    }

    pub fn init(&mut self) -> (r: Result<&mut Self, PrinterError>)
        ensures
            match r {
                Ok(printer) => requested(*old(self), *printer, Ok(HARDWARE_INIT@), None)
                    && *final(self) == *final(printer),
                Err(e) => requested(*old(self), *final(self), Ok(HARDWARE_INIT@), Some(e@)),
            },
    {
        let bytes = self.protocol.init();
        self.send(bytes)
    }

    pub fn feed(&mut self, n: u8) -> (r: Result<&mut Self, PrinterError>)
        ensures
            match r {
                Ok(printer) => requested(*old(self), *printer, Ok(feed_bytes(n)), None)
                    && *final(self) == *final(printer),
                Err(e) => requested(*old(self), *final(self), Ok(feed_bytes(n)), Some(e@)),
            },
    {
        let bytes = self.protocol.feed(n)?;
        self.send(bytes.as_slice())
    }

    pub fn reverse_feed(&mut self, n: u8) -> (r: Result<&mut Self, PrinterError>)
        ensures
            match r {
                Ok(printer) => requested(*old(self), *printer, Ok(reverse_feed_bytes(n)), None)
                    && *final(self) == *final(printer),
                Err(e) => requested(*old(self), *final(self), Ok(reverse_feed_bytes(n)), Some(e@)),
            },
    {
        let bytes = self.protocol.reverse_feed(n)?;
        self.send(bytes.as_slice())
    }

    /// Cuts the paper through.
    pub fn cut(&mut self) -> (r: Result<&mut Self, PrinterError>)
        ensures
            match r {
                Ok(printer) => requested(*old(self), *printer, Ok(cut_bytes(false)), None)
                    && *final(self) == *final(printer),
                Err(e) => requested(*old(self), *final(self), Ok(cut_bytes(false)), Some(e@)),
            },
    {
        let bytes = self.protocol.cut(false)?;
        self.send(bytes.as_slice())
    }

    /// Cuts the paper but for a bridge.
    pub fn partial_cut(&mut self) -> (r: Result<&mut Self, PrinterError>)
        ensures
            match r {
                Ok(printer) => requested(*old(self), *printer, Ok(cut_bytes(true)), None)
                    && *final(self) == *final(printer),
                Err(e) => requested(*old(self), *final(self), Ok(cut_bytes(true)), Some(e@)),
            },
    {
        let bytes = self.protocol.cut(true)?;
        self.send(bytes.as_slice())
    }

    /// Prints a line of text, as `println` does.
    pub fn print(&mut self, text: &str) -> (r: Result<&mut Self, PrinterError>)
        ensures
            match r {
                Ok(printer) => requested(*old(self), *printer, println_frame(old(self).protocol().encoder, text@), None)
                    && *final(self) == *final(printer),
                Err(e) => requested(*old(self), *final(self), println_frame(old(self).protocol().encoder, text@), Some(e@)),
            },
    {
        let bytes = self.protocol.text(text)?;
        self.send(bytes.as_slice())
    }

    pub fn println(&mut self, text: &str) -> (r: Result<&mut Self, PrinterError>)
        ensures
            match r {
                Ok(printer) => requested(*old(self), *printer, println_frame(old(self).protocol().encoder, text@), None)
                    && *final(self) == *final(printer),
                Err(e) => requested(*old(self), *final(self), println_frame(old(self).protocol().encoder, text@), Some(e@)),
            },
    {
        let bytes = self.protocol.println(text)?;
        self.send(bytes.as_slice())
    }

    /// Prints a line of text, or does nothing where the text is empty.
    pub fn text(&mut self, text: &str) -> (r: Result<&mut Self, PrinterError>)
        ensures
            match r {
                Ok(printer) => *final(self) == *final(printer) && if text@.len() == 0 {
                    *printer == *old(self)
                } else {
                    requested(
                        *old(self),
                        *printer,
                        println_frame(old(self).protocol().encoder, text@),
                        None,
                    )
                },
                Err(e) => text@.len() > 0 && requested(
                    *old(self),
                    *final(self),
                    println_frame(old(self).protocol().encoder, text@),
                    Some(e@),
                ),
            },
    {
        if !text.is_empty() {
            return self.println(text);
        }
        Ok(self)
    }

    pub fn text_size(&mut self, width_multiplier: u8, height_multiplier: u8) -> (r: Result<&mut Self, PrinterError>)
        ensures
            match r {
                Ok(printer) => requested(*old(self), *printer, text_size_frame(width_multiplier, height_multiplier), None)
                    && *final(self) == *final(printer),
                Err(e) => requested(*old(self), *final(self), text_size_frame(width_multiplier, height_multiplier), Some(e@)),
            },
    {
        let bytes = self.protocol.text_size(width_multiplier, height_multiplier)?;
        self.send(bytes.as_slice())
    }

    /// Sets the text back to its normal size.
    pub fn reset_text_size(&mut self) -> (r: Result<&mut Self, PrinterError>)
        ensures
            match r {
                Ok(printer) => requested(*old(self), *printer, text_size_frame(1, 1), None)
                    && *final(self) == *final(printer),
                Err(e) => requested(*old(self), *final(self), text_size_frame(1, 1), Some(e@)),
            },
    {
        self.text_size(1, 1)
    }

    /// Asks the transport to send on what it holds back.
    pub fn flush(&mut self) -> (r: Result<(), PrinterError>)
        ensures
            *final(self) == *old(self),
    {
        self.driver.flush()
    }

    pub fn barcode(&mut self, barcode: Barcode) -> (r: Result<&mut Self, PrinterError>)
        ensures
            match r {
                Ok(printer) => requested(*old(self), *printer, barcode_frame(barcode@), None)
                    && *final(self) == *final(printer),
                Err(e) => requested(*old(self), *final(self), barcode_frame(barcode@), Some(e@)),
            },
    {
        let bytes = self.protocol.barcode(barcode)?;
        self.send(bytes.as_slice())
    }

    pub fn qr(&mut self, qr: Qr) -> (r: Result<&mut Self, PrinterError>)
        ensures
            match r {
                Ok(printer) => requested(*old(self), *printer, qr_frame(qr@), None)
                    && *final(self) == *final(printer),
                Err(e) => requested(*old(self), *final(self), qr_frame(qr@), Some(e@)),
            },
    {
        let bytes = self.protocol.qr(qr)?;
        self.send(bytes.as_slice())
    }

    pub fn graphic(&mut self, graphic: Graphic) -> (r: Result<&mut Self, PrinterError>)
        ensures
            match r {
                Ok(printer) => requested(*old(self), *printer, Ok(graphic_frame(graphic@)), None)
                    && *final(self) == *final(printer),
                Err(e) => requested(*old(self), *final(self), Ok(graphic_frame(graphic@)), Some(e@)),
            },
    {
        let bytes = self.protocol.graphic(graphic)?;
        self.send(bytes.as_slice())
    }

    pub fn reverse_colours(&mut self, enabled: bool) -> (r: Result<&mut Self, PrinterError>)
        ensures
            match r {
                Ok(printer) => requested(*old(self), *printer, Ok(reverse_colours_bytes(enabled)), None)
                    && *final(self) == *final(printer),
                Err(e) => requested(*old(self), *final(self), Ok(reverse_colours_bytes(enabled)), Some(e@)),
            },
    {
        let bytes = self.protocol.reverse_colours(enabled)?;
        self.send(bytes.as_slice())
    }

    pub fn left(&mut self, dots: u16) -> (r: Result<&mut Self, PrinterError>)
        ensures
            match r {
                Ok(printer) => requested(*old(self), *printer, Ok(left_bytes(dots)), None)
                    && *final(self) == *final(printer),
                Err(e) => requested(*old(self), *final(self), Ok(left_bytes(dots)), Some(e@)),
            },
    {
        let bytes = self.protocol.left(dots)?;
        self.send(bytes.as_slice())
    }

    pub fn width(&mut self, margin: u16) -> (r: Result<&mut Self, PrinterError>)
        ensures
            match r {
                Ok(printer) => requested(*old(self), *printer, Ok(width_bytes(margin)), None)
                    && *final(self) == *final(printer),
                Err(e) => requested(*old(self), *final(self), Ok(width_bytes(margin)), Some(e@)),
            },
    {
        let bytes = self.protocol.width(margin)?;
        self.send(bytes.as_slice())
    }

    /// A builder that starts with a transport that sends nothing and
    /// the default encoder.
    pub fn builder() -> (builder: PrinterBuilder)
        ensures
            builder.has_idle_transport(),
            builder.chosen_encoder() == default_encoder(),
    {
        PrinterBuilder::new()
    }
}

/// Collects the transport and the text encoder of a [`Printer`].
pub struct PrinterBuilder<D = Box<dyn Driver>> {
    driver: D,
    encoder: Encoder,
}

impl<D> PrinterBuilder<D> {
    /// The transport the printer will have.
    pub closed spec fn chosen_driver(&self) -> D {
        self.driver
    }

    /// The text encoder the printer will have.
    pub closed spec fn chosen_encoder(&self) -> Encoder {
        self.encoder
    }
}

impl PrinterBuilder<Box<dyn Driver>> {
    /// Whether the transport chosen is the one a printer has that was
    /// given none: the [`NoopDriver`], which accepts everything and sends
    /// it nowhere.
    pub open spec fn has_idle_transport(&self) -> bool {
        let idle: Box<dyn Driver> = Box::new(NoopDriver);
        self.chosen_driver() == idle
    }

    /// A builder with a transport that sends nothing and the default
    /// encoder.
    pub fn new() -> (builder: PrinterBuilder)
        ensures
            builder.has_idle_transport(),
            builder.chosen_encoder() == default_encoder(),
    {
        let idle: Box<dyn Driver> = Box::new(NoopDriver);
        let builder = PrinterBuilder { driver: idle, encoder: Encoder::default() };
        builder
    }

    /// Takes `driver` for the transport; the encoder stays.
    pub fn driver(self, driver: Box<dyn Driver>) -> (builder: Self)
        ensures
            builder.chosen_driver() == driver,
            builder.chosen_encoder() == self.chosen_encoder(),
    {
        let builder = PrinterBuilder { driver, encoder: self.encoder };
        builder
    }

    /// Takes `encoder` for the text encoder; the transport stays.
    pub fn encoder(self, encoder: Encoder) -> (builder: Self)
        ensures
            builder.chosen_driver() == self.chosen_driver(),
            builder.chosen_encoder() == encoder,
    {
        let mut builder = self;
        builder.encoder = encoder;
        builder
    }

    /// The printer with the transport and the encoder chosen, which has
    /// handed nothing to its transport yet.
    pub fn build(self) -> (printer: Printer)
        ensures
            printer.transport() == self.chosen_driver(),
            printer.protocol().encoder == self.chosen_encoder(),
            printer.handed() == Seq::<Seq<u8>>::empty(),
    {
        let driver = self.driver;
        let encoder = self.encoder;
        let protocol = Protocol::new(encoder);

        let printer = Printer::new(driver, protocol);
        printer
    }
}

} // verus!
