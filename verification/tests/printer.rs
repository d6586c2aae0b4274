use std::cell::RefCell;
use std::rc::Rc;

use recibo::{
    Alignment, Barcode, BarcodeSystem, Codec, Driver, Encoder, Font, Graphic, Hardware,
    NoopDriver, Printer, PrinterError, Qr, Trap, UnderlineMode,
};

/// Keeps every frame it is handed; fails from the `limit`-th write on.
struct Recorder {
    frames: Rc<RefCell<Vec<Vec<u8>>>>,
    flushes: Rc<RefCell<u32>>,
    limit: usize,
}

impl Driver for Recorder {
    fn name(&self) -> &str {
        "recorder"
    }

    fn write(&self, data: &[u8]) -> Result<(), PrinterError> {
        if self.frames.borrow().len() >= self.limit {
            return Err(PrinterError::Io(String::from("paper out")));
        }
        self.frames.borrow_mut().push(data.to_vec());
        Ok(())
    }

    fn flush(&self) -> Result<(), PrinterError> {
        *self.flushes.borrow_mut() += 1;
        Ok(())
    }
}

fn recording(limit: usize) -> (Printer, Rc<RefCell<Vec<Vec<u8>>>>, Rc<RefCell<u32>>) {
    let frames = Rc::new(RefCell::new(Vec::new()));
    let flushes = Rc::new(RefCell::new(0));
    let driver = Recorder { frames: frames.clone(), flushes: flushes.clone(), limit };
    (Printer::open(Box::new(driver)).unwrap(), frames, flushes)
}

#[test]
fn each_request_hands_one_frame_to_the_transport_in_order() {
    let (mut printer, frames, flushes) = recording(usize::MAX);
    printer
        .init()
        .unwrap()
        .hardware(Hardware::Select)
        .unwrap()
        .align(Alignment::Center)
        .unwrap()
        .font(Font::B)
        .unwrap()
        .bold(true)
        .unwrap()
        .underline(UnderlineMode::Double)
        .unwrap()
        .doublestrike(true)
        .unwrap()
        .flip(false)
        .unwrap()
        .reverse_colours(true)
        .unwrap()
        .linespacing(40)
        .unwrap()
        .reset_linespacing()
        .unwrap()
        .text_size(2, 3)
        .unwrap()
        .reset_text_size()
        .unwrap()
        .left(10)
        .unwrap()
        .width(500)
        .unwrap()
        .feed(2)
        .unwrap()
        .reverse_feed(1)
        .unwrap()
        .partial_cut()
        .unwrap()
        .cut()
        .unwrap()
        .reset()
        .unwrap()
        .flush()
        .unwrap();
    let expected: Vec<Vec<u8>> = vec![
        vec![0x1B, 0x40],
        vec![0x1B, 0x3D, 0x01],
        vec![0x1B, 0x61, 0x01],
        vec![0x1B, 0x4D, 0x01],
        vec![0x1B, 0x45, 0x01],
        vec![0x1B, 0x2D, 0x02],
        vec![0x1B, 0x47, 0x01],
        vec![0x1B, 0x7B, 0x00],
        vec![0x1D, 0x42, 0x01],
        vec![0x1B, 0x33, 40],
        vec![0x1B, 0x32],
        vec![0x1D, 0x21, 0x12],
        vec![0x1D, 0x21, 0x00],
        vec![0x1D, 0x4C, 10, 0],
        vec![0x1D, 0x57, 0xF4, 0x01],
        vec![0x1B, 0x64, 2],
        vec![0x1B, 0x65, 1],
        vec![0x1D, 0x56, 0x01],
        vec![0x1D, 0x56, 0x00],
        vec![0x1B, 0x3F, 0x0A, 0x00],
    ];
    assert_eq!(*frames.borrow(), expected);
    assert_eq!(*flushes.borrow(), 1);
}

#[test]
fn text_goes_out_as_a_line_feed_and_the_encoded_text() {
    let (mut printer, frames, _) = recording(usize::MAX);
    printer.println("one").unwrap().print("two").unwrap().text("three").unwrap();
    assert_eq!(
        *frames.borrow(),
        vec![
            vec![0x1B, 0x64, 0x01, b'o', b'n', b'e'],
            vec![0x1B, 0x64, 0x01, b't', b'w', b'o'],
            vec![0x1B, 0x64, 0x01, b't', b'h', b'r', b'e', b'e'],
        ]
    );
}

#[test]
fn an_empty_text_sends_nothing() {
    let (mut printer, frames, _) = recording(usize::MAX);
    printer.text("").unwrap().text("").unwrap();
    assert!(frames.borrow().is_empty());
    // println and print send the line feed even so
    printer.println("").unwrap().print("").unwrap();
    assert_eq!(*frames.borrow(), vec![vec![0x1B, 0x64, 0x01], vec![0x1B, 0x64, 0x01]]);
}

#[test]
fn a_refused_request_reaches_the_transport_with_nothing() {
    let (mut printer, frames, _) = recording(usize::MAX);
    let refused = printer.feed(1).unwrap().text_size(9, 1).err().unwrap();
    assert!(matches!(refused, PrinterError::Input(_)));
    assert_eq!(frames.borrow().len(), 1);

    let barcode = Barcode::builder().system(BarcodeSystem::Ean13).text("x").build();
    assert!(matches!(printer.barcode(barcode), Err(PrinterError::Input(_))));
    let qr = Qr::builder().text(&"x".repeat(70000)).build();
    assert!(matches!(printer.qr(qr), Err(PrinterError::Input(_))));
    assert_eq!(frames.borrow().len(), 1);

    // the printer goes on after a refusal
    printer.feed(2).unwrap();
    assert_eq!(frames.borrow().len(), 2);
}

#[test]
fn a_chain_stops_at_the_first_failure_of_the_transport() {
    let (mut printer, frames, _) = recording(2);
    let chain = |printer: &mut Printer| -> Result<(), PrinterError> {
        printer.init()?.feed(1)?.bold(true)?.cut()?;
        Ok(())
    };
    let failed = chain(&mut printer).unwrap_err();
    assert!(matches!(failed, PrinterError::Io(_)));
    assert_eq!(failed.message(), "IO error: paper out");
    // what was written before the failure stays written
    assert_eq!(*frames.borrow(), vec![vec![0x1B, 0x40], vec![0x1B, 0x64, 1]]);
}

#[test]
fn codes_and_images_go_out_as_the_protocol_frames_them() {
    let (mut printer, frames, _) = recording(usize::MAX);
    let qr = Qr::builder().text("Hello world").build();
    let barcode = Barcode::builder().system(BarcodeSystem::Ean8).text("5512345").build();
    let graphic = Graphic::builder().path("p").raster(8, 1, vec![0; 8]).build().unwrap();
    printer.qr(qr).unwrap().barcode(barcode).unwrap().graphic(graphic).unwrap();
    let frames = frames.borrow();
    assert_eq!(frames.len(), 3);
    assert_eq!(frames[0].len(), 52);
    assert_eq!(&frames[0][28..30], [14, 0]);
    assert_eq!(frames[1].len(), 16 + 67);
    assert_eq!(&frames[1][0..3], [0x1D, 0x6B, 0x03]);
    assert_eq!(frames[2], vec![0x1D, 0x76, 0x30, 0x00, 0x01, 0x00, 0x01, 0x00, 0xFF]);
}

#[test]
fn the_builder_sets_transport_and_encoder() {
    let frames = Rc::new(RefCell::new(Vec::new()));
    let driver = Recorder { frames: frames.clone(), flushes: Rc::new(RefCell::new(0)), limit: 9 };
    let mut printer = Printer::builder()
        .driver(Box::new(driver))
        .encoder(Encoder::new(Codec::Windows1252, Trap::Replace))
        .build();
    printer.println("é").unwrap();
    assert_eq!(*frames.borrow(), vec![vec![0x1B, 0x64, 0x01, 0xE9]]);
}

#[test]
fn the_noop_driver_takes_everything() {
    let driver = NoopDriver;
    assert_eq!(driver.name(), "noop");
    assert!(driver.write(&[1, 2, 3]).is_ok());
    assert!(driver.flush().is_ok());
    let mut printer = Printer::builder().build();
    printer.init().unwrap().println("nowhere").unwrap().cut().unwrap().flush().unwrap();
    let mut printer = Printer::open(Box::new(NoopDriver)).unwrap();
    printer.feed(1).unwrap();
}

#[test]
fn the_answer_of_the_transport_is_what_a_request_returns() {
    let mut printer = Printer::builder().build();
    assert!(printer.answered(Ok(())).is_ok());
    let failed = printer.answered(Err(PrinterError::Network(String::from("gone")))).err().unwrap();
    assert!(matches!(failed, PrinterError::Network(_)));
    assert_eq!(failed.message(), "Network error: gone");
    // the printer is as it was
    printer.feed(1).unwrap();
}
