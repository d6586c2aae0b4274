use recibo::io::protocol::{draw_symbol, frame_barcode};
use recibo::io::symbols::has_fitting_check_digit;
use recibo::{
    Barcode, BarcodeFont, BarcodeSystem, BarcodeTextPosition, PrinterError, Protocol,
};

fn bars(pattern: &str) -> Vec<u8> {
    pattern.bytes().map(|b| b - b'0').collect()
}

fn framed(system: BarcodeSystem, text: &str) -> Result<Vec<u8>, PrinterError> {
    Protocol::default().barcode(Barcode::builder().system(system).text(text).build())
}

#[test]
fn ean13_bars_are_those_of_the_symbol_encoder() {
    let frame = framed(BarcodeSystem::Ean13, "750103131130").unwrap();
    assert_eq!(
        &frame[15..frame.len() - 1],
        bars("10101100010100111001100101001110111101011001101010100001011001101100110100001011100101110100101")
    );
    assert_eq!(&frame[0..3], [0x1D, 0x6B, 0x02]);
    assert_eq!(frame[frame.len() - 1], 0);
}

#[test]
fn both_upc_systems_are_drawn_as_ean13() {
    let expected = bars("10100110010010011011110101000110110001010111101010110011011011001000010101110010011101001000101");
    let a = framed(BarcodeSystem::UpcA, "012345612345").unwrap();
    assert_eq!(&a[0..3], [0x1D, 0x6B, 0x00]);
    assert_eq!(&a[15..a.len() - 1], expected);
    let e = framed(BarcodeSystem::UpcE, "012345612345").unwrap();
    assert_eq!(&e[0..3], [0x1D, 0x6B, 0x01]);
    assert_eq!(&e[15..e.len() - 1], expected);
}

#[test]
fn ean8_bars_are_those_of_the_symbol_encoder() {
    let frame = framed(BarcodeSystem::Ean8, "5512345").unwrap();
    assert_eq!(&frame[0..3], [0x1D, 0x6B, 0x03]);
    assert_eq!(
        &frame[15..frame.len() - 1],
        bars("1010110001011000100110010010011010101000010101110010011101000100101")
    );
}

#[test]
fn code39_bars_are_those_of_the_symbol_encoder() {
    let frame = framed(BarcodeSystem::Code39, "1234").unwrap();
    assert_eq!(&frame[0..3], [0x1D, 0x6B, 0x04]);
    assert_eq!(
        &frame[15..frame.len() - 1],
        bars("10010110110101101001010110101100101011011011001010101010011010110100101101101")
    );
}

#[test]
fn itf_bars_are_those_of_the_symbol_encoder() {
    let frame = framed(BarcodeSystem::Itf, "1234567").unwrap();
    assert_eq!(&frame[0..3], [0x1D, 0x6B, 0x05]);
    assert_eq!(
        &frame[15..frame.len() - 1],
        bars("10101110100010101110001110111010001010001110100011100010101010100011100011101101")
    );
}

#[test]
fn codabar_bars_are_those_of_the_symbol_encoder() {
    let frame = framed(BarcodeSystem::Codabar, "A1234B").unwrap();
    assert_eq!(&frame[0..3], [0x1D, 0x6B, 0x06]);
    assert_eq!(
        &frame[15..frame.len() - 1],
        bars("1011001001010101100101010010110110010101010110100101010010011")
    );
}

#[test]
fn a_text_the_symbology_cannot_hold_is_invalid_input() {
    let cases = [
        (BarcodeSystem::UpcA, "12345678901x", "Input error: Invalid UPCA barcode"),
        (BarcodeSystem::UpcE, "123", "Input error: Invalid UPCA barcode"),
        (BarcodeSystem::Ean13, "not a number", "Input error: Invalid EAN13 barcode"),
        (BarcodeSystem::Ean8, "12345678901", "Input error: Invalid EAN8 barcode"),
        (BarcodeSystem::Code39, "lower case", "Input error: Invalid Code39 barcode"),
        (BarcodeSystem::Itf, "12a4", "Input error: Invalid ITF barcode"),
        (BarcodeSystem::Codabar, "A12E", "Input error: Invalid Codabar barcode"),
    ];
    for (system, text, message) in cases {
        let refused = framed(system, text).unwrap_err();
        assert!(matches!(refused, PrinterError::Input(_)));
        assert_eq!(refused.message(), message);
    }
}

#[test]
fn the_empty_text_is_invalid_for_every_symbology() {
    for system in [
        BarcodeSystem::UpcA,
        BarcodeSystem::UpcE,
        BarcodeSystem::Ean13,
        BarcodeSystem::Ean8,
        BarcodeSystem::Code39,
        BarcodeSystem::Itf,
        BarcodeSystem::Codabar,
    ] {
        assert!(matches!(framed(system, ""), Err(PrinterError::Input(_))));
    }
}

#[test]
fn a_wrong_check_digit_is_invalid_input() {
    // the digits of 750103131130 weigh 12 + 3 * 13 = 51, so its check digit is 9
    assert!(framed(BarcodeSystem::Ean13, "7501031311309").is_ok());
    assert!(framed(BarcodeSystem::Ean13, "7501031311305").is_err());
}

#[test]
fn check_digit_fits_while_the_weighted_sum_stays_in_a_byte() {
    assert!(has_fitting_check_digit(""));
    assert!(has_fitting_check_digit("1234567"));
    // an even count of digits gets no check digit
    assert!(has_fitting_check_digit(&"9".repeat(200)));
    // not a text of digits: left to the symbol encoder to refuse
    assert!(has_fitting_check_digit("99999999999999999999999999999999x"));
    assert!(has_fitting_check_digit("ééé"));
    // thirteen nines weigh 7 * 27 + 6 * 9 = 243
    assert!(has_fitting_check_digit(&"9".repeat(13)));
    // fifteen nines weigh 8 * 27 + 7 * 9 = 279
    assert!(!has_fitting_check_digit(&"9".repeat(15)));
    // 3 * 85 = 255 fits, one more does not
    assert!(has_fitting_check_digit("9090909090909090904"));
    assert!(!has_fitting_check_digit("909090909090909090401"));
    assert!(has_fitting_check_digit(&"0".repeat(255)));
}

#[test]
fn itf_refuses_a_text_whose_check_digit_does_not_fit() {
    let refused = framed(BarcodeSystem::Itf, &"9".repeat(15)).unwrap_err();
    assert_eq!(refused.message(), "Input error: Invalid ITF barcode");
    assert!(framed(BarcodeSystem::Itf, &"9".repeat(13)).is_ok());
    assert!(framed(BarcodeSystem::Itf, &"9".repeat(16)).is_ok());
    assert!(draw_symbol(&BarcodeSystem::Itf, &"9".repeat(15)).is_none());
}

#[test]
fn frame_puts_the_commands_around_the_bars_in_order() {
    let barcode = Barcode::new(
        BarcodeSystem::Code39,
        7,
        90,
        String::from("ignored here"),
        BarcodeTextPosition::Both,
        BarcodeFont::B,
    );
    let frame = frame_barcode(&barcode, Some(vec![1, 0, 1, 1])).unwrap();
    assert_eq!(
        frame,
        vec![
            0x1D, 0x6B, 0x04, // symbology
            0x1D, 0x68, 90, // height
            0x1D, 0x77, 7, // width
            0x1D, 0x66, 0x01, // font
            0x1D, 0x48, 0x03, // text position
            1, 0, 1, 1, // bars
            0x00,
        ]
    );
    let empty = frame_barcode(&barcode, Some(Vec::new())).unwrap();
    assert_eq!(empty.len(), 16);
    let refused = frame_barcode(&barcode, None).unwrap_err();
    assert_eq!(refused.message(), "Input error: Invalid Code39 barcode");
}

#[test]
fn height_and_width_go_out_as_the_barcode_holds_them() {
    for (height, width) in [(0u8, 0u8), (8, 3), (0x68, 0x02), (162, 6), (255, 255)] {
        let barcode = Barcode::builder()
            .system(BarcodeSystem::Ean13)
            .text("123456123456")
            .height(height)
            .width(width)
            .build();
        let frame = Protocol::default().barcode(barcode).unwrap();
        assert_eq!(&frame[3..6], [0x1D, 0x68, height]);
        assert_eq!(&frame[6..9], [0x1D, 0x77, width]);
        assert_eq!(frame.len(), 16 + 95);
    }
    // a builder left alone sends its defaults
    let frame = framed(BarcodeSystem::Ean8, "5512345").unwrap();
    assert_eq!(frame[5], 8);
    assert_eq!(frame[8], 3);
}

#[test]
fn text_position_sets_the_parameter_of_its_command() {
    for (position, code) in [
        (BarcodeTextPosition::Hidden, 0u8),
        (BarcodeTextPosition::Above, 1),
        (BarcodeTextPosition::Below, 2),
        (BarcodeTextPosition::Both, 3),
    ] {
        let barcode = Barcode::builder()
            .system(BarcodeSystem::Ean8)
            .text("5512345")
            .text_position(position)
            .build();
        let frame = Protocol::default().barcode(barcode).unwrap();
        assert_eq!(frame[14], code);
        assert_eq!(u8::from(&position), code);
    }
}
