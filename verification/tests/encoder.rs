use recibo::io::encoder::settle;
use recibo::{Codec, Encoder, PrinterError, Protocol, Trap};

#[test]
fn the_default_encoder_passes_utf8_through() {
    let encoder = Encoder::default();
    assert_eq!(encoder, Encoder::new(Codec::Utf8, Trap::Replace));
    assert_eq!(encoder.encode("").unwrap(), Vec::<u8>::new());
    assert_eq!(encoder.encode("Hello").unwrap(), b"Hello");
    assert_eq!(encoder.encode("é€😀").unwrap(), "é€😀".as_bytes());
    for trap in [Trap::Strict, Trap::Replace, Trap::Ignore, Trap::NcrEscape] {
        assert_eq!(
            Encoder::new(Codec::Utf8, trap).encode("přítel").unwrap(),
            "přítel".as_bytes()
        );
    }
}

#[test]
fn a_code_page_gives_one_byte_for_each_character() {
    let encoder = Encoder::new(Codec::Windows1252, Trap::Strict);
    assert_eq!(encoder.encode("café €").unwrap(), vec![b'c', b'a', b'f', 0xE9, b' ', 0x80]);
    let encoder = Encoder::new(Codec::Ibm866, Trap::Strict);
    assert_eq!(encoder.encode("Я").unwrap(), vec![0x9F]);
    let encoder = Encoder::new(Codec::Latin2, Trap::Strict);
    assert_eq!(encoder.encode("ř").unwrap(), vec![0xF8]);
    let encoder = Encoder::new(Codec::Greek, Trap::Strict);
    assert_eq!(encoder.encode("α").unwrap(), vec![0xE1]);
    let encoder = Encoder::new(Codec::Koi8R, Trap::Strict);
    assert_eq!(encoder.encode("я").unwrap(), vec![0xD1]);
}

#[test]
fn every_codec_is_known_and_keeps_ascii() {
    let codecs = [
        Codec::Utf8,
        Codec::Ibm866,
        Codec::Latin2,
        Codec::Latin3,
        Codec::Latin4,
        Codec::Cyrillic,
        Codec::Arabic,
        Codec::Greek,
        Codec::Hebrew,
        Codec::Latin6,
        Codec::Latin7,
        Codec::Latin8,
        Codec::Latin9,
        Codec::Latin10,
        Codec::Koi8R,
        Codec::Koi8U,
        Codec::Macintosh,
        Codec::MacCyrillic,
        Codec::Windows874,
        Codec::Windows1250,
        Codec::Windows1251,
        Codec::Windows1252,
        Codec::Windows1253,
        Codec::Windows1254,
        Codec::Windows1255,
        Codec::Windows1256,
        Codec::Windows1257,
        Codec::Windows1258,
        Codec::HebrewLogical,
        Codec::UserDefined,
        Codec::Gbk,
        Codec::Gb18030,
        Codec::Big5,
        Codec::EucJp,
        Codec::Iso2022Jp,
        Codec::ShiftJis,
        Codec::EucKr,
    ];
    for codec in codecs {
        let encoder = Encoder::new(codec, Trap::Strict);
        assert_eq!(encoder.encode("Total: 12.50").unwrap(), b"Total: 12.50");
        assert!(!codec.label().is_empty());
    }
    for codec in [Codec::Utf16Le, Codec::Utf16Be] {
        let encoder = Encoder::new(codec, Trap::Strict);
        assert_eq!(encoder.encode("Total: 12.50").unwrap().len(), 24);
    }
    assert_eq!(Codec::Utf8.label(), "utf-8");
    assert_eq!(Codec::Latin9.label(), "iso-8859-15");
    assert_eq!(Codec::MacCyrillic.label(), "x-mac-cyrillic");
}

#[test]
fn the_trap_decides_what_becomes_of_an_unknown_character() {
    let text = "a→b";
    let strict = Encoder::new(Codec::Windows1252, Trap::Strict).encode(text);
    assert!(matches!(strict, Err(PrinterError::Io(_))));
    assert_eq!(
        Encoder::new(Codec::Windows1252, Trap::Replace).encode(text).unwrap(),
        b"a?b"
    );
    assert_eq!(
        Encoder::new(Codec::Windows1252, Trap::Ignore).encode(text).unwrap(),
        b"ab"
    );
    assert_eq!(
        Encoder::new(Codec::Windows1252, Trap::NcrEscape).encode(text).unwrap(),
        b"a&#8594;b"
    );
}

#[test]
fn settle_maps_each_answer_of_the_codec() {
    assert_eq!(settle(Some(Ok(vec![1, 2, 3]))).unwrap(), vec![1, 2, 3]);
    let failed = settle(Some(Err(String::from("unrepresentable character")))).unwrap_err();
    assert!(matches!(failed, PrinterError::Io(_)));
    assert_eq!(failed.message(), "IO error: unrepresentable character");
    let unknown = settle(None).unwrap_err();
    assert!(matches!(unknown, PrinterError::Configuration(_)));
    assert_eq!(unknown.message(), "Configuration error: Unknown codec");
}

#[test]
fn the_protocol_prints_in_the_character_set_of_its_encoder() {
    let mut protocol = Protocol::new(Encoder::new(Codec::Windows1252, Trap::Replace));
    assert_eq!(protocol.print("é").unwrap(), vec![0xE9]);
    assert_eq!(protocol.println("é→").unwrap(), vec![0x1B, 0x64, 0x01, 0xE9, b'?']);
    assert_eq!(protocol.text("").unwrap(), vec![0x1B, 0x64, 0x01]);

    let mut strict = Protocol::new(Encoder::new(Codec::Cyrillic, Trap::Strict));
    assert!(matches!(strict.println("é"), Err(PrinterError::Io(_))));
    assert!(matches!(strict.print("é"), Err(PrinterError::Io(_))));
    assert_eq!(strict.encoder, Encoder::new(Codec::Cyrillic, Trap::Strict));
}

#[test]
fn a_multi_byte_codec_gives_the_bytes_of_its_character_set() {
    let cases: [(Codec, &str, &[u8]); 12] = [
        (Codec::ShiftJis, "\u{3042}", &[0x82, 0xA0]),
        (Codec::EucJp, "\u{3042}", &[0xA4, 0xA2]),
        (Codec::Iso2022Jp, "\u{3042}", &[0x1B, b'$', b'B', 0x24, 0x22]),
        (Codec::EucKr, "\u{AC00}", &[0xB0, 0xA1]),
        (Codec::Gbk, "\u{4E2D}", &[0xD6, 0xD0]),
        (Codec::Gb18030, "\u{4E2D}", &[0xD6, 0xD0]),
        (Codec::Big5, "\u{4E2D}", &[0xA4, 0xA4]),
        (Codec::Utf16Le, "A\u{20AC}", &[0x41, 0x00, 0xAC, 0x20]),
        (Codec::Utf16Be, "A\u{20AC}", &[0x00, 0x41, 0x20, 0xAC]),
        (Codec::HebrewLogical, "\u{5D0}", &[0xE0]),
        (Codec::UserDefined, "\u{F780}", &[0x80]),
        (Codec::Gb18030, "\u{80}", &[0x81, 0x30, 0x81, 0x30]),
    ];
    for (codec, text, bytes) in cases {
        assert_eq!(Encoder::new(codec, Trap::Strict).encode(text).unwrap(), bytes);
    }
    assert_eq!(Codec::ShiftJis.label(), "shift_jis");
    assert_eq!(Codec::EucKr.label(), "euc-kr");
    assert_eq!(Codec::HebrewLogical.label(), "iso-8859-8-i");
    // what a character set lacks goes to the trap
    let strict = Encoder::new(Codec::ShiftJis, Trap::Strict).encode("\u{AC00}");
    assert!(matches!(strict, Err(PrinterError::Io(_))));
    assert_eq!(
        Encoder::new(Codec::EucKr, Trap::Replace).encode("a\u{3042}\u{1F600}b").unwrap().first(),
        Some(&b'a')
    );
    assert_eq!(Encoder::new(Codec::Big5, Trap::Ignore).encode("a\u{1F600}b").unwrap(), b"ab");
}
