use vstd::prelude::*;
use vstd::string::{StringExecFns, StringSliceAdditionalSpecFns};
use encoding::label::encoding_from_whatwg_label;
use encoding::EncoderTrap;
use crate::error::{Failure, PrinterError};

verus! {

/// The character sets text can be sent in: every codec of the `encoding`
/// crate that answers to a WHATWG label of its own.
#[derive(Clone, Copy, Debug, PartialEq, Eq)]
pub enum Codec {
    Utf8,
    Ibm866,
    Latin2,
    Latin3,
    Latin4,
    Cyrillic,
    Arabic,
    Greek,
    Hebrew,
    Latin6,
    Latin7,
    Latin8,
    Latin9,
    Latin10,
    Koi8R,
    Koi8U,
    Macintosh,
    MacCyrillic,
    Windows874,
    Windows1250,
    Windows1251,
    Windows1252,
    Windows1253,
    Windows1254,
    Windows1255,
    Windows1256,
    Windows1257,
    Windows1258,
    HebrewLogical,
    UserDefined,
    Utf16Le,
    Utf16Be,
    Gbk,
    Gb18030,
    Big5,
    EucJp,
    Iso2022Jp,
    ShiftJis,
    EucKr,
}

/// What to do with a character the codec cannot represent.
#[derive(Clone, Copy, Debug, PartialEq, Eq)]
pub enum Trap {
    /// Fail.
    Strict,
    /// Put `?` in its place.
    Replace,
    /// Drop it.
    Ignore,
    /// Put a numeric character reference such as `&#1234;` in its place.
    NcrEscape,
}

/// The WHATWG label under which a codec is looked up.
pub open spec fn codec_label(codec: Codec) -> Seq<char> {
    match codec {
        Codec::Utf8 => "utf-8"@,
        Codec::Ibm866 => "ibm866"@,
        Codec::Latin2 => "iso-8859-2"@,
        Codec::Latin3 => "iso-8859-3"@,
        Codec::Latin4 => "iso-8859-4"@,
        Codec::Cyrillic => "iso-8859-5"@,
        Codec::Arabic => "iso-8859-6"@,
        Codec::Greek => "iso-8859-7"@,
        Codec::Hebrew => "iso-8859-8"@,
        Codec::Latin6 => "iso-8859-10"@,
        Codec::Latin7 => "iso-8859-13"@,
        Codec::Latin8 => "iso-8859-14"@,
        Codec::Latin9 => "iso-8859-15"@,
        Codec::Latin10 => "iso-8859-16"@,
        Codec::Koi8R => "koi8-r"@,
        Codec::Koi8U => "koi8-u"@,
        Codec::Macintosh => "macintosh"@,
        Codec::MacCyrillic => "x-mac-cyrillic"@,
        Codec::Windows874 => "windows-874"@,
        Codec::Windows1250 => "windows-1250"@,
        Codec::Windows1251 => "windows-1251"@,
        Codec::Windows1252 => "windows-1252"@,
        Codec::Windows1253 => "windows-1253"@,
        Codec::Windows1254 => "windows-1254"@,
        Codec::Windows1255 => "windows-1255"@,
        Codec::Windows1256 => "windows-1256"@,
        Codec::Windows1257 => "windows-1257"@,
        Codec::Windows1258 => "windows-1258"@,
        Codec::HebrewLogical => "iso-8859-8-i"@,
        Codec::UserDefined => "x-user-defined"@,
        Codec::Utf16Le => "utf-16le"@,
        Codec::Utf16Be => "utf-16be"@,
        Codec::Gbk => "gbk"@,
        Codec::Gb18030 => "gb18030"@,
        Codec::Big5 => "big5"@,
        Codec::EucJp => "euc-jp"@,
        Codec::Iso2022Jp => "iso-2022-jp"@,
        Codec::ShiftJis => "shift_jis"@,
        Codec::EucKr => "euc-kr"@,
    }
}

/// The labels this library hands to the codec lookup: one for each
/// codec.
pub open spec fn is_codec_label(label: Seq<char>) -> bool {
    exists|codec: Codec| label == #[trigger] codec_label(codec)
}

impl Codec {
    pub fn label(&self) -> (label: &'static str)
        ensures
            label@ == codec_label(*self),
    {
        match self {
            Codec::Utf8 => "utf-8",
            Codec::Ibm866 => "ibm866",
            Codec::Latin2 => "iso-8859-2",
            Codec::Latin3 => "iso-8859-3",
            Codec::Latin4 => "iso-8859-4",
            Codec::Cyrillic => "iso-8859-5",
            Codec::Arabic => "iso-8859-6",
            Codec::Greek => "iso-8859-7",
            Codec::Hebrew => "iso-8859-8",
            Codec::Latin6 => "iso-8859-10",
            Codec::Latin7 => "iso-8859-13",
            Codec::Latin8 => "iso-8859-14",
            Codec::Latin9 => "iso-8859-15",
            Codec::Latin10 => "iso-8859-16",
            Codec::Koi8R => "koi8-r",
            Codec::Koi8U => "koi8-u",
            Codec::Macintosh => "macintosh",
            Codec::MacCyrillic => "x-mac-cyrillic",
            Codec::Windows874 => "windows-874",
            Codec::Windows1250 => "windows-1250",
            Codec::Windows1251 => "windows-1251",
            Codec::Windows1252 => "windows-1252",
            Codec::Windows1253 => "windows-1253",
            Codec::Windows1254 => "windows-1254",
            Codec::Windows1255 => "windows-1255",
            Codec::Windows1256 => "windows-1256",
            Codec::Windows1257 => "windows-1257",
            Codec::Windows1258 => "windows-1258",
            Codec::HebrewLogical => "iso-8859-8-i",
            Codec::UserDefined => "x-user-defined",
            Codec::Utf16Le => "utf-16le",
            Codec::Utf16Be => "utf-16be",
            Codec::Gbk => "gbk",
            Codec::Gb18030 => "gb18030",
            Codec::Big5 => "big5",
            Codec::EucJp => "euc-jp",
            Codec::Iso2022Jp => "iso-2022-jp",
            Codec::ShiftJis => "shift_jis",
            Codec::EucKr => "euc-kr",
        }
    }
}

/// What the `encoding` crate makes of `text` under the codec that `label`
/// names: nothing where it knows no such codec, else the encoded bytes or
/// the cause of the failure.
pub uninterp spec fn labelled_encoding(label: Seq<char>, trap: Trap, text: Seq<char>) -> Option<
    Result<Seq<u8>, Seq<char>>,
>;

/// The view of what the codec lookup and encoding hand back.
pub open spec fn encoding_view(found: Option<Result<Vec<u8>, String>>) -> Option<
    Result<Seq<u8>, Seq<char>>,
> {
    match found {
        None => None,
        Some(Ok(bytes)) => Some(Ok(bytes@)),
        Some(Err(cause)) => Some(Err(cause@)),
    }
}

/// Looks `label` up with `encoding::label::encoding_from_whatwg_label` and
/// encodes `text` with `Encoding::encode` of the codec found. Trusted: the
/// result is the crate's, named by `labelled_encoding`; and under the label
/// `utf-8` it is the text's own UTF-8 bytes, whatever the trap, since that
/// encoder copies its input and never fails. Only the labels of `Codec`
/// are handed over: the encoders they name return on every text and trap.
#[verifier::external_body]
fn encode_labelled(label: &str, on_error: Trap, text: &str) -> (found: Option<
    Result<Vec<u8>, String>,
>)
    requires
        is_codec_label(label@),
    ensures
        encoding_view(found) == labelled_encoding(label@, on_error, text@),
        label@ == "utf-8"@ ==> encoding_view(found) == Some(
            Ok::<Seq<u8>, Seq<char>>(text.spec_bytes()),
        ),
{
    let trap = match on_error {
        Trap::Strict => EncoderTrap::Strict,
        Trap::Replace => EncoderTrap::Replace,
        Trap::Ignore => EncoderTrap::Ignore,
        Trap::NcrEscape => EncoderTrap::NcrEscape,
    };
    match encoding_from_whatwg_label(label) {
        Some(codec) => match codec.encode(text, trap) {
            Ok(bytes) => Some(Ok(bytes)),
            Err(cause) => Some(Err(cause.into_owned())),
        },
        None => None,
    }
}

/// What the encoder returns for each thing the codec can hand back: the
/// bytes; an `Io` failure carrying the codec's cause; or a `Configuration`
/// failure where no codec answers to the label.
pub open spec fn settled(found: Option<Result<Seq<u8>, Seq<char>>>) -> Result<Seq<u8>, Failure> {
    match found {
        Some(Ok(bytes)) => Ok(bytes),
        Some(Err(cause)) => Err(Failure::Io(cause)),
        None => Err(Failure::Configuration("Unknown codec"@)),
    }
}

/// Turns what the codec handed back into the encoder's own result.
pub fn settle(found: Option<Result<Vec<u8>, String>>) -> (r: Result<Vec<u8>, PrinterError>)
    ensures
        crate::error::outcome(r) == settled(encoding_view(found)),
{
    match found {
        Some(Ok(bytes)) => Ok(bytes),
        Some(Err(cause)) => Err(PrinterError::Io(cause)),
        None => Err(PrinterError::configuration("Unknown codec")),
    }
}

/// Turns text into the bytes of one character set.
#[derive(Clone, Copy, Debug, PartialEq, Eq)]
pub struct Encoder {
    pub codec: Codec,
    pub trap: Trap,
}

/// What an encoder makes of a text.
pub open spec fn encoded(encoder: Encoder, text: Seq<char>) -> Result<Seq<u8>, Failure> {
    settled(labelled_encoding(codec_label(encoder.codec), encoder.trap, text))
}

/// The encoder a printer has unless it is given another: UTF-8, with `?`
/// for what cannot be represented.
pub open spec fn default_encoder() -> Encoder {
    Encoder { codec: Codec::Utf8, trap: Trap::Replace }
}

impl Default for Encoder {
    fn default() -> (encoder: Self)
        ensures
            encoder == default_encoder(),
    {
        Encoder { codec: Codec::Utf8, trap: Trap::Replace }
    }
}

impl Encoder {
    pub fn new(codec: Codec, trap: Trap) -> (encoder: Self)
        ensures
            encoder == (Encoder { codec, trap }),
    {
        Self { codec, trap }
    }

    pub fn encode(&self, data: &str) -> (r: Result<Vec<u8>, PrinterError>)
        ensures
            crate::error::outcome(r) == encoded(*self, data@),
            self.codec == Codec::Utf8 ==> crate::error::outcome(r) == Ok::<Seq<u8>, Failure>(
                data.spec_bytes(),
            ),
    {
        let label = self.codec.label();
        settle(encode_labelled(label, self.trap, data))
    }
}

} // verus!
