use vstd::prelude::*;
use vstd::string::StringExecFns;

verus! {

/// One of the printer's built-in character fonts.
#[derive(Clone, Copy, Debug, PartialEq, Eq)]
pub enum Font {
    A,
    B,
    C,
}

/// The letter of a font.
pub open spec fn font_text(font: Font) -> Seq<char> {
    match font {
        Font::A => "A"@,
        Font::B => "B"@,
        Font::C => "C"@,
    }
}

impl Font {
    pub fn describe(&self) -> (text: String)
        ensures
            text@ == font_text(*self),
    {
        match self {
            Font::A => String::from_str("A"),
            Font::B => String::from_str("B"),
            Font::C => String::from_str("C"),
        }
    }
}

} // verus!
