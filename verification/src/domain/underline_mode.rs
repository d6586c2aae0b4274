use vstd::prelude::*;
use vstd::string::StringExecFns;

verus! {

/// How the text that follows is underlined.
#[derive(Clone, Copy, Debug, PartialEq, Eq)]
pub enum UnderlineMode {
    Off,
    Single,
    Double,
}

/// The lower-case name of an underline mode.
pub open spec fn underline_text(mode: UnderlineMode) -> Seq<char> {
    match mode {
        UnderlineMode::Off => "none"@,
        UnderlineMode::Single => "single"@,
        UnderlineMode::Double => "double"@,
    }
}

impl UnderlineMode {
    pub fn describe(&self) -> (text: String)
        ensures
            text@ == underline_text(*self),
    {
        match self {
            UnderlineMode::Off => String::from_str("none"),
            UnderlineMode::Single => String::from_str("single"),
            UnderlineMode::Double => String::from_str("double"),
        }
    }
}

} // verus!
