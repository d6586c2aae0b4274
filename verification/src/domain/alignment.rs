use vstd::prelude::*;
use vstd::string::StringExecFns;

verus! {

/// Horizontal placement of the text that follows.
#[derive(Clone, Copy, Debug, PartialEq, Eq)]
pub enum Alignment {
    Left,
    Center,
    Right,
}

/// The lower-case name of an alignment.
pub open spec fn alignment_text(alignment: Alignment) -> Seq<char> {
    match alignment {
        Alignment::Left => "left"@,
        Alignment::Center => "center"@,
        Alignment::Right => "right"@,
    }
}

impl Alignment {
    pub fn describe(&self) -> (text: String)
        ensures
            text@ == alignment_text(*self),
    {
        match self {
            Alignment::Left => String::from_str("left"),
            Alignment::Center => String::from_str("center"),
            Alignment::Right => String::from_str("right"),
        }
    }
}

} // verus!
