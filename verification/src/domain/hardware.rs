use vstd::prelude::*;
use vstd::string::StringExecFns;

verus! {

/// A command addressed to the device itself rather than to the page.
#[derive(Clone, Copy, Debug, PartialEq, Eq)]
pub enum Hardware {
    Init,
    Select,
    Reset,
}

/// The lower-case name of a hardware command.
pub open spec fn hardware_text(hardware: Hardware) -> Seq<char> {
    match hardware {
        Hardware::Init => "init"@,
        Hardware::Select => "select"@,
        Hardware::Reset => "reset"@,
    }
}

impl Hardware {
    pub fn describe(&self) -> (text: String)
        ensures
            text@ == hardware_text(*self),
    {
        match self {
            Hardware::Init => String::from_str("init"),
            Hardware::Select => String::from_str("select"),
            Hardware::Reset => String::from_str("reset"),
        }
    }
}

} // verus!
