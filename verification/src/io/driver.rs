use vstd::prelude::*;
use crate::error::PrinterError;

verus! {

/// The transport a printer is reached through. The library hands it
/// bytes in order and asks nothing more of it: an implementation may fail
/// any call.
pub trait Driver {
    fn name(&self) -> &str;

    fn write(&self, data: &[u8]) -> Result<(), PrinterError>;

    fn flush(&self) -> Result<(), PrinterError>;
}

/// A transport that accepts everything and sends it nowhere.
#[derive(Default)]
pub struct NoopDriver;

impl Driver for NoopDriver {
    fn name(&self) -> (name: &str)
        ensures
            name@ == "noop"@,
    {
        "noop"
    }

    fn write(&self, _data: &[u8]) -> (r: Result<(), PrinterError>)
        ensures
            r is Ok,
    {
        Ok(())
    }

    fn flush(&self) -> (r: Result<(), PrinterError>)
        ensures
            r is Ok,
    {
        Ok(())
    }
}

} // verus!
