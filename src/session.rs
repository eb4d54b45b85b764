use vstd::prelude::*;

use crate::event::Error;

verus! {

/// Whether a controller handle has a reader started. The handle asks it
/// before and after acquiring the input source, and on close.
#[derive(Debug, Copy, Clone, PartialEq, Eq, Structural)]
pub struct Lifecycle {
    open: bool,
}

impl View for Lifecycle {
    type V = bool;

    /// `true` while the handle is open.
    closed spec fn view(&self) -> bool {
        self.open
    }
}

impl Lifecycle {
    /// A handle that was never opened.
    pub fn new() -> (r: Lifecycle)
        ensures
            !r@,
    {
        Lifecycle { open: false }
    }

    pub fn is_open(&self) -> (r: bool)
        ensures
            r == self@,
    {
        self.open
    }

    /// Whether an `open` may go on to acquire the input source: not when
    /// the handle is open already.
    pub fn check_open(&self) -> (r: Result<(), Error>)
        ensures
            self@ ==> r == Err::<(), Error>(Error::AlreadyOpen),
            !self@ ==> r == Ok::<(), Error>(()),
    {
        if self.open {
            Err(Error::AlreadyOpen)
        } else {
            Ok(())
        }
    }

    /// Ends an `open` once the input source was tried: `acquired` tells
    /// whether it could be had. An open handle stays as it is.
    pub fn finish_open(&mut self, acquired: bool) -> (r: Result<(), Error>)
        ensures
            old(self)@ ==> r == Err::<(), Error>(Error::AlreadyOpen) && final(self)@,
            !old(self)@ && !acquired ==> r == Err::<(), Error>(Error::NoController) && !final(self)@,
            !old(self)@ && acquired ==> r == Ok::<(), Error>(()) && final(self)@,
    {
        if self.open {
            Err(Error::AlreadyOpen)
        } else if !acquired {
            Err(Error::NoController)
        } else {
            self.open = true;
            Ok(())
        }
    }

    /// Closes the handle: an error if it is not open.
    pub fn close(&mut self) -> (r: Result<(), Error>)
        ensures
            !old(self)@ ==> r == Err::<(), Error>(Error::NotOpen),
            old(self)@ ==> r == Ok::<(), Error>(()),
            !final(self)@,
    {
        if self.open {
            self.open = false;
            Ok(())
        } else {
            Err(Error::NotOpen)
        }
    }
}

} // verus!
