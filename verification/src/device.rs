use vstd::prelude::*;

use crate::termios::Termios;
use crate::termios::termios_eq;

verus! {

/// The errors a session can surface.
///
/// - `Os(code)`: a device operation was rejected; `code` is the raw error
///   number the endpoint reported (endpoints that have no number use 0).
/// - `BadLead(byte)`: the UTF-8 decoder read a lead byte claiming a
///   five-or-more-byte sequence, which no well-formed UTF-8 stream
///   contains; the byte is returned for diagnosis.
#[derive(Clone, Copy, PartialEq, Eq, Debug)]
pub enum TermError {
    Os(i32),
    BadLead(u8),
}

/// A readable terminal endpoint: a byte stream delivering what is typed
/// at (or piped into) the terminal.
///
/// `incoming()` is the abstract queue of bytes the endpoint will deliver,
/// in order. A successful read hands out the head of that queue; a failed
/// read leaves the queue as it was.
pub trait TermIn: Sized {
    /// The bytes this endpoint has yet to deliver, in order. An endpoint
    /// outside the verifier's reach may leave this default, which says
    /// nothing about the stream.
    open spec fn incoming(&self) -> Seq<u8> {
        vstd::pervasive::arbitrary()
    }

    /// Read the next byte, blocking until one is available, or report an
    /// error if the endpoint cannot deliver one.
    fn read_byte(&mut self) -> (r: Result<u8, TermError>)
        ensures
            r matches Ok(b) ==> old(self).incoming().len() > 0 && b == old(self).incoming()[0]
                && final(self).incoming() == old(self).incoming().skip(1),
            r is Err ==> final(self).incoming() == old(self).incoming(),
            r matches Err(e) ==> e is Os,
    ;
}

/// A writable terminal endpoint that also carries the device's
/// line-discipline state.
///
/// `attrs()` is the line-discipline record the device currently holds;
/// `written()` is everything the endpoint has accepted so far. Applying a
/// snapshot is atomic: it either installs the whole record or changes
/// nothing, and writing bytes never touches the line discipline.
pub trait TermOut: Sized {
    /// The line-discipline record the device currently holds. An endpoint
    /// outside the verifier's reach may leave this default, which says
    /// nothing about the record.
    open spec fn attrs(&self) -> Termios {
        vstd::pervasive::arbitrary()
    }

    /// Every byte this endpoint has accepted so far, in order. Defaulted
    /// for the same reason as `attrs`.
    open spec fn written(&self) -> Seq<u8> {
        vstd::pervasive::arbitrary()
    }

    /// Read the device's current line-discipline record.
    fn get_attrs(&self) -> (r: Result<Termios, TermError>)
        ensures
            r matches Ok(t) ==> termios_eq(t, self.attrs()),
            r matches Err(e) ==> e is Os,
    ;

    /// Apply `t` to the device, atomically and with immediate effect.
    fn set_attrs(&mut self, t: &Termios) -> (r: Result<(), TermError>)
        ensures
            r is Ok ==> termios_eq(final(self).attrs(), *t),
            r is Err ==> termios_eq(final(self).attrs(), old(self).attrs()),
            r matches Err(e) ==> e is Os,
            final(self).written() == old(self).written(),
    ;

    /// Write all of `buf`, or report an error having written nothing.
    fn write(&mut self, buf: &[u8]) -> (r: Result<usize, TermError>)
        ensures
            r matches Ok(n) ==> n == buf@.len()
                && final(self).written() == old(self).written() + buf@,
            r is Err ==> final(self).written() == old(self).written(),
            r matches Err(e) ==> e is Os,
            termios_eq(final(self).attrs(), old(self).attrs()),
    ;

    /// Push any buffered bytes through to the device.
    fn flush(&mut self) -> (r: Result<(), TermError>)
        ensures
            final(self).written() == old(self).written(),
            termios_eq(final(self).attrs(), old(self).attrs()),
            r matches Err(e) ==> e is Os,
    ;
}

/// Snapshot idempotence: applying the same snapshot to a device twice in
/// a row leaves the device exactly where one application put it. Once the
/// first application has succeeded, the device's record is `snap`
/// whatever the second application reports, so a subsequent read
/// (`get_attrs`) sees a record unchanged by the repetition.
pub fn reapply_snapshot<O: TermOut>(dev: &mut O, snap: &Termios) -> (r: (
    Result<(), TermError>,
    Result<(), TermError>,
))
    ensures
        r.0 is Ok ==> termios_eq(final(dev).attrs(), *snap),
        r.1 is Ok ==> termios_eq(final(dev).attrs(), *snap),
        r.0 is Err && r.1 is Err ==> termios_eq(final(dev).attrs(), old(dev).attrs()),
        final(dev).written() == old(dev).written(),
{
    let first = dev.set_attrs(snap);
    let second = dev.set_attrs(snap);
    (first, second)
}

} // verus!
