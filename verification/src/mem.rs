use vstd::prelude::*;

use crate::device::TermError;
use crate::device::TermIn;
use crate::device::TermOut;
use crate::termios::Termios;
use crate::termios::termios_eq;

verus! {

/// An in-memory readable endpoint: it delivers a fixed script of bytes,
/// then reports the end of its input.
pub struct MemIn {
    data: Vec<u8>,
}

impl MemIn {
    /// An endpoint that will deliver exactly the bytes of `data`, in order.
    pub fn new(data: Vec<u8>) -> (r: MemIn)
        ensures
            r.incoming() == data@,
    {
        MemIn { data }
    }
}

impl TermIn for MemIn {
    closed spec fn incoming(&self) -> Seq<u8> {
        self.data@
    }

    fn read_byte(&mut self) -> (r: Result<u8, TermError>)
        ensures
            r is Err <==> old(self).incoming().len() == 0,
            r matches Err(e) ==> e == TermError::Os(0),
    {
        if self.data.len() == 0 {
            Err(TermError::Os(0))
        } else {
            let b = self.data.remove(0);
            assert(self.incoming() =~= old(self).incoming().skip(1));
            Ok(b)
        }
    }
}

/// An in-memory writable endpoint standing for a terminal device: it
/// holds a line-discipline record and collects every byte written to it.
///
/// The number of snapshot applications it accepts can be capped, so that
/// a commit can be made to fail partway through on purpose.
pub struct MemOut {
    state: Termios,
    sink: Vec<u8>,
    sets_left: usize,
}

impl MemOut {
    /// How many more snapshot applications the device will accept.
    pub closed spec fn budget(&self) -> nat {
        self.sets_left as nat
    }

    /// A device holding `initial`, accepting any number of snapshot
    /// applications.
    pub fn new(initial: Termios) -> (r: MemOut)
        ensures
            termios_eq(r.attrs(), initial),
            r.written() == Seq::<u8>::empty(),
            r.budget() == usize::MAX,
    {
        MemOut { state: initial, sink: Vec::new(), sets_left: usize::MAX }
    }

    /// A device holding `initial` that accepts only `budget` snapshot
    /// applications and rejects every one after those.
    pub fn with_set_budget(initial: Termios, budget: usize) -> (r: MemOut)
        ensures
            termios_eq(r.attrs(), initial),
            r.written() == Seq::<u8>::empty(),
            r.budget() == budget,
    {
        MemOut { state: initial, sink: Vec::new(), sets_left: budget }
    }

    /// The bytes accepted so far, in order.
    pub fn taken(&self) -> (r: &Vec<u8>)
        ensures
            r@ == self.written(),
    {
        &self.sink
    }

    /// The line-discipline record the device currently holds.
    pub fn held(&self) -> (r: Termios)
        ensures
            termios_eq(r, self.attrs()),
    {
        self.state
    }
}

impl TermOut for MemOut {
    closed spec fn attrs(&self) -> Termios {
        self.state
    }

    closed spec fn written(&self) -> Seq<u8> {
        self.sink@
    }

    fn get_attrs(&self) -> (r: Result<Termios, TermError>) {
        Ok(self.state)
    }

    fn set_attrs(&mut self, t: &Termios) -> (r: Result<(), TermError>)
        ensures
            r is Err <==> old(self).budget() == 0,
            r matches Err(e) ==> e == TermError::Os(1),
            r is Ok ==> final(self).budget() == old(self).budget() - 1,
            r is Err ==> *final(self) == *old(self),
    {
        if self.sets_left == 0 {
            Err(TermError::Os(1))
        } else {
            self.sets_left = self.sets_left - 1;
            self.state = *t;
            Ok(())
        }
    }

    fn write(&mut self, buf: &[u8]) -> (r: Result<usize, TermError>) {
        let ghost orig_sink = self.sink@;
        let ghost orig_state = self.state;
        let mut i: usize = 0;
        while i < buf.len()
            invariant
                i <= buf@.len(),
                self.sink@ == orig_sink + buf@.take(i as int),
                self.state == orig_state,
            decreases buf@.len() - i,
        {
            self.sink.push(buf[i]);
            i = i + 1;
            assert(self.sink@ =~= orig_sink + buf@.take(i as int));
        }
        assert(self.sink@ =~= orig_sink + buf@);
        Ok(buf.len())
    }

    fn flush(&mut self) -> (r: Result<(), TermError>) {
        Ok(())
    }
}

} // verus!
