use vstd::prelude::*;

verus! {

/// Number of control-character slots in a line-discipline record.
pub const NCCS: usize = 32;

/// Local-mode flag: canonical (line-buffered) input processing.
pub const ICANON: u32 = 0o000002;

/// Local-mode flag: echo typed characters back to the terminal.
pub const ECHO: u32 = 0o000010;

/// A byte-exact copy of one terminal device's line-discipline
/// configuration: the four flag words, the line-discipline byte, the
/// control-character table and the two baud rates.
///
/// A snapshot is always captured whole from a device and applied whole;
/// the only field this library ever edits in a copy is `c_lflag`, where
/// the echo and canonical-mode bits live.
#[derive(Clone, Copy, PartialEq, Eq, Debug)]
pub struct Termios {
    pub c_iflag: u32,
    pub c_oflag: u32,
    pub c_cflag: u32,
    pub c_lflag: u32,
    pub c_line: u8,
    pub c_cc: [u8; NCCS],
    pub c_ispeed: u32,
    pub c_ospeed: u32,
}

/// Bit-for-bit equality of two line-discipline records.
pub open spec fn termios_eq(a: Termios, b: Termios) -> bool {
    &&& a.c_iflag == b.c_iflag
    &&& a.c_oflag == b.c_oflag
    &&& a.c_cflag == b.c_cflag
    &&& a.c_lflag == b.c_lflag
    &&& a.c_line == b.c_line
    &&& a.c_cc@ == b.c_cc@
    &&& a.c_ispeed == b.c_ispeed
    &&& a.c_ospeed == b.c_ospeed
}

/// The record with one local-mode bit forced on or off, all other fields
/// unchanged.
pub open spec fn lflag_toggled(t: Termios, bit: u32, on: bool) -> Termios {
    Termios { c_lflag: if on { t.c_lflag | bit } else { t.c_lflag & !bit }, ..t }
}

/// The record with echo switched on or off.
pub open spec fn with_echo(t: Termios, on: bool) -> Termios {
    lflag_toggled(t, ECHO, on)
}

/// The record with canonical mode switched on or off.
pub open spec fn with_canon(t: Termios, on: bool) -> Termios {
    lflag_toggled(t, ICANON, on)
}

impl Termios {
    /// Overwrite every field of this record with `other`'s.
    pub fn copy_from(&mut self, other: &Self)
        ensures
            *final(self) == *other,
            termios_eq(*final(self), *other),
    {
        self.c_iflag = other.c_iflag;
        self.c_oflag = other.c_oflag;
        self.c_cflag = other.c_cflag;
        self.c_lflag = other.c_lflag;
        self.c_line = other.c_line;
        self.c_cc = other.c_cc;
        self.c_ispeed = other.c_ispeed;
        self.c_ospeed = other.c_ospeed;
    }

    /// A copy of this record with echo switched on or off.
    pub fn echo_set(&self, on: bool) -> (r: Termios)
        ensures
            r == with_echo(*self, on),
    {
        let mut t = *self;
        t.c_lflag = if on { t.c_lflag | ECHO } else { t.c_lflag & !ECHO };
        t
    }

    /// A copy of this record with canonical mode switched on or off.
    pub fn canon_set(&self, on: bool) -> (r: Termios)
        ensures
            r == with_canon(*self, on),
    {
        let mut t = *self;
        t.c_lflag = if on { t.c_lflag | ICANON } else { t.c_lflag & !ICANON };
        t
    }
}

} // verus!
