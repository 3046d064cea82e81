use vstd::prelude::*;

use crate::colour::Colour;
use crate::colour::bg_seq;
use crate::colour::background_bytes;
use crate::colour::fg_seq;
use crate::colour::foreground_bytes;
use crate::colour::fullscreen_bytes;
use crate::colour::fullscreen_seq;
use crate::colour::style_clear_bytes;
use crate::colour::style_clear_seq;
use crate::device::TermError;
use crate::device::TermIn;
use crate::device::TermOut;
use crate::termios::Termios;
use crate::termios::termios_eq;
use crate::termios::with_canon;
use crate::termios::with_echo;
use crate::utf8::acc_fold;
use crate::utf8::assembled_value;
use crate::utf8::lead_mask;
use crate::utf8::lead_ones;
use crate::utf8::lead_ones_count;
use crate::utf8::lemma_acc_fold_snoc;
use vstd::utf8::is_scalar;

verus! {

/// A live terminal session.
///
/// The session exclusively owns its two endpoints and, by convention, the
/// device's line-discipline state. At construction it captures the
/// device's record twice over: as `prior`, never touched again, and as
/// `current`, a mirror updated with every committed change so that later
/// incremental toggles compose. Ending the session with [`Terminal::restore`]
/// re-applies `prior` to the device.
pub struct Terminal<I: TermIn, O: TermOut> {
    stdin: I,
    stdout: O,
    prior: Termios,
    current: Termios,
    staging: bool,
}

/// A staged line-discipline transform: a working copy of the session's
/// current record, edited in memory and applied to the device only when
/// committed, in one atomic application. Obtained from
/// [`Terminal::change`]; single-use, consumed by [`Transform::commit`].
pub struct Transform {
    config: Termios,
}

impl<I: TermIn, O: TermOut> Terminal<I, O> {
    /// The snapshot captured when the session was opened.
    pub closed spec fn prior_spec(&self) -> Termios {
        self.prior
    }

    /// The session's mirror of the record the device currently holds.
    pub closed spec fn current_spec(&self) -> Termios {
        self.current
    }

    /// True while a staged transform from [`Terminal::change`] is
    /// outstanding.
    pub closed spec fn staging_spec(&self) -> bool {
        self.staging
    }

    /// Every byte the output endpoint has accepted so far.
    pub closed spec fn written(&self) -> Seq<u8> {
        self.stdout.written()
    }

    /// The bytes the input endpoint has yet to deliver.
    pub closed spec fn incoming(&self) -> Seq<u8> {
        self.stdin.incoming()
    }

    /// The line-discipline record the device itself holds.
    pub closed spec fn device_attrs(&self) -> Termios {
        self.stdout.attrs()
    }

    /// Well-formed: the session's mirror agrees bit-for-bit with the
    /// device's own record.
    pub open spec fn wf(&self) -> bool {
        termios_eq(self.current_spec(), self.device_attrs())
    }

    /// Open a session over the two endpoints: capture the device's
    /// current line-discipline record as both the prior snapshot and the
    /// working mirror. Fails only if the device refuses to report its
    /// record.
    pub fn new(input: I, output: O) -> (r: Result<Terminal<I, O>, TermError>)
        ensures
            r matches Ok(t) ==> t.wf() && termios_eq(t.prior_spec(), output.attrs())
                && t.current_spec() == t.prior_spec() && !t.staging_spec()
                && t.incoming() == input.incoming() && t.written() == output.written(),
            r matches Err(e) ==> e is Os,
    {
        let captured = match output.get_attrs() {
            Ok(t) => t,
            Err(e) => {
                return Err(e);
            },
        };
        Ok(
            Terminal {
                stdin: input,
                stdout: output,
                prior: captured,
                current: captured,
                staging: false,
            },
        )
    }

    /// Begin a staged transform, seeded with a copy of the session's
    /// current record. At most one transform may be outstanding per
    /// session: while one is, this returns `None` and changes nothing.
    pub fn change(&mut self) -> (r: Option<Transform>)
        ensures
            old(self).staging_spec() ==> r is None && *final(self) == *old(self),
            !old(self).staging_spec() ==> ({
                &&& r matches Some(tr)
                &&& tr.config_spec() == old(self).current_spec()
                &&& final(self).staging_spec()
            }),
            final(self).prior_spec() == old(self).prior_spec(),
            final(self).current_spec() == old(self).current_spec(),
            final(self).device_attrs() == old(self).device_attrs(),
            final(self).written() == old(self).written(),
            final(self).incoming() == old(self).incoming(),
    {
        if self.staging {
            None
        } else {
            self.staging = true;
            Some(Transform { config: self.current })
        }
    }

    /// Release the exclusivity claim of an outstanding staged transform
    /// without committing it, so that a new one can be begun. A transform
    /// abandoned this way must not be committed later.
    pub fn cancel_transform(&mut self)
        ensures
            !final(self).staging_spec(),
            final(self).prior_spec() == old(self).prior_spec(),
            final(self).current_spec() == old(self).current_spec(),
            final(self).device_attrs() == old(self).device_attrs(),
            final(self).written() == old(self).written(),
            final(self).incoming() == old(self).incoming(),
    {
        self.staging = false;
    }

    /// Apply `cfg` to the device and, on success, make it the mirror.
    fn apply_config(&mut self, cfg: &Termios) -> (r: Result<(), TermError>)
        requires
            old(self).wf(),
        ensures
            final(self).wf(),
            r is Ok ==> final(self).current_spec() == *cfg,
            r is Err ==> final(self).current_spec() == old(self).current_spec(),
            r matches Err(e) ==> e is Os,
            final(self).prior_spec() == old(self).prior_spec(),
            final(self).staging_spec() == old(self).staging_spec(),
            final(self).written() == old(self).written(),
            final(self).incoming() == old(self).incoming(),
    {
        match self.stdout.set_attrs(cfg) {
            Ok(()) => {
                self.current = *cfg;
                Ok(())
            },
            Err(e) => Err(e),
        }
    }

    /// Toggle echo on the device at once: flip the bit in a working copy
    /// of the mirror and apply that copy; on success the copy becomes the
    /// mirror, on failure the device and the mirror are unchanged.
    pub fn set_echo(&mut self, on: bool) -> (r: Result<(), TermError>)
        requires
            old(self).wf(),
        ensures
            final(self).wf(),
            r is Ok ==> final(self).current_spec() == with_echo(old(self).current_spec(), on),
            r is Err ==> final(self).current_spec() == old(self).current_spec(),
            r matches Err(e) ==> e is Os,
            final(self).prior_spec() == old(self).prior_spec(),
            final(self).staging_spec() == old(self).staging_spec(),
            final(self).written() == old(self).written(),
            final(self).incoming() == old(self).incoming(),
    {
        let cfg = self.current.echo_set(on);
        self.apply_config(&cfg)
    }

    /// Toggle canonical mode on the device at once, as [`Terminal::set_echo`]
    /// does for echo.
    pub fn set_canon(&mut self, on: bool) -> (r: Result<(), TermError>)
        requires
            old(self).wf(),
        ensures
            final(self).wf(),
            r is Ok ==> final(self).current_spec() == with_canon(old(self).current_spec(), on),
            r is Err ==> final(self).current_spec() == old(self).current_spec(),
            r matches Err(e) ==> e is Os,
            final(self).prior_spec() == old(self).prior_spec(),
            final(self).staging_spec() == old(self).staging_spec(),
            final(self).written() == old(self).written(),
            final(self).incoming() == old(self).incoming(),
    {
        let cfg = self.current.canon_set(on);
        self.apply_config(&cfg)
    }

    /// Write the escape sequence that sets the foreground colour: on
    /// success exactly the bytes of `fg_seq(col)` are appended to the
    /// output, on failure none are. The line discipline is not touched.
    pub fn foreground(&mut self, col: Colour) -> (r: Result<(), TermError>)
        requires
            old(self).wf(),
        ensures
            final(self).wf(),
            r is Ok ==> final(self).written() == old(self).written() + fg_seq(col),
            r is Err ==> final(self).written() == old(self).written(),
            r matches Err(e) ==> e is Os,
            final(self).prior_spec() == old(self).prior_spec(),
            final(self).current_spec() == old(self).current_spec(),
            final(self).staging_spec() == old(self).staging_spec(),
            final(self).incoming() == old(self).incoming(),
    {
        let bytes = foreground_bytes(col);
        match self.stdout.write(bytes.as_slice()) {
            Ok(_) => Ok(()),
            Err(e) => Err(e),
        }
    }

    /// Write the escape sequence that sets the background colour: on
    /// success exactly the bytes of `bg_seq(col)` are appended.
    pub fn background(&mut self, col: Colour) -> (r: Result<(), TermError>)
        requires
            old(self).wf(),
        ensures
            final(self).wf(),
            r is Ok ==> final(self).written() == old(self).written() + bg_seq(col),
            r is Err ==> final(self).written() == old(self).written(),
            r matches Err(e) ==> e is Os,
            final(self).prior_spec() == old(self).prior_spec(),
            final(self).current_spec() == old(self).current_spec(),
            final(self).staging_spec() == old(self).staging_spec(),
            final(self).incoming() == old(self).incoming(),
    {
        let bytes = background_bytes(col);
        match self.stdout.write(bytes.as_slice()) {
            Ok(_) => Ok(()),
            Err(e) => Err(e),
        }
    }

    /// Write the "reset all attributes" escape sequence.
    pub fn style_clear(&mut self) -> (r: Result<(), TermError>)
        requires
            old(self).wf(),
        ensures
            final(self).wf(),
            r is Ok ==> final(self).written() == old(self).written() + style_clear_seq(),
            r is Err ==> final(self).written() == old(self).written(),
            r matches Err(e) ==> e is Os,
            final(self).prior_spec() == old(self).prior_spec(),
            final(self).current_spec() == old(self).current_spec(),
            final(self).staging_spec() == old(self).staging_spec(),
            final(self).incoming() == old(self).incoming(),
    {
        let bytes = style_clear_bytes();
        match self.stdout.write(bytes.as_slice()) {
            Ok(_) => Ok(()),
            Err(e) => Err(e),
        }
    }

    /// Write the escape sequence that enters (`on`) or leaves the
    /// alternate screen buffer.
    pub fn fullscreen(&mut self, on: bool) -> (r: Result<(), TermError>)
        requires
            old(self).wf(),
        ensures
            final(self).wf(),
            r is Ok ==> final(self).written() == old(self).written() + fullscreen_seq(on),
            r is Err ==> final(self).written() == old(self).written(),
            r matches Err(e) ==> e is Os,
            final(self).prior_spec() == old(self).prior_spec(),
            final(self).current_spec() == old(self).current_spec(),
            final(self).staging_spec() == old(self).staging_spec(),
            final(self).incoming() == old(self).incoming(),
    {
        let bytes = fullscreen_bytes(on);
        match self.stdout.write(bytes.as_slice()) {
            Ok(_) => Ok(()),
            Err(e) => Err(e),
        }
    }

    /// Pass `buf` through to the output endpoint unchanged.
    pub fn write(&mut self, buf: &[u8]) -> (r: Result<usize, TermError>)
        requires
            old(self).wf(),
        ensures
            final(self).wf(),
            r matches Ok(n) ==> n == buf@.len() && final(self).written() == old(self).written()
                + buf@,
            r is Err ==> final(self).written() == old(self).written(),
            r matches Err(e) ==> e is Os,
            final(self).prior_spec() == old(self).prior_spec(),
            final(self).current_spec() == old(self).current_spec(),
            final(self).staging_spec() == old(self).staging_spec(),
            final(self).incoming() == old(self).incoming(),
    {
        self.stdout.write(buf)
    }

    /// Pass a flush through to the output endpoint.
    pub fn flush(&mut self) -> (r: Result<(), TermError>)
        requires
            old(self).wf(),
        ensures
            final(self).wf(),
            r matches Err(e) ==> e is Os,
            final(self).written() == old(self).written(),
            final(self).prior_spec() == old(self).prior_spec(),
            final(self).current_spec() == old(self).current_spec(),
            final(self).staging_spec() == old(self).staging_spec(),
            final(self).incoming() == old(self).incoming(),
    {
        self.stdout.flush()
    }

    /// Read one byte from the input endpoint unchanged.
    pub fn read_byte(&mut self) -> (r: Result<u8, TermError>)
        requires
            old(self).wf(),
        ensures
            final(self).wf(),
            r matches Ok(b) ==> old(self).incoming().len() > 0 && b == old(self).incoming()[0]
                && final(self).incoming() == old(self).incoming().skip(1),
            r is Err ==> final(self).incoming() == old(self).incoming(),
            r matches Err(e) ==> e is Os,
            final(self).written() == old(self).written(),
            final(self).prior_spec() == old(self).prior_spec(),
            final(self).current_spec() == old(self).current_spec(),
            final(self).staging_spec() == old(self).staging_spec(),
    {
        self.stdin.read_byte()
    }

    /// Read one UTF-8-encoded scalar value from the input, one byte at a
    /// time as needed.
    ///
    /// The first byte's leading one bits announce the sequence: none
    /// means a single-byte scalar, returned directly; exactly one is a
    /// stray continuation byte, reported as `Ok(None)`; two to four mean
    /// that many bytes in all are read and their value bits assembled.
    /// An assembled value that is no Unicode scalar (a surrogate, or past
    /// 0x10FFFF) is also reported as `Ok(None)`. Five or more leading
    /// ones cannot open a well-formed UTF-8 sequence and are reported as
    /// [`TermError::BadLead`], after consuming only that byte.
    #[verifier::loop_isolation(false)]
    pub fn pull_utf8(&mut self) -> (r: Result<Option<char>, TermError>)
        requires
            old(self).wf(),
        ensures
            final(self).wf(),
            final(self).prior_spec() == old(self).prior_spec(),
            final(self).current_spec() == old(self).current_spec(),
            final(self).staging_spec() == old(self).staging_spec(),
            final(self).written() == old(self).written(),
            r is Ok ==> old(self).incoming().len() > 0,
            r is Ok && lead_ones(old(self).incoming()[0]) == 0 ==> ({
                &&& r->Ok_0 matches Some(c)
                &&& c as u32 == old(self).incoming()[0]
                &&& final(self).incoming() == old(self).incoming().skip(1)
            }),
            r is Ok && lead_ones(old(self).incoming()[0]) == 1 ==> r->Ok_0 is None && final(self).incoming() == old(self).incoming().skip(1),
            r is Ok && 2 <= lead_ones(old(self).incoming()[0]) ==> ({
                let inc = old(self).incoming();
                let l = lead_ones(inc[0]);
                &&& l <= 4
                &&& inc.len() >= l
                &&& final(self).incoming() == inc.skip(l)
                &&& (r->Ok_0 is Some <==> is_scalar(assembled_value(inc.take(l))))
                &&& (r->Ok_0 matches Some(c) ==> c as u32 == assembled_value(inc.take(l)))
            }),
            r matches Err(TermError::BadLead(b)) ==> old(self).incoming().len() > 0 && b == old(self).incoming()[0] && lead_ones(b) >= 5 && final(self).incoming() == old(self).incoming().skip(1),
            r matches Err(e) && e is Os ==> ({
                let inc = old(self).incoming();
                let fin = final(self).incoming();
                &&& fin.len() <= inc.len()
                &&& inc.len() - fin.len() <= 4
                &&& fin == inc.skip(inc.len() - fin.len())
            }),
    {
        let ghost inc = self.stdin.incoming();
        let ghost prior0 = self.prior;
        let ghost cur0 = self.current;
        let ghost st0 = self.staging;
        let ghost out0 = self.stdout;
        let b0: u8 = match self.stdin.read_byte() {
            Ok(b) => b,
            Err(e) => {
                proof {
                    assert(inc.skip(0) =~= inc);
                }
                return Err(e);
            },
        };
        let l: usize = lead_ones_count(b0);
        if l == 0 {
            return Ok(char::from_u32(b0 as u32));
        }
        if l == 1 {
            return Ok(None);
        }
        if l >= 5 {
            return Err(TermError::BadLead(b0));
        }
        let mask: u8 = if l == 2 {
            0x3f
        } else if l == 3 {
            0x1f
        } else {
            0x0f
        };
        let mut v: u32 = (b0 & mask) as u32;
        let mut i: usize = 1;
        while i < l
            invariant
                2 <= l <= 4,
                1 <= i <= l,
                inc.len() >= i,
                l == lead_ones(inc[0]),
                self.stdin.incoming() == inc.skip(i as int),
                self.stdout == out0,
                self.prior == prior0,
                self.current == cur0,
                self.staging == st0,
                v == acc_fold((inc[0] & lead_mask(l as int)) as u32, inc.subrange(1, i as int)),
            decreases l - i,
        {
            let b: u8 = match self.stdin.read_byte() {
                Ok(b) => b,
                Err(e) => {
                    proof {
                        assert(self.stdin.incoming().len() == inc.len() - i as int);
                    }
                    return Err(e);
                },
            };
            proof {
                assert(inc.skip(i as int).skip(1) =~= inc.skip(i as int + 1));
                assert(b == inc[i as int]);
                lemma_acc_fold_snoc(
                    (inc[0] & lead_mask(l as int)) as u32,
                    inc.subrange(1, i as int),
                    b,
                );
                assert(inc.subrange(1, i as int + 1) =~= inc.subrange(1, i as int).push(
                    inc[i as int],
                ));
            }
            v = (v << 6) | ((b & 0x3f) as u32);
            i = i + 1;
        }
        proof {
            assert(inc.take(l as int).skip(1) =~= inc.subrange(1, l as int));
            assert(inc.take(l as int)[0] == inc[0]);
        }
        Ok(char::from_u32(v))
    }

    /// End the session: attempt to re-apply the prior snapshot to the
    /// device, then hand both endpoints back. Restoration is best-effort:
    /// the attempt's result is reported, the endpoints come back either
    /// way, and a failed application leaves the device as the session
    /// left it.
    pub fn restore(self) -> (r: (Result<(), TermError>, I, O))
        requires
            self.wf(),
        ensures
            r.0 is Ok ==> termios_eq(r.2.attrs(), self.prior_spec()),
            r.0 is Err ==> termios_eq(r.2.attrs(), self.current_spec()),
            r.0 matches Err(e) ==> e is Os,
            r.2.written() == self.written(),
            r.1.incoming() == self.incoming(),
    {
        let Terminal { stdin, mut stdout, prior, current: _, staging: _ } = self;
        let res = stdout.set_attrs(&prior);
        (res, stdin, stdout)
    }
}

impl Transform {
    /// The staged working record.
    pub closed spec fn config_spec(&self) -> Termios {
        self.config
    }

    /// Stage canonical (line-buffered) input on or off. Pure data: the
    /// device is not touched.
    pub fn canonical(self, value: bool) -> (r: Transform)
        ensures
            r.config_spec() == with_canon(self.config_spec(), value),
    {
        Transform { config: self.config.canon_set(value) }
    }

    /// Stage echo on or off. Pure data: the device is not touched.
    pub fn echo(self, value: bool) -> (r: Transform)
        ensures
            r.config_spec() == with_echo(self.config_spec(), value),
    {
        Transform { config: self.config.echo_set(value) }
    }

    /// Commit the staged record to the session's device in one atomic
    /// application. On success the session's mirror becomes the staged
    /// record; on failure the device and the mirror are unchanged. Either
    /// way the transform is consumed and the session's exclusivity claim
    /// is released.
    pub fn commit<I: TermIn, O: TermOut>(self, t: &mut Terminal<I, O>) -> (r: Result<
        (),
        TermError,
    >)
        requires
            old(t).wf(),
        ensures
            final(t).wf(),
            !final(t).staging_spec(),
            r is Ok ==> final(t).current_spec() == self.config_spec(),
            r is Err ==> final(t).current_spec() == old(t).current_spec(),
            r matches Err(e) ==> e is Os,
            final(t).prior_spec() == old(t).prior_spec(),
            final(t).written() == old(t).written(),
            final(t).incoming() == old(t).incoming(),
    {
        t.staging = false;
        t.apply_config(&self.config)
    }
}

} // verus!
