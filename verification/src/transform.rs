use vstd::prelude::*;

use crate::colour::Colour;
use crate::colour::bg_seq;
use crate::colour::fg_seq;
use crate::colour::fullscreen_seq;
use crate::device::TermError;
use crate::device::TermIn;
use crate::device::TermOut;
use crate::session::Terminal;
use crate::termios::Termios;
use crate::termios::termios_eq;
use crate::termios::with_canon;
use crate::termios::with_echo;

verus! {

/// One staged setting of a transform chain.
#[derive(Clone, Copy, PartialEq, Eq, Debug)]
pub enum Setting {
    Echo(bool),
    Canonical(bool),
    Foreground(Colour),
    Background(Colour),
    Fullscreen(bool),
}

/// The line-discipline record after applying `s` to `t`: the echo and
/// canonical toggles flip their bit; the colour and screen settings write
/// bytes only and leave the record alone.
pub open spec fn setting_termios(t: Termios, s: Setting) -> Termios {
    match s {
        Setting::Echo(on) => with_echo(t, on),
        Setting::Canonical(on) => with_canon(t, on),
        Setting::Foreground(_) => t,
        Setting::Background(_) => t,
        Setting::Fullscreen(_) => t,
    }
}

/// The escape bytes `s` emits when applied.
pub open spec fn setting_bytes(s: Setting) -> Seq<u8> {
    match s {
        Setting::Echo(_) => Seq::empty(),
        Setting::Canonical(_) => Seq::empty(),
        Setting::Foreground(c) => fg_seq(c),
        Setting::Background(c) => bg_seq(c),
        Setting::Fullscreen(on) => fullscreen_seq(on),
    }
}

/// The record after applying every setting of `ss` to `t`, first to last.
pub open spec fn chain_termios(t: Termios, ss: Seq<Setting>) -> Termios
    decreases ss.len(),
{
    if ss.len() == 0 {
        t
    } else {
        setting_termios(chain_termios(t, ss.drop_last()), ss.last())
    }
}

/// The bytes emitted by applying every setting of `ss`, first to last.
pub open spec fn chain_bytes(ss: Seq<Setting>) -> Seq<u8>
    decreases ss.len(),
{
    if ss.len() == 0 {
        Seq::empty()
    } else {
        chain_bytes(ss.drop_last()) + setting_bytes(ss.last())
    }
}

/// Transform application order: a setting chained after `ss` takes
/// effect after everything in `ss` — on the record and on the emitted
/// bytes alike — so chain order is application order.
pub proof fn lemma_chain_order(t: Termios, ss: Seq<Setting>, s: Setting)
    ensures
        chain_termios(t, ss.push(s)) == setting_termios(chain_termios(t, ss), s),
        chain_bytes(ss.push(s)) == chain_bytes(ss) + setting_bytes(s),
{
    assert(ss.push(s).drop_last() =~= ss);
    assert(ss.push(s).last() == s);
}

/// An ordered chain of staged settings.
///
/// Each chaining step only records its setting; nothing touches the
/// terminal until [`TermTransform::commit`], which applies the settings
/// in the order they were chained. The chain is single-use: commit
/// consumes it.
pub struct TermTransform {
    settings: Vec<Setting>,
}

impl TermTransform {
    /// The staged settings, in the order they will apply.
    pub closed spec fn staged(&self) -> Seq<Setting> {
        self.settings@
    }

    /// An empty chain; committing it does nothing.
    pub fn new() -> (r: TermTransform)
        ensures
            r.staged() == Seq::<Setting>::empty(),
    {
        TermTransform { settings: Vec::new() }
    }

    /// Chain an echo toggle.
    pub fn echo(self, on: bool) -> (r: TermTransform)
        ensures
            r.staged() == self.staged().push(Setting::Echo(on)),
    {
        let mut r = self;
        r.settings.push(Setting::Echo(on));
        r
    }

    /// Chain a canonical-mode toggle.
    pub fn canon(self, on: bool) -> (r: TermTransform)
        ensures
            r.staged() == self.staged().push(Setting::Canonical(on)),
    {
        let mut r = self;
        r.settings.push(Setting::Canonical(on));
        r
    }

    /// Chain a foreground colour.
    pub fn foreground(self, c: Colour) -> (r: TermTransform)
        ensures
            r.staged() == self.staged().push(Setting::Foreground(c)),
    {
        let mut r = self;
        r.settings.push(Setting::Foreground(c));
        r
    }

    /// Chain a background colour.
    pub fn background(self, c: Colour) -> (r: TermTransform)
        ensures
            r.staged() == self.staged().push(Setting::Background(c)),
    {
        let mut r = self;
        r.settings.push(Setting::Background(c));
        r
    }

    /// Chain an alternate-screen switch.
    pub fn fullscreen(self, on: bool) -> (r: TermTransform)
        ensures
            r.staged() == self.staged().push(Setting::Fullscreen(on)),
    {
        let mut r = self;
        r.settings.push(Setting::Fullscreen(on));
        r
    }

    /// Commit the chain against a session, applying each staged setting
    /// in chain order: the toggles each reach the device at once, the
    /// colour and screen settings write their escape bytes.
    ///
    /// The first failing step aborts the rest and its error is surfaced;
    /// every setting before it stays in effect, so a failed commit leaves
    /// the session exactly as if only the chain's first `k` settings had
    /// been applied, for some `k` short of the whole chain.
    #[verifier::loop_isolation(false)]
    pub fn commit<I: TermIn, O: TermOut>(self, t: &mut Terminal<I, O>) -> (r: Result<
        (),
        TermError,
    >)
        requires
            old(t).wf(),
        ensures
            final(t).wf(),
            final(t).prior_spec() == old(t).prior_spec(),
            final(t).staging_spec() == old(t).staging_spec(),
            final(t).incoming() == old(t).incoming(),
            r is Ok ==> final(t).current_spec() == chain_termios(
                old(t).current_spec(),
                self.staged(),
            ) && final(t).written() == old(t).written() + chain_bytes(self.staged()),
            r matches Err(e) ==> e is Os && exists|k: int|
                0 <= k < self.staged().len() && final(t).current_spec() == chain_termios(
                    old(t).current_spec(),
                    #[trigger] self.staged().take(k),
                ) && final(t).written() == old(t).written() + chain_bytes(self.staged().take(k)),
    {
        let TermTransform { settings } = self;
        let n: usize = settings.len();
        let mut i: usize = 0;
        while i < n
            invariant
                i <= n,
                n == settings@.len(),
                t.wf(),
                t.prior_spec() == old(t).prior_spec(),
                t.staging_spec() == old(t).staging_spec(),
                t.incoming() == old(t).incoming(),
                t.current_spec() == chain_termios(old(t).current_spec(), settings@.take(i as int)),
                t.written() == old(t).written() + chain_bytes(settings@.take(i as int)),
            decreases n - i,
        {
            let ghost done = settings@.take(i as int);
            let s = settings[i];
            let step: Result<(), TermError> = match s {
                Setting::Echo(on) => t.set_echo(on),
                Setting::Canonical(on) => t.set_canon(on),
                Setting::Foreground(c) => t.foreground(c),
                Setting::Background(c) => t.background(c),
                Setting::Fullscreen(on) => t.fullscreen(on),
            };
            proof {
                lemma_chain_order(old(t).current_spec(), done, s);
                assert(done.push(s) =~= settings@.take(i as int + 1));
                assert((old(t).written() + chain_bytes(done)) + setting_bytes(s) =~= old(
                    t,
                ).written() + (chain_bytes(done) + setting_bytes(s)));
            }
            match step {
                Ok(()) => {
                    i = i + 1;
                },
                Err(e) => {
                    proof {
                        assert(self.staged().take(i as int) == settings@.take(i as int));
                        assert(t.current_spec() == chain_termios(
                            old(t).current_spec(),
                            self.staged().take(i as int),
                        ));
                        assert(t.written() == old(t).written() + chain_bytes(
                            self.staged().take(i as int),
                        ));
                    }
                    return Err(e);
                },
            }
        }
        proof {
            assert(settings@.take(n as int) =~= settings@);
        }
        Ok(())
    }
}

/// Round-trip restoration: open a session over the two endpoints, commit
/// an arbitrary transform chain against it, then end the session. When
/// the reported status is success, the device's line-discipline record is
/// bit-for-bit the record it held before the session — whatever the chain
/// staged. The endpoints come back whenever a session was opened at all.
pub fn apply_restored<I: TermIn, O: TermOut>(input: I, output: O, chain: TermTransform) -> (r: (
    Result<(), TermError>,
    Option<(I, O)>,
))
    ensures
        r.0 is Ok ==> (r.1 matches Some(h) ==> termios_eq(h.1.attrs(), output.attrs())),
        r.1 is None ==> r.0 is Err,
{
    let mut t = match Terminal::new(input, output) {
        Ok(t) => t,
        Err(e) => {
            return (Err(e), None);
        },
    };
    let commit_res = chain.commit(&mut t);
    let (restore_res, ein, eout) = t.restore();
    let status: Result<(), TermError> = if commit_res.is_err() {
        commit_res
    } else {
        restore_res
    };
    (status, Some((ein, eout)))
}

} // verus!
