use termctl::device::reapply_snapshot;
use termctl::device::TermOut;
use termctl::transform::apply_restored;
use termctl::Colour;
use termctl::MemIn;
use termctl::MemOut;
use termctl::TermError;
use termctl::TermTransform;
use termctl::Terminal;
use termctl::Termios;

const ICANON: u32 = 0o2;
const ECHO: u32 = 0o10;

fn cooked_termios() -> Termios {
    Termios {
        c_iflag: 0xBEEF,
        c_oflag: 0xCAFE,
        c_cflag: 0x0123,
        c_lflag: ICANON | ECHO | 0o100,
        c_line: 3,
        c_cc: [5u8; 32],
        c_ispeed: 9600,
        c_ospeed: 19200,
    }
}

fn other_termios() -> Termios {
    Termios {
        c_iflag: 1,
        c_oflag: 2,
        c_cflag: 3,
        c_lflag: 4,
        c_line: 5,
        c_cc: [6u8; 32],
        c_ispeed: 7,
        c_ospeed: 8,
    }
}

fn session(out: MemOut) -> Terminal<MemIn, MemOut> {
    Terminal::new(MemIn::new(Vec::new()), out).expect("in-memory device reports its record")
}

#[test]
fn copy_from_copies_every_field() {
    let mut a = cooked_termios();
    let b = other_termios();
    a.copy_from(&b);
    assert_eq!(a, b);
}

#[test]
fn echo_and_canon_copies_toggle_one_bit() {
    let t = cooked_termios();
    assert_eq!(t.echo_set(false).c_lflag, t.c_lflag & !ECHO);
    assert_eq!(t.echo_set(true).c_lflag, t.c_lflag | ECHO);
    assert_eq!(t.canon_set(false).c_lflag, t.c_lflag & !ICANON);
    assert_eq!(t.canon_set(false).c_iflag, t.c_iflag);
    assert_eq!(t.canon_set(false).c_cc, t.c_cc);
}

#[test]
fn snapshot_idempotence_on_a_device() {
    let mut dev = MemOut::new(cooked_termios());
    let snap = other_termios();
    let (first, second) = reapply_snapshot(&mut dev, &snap);
    assert_eq!(first, Ok(()));
    assert_eq!(second, Ok(()));
    assert_eq!(dev.held(), snap);
}

#[test]
fn snapshot_reapplication_changes_nothing_more() {
    let mut dev = MemOut::new(cooked_termios());
    let snap = other_termios();
    assert_eq!(dev.set_attrs(&snap), Ok(()));
    let after_one = dev.held();
    assert_eq!(dev.set_attrs(&snap), Ok(()));
    assert_eq!(dev.held(), after_one);
}

#[test]
fn transform_commit_applies_staged_record_atomically() {
    // One snapshot application is enough for the whole builder commit.
    let out = MemOut::with_set_budget(cooked_termios(), 1);
    let mut t = session(out);
    let tr = t.change().expect("no transform is outstanding yet");
    let res = tr.echo(false).canonical(false).commit(&mut t);
    assert_eq!(res, Ok(()));
    let (rres, _input, output) = t.restore();
    // The budget is spent, so restoration is refused and the committed
    // record is still in force.
    assert_eq!(rres, Err(TermError::Os(1)));
    assert_eq!(output.held().c_lflag, cooked_termios().c_lflag & !(ECHO | ICANON));
}

#[test]
fn only_one_staged_transform_at_a_time() {
    let mut t = session(MemOut::new(cooked_termios()));
    let tr = t.change().expect("first transform begins");
    assert!(t.change().is_none(), "a second transform while one is outstanding is rejected");
    assert_eq!(tr.commit(&mut t), Ok(()));
    assert!(t.change().is_some(), "after commit a new transform may begin");
}

#[test]
fn cancel_releases_the_transform_claim() {
    let mut t = session(MemOut::new(cooked_termios()));
    let _tr = t.change().expect("first transform begins");
    assert!(t.change().is_none());
    t.cancel_transform();
    assert!(t.change().is_some());
}

#[test]
fn chain_applies_settings_in_chain_order() {
    let mut t = session(MemOut::new(cooked_termios()));
    let chain = TermTransform::new().echo(false).canon(false).foreground(Colour::Term(2));
    assert_eq!(chain.commit(&mut t), Ok(()));
    let (rres, _input, output) = t.restore();
    assert_eq!(rres, Ok(()));
    // Restoration happened last, so the mirror's flag changes are visible
    // through the bytes and the pre-restore record; check the bytes here.
    assert_eq!(output.taken().as_slice(), b"\x1b[32m");
}

#[test]
fn chain_flag_changes_reach_the_device() {
    // Two snapshot applications cover the two toggles; the restore then
    // fails, leaving the committed flags observable on the device.
    let out = MemOut::with_set_budget(cooked_termios(), 2);
    let mut t = session(out);
    let chain = TermTransform::new().echo(false).canon(false).foreground(Colour::Term(2));
    assert_eq!(chain.commit(&mut t), Ok(()));
    let (rres, _input, output) = t.restore();
    assert_eq!(rres, Err(TermError::Os(1)));
    let held = output.held();
    assert_eq!(held.c_lflag & (ECHO | ICANON), 0);
    assert_eq!(output.taken().as_slice(), b"\x1b[32m");
}

#[test]
fn chain_last_setting_wins() {
    let out = MemOut::with_set_budget(cooked_termios(), 2);
    let mut t = session(out);
    let chain = TermTransform::new().echo(false).echo(true);
    assert_eq!(chain.commit(&mut t), Ok(()));
    let (rres, _input, output) = t.restore();
    assert_eq!(rres, Err(TermError::Os(1)));
    assert_ne!(output.held().c_lflag & ECHO, 0, "the later echo(true) applied last");
}

#[test]
fn chain_emits_bytes_in_chain_order() {
    let mut t = session(MemOut::new(cooked_termios()));
    let chain = TermTransform::new()
        .foreground(Colour::Term(1))
        .background(Colour::Term(2))
        .fullscreen(true);
    assert_eq!(chain.commit(&mut t), Ok(()));
    let (_, _, output) = t.restore();
    assert_eq!(output.taken().as_slice(), b"\x1b[31m\x1b[42m\x1b[?1049h");
}

#[test]
fn partial_commit_keeps_earlier_settings() {
    // The device accepts one snapshot application, then refuses: the
    // chain's second step fails, the first stays in effect.
    let out = MemOut::with_set_budget(cooked_termios(), 1);
    let mut t = session(out);
    let chain = TermTransform::new().echo(false).canon(false);
    let res = chain.commit(&mut t);
    assert_eq!(res, Err(TermError::Os(1)));
    let (_, _, output) = t.restore();
    let held = output.held();
    assert_eq!(held.c_lflag & ECHO, 0, "echo-off was applied before the failure");
    assert_ne!(held.c_lflag & ICANON, 0, "canonical-off never reached the device");
}

#[test]
fn round_trip_restoration_after_a_chain() {
    let initial = cooked_termios();
    let chain = TermTransform::new().echo(false).canon(false).foreground(Colour::Term(5));
    let (status, handles) = apply_restored(MemIn::new(Vec::new()), MemOut::new(initial), chain);
    assert_eq!(status, Ok(()));
    let (_input, output) = handles.expect("the session opened");
    assert_eq!(output.held(), initial, "restoration is bit-for-bit");
}

#[test]
fn round_trip_restoration_after_a_builder_commit() {
    let initial = cooked_termios();
    let mut t = session(MemOut::new(initial));
    let tr = t.change().expect("no transform outstanding");
    assert_eq!(tr.echo(false).commit(&mut t), Ok(()));
    let (rres, _input, output) = t.restore();
    assert_eq!(rres, Ok(()));
    assert_eq!(output.held(), initial);
}

#[test]
fn session_colour_calls_write_their_sequences() {
    let mut t = session(MemOut::new(cooked_termios()));
    assert_eq!(t.foreground(Colour::Term(3)), Ok(()));
    assert_eq!(t.background(Colour::Byte(200)), Ok(()));
    assert_eq!(t.style_clear(), Ok(()));
    assert_eq!(t.fullscreen(false), Ok(()));
    let (_, _, output) = t.restore();
    assert_eq!(output.taken().as_slice(), b"\x1b[33m\x1b[48;5;200m\x1b[0m\x1b[?1049l");
}

#[test]
fn session_write_and_read_pass_through() {
    let input = MemIn::new(b"ok".to_vec());
    let output = MemOut::new(cooked_termios());
    let mut t = Terminal::new(input, output).expect("record captured");
    assert_eq!(t.write(b"raw"), Ok(3));
    assert_eq!(t.flush(), Ok(()));
    assert_eq!(t.read_byte(), Ok(b'o'));
    assert_eq!(t.read_byte(), Ok(b'k'));
    assert_eq!(t.read_byte(), Err(TermError::Os(0)));
    let (_, _, output) = t.restore();
    assert_eq!(output.taken().as_slice(), b"raw");
}

#[test]
fn colour_writes_do_not_touch_the_line_discipline() {
    let mut t = session(MemOut::new(cooked_termios()));
    assert_eq!(t.foreground(Colour::RGB(1, 2, 3)), Ok(()));
    let (rres, _, output) = t.restore();
    assert_eq!(rres, Ok(()));
    assert_eq!(output.held(), cooked_termios());
}

#[test]
fn failed_construction_surfaces_the_device_error() {
    let out = MemOut::with_set_budget(cooked_termios(), 0);
    // Construction reads the record, which the budget does not limit, so
    // it succeeds; committing anything fails with the device's error.
    let mut t = session(out);
    let tr = t.change().expect("transform begins");
    assert_eq!(tr.echo(false).commit(&mut t), Err(TermError::Os(1)));
}

#[test]
fn overlong_encoding_assembles_by_the_stated_rule() {
    // C0 80 assembles to 0, which is a scalar: the decoder follows the
    // bit-assembly rule and does not reject overlong forms.
    let input = MemIn::new(vec![0xC0, 0x80]);
    let mut t = Terminal::new(input, MemOut::new(cooked_termios())).expect("record captured");
    assert_eq!(t.pull_utf8(), Ok(Some('\0')));
}

#[test]
fn snapshot_application_refused_changes_nothing() {
    let mut dev = MemOut::with_set_budget(cooked_termios(), 0);
    let snap = other_termios();
    let (first, second) = reapply_snapshot(&mut dev, &snap);
    assert_eq!(first, Err(TermError::Os(1)));
    assert_eq!(second, Err(TermError::Os(1)));
    assert_eq!(dev.held(), cooked_termios());
}

#[test]
fn failed_restoration_is_reported_and_leaves_committed_state() {
    // The budget covers the two toggles but not the final restoration:
    // the status reports the failure and the committed flags stay.
    let chain = TermTransform::new().echo(false).canon(false);
    let (status, handles) =
        apply_restored(MemIn::new(Vec::new()), MemOut::with_set_budget(cooked_termios(), 2), chain);
    assert_eq!(status, Err(TermError::Os(1)));
    let (_input, output) = handles.expect("the session opened");
    assert_eq!(output.held().c_lflag & (ECHO | ICANON), 0);
}
