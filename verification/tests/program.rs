use rawmode::attrs::{ModeBits, TermAttrs};
use rawmode::input_loop::{run, step, InputEvent, LoopState, LoopVariant};
use rawmode::session::TerminalSession;

fn bits() -> ModeBits {
    ModeBits {
        echo: 0o10,
        icanon: 0o2,
        isig: 0o1,
        iexten: 0o100000,
        ixon: 0o2000,
        icrnl: 0o400,
        brkint: 0o2,
        inpck: 0o20,
        istrip: 0o40,
        opost: 0o1,
        cs8: 0o60,
    }
}

fn device_at_start() -> TermAttrs {
    TermAttrs {
        input_flags: 0o42400,
        output_flags: 0o5,
        control_flags: 0o277,
        local_flags: 0o105073,
        control_chars: [7u8; 32],
    }
}

/// Enters raw mode, runs the loop over `input`, and leaves raw mode where the
/// run says so. Returns the attributes the device has at the end.
fn play(variant: LoopVariant, input: &[u8]) -> (TermAttrs, TerminalSession) {
    let mut session = TerminalSession::with_bits(bits());
    let mut device = device_at_start();
    device = session.enable(device);
    let report = run(variant, input);
    if report.restore {
        if let Some(saved) = session.disable() {
            device = saved;
            session.restored(true);
        }
    }
    (device, session)
}

#[test]
fn quit_key_puts_the_device_back_in_both_variants() {
    for variant in [LoopVariant::Diagnostic, LoopVariant::Minimal] {
        let (device, session) = play(variant, b"helloq");
        assert_eq!(device, device_at_start());
        assert!(!session.is_raw());
    }
}

#[test]
fn end_of_input_puts_the_device_back_in_the_minimal_variant() {
    let (device, session) = play(LoopVariant::Minimal, b"hello");
    assert_eq!(device, device_at_start());
    assert!(!session.is_raw());
}

#[test]
fn end_of_input_leaves_the_device_raw_in_the_diagnostic_variant() {
    let (device, session) = play(LoopVariant::Diagnostic, b"hello");
    assert_eq!(device, device_at_start().make_raw(&bits()));
    assert_ne!(device, device_at_start());
    assert!(session.is_raw());
    assert_eq!(session.disable(), Some(device_at_start()));
}

#[test]
fn stepping_by_hand_restores_once() {
    let mut session = TerminalSession::with_bits(bits());
    let mut device = session.enable(device_at_start());
    let mut restores = 0;
    let mut state = LoopState::Running;
    for event in [
        InputEvent::Byte(b'a'),
        InputEvent::Byte(b'q'),
        InputEvent::Byte(b'q'),
        InputEvent::EndOfInput,
    ] {
        let taken = step(LoopVariant::Minimal, state, event);
        if taken.restore {
            restores += 1;
            if let Some(saved) = session.disable() {
                device = saved;
                session.restored(true);
            }
        }
        state = taken.state;
    }
    assert_eq!(restores, 1);
    assert_eq!(state, LoopState::Stopped);
    assert_eq!(device, device_at_start());
}
