//! The input loop as a state machine: one step per byte read, and the whole
//! run over a given input.

use vstd::prelude::*;
use vstd::string::StringExecFns;
use crate::diagnostic::{decode, decoded, format_line, line_text};
use crate::session::{Terminal, lemma_disable_restores_first_capture};

verus! {

/// What the loop prints for a key.
#[derive(Clone, Copy, Debug, PartialEq, Eq)]
pub enum LoopVariant {
    /// One line per key with its binary and decimal value and, unless it is a
    /// control character, the character. Lines end in carriage return and
    /// newline.
    Diagnostic,
    /// The character alone, followed by a newline.
    Minimal,
}

/// Where the loop stands.
#[derive(Clone, Copy, Debug, PartialEq, Eq)]
pub enum LoopState {
    Running,
    /// The loop has ended. Nothing leads out of this state.
    Stopped,
}

/// What a read from the input gave.
#[derive(Clone, Copy, Debug, PartialEq, Eq)]
pub enum InputEvent {
    Byte(u8),
    EndOfInput,
}

/// What the loop does in answer to one event.
#[derive(Debug, PartialEq, Eq)]
pub struct Step {
    /// The state after the event.
    pub state: LoopState,
    /// The text to write.
    pub output: String,
    /// Whether raw mode is to be left now.
    pub restore: bool,
}

/// What a run over a whole input did.
#[derive(Debug, PartialEq, Eq)]
pub struct RunReport {
    /// How many bytes of the input were read.
    pub consumed: usize,
    /// Everything that was written.
    pub output: String,
    /// Whether the quit key ended the run, rather than the end of the input.
    pub quit: bool,
    /// Whether raw mode was left at the end.
    pub restore: bool,
}

/// Whether `b` is the key that ends the loop: the byte that decodes to `q`.
pub open spec fn is_quit(b: u8) -> bool {
    decoded(b) == 'q'
}

/// What is written for the byte `b`.
pub open spec fn rendered(variant: LoopVariant, b: u8) -> Seq<char> {
    match variant {
        LoopVariant::Diagnostic => line_text(b) + "\r\n"@,
        LoopVariant::Minimal => seq![decoded(b), '\n'],
    }
}

/// The state after `event`. The quit key and the end of the input stop a
/// running loop; a stopped loop stays stopped.
pub open spec fn next_state(state: LoopState, event: InputEvent) -> LoopState {
    match (state, event) {
        (LoopState::Running, InputEvent::Byte(b)) => if is_quit(b) {
            LoopState::Stopped
        } else {
            LoopState::Running
        },
        _ => LoopState::Stopped,
    }
}

/// What is written in answer to `event`: a running loop renders each byte,
/// the quit key included, and nothing else is ever written.
pub open spec fn emitted(variant: LoopVariant, state: LoopState, event: InputEvent) -> Seq<char> {
    match (state, event) {
        (LoopState::Running, InputEvent::Byte(b)) => rendered(variant, b),
        _ => Seq::empty(),
    }
}

/// Whether raw mode is left in answer to `event`: always on the quit key, and
/// at the end of the input in the minimal variant only.
pub open spec fn restores(variant: LoopVariant, state: LoopState, event: InputEvent) -> bool {
    match (state, event) {
        (LoopState::Running, InputEvent::Byte(b)) => is_quit(b),
        (LoopState::Running, InputEvent::EndOfInput) => variant is Minimal,
        (LoopState::Stopped, _) => false,
    }
}

/// What is written for the bytes of `bytes`, one after the other.
pub open spec fn transcript(variant: LoopVariant, bytes: Seq<u8>) -> Seq<char>
    decreases bytes.len(),
{
    if bytes.len() == 0 {
        Seq::empty()
    } else {
        transcript(variant, bytes.drop_last()) + rendered(variant, bytes.last())
    }
}

/// Whether the quit key is among `bytes`.
pub open spec fn has_quit(bytes: Seq<u8>) -> bool {
    exists|i: int| 0 <= i < bytes.len() && is_quit(#[trigger] bytes[i])
}

/// Whether raw mode is left at the end of a run over `input`: on the quit
/// key in either variant, and at the end of the input in the minimal variant.
pub open spec fn run_restores(variant: LoopVariant, input: Seq<u8>) -> bool {
    has_quit(input) || variant is Minimal
}

/// The terminal after raw mode was entered from `start`, the loop ran over
/// `input`, and raw mode was left if the run said so, with an apply that
/// worked.
pub open spec fn terminal_after_run(start: Terminal, variant: LoopVariant, input: Seq<u8>)
    -> Terminal {
    if run_restores(variant, input) {
        start.enabled().disabled(true)
    } else {
        start.enabled()
    }
}

/// Writes what the loop prints for the byte `b`.
pub fn render(variant: LoopVariant, b: u8) -> (text: String)
    ensures
        text@ == rendered(variant, b),
{
    match variant {
        LoopVariant::Diagnostic => {
            let mut text = format_line(b);
            text.append("\r\n");
            text
        },
        LoopVariant::Minimal => {
            let mut text = String::new();
            text.push(decode(b));
            text.push('\n');
            text
        },
    }
}

/// One step of the loop: what to write, whether to leave raw mode, and the
/// state to go on in.
pub fn step(variant: LoopVariant, state: LoopState, event: InputEvent) -> (r: Step)
    ensures
        r.state == next_state(state, event),
        r.output@ == emitted(variant, state, event),
        r.restore == restores(variant, state, event),
{
    match state {
        LoopState::Stopped => Step {
            state: LoopState::Stopped,
            output: String::new(),
            restore: false,
        },
        LoopState::Running => match event {
            InputEvent::Byte(b) => {
                let quit = decode(b) == 'q';
                Step {
                    state: if quit {
                        LoopState::Stopped
                    } else {
                        LoopState::Running
                    },
                    output: render(variant, b),
                    restore: quit,
                }
            },
            InputEvent::EndOfInput => Step {
                state: LoopState::Stopped,
                output: String::new(),
                restore: match variant {
                    LoopVariant::Minimal => true,
                    LoopVariant::Diagnostic => false,
                },
            },
        },
    }
}

/// Runs the loop over `input`, followed by the end of the input.
///
/// The run reads up to and including the first quit key, or everything where
/// there is none, and writes what is rendered for each byte read. Raw mode is
/// left on the quit key; at the end of the input it is left in the minimal
/// variant and kept in the diagnostic variant.
pub fn run(variant: LoopVariant, input: &[u8]) -> (report: RunReport)
    ensures
        report.consumed <= input@.len(),
        report.quit == has_quit(input@),
        report.quit ==> report.consumed >= 1 && is_quit(input@[report.consumed - 1]),
        !report.quit ==> report.consumed == input@.len(),
        forall|i: int| 0 <= i < report.consumed - 1 ==> !is_quit(#[trigger] input@[i]),
        report.output@ == transcript(variant, input@.take(report.consumed as int)),
        report.restore == run_restores(variant, input@),
        !has_quit(input@) ==> report.consumed == input@.len() && report.restore == (variant
            is Minimal),
{
    let mut output = String::new();
    let mut i: usize = 0;
    assert(input@.take(0) =~= Seq::<u8>::empty());
    while i < input.len()
        invariant
            i <= input@.len(),
            forall|j: int| 0 <= j < i ==> !is_quit(#[trigger] input@[j]),
            output@ == transcript(variant, input@.take(i as int)),
        decreases input@.len() - i,
    {
        let s = step(variant, LoopState::Running, InputEvent::Byte(input[i]));
        output.append(s.output.as_str());
        proof {
            let read = input@.take(i + 1);
            assert(read.drop_last() =~= input@.take(i as int));
            assert(read.last() == input@[i as int]);
        }
        i += 1;
        match s.state {
            LoopState::Stopped => {
                return RunReport { consumed: i, output, quit: true, restore: s.restore };
            },
            LoopState::Running => {},
        }
    }
    let s = step(variant, LoopState::Running, InputEvent::EndOfInput);
    RunReport { consumed: i, output, quit: false, restore: s.restore }
}

/// How a run leaves the terminal. Where the quit key is pressed, and in the
/// minimal variant also where the input ends without it, the terminal is
/// again as it was before raw mode was entered. Where the input ends without
/// the quit key in the diagnostic variant, the terminal stays in raw mode.
pub proof fn lemma_terminal_after_run(start: Terminal, variant: LoopVariant, input: Seq<u8>)
    requires
        !start.session.is_raw(),
    ensures
        has_quit(input) || variant is Minimal ==> terminal_after_run(start, variant, input)
            == start,
        !has_quit(input) && variant is Diagnostic ==> {
            let end = terminal_after_run(start, variant, input);
            &&& end.session.saved == Some(start.device)
            &&& end.device == start.device.raw(start.session.bits)
        },
{
    assert(start.enabled_times(1) == start.enabled()) by {
        assert(start.enabled_times(0) == start);
    }
    lemma_disable_restores_first_capture(start, 1);
}

} // verus!
