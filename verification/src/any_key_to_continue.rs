//! The any-key gate: prompt, then block until the user presses any key.
//!
//! Any key event ends the wait, printable or not, well-formed or not. A
//! failed read ends it too: read errors are discarded on purpose, so the
//! call returns instead of hanging or aborting — a deliberately laxer
//! policy than the enter gate's.

use vstd::prelude::*;

verus! {

/// What one blocking read of the terminal's event stream delivered.
#[derive(Clone, Copy, PartialEq, Eq, Structural, Debug)]
pub enum RawRead {
    /// A key event, whatever key it carried.
    Key,
    /// Some other terminal event: focus, mouse, resize, a paste.
    Other,
    /// The read itself failed.
    Failed,
}

/// The any-key gate's read policy: a key event of any kind ends the wait,
/// and so does a failed read. Only non-key terminal events leave the wait
/// going.
pub open spec fn satisfies_gate(read: RawRead) -> bool {
    read is Key || read is Failed
}

/// Decides whether a terminal read ends the any-key wait: true exactly when
/// it delivered a key event or failed.
pub fn read_satisfies_gate(read: RawRead) -> (done: bool)
    ensures
        done == satisfies_gate(read),
{
    match read {
        RawRead::Key => true,
        RawRead::Other => false,
        RawRead::Failed => true,
    }
}

/// The any-key gate's read policy, stated whole: every key event ends the
/// wait, every read failure ends it too — an error is treated as the wait
/// being satisfied, never as fatal — and nothing else does.
pub proof fn lemma_key_or_failure_ends_wait(read: RawRead)
    ensures
        read is Key ==> satisfies_gate(read),
        read is Failed ==> satisfies_gate(read),
        satisfies_gate(read) <==> !(read is Other),
{
}

/// Relies on `crossterm::event::read`: blocks until the terminal reports a
/// key event — `Key`, whatever key it carried — or a read fails — `Failed`.
/// Non-key events (focus, mouse, resize, a paste) are discarded and the
/// blocking read repeated, so the result always ends the wait. The
/// terminal is expected to be in whatever input mode the caller's
/// surroundings arranged; this gate does not switch modes itself.
#[verifier::external_body]
fn wait_for_key_event() -> (read: RawRead)
    ensures
        satisfies_gate(read),
{
    loop {
        match crossterm::event::read() {
            Ok(crossterm::event::Event::Key(_)) => return RawRead::Key,
            Ok(_) => {},
            Err(_) => return RawRead::Failed,
        }
    }
}

/// The fixed message of the default variant of the any-key gate.
pub fn default_message() -> (msg: &'static str)
    ensures
        msg@ == "Press any key to continue"@,
{
    "Press any key to continue"
}

/// Writes `msg` to standard output exactly as given — no newline appended —
/// flushes best-effort, then blocks until the terminal reports a key event.
/// Any key ends the wait; so does a failed read, whose error is discarded
/// on purpose so that the call returns instead of hanging or aborting.
/// Other terminal events keep the wait going.
pub fn custom_msg(msg: &str) {
    crate::write_prompt(msg);
    crate::try_flush();
    let read = wait_for_key_event();
    assert(satisfies_gate(read));
}

/// The default variant of the any-key gate: behaves exactly as `custom_msg`
/// handed the fixed message "Press any key to continue".
pub fn default() {
    custom_msg(default_message());
}

} // verus!
