//! The enter gate: prompt, then block until the user presses Enter.
//!
//! The wait ends only on a line read that actually delivered data. End of
//! input and read failures are fatal by design: the process aborts
//! rather than returning or hanging, so the window never closes silently.

use vstd::prelude::*;

verus! {

/// The enter gate's read policy. `read` is what one blocking line read
/// reported: `Some(n)` for a read of `n` bytes, `None` for a failed read.
/// Only a read that delivered at least one byte — a full line, its
/// terminating newline included — ends the wait. `Some(0)` means the
/// input stream was already closed, and does not.
pub open spec fn satisfies_gate(read: Option<usize>) -> bool {
    read matches Some(n) && n > 0
}

/// Decides whether a line read ends the enter wait: true exactly when the
/// read succeeded and consumed at least one byte.
pub fn read_satisfies_gate(read: Option<usize>) -> (done: bool)
    ensures
        done == satisfies_gate(read),
{
    match read {
        Some(n) => n > 0,
        None => false,
    }
}

/// The enter gate's read policy, stated whole: a read ends the wait when and
/// only when it delivered data. A closed input stream (`Some(0)`) and a
/// failed read (`None`) never count as the wait being over — unlike the
/// any-key gate, the enter gate treats a lost input stream as fatal.
pub proof fn lemma_only_data_ends_wait(read: Option<usize>)
    ensures
        satisfies_gate(read) <==> (read matches Some(n) && n > 0),
        !satisfies_gate(Some(0usize)),
        !satisfies_gate(None::<usize>),
{
}

/// Relies on `std::io::Stdin::read_line` into a fresh, private buffer:
/// blocks until one full line — its terminating newline included — has
/// arrived, consumes exactly that line from the stream and discards its
/// content. Returns the byte count the read reported (`Some(0)` only when
/// the stream had already reached its end) and `None` when the read failed.
#[verifier::external_body]
fn read_line_discarded() -> (read: Option<usize>) {
    let mut line = String::new();
    std::io::stdin().read_line(&mut line).ok()
}

/// Relies on `Option::expect`, which here always panics: a closed or
/// unreadable standard input is fatal to the enter gate by design, so the
/// process ends with the runtime's usual unhandled-panic abort instead of
/// returning or hanging.
#[verifier::external_body]
fn abort_lost_input() {
    let line: Option<usize> = None;
    line.expect("the enter gate could not read a line from standard input");
}

/// The fixed message of the default variant of the enter gate.
pub fn default_message() -> (msg: &'static str)
    ensures
        msg@ == "Press enter to exit."@,
{
    "Press enter to exit."
}

/// Writes `msg` to standard output exactly as given — no newline appended —
/// flushes best-effort, then blocks until one line of standard input has
/// been consumed and discarded. A closed or unreadable input stream is
/// fatal: the process aborts rather than return or hang.
pub fn custom_msg(msg: &str) {
    crate::write_prompt(msg);
    crate::try_flush();
    let read = read_line_discarded();
    if !read_satisfies_gate(read) {
        abort_lost_input();
    }
}

/// The default variant of the enter gate: behaves exactly as `custom_msg`
/// handed the fixed message "Press enter to exit.".
pub fn default() {
    custom_msg(default_message());
}

} // verus!
