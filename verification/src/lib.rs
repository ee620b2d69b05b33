//! Console gates: keep a console window open after a program finishes, by
//! blocking until the user presses Enter or presses any key.
//!
//! Each gate writes a prompt to standard output, flushes it best-effort, and
//! then blocks on one input read. What a read outcome means to each gate is
//! verified logic; the reads and writes themselves are thin trusted wrappers
//! over standard output, standard input and the terminal's event stream.

use std::io::Write;
use vstd::prelude::*;

pub mod any_key_to_continue;
pub mod enter_to_continue;

verus! {

/// Relies on the `write!` macro over `std::io::Stdout`: writes exactly the
/// given string to standard output, appending nothing — in particular no
/// trailing newline. Panics if the write itself fails, as printing does.
#[verifier::external_body]
pub(crate) fn write_prompt(msg: &str) {
    write!(std::io::stdout(), "{}", msg).unwrap();
}

/// Relies on `std::io::Write::flush` on standard output: pushes buffered
/// output out to the console. A flush failure is swallowed on purpose: the
/// flush is best-effort, and the blocking read that follows keeps the
/// process alive whatever the buffering state.
#[verifier::external_body]
pub(crate) fn try_flush() {
    let _ = std::io::stdout().flush();
}

} // verus!
