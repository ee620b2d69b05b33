//! The gates' read policies and fixed messages, checked on concrete values.
//! The gates themselves block on live console input, so what each gate does
//! with a read outcome is exercised through its public decision function.

use dont_disappear::any_key_to_continue;
use dont_disappear::any_key_to_continue::RawRead;
use dont_disappear::enter_to_continue;

#[test]
fn enter_gate_line_with_data_completes() {
    // One byte is exactly a bare newline: the shortest satisfying line.
    assert!(enter_to_continue::read_satisfies_gate(Some(1)));
    // "hello\n" is six bytes: a line with content satisfies too.
    assert!(enter_to_continue::read_satisfies_gate(Some(6)));
}

#[test]
fn enter_gate_closed_input_does_not_complete() {
    // A read of zero bytes means the stream was already closed.
    assert!(!enter_to_continue::read_satisfies_gate(Some(0)));
}

#[test]
fn enter_gate_failed_read_does_not_complete() {
    assert!(!enter_to_continue::read_satisfies_gate(None));
}

#[test]
fn any_key_gate_key_event_completes() {
    assert!(any_key_to_continue::read_satisfies_gate(RawRead::Key));
}

#[test]
fn any_key_gate_failed_read_completes() {
    // A read error is discarded: the wait counts as satisfied.
    assert!(any_key_to_continue::read_satisfies_gate(RawRead::Failed));
}

#[test]
fn any_key_gate_other_event_keeps_waiting() {
    assert!(!any_key_to_continue::read_satisfies_gate(RawRead::Other));
}

#[test]
fn gate_policies_differ_on_failure() {
    // The asymmetry is deliberate: a failed read satisfies the any-key gate
    // but never the enter gate.
    assert!(any_key_to_continue::read_satisfies_gate(RawRead::Failed));
    assert!(!enter_to_continue::read_satisfies_gate(None));
}

#[test]
fn enter_gate_default_message_is_fixed() {
    assert_eq!(enter_to_continue::default_message(), "Press enter to exit.");
}

#[test]
fn any_key_gate_default_message_is_fixed() {
    assert_eq!(
        any_key_to_continue::default_message(),
        "Press any key to continue"
    );
}
