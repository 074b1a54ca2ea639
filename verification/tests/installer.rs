// The installer itself is not invoked here: making the test process a
// session leader and replacing its standard streams would detach it from
// the harness.  Its disposal rule, the one data-dependent decision, is
// exercised directly.

use openpty::descriptor_is_retained;

#[test]
fn standard_slots_are_retained() {
    assert!(descriptor_is_retained(0));
    assert!(descriptor_is_retained(1));
    assert!(descriptor_is_retained(2));
    assert!(!descriptor_is_retained(3));
    assert!(!descriptor_is_retained(17));
}
