use foreground_listener::filter::{EventFilter, SYSTEM_FOREGROUND};

#[test]
fn foreground_event_code_is_three() {
    assert_eq!(SYSTEM_FOREGROUND, 3);
    assert_eq!(EventFilter::foreground(0).event(), 3);
    assert_eq!(EventFilter::foreground(4321).event(), 3);
}

#[test]
fn process_zero_means_any_process() {
    let filter = EventFilter::foreground(0);
    assert_eq!(filter.process(), None);
    assert!(filter.admits(SYSTEM_FOREGROUND, 1));
    assert!(filter.admits(SYSTEM_FOREGROUND, 4321));
    assert!(filter.admits(SYSTEM_FOREGROUND, u32::MAX));
}

#[test]
fn process_scope_forwards_only_that_process() {
    let filter = EventFilter::foreground(4321);
    assert_eq!(filter.process(), Some(4321));
    assert!(filter.admits(SYSTEM_FOREGROUND, 4321));
    assert!(!filter.admits(SYSTEM_FOREGROUND, 4322));
    assert!(!filter.admits(SYSTEM_FOREGROUND, 0));
    assert!(!filter.admits(SYSTEM_FOREGROUND, 1));
}

#[test]
fn other_event_codes_do_not_pass() {
    let any = EventFilter::foreground(0);
    let scoped = EventFilter::foreground(9);
    for code in [0, 1, 2, 4, 0x8000, -1, i32::MAX] {
        assert!(!any.admits(code, 9));
        assert!(!scoped.admits(code, 9));
    }
}

#[test]
fn filters_for_the_same_process_are_equal() {
    assert_eq!(EventFilter::foreground(5), EventFilter::foreground(5));
    assert_ne!(EventFilter::foreground(5), EventFilter::foreground(6));
    assert_ne!(EventFilter::foreground(5), EventFilter::foreground(0));
}
