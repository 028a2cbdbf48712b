use presence_detector::presence::{presence_from_edge, EdgeTrigger, PresenceTracker};

#[test]
fn tracker_reports_changes_only() {
    let mut t = PresenceTracker::new();
    assert!(!t.last_state);
    assert!(!t.observe(false));
    assert!(t.observe(true));
    assert!(t.last_state);
    assert!(!t.observe(true));
    assert!(t.observe(false));
    assert!(!t.observe(false));
    assert!(!t.last_state);
}

#[test]
fn edges_to_presence() {
    assert_eq!(presence_from_edge(EdgeTrigger::RisingEdge), Some(true));
    assert_eq!(presence_from_edge(EdgeTrigger::FallingEdge), Some(false));
    assert_eq!(presence_from_edge(EdgeTrigger::Both), None);
    assert_eq!(presence_from_edge(EdgeTrigger::Disabled), None);
}
