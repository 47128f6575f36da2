use chicken_sim::chicken_corral::WallType;
use chicken_sim::ui::{cleanup_popups, popup, Popup};

#[test]
fn at_most_one_popup_is_alive() {
    let mut active: Option<Popup> = None;
    popup(&mut active, true);
    assert!(active.is_some());
    let first = active.unwrap();
    // A second request while one is alive changes nothing.
    popup(&mut active, true);
    assert_eq!(active.unwrap(), first);
}

#[test]
fn popup_needs_a_request() {
    let mut active: Option<Popup> = None;
    popup(&mut active, false);
    assert!(active.is_none());
}

#[test]
fn popup_expires_after_its_duration() {
    let mut active: Option<Popup> = None;
    popup(&mut active, true);
    cleanup_popups(&mut active, 400);
    assert!(active.is_some());
    assert_eq!(active.unwrap().timer.elapsed_ms, 400);
    cleanup_popups(&mut active, 600);
    assert!(active.is_none());
    // Ageing with no popup alive is a no-op.
    cleanup_popups(&mut active, 600);
    assert!(active.is_none());
}

#[test]
fn wall_type_labels() {
    assert_eq!(WallType::Corner.label(), "C");
    assert_eq!(WallType::Edge.label(), "E");
}
