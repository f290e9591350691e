use bolt_bridge::correlation::InFlight;

#[test]
fn out_of_order_replies_delivered_once_each() {
    let mut f = InFlight::new();
    assert!(f.begin(0));
    assert!(f.begin(1));
    assert!(f.complete(1));
    assert!(f.complete(0));
    assert!(!f.complete(1));
    assert!(!f.complete(0));
    assert!(!f.contains(0));
    assert!(!f.contains(1));
}

#[test]
fn duplicate_index_in_flight_is_refused() {
    let mut f = InFlight::new();
    assert!(f.begin(5));
    assert!(!f.begin(5));
    assert!(f.complete(5));
    assert!(!f.contains(5));
    assert!(f.begin(5));
    assert!(f.contains(5));
}

#[test]
fn completing_unknown_index_is_refused() {
    let mut f = InFlight::new();
    assert!(!f.complete(3));
    assert!(f.begin(2));
    assert!(!f.complete(3));
    assert!(f.contains(2));
}
