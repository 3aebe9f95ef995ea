use stock_crawler::fetch_gate::{default_max_concurrent_requests, FetchGate, PERMITS_PER_UNIT};

#[test]
fn gate_refuses_the_caller_past_the_cap() {
    let mut gate = FetchGate::new(2);
    let first = gate.try_acquire();
    let second = gate.try_acquire();
    assert!(first.is_some());
    assert!(second.is_some());
    assert!(gate.try_acquire().is_none());
    assert_eq!(gate.outstanding(), 2);
    gate.release(first.unwrap());
    assert_eq!(gate.outstanding(), 1);
    assert_eq!(gate.available(), 1);
    assert!(gate.try_acquire().is_some());
}

#[test]
fn permits_are_never_more_than_the_cap() {
    let mut gate = FetchGate::new(3);
    let mut held = Vec::new();
    for round in 0..50usize {
        if round % 4 == 3 {
            if let Some(permit) = held.pop() {
                gate.release(permit);
            }
        } else if let Some(permit) = gate.try_acquire() {
            held.push(permit);
        }
        assert!(gate.outstanding() <= gate.max_concurrent_requests());
        assert_eq!(gate.outstanding(), held.len());
        assert_eq!(gate.available(), 3 - held.len());
    }
}

#[test]
fn permit_knows_its_slot() {
    let mut gate = FetchGate::new(2);
    let first = gate.try_acquire().unwrap();
    let second = gate.try_acquire().unwrap();
    assert_eq!(first.slot(), 1);
    assert_eq!(second.slot(), 2);
}

#[test]
fn a_gate_with_no_permits_refuses_everyone() {
    let mut gate = FetchGate::new(0);
    assert!(gate.try_acquire().is_none());
    assert_eq!(gate.available(), 0);
}

#[test]
fn default_cap_is_four_per_unit() {
    assert_eq!(PERMITS_PER_UNIT, 4);
    assert_eq!(default_max_concurrent_requests(1), Some(4));
    assert_eq!(default_max_concurrent_requests(8), Some(32));
    assert_eq!(default_max_concurrent_requests(usize::MAX / 4), Some(usize::MAX / 4 * 4));
    assert_eq!(default_max_concurrent_requests(usize::MAX / 4 + 1), None);
    assert_eq!(default_max_concurrent_requests(usize::MAX), None);
}

#[test]
fn default_gate_offers_four_permits_per_unit() {
    let gate = FetchGate::with_default_limit().unwrap();
    assert!(gate.max_concurrent_requests() >= 4);
    assert_eq!(gate.max_concurrent_requests() % 4, 0);
    assert_eq!(gate.outstanding(), 0);
}

#[test]
fn the_gate_for_a_number_of_units() {
    let gate = FetchGate::for_units(2).unwrap();
    assert_eq!(gate.max_concurrent_requests(), 8);
    assert_eq!(gate.outstanding(), 0);
    assert_eq!(FetchGate::for_units(0).unwrap().max_concurrent_requests(), 0);
    assert!(FetchGate::for_units(usize::MAX / 4 + 1).is_none());
}
