use okcvm_desktop::utils::port::find_available_port;

/// A machine on which the ports below 49155 are taken.
fn can_bind(port: u16) -> bool {
    port >= 49155
}

#[test]
fn test_find_available_port() {
    let port = find_available_port(49152, 49160, can_bind);
    assert!(port.is_some());
}

#[test]
fn found_port_lies_in_range_and_binds() {
    let port = find_available_port(49152, 49160, can_bind).unwrap();
    assert_eq!(port, 49155);
    assert!((49152..=49160).contains(&port));
    assert!(can_bind(port));
}

#[test]
fn occupied_port_is_passed_over() {
    let first = find_available_port(49170, 49180, can_bind).unwrap();
    assert_eq!(first, 49170);
    let second = find_available_port(first, 49180, |port| port != first && can_bind(port));
    assert_eq!(second, Some(49171));
}

#[test]
fn single_occupied_port_gives_none() {
    assert_eq!(find_available_port(49152, 49152, can_bind), None);
    assert_eq!(find_available_port(49152, 49154, can_bind), None);
}

#[test]
fn first_free_port_wins() {
    assert_eq!(find_available_port(8000, 9000, |port| port >= 8003), Some(8003));
    assert_eq!(find_available_port(8000, 9000, |port| port % 2 == 1), Some(8001));
    assert_eq!(find_available_port(8000, 9000, |_| true), Some(8000));
}

#[test]
fn exhausted_range_gives_none() {
    assert_eq!(find_available_port(8000, 9000, |_| false), None);
    assert_eq!(find_available_port(49200, 49200, |_| false), None);
}

#[test]
fn empty_range_gives_none() {
    assert_eq!(find_available_port(9000, 8000, |_| true), None);
}

#[test]
fn last_port_of_the_range_is_tried() {
    assert_eq!(find_available_port(65530, 65535, |port| port == 65535), Some(65535));
    assert_eq!(find_available_port(0, 65535, |_| false), None);
    assert_eq!(find_available_port(8000, 8000, |port| port == 8000), Some(8000));
}

#[test]
fn probing_stops_at_the_first_free_port() {
    let asked = std::cell::RefCell::new(Vec::new());
    let found = find_available_port(100, 200, |port| {
        asked.borrow_mut().push(port);
        port == 102
    });
    assert_eq!(found, Some(102));
    assert_eq!(asked.into_inner(), vec![100, 101, 102]);
}
