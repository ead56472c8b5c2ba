use syncplay_core::ping::PingService;

#[test]
fn new_service_knows_nothing() {
    let p = PingService::new();
    assert_eq!(p.get_rtt(), 0);
    assert_eq!(p.get_last_forward_delay(), 0);
}

#[test]
fn first_sample_sets_the_average() {
    let mut p = PingService::new();
    p.receive_message(1_000, 0, 1_100);
    assert_eq!(p.get_rtt(), 100);
    assert_eq!(p.get_last_forward_delay(), 150);
}

#[test]
fn later_samples_are_smoothed() {
    let mut p = PingService::new();
    p.receive_message(1_000, 100, 1_100);
    assert_eq!(p.get_rtt(), 100);
    assert_eq!(p.get_last_forward_delay(), 50);
    p.receive_message(2_000, 300, 2_200);
    assert_eq!(p.get_rtt(), 200);
    assert_eq!(p.get_last_forward_delay(), 57);
    p.receive_message(3_000, 50, 3_100);
    assert_eq!(p.get_rtt(), 100);
    assert_eq!(p.get_last_forward_delay(), 56 + 50);
}

#[test]
fn samples_that_do_not_count_change_nothing() {
    let mut p = PingService::new();
    p.receive_message(1_000, 100, 1_100);
    let before = (p.get_rtt(), p.get_last_forward_delay());
    p.receive_message(0, 100, 1_100);
    assert_eq!((p.get_rtt(), p.get_last_forward_delay()), before);
    p.receive_message(-5, 100, 1_100);
    assert_eq!((p.get_rtt(), p.get_last_forward_delay()), before);
    p.receive_message(2_000, 100, 1_100);
    assert_eq!((p.get_rtt(), p.get_last_forward_delay()), before);
    p.receive_message(1_000, -1, 1_100);
    assert_eq!((p.get_rtt(), p.get_last_forward_delay()), before);
}

#[test]
fn round_trip_is_never_negative() {
    let mut p = PingService::new();
    let samples: [(i64, i64, i64); 6] = [
        (1_000, 0, 1_100),
        (5_000, 10, 4_000),
        (i64::MAX, 0, 1),
        (1, 0, i64::MAX),
        (1, i64::MAX, 100),
        (7, 3, 7),
    ];
    for (t, s, now) in samples {
        p.receive_message(t, s, now);
        assert!(p.get_rtt() >= 0);
        assert!(p.get_last_forward_delay() >= 0);
    }
}

#[test]
fn forward_delay_of_a_steady_connection_is_within_the_round_trip() {
    let mut p = PingService::new();
    for i in 0..50i64 {
        let t = 1_000 + i * 1_000;
        p.receive_message(t, 80, t + 80);
        let rtt = p.get_rtt();
        let fd = p.get_last_forward_delay();
        assert_eq!(rtt, 80);
        assert!((fd - rtt / 2).abs() <= rtt / 2, "fd {} rtt {}", fd, rtt);
    }
}

#[test]
fn forward_delay_can_exceed_a_small_round_trip_after_a_large_one() {
    let mut p = PingService::new();
    p.receive_message(1_000, 1_000, 2_000);
    p.receive_message(3_000, 10, 3_010);
    assert_eq!(p.get_rtt(), 10);
    assert_eq!(p.get_last_forward_delay(), 425);
}
