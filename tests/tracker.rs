use netguard::tracker::WindowTracker;

#[test]
fn tracker_prunes_and_counts_per_key() {
    let mut t: WindowTracker<u16> = WindowTracker::new(2);
    let a = "10.1.1.1".to_string();
    let b = "10.1.1.2".to_string();
    t.record(&a, 443, 0);
    t.record(&a, 22, 1_000_000);
    t.record(&a, 443, 1_500_000);
    t.record(&b, 80, 1_500_000);
    assert_eq!(t.count(&a), 3);
    assert_eq!(t.count(&b), 1);
    assert_eq!(t.distinct_ports(&a), vec![22, 443]);
    t.record(&a, 8080, 3_000_000);
    assert_eq!(t.count(&a), 3);
    assert_eq!(t.distinct_ports(&a), vec![22, 443, 8080]);
    t.record(&a, 8080, 3_000_001);
    assert_eq!(t.count(&a), 3);
    assert_eq!(t.distinct_ports(&a), vec![443, 8080]);
    t.record(&a, 1, 5_000_001);
    assert_eq!(t.distinct_ports(&a), vec![1, 8080]);
    t.record(&a, 2, 5_000_002);
    assert_eq!(t.distinct_ports(&a), vec![1, 2]);
    assert_eq!(t.count(&"10.9.9.9".to_string()), 0);
    assert!(t.distinct_ports(&"10.9.9.9".to_string()).is_empty());
}
