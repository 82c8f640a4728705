use std::time::Duration;

use qingjian_windows::tsf::key_metrics::{bucket, KeyMetrics};

#[test]
fn summarizes_without_recording_key_contents() {
    let mut metrics = KeyMetrics::new();
    let _ = metrics.drain_summary();
    metrics.record(Duration::from_micros(500).as_micros());
    metrics.record(Duration::from_micros(1_500).as_micros());
    metrics.record(Duration::from_micros(40_000).as_micros());

    let summary = metrics.drain_summary().expect("三次收键应有汇总");
    assert!(summary.contains("keys=3"));
    assert!(summary.contains("avg_us=14000"));
    assert!(summary.contains("max_us=40000"));
    assert!(summary.contains("<1ms:1"));
    assert!(summary.contains("1-2ms:1"));
    assert!(summary.contains(">=32ms:1"));
    assert!(metrics.drain_summary().is_none());
}

#[test]
fn summary_line_is_complete() {
    let mut metrics = KeyMetrics::new();
    metrics.record(2_500);
    metrics.record(9_000);
    assert_eq!(
        metrics.drain_summary().as_deref(),
        Some(
            "收键同步耗时汇总 keys=2 avg_us=5750 max_us=9000 buckets=[<1ms:0,1-2ms:0,2-4ms:1,4-8ms:0,8-16ms:1,16-32ms:0,>=32ms:0]"
        )
    );
}

#[test]
fn no_summary_without_keys() {
    let mut metrics = KeyMetrics::new();
    assert!(metrics.drain_summary().is_none());
}

#[test]
fn huge_durations_saturate() {
    let mut metrics = KeyMetrics::new();
    metrics.record(u128::MAX);
    let summary = metrics.drain_summary().unwrap();
    assert!(summary.contains("max_us=18446744073709551615"));
    assert!(summary.contains(">=32ms:1"));
}

#[test]
fn bucket_bounds() {
    assert_eq!(bucket(0), 0);
    assert_eq!(bucket(999), 0);
    assert_eq!(bucket(1_000), 1);
    assert_eq!(bucket(1_999), 1);
    assert_eq!(bucket(2_000), 2);
    assert_eq!(bucket(4_000), 3);
    assert_eq!(bucket(8_000), 4);
    assert_eq!(bucket(16_000), 5);
    assert_eq!(bucket(31_999), 5);
    assert_eq!(bucket(32_000), 6);
}

#[test]
fn many_records_are_summarised_then_reset() {
    let mut metrics = KeyMetrics::new();
    let durations: Vec<u128> = (0..100u128).map(|i| (i * 7_919) % 45_000).collect();
    let mut counts = [0u64; 7];
    for &d in &durations {
        metrics.record(d);
        counts[bucket(d as u64)] += 1;
    }
    let total: u128 = durations.iter().sum();
    let max = *durations.iter().max().unwrap();
    let expected = format!(
        "收键同步耗时汇总 keys=100 avg_us={} max_us={} buckets=[<1ms:{},1-2ms:{},2-4ms:{},4-8ms:{},8-16ms:{},16-32ms:{},>=32ms:{}]",
        total / 100,
        max,
        counts[0],
        counts[1],
        counts[2],
        counts[3],
        counts[4],
        counts[5],
        counts[6]
    );
    assert_eq!(counts.iter().sum::<u64>(), 100);
    assert_eq!(metrics.drain_summary(), Some(expected));
    assert_eq!(metrics.drain_summary(), None);
}
