use stelliberty_service::delay::{
    batch_summary, count_successes, decimal_string, delay_from_field, delay_from_reply,
    delay_test_path, BatchTestResult,
};

fn result(name: &str, delay_ms: i32) -> BatchTestResult {
    BatchTestResult { node_name: name.to_string(), delay_ms }
}

#[test]
fn test_path_encodes_the_node_name() {
    assert_eq!(
        delay_test_path("HK 01|香港", "http://www.gstatic.com/generate_204", 5000),
        "/proxies/HK%2001%7C%E9%A6%99%E6%B8%AF/delay?timeout=5000&url=http://www.gstatic.com/generate_204"
    );
    assert_eq!(delay_test_path("a", "u", 0), "/proxies/a/delay?timeout=0&url=u");
}

#[test]
fn reply_reads_as_a_latency() {
    assert_eq!(delay_from_reply("{\"delay\": 123}"), 123);
    assert_eq!(delay_from_reply("{\"delay\": 0}"), 0);
    assert_eq!(delay_from_reply("{\"message\": \"timeout\"}"), -1);
    assert_eq!(delay_from_reply("{\"delay\": \"fast\"}"), -1);
    assert_eq!(delay_from_reply("not json"), -1);
    assert_eq!(delay_from_field(Some(4_294_967_396)), 100);
    assert_eq!(delay_from_field(None), -1);
}

#[test]
fn batch_summary_counts_positive_latencies() {
    let results = vec![result("a", 120), result("b", -1), result("c", 0), result("d", 45)];
    assert_eq!(count_successes(&results), 2);
    let s = batch_summary(5, &results);
    assert!(s.success);
    assert_eq!(s.total_count, 5);
    assert_eq!(s.success_count, 2);
    assert_eq!(s.error_message, None);
    assert_eq!(batch_summary(0, &vec![]).success_count, 0);
}

#[test]
fn decimal_strings() {
    assert_eq!(decimal_string(0), "0");
    assert_eq!(decimal_string(907), "907");
    assert_eq!(decimal_string(u64::MAX), "18446744073709551615");
}

#[test]
fn path_from_an_encoded_name() {
    assert_eq!(
        stelliberty_service::delay::delay_path_for_encoded("HK%2001", "http://t", 2500),
        "/proxies/HK%2001/delay?timeout=2500&url=http://t"
    );
}
