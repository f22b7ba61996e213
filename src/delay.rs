//! Batch latency tests of proxy nodes: the request each node's test makes,
//! how its reply reads as a latency, and the summary of a batch. The requests
//! themselves, and their concurrency, are the caller's.
use vstd::prelude::*;

verus! {

/// A request to test the latency of `node_names` against `test_url`.
pub struct BatchDelayTestRequest {
    pub node_names: Vec<String>,
    pub test_url: String,
    pub timeout_ms: u32,
    /// How many tests may run at once.
    pub concurrency: u32,
}

/// One node's tested latency; `-1` marks a failed test.
pub struct BatchTestResult {
    pub node_name: String,
    pub delay_ms: i32,
}

/// Progress report sent as each node's test completes.
pub struct DelayTestProgress {
    pub node_name: String,
    pub delay_ms: i32,
}

/// The summary sent when a batch completes.
pub struct BatchDelayTestComplete {
    pub success: bool,
    pub total_count: u32,
    pub success_count: u32,
    pub error_message: Option<String>,
}

/// What `urlencoding::encode` makes of `s`.
pub uninterp spec fn url_encoded(s: Seq<char>) -> Seq<char>;

/// What `serde_json` reads as the integer under `key` in the JSON object
/// `body`: none when `body` is not JSON, has no such key, or holds no `i64`
/// there.
pub uninterp spec fn json_integer_field(body: Seq<char>, key: Seq<char>) -> Option<i64>;

/// Relies on `urlencoding::encode`: percent-encoding of every byte but ASCII
/// letters, digits and `-`, `_`, `.`, `~`, a function of `s` alone.
#[verifier::external_body]
fn url_encode(s: &str) -> (r: String)
    ensures
        r@ == url_encoded(s@),
{
    urlencoding::encode(s).into_owned()
}

/// Relies on `serde_json::from_str` into a `serde_json::Value`, then
/// `Value::get` and `Value::as_i64`: the integer stored under `key`.
#[verifier::external_body]
fn integer_field(body: &str, key: &str) -> (r: Option<i64>)
    ensures
        r == json_integer_field(body@, key@),
{
    match serde_json::from_str::<serde_json::Value>(body) {
        Ok(v) => v.get(key).and_then(serde_json::Value::as_i64),
        Err(_) => None,
    }
}

pub open spec fn digit_char(d: nat) -> char {
    if d == 0 { '0' } else if d == 1 { '1' } else if d == 2 { '2' } else if d == 3 { '3' }
    else if d == 4 { '4' } else if d == 5 { '5' } else if d == 6 { '6' } else if d == 7 { '7' }
    else if d == 8 { '8' } else { '9' }
}

/// The decimal digits of `n`, most significant first, without leading zeros.
pub open spec fn decimal_text(n: nat) -> Seq<char>
    decreases n,
{
    if n < 10 {
        seq![digit_char(n)]
    } else {
        decimal_text(n / 10).push(digit_char(n % 10))
    }
}

pub(crate) fn digit_text(d: u64) -> (r: &'static str)
    requires
        d < 10,
    ensures
        r@ == seq![digit_char(d as nat)],
{
    proof {
        reveal_strlit("0");
        reveal_strlit("1");
        reveal_strlit("2");
        reveal_strlit("3");
        reveal_strlit("4");
        reveal_strlit("5");
        reveal_strlit("6");
        reveal_strlit("7");
        reveal_strlit("8");
        reveal_strlit("9");
    }
    let r = if d == 0 { "0" } else if d == 1 { "1" } else if d == 2 { "2" } else if d == 3 { "3" }
    else if d == 4 { "4" } else if d == 5 { "5" } else if d == 6 { "6" } else if d == 7 { "7" }
    else if d == 8 { "8" } else { "9" };
    assert(r@ =~= seq![digit_char(d as nat)]);
    r
}

/// `n` written in decimal.
pub fn decimal_string(n: u64) -> (r: String)
    ensures
        r@ == decimal_text(n as nat),
    decreases n,
{
    if n < 10 {
        String::from_str(digit_text(n))
    } else {
        let head = decimal_string(n / 10);
        let r = head.concat(digit_text(n % 10));
        assert(r@ =~= decimal_text(n as nat));
        r
    }
}

/// The control API path that tests the node whose percent-encoded name is
/// `encoded_name`: `/proxies/<name>/delay?timeout=<ms>&url=<test url>`.
pub fn delay_path_for_encoded(encoded_name: &str, test_url: &str, timeout_ms: u32) -> (r: String)
    ensures
        r@ == "/proxies/"@ + encoded_name@ + "/delay?timeout="@ + decimal_text(timeout_ms as nat)
            + "&url="@ + test_url@,
{
    let timeout = decimal_string(timeout_ms as u64);
    String::from_str("/proxies/").concat(encoded_name).concat("/delay?timeout=").concat(
        timeout.as_str(),
    ).concat("&url=").concat(test_url)
}

/// The control API path that tests `node_name` against `test_url` with
/// `timeout_ms`, the name percent-encoded.
pub fn delay_test_path(node_name: &str, test_url: &str, timeout_ms: u32) -> (r: String)
    ensures
        r@ == "/proxies/"@ + url_encoded(node_name@) + "/delay?timeout="@ + decimal_text(
            timeout_ms as nat,
        ) + "&url="@ + test_url@,
{
    let encoded = url_encode(node_name);
    delay_path_for_encoded(encoded.as_str(), test_url, timeout_ms)
}

/// The latency a test reply reports, from the integer it holds under `delay`
/// (truncated to 32 bits), or `-1` when it holds none.
pub open spec fn delay_of(field: Option<i64>) -> i32 {
    match field {
        Some(d) => d as i32,
        None => -1i32,
    }
}

/// The latency for the integer a reply holds under `delay`, if any.
pub fn delay_from_field(field: Option<i64>) -> (r: i32)
    ensures
        r == delay_of(field),
{
    match field {
        Some(d) => d as i32,
        None => -1,
    }
}

/// The latency the reply `body` of a test reports: `{"delay": 123}` gives
/// 123; a body without an integer `delay` gives `-1`.
pub fn delay_from_reply(body: &str) -> (r: i32)
    ensures
        r == delay_of(json_integer_field(body@, "delay"@)),
{
    delay_from_field(integer_field(body, "delay"))
}

/// How many of `results` succeeded, i.e. have a positive latency.
pub open spec fn successes(results: Seq<BatchTestResult>) -> nat
    decreases results.len(),
{
    if results.len() == 0 {
        0
    } else {
        successes(results.drop_last()) + if results.last().delay_ms > 0 {
            1nat
        } else {
            0nat
        }
    }
}

proof fn lemma_successes_bounded(results: Seq<BatchTestResult>)
    ensures
        successes(results) <= results.len(),
    decreases results.len(),
{
    if results.len() > 0 {
        lemma_successes_bounded(results.drop_last());
    }
}

/// The number of tests in `results` with a positive latency.
pub fn count_successes(results: &Vec<BatchTestResult>) -> (r: usize)
    ensures
        r == successes(results@),
{
    let mut count: usize = 0;
    let mut i: usize = 0;
    while i < results.len()
        invariant
            i <= results@.len(),
            count == successes(results@.subrange(0, i as int)),
            count <= i,
        decreases results@.len() - i,
    {
        proof {
            assert(results@.subrange(0, i + 1).drop_last() =~= results@.subrange(0, i as int));
        }
        if results[i].delay_ms > 0 {
            count = count + 1;
        }
        i = i + 1;
    }
    proof {
        assert(results@.subrange(0, results@.len() as int) =~= results@);
    }
    count
}

/// The summary of a batch of `total` nodes whose tests gave `results`.
pub fn batch_summary(total: u32, results: &Vec<BatchTestResult>) -> (r: BatchDelayTestComplete)
    requires
        results@.len() <= u32::MAX,
    ensures
        r.success,
        r.total_count == total,
        r.success_count == successes(results@),
        r.error_message is None,
{
    proof {
        lemma_successes_bounded(results@);
    }
    let n = count_successes(results);
    BatchDelayTestComplete {
        success: true,
        total_count: total,
        success_count: n as u32,
        error_message: None,
    }
}

} // verus!
