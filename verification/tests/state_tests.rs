use pow20_miner::api::Ticker;
use pow20_miner::state::{submit_work, update_work, Stats};

fn ticker(challenge: &str, difficulty: i32) -> Ticker {
    Ticker {
        challenge: challenge.to_string(),
        current_location: "loc-1".to_string(),
        difficulty,
        ticker: "TICK".to_string(),
        id: "job-1".to_string(),
    }
}

#[test]
fn refresh_with_new_challenge_replaces_wholesale() {
    let mut current = ticker("aaaa", 2);
    let mut candidate = ticker("bbbb", 3);
    candidate.current_location = "loc-2".to_string();
    candidate.id = "job-2".to_string();
    let changed = update_work(&mut current, Some(candidate));
    assert!(changed);
    assert_eq!(current.challenge, "bbbb");
    assert_eq!(current.current_location, "loc-2");
    assert_eq!(current.difficulty, 3);
    assert_eq!(current.id, "job-2");
}

#[test]
fn refresh_with_same_challenge_is_a_no_op() {
    let mut current = ticker("aaaa", 2);
    // Other fields may differ transiently; only the challenge decides.
    let mut candidate = ticker("aaaa", 9);
    candidate.ticker = "OTHER".to_string();
    let changed = update_work(&mut current, Some(candidate));
    assert!(!changed);
    assert_eq!(current.difficulty, 2);
    assert_eq!(current.ticker, "TICK");
}

#[test]
fn failed_fetch_skips_the_refresh() {
    let mut current = ticker("aaaa", 2);
    let changed = update_work(&mut current, None);
    assert!(!changed);
    assert_eq!(current.challenge, "aaaa");
}

#[test]
fn repeated_identical_challenge_raises_one_event() {
    // Two refreshes with identical challenges: only the first (the
    // initial set) produces a state change event.
    let mut current = ticker("", 0);
    let first = update_work(&mut current, Some(ticker("00ff", 1)));
    let second = update_work(&mut current, Some(ticker("00ff", 1)));
    assert!(first);
    assert!(!second);
    assert_eq!(current.challenge, "00ff");
}

#[test]
fn event_count_follows_distinct_consecutive_changes() {
    // Five refresh calls, three distinct consecutive changes.
    let mut current = ticker("a1", 0);
    let candidates = ["a1", "b2", "b2", "c3", "b2"];
    let mut events = 0;
    for c in candidates {
        if update_work(&mut current, Some(ticker(c, 0))) {
            events += 1;
        }
    }
    assert_eq!(events, 3);
    assert_eq!(current.challenge, "b2");
}

#[test]
fn accepted_status_increments_accepted_only() {
    let mut stats = Stats::default();
    let refresh = submit_work(&mut stats, Some(201));
    assert!(refresh);
    assert_eq!(stats.accepted, 1);
    assert_eq!(stats.rejected, 0);
}

#[test]
fn other_status_increments_rejected_only() {
    let mut stats = Stats::default();
    let refresh = submit_work(&mut stats, Some(400));
    assert!(refresh);
    assert_eq!(stats.accepted, 0);
    assert_eq!(stats.rejected, 1);
    let refresh2 = submit_work(&mut stats, Some(200));
    assert!(refresh2);
    assert_eq!(stats.accepted, 0);
    assert_eq!(stats.rejected, 2);
}

#[test]
fn transport_failure_changes_neither_counter() {
    let mut stats = Stats::default();
    submit_work(&mut stats, Some(201));
    submit_work(&mut stats, Some(500));
    let refresh = submit_work(&mut stats, None);
    assert!(refresh);
    assert_eq!(stats.accepted, 1);
    assert_eq!(stats.rejected, 1);
}

#[test]
fn api_client_new_keeps_url_and_address() {
    let client = pow20_miner::api::ApiClient::new(
        "http://api.pow20.io".to_string(),
        "addr".to_string(),
    );
    assert_eq!(client.url, "http://api.pow20.io");
    assert_eq!(client.address, "addr");
}

#[test]
fn malformed_challenge_candidate_is_dropped() {
    let mut current = ticker("aaaa", 2);
    // Not hex at all, and different from the current challenge.
    let changed = update_work(&mut current, Some(ticker("zzzz", 1)));
    assert!(!changed);
    assert_eq!(current.challenge, "aaaa");
    assert_eq!(current.difficulty, 2);
    // Odd length is malformed too.
    assert!(!update_work(&mut current, Some(ticker("abc", 1))));
    assert_eq!(current.challenge, "aaaa");
}

#[test]
fn oversized_challenge_candidate_is_dropped() {
    let mut current = ticker("aaaa", 2);
    // 57 bytes do not fit the 64-byte preimage buffer beside the nonce.
    let over = "ab".repeat(57);
    assert!(!update_work(&mut current, Some(ticker(&over, 1))));
    assert_eq!(current.challenge, "aaaa");
    // 56 bytes do.
    let max = "ab".repeat(56);
    assert!(update_work(&mut current, Some(ticker(&max, 1))));
    assert_eq!(current.challenge, max);
}

#[test]
fn impossible_difficulty_candidate_is_dropped() {
    let mut current = ticker("aaaa", 2);
    // A double-SHA-256 digest has 64 nibbles: 65 can never be met.
    assert!(!update_work(&mut current, Some(ticker("bbbb", 65))));
    assert_eq!(current.challenge, "aaaa");
    assert_eq!(current.difficulty, 2);
    // 64 is the highest difficulty a candidate may demand.
    assert!(update_work(&mut current, Some(ticker("bbbb", 64))));
    assert_eq!(current.difficulty, 64);
}
