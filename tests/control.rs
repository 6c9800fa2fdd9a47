use metabob::gumdrop::{make_whitelist, whitelist_with_slot, Whitelist};
use metabob::limiter::{rpc_delay_ms, RateLimiter, DEFAULT_RPC_DELAY_MS};
use metabob::parse::{select_endpoint, select_heavy_endpoint, SolanaConfig};
use metabob::submit::AttemptOutcome::{Confirmed, Rejected, TransportFailure};
use metabob::submit::{AttemptOutcome, SubmitError, SubmitStep, Submission, MAX_ATTEMPTS};
use rayon::iter::{IntoParallelIterator, ParallelIterator};
use std::sync::{Arc, Mutex};

fn run(outcomes: &[AttemptOutcome]) -> (Result<(), SubmitError>, u32, Vec<u64>) {
    let mut s = Submission::new();
    let mut waits = vec![];
    let mut next = outcomes.iter();
    loop {
        let o = *next.next().unwrap_or(&AttemptOutcome::TransportFailure);
        match s.record(o) {
            SubmitStep::Done => return (Ok(()), s.attempts, waits),
            SubmitStep::Fail(e) => return (Err(e), s.attempts, waits),
            SubmitStep::RetryAfter(ms) => waits.push(ms),
        }
    }
}

#[test]
fn submit_succeeds_on_third_attempt() {
    let (r, attempts, waits) = run(&[TransportFailure, TransportFailure, Confirmed]);
    assert_eq!(r, Ok(()));
    assert_eq!(attempts, 3);
    assert_eq!(waits, vec![250, 500]);
}

#[test]
fn submit_gives_up_after_three_attempts() {
    let (r, attempts, _) = run(&[TransportFailure; 10]);
    assert_eq!(r, Err(SubmitError::Exhausted));
    assert_eq!(attempts, MAX_ATTEMPTS);
    assert_eq!(attempts, 3);
}

#[test]
fn submit_does_not_retry_rejections() {
    let (r, attempts, waits) = run(&[Rejected, Confirmed]);
    assert_eq!(r, Err(SubmitError::Rejected));
    assert_eq!(attempts, 1);
    assert!(waits.is_empty());
    let (r, attempts, _) = run(&[Confirmed]);
    assert_eq!((r, attempts), (Ok(()), 1));
}

#[test]
fn limiter_spaces_permits() {
    let mut l = RateLimiter::new(200);
    let mut grants = vec![];
    for now in [0u64, 10, 20, 500, 510, 2000] {
        grants.push(l.acquire(now));
    }
    assert_eq!(grants, vec![0, 200, 400, 600, 800, 2000]);
    for w in grants.windows(2) {
        assert!(w[1] >= w[0] + 200);
    }
}

#[test]
fn limiter_spaces_permits_under_concurrent_load() {
    let limiter = Arc::new(Mutex::new(RateLimiter::new(1_000)));
    let start = std::time::Instant::now();
    let mut all: Vec<u64> = (0..160)
        .into_par_iter()
        .map(|_| {
            let now = start.elapsed().as_nanos() as u64;
            limiter.lock().unwrap().acquire(now)
        })
        .collect();
    all.sort();
    for w in all.windows(2) {
        assert!(w[1] >= w[0] + 1_000);
    }
}

#[test]
fn endpoint_delays() {
    assert_eq!(rpc_delay_ms("https://ssc-dao.genesysgo.net"), 25);
    assert_eq!(rpc_delay_ms("https://api.mainnet-beta.solana.com"), DEFAULT_RPC_DELAY_MS);
    assert_eq!(DEFAULT_RPC_DELAY_MS, 200);
    let l = RateLimiter::for_endpoint("https://ssc-dao.genesysgo.net");
    assert_eq!(l.delay_ns, 25_000_000);
}

#[test]
fn whitelist_slot_is_placed() {
    let handles = vec!["a".to_string(), "b".to_string()];
    let list = whitelist_with_slot(&handles, "me".to_string(), 7, 1);
    let names: Vec<&str> = list.iter().map(|w| w.handle.as_str()).collect();
    assert_eq!(names, vec!["a", "me", "b"]);
    assert!(list.iter().all(|w| w.amount == 7));
    let w = Whitelist::new("x".to_string(), 3);
    assert_eq!((w.handle.as_str(), w.amount), ("x", 3));
}

#[test]
fn random_whitelist_holds_everyone_once() {
    let handles: Vec<String> = (0..10).map(|i| i.to_string()).collect();
    let list = make_whitelist(&handles, "me".to_string(), 1);
    assert_eq!(list.len(), 11);
    let others: Vec<String> = list.iter().filter(|w| w.handle != "me").map(|w| w.handle.clone()).collect();
    assert_eq!(others, handles);
    let single = make_whitelist(&vec![], "me".to_string(), 2);
    assert_eq!(single.len(), 1);
    assert_eq!(single[0].handle, "me");
}

#[test]
fn endpoint_selection() {
    let cfg = || Some(SolanaConfig {
        json_rpc_url: "https://cfg".to_string(),
        keypair_path: "k".to_string(),
        commitment: "finalized".to_string(),
    });
    assert_eq!(select_endpoint(Some("https://cli".to_string()), cfg()), ("https://cli".to_string(), "confirmed".to_string()));
    assert_eq!(select_endpoint(None, cfg()), ("https://cfg".to_string(), "finalized".to_string()));
    assert_eq!(
        select_endpoint(None, None),
        ("https://psytrbhymqlkfrhudd.dev.genesysgo.net:8899/".to_string(), "confirmed".to_string())
    );
    assert_eq!(select_heavy_endpoint(None, &"r".to_string()), "r");
    assert_eq!(select_heavy_endpoint(Some("h".to_string()), &"r".to_string()), "h");
}
