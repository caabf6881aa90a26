use icepick::net::limiter_table::{domain_key, RateLimiterTable};
use icepick::net::rate_limiter::{RateLimiter, WaitStep};
use icepick::net::reqest_sender::ReqSender;
use icepick::net::net_error::NetError;
use icepick::net_client::client::{after_attempt, AfterAttempt, AttemptOutcome, Client, LAST_ATTEMPT};
use icepick::net_client::error::ClientError;
use icepick::utils::wrappers::WebUrl;

#[test]
fn first_request_passes_at_once() {
    let mut limiter = RateLimiter::new(1000);
    assert_eq!(limiter.wait_step(0), WaitStep::Proceed);
    assert_eq!(limiter.next_allowed_ms(), 1000);
    assert_eq!(limiter.interval_ms(), 1000);
}

#[test]
fn passes_are_one_interval_apart() {
    let mut limiter = RateLimiter::new(300);
    assert_eq!(limiter.wait_step(50), WaitStep::Proceed);
    // refused steps leave the limiter unchanged and name the time left
    assert_eq!(limiter.wait_step(51), WaitStep::Sleep(299));
    assert_eq!(limiter.wait_step(200), WaitStep::Sleep(150));
    assert_eq!(limiter.next_allowed_ms(), 350);
    // sleeping the named time makes the next step pass
    assert_eq!(limiter.wait_step(200 + 150), WaitStep::Proceed);
    assert_eq!(limiter.next_allowed_ms(), 650);
}

#[test]
fn late_request_moves_slot_from_its_own_time() {
    let mut limiter = RateLimiter::new(10);
    assert_eq!(limiter.wait_step(5), WaitStep::Proceed);
    assert_eq!(limiter.wait_step(1_000), WaitStep::Proceed);
    assert_eq!(limiter.next_allowed_ms(), 1_010);
}

#[test]
fn domain_key_is_the_xxh3_hash_of_the_domain() {
    assert_eq!(domain_key("example.com"), xxhash_rust::xxh3::xxh3_64(b"example.com"));
    assert_ne!(domain_key("example.com"), domain_key("example.org"));
}

#[test]
fn table_keeps_one_limiter_per_key() {
    let mut table = RateLimiterTable::new(100);
    assert!(!table.contains(7));
    assert_eq!(table.wait_step(7, 10), WaitStep::Proceed);
    assert!(table.contains(7));
    assert_eq!(table.get(7).unwrap().next_allowed_ms(), 110);
    assert_eq!(table.wait_step(7, 20), WaitStep::Sleep(90));
    // another key has its own limiter
    assert_eq!(table.wait_step(8, 20), WaitStep::Proceed);
    assert_eq!(table.get(7).unwrap().next_allowed_ms(), 110);
    // ensure keeps a limiter that is there; add replaces it
    table.ensure(7);
    assert_eq!(table.get(7).unwrap().next_allowed_ms(), 110);
    table.add(7);
    assert_eq!(table.get(7).unwrap().next_allowed_ms(), 0);
    assert!(table.get(9).is_none());
    assert_eq!(table.interval_ms(), 100);
}

#[test]
fn client_request_to_same_domain_shares_limiter() {
    let mut client = Client::new(500);
    assert_eq!(client.rate_limiting_interval_ms(), 500);
    let key = client.request_key(Some("askiiart.net")).unwrap();
    assert_eq!(key, domain_key("askiiart.net"));
    assert!(client.check_rate_limiter_domain("askiiart.net"));
    assert!(client.check_rate_limiter_hash(key));
    assert_eq!(client.wait_step(key, 1_000), WaitStep::Proceed);
    // a second request to the same domain finds the same, advanced limiter
    let again = client.request_key(Some("askiiart.net")).unwrap();
    assert_eq!(again, key);
    assert_eq!(client.get_rate_limiter_domain("askiiart.net").unwrap().next_allowed_ms(), 1_500);
    assert_eq!(client.wait_step(key, 1_200), WaitStep::Sleep(300));
    // a different domain is not held back
    let other = client.request_key(Some("www.fanton.com")).unwrap();
    assert_eq!(client.wait_step(other, 1_200), WaitStep::Proceed);
}

#[test]
fn client_refuses_url_without_domain() {
    let mut client = Client::new(500);
    assert!(matches!(client.request_key(None), Err(ClientError::NoDomain)));
    let ip_url = WebUrl::parse("https://127.0.0.1/").unwrap();
    assert!(matches!(client.make_request(&ip_url), Err(ClientError::NoDomain)));
    let mail = WebUrl::parse("mailto:rms@example.net").unwrap();
    assert!(matches!(client.make_request(&mail), Err(ClientError::NoDomain)));
    assert!(client.get_rate_limiter_hash(domain_key("127.0.0.1")).is_none());
}

#[test]
fn client_make_request_uses_the_url_domain() {
    let mut client = Client::new(1);
    let url = WebUrl::parse("https://subdomain.example.com/some/page?q=1").unwrap();
    let key = client.make_request(&url).unwrap();
    assert_eq!(key, domain_key("subdomain.example.com"));
    assert!(client.check_rate_limiter_domain("subdomain.example.com"));
}

#[test]
fn client_add_rate_limiter_domain_resets_limiter() {
    let mut client = Client::new(50);
    let key = client.add_rate_limiter_domain("a.com");
    assert_eq!(key, domain_key("a.com"));
    assert_eq!(client.wait_step(key, 10), WaitStep::Proceed);
    client.add_rate_limiter_hash(key);
    assert_eq!(client.get_rate_limiter_hash(key).unwrap().next_allowed_ms(), 0);
}

#[test]
fn req_sender_refuses_url_without_domain() {
    let mut sender = ReqSender::new(200);
    let url = WebUrl::parse("https://10.0.0.1/").unwrap();
    assert!(matches!(sender.make_request(&url), Err(NetError::NoDomain)));
    let good = WebUrl::parse("https://nya.net/").unwrap();
    let key = sender.make_request(&good).unwrap();
    assert_eq!(key, domain_key("nya.net"));
    assert!(sender.check_rate_limiter_hash(key));
    assert_eq!(sender.wait_step(key, 0), WaitStep::Proceed);
    assert_eq!(sender.wait_step(key, 0), WaitStep::Sleep(200));
}

#[test]
fn retries_stop_after_the_last_attempt() {
    assert_eq!(LAST_ATTEMPT, 2);
    assert_eq!(after_attempt(0, AttemptOutcome::Success), AfterAttempt::ReturnResponse);
    assert_eq!(after_attempt(2, AttemptOutcome::Success), AfterAttempt::ReturnResponse);
    assert_eq!(after_attempt(0, AttemptOutcome::NotSuccess), AfterAttempt::WaitThenRetry);
    assert_eq!(after_attempt(1, AttemptOutcome::Failed), AfterAttempt::WaitThenRetry);
    assert_eq!(after_attempt(2, AttemptOutcome::NotSuccess), AfterAttempt::ReturnResponse);
    assert_eq!(after_attempt(2, AttemptOutcome::Failed), AfterAttempt::ReturnError);
}
