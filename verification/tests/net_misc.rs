use icepick::net::error::NetError;
use icepick::net::rate_limiter::WaitStep;
use icepick::net::req_sender::{first_resolved_ip, scrape, send_route, Lookup, RequestSender, SendRoute, STANDARD_NEW_RATELIMITERS_DURATION_MS};
use icepick::utils::errors::{Explain, IcepickError, Result};
use icepick::utils::wrappers::{ToUrlStr, WebUrl, W};
use std::str::FromStr;
use std::sync::Arc;
use url::Url;

#[test]
fn first_address_of_lookup() {
    assert_eq!(first_resolved_ip("a.com", Some(vec![7u32, 8])).unwrap(), 7);
    match first_resolved_ip::<u32>("a.com", Some(vec![])) {
        Err(NetError::IPFromDnsResoveNotFound(d)) => assert_eq!(d, "a.com"),
        other => panic!("unexpected {:?}", other),
    }
    match first_resolved_ip::<u32>("b.org", None) {
        Err(NetError::IPFromDnsResoveNotFound(d)) => assert_eq!(d, "b.org"),
        other => panic!("unexpected {:?}", other),
    }
}

#[test]
fn send_routes() {
    assert!(matches!(send_route::<u32>(Ok(3)), SendRoute::RateLimited(3)));
    assert!(matches!(send_route::<u32>(Err(NetError::IPFromDnsResoveNotFound("x".into()))), SendRoute::WithoutRateLimiter));
    let no_domain = Url::from_str("https://1.2.3.4/").unwrap();
    assert!(matches!(send_route::<u32>(Err(NetError::NoDomain(no_domain))), SendRoute::WithoutRateLimiter));
    assert_eq!(STANDARD_NEW_RATELIMITERS_DURATION_MS, 200);
}

#[test]
fn scrape_finds_links_in_order() {
    let page = Arc::new(Url::from_str("https://askiiart.net/").unwrap());
    let html = String::from(
        "<html><body><a href=\"https://a.com/x\">a</a><a>no href</a><a href=\"/relative\">r</a><p><a href=\"https://b.org\">b</a></p></body></html>",
    );
    let (from, links) = scrape(&html, page.clone()).unwrap();
    assert_eq!(from, page);
    let texts: Vec<&str> = links.iter().map(|u| u.as_str()).collect();
    assert_eq!(texts, vec!["https://a.com/x", "https://b.org/"]);
    let (_, none) = scrape(&String::from("plain text"), page).unwrap();
    assert!(none.is_empty());
}

#[test]
fn to_url_accepts_urls_only() {
    assert_eq!("https://google.com".to_url().unwrap().as_str(), "https://google.com/");
    assert!("not a url".to_url().is_err());
}

#[test]
fn wrapper_holds_value() {
    let mut w = W::new(3u8);
    assert_eq!(*w.inner(), 3);
    *w.inner_mut() = 4;
    assert_eq!(*w, 4);
    let text = W::new(String::from("abc"));
    assert_eq!(text.len(), 3);
    assert_eq!(w.into_inner(), 4);
}

#[test]
fn explain_gives_the_value() {
    let ok: Result<u8> = Ok(5);
    assert_eq!(ok.explain(), 5);
    let err: Result<u8> = Err(IcepickError::GenericError("x".into()));
    assert!(matches!(err, Err(IcepickError::GenericError(_))));
}

#[test]
fn request_sender_remembers_addresses() {
    let mut sender = RequestSender::new();
    assert_eq!(sender.duration_new_ratelimiters_ms(), 200);
    let url = WebUrl::parse("https://nya.net/page").unwrap();
    let domain = match sender.lookup(&url).unwrap() {
        Lookup::Resolve(d) => d,
        other => panic!("unexpected {:?}", other),
    };
    assert_eq!(domain, "nya.net");
    let ip = (4u8, 0x7f00_0001u128);
    assert_eq!(sender.finish_resolution(domain, Ok(ip)).unwrap(), ip);
    assert!(matches!(sender.lookup(&url).unwrap(), Lookup::Known(k) if k == ip));
    assert_eq!(sender.wait_step(ip, 1_000), WaitStep::Proceed);
    assert_eq!(sender.wait_step(ip, 1_050), WaitStep::Sleep(150));
    // a failed resolution is handed back and remembers nothing
    let failed = sender.finish_resolution(String::from("gone.example"), Err(NetError::IPFromDnsResoveNotFound("gone.example".into())));
    assert!(matches!(failed, Err(NetError::IPFromDnsResoveNotFound(_))));
    assert!(matches!(sender.lookup_domain("gone.example"), Lookup::Resolve(_)));
    // a URL without a domain is refused with that URL
    let bare = WebUrl::parse("https://192.168.1.1/").unwrap();
    match sender.lookup(&bare) {
        Err(NetError::NoDomain(u)) => assert_eq!(&u, bare.as_url()),
        other => panic!("unexpected {:?}", other),
    }
}

#[test]
fn request_sender_with_custom_interval() {
    let mut sender = RequestSender::new_with_ratelimiter_duration(10);
    let ip = (6u8, 1u128);
    sender.finish_resolution(String::from("v6.example"), Ok(ip)).unwrap();
    assert_eq!(sender.wait_step(ip, 0), WaitStep::Proceed);
    assert_eq!(sender.wait_step(ip, 5), WaitStep::Sleep(5));
    assert_eq!(sender.wait_step(ip, 10), WaitStep::Proceed);
}

#[test]
fn scrape_keeps_absolute_anchor_links_only() {
    let text = String::from("<a href='https://a.com/x'>1</a><a href='/rel'>2</a><a>3</a><p href='https://b.com/'>4</p>");
    let u = Arc::new(Url::from_str("https://site.org/").unwrap());
    let (v, links) = scrape(&text, u.clone()).unwrap();
    assert!(Arc::ptr_eq(&v, &u));
    assert_eq!(links.len(), 1);
    assert_eq!(links[0].as_str(), "https://a.com/x");
    assert_eq!(links[0].domain_str(), Some("a.com"));
    assert_eq!(links[0].as_url(), &Url::parse("https://a.com/x").unwrap());
}

#[test]
fn parsed_url_parts() {
    let w = WebUrl::parse("https://b.org").unwrap();
    assert_eq!(w.as_str(), "https://b.org/");
    assert_eq!(w.domain_str(), Some("b.org"));
    assert_eq!(w.clone().into_url().as_str(), "https://b.org/");
    assert_eq!(w.as_url(), &Url::parse("https://b.org").unwrap());
    assert_eq!(w.as_url().host_str(), Some("b.org"));
    assert_eq!(WebUrl::parse("https://127.0.0.1/").unwrap().domain_str(), None);
    assert_eq!(WebUrl::parse("mailto:rms@example.net").unwrap().domain_str(), None);
    assert!(WebUrl::parse("/relative").is_err());
}
