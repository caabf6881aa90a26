use icepick::crawler::crawler::{BodyPlan, Crawler};
use icepick::crawler::manager::ScrapeManager;
use icepick::database::crawl::{crawl_from_row, parse_stored_moment, Crawl, CrawlDraft, CrawlPromise, ToCrawlId};
use icepick::utils::wrappers::WebUrl;
use icepick::database::page::{first_row, pair_inserted_pages, PageDraft, PageKind, PagePromise};
use icepick::net::net_error::NetError;
use icepick::utils::compress::Decompress;
use icepick::utils::database::stored_html;
use std::str::FromStr;
use std::sync::Arc;
use url::Url;

fn url(s: &str) -> Arc<Url> {
    Arc::new(Url::from_str(s).unwrap())
}

fn crawl() -> Arc<CrawlPromise<u64>> {
    let draft = CrawlDraft::new(Some(String::from("test")), 4, WebUrl::parse("https://askiiart.net").unwrap(), 17u64);
    Arc::new(CrawlPromise::from_inserted(9, draft))
}

#[test]
fn content_types_give_page_kinds() {
    assert_eq!(Crawler::page_kind_for(Some("text/html")), PageKind::Html);
    assert_eq!(Crawler::page_kind_for(Some("text/xhtml+xml")), PageKind::Html);
    assert_eq!(Crawler::page_kind_for(Some("text/plain")), PageKind::PlainText);
    assert_eq!(Crawler::page_kind_for(Some("text/markdown")), PageKind::PlainText);
    assert_eq!(Crawler::page_kind_for(Some("image/png")), PageKind::NonSearchable);
    assert_eq!(Crawler::page_kind_for(Some("text/html; charset=utf-8")), PageKind::NonSearchable);
    assert_eq!(Crawler::page_kind_for(None), PageKind::Unknown);
    assert!(PageKind::Html.is_searchable());
    assert!(!PageKind::Unknown.is_searchable());
}

#[test]
fn answers_are_planned() {
    assert!(matches!(Crawler::plan_for_answer(false, Some("text/html")), Err(NetError::SiteReturnedNotSuccess)));
    assert_eq!(Crawler::plan_for_answer(true, Some("text/html")).unwrap(), BodyPlan::Read(PageKind::Html));
    assert_eq!(Crawler::plan_for_answer(true, Some("application/pdf")).unwrap(), BodyPlan::Skip(PageKind::NonSearchable));
    assert_eq!(Crawler::plan_for_answer(true, None).unwrap(), BodyPlan::Skip(PageKind::Unknown));
}

#[test]
fn drafts_keep_compressed_bodies() {
    let with_body = Crawler::draft_with_body(url("https://google.com"), Some("hai".to_string()), None, 0, crawl(), PageKind::Html).unwrap();
    assert_eq!(with_body.page_kind, PageKind::Html);
    let frame = (*with_body.html).clone().unwrap();
    assert_eq!(frame.decompress().unwrap(), "hai");
    assert_eq!(with_body.crawl.crawl_id(), 9);
    let unread = Crawler::draft_with_body(url("https://google.com"), None, None, 0, crawl(), PageKind::Html).unwrap();
    assert_eq!(unread.page_kind, PageKind::Unknown);
    assert!(unread.html.is_none());
    let skipped = Crawler::draft_without_body(url("https://x.org/a.png"), None, 2, crawl(), PageKind::NonSearchable);
    assert!(skipped.html.is_none());
    assert_eq!(skipped.depth, 2);
}

#[test]
fn crawl_promise_becomes_crawl() {
    let promise = CrawlPromise::from_insert_result::<String>(Ok(3), CrawlDraft::new(None, 1, WebUrl::parse("https://a.io").unwrap(), 100u64)).unwrap();
    assert_eq!(promise.crawl_id(), 3);
    let finished: Crawl<u64> = promise.into_crawl(200);
    assert_eq!(finished.crawl_id(), 3);
    assert_eq!(finished.started_at, 100);
    assert_eq!(finished.finished_at, 200);
    assert_eq!(finished.root_url.as_str(), "https://a.io/");
    let failed = CrawlPromise::from_insert_result(Err("db down"), CrawlDraft::new(None, 1, WebUrl::parse("https://a.io").unwrap(), 0u64));
    assert_eq!(failed.err(), Some("db down"));
}

#[test]
fn inserted_pages_are_paired_in_order() {
    let c = crawl();
    let first = Arc::new(PagePromise::from_inserted(1, PageDraft::new(url("https://google.com"), None, None, 0, c.clone(), PageKind::Html)));
    assert_eq!(first.father_id(), None);
    let drafts = vec![
        PageDraft::new(url("https://hiii.com"), None, Some(first.clone()), 1, c.clone(), PageKind::Html),
        PageDraft::new(url("https://nya.net"), None, Some(first.clone()), 1, c.clone(), PageKind::PlainText),
        PageDraft::new(url("https://fops.net"), None, Some(first.clone()), 1, c.clone(), PageKind::Unknown),
    ];
    assert_eq!(drafts[0].father_id(), Some(1));
    let results: Vec<Result<i64, String>> = vec![Ok(2), Err("busy".to_string()), Ok(4), Ok(5)];
    let pages = pair_inserted_pages(results, drafts);
    assert_eq!(pages.len(), 3);
    let p0 = pages[0].as_ref().unwrap();
    assert_eq!(p0.id, 2);
    assert_eq!(p0.url.as_str(), "https://hiii.com/");
    assert_eq!(p0.father_id(), Some(1));
    assert_eq!(pages[1].as_ref().err().unwrap(), "busy");
    let p2 = pages[2].as_ref().unwrap();
    assert_eq!(p2.id, 4);
    assert_eq!(p2.url.as_str(), "https://fops.net/");
    assert_eq!(p2.page_kind, PageKind::Unknown);
}

#[test]
fn first_row_of_query() {
    assert_eq!(first_row(Vec::<u8>::new()), None);
    assert_eq!(first_row(vec![5, 6]), Some(5));
}

#[test]
fn stored_html_is_compressed_text() {
    assert_eq!(stored_html(None), None);
    let frame = stored_html(Some("mrow")).unwrap();
    assert_eq!(frame.decompress().unwrap(), "mrow");
}

#[test]
fn scrapers_get_increasing_ids() {
    let mut counter: usize = 0;
    let mut first: ScrapeManager<&str> = ScrapeManager::new();
    let mut second: ScrapeManager<&str> = ScrapeManager::new();
    assert_eq!(first.push("first", &mut counter), 0);
    assert_eq!(second.push("second", &mut counter), 1);
    assert_eq!(first.push("third", &mut counter), 2);
    assert_eq!(counter, 3);
}

#[test]
fn crawl_rows_are_decoded() {
    let p = crawl_from_row(7, Some("test".to_string()), 4, "https://askiiart.net", 11u64).unwrap();
    assert_eq!(p.crawl_id(), 7);
    assert_eq!(p.inner.name.as_deref(), Some("test"));
    assert_eq!(p.inner.depth, 4);
    assert_eq!(p.inner.root_url.as_str(), "https://askiiart.net/");
    assert_eq!(p.inner.root_url.domain_str(), Some("askiiart.net"));
    assert_eq!(p.inner.root_url.as_url(), &Url::parse("https://askiiart.net").unwrap());
    assert_eq!(p.inner.started_at, 11);
    assert!(crawl_from_row(7, None, 0, "not a url", 0u64).is_err());
}

#[test]
fn stored_moments_are_parsed() {
    let m = parse_stored_moment("2024-03-05 17:08:09").unwrap();
    assert_eq!(m.format("%Y-%m-%d %H:%M:%S").to_string(), "2024-03-05 17:08:09");
    assert!(parse_stored_moment("2024-13-05 17:08:09").is_err());
    assert!(parse_stored_moment("yesterday").is_err());
}
