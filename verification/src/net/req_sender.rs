use vstd::prelude::*;
use vstd::pervasive::unreached;
use std::sync::Arc;
use url::Url;
use crate::net::error::NetError;
use crate::net::rate_limiter::{RateLimiter, WaitStep, wait_step_fits, wait_step_spec};
use crate::utils::wrappers::{opt_text, url_domain_of, url_parsed, url_parses, url_serialized, WebUrl};
use dashmap::DashMap;

verus! {

/// How long a request waits, in milliseconds, where it goes without a rate
/// limiter; also the interval of the rate limiters the sender makes.
pub const STANDARD_NEW_RATELIMITERS_DURATION_MS: u64 = 200;

/// The address a domain resolves to: the first address the lookup found.
/// A lookup that failed (`None`) or found nothing gives
/// `IPFromDnsResoveNotFound` with the domain, never a resolver error.
pub fn first_resolved_ip<Ip: Copy>(domain: &str, lookup: Option<Vec<Ip>>) -> (r: Result<Ip, NetError>)
    ensures
        match lookup {
            Some(ips) => if ips@.len() > 0 {
                r == Ok::<Ip, NetError>(ips@[0])
            } else {
                r is Err && r->Err_0 is IPFromDnsResoveNotFound && r->Err_0->IPFromDnsResoveNotFound_0@ == domain@
            },
            None => r is Err && r->Err_0 is IPFromDnsResoveNotFound && r->Err_0->IPFromDnsResoveNotFound_0@ == domain@,
        },
{
    match lookup {
        Some(ips) => {
            if ips.len() > 0 {
                Ok(ips[0])
            } else {
                Err(NetError::IPFromDnsResoveNotFound(domain.to_string()))
            }
        },
        None => Err(NetError::IPFromDnsResoveNotFound(domain.to_string())),
    }
}

/// How a request is sent, once its domain has been resolved (or not).
#[derive(Debug)]
pub enum SendRoute<Ip> {
    /// Wait on the rate limiter of this address, then send.
    RateLimited(Ip),
    /// Wait the standard delay, then send without a rate limiter.
    WithoutRateLimiter,
    /// Do not send; hand this error to the caller.
    Fail(NetError),
}

/// How to send a request after resolving its domain gave `resolved`: a
/// resolved address is rate limited; a URL without a domain, or a domain
/// that resolved to nothing, is sent without a rate limiter after the
/// standard delay; a resolver failure is handed back. (Resolving never
/// gives an HTTP client error.)
pub fn send_route<Ip>(resolved: Result<Ip, NetError>) -> (r: SendRoute<Ip>)
    requires
        !(resolved is Err && resolved->Err_0 is ReqwestError),
    ensures
        match resolved {
            Ok(ip) => r == SendRoute::RateLimited(ip),
            Err(e) => match e {
                NetError::DNSResolverError(_) => r == SendRoute::<Ip>::Fail(e),
                _ => r is WithoutRateLimiter,
            },
        },
{
    match resolved {
        Ok(ip) => SendRoute::RateLimited(ip),
        Err(e) => match e {
            NetError::DNSResolverError(_) => SendRoute::Fail(e),
            NetError::IPFromDnsResoveNotFound(_) | NetError::NoDomain(_) => SendRoute::WithoutRateLimiter,
            NetError::ReqwestError(_) => unreached(),
        },
    }
}


/// An IP address as a key: the family (4 or 6) and the address bits.
pub type IpKey = (u8, u128);

/// What a domain-to-address map holds.
pub uninterp spec fn domain_ip_entries(m: DashMap<String, (u8, u128)>) -> Map<Seq<char>, (u8, u128)>;

/// What an address-to-limiter map holds: for each address, its limiter's
/// `(next free slot, interval)`.
pub uninterp spec fn ip_limiter_entries(m: DashMap<(u8, u128), RateLimiter>) -> Map<(u8, u128), (u64, u64)>;

/// `DashMap::new` for domains: the new map holds nothing.
#[verifier::external_body]
fn domain_map_new() -> (r: DashMap<String, (u8, u128)>)
    ensures
        domain_ip_entries(r) == no_domains(),
{
    DashMap::new()
}

/// `DashMap::new` for addresses: the new map holds nothing.
#[verifier::external_body]
fn ip_map_new() -> (r: DashMap<(u8, u128), RateLimiter>)
    ensures
        ip_limiter_entries(r) == no_ip_limiters(),
{
    DashMap::new()
}

/// `DashMap::get` on the domain map, copying the address out of the
/// guard: the address kept for the domain, if any.
#[verifier::external_body]
fn domain_map_get(m: &DashMap<String, (u8, u128)>, domain: &str) -> (r: Option<(u8, u128)>)
    ensures
        match r {
            Some(ip) => domain_ip_entries(*m).contains_key(domain@) && domain_ip_entries(*m)[domain@] == ip,
            None => !domain_ip_entries(*m).contains_key(domain@),
        },
{
    match m.get(domain) {
        Some(guard) => Some(*guard.value()),
        None => None,
    }
}

/// `DashMap::insert` on the domain map: the domain now maps to the
/// address, every other entry stays.
#[verifier::external_body]
fn domain_map_insert(m: &mut DashMap<String, (u8, u128)>, domain: String, ip: (u8, u128))
    ensures
        domain_ip_entries(*final(m)) == domain_ip_entries(*old(m)).insert(domain@, ip),
{
    m.insert(domain, ip);
}

/// `DashMap::get` on the address map, copying the limiter out of the
/// guard: the limiter kept for the address, if any.
#[verifier::external_body]
fn ip_map_get(m: &DashMap<(u8, u128), RateLimiter>, ip: (u8, u128)) -> (r: Option<RateLimiter>)
    ensures
        match r {
            Some(l) => ip_limiter_entries(*m).contains_key(ip) && ip_limiter_entries(*m)[ip] == l@,
            None => !ip_limiter_entries(*m).contains_key(ip),
        },
{
    match m.get(&ip) {
        Some(guard) => Some(*guard.value()),
        None => None,
    }
}

/// `DashMap::insert` on the address map: the address now maps to the
/// limiter, every other entry stays.
#[verifier::external_body]
fn ip_map_insert(m: &mut DashMap<(u8, u128), RateLimiter>, ip: (u8, u128), limiter: RateLimiter)
    ensures
        ip_limiter_entries(*final(m)) == ip_limiter_entries(*old(m)).insert(ip, limiter@),
{
    m.insert(ip, limiter);
}

/// A domain map that holds nothing.
pub open spec fn no_domains() -> Map<Seq<char>, (u8, u128)> {
    Map::empty()
}

/// An address map that holds nothing.
pub open spec fn no_ip_limiters() -> Map<(u8, u128), (u64, u64)> {
    Map::empty()
}

/// Where resolving the domain of a URL starts.
#[derive(Debug)]
pub enum Lookup {
    /// The domain was resolved before, to this address.
    Known((u8, u128)),
    /// The domain has to be resolved.
    Resolve(String),
}

/// The part of the request sender that decides: the address each domain
/// resolved to, and one rate limiter per address.
pub struct RequestSender {
    rate_limiter_map: DashMap<(u8, u128), RateLimiter>,
    domain_to_ip_map: DashMap<String, (u8, u128)>,
    duration_new_ratelimiters_ms: u64,
}

impl RequestSender {
    pub const STANDARD_NEW_RATELIMITERS_DURATION_MS: u64 = STANDARD_NEW_RATELIMITERS_DURATION_MS;

    /// The address each domain resolved to.
    pub closed spec fn domain_ips(&self) -> Map<Seq<char>, (u8, u128)> {
        domain_ip_entries(self.domain_to_ip_map)
    }

    /// The limiter of each address.
    pub closed spec fn ip_limiters(&self) -> Map<(u8, u128), (u64, u64)> {
        ip_limiter_entries(self.rate_limiter_map)
    }

    /// The interval of the limiters the sender makes, in milliseconds.
    pub closed spec fn interval(&self) -> u64 {
        self.duration_new_ratelimiters_ms
    }

    /// Every address a domain resolved to has a limiter, and every limiter
    /// was made with the sender's interval.
    pub open spec fn wf(&self) -> bool {
        &&& forall|d: Seq<char>| #[trigger] self.domain_ips().contains_key(d) ==> self.ip_limiters().contains_key(self.domain_ips()[d])
        &&& forall|ip: (u8, u128)| #[trigger] self.ip_limiters().contains_key(ip) ==> self.ip_limiters()[ip].1 == self.interval()
    }

    /// A sender that knows no domain yet, whose limiters let a request
    /// pass every `STANDARD_NEW_RATELIMITERS_DURATION_MS` milliseconds.
    pub fn new() -> (r: Self)
        ensures
            r.wf(),
            r.domain_ips() == no_domains(),
            r.ip_limiters() == no_ip_limiters(),
            r.interval() == STANDARD_NEW_RATELIMITERS_DURATION_MS,
    {
        Self::new_with_ratelimiter_duration(Self::STANDARD_NEW_RATELIMITERS_DURATION_MS)
    }

    /// A sender that knows no domain yet, whose limiters let a request
    /// pass every `duration_ms` milliseconds.
    pub fn new_with_ratelimiter_duration(duration_ms: u64) -> (r: Self)
        ensures
            r.wf(),
            r.domain_ips() == no_domains(),
            r.ip_limiters() == no_ip_limiters(),
            r.interval() == duration_ms,
    {
        RequestSender {
            rate_limiter_map: ip_map_new(),
            domain_to_ip_map: domain_map_new(),
            duration_new_ratelimiters_ms: duration_ms,
        }
    }

    /// The interval of the limiters the sender makes, in milliseconds.
    pub fn duration_new_ratelimiters_ms(&self) -> (r: u64)
        ensures
            r == self.interval(),
    {
        self.duration_new_ratelimiters_ms
    }

    /// Where resolving a domain starts: the address it resolved to before,
    /// if any; otherwise it has to be resolved.
    pub fn lookup_domain(&self, domain: &str) -> (r: Lookup)
        ensures
            match r {
                Lookup::Known(ip) => self.domain_ips().contains_key(domain@) && self.domain_ips()[domain@] == ip,
                Lookup::Resolve(d) => !self.domain_ips().contains_key(domain@) && d@ == domain@,
            },
    {
        match domain_map_get(&self.domain_to_ip_map, domain) {
            Some(ip) => Lookup::Known(ip),
            None => Lookup::Resolve(domain.to_string()),
        }
    }

    /// Where resolving the domain of `url` starts: the address its domain
    /// resolved to before, if any, otherwise its domain to resolve; a URL
    /// whose host is not a domain name is refused with `NoDomain` and that
    /// URL.
    pub fn lookup(&self, url: &WebUrl) -> (r: Result<Lookup, NetError>)
        ensures
            match url.domain() {
                Some(d) => if self.domain_ips().contains_key(d) {
                    r == Ok::<Lookup, NetError>(Lookup::Known(self.domain_ips()[d]))
                } else {
                    r is Ok && r->Ok_0 is Resolve && r->Ok_0->Resolve_0@ == d
                },
                None => r is Err && r->Err_0 is NoDomain && r->Err_0->NoDomain_0 == url.url(),
            },
    {
        match url.domain_str() {
            Some(domain) => Ok(self.lookup_domain(domain)),
            None => Err(NetError::NoDomain(url.as_url().clone())),
        }
    }

    /// The limiter of `ip`, if it has one.
    pub fn get_rate_limiter(&self, ip: (u8, u128)) -> (r: Option<RateLimiter>)
        ensures
            match r {
                Some(l) => self.ip_limiters().contains_key(ip) && self.ip_limiters()[ip] == l@,
                None => !self.ip_limiters().contains_key(ip),
            },
    {
        ip_map_get(&self.rate_limiter_map, ip)
    }

    /// The end of resolving `domain`, which gave `resolved`: a found
    /// address is remembered for the domain and gets a fresh limiter
    /// (replacing any limiter the address had); a failure is handed back
    /// and nothing changes.
    pub fn finish_resolution(&mut self, domain: String, resolved: Result<(u8, u128), NetError>) -> (r: Result<(u8, u128), NetError>)
        requires
            old(self).wf(),
        ensures
            final(self).wf(),
            final(self).interval() == old(self).interval(),
            r == resolved,
            match resolved {
                Ok(ip) => final(self).domain_ips() == old(self).domain_ips().insert(domain@, ip)
                    && final(self).ip_limiters() == old(self).ip_limiters().insert(ip, (0u64, old(self).interval())),
                Err(_) => final(self).domain_ips() == old(self).domain_ips() && final(self).ip_limiters() == old(self).ip_limiters(),
            },
    {
        match resolved {
            Ok(ip) => {
                let ghost d = domain@;
                domain_map_insert(&mut self.domain_to_ip_map, domain, ip);
                let limiter = RateLimiter::new(self.duration_new_ratelimiters_ms);
                ip_map_insert(&mut self.rate_limiter_map, ip, limiter);
                proof {
                    assert forall|e: Seq<char>| #[trigger] self.domain_ips().contains_key(e) implies self.ip_limiters().contains_key(self.domain_ips()[e]) by {
                        if e != d {
                            assert(old(self).domain_ips().contains_key(e));
                        }
                    }
                    assert forall|a: (u8, u128)| #[trigger] self.ip_limiters().contains_key(a) implies self.ip_limiters()[a].1 == self.interval() by {
                        if a != ip {
                            assert(old(self).ip_limiters().contains_key(a));
                        }
                    }
                }
                Ok(ip)
            },
            Err(e) => Err(e),
        }
    }

    /// One round of waiting, at time `now_ms`, on the limiter of `ip`.
    pub fn wait_step(&mut self, ip: (u8, u128), now_ms: u64) -> (step: WaitStep)
        requires
            old(self).wf(),
            old(self).ip_limiters().contains_key(ip),
            wait_step_fits(old(self).ip_limiters()[ip], now_ms),
        ensures
            final(self).wf(),
            final(self).interval() == old(self).interval(),
            final(self).domain_ips() == old(self).domain_ips(),
            step == wait_step_spec(old(self).ip_limiters()[ip], now_ms).1,
            final(self).ip_limiters() == old(self).ip_limiters().insert(ip, wait_step_spec(old(self).ip_limiters()[ip], now_ms).0),
    {
        match ip_map_get(&self.rate_limiter_map, ip) {
            Some(limiter) => {
                let mut limiter = limiter;
                let step = limiter.wait_step(now_ms);
                ip_map_insert(&mut self.rate_limiter_map, ip, limiter);
                proof {
                    assert forall|e: Seq<char>| #[trigger] self.domain_ips().contains_key(e) implies self.ip_limiters().contains_key(self.domain_ips()[e]) by {
                        assert(old(self).domain_ips().contains_key(e));
                    }
                    assert forall|a: (u8, u128)| #[trigger] self.ip_limiters().contains_key(a) implies self.ip_limiters()[a].1 == self.interval() by {
                        if a != ip {
                            assert(old(self).ip_limiters().contains_key(a));
                        }
                    }
                }
                step
            },
            None => unreached(),
        }
    }
}

/// A known domain always has a limiter to wait on: whatever the sender
/// remembers, the address of a domain it resolved has a limiter.
pub proof fn lemma_known_domain_has_limiter(sender: RequestSender, d: Seq<char>)
    requires
        sender.wf(),
        sender.domain_ips().contains_key(d),
    ensures
        sender.ip_limiters().contains_key(sender.domain_ips()[d]),
{
}

/// Of the HTML document `html`, the elements that the CSS selector
/// `selector` matches, in the order scraper's `select` yields them (the
/// order of its node tree, which is document order unless the parser moved
/// nodes), each with the value of its attribute `attr` if it has one;
/// `None` where `selector` is not a selector.
pub uninterp spec fn selected_attrs(html: Seq<char>, selector: Seq<char>, attr: Seq<char>) -> Option<Seq<Option<Seq<char>>>>;

/// The texts of a sequence of optional strings.
pub open spec fn opt_texts(s: Seq<Option<String>>) -> Seq<Option<Seq<char>>> {
    s.map_values(|o: Option<String>| opt_text(o))
}

/// Parses `html` as an HTML document with `scraper::Html::parse_document`,
/// parses `selector` with `scraper::Selector::parse` and, where that
/// succeeds, selects the matching elements: for each, in the order
/// `select` yields them, its attribute `attr` if it has one.
#[verifier::external_body]
fn scraper_select_attr(html: &str, selector: &str, attr: &str) -> (r: Option<Vec<Option<String>>>)
    ensures
        match r {
            Some(v) => selected_attrs(html@, selector@, attr@) == Some(opt_texts(v@)),
            None => selected_attrs(html@, selector@, attr@) is None,
        },
{
    let document = scraper::Html::parse_document(html);
    let selector = scraper::Selector::parse(selector).ok()?;
    Some(document.select(&selector).map(|element| element.value().attr(attr).map(|h| h.to_string())).collect())
}

/// For each `a` element of the page `text`, in the order that
/// [`selected_attrs`] gives, its `href` attribute if it has one (none at
/// all where `a` were not a selector).
pub open spec fn anchor_hrefs(text: Seq<char>) -> Seq<Option<Seq<char>>> {
    match selected_attrs(text, "a"@, "href"@) {
        Some(hrefs) => hrefs,
        None => Seq::empty(),
    }
}

/// The links of a page, in order: the `href` values that are URLs.
pub open spec fn parsed_links(hrefs: Seq<Option<Seq<char>>>) -> Seq<Seq<char>>
    decreases hrefs.len(),
{
    if hrefs.len() == 0 {
        Seq::empty()
    } else {
        let rest = parsed_links(hrefs.drop_last());
        match hrefs.last() {
            Some(h) => if url_parses(h) {
                rest.push(h)
            } else {
                rest
            },
            None => rest,
        }
    }
}

/// The links of a page keep exactly the `href` values that parse as URLs,
/// whatever their scheme or host, in order: no anchor gives none, one
/// more anchor adds its `href` at the end where it parses, and nothing
/// otherwise.
pub proof fn lemma_links_are_the_parsing_hrefs(hrefs: Seq<Option<Seq<char>>>, h: Seq<char>)
    ensures
        parsed_links(Seq::<Option<Seq<char>>>::empty()) == Seq::<Seq<char>>::empty(),
        url_parses(h) ==> parsed_links(hrefs.push(Some(h))) == parsed_links(hrefs).push(h),
        !url_parses(h) ==> parsed_links(hrefs.push(Some(h))) == parsed_links(hrefs),
        parsed_links(hrefs.push(None)) == parsed_links(hrefs),
{
    assert(hrefs.push(Some(h)).drop_last() =~= hrefs);
    assert(hrefs.push(None::<Seq<char>>).drop_last() =~= hrefs);
}

/// Whether an anchor's `href` is present and parses as a URL.
pub open spec fn href_parses(o: Option<Seq<char>>) -> bool {
    o is Some && url_parses(o->Some_0)
}

/// Every link of a page is the text of one of its `href` values and parses
/// as a URL; and there are as many links as `href` values that parse.
pub proof fn lemma_links_are_parsing_hrefs_in_order(hrefs: Seq<Option<Seq<char>>>)
    ensures
        forall|j: int| 0 <= j < parsed_links(hrefs).len() ==> url_parses(#[trigger] parsed_links(hrefs)[j])
            && hrefs.contains(Some(parsed_links(hrefs)[j])),
        parsed_links(hrefs).len() == hrefs.filter(|o: Option<Seq<char>>| href_parses(o)).len(),
    decreases hrefs.len(),
{
    if hrefs.len() > 0 {
        let rest = hrefs.drop_last();
        lemma_links_are_parsing_hrefs_in_order(rest);
        assert(rest.push(hrefs.last()) =~= hrefs);
        rest.lemma_filter_push(hrefs.last(), |o: Option<Seq<char>>| href_parses(o));
        assert forall|j: int| 0 <= j < parsed_links(hrefs).len() implies url_parses(#[trigger] parsed_links(hrefs)[j])
            && hrefs.contains(Some(parsed_links(hrefs)[j])) by {
            if j < parsed_links(rest).len() {
                let k = choose|k: int| 0 <= k < rest.len() && rest[k] == Some(parsed_links(rest)[j]);
                assert(hrefs[k] == rest[k]);
            } else {
                assert(hrefs[hrefs.len() - 1] == hrefs.last());
            }
        }
    } else {
        assert(hrefs.filter(|o: Option<Seq<char>>| href_parses(o)) =~= Seq::<Option<Seq<char>>>::empty());
    }
}

/// The links found on the page at `url_of_resp` whose text is `text`: for
/// each `a` element whose `href` is a URL, in the order of
/// [`anchor_hrefs`], that URL,
/// parsed (its serialization and domain are those of the `href`'s text);
/// anchors without `href`, or whose `href` is not a URL (a relative one
/// among them), give none.
pub fn scrape(text: &String, url_of_resp: Arc<Url>) -> (r: Result<(Arc<Url>, Vec<Arc<WebUrl>>), NetError>)
    ensures
        r is Ok,
        r->Ok_0.0 == url_of_resp,
        r->Ok_0.1@.len() == parsed_links(anchor_hrefs(text@)).len(),
        forall|i: int|
            0 <= i < r->Ok_0.1@.len() ==> (#[trigger] r->Ok_0.1@[i]).url() == url_parsed(
                parsed_links(anchor_hrefs(text@))[i],
            ) && r->Ok_0.1@[i].text() == url_serialized(parsed_links(anchor_hrefs(text@))[i])
                && r->Ok_0.1@[i].domain() == url_domain_of(parsed_links(anchor_hrefs(text@))[i]),
{
    let hrefs: Vec<Option<String>> = match scraper_select_attr(text.as_str(), "a", "href") {
        Some(v) => v,
        None => Vec::new(),
    };
    proof {
        assert(opt_texts(hrefs@) =~= anchor_hrefs(text@));
    }
    let mut links: Vec<Arc<WebUrl>> = Vec::new();
    let mut i: usize = 0;
    while i < hrefs.len()
        invariant
            i <= hrefs@.len(),
            hrefs@.len() == anchor_hrefs(text@).len(),
            forall|k: int| 0 <= k < hrefs@.len() ==> #[trigger] opt_text(hrefs@[k]) == anchor_hrefs(text@)[k],
            links@.len() == parsed_links(anchor_hrefs(text@).subrange(0, i as int)).len(),
            forall|j: int|
                0 <= j < links@.len() ==> (#[trigger] links@[j]).url() == url_parsed(
                    parsed_links(anchor_hrefs(text@).subrange(0, i as int))[j],
                ) && links@[j].text() == url_serialized(
                    parsed_links(anchor_hrefs(text@).subrange(0, i as int))[j],
                ) && links@[j].domain() == url_domain_of(
                    parsed_links(anchor_hrefs(text@).subrange(0, i as int))[j],
                ),
        decreases hrefs@.len() - i,
    {
        let ghost all = anchor_hrefs(text@);
        let ghost before = parsed_links(all.subrange(0, i as int));
        proof {
            assert(all.subrange(0, i + 1).drop_last() =~= all.subrange(0, i as int));
            assert(all.subrange(0, i + 1).last() == all[i as int]);
            assert(opt_text(hrefs@[i as int]) == all[i as int]);
        }
        match &hrefs[i] {
            Some(href) => {
                match WebUrl::parse(href.as_str()) {
                    Ok(link) => {
                        links.push(Arc::new(link));
                        proof {
                            assert(parsed_links(all.subrange(0, i + 1)) == before.push(href@));
                        }
                    },
                    Err(_) => {},
                }
            },
            None => {},
        }
        i = i + 1;
    }
    proof {
        assert(anchor_hrefs(text@).subrange(0, hrefs@.len() as int) =~= anchor_hrefs(text@));
    }
    Ok((url_of_resp, links))
}

} // verus!
