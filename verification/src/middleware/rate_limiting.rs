//! A limit on the number of requests that one client address may make within a sliding
//! window of time.

use std::collections::HashMap;
use vstd::prelude::*;
use vstd::string::StringExecFns;

use crate::text::{
    chars_of, optional_str, parse_unsigned, parsed_unsigned, parts_view, split, split_chars,
    string_of, trim, trimmed,
};

verus! {

broadcast use vstd::std_specs::hash::group_hash_axioms;

/// The address of a client: the 32 bits of an IPv4 address or the 128 bits of an IPv6 address.
#[derive(Debug, Clone, Copy, PartialEq, Eq, Structural)]
pub enum ClientAddress {
    V4(u32),
    V6(u128),
}

/// The status that is answered to a client that is over its limit.
pub const TOO_MANY_REQUESTS: u16 = 429;

/// The seconds after which a client that is over its limit is asked to come back.
pub const RETRY_AFTER_SECONDS: u64 = 60;

/// The limit that applies where none is configured.
pub const DEFAULT_REQUESTS_PER_MINUTE: usize = 60;

/// The requests that each client address made within the window, the limit, and the
/// length of the window.
pub struct RateLimiter {
    v4: HashMap<u32, Vec<u64>>,
    v6: HashMap<u128, Vec<u64>>,
    max_requests: usize,
    window: u64,
}

/// Those of the times `times` that lie less than `window` before `now`, in their order.
pub open spec fn recent(times: Seq<u64>, now: u64, window: u64) -> Seq<u64>
    decreases times.len(),
{
    if times.len() == 0 {
        Seq::empty()
    } else if times.last() + window > now {
        recent(times.drop_last(), now, window).push(times.last())
    } else {
        recent(times.drop_last(), now, window)
    }
}

/// The times of the requests that `requests` records for `address`.
pub open spec fn seen(requests: Map<ClientAddress, Seq<u64>>, address: ClientAddress) -> Seq<u64> {
    if requests.contains_key(address) {
        requests[address]
    } else {
        Seq::empty()
    }
}

/// Whether a client whose earlier requests were made at the times `times` may make one
/// more at the time `now`: fewer than `max_requests` of them lie within the window.
pub open spec fn within_limit(times: Seq<u64>, now: u64, window: u64, max_requests: usize) -> bool {
    recent(times, now, window).len() < max_requests
}

/// The times that are recorded for a client after it asked to make a request at the time
/// `now`: those within the window, and `now` itself if the request was let through.
pub open spec fn recorded(times: Seq<u64>, now: u64, window: u64, max_requests: usize) -> Seq<u64> {
    if within_limit(times, now, window, max_requests) {
        recent(times, now, window).push(now)
    } else {
        recent(times, now, window)
    }
}

/// Those of the times `times` that lie less than `window` before `now`, in their order.
pub fn retain_recent(times: &Vec<u64>, now: u64, window: u64) -> (kept: Vec<u64>)
    ensures
        kept@ == recent(times@, now, window),
{
    let mut kept: Vec<u64> = Vec::new();
    let mut i: usize = 0;
    while i < times.len()
        invariant
            i <= times.len(),
            kept@ == recent(times@.take(i as int), now, window),
        decreases times.len() - i,
    {
        proof {
            assert(times@.take(i + 1).drop_last() =~= times@.take(i as int));
        }
        let t = times[i];
        if t > now || now - t < window {
            kept.push(t);
        }
        i += 1;
    }
    assert(times@.take(times.len() as int) =~= times@);
    kept
}

impl View for RateLimiter {
    type V = Map<ClientAddress, Seq<u64>>;

    closed spec fn view(&self) -> Map<ClientAddress, Seq<u64>> {
        Map::new(
            |a: ClientAddress|
                match a {
                    ClientAddress::V4(bits) => self.v4@.contains_key(bits),
                    ClientAddress::V6(bits) => self.v6@.contains_key(bits),
                },
            |a: ClientAddress|
                match a {
                    ClientAddress::V4(bits) => self.v4@[bits]@,
                    ClientAddress::V6(bits) => self.v6@[bits]@,
                },
        )
    }
}

impl RateLimiter {
    /// The number of requests that a client may make within one window.
    pub closed spec fn max_requests(&self) -> usize {
        self.max_requests
    }

    /// The length of the window, in milliseconds.
    pub closed spec fn window(&self) -> u64 {
        self.window
    }

    /// A limiter that lets each client make `max_requests` requests within any `window`
    /// milliseconds. It starts out without a record of any request.
    pub fn new(max_requests: usize, window: u64) -> (r: Self)
        ensures
            r@ == Map::<ClientAddress, Seq<u64>>::empty(),
            r.max_requests() == max_requests,
            r.window() == window,
    {
        let r = RateLimiter { v4: HashMap::new(), v6: HashMap::new(), max_requests, window };
        r
    }

    /// Decides whether the client at `ip` may make a request at the time `now`, and
    /// records the request if it may. Requests that have left the window are forgotten.
    pub fn check_rate_limit(&mut self, ip: ClientAddress, now: u64) -> (r: bool)
        ensures
            final(self).max_requests() == old(self).max_requests(),
            final(self).window() == old(self).window(),
            r == within_limit(seen(old(self)@, ip), now, old(self).window(), old(self).max_requests()),
            final(self)@ == old(self)@.insert(
                ip,
                recorded(seen(old(self)@, ip), now, old(self).window(), old(self).max_requests()),
            ),
    {
        let earlier: Vec<u64> = match ip {
            ClientAddress::V4(bits) => match self.v4.remove(&bits) {
                Some(times) => times,
                None => Vec::new(),
            },
            ClientAddress::V6(bits) => match self.v6.remove(&bits) {
                Some(times) => times,
                None => Vec::new(),
            },
        };
        let mut times = retain_recent(&earlier, now, self.window);
        let allowed = times.len() < self.max_requests;
        if allowed {
            times.push(now);
        }
        match ip {
            ClientAddress::V4(bits) => {
                self.v4.insert(bits, times);
            },
            ClientAddress::V6(bits) => {
                self.v6.insert(bits, times);
            },
        }
        allowed
    }
}

/// Every time that is kept lies less than a window before `now`, and the times that are
/// kept are no more than there were.
pub proof fn lemma_recent_is_within_window(times: Seq<u64>, now: u64, window: u64)
    ensures
        recent(times, now, window).len() <= times.len(),
        forall|i: int|
            0 <= i < recent(times, now, window).len() ==> #[trigger] recent(times, now, window)[i]
                + window > now,
    decreases times.len(),
{
    if times.len() > 0 {
        lemma_recent_is_within_window(times.drop_last(), now, window);
    }
}

/// A client is never recorded with more requests than the limit allows, if it was not before.
pub proof fn lemma_recorded_within_limit(times: Seq<u64>, now: u64, window: u64, max_requests: usize)
    requires
        times.len() <= max_requests,
    ensures
        recorded(times, now, window, max_requests).len() <= max_requests,
{
    lemma_recent_is_within_window(times, now, window);
}

/// The address that a forwarding header names: the first of its comma-separated entries,
/// without the white space around it.
pub open spec fn forwarded_address(header: Seq<char>) -> Seq<char> {
    trim(split(header, ',')[0])
}

/// The address that a forwarding header names, as text.
pub fn forwarded_address_text(header: &str) -> (r: String)
    ensures
        r@ == forwarded_address(header@),
{
    let chars = chars_of(header);
    let parts = split_chars(chars.as_slice(), ',');
    let first = trimmed(parts[0].as_slice());
    string_of(first.as_slice())
}

/// The addresses that the forwarding headers of a request name, in the order in which
/// they are believed: `x-forwarded-for`, `x-real-ip`, `cf-connecting-ip`.
pub open spec fn forwarded_addresses(
    x_forwarded_for: Option<Seq<char>>,
    x_real_ip: Option<Seq<char>>,
    cf_connecting_ip: Option<Seq<char>>,
) -> Seq<Seq<char>> {
    (match x_forwarded_for {
        Some(header) => seq![forwarded_address(header)],
        None => Seq::empty(),
    }) + (match x_real_ip {
        Some(header) => seq![forwarded_address(header)],
        None => Seq::empty(),
    }) + (match cf_connecting_ip {
        Some(header) => seq![forwarded_address(header)],
        None => Seq::empty(),
    })
}

/// The addresses that the forwarding headers of a request name, as text. The client is
/// taken to be at the first of them that is an address.
pub fn get_client_ip(
    x_forwarded_for: Option<&str>,
    x_real_ip: Option<&str>,
    cf_connecting_ip: Option<&str>,
) -> (r: Vec<String>)
    ensures
        crate::text::texts(r@) == forwarded_addresses(
            optional_str(x_forwarded_for),
            optional_str(x_real_ip),
            optional_str(cf_connecting_ip),
        ),
{
    let mut candidates: Vec<String> = Vec::new();
    match x_forwarded_for {
        Some(header) => candidates.push(forwarded_address_text(header)),
        None => {},
    }
    match x_real_ip {
        Some(header) => candidates.push(forwarded_address_text(header)),
        None => {},
    }
    match cf_connecting_ip {
        Some(header) => candidates.push(forwarded_address_text(header)),
        None => {},
    }
    candidates
}

/// The bits of the IPv4 address of the machine itself, 127.0.0.1, which stands in for a
/// client that names no address.
pub const LOCAL_ADDRESS: u32 = 0x7f00_0001;

/// The address of the client where `candidates` holds, for each address that the
/// forwarding headers name, what it reads as, if it reads as an address at all: the
/// first that does, and the machine's own address where none does.
pub open spec fn client_address(candidates: Seq<Option<ClientAddress>>) -> ClientAddress
    decreases candidates.len(),
{
    if candidates.len() == 0 {
        ClientAddress::V4(LOCAL_ADDRESS)
    } else {
        match candidates[0] {
            Some(address) => address,
            None => client_address(candidates.drop_first()),
        }
    }
}

/// The address of the client, from what the named addresses read as.
pub fn choose_client_address(candidates: &Vec<Option<ClientAddress>>) -> (r: ClientAddress)
    ensures
        r == client_address(candidates@),
{
    let mut i: usize = 0;
    assert(candidates@.skip(0) == candidates@);
    while i < candidates.len()
        invariant
            i <= candidates.len(),
            client_address(candidates@) == client_address(candidates@.skip(i as int)),
        decreases candidates.len() - i,
    {
        match candidates[i] {
            Some(address) => {
                return address;
            },
            None => {
                assert(candidates@.skip(i as int).drop_first() == candidates@.skip(i + 1));
            },
        }
        i += 1;
    }
    ClientAddress::V4(LOCAL_ADDRESS)
}

/// The limit that the setting `configured` asks for: the number it holds, and the default
/// where it is not set or holds no number that fits.
pub open spec fn requests_per_minute(configured: Option<Seq<char>>) -> usize {
    match configured {
        Some(text) => match parsed_unsigned(text, usize::MAX as u64) {
            Some(n) => n as usize,
            None => DEFAULT_REQUESTS_PER_MINUTE,
        },
        None => DEFAULT_REQUESTS_PER_MINUTE,
    }
}

/// The limit that the setting `configured` asks for.
pub fn configured_limit(configured: Option<&str>) -> (r: usize)
    ensures
        r == requests_per_minute(optional_str(configured)),
{
    match configured {
        Some(text) => match parse_unsigned(text, usize::MAX as u64) {
            Some(n) => n as usize,
            None => DEFAULT_REQUESTS_PER_MINUTE,
        },
        None => DEFAULT_REQUESTS_PER_MINUTE,
    }
}

/// The answer to a client that is over its limit.
#[derive(Debug)]
pub struct RateLimitRejection {
    pub status: u16,
    pub body: String,
    pub retry_after_seconds: u64,
}

/// The window over which requests are counted, in milliseconds.
pub const WINDOW_MILLISECONDS: u64 = 60000;

/// A limiter for the limit that the setting `configured` asks for, over a window of one
/// minute. It starts out without a record of any request, and is meant to be kept for as
/// long as the service runs.
pub fn configured_limiter(configured: Option<&str>) -> (r: RateLimiter)
    ensures
        r@ == Map::<ClientAddress, Seq<u64>>::empty(),
        r.max_requests() == requests_per_minute(optional_str(configured)),
        r.window() == WINDOW_MILLISECONDS,
{
    RateLimiter::new(configured_limit(configured), WINDOW_MILLISECONDS)
}

/// Decides whether a request from `ip` at the time `now`, in milliseconds, goes on to its
/// handler: it does, and is recorded in `limiter`, unless the client has already made as
/// many requests within the window as the limit allows. A request that is turned down is
/// answered with 429 and is not recorded.
pub fn rate_limiting_middleware(limiter: &mut RateLimiter, ip: ClientAddress, now: u64) -> (r:
    Option<RateLimitRejection>)
    ensures
        final(limiter).max_requests() == old(limiter).max_requests(),
        final(limiter).window() == old(limiter).window(),
        r is None <==> within_limit(
            seen(old(limiter)@, ip),
            now,
            old(limiter).window(),
            old(limiter).max_requests(),
        ),
        final(limiter)@ == old(limiter)@.insert(
            ip,
            recorded(seen(old(limiter)@, ip), now, old(limiter).window(), old(limiter).max_requests()),
        ),
        r matches Some(rejection) ==> rejection.status == TOO_MANY_REQUESTS && rejection.body@
            == "Rate limit exceeded"@ && rejection.retry_after_seconds == RETRY_AFTER_SECONDS,
{
    if limiter.check_rate_limit(ip, now) {
        None
    } else {
        Some(
            RateLimitRejection {
                status: TOO_MANY_REQUESTS,
                body: String::from_str("Rate limit exceeded"),
                retry_after_seconds: RETRY_AFTER_SECONDS,
            },
        )
    }
}

/// Times that all lie within the window are all kept.
pub proof fn lemma_recent_keeps_all(times: Seq<u64>, now: u64, window: u64)
    requires
        forall|i: int| 0 <= i < times.len() ==> #[trigger] times[i] + window > now,
    ensures
        recent(times, now, window) == times,
    decreases times.len(),
{
    if times.len() > 0 {
        lemma_recent_keeps_all(times.drop_last(), now, window);
        assert(times.drop_last().push(times.last()) == times);
    }
}

/// A client that has made as many requests within the window as the limit allows is
/// turned down, and its record stays as it is.
pub proof fn lemma_limit_reached_turns_down(
    times: Seq<u64>,
    now: u64,
    window: u64,
    max_requests: usize,
)
    requires
        times.len() >= max_requests,
        forall|i: int| 0 <= i < times.len() ==> #[trigger] times[i] + window > now,
    ensures
        !within_limit(times, now, window, max_requests),
        recorded(times, now, window, max_requests) == times,
{
    lemma_recent_keeps_all(times, now, window);
}

} // verus!
