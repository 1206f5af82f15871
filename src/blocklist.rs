//! Tracker blocking: a fixed list of tracking domains, their subdomains, and a
//! few substrings that tracking hosts tend to carry.
use vstd::prelude::*;
use crate::text::{chars_occur_at, contains, lowercase, lowercase_of, occurs_at, str_contains, to_chars};

verus! {

/// Number of domains in the built-in blocklist.
pub const TRACKER_DOMAIN_COUNT: usize = 74;

/// The `i`-th domain of the built-in blocklist.
#[verifier::opaque]
pub open spec fn tracker_domain(i: int) -> Seq<char> {
    if i == 0 {
        "google-analytics.com"@
    } else if i == 1 {
        "googletagmanager.com"@
    } else if i == 2 {
        "doubleclick.net"@
    } else if i == 3 {
        "googlesyndication.com"@
    } else if i == 4 {
        "googleadservices.com"@
    } else if i == 5 {
        "2mdn.net"@
    } else if i == 6 {
        "googletagservices.com"@
    } else if i == 7 {
        "google.com/ads"@
    } else if i == 8 {
        "google.com/pagead"@
    } else if i == 9 {
        "facebook.com/tr"@
    } else if i == 10 {
        "facebook.net"@
    } else if i == 11 {
        "connect.facebook.net"@
    } else if i == 12 {
        "fbcdn.net"@
    } else if i == 13 {
        "facebook.com/plugins"@
    } else if i == 14 {
        "analytics.twitter.com"@
    } else if i == 15 {
        "ads-twitter.com"@
    } else if i == 16 {
        "ads-api.twitter.com"@
    } else if i == 17 {
        "static.ads-twitter.com"@
    } else if i == 18 {
        "ads.linkedin.com"@
    } else if i == 19 {
        "px.ads.linkedin.com"@
    } else if i == 20 {
        "analytics.pointdrive.linkedin.com"@
    } else if i == 21 {
        "analytics.tiktok.com"@
    } else if i == 22 {
        "ads.tiktok.com"@
    } else if i == 23 {
        "scorecardresearch.com"@
    } else if i == 24 {
        "quantserve.com"@
    } else if i == 25 {
        "omtrdc.net"@
    } else if i == 26 {
        "demdex.net"@
    } else if i == 27 {
        "2o7.net"@
    } else if i == 28 {
        "chartbeat.com"@
    } else if i == 29 {
        "chartbeat.net"@
    } else if i == 30 {
        "hotjar.com"@
    } else if i == 31 {
        "mouseflow.com"@
    } else if i == 32 {
        "crazyegg.com"@
    } else if i == 33 {
        "fullstory.com"@
    } else if i == 34 {
        "clarity.ms"@
    } else if i == 35 {
        "bing.com/fd"@
    } else if i == 36 {
        "bat.bing.com"@
    } else if i == 37 {
        "amazon-adsystem.com"@
    } else if i == 38 {
        "assoc-amazon.com"@
    } else if i == 39 {
        "advertising.com"@
    } else if i == 40 {
        "adnxs.com"@
    } else if i == 41 {
        "pubmatic.com"@
    } else if i == 42 {
        "rubiconproject.com"@
    } else if i == 43 {
        "openx.net"@
    } else if i == 44 {
        "casalemedia.com"@
    } else if i == 45 {
        "criteo.com"@
    } else if i == 46 {
        "criteo.net"@
    } else if i == 47 {
        "bidswitch.net"@
    } else if i == 48 {
        "taboola.com"@
    } else if i == 49 {
        "outbrain.com"@
    } else if i == 50 {
        "smartadserver.com"@
    } else if i == 51 {
        "adform.net"@
    } else if i == 52 {
        "serving-sys.com"@
    } else if i == 53 {
        "mathtag.com"@
    } else if i == 54 {
        "adsrvr.org"@
    } else if i == 55 {
        "bluekai.com"@
    } else if i == 56 {
        "krxd.net"@
    } else if i == 57 {
        "exelator.com"@
    } else if i == 58 {
        "mookie1.com"@
    } else if i == 59 {
        "addthis.com"@
    } else if i == 60 {
        "sharethis.com"@
    } else if i == 61 {
        "pixel.facebook.com"@
    } else if i == 62 {
        "analytics.google.com"@
    } else if i == 63 {
        "stats.g.doubleclick.net"@
    } else if i == 64 {
        "pagead2.googlesyndication.com"@
    } else if i == 65 {
        "cdn.segment.com"@
    } else if i == 66 {
        "cdn.segment.io"@
    } else if i == 67 {
        "api.segment.io"@
    } else if i == 68 {
        "mixpanel.com"@
    } else if i == 69 {
        "amplitude.com"@
    } else if i == 70 {
        "heap.io"@
    } else if i == 71 {
        "loggly.com"@
    } else if i == 72 {
        "bugsnag.com"@
    } else {
        "sentry.io"@
    }
}

fn tracker_domain_at(i: usize) -> (r: &'static str)
    requires
        i < TRACKER_DOMAIN_COUNT,
    ensures
        r@ == tracker_domain(i as int),
{
    reveal(tracker_domain);
    match i {
        0 => "google-analytics.com",
        1 => "googletagmanager.com",
        2 => "doubleclick.net",
        3 => "googlesyndication.com",
        4 => "googleadservices.com",
        5 => "2mdn.net",
        6 => "googletagservices.com",
        7 => "google.com/ads",
        8 => "google.com/pagead",
        9 => "facebook.com/tr",
        10 => "facebook.net",
        11 => "connect.facebook.net",
        12 => "fbcdn.net",
        13 => "facebook.com/plugins",
        14 => "analytics.twitter.com",
        15 => "ads-twitter.com",
        16 => "ads-api.twitter.com",
        17 => "static.ads-twitter.com",
        18 => "ads.linkedin.com",
        19 => "px.ads.linkedin.com",
        20 => "analytics.pointdrive.linkedin.com",
        21 => "analytics.tiktok.com",
        22 => "ads.tiktok.com",
        23 => "scorecardresearch.com",
        24 => "quantserve.com",
        25 => "omtrdc.net",
        26 => "demdex.net",
        27 => "2o7.net",
        28 => "chartbeat.com",
        29 => "chartbeat.net",
        30 => "hotjar.com",
        31 => "mouseflow.com",
        32 => "crazyegg.com",
        33 => "fullstory.com",
        34 => "clarity.ms",
        35 => "bing.com/fd",
        36 => "bat.bing.com",
        37 => "amazon-adsystem.com",
        38 => "assoc-amazon.com",
        39 => "advertising.com",
        40 => "adnxs.com",
        41 => "pubmatic.com",
        42 => "rubiconproject.com",
        43 => "openx.net",
        44 => "casalemedia.com",
        45 => "criteo.com",
        46 => "criteo.net",
        47 => "bidswitch.net",
        48 => "taboola.com",
        49 => "outbrain.com",
        50 => "smartadserver.com",
        51 => "adform.net",
        52 => "serving-sys.com",
        53 => "mathtag.com",
        54 => "adsrvr.org",
        55 => "bluekai.com",
        56 => "krxd.net",
        57 => "exelator.com",
        58 => "mookie1.com",
        59 => "addthis.com",
        60 => "sharethis.com",
        61 => "pixel.facebook.com",
        62 => "analytics.google.com",
        63 => "stats.g.doubleclick.net",
        64 => "pagead2.googlesyndication.com",
        65 => "cdn.segment.com",
        66 => "cdn.segment.io",
        67 => "api.segment.io",
        68 => "mixpanel.com",
        69 => "amplitude.com",
        70 => "heap.io",
        71 => "loggly.com",
        72 => "bugsnag.com",
        _ => "sentry.io",
    }
}

/// `d` is one of the built-in blocklist's domains.
pub open spec fn is_tracker_domain(d: Seq<char>) -> bool {
    exists|k: int| 0 <= k < TRACKER_DOMAIN_COUNT && d == #[trigger] tracker_domain(k)
}

/// Number of substrings that mark a host as a tracker.
pub const TRACKER_PATTERN_COUNT: usize = 6;

/// The `i`-th substring that marks a (lowercased) host as a tracker.
pub open spec fn tracker_pattern(i: int) -> Seq<char> {
    if i == 0 {
        "/tr"@
    } else if i == 1 {
        "analytics"@
    } else if i == 2 {
        "/ads"@
    } else if i == 3 {
        "doubleclick"@
    } else if i == 4 {
        "tracking"@
    } else {
        "pixel"@
    }
}

fn tracker_pattern_at(i: usize) -> (r: &'static str)
    requires
        i < TRACKER_PATTERN_COUNT,
    ensures
        r@ == tracker_pattern(i as int),
{
    match i {
        0 => "/tr",
        1 => "analytics",
        2 => "/ads",
        3 => "doubleclick",
        4 => "tracking",
        _ => "pixel",
    }
}

/// `text` holds one of the tracker substrings.
pub open spec fn has_tracker_pattern(text: Seq<char>) -> bool {
    exists|i: int| 0 <= i < TRACKER_PATTERN_COUNT && #[trigger] contains(text, tracker_pattern(i))
}

/// Position `i` of `host` starts a label: the host's start, or just after a dot.
pub open spec fn label_start(host: Seq<char>, i: int) -> bool {
    i == 0 || (0 < i <= host.len() && host[i - 1] == '.')
}

/// The part of `host` from position `i` on is the domain `d`.
pub open spec fn suffix_is(host: Seq<char>, d: Seq<char>, i: int) -> bool {
    occurs_at(host, d, i) && i + d.len() == host.len()
}

/// `host`, or one of its parent domains, is in `domains`.
pub open spec fn listed(domains: Seq<Seq<char>>, host: Seq<char>) -> bool {
    exists|i: int, k: int|
        label_start(host, i) && 0 <= k < domains.len() && #[trigger] suffix_is(host, domains[k], i)
}

/// A host matches the blocklist: it or a parent domain is listed, or its
/// lowercased form holds a tracker substring.
pub open spec fn tracker_match(domains: Seq<Seq<char>>, host: Seq<char>) -> bool {
    listed(domains, host) || has_tracker_pattern(lowercase_of(host))
}

fn same_chars(a: &Vec<char>, b: &Vec<char>) -> (r: bool)
    ensures
        r == (a@ == b@),
{
    if a.len() != b.len() {
        return false;
    }
    let r = chars_occur_at(a.as_slice(), b.as_slice(), 0);
    assert(a@.subrange(0, a@.len() as int) =~= a@);
    r
}

fn holds_domain(list: &Vec<Vec<char>>, d: &Vec<char>) -> (r: bool)
    ensures
        r == exists|m: int| 0 <= m < list@.len() && (#[trigger] list@[m])@ == d@,
{
    let mut m: usize = 0;
    while m < list.len()
        invariant
            forall|j: int| 0 <= j < m ==> (#[trigger] list@[j])@ != d@,
        decreases list.len() - m,
    {
        if same_chars(&list[m], d) {
            return true;
        }
        m = m + 1;
    }
    false
}

/// Whether an already lowercased host holds one of the tracker substrings.
pub fn matches_tracker_pattern(lower: &str) -> (r: bool)
    ensures
        r == has_tracker_pattern(lower@),
{
    let mut i: usize = 0;
    while i < TRACKER_PATTERN_COUNT
        invariant
            forall|k: int| 0 <= k < i ==> !contains(lower@, #[trigger] tracker_pattern(k)),
        decreases TRACKER_PATTERN_COUNT - i,
    {
        if str_contains(lower, tracker_pattern_at(i)) {
            assert(contains(lower@, tracker_pattern(i as int)));
            return true;
        }
        i = i + 1;
    }
    false
}

/// Blocks requests to known tracking and advertising hosts.
#[derive(Clone, Debug)]
pub struct TrackerBlocker {
    blocked_domains: Vec<Vec<char>>,
    blocked_count: u64,
}

impl TrackerBlocker {
    /// The listed domains.
    pub closed spec fn domains(&self) -> Seq<Seq<char>> {
        self.blocked_domains@.map_values(|d: Vec<char>| d@)
    }

    /// No domain is listed twice.
    pub open spec fn wf(&self) -> bool {
        forall|a: int, b: int| 0 <= a < b < self.domains().len() ==> self.domains()[a] != self.domains()[b]
    }

    /// How many hosts were blocked.
    pub closed spec fn blocked(&self) -> u64 {
        self.blocked_count
    }

    /// Whether `host` is blocked by this list.
    pub open spec fn blocks(&self, host: Seq<char>) -> bool {
        tracker_match(self.domains(), host)
    }

    /// A blocker holding the built-in list, with nothing blocked yet.
    pub fn new() -> (r: Self)
        ensures
            r.wf(),
            forall|k: int| 0 <= k < TRACKER_DOMAIN_COUNT ==> r.domains().contains(tracker_domain(k)),
            forall|m: int| 0 <= m < r.domains().len() ==> is_tracker_domain(#[trigger] r.domains()[m]),
            r.blocked() == 0,
    {
        let mut blocked_domains: Vec<Vec<char>> = Vec::new();
        let ghost mut origin: Seq<int> = Seq::empty();
        let mut i: usize = 0;
        while i < TRACKER_DOMAIN_COUNT
            invariant
                i <= TRACKER_DOMAIN_COUNT,
                blocked_domains@.len() <= i,
                forall|a: int, b: int|
                    0 <= a < b < blocked_domains@.len() ==> (#[trigger] blocked_domains@[a])@
                        != (#[trigger] blocked_domains@[b])@,
                forall|k: int|
                    #![trigger tracker_domain(k)]
                    0 <= k < i ==> exists|m: int|
                        0 <= m < blocked_domains@.len() && (#[trigger] blocked_domains@[m])@ == tracker_domain(k),
                origin.len() == blocked_domains@.len(),
                forall|m: int|
                    0 <= m < blocked_domains@.len() ==> 0 <= #[trigger] origin[m] < i
                        && blocked_domains@[m]@ == tracker_domain(origin[m]),
            decreases TRACKER_DOMAIN_COUNT - i,
        {
            let d = to_chars(tracker_domain_at(i));
            if !holds_domain(&blocked_domains, &d) {
                let ghost before = blocked_domains@;
                let ghost old_origin = origin;
                blocked_domains.push(d);
                proof {
                    origin = origin.push(i as int);
                }
                assert forall|m: int| 0 <= m < blocked_domains@.len() implies 0 <= #[trigger] origin[m] < i + 1
                    && blocked_domains@[m]@ == tracker_domain(origin[m]) by {
                    if m < before.len() {
                        assert(blocked_domains@[m] == before[m]);
                        assert(origin[m] == old_origin[m]);
                    }
                }
                assert forall|k: int| #![trigger tracker_domain(k)] 0 <= k < i + 1 implies exists|m: int|
                    0 <= m < blocked_domains@.len() && (#[trigger] blocked_domains@[m])@ == tracker_domain(k) by {
                    if k < i {
                        let m0 = choose|m: int| 0 <= m < before.len() && (#[trigger] before[m])@ == tracker_domain(k);
                        assert(blocked_domains@[m0] == before[m0]);
                    } else {
                        assert(blocked_domains@[before.len() as int]@ == tracker_domain(k));
                    }
                }
            }
            i = i + 1;
        }
        let r = TrackerBlocker { blocked_domains, blocked_count: 0 };
        assert forall|k: int| 0 <= k < TRACKER_DOMAIN_COUNT implies r.domains().contains(tracker_domain(k)) by {
            let m = choose|m: int| 0 <= m < r.blocked_domains@.len() && (#[trigger] r.blocked_domains@[m])@ == tracker_domain(k);
            assert(r.domains()[m] == tracker_domain(k));
        }
        assert forall|m: int| 0 <= m < r.domains().len() implies is_tracker_domain(#[trigger] r.domains()[m]) by {
            assert(r.domains()[m] == r.blocked_domains@[m]@);
            assert(0 <= origin[m] < TRACKER_DOMAIN_COUNT);
            assert(r.domains()[m] == tracker_domain(origin[m]));
        }
        r
    }

    /// Whether `host` or one of its parent domains is listed.
    pub fn is_listed(&self, host: &str) -> (r: bool)
        ensures
            r == listed(self.domains(), host@),
    {
        let h = to_chars(host);
        let n = h.len();
        let mut i: usize = 0;
        while i <= n
            invariant
                h@ == host@,
                n == h@.len(),
                forall|j: int, k: int|
                    0 <= j < i && label_start(host@, j) && 0 <= k < self.domains().len()
                        ==> !#[trigger] suffix_is(host@, self.domains()[k], j),
            decreases n + 1 - i,
        {
            if i == 0 || h[i - 1] == '.' {
                let mut k: usize = 0;
                while k < self.blocked_domains.len()
                    invariant
                        h@ == host@,
                        n == h@.len(),
                        i <= n,
                        label_start(host@, i as int),
                        forall|j: int, k2: int|
                            0 <= j < i && label_start(host@, j) && 0 <= k2 < self.domains().len()
                                ==> !#[trigger] suffix_is(host@, self.domains()[k2], j),
                        forall|k2: int| 0 <= k2 < k ==> !#[trigger] suffix_is(host@, self.domains()[k2], i as int),
                    decreases self.blocked_domains.len() - k,
                {
                    let d = &self.blocked_domains[k];
                    if d.len() == n - i && chars_occur_at(h.as_slice(), d.as_slice(), i) {
                        assert(suffix_is(host@, self.domains()[k as int], i as int));
                        return true;
                    }
                    k = k + 1;
                }
            }
            if i == n {
                assert forall|j: int, k: int|
                    label_start(host@, j) && 0 <= k < self.domains().len()
                        implies !#[trigger] suffix_is(host@, self.domains()[k], j) by {
                    if suffix_is(host@, self.domains()[k], j) {
                        assert(j <= n);
                    }
                }
                return false;
            }
            i = i + 1;
        }
        false
    }

    /// Whether `host` is blocked; each block is counted.
    pub fn should_block(&mut self, domain: &str) -> (r: bool)
        ensures
            r == old(self).blocks(domain@),
            final(self).domains() == old(self).domains(),
            final(self).blocked() == if r {
                old(self).blocked().saturating_add(1)
            } else {
                old(self).blocked()
            },
    {
        let found = if self.is_listed(domain) {
            true
        } else {
            let lower = lowercase(domain);
            matches_tracker_pattern(lower.as_str())
        };
        if found {
            self.blocked_count = self.blocked_count.saturating_add(1);
        }
        found
    }

    /// Number of domains in the list.
    pub fn blocklist_size(&self) -> (r: usize)
        ensures
            r == self.domains().len(),
    {
        self.blocked_domains.len()
    }

    /// Number of hosts blocked so far.
    pub fn total_blocked(&self) -> (r: u64)
        ensures
            r == self.blocked(),
    {
        self.blocked_count
    }
}

} // verus!
