//! Browser fingerprint randomization and canvas fingerprinting protection.
use vstd::prelude::*;
use rand::Rng;

verus! {

pub const USER_AGENT_COUNT: usize = 5;
pub const LANGUAGE_COUNT: usize = 3;
pub const RESOLUTION_COUNT: usize = 5;
pub const TIMEZONE_COUNT: usize = 4;

/// The `i`-th user agent of the catalog.
pub open spec fn user_agent_choice(i: int) -> Seq<char> {
    if i == 0 {
        "Mozilla/5.0 (Windows NT 10.0; Win64; x64) AppleWebKit/537.36 (KHTML, like Gecko) Chrome/120.0.0.0 Safari/537.36"@
    } else if i == 1 {
        "Mozilla/5.0 (Macintosh; Intel Mac OS X 10_15_7) AppleWebKit/537.36 (KHTML, like Gecko) Chrome/120.0.0.0 Safari/537.36"@
    } else if i == 2 {
        "Mozilla/5.0 (X11; Linux x86_64) AppleWebKit/537.36 (KHTML, like Gecko) Chrome/120.0.0.0 Safari/537.36"@
    } else if i == 3 {
        "Mozilla/5.0 (Windows NT 10.0; Win64; x64; rv:121.0) Gecko/20100101 Firefox/121.0"@
    } else {
        "Mozilla/5.0 (Macintosh; Intel Mac OS X 10.15; rv:121.0) Gecko/20100101 Firefox/121.0"@
    }
}

/// The `i`-th accepted-language list of the catalog.
pub open spec fn language_choice(i: int) -> Seq<char> {
    if i == 0 {
        "en-US,en;q=0.9"@
    } else if i == 1 {
        "en-GB,en;q=0.9"@
    } else {
        "en-US,en;q=0.5"@
    }
}

/// The `i`-th screen resolution of the catalog.
pub open spec fn resolution_choice(i: int) -> Seq<char> {
    if i == 0 {
        "1920x1080"@
    } else if i == 1 {
        "2560x1440"@
    } else if i == 2 {
        "1366x768"@
    } else if i == 3 {
        "1536x864"@
    } else {
        "3840x2160"@
    }
}

/// The `i`-th time zone of the catalog.
pub open spec fn timezone_choice(i: int) -> Seq<char> {
    if i == 0 {
        "America/New_York"@
    } else if i == 1 {
        "America/Los_Angeles"@
    } else if i == 2 {
        "Europe/London"@
    } else {
        "Europe/Paris"@
    }
}

fn user_agent_at(i: usize) -> (r: &'static str)
    requires
        i < USER_AGENT_COUNT,
    ensures
        r@ == user_agent_choice(i as int),
{
    match i {
        0 => "Mozilla/5.0 (Windows NT 10.0; Win64; x64) AppleWebKit/537.36 (KHTML, like Gecko) Chrome/120.0.0.0 Safari/537.36",
        1 => "Mozilla/5.0 (Macintosh; Intel Mac OS X 10_15_7) AppleWebKit/537.36 (KHTML, like Gecko) Chrome/120.0.0.0 Safari/537.36",
        2 => "Mozilla/5.0 (X11; Linux x86_64) AppleWebKit/537.36 (KHTML, like Gecko) Chrome/120.0.0.0 Safari/537.36",
        3 => "Mozilla/5.0 (Windows NT 10.0; Win64; x64; rv:121.0) Gecko/20100101 Firefox/121.0",
        _ => "Mozilla/5.0 (Macintosh; Intel Mac OS X 10.15; rv:121.0) Gecko/20100101 Firefox/121.0",
    }
}

fn language_at(i: usize) -> (r: &'static str)
    requires
        i < LANGUAGE_COUNT,
    ensures
        r@ == language_choice(i as int),
{
    match i {
        0 => "en-US,en;q=0.9",
        1 => "en-GB,en;q=0.9",
        _ => "en-US,en;q=0.5",
    }
}

fn resolution_at(i: usize) -> (r: &'static str)
    requires
        i < RESOLUTION_COUNT,
    ensures
        r@ == resolution_choice(i as int),
{
    match i {
        0 => "1920x1080",
        1 => "2560x1440",
        2 => "1366x768",
        3 => "1536x864",
        _ => "3840x2160",
    }
}

fn timezone_at(i: usize) -> (r: &'static str)
    requires
        i < TIMEZONE_COUNT,
    ensures
        r@ == timezone_choice(i as int),
{
    match i {
        0 => "America/New_York",
        1 => "America/Los_Angeles",
        2 => "Europe/London",
        _ => "Europe/Paris",
    }
}

/// Relies on rand's `thread_rng().gen_range(0..n)`: some index below `n`
/// (it panics only on an empty range, which `n > 0` excludes).
#[verifier::external_body]
pub(crate) fn random_index(n: usize) -> (r: usize)
    requires
        n > 0,
    ensures
        r < n,
{
    rand::thread_rng().gen_range(0..n)
}

/// Relies on rand's `thread_rng().gen_ratio`: true with the given odds (it
/// panics only when `denominator` is zero or below `numerator`).
#[verifier::external_body]
pub(crate) fn random_ratio(numerator: u32, denominator: u32) -> (r: bool)
    requires
        0 < denominator,
        numerator <= denominator,
{
    rand::thread_rng().gen_ratio(numerator, denominator)
}

/// The headers a browser shows to servers, chosen once per circuit.
#[derive(Debug)]
pub struct BrowserFingerprint {
    pub user_agent: String,
    pub accept_language: String,
    pub accept_encoding: String,
    pub screen_resolution: String,
    pub timezone: String,
    pub webgl_vendor: String,
    pub webgl_renderer: String,
}

impl BrowserFingerprint {
    /// Every part of the fingerprint comes from the catalogs.
    pub open spec fn from_catalog(&self) -> bool {
        &&& exists|i: int| 0 <= i < USER_AGENT_COUNT && self.user_agent@ == #[trigger] user_agent_choice(i)
        &&& exists|i: int| 0 <= i < LANGUAGE_COUNT && self.accept_language@ == #[trigger] language_choice(i)
        &&& self.accept_encoding@ == "gzip, deflate, br"@
        &&& exists|i: int| 0 <= i < RESOLUTION_COUNT && self.screen_resolution@ == #[trigger] resolution_choice(i)
        &&& exists|i: int| 0 <= i < TIMEZONE_COUNT && self.timezone@ == #[trigger] timezone_choice(i)
        &&& self.webgl_vendor@ == "Google Inc. (NVIDIA)"@
        &&& self.webgl_renderer@ == "ANGLE (NVIDIA, NVIDIA GeForce RTX 3070)"@
    }

    /// The fingerprint made of the chosen catalog entries.
    pub fn from_choices(ua: usize, lang: usize, res: usize, tz: usize) -> (r: Self)
        requires
            ua < USER_AGENT_COUNT,
            lang < LANGUAGE_COUNT,
            res < RESOLUTION_COUNT,
            tz < TIMEZONE_COUNT,
        ensures
            r.user_agent@ == user_agent_choice(ua as int),
            r.accept_language@ == language_choice(lang as int),
            r.screen_resolution@ == resolution_choice(res as int),
            r.timezone@ == timezone_choice(tz as int),
            r.accept_encoding@ == "gzip, deflate, br"@,
            r.webgl_vendor@ == "Google Inc. (NVIDIA)"@,
            r.webgl_renderer@ == "ANGLE (NVIDIA, NVIDIA GeForce RTX 3070)"@,
            r.from_catalog(),
    {
        BrowserFingerprint {
            user_agent: String::from_str(user_agent_at(ua)),
            accept_language: String::from_str(language_at(lang)),
            accept_encoding: String::from_str("gzip, deflate, br"),
            screen_resolution: String::from_str(resolution_at(res)),
            timezone: String::from_str(timezone_at(tz)),
            webgl_vendor: String::from_str("Google Inc. (NVIDIA)"),
            webgl_renderer: String::from_str("ANGLE (NVIDIA, NVIDIA GeForce RTX 3070)"),
        }
    }

    /// A fingerprint drawn at random from the catalogs: each part is the entry
    /// at an index the random draw picked.
    pub fn random() -> (r: Self)
        ensures
            r.from_catalog(),
    {
        let ua = random_index(USER_AGENT_COUNT);
        let lang = random_index(LANGUAGE_COUNT);
        let res = random_index(RESOLUTION_COUNT);
        let tz = random_index(TIMEZONE_COUNT);
        BrowserFingerprint::from_choices(ua, lang, res, tz)
    }

    /// The request headers this fingerprint sets, as (name, value) pairs.
    pub fn header_pairs(&self) -> (r: Vec<(&'static str, String)>)
        ensures
            r@.len() == 3,
            r@[0].0@ == "User-Agent"@ && r@[0].1@ == self.user_agent@,
            r@[1].0@ == "Accept-Language"@ && r@[1].1@ == self.accept_language@,
            r@[2].0@ == "Accept-Encoding"@ && r@[2].1@ == self.accept_encoding@,
    {
        let mut r: Vec<(&'static str, String)> = Vec::new();
        r.push(("User-Agent", self.user_agent.clone()));
        r.push(("Accept-Language", self.accept_language.clone()));
        r.push(("Accept-Encoding", self.accept_encoding.clone()));
        r
    }
}

/// Script injected into pages to poison canvas fingerprinting.
pub const CANVAS_GUARD_SCRIPT: &'static str = r#"
<script>
(function() {
    'use strict';
    
    // Poison canvas fingerprinting
    const originalToDataURL = HTMLCanvasElement.prototype.toDataURL;
    const originalGetImageData = CanvasRenderingContext2D.prototype.getImageData;
    
    // Add noise to canvas data
    function addNoise(imageData) {
        const data = imageData.data;
        for (let i = 0; i < data.length; i += 4) {
            if (Math.random() < 0.01) {
                data[i] = (data[i] + (Math.random() > 0.5 ? 1 : -1)) & 0xff;
            }
        }
        return imageData;
    }
    
    // Override toDataURL
    HTMLCanvasElement.prototype.toDataURL = function() {
        const context = this.getContext('2d');
        if (context) {
            const imageData = context.getImageData(0, 0, this.width, this.height);
            addNoise(imageData);
            context.putImageData(imageData, 0, 0);
        }
        return originalToDataURL.apply(this, arguments);
    };
    
    // Override getImageData
    CanvasRenderingContext2D.prototype.getImageData = function() {
        const imageData = originalGetImageData.apply(this, arguments);
        return addNoise(imageData);
    };
    
    console.log('🛡️ Canvas fingerprinting protection active');
})();
</script>
"#;

/// A value that canvas noise may leave in place of `old`: unchanged, or one
/// step up or down (saturating at the ends of the byte range).
pub open spec fn noisy_value(old: u8, new: u8) -> bool {
    new == old || new as int == old as int + 1 || new as int == old as int - 1
}

/// What canvas noise does to one byte.
#[derive(Clone, Copy, Debug, PartialEq, Eq, Structural)]
pub enum Nudge {
    Keep,
    Up,
    Down,
}

/// The byte after a nudge; the ends of the byte range are not crossed.
pub open spec fn nudged(v: u8, n: Nudge) -> u8 {
    match n {
        Nudge::Keep => v,
        Nudge::Up => if v < 255 { (v + 1) as u8 } else { 255 },
        Nudge::Down => if v > 0 { (v - 1) as u8 } else { 0 },
    }
}

/// Canvas fingerprinting protection.
#[derive(Clone, Copy, Debug)]
pub struct CanvasProtection {
    pub enabled: bool,
}

impl CanvasProtection {
    pub fn new(enabled: bool) -> (r: Self)
        ensures
            r.enabled == enabled,
    {
        CanvasProtection { enabled }
    }

    /// Applies one nudge per byte at the positions divisible by four; every
    /// other byte, and every nudge elsewhere, is left alone.
    pub fn apply_noise(data: &mut [u8], nudges: &[Nudge])
        requires
            nudges@.len() == old(data)@.len(),
        ensures
            final(data)@.len() == old(data)@.len(),
            forall|i: int|
                0 <= i < old(data)@.len() ==> #[trigger] final(data)@[i] == if i % 4 == 0 {
                    nudged(old(data)@[i], nudges@[i])
                } else {
                    old(data)@[i]
                },
    {
        let n = data.len();
        let mut i: usize = 0;
        while i < n
            invariant
                n == data@.len(),
                data@.len() == old(data)@.len(),
                nudges@.len() == n,
                i % 4 == 0 || i >= n,
                forall|k: int| i <= k < n ==> #[trigger] data@[k] == old(data)@[k],
                forall|k: int|
                    0 <= k < i && k < n ==> #[trigger] data@[k] == if k % 4 == 0 {
                        nudged(old(data)@[k], nudges@[k])
                    } else {
                        old(data)@[k]
                    },
            decreases n - i,
        {
            let v = data[i];
            data[i] = match nudges[i] {
                Nudge::Keep => v,
                Nudge::Up => v.saturating_add(1),
                Nudge::Down => v.saturating_sub(1),
            };
            if n - i <= 4 {
                i = n;
            } else {
                i = i + 4;
            }
        }
    }

    /// Nudges about one in a hundred of the bytes at positions divisible by four
    /// one step up or down, saturating; every other byte stays as it was.
    pub fn add_noise(data: &mut [u8])
        ensures
            final(data)@.len() == old(data)@.len(),
            forall|i: int| 0 <= i < old(data)@.len() && i % 4 != 0 ==> #[trigger] final(data)@[i] == old(data)@[i],
            forall|i: int| 0 <= i < old(data)@.len() && i % 4 == 0 ==> noisy_value(old(data)@[i], #[trigger] final(data)@[i]),
    {
        let n = data.len();
        let mut nudges: Vec<Nudge> = Vec::new();
        let mut i: usize = 0;
        while i < n
            invariant
                n == data@.len(),
                nudges@.len() == i,
                i <= n,
            decreases n - i,
        {
            let nudge = if i % 4 != 0 || !random_ratio(1, 100) {
                Nudge::Keep
            } else if random_ratio(1, 2) {
                Nudge::Up
            } else {
                Nudge::Down
            };
            nudges.push(nudge);
            i = i + 1;
        }
        CanvasProtection::apply_noise(data, nudges.as_slice());
    }

    /// The script that poisons canvas reads, while protection is on.
    pub fn get_injection_script(&self) -> (r: Option<String>)
        ensures
            self.enabled ==> r is Some && r->Some_0@ == CANVAS_GUARD_SCRIPT@,
            !self.enabled ==> r is None,
    {
        if !self.enabled {
            return None;
        }
        Some(String::from_str(CANVAS_GUARD_SCRIPT))
    }

    pub fn is_enabled(&self) -> (r: bool)
        ensures
            r == self.enabled,
    {
        self.enabled
    }
}

} // verus!
