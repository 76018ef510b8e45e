//! Bot-protection detection from the HTML of a response: Cloudflare,
//! Turnstile, reCAPTCHA, hCaptcha, Akamai, DataDome, PerimeterX and generic
//! WAF block pages, each found by the markers it leaves in the page.
use vstd::prelude::*;
use crate::text::{chars_of, contains_chars, has_sub};

verus! {

/// A kind of bot protection.
#[derive(Clone, Copy, Debug, PartialEq, Eq, Structural)]
pub enum ProtectionKind {
    Cloudflare,
    Turnstile,
    Recaptcha,
    Hcaptcha,
    Akamai,
    Datadome,
    Perimeterx,
    WafBlock,
}

/// How strongly a protection blocks automated clients.
#[derive(Clone, Copy, Debug, PartialEq, Eq, Structural)]
pub enum Severity {
    High,
    Medium,
}

/// One protection found on a page.
#[derive(Clone, Copy, Debug, PartialEq, Eq, Structural)]
pub struct Detection {
    pub kind: ProtectionKind,
    pub severity: Severity,
}

/// The overall protection level of a page.
#[derive(Clone, Copy, Debug, PartialEq, Eq, Structural)]
pub enum ProtectionLevel {
    High,
    Medium,
    Clear,
}

/// The result of analysing a page.
pub struct ProtectionReport {
    pub url: String,
    pub protection_level: ProtectionLevel,
    pub detections: Vec<Detection>,
}

/// The markers that reveal each kind of protection in a page.
pub open spec fn markers_of(kind: ProtectionKind) -> Seq<Seq<char>> {
    match kind {
        ProtectionKind::Cloudflare => seq!["cf-challenge-running"@, "cf-chl-widget"@, "__cf_chl_jschl_tk__"@, "cf-browser-verification"@, "cf_chl_opt"@, "challenge-platform"@, "Just a moment..."@],
        ProtectionKind::Turnstile => seq!["cf-turnstile"@, "challenges.cloudflare.com/turnstile"@],
        ProtectionKind::Recaptcha => seq!["g-recaptcha"@, "recaptcha/api.js"@, "grecaptcha.execute"@, "recaptcha-token"@],
        ProtectionKind::Hcaptcha => seq!["h-captcha"@, "hcaptcha.com/1/api.js"@, "hcaptcha-response"@],
        ProtectionKind::Akamai => seq!["_abck"@, "ak_bmsc"@, "bm_sz"@, "akamai"@],
        ProtectionKind::Datadome => seq!["datadome"@, "dd.js"@],
        ProtectionKind::Perimeterx => seq!["perimeterx"@, "px-captcha"@, "_pxhd"@],
        ProtectionKind::WafBlock => seq!["Access Denied"@, "403 Forbidden"@, "Request Blocked"@, "Sorry, you have been blocked"@, "Please verify you are a human"@, "Enable JavaScript and cookies to continue"@],
    }
}

/// Whether any of the markers of `kind` occurs in the page `h`.
pub open spec fn marker_found(h: Seq<char>, kind: ProtectionKind) -> bool {
    exists|i: int| 0 <= i < markers_of(kind).len() && has_sub(h, #[trigger] markers_of(kind)[i])
}

/// The severity that each kind of protection is reported with.
pub open spec fn severity_of(kind: ProtectionKind) -> Severity {
    match kind {
        ProtectionKind::Akamai | ProtectionKind::Datadome => Severity::Medium,
        _ => Severity::High,
    }
}

/// The kinds of protection, in the order in which they are checked.
pub open spec fn checked_kinds() -> Seq<ProtectionKind> {
    seq![
        ProtectionKind::Cloudflare,
        ProtectionKind::Turnstile,
        ProtectionKind::Recaptcha,
        ProtectionKind::Hcaptcha,
        ProtectionKind::Akamai,
        ProtectionKind::Datadome,
        ProtectionKind::Perimeterx,
        ProtectionKind::WafBlock,
    ]
}

/// The detections reported for the first `n` checked kinds on page `h`:
/// each kind whose markers occur, in checking order, with its severity.
pub open spec fn detections_upto(h: Seq<char>, n: nat) -> Seq<Detection>
    decreases n,
{
    if n == 0 {
        Seq::empty()
    } else {
        let prev = detections_upto(h, (n - 1) as nat);
        let kind = checked_kinds()[n - 1];
        if marker_found(h, kind) {
            prev.push(Detection { kind, severity: severity_of(kind) })
        } else {
            prev
        }
    }
}

/// The detections reported for page `h`.
pub open spec fn detections_of(h: Seq<char>) -> Seq<Detection> {
    detections_upto(h, 8)
}

/// The overall level given a list of detections: high when any detection
/// is high, medium when there are only medium ones, none when there are none.
pub open spec fn level_of(ds: Seq<Detection>) -> ProtectionLevel {
    if exists|i: int| 0 <= i < ds.len() && ds[i].severity == Severity::High {
        ProtectionLevel::High
    } else if ds.len() > 0 {
        ProtectionLevel::Medium
    } else {
        ProtectionLevel::Clear
    }
}

impl ProtectionKind {
    /// The name under which the kind is reported.
    pub fn name(&self) -> (r: &'static str)
        ensures
            r@ == kind_name(*self),
    {
        match self {
            ProtectionKind::Cloudflare => "cloudflare",
            ProtectionKind::Turnstile => "turnstile",
            ProtectionKind::Recaptcha => "recaptcha",
            ProtectionKind::Hcaptcha => "hcaptcha",
            ProtectionKind::Akamai => "akamai",
            ProtectionKind::Datadome => "datadome",
            ProtectionKind::Perimeterx => "perimeterx",
            ProtectionKind::WafBlock => "waf_block",
        }
    }
}

/// The report name of a protection kind.
pub open spec fn kind_name(k: ProtectionKind) -> Seq<char> {
    match k {
        ProtectionKind::Cloudflare => "cloudflare"@,
        ProtectionKind::Turnstile => "turnstile"@,
        ProtectionKind::Recaptcha => "recaptcha"@,
        ProtectionKind::Hcaptcha => "hcaptcha"@,
        ProtectionKind::Akamai => "akamai"@,
        ProtectionKind::Datadome => "datadome"@,
        ProtectionKind::Perimeterx => "perimeterx"@,
        ProtectionKind::WafBlock => "waf_block"@,
    }
}

impl Severity {
    /// The name under which the severity is reported.
    pub fn name(&self) -> (r: &'static str)
        ensures
            r@ == (match *self {
                Severity::High => "high"@,
                Severity::Medium => "medium"@,
            }),
    {
        match self {
            Severity::High => "high",
            Severity::Medium => "medium",
        }
    }
}

impl ProtectionLevel {
    /// The name under which the level is reported.
    pub fn name(&self) -> (r: &'static str)
        ensures
            r@ == level_name(*self),
    {
        match self {
            ProtectionLevel::High => "high",
            ProtectionLevel::Medium => "medium",
            ProtectionLevel::Clear => "none",
        }
    }

    /// The countermeasure recommended for the level.
    pub fn recommended_action(&self) -> (r: &'static str)
        ensures
            r@ == recommended_action_for(*self),
    {
        match self {
            ProtectionLevel::High => "stealth_high + proxy_rotation + delay",
            ProtectionLevel::Medium => "stealth_medium + user_agent_rotation",
            ProtectionLevel::Clear => "normal",
        }
    }
}

/// The report name of a protection level.
pub open spec fn level_name(l: ProtectionLevel) -> Seq<char> {
    match l {
        ProtectionLevel::High => "high"@,
        ProtectionLevel::Medium => "medium"@,
        ProtectionLevel::Clear => "none"@,
    }
}

/// The countermeasure recommended for a protection level.
pub open spec fn recommended_action_for(l: ProtectionLevel) -> Seq<char> {
    match l {
        ProtectionLevel::High => "stealth_high + proxy_rotation + delay"@,
        ProtectionLevel::Medium => "stealth_medium + user_agent_rotation"@,
        ProtectionLevel::Clear => "normal"@,
    }
}

fn any_marker(h: &[char], markers: &[&str]) -> (r: bool)
    ensures
        r == exists|i: int| 0 <= i < markers@.len() && has_sub(h@, markers@[i]@),
{
    let mut i: usize = 0;
    while i < markers.len()
        invariant
            i <= markers@.len(),
            forall|j: int| 0 <= j < i ==> !has_sub(h@, #[trigger] markers@[j]@),
        decreases markers@.len() - i,
    {
        let m = chars_of(markers[i]);
        if contains_chars(h, m.as_slice()) {
            return true;
        }
        i = i + 1;
    }
    false
}

/// The markers of `kind`.
fn markers(kind: ProtectionKind) -> (r: Vec<&'static str>)
    ensures
        r@.len() == markers_of(kind).len(),
        forall|i: int| 0 <= i < r@.len() ==> #[trigger] r@[i]@ == markers_of(kind)[i],
{
    match kind {
        ProtectionKind::Cloudflare => {
            let r = vec!["cf-challenge-running", "cf-chl-widget", "__cf_chl_jschl_tk__", "cf-browser-verification", "cf_chl_opt", "challenge-platform", "Just a moment..."];
            assert(r@.len() == markers_of(kind).len());
            r
        },
        ProtectionKind::Turnstile => {
            let r = vec!["cf-turnstile", "challenges.cloudflare.com/turnstile"];
            assert(r@.len() == markers_of(kind).len());
            r
        },
        ProtectionKind::Recaptcha => {
            let r = vec!["g-recaptcha", "recaptcha/api.js", "grecaptcha.execute", "recaptcha-token"];
            assert(r@.len() == markers_of(kind).len());
            r
        },
        ProtectionKind::Hcaptcha => {
            let r = vec!["h-captcha", "hcaptcha.com/1/api.js", "hcaptcha-response"];
            assert(r@.len() == markers_of(kind).len());
            r
        },
        ProtectionKind::Akamai => {
            let r = vec!["_abck", "ak_bmsc", "bm_sz", "akamai"];
            assert(r@.len() == markers_of(kind).len());
            r
        },
        ProtectionKind::Datadome => {
            let r = vec!["datadome", "dd.js"];
            assert(r@.len() == markers_of(kind).len());
            r
        },
        ProtectionKind::Perimeterx => {
            let r = vec!["perimeterx", "px-captcha", "_pxhd"];
            assert(r@.len() == markers_of(kind).len());
            r
        },
        ProtectionKind::WafBlock => {
            let r = vec!["Access Denied", "403 Forbidden", "Request Blocked", "Sorry, you have been blocked", "Please verify you are a human", "Enable JavaScript and cookies to continue"];
            assert(r@.len() == markers_of(kind).len());
            r
        },
    }
}

fn kind_found(h: &[char], kind: ProtectionKind) -> (r: bool)
    ensures
        r == marker_found(h@, kind),
{
    let ms = markers(kind);
    let r = any_marker(h, ms.as_slice());
    proof {
        if r {
            let i = choose|i: int| 0 <= i < ms@.len() && has_sub(h@, ms@[i]@);
            assert(has_sub(h@, markers_of(kind)[i]));
        }
        if marker_found(h@, kind) {
            let i = choose|i: int| 0 <= i < markers_of(kind).len() && has_sub(h@, #[trigger] markers_of(kind)[i]);
            assert(has_sub(h@, ms@[i]@));
        }
    }
    r
}

/// Detects bot protection by analysing the HTML of a page.
pub struct Crawl4AIDetector;

impl Crawl4AIDetector {
    /// A detector.
    pub fn new() -> (r: Self)
        ensures
            r == Crawl4AIDetector,
    {
        Crawl4AIDetector
    }

    /// Analyses the page `html` fetched from `url`: every kind of protection
    /// whose markers occur in the page is reported, in checking order, and
    /// the overall level follows from the severities reported.
    pub fn detect_protection(&self, url: &str, html: &str) -> (r: ProtectionReport)
        ensures
            r.url@ == url@,
            r.detections@ == detections_of(html@),
            r.protection_level == level_of(r.detections@),
    {
        let h = chars_of(html);
        let kinds = [
            ProtectionKind::Cloudflare,
            ProtectionKind::Turnstile,
            ProtectionKind::Recaptcha,
            ProtectionKind::Hcaptcha,
            ProtectionKind::Akamai,
            ProtectionKind::Datadome,
            ProtectionKind::Perimeterx,
            ProtectionKind::WafBlock,
        ];
        assert(kinds@ =~= checked_kinds());
        let mut detections: Vec<Detection> = Vec::new();
        let mut i: usize = 0;
        while i < 8
            invariant
                i <= 8,
                h@ == html@,
                kinds@ == checked_kinds(),
                detections@ == detections_upto(html@, i as nat),
            decreases 8 - i,
        {
            let kind = kinds[i];
            if kind_found(h.as_slice(), kind) {
                let severity = match kind {
                    ProtectionKind::Akamai | ProtectionKind::Datadome => Severity::Medium,
                    _ => Severity::High,
                };
                detections.push(Detection { kind, severity });
            }
            i = i + 1;
        }
        let mut any_high = false;
        let mut j: usize = 0;
        while j < detections.len()
            invariant
                j <= detections@.len(),
                any_high == exists|k: int| 0 <= k < j && detections@[k].severity == Severity::High,
            decreases detections@.len() - j,
        {
            if detections[j].severity == Severity::High {
                any_high = true;
            }
            j = j + 1;
        }
        let protection_level = if any_high {
            ProtectionLevel::High
        } else if detections.len() > 0 {
            ProtectionLevel::Medium
        } else {
            ProtectionLevel::Clear
        };
        ProtectionReport { url: crate::text::string_of(chars_of(url).as_slice()), protection_level, detections }
    }
}


/// The position of a kind among the checked kinds.
pub open spec fn kind_index(k: ProtectionKind) -> int {
    match k {
        ProtectionKind::Cloudflare => 0,
        ProtectionKind::Turnstile => 1,
        ProtectionKind::Recaptcha => 2,
        ProtectionKind::Hcaptcha => 3,
        ProtectionKind::Akamai => 4,
        ProtectionKind::Datadome => 5,
        ProtectionKind::Perimeterx => 6,
        ProtectionKind::WafBlock => 7,
    }
}

/// Whether kind `k` is reported among `ds`.
pub open spec fn reported(ds: Seq<Detection>, k: ProtectionKind) -> bool {
    exists|i: int| 0 <= i < ds.len() && #[trigger] ds[i].kind == k
}

proof fn lemma_detections_upto(h: Seq<char>, n: nat)
    requires
        n <= 8,
    ensures
        ({
            let ds = detections_upto(h, n);
            &&& forall|i: int| 0 <= i < ds.len() ==> kind_index(#[trigger] ds[i].kind) < n
                && ds[i].severity == severity_of(ds[i].kind)
            &&& forall|i: int, j: int| 0 <= i < j < ds.len() ==> kind_index(#[trigger] ds[i].kind) < kind_index(
                #[trigger] ds[j].kind,
            )
            &&& forall|k: ProtectionKind| kind_index(k) < n ==> (#[trigger] reported(ds, k) <==> marker_found(h, k))
        }),
    decreases n,
{
    if n > 0 {
        lemma_detections_upto(h, (n - 1) as nat);
        let prev = detections_upto(h, (n - 1) as nat);
        let ds = detections_upto(h, n);
        let kind = checked_kinds()[n - 1];
        assert(kind_index(kind) == n - 1);
        assert forall|k: ProtectionKind| kind_index(k) < n implies (#[trigger] reported(ds, k) <==> marker_found(h, k)) by {
            if marker_found(h, kind) {
                assert(ds == prev.push(Detection { kind, severity: severity_of(kind) }));
                if k == kind {
                    assert(ds[prev.len() as int].kind == k);
                } else {
                    if reported(ds, k) {
                        let i = choose|i: int| 0 <= i < ds.len() && #[trigger] ds[i].kind == k;
                        assert(i < prev.len());
                        assert(prev[i].kind == k);
                    }
                    if reported(prev, k) {
                        let i = choose|i: int| 0 <= i < prev.len() && #[trigger] prev[i].kind == k;
                        assert(ds[i].kind == k);
                    }
                }
            } else {
                if k == kind {
                    if reported(ds, k) {
                        let i = choose|i: int| 0 <= i < ds.len() && #[trigger] ds[i].kind == k;
                        assert(kind_index(prev[i].kind) < n - 1);
                    }
                }
            }
        }
    }
}

/// A protection is reported exactly when one of its markers occurs in the
/// page, once, with its severity; the page is clear exactly when nothing is
/// reported, and its level is high exactly when a high-severity protection
/// is reported.
pub proof fn lemma_detections_exact(h: Seq<char>)
    ensures
        ({
            let ds = detections_of(h);
            &&& forall|k: ProtectionKind| #[trigger] reported(ds, k) <==> marker_found(h, k)
            &&& forall|i: int| 0 <= i < ds.len() ==> (#[trigger] ds[i]).severity == severity_of(ds[i].kind)
            &&& forall|i: int, j: int| 0 <= i < j < ds.len() ==> (#[trigger] ds[i]).kind != (#[trigger] ds[j]).kind
            &&& (level_of(ds) == ProtectionLevel::Clear <==> ds.len() == 0)
            &&& (level_of(ds) == ProtectionLevel::High <==> exists|i: int|
                0 <= i < ds.len() && severity_of((#[trigger] ds[i]).kind) == Severity::High)
        }),
{
    lemma_detections_upto(h, 8);
    let ds = detections_of(h);
    assert forall|k: ProtectionKind| #[trigger] reported(ds, k) <==> marker_found(h, k) by {
        assert(kind_index(k) < 8);
    }
    assert forall|i: int, j: int| 0 <= i < j < ds.len() implies (#[trigger] ds[i]).kind != (#[trigger] ds[j]).kind by {
        assert(kind_index(ds[i].kind) < kind_index(ds[j].kind));
    }
}


/// A substring of a substring is a substring.
proof fn lemma_sub_transitive(outer: Seq<char>, mid: Seq<char>, inner: Seq<char>)
    requires
        has_sub(outer, mid),
        has_sub(mid, inner),
    ensures
        has_sub(outer, inner),
{
    let j = choose|j: int| crate::text::occurs_at(outer, mid, j);
    let i = choose|i: int| crate::text::occurs_at(mid, inner, i);
    assert(outer.subrange(i + j, i + j + inner.len()) =~= mid.subrange(i, i + inner.len()));
    assert(crate::text::occurs_at(outer, inner, i + j));
}

/// The rank of a protection level: clear, medium, high.
pub open spec fn level_rank(l: ProtectionLevel) -> int {
    match l {
        ProtectionLevel::Clear => 0,
        ProtectionLevel::Medium => 1,
        ProtectionLevel::High => 2,
    }
}

/// A page that contains another page's text is at least as protected:
/// every protection found in the smaller page is found in the larger one.
pub proof fn lemma_protection_monotone(small: Seq<char>, large: Seq<char>)
    requires
        has_sub(large, small),
    ensures
        forall|k: ProtectionKind| #[trigger] reported(detections_of(small), k) ==> reported(detections_of(large), k),
        level_rank(level_of(detections_of(small))) <= level_rank(level_of(detections_of(large))),
{
    lemma_detections_exact(small);
    lemma_detections_exact(large);
    let ds = detections_of(small);
    let dl = detections_of(large);
    assert forall|k: ProtectionKind| #[trigger] reported(ds, k) implies reported(dl, k) by {
        assert(marker_found(small, k));
        let i = choose|i: int| 0 <= i < markers_of(k).len() && has_sub(small, #[trigger] markers_of(k)[i]);
        lemma_sub_transitive(large, small, markers_of(k)[i]);
        assert(marker_found(large, k));
    }
    if level_of(ds) == ProtectionLevel::High {
        let i = choose|i: int| 0 <= i < ds.len() && severity_of((#[trigger] ds[i]).kind) == Severity::High;
        assert(reported(ds, ds[i].kind));
        assert(reported(dl, ds[i].kind));
        let j = choose|j: int| 0 <= j < dl.len() && #[trigger] dl[j].kind == ds[i].kind;
        assert(severity_of(dl[j].kind) == Severity::High);
    } else if level_of(ds) == ProtectionLevel::Medium {
        assert(ds.len() > 0);
        assert(reported(ds, ds[0].kind));
        assert(reported(dl, ds[0].kind));
    }
}

/// The overall level of a page follows from the markers in it alone: high
/// when a marker of Cloudflare, Turnstile, reCAPTCHA, hCaptcha, PerimeterX
/// or a WAF block page occurs; otherwise medium when a marker of Akamai or
/// DataDome occurs; otherwise clear. Only Akamai and DataDome are reported
/// with medium severity.
pub proof fn lemma_level_from_markers(h: Seq<char>)
    ensures
        ({
            let strong = marker_found(h, ProtectionKind::Cloudflare) || marker_found(h, ProtectionKind::Turnstile)
                || marker_found(h, ProtectionKind::Recaptcha) || marker_found(h, ProtectionKind::Hcaptcha)
                || marker_found(h, ProtectionKind::Perimeterx) || marker_found(h, ProtectionKind::WafBlock);
            let weak = marker_found(h, ProtectionKind::Akamai) || marker_found(h, ProtectionKind::Datadome);
            let level = level_of(detections_of(h));
            &&& (level == ProtectionLevel::High <==> strong)
            &&& (level == ProtectionLevel::Medium <==> !strong && weak)
            &&& (level == ProtectionLevel::Clear <==> !strong && !weak)
        }),
        forall|i: int| 0 <= i < detections_of(h).len() ==> ((#[trigger] detections_of(h)[i]).severity
            == Severity::Medium <==> (detections_of(h)[i].kind == ProtectionKind::Akamai
            || detections_of(h)[i].kind == ProtectionKind::Datadome)),
{
    lemma_detections_exact(h);
    let ds = detections_of(h);
    let strong = marker_found(h, ProtectionKind::Cloudflare) || marker_found(h, ProtectionKind::Turnstile)
        || marker_found(h, ProtectionKind::Recaptcha) || marker_found(h, ProtectionKind::Hcaptcha)
        || marker_found(h, ProtectionKind::Perimeterx) || marker_found(h, ProtectionKind::WafBlock);
    let weak = marker_found(h, ProtectionKind::Akamai) || marker_found(h, ProtectionKind::Datadome);
    if strong {
        let k = if marker_found(h, ProtectionKind::Cloudflare) { ProtectionKind::Cloudflare }
            else if marker_found(h, ProtectionKind::Turnstile) { ProtectionKind::Turnstile }
            else if marker_found(h, ProtectionKind::Recaptcha) { ProtectionKind::Recaptcha }
            else if marker_found(h, ProtectionKind::Hcaptcha) { ProtectionKind::Hcaptcha }
            else if marker_found(h, ProtectionKind::Perimeterx) { ProtectionKind::Perimeterx }
            else { ProtectionKind::WafBlock };
        assert(reported(ds, k));
        let i = choose|i: int| 0 <= i < ds.len() && #[trigger] ds[i].kind == k;
        assert(severity_of(ds[i].kind) == Severity::High);
    } else {
        assert forall|i: int| 0 <= i < ds.len() implies severity_of((#[trigger] ds[i]).kind) != Severity::High by {
            assert(reported(ds, ds[i].kind));
        }
        if weak {
            let k = if marker_found(h, ProtectionKind::Akamai) { ProtectionKind::Akamai } else { ProtectionKind::Datadome };
            assert(reported(ds, k));
        } else {
            if ds.len() > 0 {
                assert(reported(ds, ds[0].kind));
            }
        }
    }
}

/// Each marker reveals its protection: a page containing it is reported
/// with that kind of protection.
pub proof fn lemma_markers_detected(h: Seq<char>)
    ensures
        has_sub(h, "cf-challenge-running"@) ==> reported(detections_of(h), ProtectionKind::Cloudflare),
        has_sub(h, "cf-chl-widget"@) ==> reported(detections_of(h), ProtectionKind::Cloudflare),
        has_sub(h, "__cf_chl_jschl_tk__"@) ==> reported(detections_of(h), ProtectionKind::Cloudflare),
        has_sub(h, "cf-browser-verification"@) ==> reported(detections_of(h), ProtectionKind::Cloudflare),
        has_sub(h, "cf_chl_opt"@) ==> reported(detections_of(h), ProtectionKind::Cloudflare),
        has_sub(h, "challenge-platform"@) ==> reported(detections_of(h), ProtectionKind::Cloudflare),
        has_sub(h, "Just a moment..."@) ==> reported(detections_of(h), ProtectionKind::Cloudflare),
        has_sub(h, "cf-turnstile"@) ==> reported(detections_of(h), ProtectionKind::Turnstile),
        has_sub(h, "challenges.cloudflare.com/turnstile"@) ==> reported(detections_of(h), ProtectionKind::Turnstile),
        has_sub(h, "g-recaptcha"@) ==> reported(detections_of(h), ProtectionKind::Recaptcha),
        has_sub(h, "recaptcha/api.js"@) ==> reported(detections_of(h), ProtectionKind::Recaptcha),
        has_sub(h, "grecaptcha.execute"@) ==> reported(detections_of(h), ProtectionKind::Recaptcha),
        has_sub(h, "recaptcha-token"@) ==> reported(detections_of(h), ProtectionKind::Recaptcha),
        has_sub(h, "h-captcha"@) ==> reported(detections_of(h), ProtectionKind::Hcaptcha),
        has_sub(h, "hcaptcha.com/1/api.js"@) ==> reported(detections_of(h), ProtectionKind::Hcaptcha),
        has_sub(h, "hcaptcha-response"@) ==> reported(detections_of(h), ProtectionKind::Hcaptcha),
        has_sub(h, "_abck"@) ==> reported(detections_of(h), ProtectionKind::Akamai),
        has_sub(h, "ak_bmsc"@) ==> reported(detections_of(h), ProtectionKind::Akamai),
        has_sub(h, "bm_sz"@) ==> reported(detections_of(h), ProtectionKind::Akamai),
        has_sub(h, "akamai"@) ==> reported(detections_of(h), ProtectionKind::Akamai),
        has_sub(h, "datadome"@) ==> reported(detections_of(h), ProtectionKind::Datadome),
        has_sub(h, "dd.js"@) ==> reported(detections_of(h), ProtectionKind::Datadome),
        has_sub(h, "perimeterx"@) ==> reported(detections_of(h), ProtectionKind::Perimeterx),
        has_sub(h, "px-captcha"@) ==> reported(detections_of(h), ProtectionKind::Perimeterx),
        has_sub(h, "_pxhd"@) ==> reported(detections_of(h), ProtectionKind::Perimeterx),
        has_sub(h, "Access Denied"@) ==> reported(detections_of(h), ProtectionKind::WafBlock),
        has_sub(h, "403 Forbidden"@) ==> reported(detections_of(h), ProtectionKind::WafBlock),
        has_sub(h, "Request Blocked"@) ==> reported(detections_of(h), ProtectionKind::WafBlock),
        has_sub(h, "Sorry, you have been blocked"@) ==> reported(detections_of(h), ProtectionKind::WafBlock),
        has_sub(h, "Please verify you are a human"@) ==> reported(detections_of(h), ProtectionKind::WafBlock),
        has_sub(h, "Enable JavaScript and cookies to continue"@) ==> reported(detections_of(h), ProtectionKind::WafBlock),
{
    lemma_detections_exact(h);
    if has_sub(h, "cf-challenge-running"@) {
        assert(markers_of(ProtectionKind::Cloudflare)[0] == "cf-challenge-running"@);
        assert(marker_found(h, ProtectionKind::Cloudflare));
    }
    if has_sub(h, "cf-chl-widget"@) {
        assert(markers_of(ProtectionKind::Cloudflare)[1] == "cf-chl-widget"@);
        assert(marker_found(h, ProtectionKind::Cloudflare));
    }
    if has_sub(h, "__cf_chl_jschl_tk__"@) {
        assert(markers_of(ProtectionKind::Cloudflare)[2] == "__cf_chl_jschl_tk__"@);
        assert(marker_found(h, ProtectionKind::Cloudflare));
    }
    if has_sub(h, "cf-browser-verification"@) {
        assert(markers_of(ProtectionKind::Cloudflare)[3] == "cf-browser-verification"@);
        assert(marker_found(h, ProtectionKind::Cloudflare));
    }
    if has_sub(h, "cf_chl_opt"@) {
        assert(markers_of(ProtectionKind::Cloudflare)[4] == "cf_chl_opt"@);
        assert(marker_found(h, ProtectionKind::Cloudflare));
    }
    if has_sub(h, "challenge-platform"@) {
        assert(markers_of(ProtectionKind::Cloudflare)[5] == "challenge-platform"@);
        assert(marker_found(h, ProtectionKind::Cloudflare));
    }
    if has_sub(h, "Just a moment..."@) {
        assert(markers_of(ProtectionKind::Cloudflare)[6] == "Just a moment..."@);
        assert(marker_found(h, ProtectionKind::Cloudflare));
    }
    if has_sub(h, "cf-turnstile"@) {
        assert(markers_of(ProtectionKind::Turnstile)[0] == "cf-turnstile"@);
        assert(marker_found(h, ProtectionKind::Turnstile));
    }
    if has_sub(h, "challenges.cloudflare.com/turnstile"@) {
        assert(markers_of(ProtectionKind::Turnstile)[1] == "challenges.cloudflare.com/turnstile"@);
        assert(marker_found(h, ProtectionKind::Turnstile));
    }
    if has_sub(h, "g-recaptcha"@) {
        assert(markers_of(ProtectionKind::Recaptcha)[0] == "g-recaptcha"@);
        assert(marker_found(h, ProtectionKind::Recaptcha));
    }
    if has_sub(h, "recaptcha/api.js"@) {
        assert(markers_of(ProtectionKind::Recaptcha)[1] == "recaptcha/api.js"@);
        assert(marker_found(h, ProtectionKind::Recaptcha));
    }
    if has_sub(h, "grecaptcha.execute"@) {
        assert(markers_of(ProtectionKind::Recaptcha)[2] == "grecaptcha.execute"@);
        assert(marker_found(h, ProtectionKind::Recaptcha));
    }
    if has_sub(h, "recaptcha-token"@) {
        assert(markers_of(ProtectionKind::Recaptcha)[3] == "recaptcha-token"@);
        assert(marker_found(h, ProtectionKind::Recaptcha));
    }
    if has_sub(h, "h-captcha"@) {
        assert(markers_of(ProtectionKind::Hcaptcha)[0] == "h-captcha"@);
        assert(marker_found(h, ProtectionKind::Hcaptcha));
    }
    if has_sub(h, "hcaptcha.com/1/api.js"@) {
        assert(markers_of(ProtectionKind::Hcaptcha)[1] == "hcaptcha.com/1/api.js"@);
        assert(marker_found(h, ProtectionKind::Hcaptcha));
    }
    if has_sub(h, "hcaptcha-response"@) {
        assert(markers_of(ProtectionKind::Hcaptcha)[2] == "hcaptcha-response"@);
        assert(marker_found(h, ProtectionKind::Hcaptcha));
    }
    if has_sub(h, "_abck"@) {
        assert(markers_of(ProtectionKind::Akamai)[0] == "_abck"@);
        assert(marker_found(h, ProtectionKind::Akamai));
    }
    if has_sub(h, "ak_bmsc"@) {
        assert(markers_of(ProtectionKind::Akamai)[1] == "ak_bmsc"@);
        assert(marker_found(h, ProtectionKind::Akamai));
    }
    if has_sub(h, "bm_sz"@) {
        assert(markers_of(ProtectionKind::Akamai)[2] == "bm_sz"@);
        assert(marker_found(h, ProtectionKind::Akamai));
    }
    if has_sub(h, "akamai"@) {
        assert(markers_of(ProtectionKind::Akamai)[3] == "akamai"@);
        assert(marker_found(h, ProtectionKind::Akamai));
    }
    if has_sub(h, "datadome"@) {
        assert(markers_of(ProtectionKind::Datadome)[0] == "datadome"@);
        assert(marker_found(h, ProtectionKind::Datadome));
    }
    if has_sub(h, "dd.js"@) {
        assert(markers_of(ProtectionKind::Datadome)[1] == "dd.js"@);
        assert(marker_found(h, ProtectionKind::Datadome));
    }
    if has_sub(h, "perimeterx"@) {
        assert(markers_of(ProtectionKind::Perimeterx)[0] == "perimeterx"@);
        assert(marker_found(h, ProtectionKind::Perimeterx));
    }
    if has_sub(h, "px-captcha"@) {
        assert(markers_of(ProtectionKind::Perimeterx)[1] == "px-captcha"@);
        assert(marker_found(h, ProtectionKind::Perimeterx));
    }
    if has_sub(h, "_pxhd"@) {
        assert(markers_of(ProtectionKind::Perimeterx)[2] == "_pxhd"@);
        assert(marker_found(h, ProtectionKind::Perimeterx));
    }
    if has_sub(h, "Access Denied"@) {
        assert(markers_of(ProtectionKind::WafBlock)[0] == "Access Denied"@);
        assert(marker_found(h, ProtectionKind::WafBlock));
    }
    if has_sub(h, "403 Forbidden"@) {
        assert(markers_of(ProtectionKind::WafBlock)[1] == "403 Forbidden"@);
        assert(marker_found(h, ProtectionKind::WafBlock));
    }
    if has_sub(h, "Request Blocked"@) {
        assert(markers_of(ProtectionKind::WafBlock)[2] == "Request Blocked"@);
        assert(marker_found(h, ProtectionKind::WafBlock));
    }
    if has_sub(h, "Sorry, you have been blocked"@) {
        assert(markers_of(ProtectionKind::WafBlock)[3] == "Sorry, you have been blocked"@);
        assert(marker_found(h, ProtectionKind::WafBlock));
    }
    if has_sub(h, "Please verify you are a human"@) {
        assert(markers_of(ProtectionKind::WafBlock)[4] == "Please verify you are a human"@);
        assert(marker_found(h, ProtectionKind::WafBlock));
    }
    if has_sub(h, "Enable JavaScript and cookies to continue"@) {
        assert(markers_of(ProtectionKind::WafBlock)[5] == "Enable JavaScript and cookies to continue"@);
        assert(marker_found(h, ProtectionKind::WafBlock));
    }
}

} // verus!
