//! Stealth scripts that hide the marks of an automated browser: they
//! override navigator properties and the time zone, spoof WebGL and
//! plugins, and rotate the user agent through a pool of real browser
//! identities.
use vstd::prelude::*;
use crate::text::{join, str_equal};

verus! {

/// The size of the user-agent pool.
pub const USER_AGENT_POOL_SIZE: usize = 10;

/// Entry `i` of the user-agent pool: (user agent, platform, vendor).
pub open spec fn ua_pool(i: int) -> (Seq<char>, Seq<char>, Seq<char>) {
    if i == 0 {
        ("Mozilla/5.0 (Windows NT 10.0; Win64; x64) AppleWebKit/537.36 (KHTML, like Gecko) Chrome/124.0.0.0 Safari/537.36"@, "Win32"@, "Google Inc."@)
    } else if i == 1 {
        ("Mozilla/5.0 (Windows NT 10.0; Win64; x64) AppleWebKit/537.36 (KHTML, like Gecko) Chrome/123.0.0.0 Safari/537.36"@, "Win32"@, "Google Inc."@)
    } else if i == 2 {
        ("Mozilla/5.0 (Macintosh; Intel Mac OS X 10_15_7) AppleWebKit/537.36 (KHTML, like Gecko) Chrome/124.0.0.0 Safari/537.36"@, "MacIntel"@, "Google Inc."@)
    } else if i == 3 {
        ("Mozilla/5.0 (Macintosh; Intel Mac OS X 10_15_7) AppleWebKit/537.36 (KHTML, like Gecko) Chrome/123.0.0.0 Safari/537.36"@, "MacIntel"@, "Google Inc."@)
    } else if i == 4 {
        ("Mozilla/5.0 (X11; Linux x86_64) AppleWebKit/537.36 (KHTML, like Gecko) Chrome/124.0.0.0 Safari/537.36"@, "Linux x86_64"@, "Google Inc."@)
    } else if i == 5 {
        ("Mozilla/5.0 (Windows NT 10.0; Win64; x64; rv:125.0) Gecko/20100101 Firefox/125.0"@, "Win32"@, ""@)
    } else if i == 6 {
        ("Mozilla/5.0 (Macintosh; Intel Mac OS X 10.15; rv:125.0) Gecko/20100101 Firefox/125.0"@, "MacIntel"@, ""@)
    } else if i == 7 {
        ("Mozilla/5.0 (X11; Linux x86_64; rv:125.0) Gecko/20100101 Firefox/125.0"@, "Linux x86_64"@, ""@)
    } else if i == 8 {
        ("Mozilla/5.0 (Macintosh; Intel Mac OS X 10_15_7) AppleWebKit/605.1.15 (KHTML, like Gecko) Version/17.4 Safari/605.1.15"@, "MacIntel"@, "Apple Computer, Inc."@)
    } else {
        ("Mozilla/5.0 (Windows NT 10.0; Win64; x64) AppleWebKit/537.36 (KHTML, like Gecko) Chrome/124.0.0.0 Safari/537.36 Edg/124.0.0.0"@, "Win32"@, "Google Inc."@)
    }
}

/// Entry `i` of the user-agent pool.
pub fn user_agent_entry(i: usize) -> (r: (&'static str, &'static str, &'static str))
    requires
        i < USER_AGENT_POOL_SIZE,
    ensures
        (r.0@, r.1@, r.2@) == ua_pool(i as int),
{
    match i {
        0 => ("Mozilla/5.0 (Windows NT 10.0; Win64; x64) AppleWebKit/537.36 (KHTML, like Gecko) Chrome/124.0.0.0 Safari/537.36", "Win32", "Google Inc."),
        1 => ("Mozilla/5.0 (Windows NT 10.0; Win64; x64) AppleWebKit/537.36 (KHTML, like Gecko) Chrome/123.0.0.0 Safari/537.36", "Win32", "Google Inc."),
        2 => ("Mozilla/5.0 (Macintosh; Intel Mac OS X 10_15_7) AppleWebKit/537.36 (KHTML, like Gecko) Chrome/124.0.0.0 Safari/537.36", "MacIntel", "Google Inc."),
        3 => ("Mozilla/5.0 (Macintosh; Intel Mac OS X 10_15_7) AppleWebKit/537.36 (KHTML, like Gecko) Chrome/123.0.0.0 Safari/537.36", "MacIntel", "Google Inc."),
        4 => ("Mozilla/5.0 (X11; Linux x86_64) AppleWebKit/537.36 (KHTML, like Gecko) Chrome/124.0.0.0 Safari/537.36", "Linux x86_64", "Google Inc."),
        5 => ("Mozilla/5.0 (Windows NT 10.0; Win64; x64; rv:125.0) Gecko/20100101 Firefox/125.0", "Win32", ""),
        6 => ("Mozilla/5.0 (Macintosh; Intel Mac OS X 10.15; rv:125.0) Gecko/20100101 Firefox/125.0", "MacIntel", ""),
        7 => ("Mozilla/5.0 (X11; Linux x86_64; rv:125.0) Gecko/20100101 Firefox/125.0", "Linux x86_64", ""),
        8 => ("Mozilla/5.0 (Macintosh; Intel Mac OS X 10_15_7) AppleWebKit/605.1.15 (KHTML, like Gecko) Version/17.4 Safari/605.1.15", "MacIntel", "Apple Computer, Inc."),
        _ => ("Mozilla/5.0 (Windows NT 10.0; Win64; x64) AppleWebKit/537.36 (KHTML, like Gecko) Chrome/124.0.0.0 Safari/537.36 Edg/124.0.0.0", "Win32", "Google Inc."),
    }
}

/// The script that overrides the navigator identity.
pub open spec fn navigator_script(ua: Seq<char>, platform: Seq<char>, vendor: Seq<char>) -> Seq<char> {
    "Object.defineProperty(navigator, 'userAgent', { get: () => '"@ + ua + "' });\nObject.defineProperty(navigator, 'platform', { get: () => '"@ + platform + "' });\nObject.defineProperty(navigator, 'vendor', { get: () => '"@ + vendor + "' });"@
}

/// Whether `level` asks for the identity overrides (medium and high).
pub open spec fn level_at_least_medium(level: Seq<char>) -> bool {
    level == "medium"@ || level == "high"@
}

/// Whether `level` asks for the full fingerprint (high).
pub open spec fn level_high(level: Seq<char>) -> bool {
    level == "high"@
}

/// The scripts injected for a stealth level, in injection order: the
/// webdriver flag is always hidden; medium and high add the navigator
/// identity, languages, hardware concurrency, device memory and the time
/// zone (America/New_York, five hours behind UTC); high adds
/// the chrome runtime, permissions, WebGL, plugins and connection spoofs.
pub open spec fn stealth_scripts(level: Seq<char>, ua: Seq<char>, platform: Seq<char>, vendor: Seq<char>) -> Seq<Seq<char>> {
    seq!["Object.defineProperty(navigator, 'webdriver', { get: () => undefined });"@]
        + (if level_at_least_medium(level) {
            seq![navigator_script(ua, platform, vendor), "Object.defineProperty(navigator, 'languages', { get: () => ['en-US', 'en'] });"@, "Object.defineProperty(navigator, 'hardwareConcurrency', { get: () => 8 });"@, "Object.defineProperty(navigator, 'deviceMemory', { get: () => 8 });"@, "const resolvedOptions = Intl.DateTimeFormat.prototype.resolvedOptions;\nIntl.DateTimeFormat.prototype.resolvedOptions = function() {\n    const options = resolvedOptions.call(this);\n    options.timeZone = 'America/New_York';\n    return options;\n};\nDate.prototype.getTimezoneOffset = function() { return 300; };"@]
        } else {
            Seq::empty()
        })
        + (if level_high(level) {
            seq!["window.chrome = { runtime: { connect: function(){}, sendMessage: function(){} }, loadTimes: function(){return {}}, csi: function(){return {}} };"@, "const originalQuery = window.navigator.permissions.query.bind(window.navigator.permissions);\nwindow.navigator.permissions.query = (parameters) => (\n    parameters.name === 'notifications' ?\n        Promise.resolve({ state: Notification.permission }) :\n        originalQuery(parameters)\n);"@, "const getParameter = WebGLRenderingContext.prototype.getParameter;\nWebGLRenderingContext.prototype.getParameter = function(parameter) {\n    if (parameter === 37445) return 'Intel Inc.';\n    if (parameter === 37446) return 'Intel Iris OpenGL Engine';\n    return getParameter.call(this, parameter);\n};"@, "Object.defineProperty(navigator, 'plugins', {\n    get: () => {\n        const plugins = [\n            { name: 'Chrome PDF Plugin', filename: 'internal-pdf-viewer', description: 'Portable Document Format' },\n            { name: 'Chrome PDF Viewer', filename: 'mhjfbmdgcfjbbpaeojofohoefgiehjai', description: '' },\n            { name: 'Native Client', filename: 'internal-nacl-plugin', description: '' },\n        ];\n        plugins.length = 3;\n        return plugins;\n    }\n});"@, "Object.defineProperty(navigator, 'connection', {\n    get: () => ({ effectiveType: '4g', rtt: 50, downlink: 10, saveData: false })\n});"@]
        } else {
            Seq::empty()
        })
}

/// The names of the techniques applied for a stealth level, in the order of
/// their scripts.
pub open spec fn stealth_techniques(level: Seq<char>) -> Seq<Seq<char>> {
    seq!["webdriver_hide"@]
        + (if level_at_least_medium(level) {
            seq!["navigator_override"@, "languages"@, "hardware_concurrency"@, "device_memory"@, "timezone"@]
        } else {
            Seq::empty()
        })
        + (if level_high(level) {
            seq!["chrome_runtime"@, "permissions_query"@, "webgl_vendor"@, "plugins"@, "connection_info"@]
        } else {
            Seq::empty()
        })
}

/// The pool index that follows `i` (the counter wraps around on overflow).
pub open spec fn next_index(i: usize) -> usize {
    if i == usize::MAX {
        0
    } else {
        (i + 1) as usize
    }
}

/// The stealth scripts generated for one stealth level.
pub struct StealthConfig {
    pub level: String,
    pub user_agent: &'static str,
    pub platform: &'static str,
    pub vendor: &'static str,
    pub techniques_applied: Vec<&'static str>,
    pub script: String,
}

/// Generates fingerprint-evasion scripts and rotates the user agent.
pub struct PlaywrightStealth {
    ua_index: usize,
}

impl PlaywrightStealth {
    /// The position of the rotation counter.
    pub closed spec fn rotation(&self) -> usize {
        self.ua_index
    }

    /// A stealth engine whose rotation starts at the first pool entry.
    pub fn new() -> (r: Self)
        ensures
            r.rotation() == 0,
    {
        PlaywrightStealth { ua_index: 0 }
    }

    /// The next user agent of the rotation, with its platform and vendor:
    /// the pool entry at the counter modulo the pool size; the counter
    /// advances by one.
    pub fn next_user_agent(&mut self) -> (r: (&'static str, &'static str, &'static str))
        ensures
            (r.0@, r.1@, r.2@) == ua_pool((old(self).rotation() % 10) as int),
            final(self).rotation() == next_index(old(self).rotation()),
    {
        let idx = self.ua_index % USER_AGENT_POOL_SIZE;
        self.ua_index = if self.ua_index == usize::MAX { 0 } else { self.ua_index + 1 };
        user_agent_entry(idx)
    }

    /// The scripts for stealth `level` ("low", "medium" or "high"; any
    /// other level gets what "low" gets), built around the next user agent
    /// of the rotation: the script is the level's scripts joined by line
    /// breaks.
    pub fn apply_stealth(&mut self, level: &str) -> (r: StealthConfig)
        ensures
            final(self).rotation() == next_index(old(self).rotation()),
            (r.user_agent@, r.platform@, r.vendor@) == ua_pool((old(self).rotation() % 10) as int),
            r.level@ == level@,
            r.techniques_applied@.map_values(|t: &'static str| t@) == stealth_techniques(level@),
            r.script@ == join(stealth_scripts(level@, r.user_agent@, r.platform@, r.vendor@), "\n"@),
    {
        let (ua, platform, vendor) = self.next_user_agent();
        let medium = str_equal(level, "medium");
        let high = str_equal(level, "high");
        let ghost parts = stealth_scripts(level@, ua@, platform@, vendor@);
        let mut script = String::new();
        let mut techniques: Vec<&'static str> = Vec::new();
        let ghost mut done: Seq<Seq<char>> = Seq::empty();
        script.append("Object.defineProperty(navigator, 'webdriver', { get: () => undefined });");
        techniques.push("webdriver_hide");
        proof {
            done = seq!["Object.defineProperty(navigator, 'webdriver', { get: () => undefined });"@];
            assert(script@ == join(done, "\n"@));
        }
        if medium || high {
            let mut nav = String::new();
            nav.append("Object.defineProperty(navigator, 'userAgent', { get: () => '");
            nav.append(ua);
            nav.append("' });\nObject.defineProperty(navigator, 'platform', { get: () => '");
            nav.append(platform);
            nav.append("' });\nObject.defineProperty(navigator, 'vendor', { get: () => '");
            nav.append(vendor);
            nav.append("' });");
            assert(nav@ =~= navigator_script(ua@, platform@, vendor@));
            append_line(&mut script, nav.as_str(), Ghost(done));
            techniques.push("navigator_override");
            proof {
                done = done.push(nav@);
            }
            append_line(&mut script, "Object.defineProperty(navigator, 'languages', { get: () => ['en-US', 'en'] });", Ghost(done));
            techniques.push("languages");
            proof {
                done = done.push("Object.defineProperty(navigator, 'languages', { get: () => ['en-US', 'en'] });"@);
            }
            append_line(&mut script, "Object.defineProperty(navigator, 'hardwareConcurrency', { get: () => 8 });", Ghost(done));
            techniques.push("hardware_concurrency");
            proof {
                done = done.push("Object.defineProperty(navigator, 'hardwareConcurrency', { get: () => 8 });"@);
            }
            append_line(&mut script, "Object.defineProperty(navigator, 'deviceMemory', { get: () => 8 });", Ghost(done));
            techniques.push("device_memory");
            proof {
                done = done.push("Object.defineProperty(navigator, 'deviceMemory', { get: () => 8 });"@);
            }
            append_line(&mut script, "const resolvedOptions = Intl.DateTimeFormat.prototype.resolvedOptions;\nIntl.DateTimeFormat.prototype.resolvedOptions = function() {\n    const options = resolvedOptions.call(this);\n    options.timeZone = 'America/New_York';\n    return options;\n};\nDate.prototype.getTimezoneOffset = function() { return 300; };", Ghost(done));
            techniques.push("timezone");
            proof {
                done = done.push("const resolvedOptions = Intl.DateTimeFormat.prototype.resolvedOptions;\nIntl.DateTimeFormat.prototype.resolvedOptions = function() {\n    const options = resolvedOptions.call(this);\n    options.timeZone = 'America/New_York';\n    return options;\n};\nDate.prototype.getTimezoneOffset = function() { return 300; };"@);
            }
        }
        if high {
            append_line(&mut script, "window.chrome = { runtime: { connect: function(){}, sendMessage: function(){} }, loadTimes: function(){return {}}, csi: function(){return {}} };", Ghost(done));
            techniques.push("chrome_runtime");
            proof {
                done = done.push("window.chrome = { runtime: { connect: function(){}, sendMessage: function(){} }, loadTimes: function(){return {}}, csi: function(){return {}} };"@);
            }
            append_line(&mut script, "const originalQuery = window.navigator.permissions.query.bind(window.navigator.permissions);\nwindow.navigator.permissions.query = (parameters) => (\n    parameters.name === 'notifications' ?\n        Promise.resolve({ state: Notification.permission }) :\n        originalQuery(parameters)\n);", Ghost(done));
            techniques.push("permissions_query");
            proof {
                done = done.push("const originalQuery = window.navigator.permissions.query.bind(window.navigator.permissions);\nwindow.navigator.permissions.query = (parameters) => (\n    parameters.name === 'notifications' ?\n        Promise.resolve({ state: Notification.permission }) :\n        originalQuery(parameters)\n);"@);
            }
            append_line(&mut script, "const getParameter = WebGLRenderingContext.prototype.getParameter;\nWebGLRenderingContext.prototype.getParameter = function(parameter) {\n    if (parameter === 37445) return 'Intel Inc.';\n    if (parameter === 37446) return 'Intel Iris OpenGL Engine';\n    return getParameter.call(this, parameter);\n};", Ghost(done));
            techniques.push("webgl_vendor");
            proof {
                done = done.push("const getParameter = WebGLRenderingContext.prototype.getParameter;\nWebGLRenderingContext.prototype.getParameter = function(parameter) {\n    if (parameter === 37445) return 'Intel Inc.';\n    if (parameter === 37446) return 'Intel Iris OpenGL Engine';\n    return getParameter.call(this, parameter);\n};"@);
            }
            append_line(&mut script, "Object.defineProperty(navigator, 'plugins', {\n    get: () => {\n        const plugins = [\n            { name: 'Chrome PDF Plugin', filename: 'internal-pdf-viewer', description: 'Portable Document Format' },\n            { name: 'Chrome PDF Viewer', filename: 'mhjfbmdgcfjbbpaeojofohoefgiehjai', description: '' },\n            { name: 'Native Client', filename: 'internal-nacl-plugin', description: '' },\n        ];\n        plugins.length = 3;\n        return plugins;\n    }\n});", Ghost(done));
            techniques.push("plugins");
            proof {
                done = done.push("Object.defineProperty(navigator, 'plugins', {\n    get: () => {\n        const plugins = [\n            { name: 'Chrome PDF Plugin', filename: 'internal-pdf-viewer', description: 'Portable Document Format' },\n            { name: 'Chrome PDF Viewer', filename: 'mhjfbmdgcfjbbpaeojofohoefgiehjai', description: '' },\n            { name: 'Native Client', filename: 'internal-nacl-plugin', description: '' },\n        ];\n        plugins.length = 3;\n        return plugins;\n    }\n});"@);
            }
            append_line(&mut script, "Object.defineProperty(navigator, 'connection', {\n    get: () => ({ effectiveType: '4g', rtt: 50, downlink: 10, saveData: false })\n});", Ghost(done));
            techniques.push("connection_info");
            proof {
                done = done.push("Object.defineProperty(navigator, 'connection', {\n    get: () => ({ effectiveType: '4g', rtt: 50, downlink: 10, saveData: false })\n});"@);
            }
        }
        assert(done =~= parts);
        let ghost names = stealth_techniques(level@);
        assert(techniques@.map_values(|t: &'static str| t@) =~= names);
        StealthConfig {
            level: crate::text::owned(level),
            user_agent: ua,
            platform,
            vendor,
            techniques_applied: techniques,
            script,
        }
    }
}

/// Appends a line break and `part` to `acc`, the lines `done` joined.
fn append_line(acc: &mut String, part: &str, Ghost(done): Ghost<Seq<Seq<char>>>)
    requires
        old(acc)@ == join(done, "\n"@),
        done.len() >= 1,
    ensures
        final(acc)@ == join(done.push(part@), "\n"@),
{
    acc.append("\n");
    acc.append(part);
    assert(done.push(part@).drop_last() =~= done);
}


/// Stealth levels nest: low only hides the webdriver flag; medium adds the
/// identity overrides and the time zone; high adds five more spoofs; any level other
/// than medium and high gets what low gets.
pub proof fn lemma_stealth_levels_nest(level: Seq<char>, ua: Seq<char>, platform: Seq<char>, vendor: Seq<char>)
    ensures
        stealth_techniques("low"@).len() == 1,
        stealth_techniques("medium"@).len() == 6,
        stealth_techniques("high"@).len() == 11,
        stealth_techniques("medium"@).take(1) == stealth_techniques("low"@),
        stealth_techniques("high"@).take(6) == stealth_techniques("medium"@),
        stealth_scripts("medium"@, ua, platform, vendor).take(1) == stealth_scripts("low"@, ua, platform, vendor),
        stealth_scripts("high"@, ua, platform, vendor).take(6) == stealth_scripts("medium"@, ua, platform, vendor),
        level != "medium"@ && level != "high"@ ==> stealth_techniques(level) == stealth_techniques("low"@)
            && stealth_scripts(level, ua, platform, vendor) == stealth_scripts("low"@, ua, platform, vendor),
{
    reveal_strlit("low");
    reveal_strlit("medium");
    reveal_strlit("high");
    assert("low"@.len() == 3);
    assert("medium"@.len() == 6);
    assert("high"@.len() == 4);
    assert(!level_at_least_medium("low"@));
    assert(level_at_least_medium("medium"@) && !level_high("medium"@));
    assert(stealth_techniques("medium"@).take(1) =~= stealth_techniques("low"@));
    assert(stealth_techniques("high"@).take(6) =~= stealth_techniques("medium"@));
    assert(stealth_scripts("medium"@, ua, platform, vendor).take(1) =~= stealth_scripts("low"@, ua, platform, vendor));
    assert(stealth_scripts("high"@, ua, platform, vendor).take(6) =~= stealth_scripts("medium"@, ua, platform, vendor));
}

/// The rotation counter of a new engine after `n` user agents were taken.
pub open spec fn rotation_after(n: nat) -> usize
    decreases n,
{
    if n == 0 {
        0
    } else {
        next_index(rotation_after((n - 1) as nat))
    }
}

/// The user agent a new engine hands out after `n` earlier calls is the pool
/// entry at `n` modulo the pool size (for every `n` the counter can count
/// to without wrapping).
pub proof fn lemma_rotation_after(n: nat)
    requires
        n <= usize::MAX,
    ensures
        rotation_after(n) == n,
        ua_pool((rotation_after(n) % 10) as int) == ua_pool((n % 10) as int),
    decreases n,
{
    if n > 0 {
        lemma_rotation_after((n - 1) as nat);
    }
}

/// The pool entry of the `i`-th call after the counter stood at `r`.
pub open spec fn pool_slot(r: int, i: int) -> int {
    (r + i) % 10
}

/// The rotation walks the whole pool: ten consecutive user agents come from
/// ten different pool entries, and the eleventh comes from the first entry
/// again.
pub proof fn lemma_rotation_cycles(r: usize)
    requires
        r + 10 <= usize::MAX,
    ensures
        forall|i: int, j: int| 0 <= i < j < 10 ==> #[trigger] pool_slot(r as int, i) != #[trigger] pool_slot(r as int, j),
        pool_slot(r as int, 10) == pool_slot(r as int, 0),
        forall|i: int| 0 <= i < 10 ==> #[trigger] next_index((r + i) as usize) == r + i + 1,
{
    assert forall|i: int, j: int| 0 <= i < j < 10 implies #[trigger] pool_slot(r as int, i) != #[trigger] pool_slot(r as int, j) by {
        let a = r + i;
        let b = r + j;
        assert(0 < b - a < 10);
        assert(a % 10 != b % 10) by (nonlinear_arith)
            requires
                0 < b - a < 10,
                a >= 0,
        ;
    }
    assert((r + 10) % 10 == r % 10) by (nonlinear_arith)
        requires
            r >= 0,
    ;
}

} // verus!
