use vstd::prelude::*;
use vstd::string::StringExecFns;
use crate::agent::DelayRange;
use crate::config::names_of;
use crate::random::random_between;
use crate::text::{before_first, decimal, decimal_text, remove_all, text_before, text_without};

verus! {

/// Page script that removes video elements and keeps new ones from playing.
pub const VIDEO_DISABLE_SCRIPT: &'static str = r#"
    // remove video elements and disable video playback
    (function() {
        // function to disable video elements
        function disableVideos() {
            // remove all video elements
            const videos = document.querySelectorAll('video');
            videos.forEach(video => {
                video.pause();
                video.src = '';
                video.load();
                video.style.display = 'none';
                video.remove();
            });

            // remove video containers
            const videoContainers = document.querySelectorAll(
                '[data-a-target="video-player"], .video-player, .player-video, .video-ref'
            );
            videoContainers.forEach(container => {
                container.style.display = 'none';
                container.remove();
            });

            // disable webrtc and media streams
            if (navigator.mediaDevices && navigator.mediaDevices.getUserMedia) {
                navigator.mediaDevices.getUserMedia = function() {
                    return Promise.reject(new Error('Media access disabled'));
                };
            }

            // override video creation
            const originalCreateElement = document.createElement;
            document.createElement = function(tagName) {
                if (tagName.toLowerCase() === 'video') {
                    const div = originalCreateElement.call(this, 'div');
                    div.style.display = 'none';
                    return div;
                }
                return originalCreateElement.call(this, tagName);
            };
        }

        // Run immediately
        disableVideos();

        // Run on DOM changes
        const observer = new MutationObserver(function(mutations) {
            mutations.forEach(function(mutation) {
                if (mutation.addedNodes.length > 0) {
                    disableVideos();
                }
            });
        });

        observer.observe(document.body, {
            childList: true,
            subtree: true
        });

        // Run periodically as backup
        setInterval(disableVideos, 5000);
    })();
    "#;

/// Opening of the stealth script, before the property overrides.
pub const STEALTH_SCRIPT_HEAD: &'static str = r#"
    // stealth script to avoid detection
    (function() {
        // override navigator properties
    "#;

/// Closing of the stealth script, after the property overrides.
pub const STEALTH_SCRIPT_TAIL: &'static str = r#"
        // Hide webdriver property
        Object.defineProperty(navigator, 'webdriver', { value: false, writable: false });
        
        // Override plugins
        Object.defineProperty(navigator, 'plugins', {
            value: [
                { name: 'Chrome PDF Plugin', description: 'Portable Document Format' },
                { name: 'Chrome PDF Viewer', description: 'PDF Viewer' },
                { name: 'Native Client', description: 'Native Client' }
            ],
            writable: false
        });

        // Override permissions
        const originalQuery = navigator.permissions.query;
        navigator.permissions.query = function(parameters) {
            return parameters.name === 'notifications' 
                ? Promise.resolve({ state: Notification.permission })
                : originalQuery.call(this, parameters);
        };

        // Hide automation indicators
        delete window.cdc_adoQpoasnfa76pfcZLmcfl_Array;
        delete window.cdc_adoQpoasnfa76pfcZLmcfl_Promise;
        delete window.cdc_adoQpoasnfa76pfcZLmcfl_Symbol;
        
        // Override chrome runtime
        if (window.chrome && window.chrome.runtime) {
            Object.defineProperty(window.chrome.runtime, 'onConnect', { value: undefined });
            Object.defineProperty(window.chrome.runtime, 'onMessage', { value: undefined });
        }
    })();
    "#;

/// Detection countermeasures of a browser session.
#[derive(Debug, Clone)]
pub struct StealthConfig {
    pub randomize_user_agents: bool,
    pub simulate_human_behavior: bool,
    pub proxy_rotation: bool,
    pub fingerprint_randomization: bool,
    pub viewport_randomization: bool,
    /// Bounds of random pauses, in milliseconds.
    pub delay_range: DelayRange,
}

impl Default for StealthConfig {
    /// Every countermeasure but proxy rotation, with pauses of one to five seconds.
    fn default() -> (r: StealthConfig)
        ensures
            r.randomize_user_agents,
            r.simulate_human_behavior,
            !r.proxy_rotation,
            r.fingerprint_randomization,
            r.viewport_randomization,
            r.delay_range == (DelayRange { min_ms: 1000, max_ms: 5000 }),
    {
        StealthConfig {
            randomize_user_agents: true,
            simulate_human_behavior: true,
            proxy_rotation: false,
            fingerprint_randomization: true,
            viewport_randomization: true,
            delay_range: DelayRange { min_ms: 1000, max_ms: 5000 },
        }
    }
}

/// Whether some text of the list has the characters `s`.
pub open spec fn one_of(list: Seq<String>, s: Seq<char>) -> bool {
    exists|i: int| 0 <= i < list.len() && #[trigger] list[i]@ == s
}

/// Picks one text of a non-empty list at random.
fn pick<'a>(list: &'a Vec<String>) -> (r: &'a String)
    requires
        list@.len() > 0,
    ensures
        one_of(list@, r@),
{
    let i = random_between(0, (list.len() - 1) as u64) as usize;
    assert(list@[i as int]@ == list[i as int]@);
    &list[i]
}

/// A pool of desktop browser user-agent strings to choose from.
pub struct UserAgentGenerator {
    user_agents: Vec<String>,
}

impl UserAgentGenerator {
    /// The user agents to choose from.
    pub closed spec fn choices(&self) -> Seq<String> {
        self.user_agents@
    }

    /// A generator over eight current Chrome and Firefox user agents.
    pub fn new() -> (r: UserAgentGenerator)
        ensures
            names_of(r.choices()) == seq![
                "Mozilla/5.0 (Windows NT 10.0; Win64; x64) AppleWebKit/537.36 (KHTML, like Gecko) Chrome/120.0.0.0 Safari/537.36"@,
                "Mozilla/5.0 (Windows NT 10.0; Win64; x64) AppleWebKit/537.36 (KHTML, like Gecko) Chrome/119.0.0.0 Safari/537.36"@,
                "Mozilla/5.0 (Macintosh; Intel Mac OS X 10_15_7) AppleWebKit/537.36 (KHTML, like Gecko) Chrome/120.0.0.0 Safari/537.36"@,
                "Mozilla/5.0 (Macintosh; Intel Mac OS X 10_15_7) AppleWebKit/537.36 (KHTML, like Gecko) Chrome/119.0.0.0 Safari/537.36"@,
                "Mozilla/5.0 (X11; Linux x86_64) AppleWebKit/537.36 (KHTML, like Gecko) Chrome/120.0.0.0 Safari/537.36"@,
                "Mozilla/5.0 (X11; Linux x86_64) AppleWebKit/537.36 (KHTML, like Gecko) Chrome/119.0.0.0 Safari/537.36"@,
                "Mozilla/5.0 (Windows NT 10.0; Win64; x64; rv:121.0) Gecko/20100101 Firefox/121.0"@,
                "Mozilla/5.0 (Macintosh; Intel Mac OS X 10.15; rv:121.0) Gecko/20100101 Firefox/121.0"@,
            ],
    {
        let mut user_agents: Vec<String> = Vec::new();
        user_agents.push(String::from_str("Mozilla/5.0 (Windows NT 10.0; Win64; x64) AppleWebKit/537.36 (KHTML, like Gecko) Chrome/120.0.0.0 Safari/537.36"));
        user_agents.push(String::from_str("Mozilla/5.0 (Windows NT 10.0; Win64; x64) AppleWebKit/537.36 (KHTML, like Gecko) Chrome/119.0.0.0 Safari/537.36"));
        user_agents.push(String::from_str("Mozilla/5.0 (Macintosh; Intel Mac OS X 10_15_7) AppleWebKit/537.36 (KHTML, like Gecko) Chrome/120.0.0.0 Safari/537.36"));
        user_agents.push(String::from_str("Mozilla/5.0 (Macintosh; Intel Mac OS X 10_15_7) AppleWebKit/537.36 (KHTML, like Gecko) Chrome/119.0.0.0 Safari/537.36"));
        user_agents.push(String::from_str("Mozilla/5.0 (X11; Linux x86_64) AppleWebKit/537.36 (KHTML, like Gecko) Chrome/120.0.0.0 Safari/537.36"));
        user_agents.push(String::from_str("Mozilla/5.0 (X11; Linux x86_64) AppleWebKit/537.36 (KHTML, like Gecko) Chrome/119.0.0.0 Safari/537.36"));
        user_agents.push(String::from_str("Mozilla/5.0 (Windows NT 10.0; Win64; x64; rv:121.0) Gecko/20100101 Firefox/121.0"));
        user_agents.push(String::from_str("Mozilla/5.0 (Macintosh; Intel Mac OS X 10.15; rv:121.0) Gecko/20100101 Firefox/121.0"));
        assert(names_of(user_agents@) =~= seq![
            "Mozilla/5.0 (Windows NT 10.0; Win64; x64) AppleWebKit/537.36 (KHTML, like Gecko) Chrome/120.0.0.0 Safari/537.36"@,
            "Mozilla/5.0 (Windows NT 10.0; Win64; x64) AppleWebKit/537.36 (KHTML, like Gecko) Chrome/119.0.0.0 Safari/537.36"@,
            "Mozilla/5.0 (Macintosh; Intel Mac OS X 10_15_7) AppleWebKit/537.36 (KHTML, like Gecko) Chrome/120.0.0.0 Safari/537.36"@,
            "Mozilla/5.0 (Macintosh; Intel Mac OS X 10_15_7) AppleWebKit/537.36 (KHTML, like Gecko) Chrome/119.0.0.0 Safari/537.36"@,
            "Mozilla/5.0 (X11; Linux x86_64) AppleWebKit/537.36 (KHTML, like Gecko) Chrome/120.0.0.0 Safari/537.36"@,
            "Mozilla/5.0 (X11; Linux x86_64) AppleWebKit/537.36 (KHTML, like Gecko) Chrome/119.0.0.0 Safari/537.36"@,
            "Mozilla/5.0 (Windows NT 10.0; Win64; x64; rv:121.0) Gecko/20100101 Firefox/121.0"@,
            "Mozilla/5.0 (Macintosh; Intel Mac OS X 10.15; rv:121.0) Gecko/20100101 Firefox/121.0"@,
        ]);
        UserAgentGenerator { user_agents }
    }

    /// One of the user agents, at random.
    pub fn random_user_agent(&self) -> (r: &str)
        requires
            self.choices().len() > 0,
        ensures
            one_of(self.choices(), r@),
    {
        pick(&self.user_agents).as_str()
    }
}

/// A browser window size in pixels.
#[derive(Debug, Clone, Copy, PartialEq, Eq, Structural)]
pub struct ViewportSize {
    pub width: u32,
    pub height: u32,
}

/// The properties a browser reports about itself.
#[derive(Debug, Clone)]
pub struct BrowserFingerprint {
    pub viewport: ViewportSize,
    /// An `Accept-Language` value such as `en-US,en;q=0.9`.
    pub language: String,
    pub timezone: String,
    pub platform: String,
    pub hardware_concurrency: u32,
    pub device_memory: u32,
}

/// Draws plausible browser fingerprints.
pub struct FingerprintRandomizer {
    viewports: Vec<ViewportSize>,
    languages: Vec<String>,
    timezones: Vec<String>,
}

impl FingerprintRandomizer {
    /// The window sizes to choose from.
    pub closed spec fn viewport_choices(&self) -> Seq<ViewportSize> {
        self.viewports@
    }

    /// The languages to choose from.
    pub closed spec fn language_choices(&self) -> Seq<String> {
        self.languages@
    }

    /// The time zones to choose from.
    pub closed spec fn timezone_choices(&self) -> Seq<String> {
        self.timezones@
    }

    /// A randomizer over seven common window sizes, four English locales and
    /// seven time zones.
    pub fn new() -> (r: FingerprintRandomizer)
        ensures
            r.viewport_choices() == seq![
                ViewportSize { width: 1920, height: 1080 },
                ViewportSize { width: 1366, height: 768 },
                ViewportSize { width: 1536, height: 864 },
                ViewportSize { width: 1440, height: 900 },
                ViewportSize { width: 1280, height: 720 },
                ViewportSize { width: 1600, height: 900 },
                ViewportSize { width: 2560, height: 1440 },
            ],
            names_of(r.language_choices()) == seq!["en-US,en;q=0.9"@, "en-GB,en;q=0.9"@, "en-CA,en;q=0.9"@, "en-AU,en;q=0.9"@],
            names_of(r.timezone_choices()) == seq![
                "America/New_York"@,
                "America/Los_Angeles"@,
                "America/Chicago"@,
                "America/Denver"@,
                "Europe/London"@,
                "Europe/Berlin"@,
                "Australia/Sydney"@,
            ],
    {
        let mut viewports: Vec<ViewportSize> = Vec::new();
        viewports.push(ViewportSize { width: 1920, height: 1080 });
        viewports.push(ViewportSize { width: 1366, height: 768 });
        viewports.push(ViewportSize { width: 1536, height: 864 });
        viewports.push(ViewportSize { width: 1440, height: 900 });
        viewports.push(ViewportSize { width: 1280, height: 720 });
        viewports.push(ViewportSize { width: 1600, height: 900 });
        viewports.push(ViewportSize { width: 2560, height: 1440 });
        let mut languages: Vec<String> = Vec::new();
        languages.push(String::from_str("en-US,en;q=0.9"));
        languages.push(String::from_str("en-GB,en;q=0.9"));
        languages.push(String::from_str("en-CA,en;q=0.9"));
        languages.push(String::from_str("en-AU,en;q=0.9"));
        let mut timezones: Vec<String> = Vec::new();
        timezones.push(String::from_str("America/New_York"));
        timezones.push(String::from_str("America/Los_Angeles"));
        timezones.push(String::from_str("America/Chicago"));
        timezones.push(String::from_str("America/Denver"));
        timezones.push(String::from_str("Europe/London"));
        timezones.push(String::from_str("Europe/Berlin"));
        timezones.push(String::from_str("Australia/Sydney"));
        assert(viewports@ =~= seq![
            ViewportSize { width: 1920, height: 1080 },
            ViewportSize { width: 1366, height: 768 },
            ViewportSize { width: 1536, height: 864 },
            ViewportSize { width: 1440, height: 900 },
            ViewportSize { width: 1280, height: 720 },
            ViewportSize { width: 1600, height: 900 },
            ViewportSize { width: 2560, height: 1440 },
        ]);
        assert(names_of(languages@) =~= seq!["en-US,en;q=0.9"@, "en-GB,en;q=0.9"@, "en-CA,en;q=0.9"@, "en-AU,en;q=0.9"@]);
        assert(names_of(timezones@) =~= seq![
            "America/New_York"@,
            "America/Los_Angeles"@,
            "America/Chicago"@,
            "America/Denver"@,
            "Europe/London"@,
            "Europe/Berlin"@,
            "Australia/Sydney"@,
        ]);
        FingerprintRandomizer { viewports, languages, timezones }
    }

    /// One of the window sizes, at random.
    pub fn random_viewport(&self) -> (r: &ViewportSize)
        requires
            self.viewport_choices().len() > 0,
        ensures
            self.viewport_choices().contains(*r),
    {
        let i = random_between(0, (self.viewports.len() - 1) as u64) as usize;
        assert(self.viewport_choices()[i as int] == self.viewports[i as int]);
        &self.viewports[i]
    }

    /// One of the languages, at random.
    pub fn random_language(&self) -> (r: &str)
        requires
            self.language_choices().len() > 0,
        ensures
            one_of(self.language_choices(), r@),
    {
        pick(&self.languages).as_str()
    }

    /// One of the time zones, at random.
    pub fn random_timezone(&self) -> (r: &str)
        requires
            self.timezone_choices().len() > 0,
        ensures
            one_of(self.timezone_choices(), r@),
    {
        pick(&self.timezones).as_str()
    }

    /// A fingerprint drawn at random: a listed window size, language and time
    /// zone, one of three platforms, 4 to 16 cores and 4, 8, 16 or 32 GB.
    pub fn generate_fingerprint(&self) -> (r: BrowserFingerprint)
        requires
            self.viewport_choices().len() > 0,
            self.language_choices().len() > 0,
            self.timezone_choices().len() > 0,
        ensures
            self.viewport_choices().contains(r.viewport),
            one_of(self.language_choices(), r.language@),
            one_of(self.timezone_choices(), r.timezone@),
            r.platform@ == "Win32"@ || r.platform@ == "MacIntel"@ || r.platform@ == "Linux x86_64"@,
            4 <= r.hardware_concurrency <= 16,
            r.device_memory == 4 || r.device_memory == 8 || r.device_memory == 16 || r.device_memory == 32,
    {
        BrowserFingerprint {
            viewport: *self.random_viewport(),
            language: String::from_str(self.random_language()),
            timezone: String::from_str(self.random_timezone()),
            platform: String::from_str(Self::random_platform()),
            hardware_concurrency: Self::random_hardware_concurrency(),
            device_memory: Self::random_device_memory(),
        }
    }

    /// One of `Win32`, `MacIntel`, `Linux x86_64`, at random.
    fn random_platform() -> (r: &'static str)
        ensures
            r@ == "Win32"@ || r@ == "MacIntel"@ || r@ == "Linux x86_64"@,
    {
        let i = random_between(0, 2);
        if i == 0 { "Win32" } else if i == 1 { "MacIntel" } else { "Linux x86_64" }
    }

    /// A core count from 4 to 16, at random.
    fn random_hardware_concurrency() -> (r: u32)
        ensures
            4 <= r <= 16,
    {
        random_between(4, 16) as u32
    }

    /// A memory size of 4, 8, 16 or 32 GB, at random.
    fn random_device_memory() -> (r: u32)
        ensures
            r == 4 || r == 8 || r == 16 || r == 32,
    {
        let i = random_between(0, 3);
        if i == 0 { 4 } else if i == 1 { 8 } else if i == 2 { 16 } else { 32 }
    }
}

/// Text in single quotes.
pub open spec fn quoted(s: Seq<char>) -> Seq<char> {
    "'"@ + s + "'"@
}

/// The page properties a fingerprint overrides, as pairs of property path and
/// script value, in a fixed order.
pub open spec fn js_overrides(f: BrowserFingerprint) -> Seq<(Seq<char>, Seq<char>)> {
    seq![
        ("navigator.language"@, quoted(before_first(f.language@, ','))),
        ("navigator.languages"@, "['"@ + remove_all(f.language@, ";q=0.9"@) + "']"@),
        ("navigator.platform"@, quoted(f.platform@)),
        ("navigator.hardwareConcurrency"@, decimal(f.hardware_concurrency as nat)),
        ("navigator.deviceMemory"@, decimal(f.device_memory as nat)),
        ("Intl.DateTimeFormat().resolvedOptions().timeZone"@, quoted(f.timezone@)),
    ]
}

/// The script line that fixes one overridden property.
pub open spec fn override_line(o: (Seq<char>, Seq<char>)) -> Seq<char> {
    "        Object.defineProperty(navigator, '"@ + remove_all(o.0, "navigator."@) + "', { value: "@ + o.1
        + ", writable: false });\n"@
}

/// The script lines for a list of overrides, in order.
pub open spec fn override_lines(os: Seq<(Seq<char>, Seq<char>)>) -> Seq<char>
    decreases os.len(),
{
    if os.len() == 0 {
        Seq::empty()
    } else {
        override_lines(os.drop_last()) + override_line(os.last())
    }
}

/// Text in single quotes.
fn quote(s: &str) -> (r: String)
    ensures
        r@ == quoted(s@),
{
    String::from_str("'").concat(s).concat("'")
}

impl BrowserFingerprint {
    /// The page properties this fingerprint overrides (see `js_overrides`).
    pub fn to_js_overrides(&self) -> (r: Vec<(String, String)>)
        ensures
            r@.map_values(|p: (String, String)| (p.0@, p.1@)) == js_overrides(*self),
    {
        let mut overrides: Vec<(String, String)> = Vec::new();
        overrides.push((String::from_str("navigator.language"), quote(text_before(self.language.as_str(), ','))));
        overrides.push((
            String::from_str("navigator.languages"),
            String::from_str("['").concat(text_without(self.language.as_str(), ";q=0.9").as_str()).concat("']"),
        ));
        overrides.push((String::from_str("navigator.platform"), quote(self.platform.as_str())));
        overrides.push((String::from_str("navigator.hardwareConcurrency"), decimal_text(self.hardware_concurrency as u64)));
        overrides.push((String::from_str("navigator.deviceMemory"), decimal_text(self.device_memory as u64)));
        overrides.push((String::from_str("Intl.DateTimeFormat().resolvedOptions().timeZone"), quote(self.timezone.as_str())));
        assert(overrides@.map_values(|p: (String, String)| (p.0@, p.1@)) =~= js_overrides(*self));
        overrides
    }
}

/// The script that hides video playback from the page.
pub fn generate_video_disable_script() -> (r: &'static str)
    ensures
        r@ == VIDEO_DISABLE_SCRIPT@,
{
    VIDEO_DISABLE_SCRIPT
}

/// The stealth script for a fingerprint: the fixed opening, one line per
/// overridden property, then the fixed part that hides automation.
pub fn generate_stealth_script(fingerprint: &BrowserFingerprint) -> (r: String)
    ensures
        r@ == STEALTH_SCRIPT_HEAD@ + override_lines(js_overrides(*fingerprint)) + STEALTH_SCRIPT_TAIL@,
{
    let overrides = fingerprint.to_js_overrides();
    let ghost os = overrides@.map_values(|p: (String, String)| (p.0@, p.1@));
    let mut script = String::from_str(STEALTH_SCRIPT_HEAD);
    let mut i: usize = 0;
    while i < overrides.len()
        invariant
            i <= overrides@.len(),
            os == overrides@.map_values(|p: (String, String)| (p.0@, p.1@)),
            script@ == STEALTH_SCRIPT_HEAD@ + override_lines(os.take(i as int)),
        decreases overrides@.len() - i,
    {
        let (property, value) = (&overrides[i].0, &overrides[i].1);
        let line = String::from_str("        Object.defineProperty(navigator, '")
            .concat(text_without(property.as_str(), "navigator.").as_str())
            .concat("', { value: ")
            .concat(value.as_str())
            .concat(", writable: false });\n");
        assert(os.take(i + 1).drop_last() == os.take(i as int));
        assert(os.take(i + 1).last() == (property@, value@));
        script.append(line.as_str());
        assert(script@ =~= STEALTH_SCRIPT_HEAD@ + override_lines(os.take(i + 1)));
        i = i + 1;
    }
    assert(os.take(i as int) == os);
    script.append(STEALTH_SCRIPT_TAIL);
    script
}

} // verus!
