use chat_agents::agent::DelayRange;
use chat_agents::stealth::{
    generate_stealth_script, generate_video_disable_script, BrowserFingerprint, FingerprintRandomizer,
    StealthConfig, UserAgentGenerator, ViewportSize,
};

#[test]
fn test_stealth_config_default() {
    let config = StealthConfig::default();

    assert!(config.randomize_user_agents);
    assert!(config.simulate_human_behavior);
    assert!(config.fingerprint_randomization);
    assert!(config.viewport_randomization);
    assert_eq!(config.delay_range, DelayRange { min_ms: 1000, max_ms: 5000 });
}

#[test]
fn test_user_agent_generation() {
    let generator = UserAgentGenerator::new();
    let user_agent = generator.random_user_agent();

    assert!(!user_agent.is_empty(), "User agent should not be empty");
    assert!(user_agent.contains("Mozilla"), "User agent should contain Mozilla");
}

#[test]
fn test_fingerprint_generation() {
    let randomizer = FingerprintRandomizer::new();
    let fingerprint = randomizer.generate_fingerprint();

    assert!(fingerprint.viewport.width > 0, "Viewport width should be positive");
    assert!(fingerprint.viewport.height > 0, "Viewport height should be positive");
    assert!(!fingerprint.language.is_empty(), "Language should not be empty");
    assert!(!fingerprint.timezone.is_empty(), "Timezone should not be empty");
    assert!(!fingerprint.platform.is_empty(), "Platform should not be empty");
    assert!(fingerprint.hardware_concurrency > 0, "Hardware concurrency should be positive");
    assert!(fingerprint.device_memory > 0, "Device memory should be positive");
}

#[test]
fn test_video_disable_script_generation() {
    let script = generate_video_disable_script();

    assert!(!script.is_empty(), "Video disable script should not be empty");
    assert!(script.contains("video"), "Script should contain video element handling");
    assert!(script.contains("pause"), "Script should pause videos");
    assert!(script.contains("remove"), "Script should remove video elements");
}

#[test]
fn test_stealth_script_generation() {
    let randomizer = FingerprintRandomizer::new();
    let fingerprint = randomizer.generate_fingerprint();
    let script = generate_stealth_script(&fingerprint);

    assert!(!script.is_empty(), "Stealth script should not be empty");
    assert!(script.contains("navigator"), "Script should modify navigator properties");
    assert!(script.contains("webdriver"), "Script should hide webdriver property");
}

fn sample_fingerprint() -> BrowserFingerprint {
    BrowserFingerprint {
        viewport: ViewportSize { width: 1920, height: 1080 },
        language: "en-GB,en;q=0.9".to_string(),
        timezone: "Europe/London".to_string(),
        platform: "MacIntel".to_string(),
        hardware_concurrency: 12,
        device_memory: 16,
    }
}

#[test]
fn js_overrides_are_exact_and_ordered() {
    let overrides = sample_fingerprint().to_js_overrides();
    let expected: Vec<(String, String)> = vec![
        ("navigator.language".to_string(), "'en-GB'".to_string()),
        ("navigator.languages".to_string(), "['en-GB,en']".to_string()),
        ("navigator.platform".to_string(), "'MacIntel'".to_string()),
        ("navigator.hardwareConcurrency".to_string(), "12".to_string()),
        ("navigator.deviceMemory".to_string(), "16".to_string()),
        ("Intl.DateTimeFormat().resolvedOptions().timeZone".to_string(), "'Europe/London'".to_string()),
    ];
    assert_eq!(overrides, expected);
}

#[test]
fn stealth_script_has_one_line_per_override() {
    let script = generate_stealth_script(&sample_fingerprint());
    assert!(script.contains("        Object.defineProperty(navigator, 'platform', { value: 'MacIntel', writable: false });\n"));
    assert!(script.contains("        Object.defineProperty(navigator, 'deviceMemory', { value: 16, writable: false });\n"));
    assert!(script.contains("        Object.defineProperty(navigator, 'languages', { value: ['en-GB,en'], writable: false });\n"));
    let language_line = script.find("'language',").unwrap();
    let timezone_line = script.find("timeZone").unwrap();
    assert!(language_line < timezone_line);
    assert_eq!(script.matches("Object.defineProperty(navigator, '").count(), 8);
}

#[test]
fn generated_fingerprints_stay_within_their_choices() {
    let randomizer = FingerprintRandomizer::new();
    for _ in 0..50 {
        let f = randomizer.generate_fingerprint();
        assert!(["Win32", "MacIntel", "Linux x86_64"].contains(&f.platform.as_str()));
        assert!((4..=16).contains(&f.hardware_concurrency));
        assert!([4, 8, 16, 32].contains(&f.device_memory));
        assert!(f.language.starts_with("en-"));
    }
}
