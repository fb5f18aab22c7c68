use sanglier::queue::{BuildError, PostHogBuilder};

#[test]
fn default_configuration() {
    let b = PostHogBuilder::default();
    assert_eq!(b.tick_ms, 2000);
    assert_eq!(b.api_key, "");
    assert_eq!(b.base_url, "");
    assert_eq!(b.user_agent, "sanglier/0.1.0");
}

#[test]
fn batch_delay_sets_tick() {
    let b = PostHogBuilder::default().batch_delay(250);
    assert_eq!(b.tick_ms, 250);
}

#[test]
fn official_regions() {
    let us = PostHogBuilder::default().in_official_us_region();
    assert_eq!(us.base_url, "https://us.i.posthog.com");
    let eu = PostHogBuilder::default().in_official_eu_region();
    assert_eq!(eu.base_url, "https://eu.i.posthog.com");
}

#[test]
fn base_url_trims_trailing_slashes() {
    let b = PostHogBuilder::default().with_base_url("https://ph.example.com/");
    assert_eq!(b.base_url, "https://ph.example.com");
    let b = PostHogBuilder::default().with_base_url("https://ph.example.com///");
    assert_eq!(b.base_url, "https://ph.example.com");
    let b = PostHogBuilder::default().with_base_url("https://ph.example.com");
    assert_eq!(b.base_url, "https://ph.example.com");
    let b = PostHogBuilder::default().with_base_url("///");
    assert_eq!(b.base_url, "");
}

#[test]
fn key_and_user_agent() {
    let b = PostHogBuilder::default().with_api_key("phc_123").with_user_agent("app/2.0");
    assert_eq!(b.api_key, "phc_123");
    assert_eq!(b.user_agent, "app/2.0");
}

#[test]
fn build_config_requires_api_key() {
    let r = PostHogBuilder::default().with_base_url("https://ph.example.com").build_config();
    assert!(matches!(r, Err(BuildError::MissingApiKey)));
}

#[test]
fn build_config_requires_base_url() {
    let r = PostHogBuilder::default().with_api_key("phc_123").build_config();
    assert!(matches!(r, Err(BuildError::MissingBaseUrl)));
}

#[test]
fn build_config_keeps_values() {
    let c = PostHogBuilder::default()
        .batch_delay(100)
        .with_base_url("https://ph.example.com/")
        .with_api_key("phc_123")
        .build_config()
        .unwrap();
    assert_eq!(c.tick_ms, 100);
    assert_eq!(c.api_key, "phc_123");
    assert_eq!(c.base_url, "https://ph.example.com");
    assert_eq!(c.batch_endpoint(), "https://ph.example.com/batch");
}
