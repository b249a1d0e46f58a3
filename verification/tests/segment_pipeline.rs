use usage_segment::config::OptionValue;
use usage_segment::config::SegmentConfig;
use usage_segment::config::SegmentOptions;
use usage_segment::config::SettingsSnapshot;
use usage_segment::pipeline::collect;
use usage_segment::usage::SubscriptionRecord;
use usage_segment::usage::UsageRecord;

fn enabled_segment(api_key: Option<OptionValue>) -> Option<SegmentConfig> {
    Some(SegmentConfig {
        enabled: true,
        options: SegmentOptions { api_key, usage_url: None, subscription_url: None },
    })
}

fn no_settings() -> SettingsSnapshot {
    SettingsSnapshot { api_key: None, usage_url: None }
}

#[test]
fn unresolved_key_yields_placeholder() {
    let segment = enabled_segment(Some(OptionValue::Text(String::new())));
    let r = collect(&segment, &no_settings(), &None, &None);
    let d = r.expect("placeholder expected");
    assert_eq!(d.primary, "not configured");
    assert_eq!(d.secondary, "");
    assert!(d.metadata.is_empty());
}

#[test]
fn disabled_segment_yields_nothing() {
    let segment = Some(SegmentConfig {
        enabled: false,
        options: SegmentOptions {
            api_key: Some(OptionValue::Text("key".to_string())),
            usage_url: None,
            subscription_url: None,
        },
    });
    assert!(collect(&segment, &no_settings(), &None, &None).is_none());
}

#[test]
fn absent_segment_yields_nothing() {
    assert!(collect(&None, &no_settings(), &None, &None).is_none());
}

#[test]
fn failed_usage_fetch_suppresses_segment() {
    let segment = enabled_segment(Some(OptionValue::Text("key".to_string())));
    assert!(collect(&segment, &no_settings(), &None, &None).is_none());
}

#[test]
fn full_pipeline_normal_branch() {
    let segment = enabled_segment(Some(OptionValue::Text("key".to_string())));
    let usage = Some(UsageRecord {
        used_tokens: 500,
        remaining_tokens: 500,
        credit_limit_cents: 1000,
    });
    let d = collect(&segment, &no_settings(), &usage, &None).expect("segment expected");
    assert_eq!(d.primary, "$5.00/$10");
    assert_eq!(d.secondary, "remaining: $5.00");
}

#[test]
fn full_pipeline_exhausted_branch() {
    let segment = enabled_segment(Some(OptionValue::Text("key".to_string())));
    let usage = Some(UsageRecord {
        used_tokens: 1500,
        remaining_tokens: -500,
        credit_limit_cents: 1000,
    });
    let subs = Some(vec![SubscriptionRecord { is_active: true, reset_times: 1 }]);
    let d = collect(&segment, &no_settings(), &usage, &subs).expect("segment expected");
    assert_eq!(d.primary, "$15.00/$10 exhausted");
    assert_eq!(d.secondary, "1 resets available, reset manually");
}

#[test]
fn settings_key_reaches_pipeline() {
    let segment = enabled_segment(None);
    let settings = SettingsSnapshot { api_key: Some("sk-123".to_string()), usage_url: None };
    let usage = Some(UsageRecord {
        used_tokens: 0,
        remaining_tokens: 1000,
        credit_limit_cents: 1000,
    });
    let d = collect(&segment, &settings, &usage, &None).expect("segment expected");
    assert_eq!(d.primary, "$0.00/$10");
    assert_eq!(d.secondary, "remaining: $10.00");
}
