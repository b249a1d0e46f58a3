use usage_segment::decide::decide_display;
use usage_segment::usage::SubscriptionRecord;
use usage_segment::usage::UsageRecord;

fn standard_metadata(used: &str, total: &str, remaining: &str) -> Vec<(String, String)> {
    vec![
        ("used".to_string(), used.to_string()),
        ("total".to_string(), total.to_string()),
        ("remaining".to_string(), remaining.to_string()),
    ]
}

#[test]
fn normal_branch_display() {
    let usage = UsageRecord { used_tokens: 500, remaining_tokens: 500, credit_limit_cents: 1000 };
    let d = decide_display(&usage, &None);
    assert_eq!(d.primary, "$5.00/$10");
    assert_eq!(d.secondary, "remaining: $5.00");
    assert_eq!(d.metadata, standard_metadata("5.00", "10.00", "5.00"));
}

#[test]
fn negative_remaining_displays_as_zero() {
    let usage = UsageRecord { used_tokens: 400, remaining_tokens: -50, credit_limit_cents: 1000 };
    let d = decide_display(&usage, &None);
    assert_eq!(d.secondary, "remaining: $0.00");
    assert_eq!(d.metadata, standard_metadata("4.00", "10.00", "0.00"));
}

#[test]
fn exhausted_two_active_plans() {
    let usage = UsageRecord { used_tokens: 1000, remaining_tokens: 0, credit_limit_cents: 1000 };
    let subs = Some(vec![
        SubscriptionRecord { is_active: true, reset_times: 0 },
        SubscriptionRecord { is_active: true, reset_times: 4 },
    ]);
    let d = decide_display(&usage, &subs);
    assert_eq!(d.primary, "$10.00/$10 exhausted");
    assert_eq!(d.secondary, "other plans available");
    assert_eq!(d.metadata, standard_metadata("10.00", "10.00", "0.00"));
}

#[test]
fn exhausted_one_plan_with_resets() {
    let usage = UsageRecord { used_tokens: 1200, remaining_tokens: -200, credit_limit_cents: 1000 };
    let subs = Some(vec![SubscriptionRecord { is_active: true, reset_times: 2 }]);
    let d = decide_display(&usage, &subs);
    assert_eq!(d.primary, "$12.00/$10 exhausted");
    assert_eq!(d.secondary, "2 resets available, reset manually");
}

#[test]
fn exhausted_one_plan_without_resets() {
    let usage = UsageRecord { used_tokens: 1000, remaining_tokens: 0, credit_limit_cents: 1000 };
    let subs = Some(vec![SubscriptionRecord { is_active: true, reset_times: 0 }]);
    let d = decide_display(&usage, &subs);
    assert_eq!(d.secondary, "no resets remain");
}

#[test]
fn exhausted_failed_subscription_fetch() {
    let usage = UsageRecord { used_tokens: 1000, remaining_tokens: 0, credit_limit_cents: 1000 };
    let d = decide_display(&usage, &None);
    assert_eq!(d.primary, "$10.00/$10 exhausted");
    assert_eq!(d.secondary, "recharge or reset quota");
    assert_eq!(d.metadata, standard_metadata("10.00", "10.00", "0.00"));
}

#[test]
fn exhausted_no_active_plans() {
    let usage = UsageRecord { used_tokens: 1000, remaining_tokens: 0, credit_limit_cents: 1000 };
    let subs = Some(vec![
        SubscriptionRecord { is_active: false, reset_times: 9 },
        SubscriptionRecord { is_active: false, reset_times: 3 },
    ]);
    let d = decide_display(&usage, &subs);
    assert_eq!(d.secondary, "recharge or reset quota");
}

#[test]
fn inactive_plans_are_ignored() {
    let usage = UsageRecord { used_tokens: 1000, remaining_tokens: 0, credit_limit_cents: 1000 };
    let subs = Some(vec![
        SubscriptionRecord { is_active: false, reset_times: 9 },
        SubscriptionRecord { is_active: true, reset_times: 3 },
    ]);
    let d = decide_display(&usage, &subs);
    assert_eq!(d.secondary, "3 resets available, reset manually");
}
