//! The display decision: from a usage record and, when the quota is
//! exhausted, the fetched subscription list, to the two-line segment
//! text and its metadata.

use crate::render::dec_digits;
use crate::render::dollars_0dp;
use crate::render::dollars_2dp;
use crate::render::format_dollars_0dp;
use crate::render::format_dollars_2dp;
use crate::render::u64_to_string;
use crate::usage::clamped_remaining;
use crate::usage::spec_clamped_remaining;
use crate::usage::SubscriptionRecord;
use crate::usage::UsageRecord;
use vstd::prelude::*;
use vstd::string::StrSliceExecFns;
use vstd::string::StringExecFns;

verus! {

/// One unit of status-line output: two lines of text and a mapping of
/// numeric values, as key/value pairs in a fixed order.
#[derive(Debug)]
pub struct SegmentData {
    pub primary: String,
    pub secondary: String,
    pub metadata: Vec<(String, String)>,
}

/// The subscriptions that are currently usable, in fetched order.
pub open spec fn spec_active(list: Seq<SubscriptionRecord>) -> Seq<SubscriptionRecord>
    decreases list.len(),
{
    if list.len() == 0 {
        Seq::empty()
    } else if list.last().is_active {
        spec_active(list.drop_last()).push(list.last())
    } else {
        spec_active(list.drop_last())
    }
}

/// The primary line: used dollars to two decimals and the credit
/// limit to whole dollars, marked when the quota is exhausted.
pub open spec fn spec_primary(u: UsageRecord) -> Seq<char> {
    let base = "$"@ + dollars_2dp(u.used_tokens as nat) + "/$"@ + dollars_0dp(
        u.credit_limit_cents as nat,
    );
    if u.spec_is_exhausted() {
        base + " exhausted"@
    } else {
        base
    }
}

/// The secondary line when the quota is exhausted: with several active
/// subscriptions, a hint that other plans are available; with exactly
/// one, its remaining reset count or the lack of one; with none, or
/// when the fetch failed, the generic recharge-or-reset instruction.
pub open spec fn spec_exhausted_secondary(subs: Option<Seq<SubscriptionRecord>>) -> Seq<char> {
    match subs {
        None => "recharge or reset quota"@,
        Some(list) => {
            let active = spec_active(list);
            if active.len() > 1 {
                "other plans available"@
            } else if active.len() == 1 {
                if active[0].reset_times > 0 {
                    dec_digits(active[0].reset_times as nat) + " resets available, reset manually"@
                } else {
                    "no resets remain"@
                }
            } else {
                "recharge or reset quota"@
            }
        },
    }
}

/// The secondary line: the clamped remaining amount while the quota
/// lasts, else the exhaustion hint.
pub open spec fn spec_secondary(u: UsageRecord, subs: Option<Seq<SubscriptionRecord>>) -> Seq<
    char,
> {
    if u.spec_is_exhausted() {
        spec_exhausted_secondary(subs)
    } else {
        "remaining: $"@ + dollars_2dp(spec_clamped_remaining(u.remaining_tokens as int))
    }
}

/// The metadata holds used, total and remaining, each as dollars to
/// two decimals, in that order.
pub open spec fn spec_metadata(m: Seq<(String, String)>, u: UsageRecord) -> bool {
    &&& m.len() == 3
    &&& m[0].0@ == "used"@
    &&& m[0].1@ == dollars_2dp(u.used_tokens as nat)
    &&& m[1].0@ == "total"@
    &&& m[1].1@ == dollars_2dp(u.credit_limit_cents as nat)
    &&& m[2].0@ == "remaining"@
    &&& m[2].1@ == dollars_2dp(spec_clamped_remaining(u.remaining_tokens as int))
}

/// What the decider owes for a usage record and a subscription fetch
/// outcome.
pub open spec fn spec_display(d: SegmentData, u: UsageRecord, subs: Option<
    Seq<SubscriptionRecord>,
>) -> bool {
    &&& d.primary@ == spec_primary(u)
    &&& d.secondary@ == spec_secondary(u, subs)
    &&& spec_metadata(d.metadata@, u)
}

/// The view of an optional subscription list.
pub open spec fn opt_subs_view(o: Option<Vec<SubscriptionRecord>>) -> Option<
    Seq<SubscriptionRecord>,
> {
    match o {
        Some(v) => Some(v@),
        None => None,
    }
}

/// Law: a usage record strictly within its credit limit is not
/// exhausted, and the display takes the normal branch: an unmarked
/// primary line and the remaining amount as the secondary line.
pub proof fn lemma_within_limit_normal_branch(
    u: UsageRecord,
    subs: Option<Seq<SubscriptionRecord>>,
)
    requires
        u.used_tokens < u.credit_limit_cents,
    ensures
        !u.spec_is_exhausted(),
        spec_primary(u) == "$"@ + dollars_2dp(u.used_tokens as nat) + "/$"@ + dollars_0dp(
            u.credit_limit_cents as nat,
        ),
        spec_secondary(u, subs) == "remaining: $"@ + dollars_2dp(
            spec_clamped_remaining(u.remaining_tokens as int),
        ),
{
}

/// The subscriptions with their active flag set, in order.
fn active_subscriptions(list: &Vec<SubscriptionRecord>) -> (v: Vec<SubscriptionRecord>)
    ensures
        v@ == spec_active(list@),
{
    let mut v: Vec<SubscriptionRecord> = Vec::new();
    let mut i: usize = 0;
    while i < list.len()
        invariant
            i <= list.len(),
            v@ == spec_active(list@.subrange(0, i as int)),
        decreases list.len() - i,
    {
        proof {
            let pre = list@.subrange(0, i + 1 as int);
            assert(pre.drop_last() =~= list@.subrange(0, i as int));
            assert(pre.last() == list@[i as int]);
        }
        if list[i].is_active {
            v.push(list[i]);
        }
        i = i + 1;
    }
    proof {
        assert(list@.subrange(0, list@.len() as int) =~= list@);
    }
    v
}

/// The exhausted-branch secondary line, as `spec_exhausted_secondary`
/// states it.
fn exhausted_secondary(subs: &Option<Vec<SubscriptionRecord>>) -> (s: String)
    ensures
        s@ == spec_exhausted_secondary(opt_subs_view(*subs)),
{
    match subs {
        None => "recharge or reset quota".to_owned(),
        Some(list) => {
            let active = active_subscriptions(list);
            if active.len() > 1 {
                "other plans available".to_owned()
            } else if active.len() == 1 {
                let n = active[0].reset_times;
                if n > 0 {
                    let mut s = u64_to_string(n);
                    s.append(" resets available, reset manually");
                    s
                } else {
                    "no resets remain".to_owned()
                }
            } else {
                "recharge or reset quota".to_owned()
            }
        },
    }
}

/// Decide the display for a usage record and the outcome of the
/// conditional subscription fetch. Pure: equal inputs give equal text.
pub fn decide_display(usage: &UsageRecord, subscriptions: &Option<Vec<SubscriptionRecord>>) -> (d:
    SegmentData)
    ensures
        spec_display(d, *usage, opt_subs_view(*subscriptions)),
{
    let used_str = format_dollars_2dp(usage.used_tokens);
    let total_whole = format_dollars_0dp(usage.credit_limit_cents);
    let total_str = format_dollars_2dp(usage.credit_limit_cents);
    let remaining_str = format_dollars_2dp(clamped_remaining(usage.remaining_tokens));

    let mut metadata: Vec<(String, String)> = Vec::new();
    metadata.push(("used".to_owned(), used_str.clone()));
    metadata.push(("total".to_owned(), total_str));
    metadata.push(("remaining".to_owned(), remaining_str.clone()));

    let mut primary = "$".to_owned();
    primary.append(used_str.as_str());
    primary.append("/$");
    primary.append(total_whole.as_str());

    if usage.is_exhausted() {
        primary.append(" exhausted");
        let secondary = exhausted_secondary(subscriptions);
        proof {
            assert(primary@ =~= spec_primary(*usage));
        }
        SegmentData { primary, secondary, metadata }
    } else {
        let mut secondary = "remaining: $".to_owned();
        secondary.append(remaining_str.as_str());
        proof {
            assert(primary@ =~= spec_primary(*usage));
        }
        SegmentData { primary, secondary, metadata }
    }
}

} // verus!
