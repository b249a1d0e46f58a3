//! The segment pipeline: resolution, short-circuits and the display
//! decision in one call.
//!
//! The two network fetches belong to the embedding program; their
//! outcomes come in as plain optional values, an absent value standing
//! for any fetch failure. The subscription outcome matters only when
//! the usage record reports exhaustion.

use crate::config::resolve_credentials;
use crate::config::spec_api_key;
use crate::config::Resolution;
use crate::config::SegmentConfig;
use crate::config::SettingsSnapshot;
use crate::decide::decide_display;
use crate::decide::opt_subs_view;
use crate::decide::spec_display;
use crate::decide::SegmentData;
use crate::usage::SubscriptionRecord;
use crate::usage::UsageRecord;
use vstd::prelude::*;
use vstd::string::StringExecFns;

verus! {

/// The fixed placeholder shown when no API key resolves: a marker
/// text, an empty secondary line and no metadata.
pub open spec fn spec_placeholder(d: SegmentData) -> bool {
    &&& d.primary@ == "not configured"@
    &&& d.secondary@ == Seq::<char>::empty()
    &&& d.metadata@ == Seq::<(String, String)>::empty()
}

/// The placeholder segment for an unconfigured API key.
pub fn placeholder_segment() -> (d: SegmentData)
    ensures
        spec_placeholder(d),
{
    let d = SegmentData {
        primary: "not configured".to_owned(),
        secondary: String::new(),
        metadata: Vec::new(),
    };
    proof {
        assert(d.secondary@ =~= Seq::<char>::empty());
        assert(d.metadata@ =~= Seq::<(String, String)>::empty());
    }
    d
}

/// Produce the segment for one invocation.
///
/// An absent or disabled segment yields nothing; an unresolved API key
/// yields the fixed placeholder; a failed usage fetch suppresses the
/// segment; otherwise the display is decided from the usage record and
/// the subscription fetch outcome.
pub fn collect(
    segment: &Option<SegmentConfig>,
    settings: &SettingsSnapshot,
    usage: &Option<UsageRecord>,
    subscriptions: &Option<Vec<SubscriptionRecord>>,
) -> (r: Option<SegmentData>)
    ensures
        match *segment {
            None => r is None,
            Some(seg) => {
                if !seg.enabled {
                    r is None
                } else if spec_api_key(seg.options, *settings) is None {
                    (r matches Some(d) && spec_placeholder(d))
                } else {
                    match *usage {
                        None => r is None,
                        Some(u) => (r matches Some(d) && spec_display(
                            d,
                            u,
                            opt_subs_view(*subscriptions),
                        )),
                    }
                }
            },
        },
{
    match resolve_credentials(segment, settings) {
        Resolution::Disabled => None,
        Resolution::NotConfigured => Some(placeholder_segment()),
        Resolution::Configured(_) => {
            match usage {
                None => None,
                Some(u) => Some(decide_display(u, subscriptions)),
            }
        },
    }
}

} // verus!
