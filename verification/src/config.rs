//! Resolution of credentials and endpoint URLs.
//!
//! Each value is taken from the segment's own options first, then from
//! the shared settings store, then from a fixed default. An empty
//! string in the options counts as absent for the API key and the
//! usage URL; a subscription URL option is taken as it stands, empty
//! or not.

use vstd::prelude::*;
use vstd::string::StrSliceExecFns;

verus! {

/// One loosely-typed value of the segment's options mapping. Only
/// string values can supply an override; anything else is kept as
/// `NonText` and treated as absent.
#[derive(Debug)]
pub enum OptionValue {
    Text(String),
    NonText,
}

/// The three overrides the segment's options may hold.
#[derive(Debug)]
pub struct SegmentOptions {
    pub api_key: Option<OptionValue>,
    pub usage_url: Option<OptionValue>,
    pub subscription_url: Option<OptionValue>,
}

/// The segment's entry in the global configuration.
#[derive(Debug)]
pub struct SegmentConfig {
    pub enabled: bool,
    pub options: SegmentOptions,
}

/// The fallback values the shared settings store supplies.
#[derive(Debug)]
pub struct SettingsSnapshot {
    pub api_key: Option<String>,
    pub usage_url: Option<String>,
}

/// Credentials and endpoints resolved for one invocation.
#[derive(Debug)]
pub struct Credentials {
    pub api_key: String,
    pub usage_url: String,
    pub subscription_url: String,
}

/// The outcome of resolution: the segment is switched off, no API key
/// could be found, or a full set of credentials.
#[derive(Debug)]
pub enum Resolution {
    Disabled,
    NotConfigured,
    Configured(Credentials),
}

/// The fixed default endpoint for usage queries.
pub open spec fn spec_default_usage_url() -> Seq<char> {
    "https://www.88code.org/api/usage"@
}

/// The fixed default endpoint for subscription queries.
pub open spec fn spec_default_subscription_url() -> Seq<char> {
    "https://www.88code.org/api/subscription"@
}

/// The view of an optional string.
pub open spec fn opt_text_view(o: Option<String>) -> Option<Seq<char>> {
    match o {
        Some(s) => Some(s@),
        None => None,
    }
}

/// The string an option entry holds, if it holds one.
pub open spec fn spec_text_of(v: Option<OptionValue>) -> Option<Seq<char>> {
    match v {
        Some(OptionValue::Text(s)) => Some(s@),
        _ => None,
    }
}

/// The string an option entry holds, with an empty string counting as
/// absent.
pub open spec fn spec_nonempty_text_of(v: Option<OptionValue>) -> Option<Seq<char>> {
    match spec_text_of(v) {
        Some(s) => if s.len() > 0 {
            Some(s)
        } else {
            None
        },
        None => None,
    }
}

/// The resolved API key: a non-empty options value first, then the
/// settings store; an empty result from either tier leaves the key
/// unresolved.
pub open spec fn spec_api_key(opts: SegmentOptions, st: SettingsSnapshot) -> Option<Seq<char>> {
    let candidate = match spec_nonempty_text_of(opts.api_key) {
        Some(k) => Some(k),
        None => opt_text_view(st.api_key),
    };
    match candidate {
        Some(k) => if k.len() > 0 {
            Some(k)
        } else {
            None
        },
        None => None,
    }
}

/// The resolved usage URL: a non-empty options value first, then the
/// settings store as it stands, then the fixed default.
pub open spec fn spec_usage_url(opts: SegmentOptions, st: SettingsSnapshot) -> Seq<char> {
    match spec_nonempty_text_of(opts.usage_url) {
        Some(u) => u,
        None => match opt_text_view(st.usage_url) {
            Some(u) => u,
            None => spec_default_usage_url(),
        },
    }
}

/// The resolved subscription URL: any string options value as it
/// stands, empty or not, else the fixed default.
pub open spec fn spec_subscription_url(opts: SegmentOptions) -> Seq<char> {
    match spec_text_of(opts.subscription_url) {
        Some(u) => u,
        None => spec_default_subscription_url(),
    }
}

/// Law: without a subscription_url option, the resolved subscription
/// URL is exactly the fixed default.
pub proof fn lemma_subscription_url_default(opts: SegmentOptions)
    requires
        opts.subscription_url is None,
    ensures
        spec_subscription_url(opts) == spec_default_subscription_url(),
{
}

fn resolve_api_key(opts: &SegmentOptions, st: &SettingsSnapshot) -> (r: Option<String>)
    ensures
        opt_text_view(r) == spec_api_key(*opts, *st),
{
    let mut key: Option<String> = None;
    match &opts.api_key {
        Some(OptionValue::Text(s)) => {
            if !s.as_str().is_empty() {
                key = Some(s.clone());
            }
        },
        _ => {},
    }
    if key.is_none() {
        match &st.api_key {
            Some(k) => {
                key = Some(k.clone());
            },
            None => {},
        }
    }
    match key {
        Some(k) => {
            if k.as_str().is_empty() {
                None
            } else {
                Some(k)
            }
        },
        None => None,
    }
}

fn resolve_usage_url(opts: &SegmentOptions, st: &SettingsSnapshot) -> (r: String)
    ensures
        r@ == spec_usage_url(*opts, *st),
{
    match &opts.usage_url {
        Some(OptionValue::Text(s)) => {
            if !s.as_str().is_empty() {
                return s.clone();
            }
        },
        _ => {},
    }
    match &st.usage_url {
        Some(u) => u.clone(),
        None => "https://www.88code.org/api/usage".to_owned(),
    }
}

fn resolve_subscription_url(opts: &SegmentOptions) -> (r: String)
    ensures
        r@ == spec_subscription_url(*opts),
{
    match &opts.subscription_url {
        Some(OptionValue::Text(s)) => s.clone(),
        _ => "https://www.88code.org/api/subscription".to_owned(),
    }
}

/// Resolve credentials for one invocation.
///
/// An absent or disabled segment yields `Disabled`; a missing API key
/// yields `NotConfigured`; otherwise the key, usage URL and
/// subscription URL are resolved through their fallback tiers.
pub fn resolve_credentials(segment: &Option<SegmentConfig>, settings: &SettingsSnapshot) -> (r:
    Resolution)
    ensures
        match *segment {
            None => r is Disabled,
            Some(seg) => {
                if !seg.enabled {
                    r is Disabled
                } else {
                    match spec_api_key(seg.options, *settings) {
                        None => r is NotConfigured,
                        Some(k) => (r matches Resolution::Configured(c) && c.api_key@ == k
                            && c.usage_url@ == spec_usage_url(seg.options, *settings)
                            && c.subscription_url@ == spec_subscription_url(seg.options)),
                    }
                }
            },
        },
{
    let seg = match segment {
        Some(s) => s,
        None => {
            return Resolution::Disabled;
        },
    };
    if !seg.enabled {
        return Resolution::Disabled;
    }
    let api_key = match resolve_api_key(&seg.options, settings) {
        Some(k) => k,
        None => {
            return Resolution::NotConfigured;
        },
    };
    let usage_url = resolve_usage_url(&seg.options, settings);
    let subscription_url = resolve_subscription_url(&seg.options);
    Resolution::Configured(Credentials { api_key, usage_url, subscription_url })
}

} // verus!
