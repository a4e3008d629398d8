use vstd::prelude::*;
use vstd::string::*;

use crate::FPDetail;
use crate::encode::decimal_string;
use crate::encode::digit_char;
use crate::encode::escape_json;
use crate::encode::spec_decimal;
use crate::urls::parse_url;
use crate::urls::url_parse_ok;
use crate::value::FPValue;
use crate::value::FPValueModel;
use std::sync::Arc;
use url::Url;

verus! {

/// A boolean lookup's detail as the device bindings carry it: the rule index
/// narrowed to sixteen bits.
pub struct FPBoolDetail {
    pub value: bool,
    pub rule_index: Option<u16>,
    pub version: Option<u64>,
    pub reason: String,
}

/// A string lookup's detail as the device bindings carry it.
pub struct FPStrDetail {
    pub value: String,
    pub rule_index: Option<u16>,
    pub version: Option<u64>,
    pub reason: String,
}

/// A document lookup's detail as the device bindings carry it: the value
/// serialized to JSON text.
pub struct FPJsonDetail {
    pub value: String,
    pub rule_index: Option<u16>,
    pub version: Option<u64>,
    pub reason: String,
}

/// A rule index narrowed to sixteen bits, as the bindings' integer cast
/// narrows it: the low bits survive.
pub fn index_u16(i: usize) -> (r: u16)
    ensures
        r == i % 0x10000,
{
    (i % 0x10000) as u16
}

/// The sixteen-bit narrowing of an optional rule index.
pub open spec fn spec_index_u16(i: Option<usize>) -> Option<u16> {
    match i {
        Some(x) => Some((x % 0x10000) as u16),
        None => None,
    }
}

impl FPBoolDetail {
    /// The binding view of a boolean detail.
    pub fn from_detail(d: FPDetail<bool>) -> (r: FPBoolDetail)
        ensures
            r.value == d@.value,
            r.rule_index == spec_index_u16(d@.rule_index),
            r.version == d@.version,
            r.reason@ == d@.reason,
    {
        FPBoolDetail {
            value: d.value,
            rule_index: (match d.rule_index {
                Some(i) => Some(index_u16(i)),
                None => None,
            }),
            version: d.version,
            reason: d.reason,
        }
    }
}

impl FPStrDetail {
    /// The binding view of a string detail.
    pub fn from_detail(d: FPDetail<String>) -> (r: FPStrDetail)
        ensures
            r.value@ == d@.value,
            r.rule_index == spec_index_u16(d@.rule_index),
            r.version == d@.version,
            r.reason@ == d@.reason,
    {
        FPStrDetail {
            value: d.value,
            rule_index: (match d.rule_index {
                Some(i) => Some(index_u16(i)),
                None => None,
            }),
            version: d.version,
            reason: d.reason,
        }
    }
}

/// The JSON text of a non-numeric dynamic value: numbers render through the
/// transport's floating-point formatter, outside the library.
pub open spec fn spec_json_text(v: FPValueModel) -> Option<Seq<char>> {
    match v {
        FPValueModel::Null => Some("null"@),
        FPValueModel::Bool(b) => Some(if b { "true"@ } else { "false"@ }),
        FPValueModel::Str(s) => Some("\""@ + escape_json(s) + "\""@),
        FPValueModel::Document(s) => Some(s),
        FPValueModel::Number(_) => None,
    }
}

/// Serializes a non-numeric dynamic value to JSON text.
pub fn json_text(v: &FPValue) -> (r: Option<String>)
    ensures
        (match r {
            Some(s) => spec_json_text(v@) == Some(s@),
            None => spec_json_text(v@) is None,
        }),
{
    match v {
        FPValue::Null => Some("null".to_owned()),
        FPValue::Bool(b) => {
            if *b {
                Some("true".to_owned())
            } else {
                Some("false".to_owned())
            }
        },
        FPValue::Str(s) => {
            let mut out = String::new();
            out.append("\"");
            crate::encode::append_escaped(&mut out, s.as_str());
            out.append("\"");
            proof {
                assert(out@ =~= "\""@ + escape_json(s@) + "\""@);
            }
            Some(out)
        },
        FPValue::Document(s) => Some(s.clone()),
        FPValue::Number(_) => None,
    }
}

/// The parsed endpoints of one remote evaluator, each beside the composed
/// text it was parsed from.
#[derive(Debug)]
pub struct FPUrl {
    pub toggles_url: Url,
    pub events_url: Url,
    pub realtime_url: Url,
    pub toggles_text: String,
    pub events_text: String,
    pub realtime_text: String,
}

/// Composes the three endpoint URLs from one base, with optional overrides
/// for the toggles and events endpoints.
pub struct FPUrlBuilder {
    remote_url: String,
    toggles_url: Option<String>,
    events_url: Option<String>,
}

/// The model of a builder: the base and the overrides.
pub struct FPUrlBuilderModel {
    pub remote_url: Seq<char>,
    pub toggles_url: Option<Seq<char>>,
    pub events_url: Option<Seq<char>>,
}

impl View for FPUrlBuilder {
    type V = FPUrlBuilderModel;

    closed spec fn view(&self) -> FPUrlBuilderModel {
        FPUrlBuilderModel {
            remote_url: self.remote_url@,
            toggles_url: (match self.toggles_url {
                Some(ref s) => Some(s@),
                None => None,
            }),
            events_url: (match self.events_url {
                Some(ref s) => Some(s@),
                None => None,
            }),
        }
    }
}

/// The base with a trailing slash ensured.
pub open spec fn spec_normalized(remote: Seq<char>) -> Seq<char> {
    if remote.len() > 0 && remote.last() == '/' {
        remote
    } else {
        remote + "/"@
    }
}

/// The realtime endpoint composed from the base.
pub open spec fn spec_realtime_url(remote: Seq<char>) -> Seq<char> {
    spec_normalized(remote) + "/realtime"@
}

/// The toggles endpoint: the override, or the conventional path on the base.
pub open spec fn spec_toggles_url(remote: Seq<char>, over: Option<Seq<char>>) -> Seq<char> {
    match over {
        Some(u) => u,
        None => spec_normalized(remote) + "api/client-sdk/toggles"@,
    }
}

/// The events endpoint: the override, or the conventional path on the base.
pub open spec fn spec_events_url(remote: Seq<char>, over: Option<Seq<char>>) -> Seq<char> {
    match over {
        Some(u) => u,
        None => spec_normalized(remote) + "api/events"@,
    }
}

impl FPUrlBuilder {
    /// A builder over one base URL, with no overrides.
    pub fn new(remote_url: String) -> (r: FPUrlBuilder)
        ensures
            r@.remote_url == remote_url@,
            r@.toggles_url is None,
            r@.events_url is None,
    {
        FPUrlBuilder { remote_url, toggles_url: None, events_url: None }
    }

    /// A builder over one base URL with the given endpoint overrides.
    pub fn new_urls(remote_url: String, toggles_url: Option<String>, events_url: Option<
        String,
    >) -> (r: FPUrlBuilder)
        ensures
            r@.remote_url == remote_url@,
            (match toggles_url {
                Some(u) => r@.toggles_url == Some(u@),
                None => r@.toggles_url is None,
            }),
            (match events_url {
                Some(u) => r@.events_url == Some(u@),
                None => r@.events_url is None,
            }),
    {
        FPUrlBuilder { remote_url, toggles_url, events_url }
    }

    /// Composes and parses the three endpoints: `Some` exactly when all
    /// three composed strings parse as URLs, and then carrying exactly those
    /// composed strings beside their parsed forms.
    pub fn build(&self) -> (r: Option<Arc<FPUrl>>)
        ensures
            (r is Some) <==> (url_parse_ok(spec_toggles_url(self@.remote_url, self@.toggles_url))
                && url_parse_ok(spec_events_url(self@.remote_url, self@.events_url))
                && url_parse_ok(spec_realtime_url(self@.remote_url))),
            (match r {
                Some(u) => {
                    &&& u.toggles_text@ == spec_toggles_url(self@.remote_url, self@.toggles_url)
                    &&& u.events_text@ == spec_events_url(self@.remote_url, self@.events_url)
                    &&& u.realtime_text@ == spec_realtime_url(self@.remote_url)
                },
                None => true,
            }),
    {
        let n: usize = self.remote_url.as_str().unicode_len();
        let mut remote = String::new();
        remote.append(self.remote_url.as_str());
        if n == 0 || self.remote_url.as_str().get_char(n - 1) != '/' {
            remote.append("/");
        }
        proof {
            assert(remote@ =~= spec_normalized(self@.remote_url));
        }

        let mut realtime = String::new();
        realtime.append(remote.as_str());
        realtime.append("/realtime");

        let toggles = match &self.toggles_url {
            Some(u) => u.clone(),
            None => {
                let mut t = String::new();
                t.append(remote.as_str());
                t.append("api/client-sdk/toggles");
                t
            },
        };
        proof {
            assert(toggles@ =~= spec_toggles_url(self@.remote_url, self@.toggles_url));
        }

        let events = match &self.events_url {
            Some(u) => u.clone(),
            None => {
                let mut e = String::new();
                e.append(remote.as_str());
                e.append("api/events");
                e
            },
        };
        proof {
            assert(events@ =~= spec_events_url(self@.remote_url, self@.events_url));
            assert(realtime@ =~= spec_realtime_url(self@.remote_url));
        }

        let toggles_url = match parse_url(toggles.as_str()) {
            Some(u) => u,
            None => {
                return None;
            },
        };
        let events_url = match parse_url(events.as_str()) {
            Some(u) => u,
            None => {
                return None;
            },
        };
        let realtime_url = match parse_url(realtime.as_str()) {
            Some(u) => u,
            None => {
                return None;
            },
        };
        Some(
            Arc::new(
                FPUrl {
                    toggles_url,
                    events_url,
                    realtime_url,
                    toggles_text: toggles,
                    events_text: events,
                    realtime_text: realtime,
                },
            ),
        )
    }
}

/// Relies on std::time::SystemTime: the machine clock's microseconds since
/// the Unix epoch, or zero when the clock reads earlier than the epoch.
/// Nothing is assumed of the result.
#[verifier::external_body]
fn unix_timestamp_micros() -> u128 {
    std::time::SystemTime::now().duration_since(std::time::UNIX_EPOCH).map(
        |d| d.as_micros(),
    ).unwrap_or(0)
}

/// Every decimal rendering is at least one character, all of them digits.
pub proof fn lemma_decimal_is_digits(n: nat)
    ensures
        spec_decimal(n).len() >= 1,
        forall|i: int|
            0 <= i < spec_decimal(n).len() ==> '0' <= #[trigger] spec_decimal(n)[i] && spec_decimal(
                n,
            )[i] <= '9',
    decreases n,
{
    if n >= 10 {
        lemma_decimal_is_digits(n / 10);
        assert(spec_decimal(n) == spec_decimal(n / 10) + seq![digit_char((n % 10) as int)]);
    }
}

/// A fresh default user key: the clock reading, rendered in decimal — at
/// least one character, all of them digits.
pub fn generate_key() -> (r: String)
    ensures
        r@.len() >= 1,
        forall|i: int| 0 <= i < r@.len() ==> '0' <= #[trigger] r@[i] && r@[i] <= '9',
{
    let micros = unix_timestamp_micros();
    let r = decimal_string(micros);
    proof {
        lemma_decimal_is_digits(micros as nat);
    }
    r
}

} // verus!
