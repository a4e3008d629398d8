use vstd::prelude::*;
use vstd::string::*;

pub mod encode;
pub mod eval;
pub mod events;
pub mod feature_probe;
pub mod mobile;
pub mod repo;
pub mod sync;
pub mod urls;
pub mod user;
pub mod value;

pub use events::AccessEvent;
pub use events::CustomEvent;
pub use events::DebugEvent;
pub use events::Event;
pub use events::EventRecorder;
pub use feature_probe::FPConfig;
pub use feature_probe::FeatureProbe;
pub use mobile::FPBoolDetail;
pub use mobile::FPJsonDetail;
pub use mobile::FPStrDetail;
pub use mobile::FPUrl;
pub use mobile::FPUrlBuilder;
pub use mobile::generate_key;
pub use repo::Repository;
pub use repo::RepositoryCache;
pub use repo::Snapshot;
pub use sync::FetchOutcome;
pub use sync::StopFlag;
pub use sync::SyncType;
pub use sync::Synchronizer;
pub use url::Url;
pub use user::FPUser;
pub use user::FPUserModel;
pub use value::FPValue;
pub use value::FPValueModel;

use crate::encode::char_string;

verus! {

/// One pre-evaluated toggle decision, as delivered by the remote evaluator
/// and served to the embedding application.
///
/// `T` is the value type: the storage layer keeps the dynamically typed
/// [`FPValue`], and the typed lookup API narrows it to `bool`, `String`,
/// a numeric bit pattern or a structured document at read time.
pub struct FPDetail<T> {
    pub value: T,
    pub rule_index: Option<usize>,
    pub variation_index: Option<usize>,
    pub version: Option<u64>,
    pub reason: String,
    pub track_access_events: Option<bool>,
    pub debug_until_time: Option<u128>,
}

/// The mathematical model of an [`FPDetail`]: the same fields with the value
/// and the reason replaced by their own models.
#[verifier::ext_equal]
pub struct FPDetailModel<V> {
    pub value: V,
    pub rule_index: Option<usize>,
    pub variation_index: Option<usize>,
    pub version: Option<u64>,
    pub reason: Seq<char>,
    pub track_access_events: Option<bool>,
    pub debug_until_time: Option<u128>,
}

impl<T: View> View for FPDetail<T> {
    type V = FPDetailModel<T::V>;

    open spec fn view(&self) -> FPDetailModel<T::V> {
        FPDetailModel {
            value: self.value@,
            rule_index: self.rule_index,
            variation_index: self.variation_index,
            version: self.version,
            reason: self.reason@,
            track_access_events: self.track_access_events,
            debug_until_time: self.debug_until_time,
        }
    }
}

impl Clone for FPDetail<FPValue> {
    fn clone(&self) -> (r: Self)
        ensures
            r@ == self@,
    {
        let r = FPDetail {
            value: self.value.clone(),
            rule_index: self.rule_index,
            variation_index: self.variation_index,
            version: self.version,
            reason: self.reason.clone(),
            track_access_events: self.track_access_events,
            debug_until_time: self.debug_until_time,
        };
        proof {
            assert(r@ =~~= self@);
        }
        r
    }
}

/// The recoverable failures of one synchronization attempt. They are logged
/// at the synchronizer boundary and never reach the evaluation API.
#[derive(Debug)]
pub enum FPError {
    /// The response body did not parse as a repository.
    JsonError(String),
    /// A transport-level failure or a non-success status.
    HttpError(String),
    /// A malformed configured endpoint.
    UrlError(String),
}

impl FPError {
    /// The human-readable description of the failure, prefixed by its
    /// kind.
    pub fn message(&self) -> (r: String)
        ensures
            r@ == self.message_spec(),
    {
        match self {
            FPError::JsonError(m) => "invalid json: ".to_owned().concat(m.as_str()),
            FPError::HttpError(m) => "invalid http: ".to_owned().concat(m.as_str()),
            FPError::UrlError(m) => "invalid url: ".to_owned().concat(m.as_str()),
        }
    }

    pub open spec fn message_spec(&self) -> Seq<char> {
        match self {
            FPError::JsonError(m) => "invalid json: "@ + m@,
            FPError::HttpError(m) => "invalid http: "@ + m@,
            FPError::UrlError(m) => "invalid url: "@ + m@,
        }
    }
}

/// The client SDK key, sent as the `Authorization` header of every
/// sync and event-upload request. Turning it into a header value is
/// transport work and lives outside the library.
pub struct SdkAuthorization(pub String);

/// `s` with an ASCII-lowercase first character raised to upper case.
pub open spec fn spec_capitalize(s: Seq<char>) -> Seq<char> {
    if s.len() == 0 {
        s
    } else if 'a' <= s[0] && s[0] <= 'z' {
        seq![((s[0] as int) - 32) as char] + s.drop_first()
    } else {
        s
    }
}

/// The `User-Agent` of every request: the platform name (empty means the
/// language-binding build, and `ios` is branded `iOS`) over the SDK version.
pub open spec fn spec_user_agent(target_os: Seq<char>, version: Seq<char>) -> Seq<char> {
    let os = if target_os.len() == 0 {
        "uniffi"@
    } else {
        target_os
    };
    let name = if os == "ios"@ {
        "iOS"@
    } else {
        spec_capitalize(os)
    };
    name + "/"@ + version
}

/// Builds the `User-Agent` string sent with sync and event-upload requests.
pub fn user_agent(target_os: &str, version: &str) -> (r: String)
    ensures
        r@ == spec_user_agent(target_os@, version@),
{
    let os_len: usize = target_os.unicode_len();
    let mut out = String::new();
    if os_len == 0 {
        out.append("Uniffi");
        proof {
            reveal_strlit("uniffi");
            reveal_strlit("Uniffi");
            reveal_strlit("ios");
            assert(out@ =~= spec_capitalize("uniffi"@));
            assert("uniffi"@ != "ios"@);
        }
    } else if os_len == 3 && target_os.get_char(0) == 'i' && target_os.get_char(1) == 'o'
        && target_os.get_char(2) == 's' {
        out.append("iOS");
        proof {
            reveal_strlit("ios");
            reveal_strlit("iOS");
            assert(target_os@ =~= "ios"@);
            assert(out@ =~= "iOS"@);
        }
    } else {
        let c = target_os.get_char(0);
        if 'a' <= c && c <= 'z' {
            let upper = ((c as u8) - 32) as char;
            let head = char_string(upper);
            out.append(head.as_str());
            let rest = target_os.substring_char(1, os_len);
            out.append(rest);
            proof {
                assert(out@ =~= spec_capitalize(target_os@));
            }
        } else {
            out.append(target_os);
            proof {
                assert(out@ =~= spec_capitalize(target_os@));
            }
        }
        proof {
            reveal_strlit("ios");
            assert(target_os@ != "ios"@);
        }
    }
    out.append("/");
    out.append(version);
    proof {
        assert(out@ =~= spec_user_agent(target_os@, version@));
    }
    out
}

} // verus!
