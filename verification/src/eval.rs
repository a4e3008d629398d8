use vstd::prelude::*;
use vstd::string::*;

use crate::FPDetail;
use crate::FPDetailModel;
use crate::repo::opt_detail_model;
use crate::repo::spec_lookup;
use crate::value::FPValue;
use crate::value::FPValueModel;

verus! {

/// The reason reported when a toggle key is absent from the repository.
pub open spec fn not_found_reason(key: Seq<char>) -> Seq<char> {
    "Toggle "@ + key + " not found"@
}

/// The reason reported when a stored value does not coerce to the requested
/// type.
pub open spec fn mismatch_reason() -> Seq<char> {
    "Value type mismatch"@
}

/// The detail returned when no stored detail is served: the caller's default
/// and an explanatory reason, every other field empty.
pub open spec fn miss_detail<V>(default: V, reason: Seq<char>) -> FPDetailModel<V> {
    FPDetailModel {
        value: default,
        rule_index: None,
        variation_index: None,
        version: None,
        reason,
        track_access_events: None,
        debug_until_time: None,
    }
}

/// The detail returned for a served stored detail: every stored field
/// unchanged, with the value coerced to `v`.
pub open spec fn found_detail<V>(d: FPDetailModel<FPValueModel>, v: V) -> FPDetailModel<V> {
    FPDetailModel {
        value: v,
        rule_index: d.rule_index,
        variation_index: d.variation_index,
        version: d.version,
        reason: d.reason,
        track_access_events: d.track_access_events,
        debug_until_time: d.debug_until_time,
    }
}

/// The boolean detail computed from one lookup result.
pub open spec fn bool_detail_opt_spec(
    found: Option<FPDetailModel<FPValueModel>>,
    key: Seq<char>,
    default: bool,
) -> FPDetailModel<bool> {
    match found {
        None => miss_detail(default, not_found_reason(key)),
        Some(d) => match d.value.as_bool_spec() {
            None => miss_detail(default, mismatch_reason()),
            Some(b) => found_detail(d, b),
        },
    }
}

/// The string detail computed from one lookup result.
pub open spec fn string_detail_opt_spec(
    found: Option<FPDetailModel<FPValueModel>>,
    key: Seq<char>,
    default: Seq<char>,
) -> FPDetailModel<Seq<char>> {
    match found {
        None => miss_detail(default, not_found_reason(key)),
        Some(d) => match d.value.as_str_spec() {
            None => miss_detail(default, mismatch_reason()),
            Some(s) => found_detail(d, s),
        },
    }
}

/// The numeric detail computed from one lookup result; the value is the bit
/// pattern of an IEEE-754 double.
pub open spec fn number_detail_opt_spec(
    found: Option<FPDetailModel<FPValueModel>>,
    key: Seq<char>,
    default: u64,
) -> FPDetailModel<u64> {
    match found {
        None => miss_detail(default, not_found_reason(key)),
        Some(d) => match d.value.as_number_spec() {
            None => miss_detail(default, mismatch_reason()),
            Some(bits) => found_detail(d, bits),
        },
    }
}

/// The document detail computed from one lookup result: every stored value
/// serves, whatever its tag.
pub open spec fn json_detail_opt_spec(
    found: Option<FPDetailModel<FPValueModel>>,
    key: Seq<char>,
    default: FPValueModel,
) -> FPDetailModel<FPValueModel> {
    match found {
        None => miss_detail(default, not_found_reason(key)),
        Some(d) => found_detail(d, d.value),
    }
}

/// The boolean detail for `key` in repository `m`.
pub open spec fn bool_detail_spec(
    m: Map<Seq<char>, FPDetail<FPValue>>,
    key: Seq<char>,
    default: bool,
) -> FPDetailModel<bool> {
    bool_detail_opt_spec(spec_lookup(m, key), key, default)
}

/// The string detail for `key` in repository `m`.
pub open spec fn string_detail_spec(
    m: Map<Seq<char>, FPDetail<FPValue>>,
    key: Seq<char>,
    default: Seq<char>,
) -> FPDetailModel<Seq<char>> {
    string_detail_opt_spec(spec_lookup(m, key), key, default)
}

/// The numeric detail for `key` in repository `m`.
pub open spec fn number_detail_spec(
    m: Map<Seq<char>, FPDetail<FPValue>>,
    key: Seq<char>,
    default: u64,
) -> FPDetailModel<u64> {
    number_detail_opt_spec(spec_lookup(m, key), key, default)
}

/// The document detail for `key` in repository `m`.
pub open spec fn json_detail_spec(
    m: Map<Seq<char>, FPDetail<FPValue>>,
    key: Seq<char>,
    default: FPValueModel,
) -> FPDetailModel<FPValueModel> {
    json_detail_opt_spec(spec_lookup(m, key), key, default)
}

fn not_found_string(toggle: &str) -> (r: String)
    ensures
        r@ == not_found_reason(toggle@),
{
    let mut out = String::new();
    out.append("Toggle ");
    out.append(toggle);
    out.append(" not found");
    proof {
        assert(out@ =~= not_found_reason(toggle@));
    }
    out
}

/// Builds the boolean detail from one lookup result.
pub fn bool_detail_from(found: Option<FPDetail<FPValue>>, toggle: &str, default: bool) -> (r:
    FPDetail<bool>)
    ensures
        r@ == bool_detail_opt_spec(opt_detail_model(found), toggle@, default),
{
    let r = match found {
        None => FPDetail {
            value: default,
            rule_index: None,
            variation_index: None,
            version: None,
            reason: not_found_string(toggle),
            track_access_events: None,
            debug_until_time: None,
        },
        Some(d) => match d.value.as_bool() {
            None => FPDetail {
                value: default,
                rule_index: None,
                variation_index: None,
                version: None,
                reason: "Value type mismatch".to_owned(),
                track_access_events: None,
                debug_until_time: None,
            },
            Some(b) => FPDetail {
                value: b,
                rule_index: d.rule_index,
                variation_index: d.variation_index,
                version: d.version,
                reason: d.reason,
                track_access_events: d.track_access_events,
                debug_until_time: d.debug_until_time,
            },
        },
    };
    proof {
        assert(r@ =~~= bool_detail_opt_spec(opt_detail_model(found), toggle@, default));
    }
    r
}

/// Builds the string detail from one lookup result.
pub fn string_detail_from(found: Option<FPDetail<FPValue>>, toggle: &str, default: String) -> (r:
    FPDetail<String>)
    ensures
        r@ == string_detail_opt_spec(opt_detail_model(found), toggle@, default@),
{
    let ghost found0 = found;
    let r = match found {
        None => FPDetail {
            value: default,
            rule_index: None,
            variation_index: None,
            version: None,
            reason: not_found_string(toggle),
            track_access_events: None,
            debug_until_time: None,
        },
        Some(d) => match d.value.as_string() {
            None => FPDetail {
                value: default,
                rule_index: None,
                variation_index: None,
                version: None,
                reason: "Value type mismatch".to_owned(),
                track_access_events: None,
                debug_until_time: None,
            },
            Some(s) => FPDetail {
                value: s,
                rule_index: d.rule_index,
                variation_index: d.variation_index,
                version: d.version,
                reason: d.reason,
                track_access_events: d.track_access_events,
                debug_until_time: d.debug_until_time,
            },
        },
    };
    proof {
        assert(r@ =~~= string_detail_opt_spec(opt_detail_model(found0), toggle@, default@));
    }
    r
}

/// Builds the numeric detail from one lookup result; the value travels as
/// the bit pattern of an IEEE-754 double.
pub fn number_detail_from(found: Option<FPDetail<FPValue>>, toggle: &str, default: u64) -> (r:
    FPDetail<u64>)
    ensures
        r@ == number_detail_opt_spec(opt_detail_model(found), toggle@, default),
{
    let r = match found {
        None => FPDetail {
            value: default,
            rule_index: None,
            variation_index: None,
            version: None,
            reason: not_found_string(toggle),
            track_access_events: None,
            debug_until_time: None,
        },
        Some(d) => match d.value.as_number_bits() {
            None => FPDetail {
                value: default,
                rule_index: None,
                variation_index: None,
                version: None,
                reason: "Value type mismatch".to_owned(),
                track_access_events: None,
                debug_until_time: None,
            },
            Some(bits) => FPDetail {
                value: bits,
                rule_index: d.rule_index,
                variation_index: d.variation_index,
                version: d.version,
                reason: d.reason,
                track_access_events: d.track_access_events,
                debug_until_time: d.debug_until_time,
            },
        },
    };
    proof {
        assert(r@ =~~= number_detail_opt_spec(opt_detail_model(found), toggle@, default));
    }
    r
}

/// Builds the document detail from one lookup result.
pub fn json_detail_from(found: Option<FPDetail<FPValue>>, toggle: &str, default: FPValue) -> (r:
    FPDetail<FPValue>)
    ensures
        r@ == json_detail_opt_spec(opt_detail_model(found), toggle@, default@),
{
    let ghost found0 = found;
    let r = match found {
        None => FPDetail {
            value: default,
            rule_index: None,
            variation_index: None,
            version: None,
            reason: not_found_string(toggle),
            track_access_events: None,
            debug_until_time: None,
        },
        Some(d) => FPDetail {
            value: d.value,
            rule_index: d.rule_index,
            variation_index: d.variation_index,
            version: d.version,
            reason: d.reason,
            track_access_events: d.track_access_events,
            debug_until_time: d.debug_until_time,
        },
    };
    proof {
        assert(r@ =~~= json_detail_opt_spec(opt_detail_model(found0), toggle@, default@));
    }
    r
}

// ---------------------------------------------------------------------------
// Laws of the lookup API
// ---------------------------------------------------------------------------
/// For every present key whose stored value carries the requested type, the
/// detail keeps the stored reason, rule index, variation index, version and
/// event fields unchanged, and its value is the stored value coerced.
pub proof fn lemma_present_key_preserves_fields_bool(
    m: Map<Seq<char>, FPDetail<FPValue>>,
    key: Seq<char>,
    default: bool,
)
    requires
        m.contains_key(key),
        m[key]@.value.as_bool_spec() is Some,
    ensures
        bool_detail_spec(m, key, default) == found_detail(
            m[key]@,
            m[key]@.value.as_bool_spec()->Some_0,
        ),
{
}

/// The string form of the present-key law.
pub proof fn lemma_present_key_preserves_fields_string(
    m: Map<Seq<char>, FPDetail<FPValue>>,
    key: Seq<char>,
    default: Seq<char>,
)
    requires
        m.contains_key(key),
        m[key]@.value.as_str_spec() is Some,
    ensures
        string_detail_spec(m, key, default) == found_detail(
            m[key]@,
            m[key]@.value.as_str_spec()->Some_0,
        ),
{
}

/// The numeric form of the present-key law.
pub proof fn lemma_present_key_preserves_fields_number(
    m: Map<Seq<char>, FPDetail<FPValue>>,
    key: Seq<char>,
    default: u64,
)
    requires
        m.contains_key(key),
        m[key]@.value.as_number_spec() is Some,
    ensures
        number_detail_spec(m, key, default) == found_detail(m[key]@, m[key]@.value.as_number_spec()->Some_0),
{
}

/// The document form of the present-key law: every stored value serves.
pub proof fn lemma_present_key_preserves_fields_json(
    m: Map<Seq<char>, FPDetail<FPValue>>,
    key: Seq<char>,
    default: FPValueModel,
)
    requires
        m.contains_key(key),
    ensures
        json_detail_spec(m, key, default) == found_detail(m[key]@, m[key]@.value),
{
}

/// For every absent key the lookup degrades to the caller's default, and the
/// reason says the toggle was not found — it ends in the words " not found".
pub proof fn lemma_absent_key_defaults(
    m: Map<Seq<char>, FPDetail<FPValue>>,
    key: Seq<char>,
    default: bool,
)
    requires
        !m.contains_key(key),
    ensures
        bool_detail_spec(m, key, default).value == default,
        bool_detail_spec(m, key, default).reason == not_found_reason(key),
        bool_detail_spec(m, key, default).reason.skip(7 + key.len() as int) == " not found"@,
        bool_detail_spec(m, key, default).version is None,
        bool_detail_spec(m, key, default).rule_index is None,
        bool_detail_spec(m, key, default).variation_index is None,
{
    reveal_strlit("Toggle ");
    reveal_strlit(" not found");
    assert(not_found_reason(key).skip(7 + key.len() as int) =~= " not found"@);
}

/// The string form of the absent-key law.
pub proof fn lemma_absent_key_defaults_string(
    m: Map<Seq<char>, FPDetail<FPValue>>,
    key: Seq<char>,
    default: Seq<char>,
)
    requires
        !m.contains_key(key),
    ensures
        string_detail_spec(m, key, default) == miss_detail(default, not_found_reason(key)),
{
}

/// The numeric form of the absent-key law.
pub proof fn lemma_absent_key_defaults_number(
    m: Map<Seq<char>, FPDetail<FPValue>>,
    key: Seq<char>,
    default: u64,
)
    requires
        !m.contains_key(key),
    ensures
        number_detail_spec(m, key, default) == miss_detail(default, not_found_reason(key)),
{
}

/// The document form of the absent-key law.
pub proof fn lemma_absent_key_defaults_json(
    m: Map<Seq<char>, FPDetail<FPValue>>,
    key: Seq<char>,
    default: FPValueModel,
)
    requires
        !m.contains_key(key),
    ensures
        json_detail_spec(m, key, default) == miss_detail(default, not_found_reason(key)),
{
}

/// For every present key whose stored value does not carry the requested
/// type, the detail degrades to the caller's default with the exact reason
/// `Value type mismatch`.
pub proof fn lemma_type_mismatch_defaults(
    m: Map<Seq<char>, FPDetail<FPValue>>,
    key: Seq<char>,
    default: bool,
)
    requires
        m.contains_key(key),
        m[key]@.value.as_bool_spec() is None,
    ensures
        bool_detail_spec(m, key, default) == miss_detail(default, "Value type mismatch"@),
{
}

/// The string form of the type-mismatch law.
pub proof fn lemma_type_mismatch_defaults_string(
    m: Map<Seq<char>, FPDetail<FPValue>>,
    key: Seq<char>,
    default: Seq<char>,
)
    requires
        m.contains_key(key),
        m[key]@.value.as_str_spec() is None,
    ensures
        string_detail_spec(m, key, default) == miss_detail(default, "Value type mismatch"@),
{
}

/// The numeric form of the type-mismatch law.
pub proof fn lemma_type_mismatch_defaults_number(
    m: Map<Seq<char>, FPDetail<FPValue>>,
    key: Seq<char>,
    default: u64,
)
    requires
        m.contains_key(key),
        m[key]@.value.as_number_spec() is None,
    ensures
        number_detail_spec(m, key, default) == miss_detail(default, "Value type mismatch"@),
{
}

} // verus!
