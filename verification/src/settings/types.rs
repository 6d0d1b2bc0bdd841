//! The known settings, their defaults, and validation.

use crate::settings::error::ServiceError;
use crate::settings::snapshot::SettingsSnapshot;
use crate::text::{
    decimal, digit_char, digits_value, is_unicode_whitespace, lemma_trim_idempotent, parse_u8, parse_u8_spec,
    str_eq, trim, trim_end_spec, trim_spec, trim_start_spec, u8_to_decimal, unsigned_digits,
};
use vstd::prelude::*;
use vstd::utf8::*;

verus! {

broadcast use vstd::string::group_string_axioms;

/// The settings the service starts with: volume 5, dark theme, metric units.
pub open spec fn defaults_map() -> Map<Seq<char>, Seq<char>> {
    Map::empty().insert("volume"@, "5"@).insert("theme"@, "dark"@).insert("units"@, "metric"@)
}

/// The default settings the service starts with.
pub fn defaults() -> (r: SettingsSnapshot)
    ensures
        r@ == defaults_map(),
{
    let mut m = SettingsSnapshot::new();
    m.insert("volume".to_string(), "5".to_string());
    m.insert("theme".to_string(), "dark".to_string());
    m.insert("units".to_string(), "metric".to_string());
    m
}

/// The outcome of validating a key/value pair.
pub enum Validation {
    /// The pair is accepted; the value to store is the normalized one.
    Accepted(Seq<char>),
    /// The key is not a known setting.
    UnknownKey,
    /// The value is not allowed for the key.
    InvalidValue,
}

/// Validation of a key/value pair against the known settings:
/// - `volume`: the trimmed value read as a decimal `u8` (`str::parse`), at
///   most 10, stored in plain decimal (`"07"` becomes `"7"`);
/// - `theme`: `light` or `dark`, trimmed;
/// - `units`: `metric` or `imperial`, trimmed;
/// - any other key is unknown. Keys are compared exactly.
pub open spec fn validate_spec(key: Seq<char>, value: Seq<char>) -> Validation {
    let t = trim_spec(value);
    if key == "volume"@ {
        match parse_u8_spec(encode_utf8(t)) {
            Some(v) => if v <= 10 {
                Validation::Accepted(decimal(v as nat))
            } else {
                Validation::InvalidValue
            },
            None => Validation::InvalidValue,
        }
    } else if key == "theme"@ {
        if t == "light"@ || t == "dark"@ {
            Validation::Accepted(t)
        } else {
            Validation::InvalidValue
        }
    } else if key == "units"@ {
        if t == "metric"@ || t == "imperial"@ {
            Validation::Accepted(t)
        } else {
            Validation::InvalidValue
        }
    } else {
        Validation::UnknownKey
    }
}

/// `r` is what validating `key` and `value` returns: the normalized value,
/// or the error naming the unknown key, or the key and the rejected value.
pub open spec fn validated(key: Seq<char>, value: Seq<char>, r: Result<String, ServiceError>) -> bool {
    match validate_spec(key, value) {
        Validation::Accepted(n) => r matches Ok(s) && s@ == n,
        Validation::UnknownKey => r matches Err(ServiceError::UnknownKey(k)) && k@ == key,
        Validation::InvalidValue => r matches Err(ServiceError::InvalidValue { key: k, value: v })
            && k@ == key && v@ == value,
    }
}

/// Validate and normalize a `key`/`value` pair against the known settings.
///
/// Returns the normalized value to store (e.g. `"07"` → `"7"` for volume).
///
/// # Errors
/// - [`ServiceError::UnknownKey`] if `key` is not a recognized setting.
/// - [`ServiceError::InvalidValue`] if `value` is out of range / not allowed.
pub fn validate(key: &str, value: &str) -> (r: Result<String, ServiceError>)
    ensures
        validated(key@, value@, r),
{
    let t = trim(value);
    if str_eq(key, "volume") {
        match parse_u8(t) {
            Some(v) => {
                if v <= 10 {
                    return Ok(u8_to_decimal(v));
                }
            },
            None => {},
        }
        Err(ServiceError::InvalidValue { key: key.to_string(), value: value.to_string() })
    } else if str_eq(key, "theme") {
        if str_eq(t, "light") || str_eq(t, "dark") {
            Ok(t.to_string())
        } else {
            Err(ServiceError::InvalidValue { key: key.to_string(), value: value.to_string() })
        }
    } else if str_eq(key, "units") {
        if str_eq(t, "metric") || str_eq(t, "imperial") {
            Ok(t.to_string())
        } else {
            Err(ServiceError::InvalidValue { key: key.to_string(), value: value.to_string() })
        }
    } else {
        Err(ServiceError::UnknownKey(key.to_string()))
    }
}

// ----- Laws -----

/// The settings the service knows: volume, theme and units.
pub open spec fn known_key(k: Seq<char>) -> bool {
    k == "volume"@ || k == "theme"@ || k == "units"@
}

/// A store holds exactly the known settings, each in its normalized form.
pub open spec fn store_valid(m: Map<Seq<char>, Seq<char>>) -> bool {
    &&& forall|k: Seq<char>| m.contains_key(k) <==> known_key(k)
    &&& forall|k: Seq<char>|
        #![trigger m[k]]
        m.contains_key(k) ==> validate_spec(k, m[k]) == Validation::Accepted(m[k])
}

/// A short decimal number is its own trimmed text, and reads back as itself.
proof fn lemma_volume_text(v: u8)
    requires
        v <= 10,
    ensures
        trim_spec(decimal(v as nat)) == decimal(v as nat),
        parse_u8_spec(encode_utf8(decimal(v as nat))) == Some(v),
{
    let d = decimal(v as nat);
    reveal_with_fuel(decimal, 2);
    if v < 10 {
        assert(d == seq![digit_char(v as nat)]);
    } else {
        assert(decimal(1) == seq![digit_char(1)]);
        assert(d == seq![digit_char(1), digit_char(0)]);
    }
    assert(is_ascii_chars(d));
    is_ascii_chars_encode_utf8(d);
    assert(!is_unicode_whitespace(d[0]));
    assert(!is_unicode_whitespace(d.last()));
    assert(trim_start_spec(d) == d);
    assert(trim_end_spec(d) == d);
    let b = encode_utf8(d);
    assert(unsigned_digits(b) == b);
    if v < 10 {
        assert(b.drop_last().len() == 0);
        assert(digits_value(b.drop_last()) == 0);
        assert(b.last() == b[0] && b[0] == v + 0x30);
        assert(digits_value(b) == v);
    } else {
        let b1 = b.drop_last();
        assert(b1.len() == 1 && b1.last() == b[0] && b[0] == 0x31);
        assert(b1.drop_last().len() == 0);
        assert(digits_value(b1.drop_last()) == 0);
        assert(digits_value(b1) == 1);
        assert(digits_value(b) == 10);
    }
}

/// Every volume level from 0 to 10, written as a plain decimal, is accepted
/// and stored as written.
pub proof fn every_volume_level_is_accepted(n: u8)
    requires
        n <= 10,
    ensures
        validate_spec("volume"@, decimal(n as nat)) == Validation::Accepted(decimal(n as nat)),
{
    reveal_strlit("volume");
    lemma_volume_text(n);
}

/// A volume whose trimmed text reads as a `u8` is accepted, as the plain
/// decimal of that number, exactly when the number is at most 10; any other
/// volume text is an invalid value.
pub proof fn volume_accepts_exactly_levels_up_to_ten(value: Seq<char>)
    ensures
        match parse_u8_spec(encode_utf8(trim_spec(value))) {
            Some(v) => if v <= 10 {
                validate_spec("volume"@, value) == Validation::Accepted(decimal(v as nat))
            } else {
                validate_spec("volume"@, value) == Validation::InvalidValue
            },
            None => validate_spec("volume"@, value) == Validation::InvalidValue,
        },
{
}

/// The theme is "light" or "dark" and the units are "metric" or "imperial",
/// after trimming; these are stored trimmed, and anything else is an invalid
/// value.
pub proof fn word_settings_accept_exactly_their_words(value: Seq<char>)
    ensures
        validate_spec("theme"@, value) == if trim_spec(value) == "light"@ || trim_spec(value)
            == "dark"@ {
            Validation::Accepted(trim_spec(value))
        } else {
            Validation::InvalidValue
        },
        validate_spec("units"@, value) == if trim_spec(value) == "metric"@ || trim_spec(value)
            == "imperial"@ {
            Validation::Accepted(trim_spec(value))
        } else {
            Validation::InvalidValue
        },
{
    reveal_strlit("volume");
    reveal_strlit("theme");
    reveal_strlit("units");
    assert("theme"@ != "volume"@ && "units"@ != "volume"@ && "units"@ != "theme"@) by {
        assert("volume"@[0] != "theme"@[0]);
        assert("volume"@[0] != "units"@[0]);
        assert("theme"@[0] != "units"@[0]);
    }
}

/// Normalizing is idempotent: a normalized value is accepted as it is.
pub proof fn normalized_values_are_fixed_points(key: Seq<char>, value: Seq<char>)
    ensures
        validate_spec(key, value) matches Validation::Accepted(n) ==> validate_spec(key, n)
            == Validation::Accepted(n),
{
    lemma_trim_idempotent(value);
    if let Validation::Accepted(n) = validate_spec(key, value) {
        if key == "volume"@ {
            let v = parse_u8_spec(encode_utf8(trim_spec(value))).unwrap();
            lemma_volume_text(v);
        }
    }
}

/// Only the known keys are accepted; any other key is reported unknown.
pub proof fn only_known_keys_are_accepted(key: Seq<char>, value: Seq<char>)
    ensures
        validate_spec(key, value) is UnknownKey <==> !known_key(key),
{
}

/// The defaults hold exactly the known settings, each normalized.
pub proof fn defaults_are_valid()
    ensures
        store_valid(defaults_map()),
{
    reveal_strlit("volume");
    reveal_strlit("theme");
    reveal_strlit("units");
    reveal_strlit("5");
    reveal_strlit("dark");
    reveal_strlit("metric");
    let m = defaults_map();
    assert("volume"@ != "theme"@ && "volume"@ != "units"@ && "theme"@ != "units"@) by {
        assert("volume"@[0] != "theme"@[0]);
        assert("volume"@[0] != "units"@[0]);
        assert("theme"@[0] != "units"@[0]);
    }
    assert("5"@ == decimal(5)) by {
        reveal_with_fuel(decimal, 1);
    }
    lemma_volume_text(5);
    assert(validate_spec("volume"@, "5"@) == Validation::Accepted("5"@));
    assert(trim_start_spec("dark"@) == "dark"@);
    assert(trim_end_spec("dark"@) == "dark"@);
    assert(validate_spec("theme"@, "dark"@) == Validation::Accepted("dark"@));
    assert(trim_start_spec("metric"@) == "metric"@);
    assert(trim_end_spec("metric"@) == "metric"@);
    assert(validate_spec("units"@, "metric"@) == Validation::Accepted("metric"@));
}

/// The settings after a request to set `key` to `value`: the normalized
/// value is stored if the pair is accepted; otherwise nothing changes.
pub open spec fn after_set(m: Map<Seq<char>, Seq<char>>, key: Seq<char>, value: Seq<char>) -> Map<
    Seq<char>,
    Seq<char>,
> {
    match validate_spec(key, value) {
        Validation::Accepted(n) => m.insert(key, n),
        _ => m,
    }
}

/// The settings after the requests `sets`, in order, each a `(key, value)`
/// pair, whether accepted or not.
pub open spec fn after_sets(m: Map<Seq<char>, Seq<char>>, sets: Seq<(Seq<char>, Seq<char>)>) -> Map<
    Seq<char>,
    Seq<char>,
>
    decreases sets.len(),
{
    if sets.len() == 0 {
        m
    } else {
        after_sets(after_set(m, sets[0].0, sets[0].1), sets.drop_first())
    }
}

/// One more request after a sequence of them is the sequence with that
/// request appended: the settings a service holds after each `set` call are
/// `after_sets` of the calls made so far.
pub proof fn after_sets_push(
    m: Map<Seq<char>, Seq<char>>,
    sets: Seq<(Seq<char>, Seq<char>)>,
    key: Seq<char>,
    value: Seq<char>,
)
    ensures
        after_sets(m, sets.push((key, value))) == after_set(after_sets(m, sets), key, value),
    decreases sets.len(),
{
    if sets.len() > 0 {
        assert(sets.push((key, value)).drop_first() =~= sets.drop_first().push((key, value)));
        after_sets_push(after_set(m, sets[0].0, sets[0].1), sets.drop_first(), key, value);
        assert(sets.push((key, value))[0] == sets[0]);
    } else {
        let one = sets.push((key, value));
        assert(one.drop_first() =~= Seq::<(Seq<char>, Seq<char>)>::empty());
        assert(one[0] == (key, value));
        assert(after_sets(after_set(m, key, value), one.drop_first()) == after_set(m, key, value));
    }
}

/// Setting a value keeps a valid store valid: the known keys stay exactly
/// the keys, and every stored value stays normalized.
pub proof fn set_keeps_store_valid(m: Map<Seq<char>, Seq<char>>, key: Seq<char>, value: Seq<char>)
    requires
        store_valid(m),
    ensures
        store_valid(after_set(m, key, value)),
{
    normalized_values_are_fixed_points(key, value);
}

/// Any sequence of set requests, accepted or rejected, keeps a valid store
/// valid.
pub proof fn sets_keep_store_valid(m: Map<Seq<char>, Seq<char>>, sets: Seq<(Seq<char>, Seq<char>)>)
    requires
        store_valid(m),
    ensures
        store_valid(after_sets(m, sets)),
    decreases sets.len(),
{
    if sets.len() > 0 {
        set_keeps_store_valid(m, sets[0].0, sets[0].1);
        sets_keep_store_valid(after_set(m, sets[0].0, sets[0].1), sets.drop_first());
    }
}

/// Starting from the defaults, after any sequence of set requests the
/// settings hold exactly the known keys, each with a normalized value.
pub proof fn settings_stay_valid(sets: Seq<(Seq<char>, Seq<char>)>)
    ensures
        store_valid(after_sets(defaults_map(), sets)),
{
    defaults_are_valid();
    sets_keep_store_valid(defaults_map(), sets);
}

/// A read after an accepted write gives back the normalized value, and every
/// other setting is untouched.
pub proof fn read_after_write(
    m: Map<Seq<char>, Seq<char>>,
    key: Seq<char>,
    value: Seq<char>,
    other: Seq<char>,
)
    requires
        validate_spec(key, value) is Accepted,
        other != key,
    ensures
        ({
            let n = validate_spec(key, value)->Accepted_0;
            &&& m.insert(key, n).contains_key(key)
            &&& m.insert(key, n)[key] == n
            &&& m.insert(key, n).contains_key(other) == m.contains_key(other)
            &&& m.contains_key(other) ==> m.insert(key, n)[other] == m[other]
        }),
{
}

} // verus!
