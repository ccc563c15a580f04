//! The library's own model of a JSON document, and the trusted bridge from
//! response text into it.
//!
//! Upstream responses have no declared schema, so every consumer of a
//! document treats each field as optional: lookups return `Option` and the
//! mapping layers decide what absence means.
use vstd::prelude::*;
use vstd::string::*;

verus! {

/// A JSON document decoded into plain values that contracts can speak about.
///
/// Numbers are kept only when they are unsigned 64-bit integers — the ids,
/// timestamps, dimensions and counters this library reads are all of that
/// shape; any other number is remembered as `NumOther` so that it is still
/// distinguishable from absence.
#[derive(Debug, PartialEq)]
pub enum Json {
    Null,
    Bool(bool),
    Num(u64),
    NumOther,
    Str(String),
    Arr(Vec<Json>),
    Obj(Vec<(String, Json)>),
}

/// Character-for-character equality of two string slices.
pub fn str_eq(a: &str, b: &str) -> (r: bool)
    ensures
        r == (a@ == b@),
{
    let la = a.unicode_len();
    let lb = b.unicode_len();
    if la != lb {
        return false;
    }
    let mut i: usize = 0;
    while i < la
        invariant
            la == a@.len(),
            lb == b@.len(),
            la == lb,
            i <= la,
            forall|j: int| 0 <= j < i ==> a@[j] == b@[j],
        decreases la - i,
    {
        let ca = a.get_char(i);
        let cb = b.get_char(i);
        if ca != cb {
            assert(a@[i as int] != b@[i as int]);
            return false;
        }
        i += 1;
    }
    proof {
        assert(a@ =~= b@);
    }
    true
}

/// The value under `key` in a sequence of object entries: the first entry
/// with that key wins.
pub open spec fn obj_get(pairs: Seq<(String, Json)>, key: Seq<char>) -> Option<Json>
    decreases pairs.len(),
{
    if pairs.len() == 0 {
        None
    } else if pairs[0].0@ == key {
        Some(pairs[0].1)
    } else {
        obj_get(pairs.drop_first(), key)
    }
}

/// The value under `key` when `j` is an object holding that key.
pub open spec fn spec_get(j: Json, key: Seq<char>) -> Option<Json> {
    match j {
        Json::Obj(pairs) => obj_get(pairs@, key),
        _ => None,
    }
}

/// Two lookups in a row.
pub open spec fn spec_get2(j: Json, k1: Seq<char>, k2: Seq<char>) -> Option<Json> {
    match spec_get(j, k1) {
        Some(inner) => spec_get(inner, k2),
        None => None,
    }
}

/// Three lookups in a row.
pub open spec fn spec_get3(j: Json, k1: Seq<char>, k2: Seq<char>, k3: Seq<char>) -> Option<
    Json,
> {
    match spec_get2(j, k1, k2) {
        Some(inner) => spec_get(inner, k3),
        None => None,
    }
}

/// The characters of `j` when it is a string, and nothing otherwise: the
/// lenient reading used for fields whose absence means "empty".
pub open spec fn spec_clean(j: Json) -> Seq<char> {
    match j {
        Json::Str(s) => s@,
        _ => Seq::empty(),
    }
}

/// `spec_clean` lifted over an optional lookup result.
pub open spec fn spec_clean_opt(o: Option<Json>) -> Seq<char> {
    match o {
        Some(j) => spec_clean(j),
        None => Seq::empty(),
    }
}

/// The number under an optional lookup result, or `d` when the field is
/// absent or not an unsigned integer.
pub open spec fn spec_u64_or(o: Option<Json>, d: u64) -> u64 {
    match o {
        Some(Json::Num(n)) => n,
        _ => d,
    }
}

/// The boolean under an optional lookup result, or `d` when the field is
/// absent or not a boolean.
pub open spec fn spec_bool_or(o: Option<Json>, d: bool) -> bool {
    match o {
        Some(Json::Bool(b)) => b,
        _ => d,
    }
}

impl Json {
    /// Look up `key` when this document is an object.
    pub fn get<'a>(&'a self, key: &str) -> (r: Option<&'a Json>)
        ensures
            match r {
                Some(v) => spec_get(*self, key@) == Some(*v),
                None => spec_get(*self, key@) is None,
            },
    {
        match self {
            Json::Obj(pairs) => {
                let n = pairs.len();
                proof {
                    assert(pairs@.skip(0) =~= pairs@);
                }
                let mut i: usize = 0;
                while i < n
                    invariant
                        n == pairs@.len(),
                        i <= n,
                        spec_get(*self, key@) == obj_get(pairs@, key@),
                        obj_get(pairs@.skip(i as int), key@) == obj_get(pairs@, key@),
                    decreases n - i,
                {
                    proof {
                        assert(pairs@.skip(i as int).len() > 0);
                        assert(pairs@.skip(i as int)[0] == pairs@[i as int]);
                    }
                    if str_eq(pairs[i].0.as_str(), key) {
                        proof {
                            assert(obj_get(pairs@.skip(i as int), key@) == Some(
                                pairs@[i as int].1,
                            ));
                        }
                        return Some(&pairs[i].1);
                    }
                    proof {
                        assert(pairs@.skip(i as int).drop_first() =~= pairs@.skip(i + 1));
                    }
                    i += 1;
                }
                proof {
                    assert(pairs@.skip(n as int) =~= Seq::empty());
                }
                None
            },
            _ => None,
        }
    }

    /// Look up a two-step path.
    pub fn get2<'a>(&'a self, k1: &str, k2: &str) -> (r: Option<&'a Json>)
        ensures
            match r {
                Some(v) => spec_get2(*self, k1@, k2@) == Some(*v),
                None => spec_get2(*self, k1@, k2@) is None,
            },
    {
        match self.get(k1) {
            Some(inner) => inner.get(k2),
            None => None,
        }
    }

    /// Look up a three-step path.
    pub fn get3<'a>(&'a self, k1: &str, k2: &str, k3: &str) -> (r: Option<&'a Json>)
        ensures
            match r {
                Some(v) => spec_get3(*self, k1@, k2@, k3@) == Some(*v),
                None => spec_get3(*self, k1@, k2@, k3@) is None,
            },
    {
        match self.get2(k1, k2) {
            Some(inner) => inner.get(k3),
            None => None,
        }
    }

    /// The string contents of this document, or the empty string when it is
    /// not a string.
    pub fn clean_string(&self) -> (r: String)
        ensures
            r@ == spec_clean(*self),
    {
        match self {
            Json::Str(s) => s.clone(),
            _ => String::new(),
        }
    }
}

/// Whether `c` is a decimal digit.
pub open spec fn is_digit(c: char) -> bool {
    48 <= c as u32 <= 57
}

/// Whether every character of `s` is a decimal digit.
pub open spec fn all_digits(s: Seq<char>) -> bool {
    forall|i: int| 0 <= i < s.len() ==> is_digit(s[i])
}

/// The value of `s` read as a decimal numeral.
pub open spec fn digits_val(s: Seq<char>) -> int
    decreases s.len(),
{
    if s.len() == 0 {
        0
    } else {
        10 * digits_val(s.drop_last()) + (s.last() as u32 - 48)
    }
}

proof fn lemma_digits_val_nonneg(s: Seq<char>)
    requires
        all_digits(s),
    ensures
        digits_val(s) >= 0,
    decreases s.len(),
{
    if s.len() > 0 {
        assert(all_digits(s.drop_last()));
        lemma_digits_val_nonneg(s.drop_last());
    }
}

proof fn lemma_digits_val_prefix_le(s: Seq<char>, i: int)
    requires
        all_digits(s),
        0 <= i <= s.len(),
    ensures
        digits_val(s.take(i)) <= digits_val(s),
    decreases s.len(),
{
    if i == s.len() {
        assert(s.take(i) =~= s);
    } else {
        assert(all_digits(s.drop_last()));
        assert(s.drop_last().take(i) =~= s.take(i));
        lemma_digits_val_prefix_le(s.drop_last(), i);
        lemma_digits_val_nonneg(s.drop_last());
    }
}

/// Read `s` as a decimal `u64`: the digits' value when `s` is a non-empty,
/// all-digit numeral that fits, and nothing otherwise.
pub fn parse_u64(s: &str) -> (r: Option<u64>)
    ensures
        match r {
            Some(v) => s@.len() > 0 && all_digits(s@) && digits_val(s@) == v as int,
            None => s@.len() == 0 || !all_digits(s@) || digits_val(s@) > u64::MAX,
        },
{
    let n = s.unicode_len();
    if n == 0 {
        return None;
    }
    let mut val: u64 = 0;
    let mut i: usize = 0;
    proof {
        assert(s@.take(0) =~= Seq::empty());
    }
    while i < n
        invariant
            n == s@.len(),
            i <= n,
            forall|j: int| 0 <= j < i ==> is_digit(s@[j]),
            val as int == digits_val(s@.take(i as int)),
        decreases n - i,
    {
        let c = s.get_char(i);
        let cu = c as u32;
        proof {
            assert(s@.take(i + 1).drop_last() =~= s@.take(i as int));
            assert(s@.take(i + 1).last() == s@[i as int]);
        }
        if cu < 48 || cu > 57 {
            assert(!is_digit(s@[i as int]));
            return None;
        }
        let d = (cu - 48) as u64;
        if val > (u64::MAX - d) / 10 {
            proof {
                assert(10 * (val as int) + d as int > u64::MAX) by (nonlinear_arith)
                    requires
                        val as int > (u64::MAX as int - d as int) / 10,
                        0 <= d as int <= 9,
                ;
                assert(digits_val(s@.take(i + 1)) > u64::MAX);
                if all_digits(s@) {
                    lemma_digits_val_prefix_le(s@, i + 1);
                }
            }
            return None;
        }
        proof {
            assert(val * 10 + d <= u64::MAX) by (nonlinear_arith)
                requires
                    val as int <= (u64::MAX as int - d as int) / 10,
                    0 <= d as int <= 9,
            ;
        }
        val = val * 10 + d;
        i += 1;
    }
    proof {
        assert(s@.take(n as int) =~= s@);
    }
    Some(val)
}

#[verifier::external_type_specification]
#[verifier::external_body]
pub struct ExValue(serde_json::Value);

/// The document that a text parses to, when it is valid JSON.
/// `serde_json::from_str` is a pure parser — its result depends on the text
/// alone — so the parse can be named here and spoken of in contracts.
pub uninterp spec fn json_parse(s: Seq<char>) -> Option<Json>;

/// Relies on the variants of `serde_json::Value` and on
/// `serde_json::Number::as_u64`: each variant is carried over one for one
/// into `Json`; a number that is no unsigned 64-bit integer (`as_u64`
/// returns `None`) becomes `NumOther`.
#[verifier::external_body]
fn json_of_value(v: &serde_json::Value) -> Json {
    match v {
        serde_json::Value::Null => Json::Null,
        serde_json::Value::Bool(b) => Json::Bool(*b),
        serde_json::Value::Number(n) => match n.as_u64() {
            Some(u) => Json::Num(u),
            None => Json::NumOther,
        },
        serde_json::Value::String(s) => Json::Str(s.clone()),
        serde_json::Value::Array(a) => Json::Arr(a.iter().map(json_of_value).collect()),
        serde_json::Value::Object(m) => Json::Obj(
            m.iter().map(|(k, x)| (k.clone(), json_of_value(x))).collect(),
        ),
    }
}

/// Relies on `serde_json::from_str::<serde_json::Value>`: deterministic JSON
/// parsing that returns `Err` exactly when the text is not valid JSON, and on
/// `json_of_value` above for the carry-over into `Json`.
#[verifier::external_body]
pub(crate) fn parse_json_text(s: &str) -> (r: Option<Json>)
    ensures
        r == json_parse(s@),
{
    match serde_json::from_str::<serde_json::Value>(s) {
        Ok(v) => Some(json_of_value(&v)),
        Err(_) => None,
    }
}

} // verus!
