use vstd::prelude::*;
use vstd::string::StringExecFns;

verus! {

/// A JSON document as the upstream service sends it. The service only ever
/// sends unsigned integers; a number of any other shape (negative, or with a
/// fraction or exponent) is kept as `NumOther` so that a document holding one
/// in a field this crate does not read can still be walked.
#[derive(Debug, PartialEq)]
pub enum Json {
    Null,
    Bool(bool),
    UInt(u128),
    NumOther,
    Str(String),
    Arr(Vec<Json>),
    Obj(Vec<(String, Json)>),
}

/// The mathematical shape of a JSON document: what the contracts speak of.
pub enum JsonModel {
    Null,
    Bool(bool),
    UInt(u128),
    NumOther,
    Str(Seq<char>),
    Arr(Seq<JsonModel>),
    Obj(Seq<(Seq<char>, JsonModel)>),
}

impl Json {
    /// The abstraction of this document.
    pub open spec fn model(self) -> JsonModel
        decreases self,
    {
        match self {
            Json::Null => JsonModel::Null,
            Json::Bool(b) => JsonModel::Bool(b),
            Json::UInt(n) => JsonModel::UInt(n),
            Json::NumOther => JsonModel::NumOther,
            Json::Str(s) => JsonModel::Str(s@),
            Json::Arr(items) => JsonModel::Arr(arr_model(items@)),
            Json::Obj(entries) => JsonModel::Obj(entries_model(entries@)),
        }
    }
}

/// The abstraction of an array's elements.
pub open spec fn arr_model(items: Seq<Json>) -> Seq<JsonModel>
    decreases items,
{
    if items.len() == 0 {
        Seq::empty()
    } else {
        seq![items[0].model()] + arr_model(items.subrange(1, items.len() as int))
    }
}

/// The abstraction of an object's entries.
pub open spec fn entries_model(entries: Seq<(String, Json)>) -> Seq<(Seq<char>, JsonModel)>
    decreases entries,
{
    if entries.len() == 0 {
        Seq::empty()
    } else {
        seq![(entries[0].0@, entries[0].1.model())]
            + entries_model(entries.subrange(1, entries.len() as int))
    }
}

/// `arr_model` maps each element to its abstraction.
pub proof fn lemma_arr_model(items: Seq<Json>)
    ensures
        arr_model(items).len() == items.len(),
        forall|i: int| 0 <= i < items.len() ==> arr_model(items)[i] == items[i].model(),
    decreases items.len(),
{
    if items.len() > 0 {
        lemma_arr_model(items.subrange(1, items.len() as int));
    }
}

/// `entries_model` maps each entry to its abstraction.
pub proof fn lemma_entries_model(entries: Seq<(String, Json)>)
    ensures
        entries_model(entries).len() == entries.len(),
        forall|i: int| 0 <= i < entries.len()
            ==> entries_model(entries)[i] == (entries[i].0@, entries[i].1.model()),
    decreases entries.len(),
{
    if entries.len() > 0 {
        lemma_entries_model(entries.subrange(1, entries.len() as int));
    }
}

/// One entry of an encoded object; an absent value produces no entry.
pub open spec fn field_entry(key: Seq<char>, v: Option<JsonModel>) -> Seq<(Seq<char>, JsonModel)> {
    match v {
        Some(m) => seq![(key, m)],
        None => Seq::empty(),
    }
}

/// An optional unsigned value as an optional document number.
pub open spec fn opt_num(v: Option<u64>) -> Option<JsonModel> {
    match v {
        Some(n) => Some(JsonModel::UInt(n as u128)),
        None => None,
    }
}

pub open spec fn opt_num128(v: Option<u128>) -> Option<JsonModel> {
    match v {
        Some(n) => Some(JsonModel::UInt(n)),
        None => None,
    }
}

pub open spec fn opt_num32(v: Option<u32>) -> Option<JsonModel> {
    match v {
        Some(n) => Some(JsonModel::UInt(n as u128)),
        None => None,
    }
}

pub proof fn lemma_entries_model_push(s: Seq<(String, Json)>, e: (String, Json))
    ensures
        entries_model(s.push(e)) == entries_model(s) + seq![(e.0@, e.1.model())],
{
    lemma_entries_model(s);
    lemma_entries_model(s.push(e));
    assert(entries_model(s.push(e)) =~= entries_model(s) + seq![(e.0@, e.1.model())]);
}

/// The value of the first entry named `key`, if any.
pub open spec fn obj_get(entries: Seq<(Seq<char>, JsonModel)>, key: Seq<char>) -> Option<JsonModel>
    decreases entries.len(),
{
    if entries.len() == 0 {
        None
    } else if entries[0].0 == key {
        Some(entries[0].1)
    } else {
        obj_get(entries.drop_first(), key)
    }
}

pub proof fn lemma_obj_get_skip(
    entries: Seq<(Seq<char>, JsonModel)>,
    key: Seq<char>,
    i: int,
)
    requires
        0 <= i <= entries.len(),
        forall|j: int| 0 <= j < i ==> entries[j].0 != key,
    ensures
        obj_get(entries, key) == obj_get(entries.skip(i), key),
    decreases i,
{
    if i > 0 {
        assert(entries.skip(i - 1).drop_first() =~= entries.skip(i));
        lemma_obj_get_skip(entries, key, i - 1);
        assert(entries.skip(i - 1)[0] == entries[i - 1]);
    } else {
        assert(entries.skip(0) =~= entries);
    }
}

/// Lookup in a one-field entry list finds the field exactly under its key.
pub proof fn lemma_field_entry_get(key: Seq<char>, v: Option<JsonModel>, k: Seq<char>)
    ensures
        obj_get(field_entry(key, v), k) == (if k == key && v is Some {
            Some(v->0)
        } else {
            None
        }),
{
    match v {
        Some(m) => {
            let s = seq![(key, m)];
            assert(s[0] == (key, m));
            assert(s.drop_first() =~= Seq::<(Seq<char>, JsonModel)>::empty());
            if k == key {
                assert(obj_get(s, k) == Some(m));
            } else {
                assert(obj_get(s, k) == obj_get(s.drop_first(), k));
                assert(obj_get(s.drop_first(), k) is None);
            }
        },
        None => {
        },
    }
}

/// Lookup distributes over the two halves of an entry list.
pub proof fn lemma_obj_get_concat(
    s1: Seq<(Seq<char>, JsonModel)>,
    s2: Seq<(Seq<char>, JsonModel)>,
    key: Seq<char>,
)
    ensures
        obj_get(s1 + s2, key) == (match obj_get(s1, key) {
            Some(v) => Some(v),
            None => obj_get(s2, key),
        }),
    decreases s1.len(),
{
    if s1.len() == 0 {
        assert(s1 + s2 =~= s2);
    } else {
        assert((s1 + s2)[0] == s1[0]);
        assert((s1 + s2).drop_first() =~= s1.drop_first() + s2);
        lemma_obj_get_concat(s1.drop_first(), s2, key);
    }
}

/// Appends one entry to an object under construction.
pub fn push_entry(entries: &mut Vec<(String, Json)>, key: &str, val: Json)
    ensures
        entries_model(final(entries)@) == entries_model(old(entries)@)
            + seq![(key@, val.model())],
{
    let ghost before = entries@;
    let ghost gval = val;
    let owned_key = String::from_str(key);
    let ghost gkey = owned_key;
    entries.push((owned_key, val));
    proof {
        lemma_entries_model_push(before, (gkey, gval));
    }
}

/// Appends an optional unsigned field; an absent value appends nothing.
pub fn push_opt_u64(entries: &mut Vec<(String, Json)>, key: &str, v: Option<u64>)
    ensures
        entries_model(final(entries)@) == entries_model(old(entries)@)
            + field_entry(key@, opt_num(v)),
{
    match v {
        Some(n) => {
            push_entry(entries, key, Json::UInt(n as u128));
        },
        None => {
            proof {
                assert(entries_model(entries@) + field_entry(key@, opt_num(v))
                    =~= entries_model(entries@));
            }
        },
    }
}

pub fn push_opt_u128(entries: &mut Vec<(String, Json)>, key: &str, v: Option<u128>)
    ensures
        entries_model(final(entries)@) == entries_model(old(entries)@)
            + field_entry(key@, opt_num128(v)),
{
    match v {
        Some(n) => {
            push_entry(entries, key, Json::UInt(n));
        },
        None => {
            proof {
                assert(entries_model(entries@) + field_entry(key@, opt_num128(v))
                    =~= entries_model(entries@));
            }
        },
    }
}

pub fn push_opt_u32(entries: &mut Vec<(String, Json)>, key: &str, v: Option<u32>)
    ensures
        entries_model(final(entries)@) == entries_model(old(entries)@)
            + field_entry(key@, opt_num32(v)),
{
    match v {
        Some(n) => {
            push_entry(entries, key, Json::UInt(n as u128));
        },
        None => {
            proof {
                assert(entries_model(entries@) + field_entry(key@, opt_num32(v))
                    =~= entries_model(entries@));
            }
        },
    }
}

/// Whether two text slices hold the same characters.
pub fn str_eq(a: &str, b: &str) -> (r: bool)
    ensures
        r == (a@ == b@),
{
    let owned_a = String::from_str(a);
    let owned_b = String::from_str(b);
    owned_a == owned_b
}

/// The value of the first entry named `key` of a decoded object, if any.
pub fn obj_lookup<'a>(entries: &'a Vec<(String, Json)>, key: &str) -> (r: Option<&'a Json>)
    ensures
        match r {
            Some(v) => obj_get(entries_model(entries@), key@) == Some(v.model()),
            None => obj_get(entries_model(entries@), key@) is None,
        },
{
    let ghost m = entries_model(entries@);
    proof {
        lemma_entries_model(entries@);
    }
    let n = entries.len();
    let mut i: usize = 0;
    while i < n
        invariant
            0 <= i <= n,
            n == entries.len(),
            m == entries_model(entries@),
            m.len() == n,
            forall|j: int| 0 <= j < n
                ==> m[j] == (entries@[j].0@, entries@[j].1.model()),
            forall|j: int| 0 <= j < i ==> m[j].0 != key@,
        decreases n - i,
    {
        if str_eq(entries[i].0.as_str(), key) {
            proof {
                lemma_obj_get_skip(m, key@, i as int);
                assert(m.skip(i as int)[0] == m[i as int]);
            }
            return Some(&entries[i].1);
        }
        assert(m[i as int].0 != key@);
        i = i + 1;
    }
    proof {
        lemma_obj_get_skip(m, key@, n as int);
        assert(m.skip(n as int).len() == 0);
    }
    None
}

/// A 64-bit unsigned value, where the document holds one.
pub open spec fn as_u64_val(v: JsonModel) -> Option<u64> {
    match v {
        JsonModel::UInt(n) => if n <= u64::MAX { Some(n as u64) } else { None },
        _ => None,
    }
}

/// A 32-bit unsigned value, where the document holds one.
pub open spec fn as_u32_val(v: JsonModel) -> Option<u32> {
    match v {
        JsonModel::UInt(n) => if n <= u32::MAX { Some(n as u32) } else { None },
        _ => None,
    }
}

/// An optional unsigned field: absent stays absent, present must be unsigned.
pub open spec fn opt_u64_field(
    entries: Seq<(Seq<char>, JsonModel)>,
    key: Seq<char>,
) -> Option<Option<u64>> {
    match obj_get(entries, key) {
        None => Some(None),
        Some(v) => match as_u64_val(v) {
            Some(n) => Some(Some(n)),
            None => None,
        },
    }
}

pub open spec fn opt_u32_field(
    entries: Seq<(Seq<char>, JsonModel)>,
    key: Seq<char>,
) -> Option<Option<u32>> {
    match obj_get(entries, key) {
        None => Some(None),
        Some(v) => match as_u32_val(v) {
            Some(n) => Some(Some(n)),
            None => None,
        },
    }
}

pub open spec fn opt_u128_field(
    entries: Seq<(Seq<char>, JsonModel)>,
    key: Seq<char>,
) -> Option<Option<u128>> {
    match obj_get(entries, key) {
        None => Some(None),
        Some(v) => match v {
            JsonModel::UInt(n) => Some(Some(n)),
            _ => None,
        },
    }
}

/// A required unsigned field: it must be there and be unsigned.
pub open spec fn req_u64_field(
    entries: Seq<(Seq<char>, JsonModel)>,
    key: Seq<char>,
) -> Option<u64> {
    match obj_get(entries, key) {
        Some(v) => as_u64_val(v),
        None => None,
    }
}

pub open spec fn req_u128_field(
    entries: Seq<(Seq<char>, JsonModel)>,
    key: Seq<char>,
) -> Option<u128> {
    match obj_get(entries, key) {
        Some(JsonModel::UInt(n)) => Some(n),
        _ => None,
    }
}

pub open spec fn req_bool_field(
    entries: Seq<(Seq<char>, JsonModel)>,
    key: Seq<char>,
) -> Option<bool> {
    match obj_get(entries, key) {
        Some(JsonModel::Bool(b)) => Some(b),
        _ => None,
    }
}

pub open spec fn req_str_field(
    entries: Seq<(Seq<char>, JsonModel)>,
    key: Seq<char>,
) -> Option<Seq<char>> {
    match obj_get(entries, key) {
        Some(JsonModel::Str(s)) => Some(s),
        _ => None,
    }
}

pub fn get_opt_u64(entries: &Vec<(String, Json)>, key: &str) -> (r: Result<Option<u64>, ()>)
    ensures
        match r {
            Ok(o) => opt_u64_field(entries_model(entries@), key@) == Some(o),
            Err(_) => opt_u64_field(entries_model(entries@), key@) is None,
        },
{
    match obj_lookup(entries, key) {
        None => Ok(None),
        Some(v) => match v {
            Json::UInt(n) => {
                if *n <= u64::MAX as u128 {
                    Ok(Some(*n as u64))
                } else {
                    Err(())
                }
            },
            _ => Err(()),
        },
    }
}

pub fn get_opt_u32(entries: &Vec<(String, Json)>, key: &str) -> (r: Result<Option<u32>, ()>)
    ensures
        match r {
            Ok(o) => opt_u32_field(entries_model(entries@), key@) == Some(o),
            Err(_) => opt_u32_field(entries_model(entries@), key@) is None,
        },
{
    match obj_lookup(entries, key) {
        None => Ok(None),
        Some(v) => match v {
            Json::UInt(n) => {
                if *n <= u32::MAX as u128 {
                    Ok(Some(*n as u32))
                } else {
                    Err(())
                }
            },
            _ => Err(()),
        },
    }
}

pub fn get_opt_u128(entries: &Vec<(String, Json)>, key: &str) -> (r: Result<Option<u128>, ()>)
    ensures
        match r {
            Ok(o) => opt_u128_field(entries_model(entries@), key@) == Some(o),
            Err(_) => opt_u128_field(entries_model(entries@), key@) is None,
        },
{
    match obj_lookup(entries, key) {
        None => Ok(None),
        Some(v) => match v {
            Json::UInt(n) => Ok(Some(*n)),
            _ => Err(()),
        },
    }
}

pub fn get_req_u64(entries: &Vec<(String, Json)>, key: &str) -> (r: Result<u64, ()>)
    ensures
        match r {
            Ok(n) => req_u64_field(entries_model(entries@), key@) == Some(n),
            Err(_) => req_u64_field(entries_model(entries@), key@) is None,
        },
{
    match obj_lookup(entries, key) {
        None => Err(()),
        Some(v) => match v {
            Json::UInt(n) => {
                if *n <= u64::MAX as u128 {
                    Ok(*n as u64)
                } else {
                    Err(())
                }
            },
            _ => Err(()),
        },
    }
}

pub fn get_req_u128(entries: &Vec<(String, Json)>, key: &str) -> (r: Result<u128, ()>)
    ensures
        match r {
            Ok(n) => req_u128_field(entries_model(entries@), key@) == Some(n),
            Err(_) => req_u128_field(entries_model(entries@), key@) is None,
        },
{
    match obj_lookup(entries, key) {
        None => Err(()),
        Some(v) => match v {
            Json::UInt(n) => Ok(*n),
            _ => Err(()),
        },
    }
}

pub fn get_req_bool(entries: &Vec<(String, Json)>, key: &str) -> (r: Result<bool, ()>)
    ensures
        match r {
            Ok(b) => req_bool_field(entries_model(entries@), key@) == Some(b),
            Err(_) => req_bool_field(entries_model(entries@), key@) is None,
        },
{
    match obj_lookup(entries, key) {
        None => Err(()),
        Some(v) => match v {
            Json::Bool(b) => Ok(*b),
            _ => Err(()),
        },
    }
}

pub fn get_req_str(entries: &Vec<(String, Json)>, key: &str) -> (r: Result<String, ()>)
    ensures
        match r {
            Ok(s) => req_str_field(entries_model(entries@), key@) == Some(s@),
            Err(_) => req_str_field(entries_model(entries@), key@) is None,
        },
{
    match obj_lookup(entries, key) {
        None => Err(()),
        Some(v) => match v {
            Json::Str(s) => Ok(s.clone()),
            _ => Err(()),
        },
    }
}

} // verus!
