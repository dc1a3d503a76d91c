use vstd::prelude::*;
use vstd::string::StringExecFns;
use crate::errors::Error;
use crate::datamap::{
    data_model, lemma_data_model_extend_none, lemma_data_model_round_trip,
    lemma_data_model_sorted, sorted_strict, vec_insert_entry,
};
use crate::json::{
    Json, JsonModel, entries_model, field_entry, get_opt_u64, lemma_entries_model,
    lemma_field_entry_get, lemma_obj_get_concat, obj_get, obj_lookup, opt_num, opt_u64_field,
    push_entry, push_opt_u64,
};
use crate::numbers::{dec_digits, parse_u64_str};

verus! {

broadcast use vstd::string::group_string_axioms;

/// One latest-transaction observation: all fields are optional and stay
/// absent when the wire omits them.
#[derive(Debug, Clone, Copy, PartialEq)]
#[verifier::ext_equal]
pub struct Price {
    pub high: Option<u64>,
    pub high_time: Option<u64>,
    pub low: Option<u64>,
    pub low_time: Option<u64>,
}

/// The response of the latest endpoint: observations keyed by item id, held
/// sorted by ascending id.
#[derive(Debug, PartialEq)]
#[verifier::ext_equal]
pub struct Latest {
    pub data: Vec<(u64, Price)>,
}

impl Latest {
    /// The entries iterate in strictly ascending id order.
    pub open spec fn wf(self) -> bool {
        sorted_strict(self.data@)
    }
}

/// The observation a document denotes, if it has the right shape.
pub open spec fn price_of(m: JsonModel) -> Option<Price> {
    match m {
        JsonModel::Obj(es) => {
            if opt_u64_field(es, "high"@) is Some && opt_u64_field(es, "highTime"@) is Some
                && opt_u64_field(es, "low"@) is Some && opt_u64_field(es, "lowTime"@) is Some {
                Some(
                    Price {
                        high: opt_u64_field(es, "high"@)->0,
                        high_time: opt_u64_field(es, "highTime"@)->0,
                        low: opt_u64_field(es, "low"@)->0,
                        low_time: opt_u64_field(es, "lowTime"@)->0,
                    },
                )
            } else {
                None
            }
        },
        _ => None,
    }
}

/// The entries of an encoded observation: present fields only, in wire order.
pub open spec fn price_entries(p: Price) -> Seq<(Seq<char>, JsonModel)> {
    field_entry("high"@, opt_num(p.high)) + (field_entry("highTime"@, opt_num(p.high_time))
        + (field_entry("low"@, opt_num(p.low)) + field_entry("lowTime"@, opt_num(p.low_time))))
}

/// An encoded observation.
pub open spec fn price_json(p: Price) -> JsonModel {
    JsonModel::Obj(price_entries(p))
}

/// Each field of an encoded observation is readable under its own key, and a
/// field the observation does not carry is absent from the encoding.
#[verifier::rlimit(60)]
pub proof fn lemma_price_fields(p: Price)
    ensures
        opt_u64_field(price_entries(p), "high"@) == Some(p.high),
        opt_u64_field(price_entries(p), "highTime"@) == Some(p.high_time),
        opt_u64_field(price_entries(p), "low"@) == Some(p.low),
        opt_u64_field(price_entries(p), "lowTime"@) == Some(p.low_time),
{
    reveal_strlit("high");
    reveal_strlit("highTime");
    reveal_strlit("low");
    reveal_strlit("lowTime");
    assert("high"@.len() == 4 && "highTime"@.len() == 8 && "low"@.len() == 3 && "lowTime"@.len()
        == 7);
    let e1 = field_entry("high"@, opt_num(p.high));
    let e2 = field_entry("highTime"@, opt_num(p.high_time));
    let e3 = field_entry("low"@, opt_num(p.low));
    let e4 = field_entry("lowTime"@, opt_num(p.low_time));
    lemma_field_entry_get("high"@, opt_num(p.high), "high"@);
    lemma_field_entry_get("highTime"@, opt_num(p.high_time), "high"@);
    lemma_field_entry_get("low"@, opt_num(p.low), "high"@);
    lemma_field_entry_get("lowTime"@, opt_num(p.low_time), "high"@);
    lemma_field_entry_get("high"@, opt_num(p.high), "highTime"@);
    lemma_field_entry_get("highTime"@, opt_num(p.high_time), "highTime"@);
    lemma_field_entry_get("low"@, opt_num(p.low), "highTime"@);
    lemma_field_entry_get("lowTime"@, opt_num(p.low_time), "highTime"@);
    lemma_field_entry_get("high"@, opt_num(p.high), "low"@);
    lemma_field_entry_get("highTime"@, opt_num(p.high_time), "low"@);
    lemma_field_entry_get("low"@, opt_num(p.low), "low"@);
    lemma_field_entry_get("lowTime"@, opt_num(p.low_time), "low"@);
    lemma_field_entry_get("high"@, opt_num(p.high), "lowTime"@);
    lemma_field_entry_get("highTime"@, opt_num(p.high_time), "lowTime"@);
    lemma_field_entry_get("low"@, opt_num(p.low), "lowTime"@);
    lemma_field_entry_get("lowTime"@, opt_num(p.low_time), "lowTime"@);
    lemma_obj_get_concat(e1, e2 + (e3 + e4), "high"@);
    lemma_obj_get_concat(e2, e3 + e4, "high"@);
    lemma_obj_get_concat(e3, e4, "high"@);
    lemma_obj_get_concat(e1, e2 + (e3 + e4), "highTime"@);
    lemma_obj_get_concat(e2, e3 + e4, "highTime"@);
    lemma_obj_get_concat(e3, e4, "highTime"@);
    lemma_obj_get_concat(e1, e2 + (e3 + e4), "low"@);
    lemma_obj_get_concat(e2, e3 + e4, "low"@);
    lemma_obj_get_concat(e3, e4, "low"@);
    lemma_obj_get_concat(e1, e2 + (e3 + e4), "lowTime"@);
    lemma_obj_get_concat(e2, e3 + e4, "lowTime"@);
    lemma_obj_get_concat(e3, e4, "lowTime"@);
}

/// Decoding an encoded observation returns it: optional fields round-trip as
/// present or absent exactly as they started.
pub proof fn lemma_price_round_trip(p: Price)
    ensures
        price_of(price_json(p)) == Some(p),
{
    lemma_price_fields(p);
    assert(price_of(price_json(p))->0 =~= p);
}

/// A field the observation does not carry is absent from the encoding, and a
/// carried field is present: absence survives re-serialization.
pub proof fn lemma_price_absent_fields(p: Price)
    ensures
        obj_get(price_entries(p), "high"@) is Some <==> p.high is Some,
        obj_get(price_entries(p), "highTime"@) is Some <==> p.high_time is Some,
        obj_get(price_entries(p), "low"@) is Some <==> p.low is Some,
        obj_get(price_entries(p), "lowTime"@) is Some <==> p.low_time is Some,
{
    lemma_price_fields(p);
}

/// Every value of an encoded observation is a plain unsigned number: the
/// encoding never writes a JSON null.
pub proof fn lemma_price_no_null(p: Price)
    ensures
        forall|i: int| 0 <= i < price_entries(p).len()
            ==> (#[trigger] price_entries(p)[i]).1 is UInt,
{
}

pub fn decode_price(j: &Json) -> (r: Result<Price, ()>)
    ensures
        match r {
            Ok(p) => price_of(j.model()) == Some(p),
            Err(_) => price_of(j.model()) is None,
        },
{
    match j {
        Json::Obj(entries) => {
            let high = match get_opt_u64(entries, "high") {
                Ok(o) => o,
                Err(_) => return Err(()),
            };
            let high_time = match get_opt_u64(entries, "highTime") {
                Ok(o) => o,
                Err(_) => return Err(()),
            };
            let low = match get_opt_u64(entries, "low") {
                Ok(o) => o,
                Err(_) => return Err(()),
            };
            let low_time = match get_opt_u64(entries, "lowTime") {
                Ok(o) => o,
                Err(_) => return Err(()),
            };
            Ok(Price { high, high_time, low, low_time })
        },
        _ => Err(()),
    }
}

pub fn encode_price(p: &Price) -> (r: Json)
    ensures
        r.model() == price_json(*p),
{
    let mut entries: Vec<(String, Json)> = Vec::new();
    proof {
        assert(entries_model(entries@) =~= Seq::<(Seq<char>, JsonModel)>::empty());
    }
    push_opt_u64(&mut entries, "high", p.high);
    push_opt_u64(&mut entries, "highTime", p.high_time);
    push_opt_u64(&mut entries, "low", p.low);
    push_opt_u64(&mut entries, "lowTime", p.low_time);
    proof {
        assert(entries_model(entries@) =~= price_entries(*p));
    }
    Json::Obj(entries)
}

/// The observation decoder, as a value the map decoder folds with.
pub open spec fn price_fn() -> spec_fn(JsonModel) -> Option<Price> {
    |m: JsonModel| price_of(m)
}

/// The id-keyed observation map an object denotes.
pub open spec fn latest_data_of(entries: Seq<(Seq<char>, JsonModel)>) -> Option<
    Seq<(u64, Price)>,
> {
    data_model(entries, price_fn())
}

/// The latest response a document denotes: an id-keyed observation map under
/// the required key `data`.
pub open spec fn latest_of(m: JsonModel) -> Option<Seq<(u64, Price)>> {
    match m {
        JsonModel::Obj(es) => match obj_get(es, "data"@) {
            Some(JsonModel::Obj(des)) => latest_data_of(des),
            _ => None,
        },
        _ => None,
    }
}

/// The entries of an encoded id-keyed observation map, in map order.
pub open spec fn latest_data_entries(data: Seq<(u64, Price)>) -> Seq<(Seq<char>, JsonModel)> {
    Seq::new(data.len(), |i: int| (dec_digits(data[i].0 as nat), price_json(data[i].1)))
}

/// An encoded latest response.
pub open spec fn latest_json(data: Seq<(u64, Price)>) -> JsonModel {
    JsonModel::Obj(seq![("data"@, JsonModel::Obj(latest_data_entries(data)))])
}

fn decode_price_entries(entries: &Vec<(String, Json)>) -> (r: Result<Vec<(u64, Price)>, ()>)
    ensures
        match r {
            Ok(v) => latest_data_of(entries_model(entries@)) == Some(v@),
            Err(_) => latest_data_of(entries_model(entries@)) is None,
        },
{
    let ghost m = entries_model(entries@);
    proof {
        lemma_entries_model(entries@);
        assert(m.take(0) =~= Seq::<(Seq<char>, JsonModel)>::empty());
    }
    let mut out: Vec<(u64, Price)> = Vec::new();
    let mut i: usize = 0;
    while i < entries.len()
        invariant
            0 <= i <= entries.len(),
            m == entries_model(entries@),
            m.len() == entries.len(),
            forall|j: int| 0 <= j < entries.len()
                ==> m[j] == (entries@[j].0@, entries@[j].1.model()),
            latest_data_of(m.take(i as int)) == Some(out@),
        decreases entries.len() - i,
    {
        proof {
            assert(m.take(i as int + 1).drop_last() =~= m.take(i as int));
            assert(m.take(i as int + 1).last() == m[i as int]);
        }
        let key = match parse_u64_str(entries[i].0.as_str()) {
            Some(k) => k,
            None => {
                proof {
                    lemma_data_model_extend_none(m, price_fn(), i as int + 1);
                }
                return Err(());
            },
        };
        let val = match decode_price(&entries[i].1) {
            Ok(p) => p,
            Err(_) => {
                proof {
                    lemma_data_model_extend_none(m, price_fn(), i as int + 1);
                }
                return Err(());
            },
        };
        out = vec_insert_entry(out, key, val);
        i = i + 1;
    }
    proof {
        assert(m.take(entries.len() as int) =~= m);
    }
    Ok(out)
}

/// Decodes a latest response. Whatever the key order of the source object,
/// the decoded entries iterate in strictly ascending id order.
pub fn decode_latest(j: &Json) -> (r: Result<Latest, Error>)
    ensures
        r is Ok <==> latest_of(j.model()) is Some,
        r matches Ok(l) ==> latest_of(j.model()) == Some(l.data@) && l.wf(),
        r matches Err(e) ==> e@
            == "Failed to deserialize latest: the response shape does not match"@,
{
    let fail_msg = "Failed to deserialize latest: the response shape does not match";
    match j {
        Json::Obj(entries) => match obj_lookup(entries, "data") {
            Some(v) => match v {
                Json::Obj(data_entries) => match decode_price_entries(data_entries) {
                    Ok(data) => {
                        proof {
                            lemma_data_model_sorted(entries_model(data_entries@), price_fn());
                        }
                        Ok(Latest { data })
                    },
                    Err(_) => Err(Error::new(fail_msg)),
                },
                _ => Err(Error::new(fail_msg)),
            },
            None => Err(Error::new(fail_msg)),
        },
        _ => Err(Error::new(fail_msg)),
    }
}

pub fn encode_latest(l: &Latest) -> (r: Json)
    ensures
        r.model() == latest_json(l.data@),
{
    let mut data_entries: Vec<(String, Json)> = Vec::new();
    let mut i: usize = 0;
    while i < l.data.len()
        invariant
            0 <= i <= l.data.len(),
            data_entries@.len() == i,
            forall|j: int| 0 <= j < i
                ==> (#[trigger] data_entries@[j]).0@ == dec_digits(l.data@[j].0 as nat)
                    && data_entries@[j].1.model() == price_json(l.data@[j].1),
        decreases l.data.len() - i,
    {
        let key = crate::numbers::render_u64(l.data[i].0);
        let val = encode_price(&l.data[i].1);
        data_entries.push((key, val));
        i = i + 1;
    }
    proof {
        lemma_entries_model(data_entries@);
        assert(entries_model(data_entries@) =~= latest_data_entries(l.data@));
    }
    let mut entries: Vec<(String, Json)> = Vec::new();
    proof {
        assert(entries_model(entries@) =~= Seq::<(Seq<char>, JsonModel)>::empty());
    }
    push_entry(&mut entries, "data", Json::Obj(data_entries));
    proof {
        assert(entries_model(entries@) =~= seq![
            ("data"@, JsonModel::Obj(latest_data_entries(l.data@))),
        ]);
    }
    Json::Obj(entries)
}

/// Decoding an encoded latest response returns its map unchanged: encoding
/// followed by decoding is the identity on sorted maps.
pub proof fn lemma_latest_round_trip(data: Seq<(u64, Price)>)
    requires
        sorted_strict(data),
    ensures
        latest_of(latest_json(data)) == Some(data),
{
    reveal_strlit("data");
    let des = latest_data_entries(data);
    let es = seq![("data"@, JsonModel::Obj(des))];
    assert(es[0] == ("data"@, JsonModel::Obj(des)));
    assert(obj_get(es, "data"@) == Some(JsonModel::Obj(des)));
    assert forall|i: int| 0 <= i < data.len() implies (#[trigger] des[i]).0 == dec_digits(
        data[i].0 as nat,
    ) && price_fn()(des[i].1) == Some(data[i].1) by {
        lemma_price_round_trip(data[i].1);
    }
    lemma_data_model_round_trip(data, des, price_fn());
}

/// The request of the latest endpoint: its path and its query pairs. An
/// omitted id sends no query at all.
pub fn latest_request(id: Option<&str>) -> (r: (String, Vec<(String, String)>))
    ensures
        r.0@ == "latest"@,
        id matches Some(s) ==> r.1@.len() == 1 && r.1@[0].0@ == "id"@ && r.1@[0].1@ == s@,
        id is None ==> r.1@.len() == 0,
{
    let mut queries: Vec<(String, String)> = Vec::new();
    match id {
        Some(s) => {
            queries.push((String::from_str("id"), String::from_str(s)));
        },
        None => {
        },
    }
    (String::from_str("latest"), queries)
}

} // verus!
