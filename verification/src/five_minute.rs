use vstd::prelude::*;
use vstd::string::StringExecFns;
use crate::errors::Error;
use crate::datamap::{
    data_model, lemma_data_model_extend_none, lemma_data_model_round_trip,
    lemma_data_model_sorted, sorted_strict, vec_insert_entry,
};
use crate::json::{
    Json, JsonModel, entries_model, field_entry, get_opt_u64, lemma_entries_model,
    lemma_field_entry_get, lemma_obj_get_concat, obj_get, obj_lookup, opt_num, opt_u64_field,
    push_entry, push_opt_u64,
};
use crate::numbers::{dec_digits, parse_u64_str, render_u64};
use crate::timeserie::{
    AvgPrice, avgprice_json, avgprice_of, decode_avg_price, encode_avg_price,
    lemma_avgprice_round_trip,
};

verus! {

broadcast use vstd::string::group_string_axioms;

/// The response of the bucketed price endpoints: buckets keyed by item id,
/// held sorted by ascending id, and the optional echo of the requested
/// bucket's timestamp.
#[derive(Debug, PartialEq)]
#[verifier::ext_equal]
pub struct Prices {
    pub data: Vec<(u64, AvgPrice)>,
    pub timestamp: Option<u64>,
}

impl Prices {
    /// The entries iterate in strictly ascending id order.
    pub open spec fn wf(self) -> bool {
        sorted_strict(self.data@)
    }
}

/// The bucket decoder, as a value the map decoder folds with.
pub open spec fn avg_fn() -> spec_fn(JsonModel) -> Option<AvgPrice> {
    |m: JsonModel| avgprice_of(m)
}

/// The id-keyed bucket map an object denotes.
pub open spec fn prices_data_of(entries: Seq<(Seq<char>, JsonModel)>) -> Option<
    Seq<(u64, AvgPrice)>,
> {
    data_model(entries, avg_fn())
}

/// The bucketed response a document denotes: an id-keyed bucket map under the
/// required key `data`, and an optional unsigned `timestamp`.
pub open spec fn prices_of(m: JsonModel) -> Option<(Seq<(u64, AvgPrice)>, Option<u64>)> {
    match m {
        JsonModel::Obj(es) => match (obj_get(es, "data"@), opt_u64_field(es, "timestamp"@)) {
            (Some(JsonModel::Obj(des)), Some(ts)) => match prices_data_of(des) {
                Some(data) => Some((data, ts)),
                None => None,
            },
            _ => None,
        },
        _ => None,
    }
}

/// The entries of an encoded id-keyed bucket map, in map order.
pub open spec fn prices_data_entries(data: Seq<(u64, AvgPrice)>) -> Seq<(Seq<char>, JsonModel)> {
    Seq::new(data.len(), |i: int| (dec_digits(data[i].0 as nat), avgprice_json(data[i].1)))
}

/// The entries of an encoded bucketed response: an absent timestamp produces
/// no entry.
pub open spec fn prices_entries(data: Seq<(u64, AvgPrice)>, timestamp: Option<u64>) -> Seq<
    (Seq<char>, JsonModel),
> {
    seq![("data"@, JsonModel::Obj(prices_data_entries(data)))] + field_entry(
        "timestamp"@,
        opt_num(timestamp),
    )
}

/// An encoded bucketed response.
pub open spec fn prices_json(data: Seq<(u64, AvgPrice)>, timestamp: Option<u64>) -> JsonModel {
    JsonModel::Obj(prices_entries(data, timestamp))
}

fn decode_avg_entries(entries: &Vec<(String, Json)>) -> (r: Result<Vec<(u64, AvgPrice)>, ()>)
    ensures
        match r {
            Ok(v) => prices_data_of(entries_model(entries@)) == Some(v@),
            Err(_) => prices_data_of(entries_model(entries@)) is None,
        },
{
    let ghost m = entries_model(entries@);
    proof {
        lemma_entries_model(entries@);
        assert(m.take(0) =~= Seq::<(Seq<char>, JsonModel)>::empty());
    }
    let mut out: Vec<(u64, AvgPrice)> = Vec::new();
    let mut i: usize = 0;
    while i < entries.len()
        invariant
            0 <= i <= entries.len(),
            m == entries_model(entries@),
            m.len() == entries.len(),
            forall|j: int| 0 <= j < entries.len()
                ==> m[j] == (entries@[j].0@, entries@[j].1.model()),
            prices_data_of(m.take(i as int)) == Some(out@),
        decreases entries.len() - i,
    {
        proof {
            assert(m.take(i as int + 1).drop_last() =~= m.take(i as int));
            assert(m.take(i as int + 1).last() == m[i as int]);
        }
        let key = match parse_u64_str(entries[i].0.as_str()) {
            Some(k) => k,
            None => {
                proof {
                    lemma_data_model_extend_none(m, avg_fn(), i as int + 1);
                }
                return Err(());
            },
        };
        let val = match decode_avg_price(&entries[i].1) {
            Ok(p) => p,
            Err(_) => {
                proof {
                    lemma_data_model_extend_none(m, avg_fn(), i as int + 1);
                }
                return Err(());
            },
        };
        out = vec_insert_entry(out, key, val);
        i = i + 1;
    }
    proof {
        assert(m.take(entries.len() as int) =~= m);
    }
    Ok(out)
}

/// Decodes a bucketed response. Whatever the key order of the source object,
/// the decoded entries iterate in strictly ascending id order.
pub fn decode_prices(j: &Json) -> (r: Result<Prices, Error>)
    ensures
        r is Ok <==> prices_of(j.model()) is Some,
        r matches Ok(p) ==> prices_of(j.model()) == Some((p.data@, p.timestamp)) && p.wf(),
        r matches Err(e) ==> e@
            == "Failed to deserialize Prices: the response shape does not match"@,
{
    let fail_msg = "Failed to deserialize Prices: the response shape does not match";
    match j {
        Json::Obj(entries) => {
            let timestamp = match get_opt_u64(entries, "timestamp") {
                Ok(o) => o,
                Err(_) => return Err(Error::new(fail_msg)),
            };
            match obj_lookup(entries, "data") {
                Some(v) => match v {
                    Json::Obj(data_entries) => match decode_avg_entries(data_entries) {
                        Ok(data) => {
                            proof {
                                lemma_data_model_sorted(entries_model(data_entries@), avg_fn());
                            }
                            Ok(Prices { data, timestamp })
                        },
                        Err(_) => Err(Error::new(fail_msg)),
                    },
                    _ => Err(Error::new(fail_msg)),
                },
                None => Err(Error::new(fail_msg)),
            }
        },
        _ => Err(Error::new(fail_msg)),
    }
}

pub fn encode_prices(p: &Prices) -> (r: Json)
    ensures
        r.model() == prices_json(p.data@, p.timestamp),
{
    let mut data_entries: Vec<(String, Json)> = Vec::new();
    let mut i: usize = 0;
    while i < p.data.len()
        invariant
            0 <= i <= p.data.len(),
            data_entries@.len() == i,
            forall|j: int| 0 <= j < i
                ==> (#[trigger] data_entries@[j]).0@ == dec_digits(p.data@[j].0 as nat)
                    && data_entries@[j].1.model() == avgprice_json(p.data@[j].1),
        decreases p.data.len() - i,
    {
        let key = render_u64(p.data[i].0);
        let val = encode_avg_price(&p.data[i].1);
        data_entries.push((key, val));
        i = i + 1;
    }
    proof {
        lemma_entries_model(data_entries@);
        assert(entries_model(data_entries@) =~= prices_data_entries(p.data@));
    }
    let mut entries: Vec<(String, Json)> = Vec::new();
    proof {
        assert(entries_model(entries@) =~= Seq::<(Seq<char>, JsonModel)>::empty());
    }
    push_entry(&mut entries, "data", Json::Obj(data_entries));
    push_opt_u64(&mut entries, "timestamp", p.timestamp);
    proof {
        assert(entries_model(entries@) =~= prices_entries(p.data@, p.timestamp));
    }
    Json::Obj(entries)
}

/// Decoding an encoded bucketed response returns its map and its optional
/// timestamp unchanged.
pub proof fn lemma_prices_round_trip(data: Seq<(u64, AvgPrice)>, timestamp: Option<u64>)
    requires
        sorted_strict(data),
    ensures
        prices_of(prices_json(data, timestamp)) == Some((data, timestamp)),
{
    reveal_strlit("data");
    reveal_strlit("timestamp");
    assert("data"@.len() == 4 && "timestamp"@.len() == 9);
    let des = prices_data_entries(data);
    let head = seq![("data"@, JsonModel::Obj(des))];
    let tail = field_entry("timestamp"@, opt_num(timestamp));
    let es = prices_entries(data, timestamp);
    assert(head[0] == ("data"@, JsonModel::Obj(des)));
    lemma_obj_get_concat(head, tail, "data"@);
    lemma_obj_get_concat(head, tail, "timestamp"@);
    lemma_field_entry_get("timestamp"@, opt_num(timestamp), "timestamp"@);
    assert(head.drop_first() =~= Seq::<(Seq<char>, JsonModel)>::empty());
    assert(obj_get(head, "data"@) == Some(JsonModel::Obj(des)));
    assert("data"@ != "timestamp"@);
    assert(obj_get(Seq::<(Seq<char>, JsonModel)>::empty(), "timestamp"@) is None);
    assert(obj_get(head, "timestamp"@) == obj_get(head.drop_first(), "timestamp"@));
    assert(obj_get(head, "timestamp"@) is None);
    assert(obj_get(es, "timestamp"@) == obj_get(tail, "timestamp"@));
    assert(opt_u64_field(es, "timestamp"@) == Some(timestamp));
    assert forall|i: int| 0 <= i < data.len() implies (#[trigger] des[i]).0 == dec_digits(
        data[i].0 as nat,
    ) && avg_fn()(des[i].1) == Some(data[i].1) by {
        lemma_avgprice_round_trip(data[i].1);
    }
    lemma_data_model_round_trip(data, des, avg_fn());
}

/// The request of the five-minute endpoint: its path and its query pairs. An
/// omitted timestamp sends no query at all.
pub fn five_minute_request(timestamp: Option<&str>) -> (r: (String, Vec<(String, String)>))
    ensures
        r.0@ == "5m"@,
        timestamp matches Some(s) ==> r.1@.len() == 1 && r.1@[0].0@ == "timestamp"@
            && r.1@[0].1@ == s@,
        timestamp is None ==> r.1@.len() == 0,
{
    let mut queries: Vec<(String, String)> = Vec::new();
    match timestamp {
        Some(s) => {
            queries.push((String::from_str("timestamp"), String::from_str(s)));
        },
        None => {
        },
    }
    (String::from_str("5m"), queries)
}

} // verus!
