use vstd::prelude::*;
use vstd::string::StringExecFns;
use crate::errors::Error;
use crate::json::{
    Json, JsonModel, arr_model, entries_model, field_entry, get_req_u64, lemma_arr_model,
    lemma_field_entry_get, lemma_obj_get_concat, obj_get, obj_lookup, opt_num, opt_u64_field, push_entry, push_opt_u64,
    req_u64_field, str_eq,
};

verus! {

broadcast use vstd::string::group_string_axioms;

/// One aggregated observation bucket: all fields are optional and stay
/// absent when the wire omits them.
#[derive(Debug, Clone, Copy, PartialEq)]
#[verifier::ext_equal]
pub struct AvgPrice {
    pub timestamp: Option<u64>,
    pub avg_high_price: Option<u64>,
    pub high_price_volume: Option<u64>,
    pub avg_low_price: Option<u64>,
    pub low_price_volume: Option<u64>,
}

/// The response of the time-series endpoint: buckets in wire order, and the
/// echoed item id.
#[derive(Debug, PartialEq)]
#[verifier::ext_equal]
pub struct Timeserie {
    pub data: Vec<AvgPrice>,
    pub item_id: u64,
}

/// The bucket a document denotes, if it has the right shape.
pub open spec fn avgprice_of(m: JsonModel) -> Option<AvgPrice> {
    match m {
        JsonModel::Obj(es) => {
            if opt_u64_field(es, "timestamp"@) is Some && opt_u64_field(es, "avgHighPrice"@)
                is Some && opt_u64_field(es, "highPriceVolume"@) is Some && opt_u64_field(
                es,
                "avgLowPrice"@,
            ) is Some && opt_u64_field(es, "lowPriceVolume"@) is Some {
                Some(
                    AvgPrice {
                        timestamp: opt_u64_field(es, "timestamp"@)->0,
                        avg_high_price: opt_u64_field(es, "avgHighPrice"@)->0,
                        high_price_volume: opt_u64_field(es, "highPriceVolume"@)->0,
                        avg_low_price: opt_u64_field(es, "avgLowPrice"@)->0,
                        low_price_volume: opt_u64_field(es, "lowPriceVolume"@)->0,
                    },
                )
            } else {
                None
            }
        },
        _ => None,
    }
}

/// The entries of an encoded bucket: present fields only, in wire order.
pub open spec fn avg_entries(p: AvgPrice) -> Seq<(Seq<char>, JsonModel)> {
    field_entry("timestamp"@, opt_num(p.timestamp)) + (field_entry(
        "avgHighPrice"@,
        opt_num(p.avg_high_price),
    ) + (field_entry("highPriceVolume"@, opt_num(p.high_price_volume)) + (field_entry(
        "avgLowPrice"@,
        opt_num(p.avg_low_price),
    ) + field_entry("lowPriceVolume"@, opt_num(p.low_price_volume)))))
}

/// An encoded bucket.
pub open spec fn avgprice_json(p: AvgPrice) -> JsonModel {
    JsonModel::Obj(avg_entries(p))
}

/// Each field of an encoded bucket is readable under its own key, and a
/// field the bucket does not carry is absent from the encoding.
#[verifier::rlimit(60)]
pub proof fn lemma_avg_fields(p: AvgPrice)
    ensures
        opt_u64_field(avg_entries(p), "timestamp"@) == Some(p.timestamp),
        opt_u64_field(avg_entries(p), "avgHighPrice"@) == Some(p.avg_high_price),
        opt_u64_field(avg_entries(p), "highPriceVolume"@) == Some(p.high_price_volume),
        opt_u64_field(avg_entries(p), "avgLowPrice"@) == Some(p.avg_low_price),
        opt_u64_field(avg_entries(p), "lowPriceVolume"@) == Some(p.low_price_volume),
{
    reveal_strlit("timestamp");
    reveal_strlit("avgHighPrice");
    reveal_strlit("highPriceVolume");
    reveal_strlit("avgLowPrice");
    reveal_strlit("lowPriceVolume");
    let e1 = field_entry("timestamp"@, opt_num(p.timestamp));
    let e2 = field_entry("avgHighPrice"@, opt_num(p.avg_high_price));
    let e3 = field_entry("highPriceVolume"@, opt_num(p.high_price_volume));
    let e4 = field_entry("avgLowPrice"@, opt_num(p.avg_low_price));
    let e5 = field_entry("lowPriceVolume"@, opt_num(p.low_price_volume));
    lemma_field_entry_get("timestamp"@, opt_num(p.timestamp), "timestamp"@);
    lemma_field_entry_get("avgHighPrice"@, opt_num(p.avg_high_price), "timestamp"@);
    lemma_field_entry_get("highPriceVolume"@, opt_num(p.high_price_volume), "timestamp"@);
    lemma_field_entry_get("avgLowPrice"@, opt_num(p.avg_low_price), "timestamp"@);
    lemma_field_entry_get("lowPriceVolume"@, opt_num(p.low_price_volume), "timestamp"@);
    lemma_field_entry_get("timestamp"@, opt_num(p.timestamp), "avgHighPrice"@);
    lemma_field_entry_get("avgHighPrice"@, opt_num(p.avg_high_price), "avgHighPrice"@);
    lemma_field_entry_get("highPriceVolume"@, opt_num(p.high_price_volume), "avgHighPrice"@);
    lemma_field_entry_get("avgLowPrice"@, opt_num(p.avg_low_price), "avgHighPrice"@);
    lemma_field_entry_get("lowPriceVolume"@, opt_num(p.low_price_volume), "avgHighPrice"@);
    lemma_field_entry_get("timestamp"@, opt_num(p.timestamp), "highPriceVolume"@);
    lemma_field_entry_get("avgHighPrice"@, opt_num(p.avg_high_price), "highPriceVolume"@);
    lemma_field_entry_get("highPriceVolume"@, opt_num(p.high_price_volume), "highPriceVolume"@);
    lemma_field_entry_get("avgLowPrice"@, opt_num(p.avg_low_price), "highPriceVolume"@);
    lemma_field_entry_get("lowPriceVolume"@, opt_num(p.low_price_volume), "highPriceVolume"@);
    lemma_field_entry_get("timestamp"@, opt_num(p.timestamp), "avgLowPrice"@);
    lemma_field_entry_get("avgHighPrice"@, opt_num(p.avg_high_price), "avgLowPrice"@);
    lemma_field_entry_get("highPriceVolume"@, opt_num(p.high_price_volume), "avgLowPrice"@);
    lemma_field_entry_get("avgLowPrice"@, opt_num(p.avg_low_price), "avgLowPrice"@);
    lemma_field_entry_get("lowPriceVolume"@, opt_num(p.low_price_volume), "avgLowPrice"@);
    lemma_field_entry_get("timestamp"@, opt_num(p.timestamp), "lowPriceVolume"@);
    lemma_field_entry_get("avgHighPrice"@, opt_num(p.avg_high_price), "lowPriceVolume"@);
    lemma_field_entry_get("highPriceVolume"@, opt_num(p.high_price_volume), "lowPriceVolume"@);
    lemma_field_entry_get("avgLowPrice"@, opt_num(p.avg_low_price), "lowPriceVolume"@);
    lemma_field_entry_get("lowPriceVolume"@, opt_num(p.low_price_volume), "lowPriceVolume"@);
    lemma_obj_get_concat(e1, e2 + (e3 + (e4 + e5)), "timestamp"@);
    lemma_obj_get_concat(e2, e3 + (e4 + e5), "timestamp"@);
    lemma_obj_get_concat(e3, e4 + e5, "timestamp"@);
    lemma_obj_get_concat(e4, e5, "timestamp"@);
    lemma_obj_get_concat(e1, e2 + (e3 + (e4 + e5)), "avgHighPrice"@);
    lemma_obj_get_concat(e2, e3 + (e4 + e5), "avgHighPrice"@);
    lemma_obj_get_concat(e3, e4 + e5, "avgHighPrice"@);
    lemma_obj_get_concat(e4, e5, "avgHighPrice"@);
    lemma_obj_get_concat(e1, e2 + (e3 + (e4 + e5)), "highPriceVolume"@);
    lemma_obj_get_concat(e2, e3 + (e4 + e5), "highPriceVolume"@);
    lemma_obj_get_concat(e3, e4 + e5, "highPriceVolume"@);
    lemma_obj_get_concat(e4, e5, "highPriceVolume"@);
    lemma_obj_get_concat(e1, e2 + (e3 + (e4 + e5)), "avgLowPrice"@);
    lemma_obj_get_concat(e2, e3 + (e4 + e5), "avgLowPrice"@);
    lemma_obj_get_concat(e3, e4 + e5, "avgLowPrice"@);
    lemma_obj_get_concat(e4, e5, "avgLowPrice"@);
    lemma_obj_get_concat(e1, e2 + (e3 + (e4 + e5)), "lowPriceVolume"@);
    lemma_obj_get_concat(e2, e3 + (e4 + e5), "lowPriceVolume"@);
    lemma_obj_get_concat(e3, e4 + e5, "lowPriceVolume"@);
    lemma_obj_get_concat(e4, e5, "lowPriceVolume"@);
    assert("timestamp"@.len() == 9 && "avgHighPrice"@.len() == 12
        && "highPriceVolume"@.len() == 15 && "avgLowPrice"@.len() == 11
        && "lowPriceVolume"@.len() == 14);
    assert("timestamp"@ != "avgHighPrice"@ && "timestamp"@ != "highPriceVolume"@
        && "timestamp"@ != "avgLowPrice"@ && "timestamp"@ != "lowPriceVolume"@);
    assert("avgHighPrice"@ != "highPriceVolume"@ && "avgHighPrice"@ != "avgLowPrice"@
        && "avgHighPrice"@ != "lowPriceVolume"@);
    assert(obj_get(avg_entries(p), "timestamp"@) == (match opt_num(p.timestamp) {
        Some(m) => Some(m),
        None => None,
    }));
    assert(obj_get(avg_entries(p), "avgHighPrice"@) == (match opt_num(p.avg_high_price) {
        Some(m) => Some(m),
        None => None,
    }));
}

/// Decoding an encoded bucket returns the bucket: optional fields round-trip
/// as present or absent exactly as they started.
pub proof fn lemma_avgprice_round_trip(p: AvgPrice)
    ensures
        avgprice_of(avgprice_json(p)) == Some(p),
{
    lemma_avg_fields(p);
    assert(avgprice_of(avgprice_json(p))->0 =~= p);
}

/// A field the bucket does not carry is absent from the encoding, and a
/// carried field is present: absence survives re-serialization.
pub proof fn lemma_avgprice_absent_fields(p: AvgPrice)
    ensures
        obj_get(avg_entries(p), "timestamp"@) is Some <==> p.timestamp is Some,
        obj_get(avg_entries(p), "avgHighPrice"@) is Some <==> p.avg_high_price is Some,
        obj_get(avg_entries(p), "highPriceVolume"@) is Some <==> p.high_price_volume is Some,
        obj_get(avg_entries(p), "avgLowPrice"@) is Some <==> p.avg_low_price is Some,
        obj_get(avg_entries(p), "lowPriceVolume"@) is Some <==> p.low_price_volume is Some,
{
    lemma_avg_fields(p);
}

/// Every value of an encoded bucket is a plain unsigned number: the encoding
/// never writes a JSON null.
pub proof fn lemma_avgprice_no_null(p: AvgPrice)
    ensures
        forall|i: int| 0 <= i < avg_entries(p).len()
            ==> (#[trigger] avg_entries(p)[i]).1 is UInt,
{
}

pub fn decode_avg_price(j: &Json) -> (r: Result<AvgPrice, ()>)
    ensures
        match r {
            Ok(p) => avgprice_of(j.model()) == Some(p),
            Err(_) => avgprice_of(j.model()) is None,
        },
{
    match j {
        Json::Obj(entries) => {
            let timestamp = match crate::json::get_opt_u64(entries, "timestamp") {
                Ok(o) => o,
                Err(_) => return Err(()),
            };
            let avg_high_price = match crate::json::get_opt_u64(entries, "avgHighPrice") {
                Ok(o) => o,
                Err(_) => return Err(()),
            };
            let high_price_volume = match crate::json::get_opt_u64(entries, "highPriceVolume") {
                Ok(o) => o,
                Err(_) => return Err(()),
            };
            let avg_low_price = match crate::json::get_opt_u64(entries, "avgLowPrice") {
                Ok(o) => o,
                Err(_) => return Err(()),
            };
            let low_price_volume = match crate::json::get_opt_u64(entries, "lowPriceVolume") {
                Ok(o) => o,
                Err(_) => return Err(()),
            };
            Ok(
                AvgPrice {
                    timestamp,
                    avg_high_price,
                    high_price_volume,
                    avg_low_price,
                    low_price_volume,
                },
            )
        },
        _ => Err(()),
    }
}

pub fn encode_avg_price(p: &AvgPrice) -> (r: Json)
    ensures
        r.model() == avgprice_json(*p),
{
    let mut entries: Vec<(String, Json)> = Vec::new();
    proof {
        assert(entries_model(entries@) =~= Seq::<(Seq<char>, JsonModel)>::empty());
    }
    push_opt_u64(&mut entries, "timestamp", p.timestamp);
    push_opt_u64(&mut entries, "avgHighPrice", p.avg_high_price);
    push_opt_u64(&mut entries, "highPriceVolume", p.high_price_volume);
    push_opt_u64(&mut entries, "avgLowPrice", p.avg_low_price);
    push_opt_u64(&mut entries, "lowPriceVolume", p.low_price_volume);
    proof {
        assert(entries_model(entries@) =~= avg_entries(*p));
    }
    Json::Obj(entries)
}

/// The bucket list an array denotes, in wire order.
pub open spec fn avg_list_of(items: Seq<JsonModel>) -> Option<Seq<AvgPrice>>
    decreases items.len(),
{
    if items.len() == 0 {
        Some(Seq::empty())
    } else {
        match avg_list_of(items.drop_last()) {
            None => None,
            Some(acc) => match avgprice_of(items.last()) {
                Some(p) => Some(acc.push(p)),
                None => None,
            },
        }
    }
}

/// A failure on a prefix of the array is a failure of the whole.
pub proof fn lemma_avg_list_extend_none(items: Seq<JsonModel>, i: int)
    requires
        0 <= i <= items.len(),
        avg_list_of(items.take(i)) is None,
    ensures
        avg_list_of(items) is None,
    decreases items.len() - i,
{
    if i == items.len() {
        assert(items.take(i) =~= items);
    } else {
        assert(items.take(i + 1).drop_last() =~= items.take(i));
        lemma_avg_list_extend_none(items, i + 1);
    }
}

/// Decoding an array of encoded buckets returns the buckets in order.
pub proof fn lemma_avg_list_round_trip(data: Seq<AvgPrice>, items: Seq<JsonModel>)
    requires
        items.len() == data.len(),
        forall|i: int| 0 <= i < data.len()
            ==> (#[trigger] items[i]) == avgprice_json(data[i]),
    ensures
        avg_list_of(items) == Some(data),
    decreases data.len(),
{
    if data.len() == 0 {
        assert(avg_list_of(items) == Some(Seq::<AvgPrice>::empty()));
        assert(Seq::<AvgPrice>::empty() =~= data);
    } else {
        let dd = data.drop_last();
        let id = items.drop_last();
        assert forall|i: int| 0 <= i < dd.len() implies (#[trigger] id[i]) == avgprice_json(
            dd[i],
        ) by {
            assert(id[i] == items[i] && dd[i] == data[i]);
        }
        lemma_avg_list_round_trip(dd, id);
        lemma_avgprice_round_trip(data.last());
        assert(items.last() == avgprice_json(data.last()));
        assert(dd.push(data.last()) =~= data);
    }
}

pub fn decode_avg_list(items: &Vec<Json>) -> (r: Result<Vec<AvgPrice>, ()>)
    ensures
        match r {
            Ok(v) => avg_list_of(arr_model(items@)) == Some(v@),
            Err(_) => avg_list_of(arr_model(items@)) is None,
        },
{
    let ghost m = arr_model(items@);
    proof {
        lemma_arr_model(items@);
    }
    let mut out: Vec<AvgPrice> = Vec::new();
    let mut i: usize = 0;
    proof {
        assert(m.take(0) =~= Seq::<JsonModel>::empty());
    }
    while i < items.len()
        invariant
            0 <= i <= items.len(),
            m == arr_model(items@),
            m.len() == items.len(),
            forall|j: int| 0 <= j < items.len() ==> m[j] == items@[j].model(),
            avg_list_of(m.take(i as int)) == Some(out@),
        decreases items.len() - i,
    {
        proof {
            assert(m.take(i as int + 1).drop_last() =~= m.take(i as int));
            assert(m.take(i as int + 1).last() == m[i as int]);
        }
        match decode_avg_price(&items[i]) {
            Ok(p) => {
                out.push(p);
            },
            Err(_) => {
                proof {
                    lemma_avg_list_extend_none(m, i as int + 1);
                }
                return Err(());
            },
        }
        i = i + 1;
    }
    proof {
        assert(m.take(items.len() as int) =~= m);
    }
    Ok(out)
}

/// The time series a document denotes: the bucket list under `data` and the
/// echoed id under `itemId`, both required.
pub open spec fn timeserie_of(m: JsonModel) -> Option<(Seq<AvgPrice>, u64)> {
    match m {
        JsonModel::Obj(es) => match (obj_get(es, "data"@), req_u64_field(es, "itemId"@)) {
            (Some(JsonModel::Arr(items)), Some(id)) => match avg_list_of(items) {
                Some(list) => Some((list, id)),
                None => None,
            },
            _ => None,
        },
        _ => None,
    }
}

/// The entries of an encoded time series.
pub open spec fn timeserie_entries(data: Seq<AvgPrice>, item_id: u64) -> Seq<
    (Seq<char>, JsonModel),
> {
    seq![
        ("data"@, JsonModel::Arr(Seq::new(data.len(), |i: int| avgprice_json(data[i])))),
        ("itemId"@, JsonModel::UInt(item_id as u128)),
    ]
}

/// An encoded time series.
pub open spec fn timeserie_json(data: Seq<AvgPrice>, item_id: u64) -> JsonModel {
    JsonModel::Obj(timeserie_entries(data, item_id))
}

pub fn decode_timeseries(j: &Json) -> (r: Result<Timeserie, Error>)
    ensures
        r is Ok <==> timeserie_of(j.model()) is Some,
        r matches Ok(t) ==> timeserie_of(j.model()) == Some((t.data@, t.item_id)),
        r matches Err(e) ==> e@
            == "Failed to deserialize timeseries: the response shape does not match"@,
{
    let fail_msg = "Failed to deserialize timeseries: the response shape does not match";
    match j {
        Json::Obj(entries) => {
            let item_id = match get_req_u64(entries, "itemId") {
                Ok(n) => n,
                Err(_) => return Err(Error::new(fail_msg)),
            };
            match obj_lookup(entries, "data") {
                Some(v) => match v {
                    Json::Arr(items) => match decode_avg_list(items) {
                        Ok(data) => Ok(Timeserie { data, item_id }),
                        Err(_) => Err(Error::new(fail_msg)),
                    },
                    _ => Err(Error::new(fail_msg)),
                },
                None => Err(Error::new(fail_msg)),
            }
        },
        _ => Err(Error::new(fail_msg)),
    }
}

pub fn encode_timeserie(t: &Timeserie) -> (r: Json)
    ensures
        r.model() == timeserie_json(t.data@, t.item_id),
{
    let mut items: Vec<Json> = Vec::new();
    let mut i: usize = 0;
    while i < t.data.len()
        invariant
            0 <= i <= t.data.len(),
            items@.len() == i,
            forall|j: int| 0 <= j < i
                ==> (#[trigger] items@[j]).model() == avgprice_json(t.data@[j]),
        decreases t.data.len() - i,
    {
        items.push(encode_avg_price(&t.data[i]));
        i = i + 1;
    }
    let mut entries: Vec<(String, Json)> = Vec::new();
    proof {
        assert(entries_model(entries@) =~= Seq::<(Seq<char>, JsonModel)>::empty());
        lemma_arr_model(items@);
        assert(arr_model(items@) =~= Seq::new(t.data@.len(), |k: int| avgprice_json(t.data@[k])));
    }
    push_entry(&mut entries, "data", Json::Arr(items));
    push_entry(&mut entries, "itemId", Json::UInt(t.item_id as u128));
    proof {
        assert(entries_model(entries@) =~= timeserie_entries(t.data@, t.item_id));
    }
    Json::Obj(entries)
}

/// Decoding an encoded time series returns it unchanged.
pub proof fn lemma_timeserie_round_trip(data: Seq<AvgPrice>, item_id: u64)
    ensures
        timeserie_of(timeserie_json(data, item_id)) == Some((data, item_id)),
{
    reveal_strlit("data");
    reveal_strlit("itemId");
    let es = timeserie_entries(data, item_id);
    let tail = seq![("itemId"@, JsonModel::UInt(item_id as u128))];
    assert(es.drop_first() =~= tail);
    assert(tail.drop_first() =~= Seq::<(Seq<char>, JsonModel)>::empty());
    assert("data"@.len() == 4 && "itemId"@.len() == 6);
    assert("data"@ != "itemId"@);
    assert(es[0].0 == "data"@ && es[1].0 == "itemId"@);
    assert(tail[0] == es[1]);
    assert(obj_get(tail, "itemId"@) == Some(tail[0].1));
    assert(obj_get(es, "data"@) == Some(es[0].1));
    assert(obj_get(es, "itemId"@) == obj_get(tail, "itemId"@));
    assert(obj_get(es, "itemId"@) == Some(es[1].1));
    let items = Seq::new(data.len(), |i: int| avgprice_json(data[i]));
    lemma_avg_list_round_trip(data, items);
}

/// The bucket widths the time-series endpoint accepts.
pub open spec fn valid_timestep(s: Seq<char>) -> bool {
    s == "5m"@ || s == "1h"@ || s == "6h"@ || s == "24h"@
}

pub fn is_valid_timestep(timestep: &str) -> (r: bool)
    ensures
        r == valid_timestep(timestep@),
{
    str_eq(timestep, "5m") || str_eq(timestep, "1h") || str_eq(timestep, "6h") || str_eq(
        timestep,
        "24h",
    )
}

/// The request of the time-series endpoint: its path and its query pairs,
/// or the exact validation error for a bucket width outside the accepted set.
/// No transport work happens on the validation path.
pub fn timeseries_request(id: &str, timestep: &str) -> (r: Result<
    (String, Vec<(String, String)>),
    Error,
>)
    ensures
        r is Ok <==> valid_timestep(timestep@),
        r matches Ok(p) ==> p.0@ == "timeseries"@ && p.1@.len() == 2 && p.1@[0].0@ == "id"@
            && p.1@[0].1@ == id@ && p.1@[1].0@ == "timestep"@ && p.1@[1].1@ == timestep@,
        r matches Err(e) ==> e@
            == "Timestep can only be one of the following value : 5m, 1h, 6h, 24h "@,
{
    if !is_valid_timestep(timestep) {
        return Err(
            Error::new("Timestep can only be one of the following value : 5m, 1h, 6h, 24h "),
        );
    }
    let mut queries: Vec<(String, String)> = Vec::new();
    queries.push((String::from_str("id"), String::from_str(id)));
    queries.push((String::from_str("timestep"), String::from_str(timestep)));
    Ok((String::from_str("timeseries"), queries))
}

} // verus!
