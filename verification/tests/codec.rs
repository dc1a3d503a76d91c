use osrs_rtge::client::parse_response_body;
use osrs_rtge::five_minute::decode_prices;
use osrs_rtge::five_minute::encode_prices;
use osrs_rtge::json::Json;
use osrs_rtge::latest::decode_latest;
use osrs_rtge::latest::encode_latest;
use osrs_rtge::latest::Price;
use osrs_rtge::mapping::decode_mapping;
use osrs_rtge::mapping::encode_mapping;
use osrs_rtge::numbers::parse_u64_str;
use osrs_rtge::numbers::render_u64;
use osrs_rtge::timeserie::decode_timeseries;
use osrs_rtge::timeserie::encode_timeserie;
use osrs_rtge::timeserie::AvgPrice;

fn parse(body: &str) -> Json {
    parse_response_body(body).expect("body should parse")
}

/// Sorts object keys recursively: `parse` hands objects back key-sorted, while
/// the encoders emit fields in wire declaration order, so trees are compared
/// in this canonical form.
fn canon(j: Json) -> Json {
    match j {
        Json::Arr(items) => Json::Arr(items.into_iter().map(canon).collect()),
        Json::Obj(entries) => {
            let mut es: Vec<(String, Json)> =
                entries.into_iter().map(|(k, v)| (k, canon(v))).collect();
            es.sort_by(|a, b| a.0.cmp(&b.0));
            Json::Obj(es)
        }
        other => other,
    }
}

#[test]
fn test_latest_4151() {
    let body = r#"{"data":{"4151":{"high":135000,"highTime":1700000000,"low":134000,"lowTime":1700000001}}}"#;
    let json = parse(body);
    let latest = decode_latest(&json).expect("Latest Error");
    assert_eq!(latest.data.len(), 1);
    assert_eq!(latest.data[0].0, 4151);
    assert_eq!(
        latest.data[0].1,
        Price {
            high: Some(135000),
            high_time: Some(1700000000),
            low: Some(134000),
            low_time: Some(1700000001),
        }
    );
    let encoded = encode_latest(&latest);
    assert_eq!(canon(encode_latest(&latest)), parse(body));
    let again = decode_latest(&encoded).expect("Latest Error");
    assert_eq!(again, latest);
}

#[test]
fn test_five_minutes() {
    let body = r#"{"data":{"2":{"avgHighPrice":166,"highPriceVolume":1973968,"avgLowPrice":162,"lowPriceVolume":2764798}},"timestamp":1700000000}"#;
    let json = parse(body);
    let prices = decode_prices(&json).expect("five_minute Error");
    assert_eq!(prices.timestamp, Some(1700000000));
    assert_eq!(prices.data.len(), 1);
    assert_eq!(prices.data[0].0, 2);
    assert_eq!(
        prices.data[0].1,
        AvgPrice {
            timestamp: None,
            avg_high_price: Some(166),
            high_price_volume: Some(1973968),
            avg_low_price: Some(162),
            low_price_volume: Some(2764798),
        }
    );
    let encoded = encode_prices(&prices);
    assert_eq!(canon(encode_prices(&prices)), parse(body));
    let again = decode_prices(&encoded).expect("five_minute Error");
    assert_eq!(again, prices);
}

#[test]
fn test_one_hour() {
    let body = r#"{"data":{"2":{"avgHighPrice":166,"highPriceVolume":1973968,"avgLowPrice":162,"lowPriceVolume":2764798}}}"#;
    let json = parse(body);
    let prices = decode_prices(&json).expect("one_hour Error");
    assert_eq!(prices.timestamp, None);
    assert_eq!(prices.data[0].0, 2);
    assert_eq!(canon(encode_prices(&prices)), parse(body));
}

#[test]
fn test_timeseries() {
    let body = r#"{"data":[{"timestamp":1700000000,"avgHighPrice":135100,"highPriceVolume":5,"avgLowPrice":134800,"lowPriceVolume":7},{"timestamp":1700000300,"avgLowPrice":134900,"lowPriceVolume":2}],"itemId":4151}"#;
    let json = parse(body);
    let serie = decode_timeseries(&json).expect("Timeseries Error");
    assert_eq!(serie.item_id, 4151);
    assert_eq!(serie.data.len(), 2);
    assert_eq!(serie.data[1].avg_high_price, None);
    assert_eq!(serie.data[1].avg_low_price, Some(134900));
    let encoded = encode_timeserie(&serie);
    assert_eq!(canon(encode_timeserie(&serie)), parse(body));
    let again = decode_timeseries(&encoded).expect("Timeseries Error");
    assert_eq!(again, serie);
}

#[test]
fn test_mapping() {
    let body = r#"[{"examine":"A weapon from the abyss.","id":4151,"members":true,"lowalch":72000,"limit":70,"value":120001,"highalch":108000,"icon":"Abyssal whip.png","name":"Abyssal whip"},{"examine":"Fresh bread.","id":2309,"members":false,"value":12,"icon":"Bread.png","name":"Bread"}]"#;
    let json = parse(body);
    let items = decode_mapping(&json).expect("Mapping Error");
    assert_eq!(items.len(), 2);
    assert_eq!(items[0].id, 4151);
    assert_eq!(items[0].name, "Abyssal whip");
    assert_eq!(items[0].lowalch, Some(72000));
    assert_eq!(items[0].limit, Some(70));
    assert_eq!(items[1].id, 2309);
    assert!(!items[1].members);
    assert_eq!(items[1].lowalch, None);
    assert_eq!(items[1].limit, None);
    assert_eq!(items[1].highalch, None);
    let encoded = encode_mapping(&items);
    assert_eq!(canon(encode_mapping(&items)), parse(body));
    let again = decode_mapping(&encoded).expect("Mapping Error");
    assert_eq!(again, items);
}

#[test]
fn test_latest_orders_keys_ascending() {
    let body = r#"{"data":{"10":{"high":3},"2":{"low":5}}}"#;
    let json = parse(body);
    let latest = decode_latest(&json).expect("Latest Error");
    assert_eq!(latest.data.len(), 2);
    assert_eq!(latest.data[0].0, 2);
    assert_eq!(latest.data[1].0, 10);
    assert_eq!(latest.data[0].1.low, Some(5));
    assert_eq!(latest.data[1].1.high, Some(3));
}

#[test]
fn test_absent_fields_stay_absent() {
    let body = r#"{"data":{"2":{}}}"#;
    let json = parse(body);
    let latest = decode_latest(&json).expect("Latest Error");
    assert_eq!(latest.data[0].1, Price { high: None, high_time: None, low: None, low_time: None });
    assert_eq!(canon(encode_latest(&latest)), parse(body));
}

#[test]
fn test_decode_error_messages() {
    let empty_obj = parse("{}");
    let err = decode_latest(&empty_obj).expect_err("shape should not match");
    assert_eq!(
        err.message(),
        "Failed to deserialize latest: the response shape does not match"
    );
    let err = decode_prices(&empty_obj).expect_err("shape should not match");
    assert_eq!(
        err.message(),
        "Failed to deserialize Prices: the response shape does not match"
    );
    let err = decode_timeseries(&empty_obj).expect_err("shape should not match");
    assert_eq!(
        err.message(),
        "Failed to deserialize timeseries: the response shape does not match"
    );
    let err = decode_mapping(&empty_obj).expect_err("shape should not match");
    assert_eq!(
        err.message(),
        "Failed to deserialize mapping: the response shape does not match"
    );
}

#[test]
fn test_decode_rejects_wrong_field_type() {
    let json = parse(r#"{"data":{"2":{"high":"a lot"}}}"#);
    assert!(decode_latest(&json).is_err());
    let json = parse(r#"{"data":{"not a number":{}}}"#);
    assert!(decode_latest(&json).is_err());
}

#[test]
fn test_unknown_fields_are_ignored() {
    let body = r#"{"data":{"2":{"high":7,"someFutureField":-1.5}},"extra":null}"#;
    let json = parse(body);
    let latest = decode_latest(&json).expect("Latest Error");
    assert_eq!(latest.data[0].1.high, Some(7));
}

#[test]
fn test_parse_error_prefix() {
    let err = parse_response_body("{not json").expect_err("bad body should fail");
    assert!(err.message().starts_with("client@get->response.into_json(): "));
}

#[test]
fn test_parse_builds_expected_tree() {
    let json = parse(r#"{"a":[1,true,null,"x"]}"#);
    let expected = Json::Obj(vec![(
        "a".to_string(),
        Json::Arr(vec![
            Json::UInt(1),
            Json::Bool(true),
            Json::Null,
            Json::Str("x".to_string()),
        ]),
    )]);
    assert_eq!(json, expected);
}

#[test]
fn test_render_and_parse_u64() {
    assert_eq!(render_u64(4151), "4151");
    assert_eq!(render_u64(0), "0");
    assert_eq!(render_u64(u64::MAX), "18446744073709551615");
    assert_eq!(parse_u64_str("4151"), Some(4151));
    assert_eq!(parse_u64_str("007"), Some(7));
    assert_eq!(parse_u64_str(""), None);
    assert_eq!(parse_u64_str("12a"), None);
    assert_eq!(parse_u64_str("-3"), None);
    assert_eq!(parse_u64_str("18446744073709551615"), Some(u64::MAX));
    assert_eq!(parse_u64_str("18446744073709551616"), None);
}

#[test]
fn test_duplicate_ids_keep_later_entry() {
    let body = r#"{"data":{"02":{"high":1},"2":{"high":2}}}"#;
    let json = parse(body);
    let latest = decode_latest(&json).expect("Latest Error");
    assert_eq!(latest.data.len(), 1);
    assert_eq!(latest.data[0].0, 2);
    assert_eq!(latest.data[0].1.high, Some(2));
}
