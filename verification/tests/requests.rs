use osrs_rtge::client::default_host;
use osrs_rtge::client::request_target;
use osrs_rtge::client::transport_error;
use osrs_rtge::errors::Error;
use osrs_rtge::five_minute::five_minute_request;
use osrs_rtge::latest::latest_request;
use osrs_rtge::mapping::mapping_request;
use osrs_rtge::one_hour::one_hour_request;
use osrs_rtge::timeserie::is_valid_timestep;
use osrs_rtge::timeserie::timeseries_request;

#[test]
fn test_latest_request_with_id() {
    let (path, queries) = latest_request(Some("4151"));
    assert_eq!(path, "latest");
    assert_eq!(queries.len(), 1);
    assert_eq!(queries[0].0, "id");
    assert_eq!(queries[0].1, "4151");
}

#[test]
fn test_omitted_parameters_send_no_query() {
    assert!(latest_request(None).1.is_empty());
    assert!(five_minute_request(None).1.is_empty());
    assert!(one_hour_request(None).1.is_empty());
}

#[test]
fn test_five_minute_request_paths() {
    let (path, queries) = five_minute_request(None);
    assert_eq!(path, "5m");
    assert!(queries.is_empty());
    let (path, queries) = five_minute_request(Some("1700000000"));
    assert_eq!(path, "5m");
    assert_eq!(queries, vec![("timestamp".to_string(), "1700000000".to_string())]);
}

#[test]
fn test_one_hour_request_paths() {
    let (path, queries) = one_hour_request(None);
    assert_eq!(path, "1h");
    assert!(queries.is_empty());
    let (path, queries) = one_hour_request(Some("1700000000"));
    assert_eq!(path, "1h");
    assert_eq!(queries[0].0, "timestamp");
}

#[test]
fn test_timeseries_request_queries() {
    let (path, queries) = timeseries_request("4151", "5m").expect("Timeseries Error");
    assert_eq!(path, "timeseries");
    assert_eq!(
        queries,
        vec![
            ("id".to_string(), "4151".to_string()),
            ("timestep".to_string(), "5m".to_string()),
        ]
    );
    assert!(timeseries_request("4151", "1h").is_ok());
    assert!(timeseries_request("4151", "6h").is_ok());
    assert!(timeseries_request("4151", "24h").is_ok());
}

#[test]
fn test_timeseries_rejects_invalid_timestep() {
    let err = timeseries_request("4151", "2h").expect_err("timestep should be rejected");
    assert_eq!(
        err.message(),
        "Timestep can only be one of the following value : 5m, 1h, 6h, 24h "
    );
    assert!(timeseries_request("4151", "5h").is_err());
    assert!(timeseries_request("4151", "").is_err());
    assert!(!is_valid_timestep("2h"));
    assert!(is_valid_timestep("24h"));
}

#[test]
fn test_mapping_request_path() {
    let (path, queries) = mapping_request();
    assert_eq!(path, "mapping");
    assert!(queries.is_empty());
}

#[test]
fn test_request_target_concatenates() {
    assert_eq!(default_host(), "https://prices.runescape.wiki/api/v1/osrs/");
    assert_eq!(
        request_target("https://prices.runescape.wiki/api/v1/osrs/", "latest"),
        "https://prices.runescape.wiki/api/v1/osrs/latest"
    );
}

#[test]
fn test_error_messages() {
    let err = Error::new("boom");
    assert_eq!(err.message(), "boom");
    let err = transport_error("connection refused");
    assert_eq!(err.message(), "client@get->request.call(): connection refused");
}
