use shopsavvy_sdk::request::{join_identifiers, ApiRequest, HttpMethod, Operation};
use shopsavvy_sdk::{Client, MonitoringFrequency, OutputFormat};

fn client() -> Client {
    Client::new("ss_live_abc123").unwrap()
}

fn pairs(p: &[(&str, &str)]) -> Vec<(String, String)> {
    p.iter().map(|(k, v)| (k.to_string(), v.to_string())).collect()
}

fn query(req: &ApiRequest) -> Vec<(String, String)> {
    req.query.clone().expect("query")
}

#[test]
fn product_details_without_format() {
    let req = client().get_product_details("012345678901", None);
    assert_eq!(req.method, HttpMethod::Get);
    assert_eq!(req.url, "https://api.shopsavvy.com/v1/products");
    assert_eq!(query(&req), pairs(&[("ids", "012345678901")]));
    assert!(req.body.is_none());
}

#[test]
fn product_details_with_format() {
    let req = client().get_product_details("012345678901", Some(OutputFormat::Csv));
    assert_eq!(query(&req), pairs(&[("ids", "012345678901"), ("format", "csv")]));
}

#[test]
fn batch_identifiers_are_comma_joined() {
    assert_eq!(join_identifiers(&["A", "B", "C"]), "A,B,C");
    let req = client().get_product_details_batch(&["A", "B", "C"], None);
    assert_eq!(query(&req), pairs(&[("ids", "A,B,C")]));
}

#[test]
fn join_of_edge_cases() {
    assert_eq!(join_identifiers(&[]), "");
    assert_eq!(join_identifiers(&["only"]), "only");
    assert_eq!(join_identifiers(&["", ""]), ",");
}

#[test]
fn search_omits_unset_paging() {
    let req = client().search_products("iphone 15 pro", None, None);
    assert_eq!(req.method, HttpMethod::Get);
    assert_eq!(req.url, "https://api.shopsavvy.com/v1/products/search");
    assert_eq!(query(&req), pairs(&[("q", "iphone 15 pro")]));
}

#[test]
fn search_sends_paging_as_numerals() {
    let req = client().search_products("tv", Some(10), Some(-5));
    assert_eq!(query(&req), pairs(&[("q", "tv"), ("limit", "10"), ("offset", "-5")]));
    let req = client().search_products("tv", None, Some(0));
    assert_eq!(query(&req), pairs(&[("q", "tv"), ("offset", "0")]));
    let req = client().search_products("tv", Some(i32::MIN), Some(i32::MAX));
    assert_eq!(
        query(&req),
        pairs(&[("q", "tv"), ("limit", "-2147483648"), ("offset", "2147483647")])
    );
}

#[test]
fn current_offers_with_and_without_options() {
    let c = client();
    let req = c.get_current_offers("B08N5WRWNW", None, None);
    assert_eq!(req.url, "https://api.shopsavvy.com/v1/products/offers");
    assert_eq!(query(&req), pairs(&[("ids", "B08N5WRWNW")]));
    let req = c.get_current_offers("B08N5WRWNW", Some("amazon"), Some(OutputFormat::Json));
    assert_eq!(
        query(&req),
        pairs(&[("ids", "B08N5WRWNW"), ("retailer", "amazon"), ("format", "json")])
    );
    let req = c.get_current_offers_batch(&["x", "y"], Some("target"), None);
    assert_eq!(query(&req), pairs(&[("ids", "x,y"), ("retailer", "target")]));
}

#[test]
fn price_history_query() {
    let req = client().get_price_history("012345678901", "2024-01-01", "2024-01-31", None, None);
    assert_eq!(req.url, "https://api.shopsavvy.com/v1/products/offers/history");
    assert_eq!(
        query(&req),
        pairs(&[("ids", "012345678901"), ("start_date", "2024-01-01"), ("end_date", "2024-01-31")])
    );
    let req = client().get_price_history("1", "a", "b", Some("bestbuy"), Some(OutputFormat::Csv));
    assert_eq!(
        query(&req),
        pairs(&[
            ("ids", "1"),
            ("start_date", "a"),
            ("end_date", "b"),
            ("retailer", "bestbuy"),
            ("format", "csv")
        ])
    );
}

#[test]
fn scheduling_bodies() {
    let c = client();
    let req = c.schedule_product_monitoring("012345678901", MonitoringFrequency::Daily, None);
    assert_eq!(req.method, HttpMethod::Post);
    assert_eq!(req.url, "https://api.shopsavvy.com/v1/products/schedule");
    assert!(req.query.is_none());
    assert_eq!(
        req.body.clone().unwrap(),
        pairs(&[("identifier", "012345678901"), ("frequency", "daily")])
    );
    let req = c.schedule_product_monitoring_batch(&["A", "B"], MonitoringFrequency::Hourly, Some("walmart"));
    assert_eq!(
        req.body.clone().unwrap(),
        pairs(&[("identifiers", "A,B"), ("frequency", "hourly"), ("retailer", "walmart")])
    );
}

#[test]
fn removal_and_listing() {
    let c = client();
    let req = c.remove_product_from_schedule("012345678901");
    assert_eq!(req.method, HttpMethod::Delete);
    assert_eq!(req.url, "https://api.shopsavvy.com/v1/products/schedule");
    assert_eq!(req.body.clone().unwrap(), pairs(&[("identifier", "012345678901")]));
    let req = c.remove_products_from_schedule(&["A", "B", "C"]);
    assert_eq!(req.body.clone().unwrap(), pairs(&[("identifiers", "A,B,C")]));
    let req = c.get_scheduled_products();
    assert_eq!(req.method, HttpMethod::Get);
    assert_eq!(req.url, "https://api.shopsavvy.com/v1/products/scheduled");
    assert!(req.query.is_none() && req.body.is_none());
    let req = c.get_usage();
    assert_eq!(req.url, "https://api.shopsavvy.com/v1/usage");
    assert!(req.query.is_none() && req.body.is_none());
}

#[test]
fn operation_table() {
    assert_eq!(Operation::Search.path(), "/products/search");
    assert_eq!(Operation::ScheduleMonitoring.method(), HttpMethod::Post);
    assert_eq!(Operation::RemoveFromSchedule.method(), HttpMethod::Delete);
    assert_eq!(Operation::RemoveFromSchedule.path(), "/products/schedule");
    assert_eq!(Operation::Usage.method(), HttpMethod::Get);
}

#[test]
fn enum_texts() {
    assert_eq!(OutputFormat::Json.to_string(), "json");
    assert_eq!(OutputFormat::Csv.to_string(), "csv");
    assert_eq!(MonitoringFrequency::Hourly.to_string(), "hourly");
    assert_eq!(MonitoringFrequency::Daily.to_string(), "daily");
    assert_eq!(MonitoringFrequency::Weekly.to_string(), "weekly");
}
