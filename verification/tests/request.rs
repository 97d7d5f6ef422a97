use wolfline::api::helper_types::{AgencyId, Location, RouteId, StopId, StringOrNumber};
use wolfline::api::request::{join_ids, EndpointRequest, API_URL};
use wolfline::text::decimal;

fn agency(id: &str) -> AgencyId {
    AgencyId(id.to_string())
}

fn pair(key: &str, value: &str) -> (String, String) {
    (key.to_string(), value.to_string())
}

#[test]
fn decimal_writes_digits() {
    assert_eq!(decimal(0), "0");
    assert_eq!(decimal(7), "7");
    assert_eq!(decimal(10), "10");
    assert_eq!(decimal(42), "42");
    assert_eq!(decimal(1_000_000), "1000000");
    assert_eq!(decimal(u64::MAX), "18446744073709551615");
}

#[test]
fn decimal_agrees_with_std() {
    for n in [0u64, 1, 9, 10, 11, 99, 100, 101, 12345, 9_007_199_254_740_993] {
        assert_eq!(decimal(n), n.to_string());
    }
}

#[test]
fn agency_id_from_text_keeps_the_text() {
    let id = AgencyId::from_wire(StringOrNumber::Text("ncsu-16".to_string()));
    assert_eq!(id, agency("ncsu-16"));
}

#[test]
fn agency_id_from_number_is_its_decimal_text() {
    let id = AgencyId::from_wire(StringOrNumber::Number(42));
    assert_eq!(id, agency("42"));
    assert_eq!(AgencyId::from_wire(StringOrNumber::Number(0)), agency("0"));
}

#[test]
fn agency_id_from_number_and_from_text_agree() {
    let from_number = AgencyId::from_wire(StringOrNumber::Number(16));
    let from_text = AgencyId::from_wire(StringOrNumber::Text("16".to_string()));
    assert_eq!(from_number, from_text);
}

#[test]
fn identifiers_compare_by_text() {
    assert_eq!(RouteId("30".to_string()), RouteId("30".to_string()));
    assert_ne!(RouteId("30".to_string()), RouteId("31".to_string()));
    assert_eq!(StopId("a".to_string()).clone(), StopId("a".to_string()));
}

#[test]
fn target_of_each_request() {
    let none: Option<Location> = None;
    assert_eq!(EndpointRequest::Vehicles { agencies: None, geo_area: none }.target(), "vehicles.json");
    assert_eq!(EndpointRequest::Stops { agencies: vec![], geo_area: none }.target(), "stops.json");
    assert_eq!(
        EndpointRequest::Segments { agencies: vec![], geo_area: none, routes: None }.target(),
        "segments.json"
    );
    assert_eq!(EndpointRequest::Routes { agencies: vec![], geo_area: none }.target(), "routes.json");
    assert_eq!(
        EndpointRequest::ArrivalEstimates { agencies: vec![], stops: vec![], geo_area: none }.target(),
        "arrival-estimates.json"
    );
    assert_eq!(EndpointRequest::Agencies { agencies: None, geo_area: none }.target(), "agencies.json");
}

#[test]
fn target_does_not_depend_on_filters() {
    let bare = EndpointRequest::Routes { agencies: vec![], geo_area: None };
    let filtered = EndpointRequest::Routes {
        agencies: vec![agency("42"), agency("7")],
        geo_area: Some(Location { lat_bits: 1, lng_bits: 2 }),
    };
    assert_eq!(bare.target(), filtered.target());
    assert_eq!(bare.to_url(), filtered.to_url());
}

#[test]
fn routes_url() {
    let request = EndpointRequest::Routes { agencies: vec![agency("42")], geo_area: None };
    assert_eq!(request.to_url(), "https://transloc-api-1-2.p.rapidapi.com/routes.json");
    assert_eq!(request.to_url(), format!("https://{}/{}", API_URL, request.target()));
}

#[test]
fn arrival_estimates_url() {
    let request = EndpointRequest::ArrivalEstimates { agencies: vec![], stops: vec![], geo_area: None };
    assert_eq!(request.to_url(), "https://transloc-api-1-2.p.rapidapi.com/arrival-estimates.json");
}

#[test]
fn join_ids_puts_commas_between() {
    assert_eq!(join_ids::<AgencyId>(&vec![]), "");
    assert_eq!(join_ids(&vec![agency("42")]), "42");
    assert_eq!(join_ids(&vec![agency("42"), agency("7"), agency("x")]), "42,7,x");
    assert_eq!(join_ids(&vec![StopId("a".to_string()), StopId("".to_string())]), "a,");
}

#[test]
fn fill_query_agencies_request_without_filter_adds_nothing() {
    let mut query = vec![pair("format", "json")];
    EndpointRequest::Agencies { agencies: None, geo_area: None }.fill_query(&mut query);
    assert_eq!(query, vec![pair("format", "json")]);
}

#[test]
fn fill_query_appends_agencies() {
    let mut query = vec![pair("format", "json")];
    EndpointRequest::Routes { agencies: vec![agency("42"), agency("43")], geo_area: None }
        .fill_query(&mut query);
    assert_eq!(query, vec![pair("format", "json"), pair("agencies", "42,43")]);
}

#[test]
fn fill_query_vehicles_with_agencies() {
    let mut query = Vec::new();
    EndpointRequest::Vehicles { agencies: Some(vec![agency("42")]), geo_area: None }
        .fill_query(&mut query);
    assert_eq!(query, vec![pair("agencies", "42")]);
}

#[test]
fn fill_query_segments_orders_agencies_before_routes() {
    let mut query = Vec::new();
    EndpointRequest::Segments {
        agencies: vec![agency("42")],
        geo_area: None,
        routes: Some(vec![RouteId("30".to_string()), RouteId("31".to_string())]),
    }
    .fill_query(&mut query);
    assert_eq!(query, vec![pair("agencies", "42"), pair("routes", "30,31")]);
}

#[test]
fn fill_query_segments_without_routes() {
    let mut query = Vec::new();
    EndpointRequest::Segments { agencies: vec![agency("42")], geo_area: None, routes: None }
        .fill_query(&mut query);
    assert_eq!(query, vec![pair("agencies", "42")]);
}

#[test]
fn fill_query_arrival_estimates_orders_agencies_before_stops() {
    let mut query = Vec::new();
    EndpointRequest::ArrivalEstimates {
        agencies: vec![agency("42")],
        stops: vec![StopId("s1".to_string()), StopId("s2".to_string())],
        geo_area: None,
    }
    .fill_query(&mut query);
    assert_eq!(query, vec![pair("agencies", "42"), pair("stops", "s1,s2")]);
}

#[test]
fn fill_query_skips_empty_filters() {
    let mut query = Vec::new();
    EndpointRequest::Stops { agencies: vec![], geo_area: None }.fill_query(&mut query);
    assert!(query.is_empty());
    EndpointRequest::Vehicles { agencies: Some(vec![]), geo_area: None }.fill_query(&mut query);
    assert!(query.is_empty());
    EndpointRequest::ArrivalEstimates {
        agencies: vec![],
        stops: vec![StopId("s1".to_string())],
        geo_area: None,
    }
    .fill_query(&mut query);
    assert_eq!(query, vec![pair("stops", "s1")]);
}

#[test]
fn fill_query_never_writes_the_geographic_filter() {
    let area = Some(Location { lat_bits: 0x420f_0000, lng_bits: 0xc29d_0000 });
    let mut with_area = Vec::new();
    EndpointRequest::Stops { agencies: vec![agency("42")], geo_area: area }.fill_query(&mut with_area);
    let mut without = Vec::new();
    EndpointRequest::Stops { agencies: vec![agency("42")], geo_area: None }.fill_query(&mut without);
    assert_eq!(with_area, without);
    assert_eq!(with_area, vec![pair("agencies", "42")]);
}

#[test]
fn fill_query_keeps_what_was_there() {
    let mut query = vec![pair("a", "1"), pair("b", "2")];
    EndpointRequest::Stops { agencies: vec![agency("42")], geo_area: None }.fill_query(&mut query);
    assert_eq!(query, vec![pair("a", "1"), pair("b", "2"), pair("agencies", "42")]);
}

#[test]
fn query_starts_with_the_format() {
    let query = EndpointRequest::Agencies { agencies: None, geo_area: None }.query();
    assert_eq!(query, vec![pair("format", "json")]);
    let query = EndpointRequest::Routes { agencies: vec![agency("42")], geo_area: None }.query();
    assert_eq!(query, vec![pair("format", "json"), pair("agencies", "42")]);
}
