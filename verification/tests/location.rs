use ip_lookup::location::{
    LocationResolver, LocationStep, LOCATION_ATTEMPTS, NO_LOOKUP_REASON, UNAVAILABLE_REASON,
};
use ip_lookup::provider::{
    Failure, IpApiResponse, IpInfoResponse, IpifyResponse, MyIpResponse, Provider, Reply, Request,
};
use ip_lookup::record::FullLocationData;

const NO_LOOKUP: &str = "Cannot get full location data for 'N/A' or empty IP address.";
const UNAVAILABLE: &str = "All IP data services are unavailable.";

/// Resolves the location of `address` against the given replies, one per
/// request. Returns the record and, for each request, the provider, the URL
/// and the seconds waited before it.
fn resolve(address: &str, replies: Vec<Reply>) -> (FullLocationData, Vec<(Provider, String, u64)>) {
    let mut asked = Vec::new();
    let mut replies = replies.into_iter();
    let mut resolver = match LocationResolver::start(address) {
        Ok(resolver) => resolver,
        Err(record) => {
            assert!(replies.next().is_none(), "a reply was left unasked for");
            return (record, asked);
        }
    };
    loop {
        assert_eq!(resolver.address(), address);
        let request = resolver.request();
        asked.push((request.provider, request.url, resolver.delay_secs()));
        let reply = replies.next().expect("a request beyond the replies at hand");
        match resolver.step(reply) {
            LocationStep::Ask { next, .. } => resolver = next,
            LocationStep::Resolved(record) => {
                assert!(replies.next().is_none(), "a reply was left unasked for");
                return (record, asked);
            }
        }
    }
}

fn fields(record: &FullLocationData) -> [&str; 5] {
    [&record.ip_address, &record.country_code, &record.city, &record.isp, &record.error]
}

fn text(value: &str) -> Option<String> {
    Some(value.to_string())
}

fn ip_api(status: &str, query: &str, country_code: &str, city: &str, isp: &str) -> Reply {
    Reply::IpApi(IpApiResponse {
        status: status.to_string(),
        message: None,
        country_code: text(country_code),
        city: text(city),
        isp: text(isp),
        query: text(query),
    })
}

fn rejected(status: &str, message: &str) -> Reply {
    Reply::IpApi(IpApiResponse {
        status: status.to_string(),
        message: text(message),
        country_code: None,
        city: None,
        isp: None,
        query: None,
    })
}

fn ip_info(ip: &str, country: &str, city: &str, org: &str) -> Reply {
    Reply::IpInfo(IpInfoResponse {
        ip: text(ip),
        country: text(country),
        city: text(city),
        org: text(org),
    })
}

fn myip(ip: &str, cc: &str) -> Reply {
    Reply::MyIp(MyIpResponse { ip: ip.to_string(), cc: cc.to_string() })
}

fn failed(detail: &str) -> Reply {
    Reply::Failed(detail.to_string())
}

fn ip_api_url(address: &str) -> String {
    format!("http://ip-api.com/json/{}?fields=status,message,countryCode,city,isp,query", address)
}

fn ip_info_url(address: &str) -> String {
    format!("https://ipinfo.io/{}/json", address)
}

#[test]
fn the_primary_provider_is_given_two_attempts() {
    assert_eq!(LOCATION_ATTEMPTS, 2);
}

#[test]
fn the_reasons_read_as_documented() {
    assert_eq!(NO_LOOKUP_REASON, NO_LOOKUP);
    assert_eq!(UNAVAILABLE_REASON, UNAVAILABLE);
    assert_eq!(ip_lookup::lookup::NO_ADDRESS_REASON, "No external IP detected.");
    assert_eq!(ip_lookup::record::SENTINEL, "N/A");
    assert_eq!(ip_lookup::provider::SUCCESS, "success");
}

#[test]
fn the_sentinel_is_not_looked_up() {
    let (record, asked) = resolve("N/A", vec![]);
    assert_eq!(fields(&record), ["", "", "", "", NO_LOOKUP]);
    assert!(record.is_failure());
    assert!(asked.is_empty());
}

#[test]
fn the_empty_address_is_not_looked_up() {
    let (record, asked) = resolve("", vec![]);
    assert_eq!(fields(&record), ["", "", "", "", NO_LOOKUP]);
    assert!(record.is_failure());
    assert!(asked.is_empty());
}

#[test]
fn the_primary_answer_is_mapped_field_by_field() {
    let (record, asked) = resolve(
        "203.0.113.7",
        vec![ip_api("success", "203.0.113.7", "FR", "Lyon", "Example Telecom")],
    );
    assert_eq!(fields(&record), ["203.0.113.7", "FR", "Lyon", "Example Telecom", ""]);
    assert!(!record.is_failure());
    assert_eq!(asked, vec![(Provider::IpApi, ip_api_url("203.0.113.7"), 0)]);
}

#[test]
fn fields_that_the_primary_answer_lacks_are_left_empty() {
    let reply = Reply::IpApi(IpApiResponse {
        status: "success".to_string(),
        message: None,
        country_code: text("JP"),
        city: None,
        isp: None,
        query: None,
    });
    let (record, _) = resolve("203.0.113.7", vec![reply]);
    assert_eq!(fields(&record), ["", "JP", "", "", ""]);
}

#[test]
fn a_status_other_than_success_is_a_failure_of_the_attempt() {
    let (record, asked) = resolve(
        "203.0.113.7",
        vec![
            rejected("fail", "private range"),
            ip_api("success", "203.0.113.7", "FR", "Lyon", "Example Telecom"),
        ],
    );
    assert_eq!(fields(&record), ["203.0.113.7", "FR", "Lyon", "Example Telecom", ""]);
    assert_eq!(
        asked,
        vec![
            (Provider::IpApi, ip_api_url("203.0.113.7"), 0),
            (Provider::IpApi, ip_api_url("203.0.113.7"), 1),
        ]
    );
}

#[test]
fn the_status_is_compared_letter_by_letter() {
    let (record, asked) = resolve(
        "203.0.113.7",
        vec![
            ip_api("Success", "1.1.1.1", "AA", "a", "a"),
            ip_api("success ", "2.2.2.2", "BB", "b", "b"),
            ip_info("203.0.113.7", "FR", "Lyon", "AS64500 Example"),
        ],
    );
    assert_eq!(fields(&record), ["203.0.113.7", "FR", "Lyon", "AS64500 Example", ""]);
    assert_eq!(asked.len(), 3);
}

#[test]
fn the_alternate_answer_is_used_once_the_primary_is_given_up() {
    let (record, asked) = resolve(
        "198.51.100.2",
        vec![
            rejected("fail", "quota"),
            rejected("fail", "quota"),
            ip_info("198.51.100.2", "US", "Boston", "AS64501 Example Net"),
        ],
    );
    assert_eq!(fields(&record), ["198.51.100.2", "US", "Boston", "AS64501 Example Net", ""]);
    assert_eq!(
        asked,
        vec![
            (Provider::IpApi, ip_api_url("198.51.100.2"), 0),
            (Provider::IpApi, ip_api_url("198.51.100.2"), 1),
            (Provider::IpInfo, ip_info_url("198.51.100.2"), 0),
        ]
    );
}

#[test]
fn fields_that_the_alternate_answer_lacks_are_left_empty() {
    let empty = Reply::IpInfo(IpInfoResponse { ip: None, country: None, city: None, org: None });
    let (record, asked) = resolve("198.51.100.2", vec![failed("a"), failed("b"), empty]);
    assert_eq!(fields(&record), ["", "", "", "", ""]);
    assert!(!record.is_failure());
    assert_eq!(asked.len(), 3);
}

#[test]
fn the_last_provider_knows_no_city_and_no_network_provider() {
    let (record, asked) = resolve(
        "192.0.2.44",
        vec![failed("a"), failed("b"), failed("c"), myip("192.0.2.44", "NL")],
    );
    assert_eq!(fields(&record), ["192.0.2.44", "NL", "N/A", "N/A", ""]);
    assert_eq!(
        asked,
        vec![
            (Provider::IpApi, ip_api_url("192.0.2.44"), 0),
            (Provider::IpApi, ip_api_url("192.0.2.44"), 1),
            (Provider::IpInfo, ip_info_url("192.0.2.44"), 0),
            (Provider::MyIp, "https://api.myip.com".to_string(), 0),
        ]
    );
}

#[test]
fn a_record_with_a_reason_and_nothing_else_says_that_nobody_answered() {
    let (record, asked) = resolve(
        "192.0.2.44",
        vec![failed("a"), rejected("fail", "invalid query"), failed("c"), failed("d")],
    );
    assert_eq!(fields(&record), ["", "", "", "", UNAVAILABLE]);
    assert!(record.is_failure());
    assert_eq!(asked.len(), 4);
}

#[test]
fn an_answer_in_the_shape_of_another_provider_gives_no_location() {
    let (record, asked) = resolve(
        "192.0.2.44",
        vec![
            ip_info("192.0.2.44", "NL", "Delft", "x"),
            myip("192.0.2.44", "NL"),
            ip_api("success", "192.0.2.44", "NL", "Delft", "x"),
            Reply::Ipify(IpifyResponse { ip: "192.0.2.44".to_string() }),
        ],
    );
    assert_eq!(fields(&record), ["", "", "", "", UNAVAILABLE]);
    assert_eq!(asked.len(), 4);
}

#[test]
fn the_address_stands_in_the_url_as_it_is() {
    let request = Request::to(Provider::IpInfo, "2001:db8::1");
    assert_eq!(request.provider, Provider::IpInfo);
    assert_eq!(request.url, "https://ipinfo.io/2001:db8::1/json");
    let request = Request::to(Provider::IpApi, "a b");
    assert_eq!(
        request.url,
        "http://ip-api.com/json/a b?fields=status,message,countryCode,city,isp,query"
    );
    assert_eq!(Request::to(Provider::Ipify, "unused").url, "https://api.ipify.org?format=json");
    assert_eq!(Request::to(Provider::MyIp, "unused").url, "https://api.myip.com");
}

#[test]
fn each_way_to_fail_is_told_apart() {
    match failed("dns").into_location(Provider::IpApi) {
        Err(Failure::Unavailable(detail)) => assert_eq!(detail, "dns"),
        other => panic!("unexpected: {:?}", other),
    }
    match rejected("fail", "reserved range").into_location(Provider::IpApi) {
        Err(Failure::Rejected(status)) => assert_eq!(status, "fail"),
        other => panic!("unexpected: {:?}", other),
    }
    match myip("192.0.2.1", "NL").into_location(Provider::IpApi) {
        Err(Failure::Unexpected) => {}
        other => panic!("unexpected: {:?}", other),
    }
    match myip("192.0.2.1", "NL").into_address(Provider::Ipify) {
        Err(Failure::Unexpected) => {}
        other => panic!("unexpected: {:?}", other),
    }
    match failed("tls").into_address(Provider::MyIp) {
        Err(Failure::Unavailable(detail)) => assert_eq!(detail, "tls"),
        other => panic!("unexpected: {:?}", other),
    }
    assert_eq!(myip("192.0.2.1", "NL").into_address(Provider::MyIp).unwrap(), "192.0.2.1");
}

#[test]
fn a_record_is_a_success_or_a_failure() {
    let failure = FullLocationData::failure("no route");
    assert_eq!(fields(&failure), ["", "", "", "", "no route"]);
    assert!(failure.is_failure());
    let found = FullLocationData::found(
        "192.0.2.1".to_string(),
        "NL".to_string(),
        "Delft".to_string(),
        "Example".to_string(),
    );
    assert_eq!(fields(&found), ["192.0.2.1", "NL", "Delft", "Example", ""]);
    assert!(!found.is_failure());
    let empty = FullLocationData::default();
    assert_eq!(fields(&empty), ["", "", "", "", ""]);
    assert!(!empty.is_failure());
}

#[test]
fn a_location_request_that_follows_a_failure_comes_with_the_failure() {
    let resolver = match LocationResolver::start("192.0.2.1") {
        Ok(resolver) => resolver,
        Err(_) => panic!("the address can be looked up"),
    };
    assert_eq!(resolver.attempt(), (1, 2));
    let resolver = match resolver.step(rejected("fail", "reserved range")) {
        LocationStep::Ask { next, failure: Failure::Rejected(status) } => {
            assert_eq!(status, "fail");
            next
        }
        _ => panic!("the primary provider is asked again"),
    };
    assert_eq!(resolver.attempt(), (2, 2));
    assert_eq!(resolver.delay_secs(), 1);
    let resolver = match resolver.step(failed("timed out")) {
        LocationStep::Ask { next, failure: Failure::Unavailable(detail) } => {
            assert_eq!(detail, "timed out");
            next
        }
        _ => panic!("the alternate provider is asked"),
    };
    assert_eq!(resolver.attempt(), (1, 1));
    assert_eq!(resolver.request().provider, Provider::IpInfo);
    let resolver = match resolver.step(myip("192.0.2.1", "NL")) {
        LocationStep::Ask { next, failure: Failure::Unexpected } => next,
        _ => panic!("the last provider is asked"),
    };
    assert_eq!(resolver.attempt(), (1, 1));
    assert_eq!(resolver.request().provider, Provider::MyIp);
    assert_eq!(resolver.delay_secs(), 0);
}
