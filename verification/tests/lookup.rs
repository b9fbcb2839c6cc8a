use ip_lookup::lookup::{Lookup, LookupStep};
use ip_lookup::provider::{
    Failure, IpApiResponse, IpInfoResponse, IpifyResponse, MyIpResponse, Provider, Reply,
};
use ip_lookup::record::OutputData;
use ip_lookup::render::render_output;

/// Runs a lookup against the given replies, one per request. Returns the
/// record and, for each request, the provider and the seconds waited
/// before it.
fn run(replies: Vec<Reply>) -> (OutputData, Vec<(Provider, u64)>) {
    let mut asked = Vec::new();
    let mut replies = replies.into_iter();
    let mut lookup = Lookup::new();
    loop {
        asked.push((lookup.request().provider, lookup.delay_secs()));
        let reply = replies.next().expect("a request beyond the replies at hand");
        match lookup.step(reply) {
            LookupStep::Ask { next, .. } => lookup = next,
            LookupStep::Finished(output) => {
                assert!(replies.next().is_none(), "a reply was left unasked for");
                return (output, asked);
            }
        }
    }
}

fn fields(output: &OutputData) -> [&str; 6] {
    [
        &output.ip_address,
        &output.full.ip_address,
        &output.full.country_code,
        &output.full.city,
        &output.full.isp,
        &output.full.error,
    ]
}

fn ipify(ip: &str) -> Reply {
    Reply::Ipify(IpifyResponse { ip: ip.to_string() })
}

fn myip(ip: &str, cc: &str) -> Reply {
    Reply::MyIp(MyIpResponse { ip: ip.to_string(), cc: cc.to_string() })
}

fn failed() -> Reply {
    Reply::Failed("connection refused".to_string())
}

fn ip_api(query: &str, country_code: &str, city: &str, isp: &str) -> Reply {
    Reply::IpApi(IpApiResponse {
        status: "success".to_string(),
        message: None,
        country_code: Some(country_code.to_string()),
        city: Some(city.to_string()),
        isp: Some(isp.to_string()),
        query: Some(query.to_string()),
    })
}

#[test]
fn a_run_in_which_every_first_answer_is_usable_makes_two_requests() {
    let (output, asked) =
        run(vec![ipify("203.0.113.7"), ip_api("203.0.113.7", "FR", "Lyon", "Example Telecom")]);
    assert_eq!(
        fields(&output),
        ["203.0.113.7", "203.0.113.7", "FR", "Lyon", "Example Telecom", ""]
    );
    assert_eq!(asked, vec![(Provider::Ipify, 0), (Provider::IpApi, 0)]);
}

#[test]
fn the_location_is_looked_up_for_the_address_that_was_resolved() {
    let mut lookup = Lookup::new();
    lookup = match lookup.step(ipify("198.51.100.2")) {
        LookupStep::Ask { next, failure: None } => next,
        _ => panic!("the location is still to be found"),
    };
    let request = lookup.request();
    assert_eq!(request.provider, Provider::IpApi);
    assert_eq!(
        request.url,
        "http://ip-api.com/json/198.51.100.2?fields=status,message,countryCode,city,isp,query"
    );
}

#[test]
fn without_an_address_no_location_provider_is_asked() {
    let (output, asked) = run(vec![failed(), failed(), failed(), failed()]);
    assert_eq!(fields(&output), ["N/A", "", "", "", "", "No external IP detected."]);
    assert_eq!(
        asked,
        vec![(Provider::Ipify, 0), (Provider::Ipify, 1), (Provider::Ipify, 1), (Provider::MyIp, 0)]
    );
}

#[test]
fn an_address_that_reads_as_the_sentinel_is_no_address() {
    let (output, asked) = run(vec![ipify("N/A")]);
    assert_eq!(fields(&output), ["N/A", "", "", "", "", "No external IP detected."]);
    assert_eq!(asked, vec![(Provider::Ipify, 0)]);
}

#[test]
fn an_empty_address_is_reported_but_not_looked_up() {
    let (output, asked) = run(vec![ipify("")]);
    assert_eq!(
        fields(&output),
        ["", "", "", "", "", "Cannot get full location data for 'N/A' or empty IP address."]
    );
    assert_eq!(asked, vec![(Provider::Ipify, 0)]);
}

#[test]
fn the_longest_run_makes_eight_requests() {
    let (output, asked) = run(vec![
        failed(),
        failed(),
        failed(),
        myip("192.0.2.44", "NL"),
        failed(),
        failed(),
        failed(),
        failed(),
    ]);
    assert_eq!(
        fields(&output),
        ["192.0.2.44", "", "", "", "", "All IP data services are unavailable."]
    );
    assert_eq!(
        asked,
        vec![
            (Provider::Ipify, 0),
            (Provider::Ipify, 1),
            (Provider::Ipify, 1),
            (Provider::MyIp, 0),
            (Provider::IpApi, 0),
            (Provider::IpApi, 1),
            (Provider::IpInfo, 0),
            (Provider::MyIp, 0),
        ]
    );
}

#[test]
fn the_address_reported_is_the_one_resolved_not_the_one_a_location_provider_echoes() {
    let echo = Reply::IpInfo(IpInfoResponse {
        ip: Some("10.0.0.1".to_string()),
        country: Some("US".to_string()),
        city: None,
        org: None,
    });
    let (output, asked) = run(vec![ipify("198.51.100.2"), failed(), failed(), echo]);
    assert_eq!(fields(&output), ["198.51.100.2", "10.0.0.1", "US", "", "", ""]);
    assert_eq!(asked.len(), 4);
}

#[test]
fn a_known_address_can_be_located_directly() {
    match Lookup::locate("N/A".to_string()) {
        LookupStep::Finished(output) => {
            assert_eq!(fields(&output), ["N/A", "", "", "", "", "No external IP detected."]);
        }
        LookupStep::Ask { .. } => panic!("there is nothing to look up"),
    }
    match Lookup::locate("192.0.2.1".to_string()) {
        LookupStep::Ask { next, failure: None } => {
            assert_eq!(next.request().provider, Provider::IpApi);
            assert_eq!(next.delay_secs(), 0);
            assert_eq!(next.attempt(), (1, 2));
        }
        _ => panic!("the location is still to be found"),
    }
}

#[test]
fn a_failure_goes_with_the_request_that_follows_it() {
    let lookup = Lookup::new();
    assert_eq!(lookup.attempt(), (1, 3));
    let lookup = match lookup.step(failed()) {
        LookupStep::Ask { next, failure: Some(Failure::Unavailable(detail)) } => {
            assert_eq!(detail, "connection refused");
            next
        }
        _ => panic!("the primary provider is asked again"),
    };
    assert_eq!(lookup.attempt(), (2, 3));
    assert_eq!(lookup.delay_secs(), 1);
    let lookup = match lookup.step(ipify("192.0.2.9")) {
        LookupStep::Ask { next, failure: None } => next,
        _ => panic!("the location is asked for next"),
    };
    let rejected = Reply::IpApi(IpApiResponse {
        status: "fail".to_string(),
        message: Some("reserved range".to_string()),
        country_code: None,
        city: None,
        isp: None,
        query: Some("192.0.2.9".to_string()),
    });
    match lookup.step(rejected) {
        LookupStep::Ask { next, failure: Some(Failure::Rejected(status)) } => {
            assert_eq!(status, "fail");
            assert_eq!(next.attempt(), (2, 2));
        }
        _ => panic!("the primary provider is asked again"),
    }
}

#[test]
fn a_whole_run_is_emitted_as_one_json_object() {
    let alternate = Reply::IpInfo(IpInfoResponse {
        ip: Some("203.0.113.7".to_string()),
        country: Some("FR".to_string()),
        city: Some("Lyon".to_string()),
        org: Some("AS64500 Example Telecom".to_string()),
    });
    let (output, asked) = run(vec![failed(), ipify("203.0.113.7"), failed(), failed(), alternate]);
    assert_eq!(asked.len(), 5);
    assert_eq!(
        render_output(&output),
        "{\"ip\":\"203.0.113.7\",\"full_data\":{\"ip\":\"203.0.113.7\",\
         \"country_code\":\"FR\",\"city\":\"Lyon\",\"isp\":\"AS64500 Example Telecom\"}}"
    );
}

#[test]
fn a_run_that_finds_nothing_is_emitted_with_the_reason() {
    let (output, _) = run(vec![failed(), failed(), failed(), failed()]);
    assert_eq!(
        render_output(&output),
        "{\"ip\":\"N/A\",\"full_data\":{\"ip\":\"\",\"country_code\":\"\",\"city\":\"\",\
         \"isp\":\"\",\"error\":\"No external IP detected.\"}}"
    );
    let (output, _) = run(vec![
        ipify("192.0.2.44"),
        failed(),
        failed(),
        failed(),
        failed(),
    ]);
    assert_eq!(
        render_output(&output),
        "{\"ip\":\"192.0.2.44\",\"full_data\":{\"ip\":\"\",\"country_code\":\"\",\
         \"city\":\"\",\"isp\":\"\",\"error\":\"All IP data services are unavailable.\"}}"
    );
}
