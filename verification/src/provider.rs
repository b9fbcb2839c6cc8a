//! The providers, what is asked of them and how their answers are read.
//!
//! Each provider has a response shape of its own. A shape is mapped into the
//! shared record by one function here, so that the resolvers deal with
//! usable answers and failures only.

use crate::record::{FullLocationData, LocationRecord, SENTINEL};
use vstd::prelude::*;

verus! {

/// The status by which [`Provider::IpApi`] marks a usable result.
pub const SUCCESS: &'static str = "success";

/// Where [`Provider::Ipify`] is reached.
pub const IPIFY_URL: &'static str = "https://api.ipify.org?format=json";

/// Where [`Provider::MyIp`] is reached.
pub const MYIP_URL: &'static str = "https://api.myip.com";

/// What stands before and after the address in the URL of [`Provider::IpApi`].
pub const IP_API_URL: (&'static str, &'static str) = (
    "http://ip-api.com/json/",
    "?fields=status,message,countryCode,city,isp,query",
);

/// What stands before and after the address in the URL of [`Provider::IpInfo`].
pub const IP_INFO_URL: (&'static str, &'static str) = ("https://ipinfo.io/", "/json");

/// The services that are asked.
#[derive(Clone, Copy, PartialEq, Eq, Debug, Structural)]
pub enum Provider {
    /// Primary source of the public address.
    Ipify,
    /// Second source of the public address, and last source of a location.
    MyIp,
    /// Primary source of a location.
    IpApi,
    /// Second source of a location.
    IpInfo,
}

/// The field's text, or the empty text where the field is absent.
pub open spec fn or_empty(field: Option<Seq<char>>) -> Seq<char> {
    match field {
        Some(text) => text,
        None => Seq::empty(),
    }
}

/// Why a provider gave no usable answer.
#[derive(Debug)]
pub enum Failure {
    /// The call did not complete, or its body did not decode.
    Unavailable(String),
    /// The body decoded to the shape of another provider.
    Unexpected,
    /// The provider answered, with the status held here, that it has no result.
    Rejected(String),
}

/// Mathematical content of a [`Failure`].
pub ghost enum FailureView {
    Unavailable(Seq<char>),
    Unexpected,
    Rejected(Seq<char>),
}

impl View for Failure {
    type V = FailureView;

    open spec fn view(&self) -> FailureView {
        match self {
            Failure::Unavailable(detail) => FailureView::Unavailable(detail@),
            Failure::Unexpected => FailureView::Unexpected,
            Failure::Rejected(status) => FailureView::Rejected(status@),
        }
    }
}

/// Answer of [`Provider::Ipify`]: `{ ip }`.
#[derive(Debug)]
pub struct IpifyResponse {
    pub ip: String,
}

/// Mathematical content of an [`IpifyResponse`].
pub ghost struct IpifyView {
    pub ip: Seq<char>,
}

impl View for IpifyResponse {
    type V = IpifyView;

    open spec fn view(&self) -> IpifyView {
        IpifyView { ip: self.ip@ }
    }
}

/// Answer of [`Provider::MyIp`]: `{ ip, cc }`.
#[derive(Debug)]
pub struct MyIpResponse {
    pub ip: String,
    pub cc: String,
}

/// Mathematical content of a [`MyIpResponse`].
pub ghost struct MyIpView {
    pub ip: Seq<char>,
    pub cc: Seq<char>,
}

impl MyIpView {
    /// This provider knows the address and a country code only; city and
    /// network provider are reported as not available.
    pub open spec fn location(self) -> LocationRecord {
        LocationRecord::found(self.ip, self.cc, SENTINEL@, SENTINEL@)
    }
}

impl View for MyIpResponse {
    type V = MyIpView;

    open spec fn view(&self) -> MyIpView {
        MyIpView { ip: self.ip@, cc: self.cc@ }
    }
}

impl MyIpResponse {
    /// The record that this answer amounts to.
    pub fn into_location(self) -> (record: FullLocationData)
        ensures
            record@ == self@.location(),
    {
        FullLocationData::found(
            self.ip,
            self.cc,
            String::from_str(SENTINEL),
            String::from_str(SENTINEL),
        )
    }
}

/// Answer of [`Provider::IpApi`]:
/// `{ status, message?, countryCode?, city?, isp?, query? }`.
#[derive(Debug)]
pub struct IpApiResponse {
    pub status: String,
    pub message: Option<String>,
    pub country_code: Option<String>,
    pub city: Option<String>,
    pub isp: Option<String>,
    pub query: Option<String>,
}

/// Mathematical content of an [`IpApiResponse`].
pub ghost struct IpApiView {
    pub status: Seq<char>,
    pub message: Option<Seq<char>>,
    pub country_code: Option<Seq<char>>,
    pub city: Option<Seq<char>>,
    pub isp: Option<Seq<char>>,
    pub query: Option<Seq<char>>,
}

impl IpApiView {
    /// The provider marks a usable result by this status and no other.
    pub open spec fn succeeded(self) -> bool {
        self.status == SUCCESS@
    }

    /// A usable result gives the record, with absent fields left empty; any
    /// other status is a failure that carries the status.
    pub open spec fn location(self) -> Result<LocationRecord, FailureView> {
        if self.succeeded() {
            Ok(
                LocationRecord::found(
                    or_empty(self.query),
                    or_empty(self.country_code),
                    or_empty(self.city),
                    or_empty(self.isp),
                ),
            )
        } else {
            Err(FailureView::Rejected(self.status))
        }
    }
}

impl View for IpApiResponse {
    type V = IpApiView;

    open spec fn view(&self) -> IpApiView {
        IpApiView {
            status: self.status@,
            message: self.message.deep_view(),
            country_code: self.country_code.deep_view(),
            city: self.city.deep_view(),
            isp: self.isp.deep_view(),
            query: self.query.deep_view(),
        }
    }
}

impl IpApiResponse {
    /// The record that this answer amounts to, or the failure that it reports.
    pub fn into_location(self) -> (outcome: Result<FullLocationData, Failure>)
        ensures
            location_outcome(outcome) == self@.location(),
    {
        let success = String::from_str(SUCCESS);
        if self.status == success {
            Ok(
                FullLocationData::found(
                    self.query.unwrap_or_default(),
                    self.country_code.unwrap_or_default(),
                    self.city.unwrap_or_default(),
                    self.isp.unwrap_or_default(),
                ),
            )
        } else {
            Err(Failure::Rejected(self.status))
        }
    }
}

/// Answer of [`Provider::IpInfo`]: `{ ip?, country?, city?, org? }`.
#[derive(Debug)]
pub struct IpInfoResponse {
    pub ip: Option<String>,
    pub country: Option<String>,
    pub city: Option<String>,
    pub org: Option<String>,
}

/// Mathematical content of an [`IpInfoResponse`].
pub ghost struct IpInfoView {
    pub ip: Option<Seq<char>>,
    pub country: Option<Seq<char>>,
    pub city: Option<Seq<char>>,
    pub org: Option<Seq<char>>,
}

impl IpInfoView {
    /// Every answer of this shape is usable; absent fields are left empty.
    pub open spec fn location(self) -> LocationRecord {
        LocationRecord::found(
            or_empty(self.ip),
            or_empty(self.country),
            or_empty(self.city),
            or_empty(self.org),
        )
    }
}

impl View for IpInfoResponse {
    type V = IpInfoView;

    open spec fn view(&self) -> IpInfoView {
        IpInfoView {
            ip: self.ip.deep_view(),
            country: self.country.deep_view(),
            city: self.city.deep_view(),
            org: self.org.deep_view(),
        }
    }
}

impl IpInfoResponse {
    /// The record that this answer amounts to.
    pub fn into_location(self) -> (record: FullLocationData)
        ensures
            record@ == self@.location(),
    {
        FullLocationData::found(
            self.ip.unwrap_or_default(),
            self.country.unwrap_or_default(),
            self.city.unwrap_or_default(),
            self.org.unwrap_or_default(),
        )
    }
}

/// What came back for one request.
#[derive(Debug)]
pub enum Reply {
    /// The call did not complete, or its body did not decode; the text says why.
    Failed(String),
    Ipify(IpifyResponse),
    MyIp(MyIpResponse),
    IpApi(IpApiResponse),
    IpInfo(IpInfoResponse),
}

/// Mathematical content of a [`Reply`].
pub ghost enum ReplyView {
    Failed(Seq<char>),
    Ipify(IpifyView),
    MyIp(MyIpView),
    IpApi(IpApiView),
    IpInfo(IpInfoView),
}

impl ReplyView {
    /// The caller's address according to the reply that `provider` gave. Only
    /// the two address providers, each in its own shape, give one.
    pub open spec fn address(self, provider: Provider) -> Result<Seq<char>, FailureView> {
        match (provider, self) {
            (_, ReplyView::Failed(detail)) => Err(FailureView::Unavailable(detail)),
            (Provider::Ipify, ReplyView::Ipify(answer)) => Ok(answer.ip),
            (Provider::MyIp, ReplyView::MyIp(answer)) => Ok(answer.ip),
            _ => Err(FailureView::Unexpected),
        }
    }

    /// The location according to the reply that `provider` gave. Only the
    /// three location providers, each in its own shape, give one.
    pub open spec fn location(self, provider: Provider) -> Result<LocationRecord, FailureView> {
        match (provider, self) {
            (_, ReplyView::Failed(detail)) => Err(FailureView::Unavailable(detail)),
            (Provider::IpApi, ReplyView::IpApi(answer)) => answer.location(),
            (Provider::IpInfo, ReplyView::IpInfo(answer)) => Ok(answer.location()),
            (Provider::MyIp, ReplyView::MyIp(answer)) => Ok(answer.location()),
            _ => Err(FailureView::Unexpected),
        }
    }
}

impl View for Reply {
    type V = ReplyView;

    open spec fn view(&self) -> ReplyView {
        match self {
            Reply::Failed(detail) => ReplyView::Failed(detail@),
            Reply::Ipify(answer) => ReplyView::Ipify(answer@),
            Reply::MyIp(answer) => ReplyView::MyIp(answer@),
            Reply::IpApi(answer) => ReplyView::IpApi(answer@),
            Reply::IpInfo(answer) => ReplyView::IpInfo(answer@),
        }
    }
}

/// Mathematical content of an address or of the failure to get one.
pub open spec fn address_outcome(outcome: Result<String, Failure>) -> Result<
    Seq<char>,
    FailureView,
> {
    match outcome {
        Ok(address) => Ok(address@),
        Err(failure) => Err(failure@),
    }
}

/// Mathematical content of a location or of the failure to get one.
pub open spec fn location_outcome(outcome: Result<FullLocationData, Failure>) -> Result<
    LocationRecord,
    FailureView,
> {
    match outcome {
        Ok(record) => Ok(record@),
        Err(failure) => Err(failure@),
    }
}

impl Reply {
    /// Reads the reply of `provider` as an answer to "what is my address".
    pub fn into_address(self, provider: Provider) -> (outcome: Result<String, Failure>)
        ensures
            address_outcome(outcome) == self@.address(provider),
    {
        match self {
            Reply::Failed(detail) => Err(Failure::Unavailable(detail)),
            Reply::Ipify(answer) => match provider {
                Provider::Ipify => Ok(answer.ip),
                _ => Err(Failure::Unexpected),
            },
            Reply::MyIp(answer) => match provider {
                Provider::MyIp => Ok(answer.ip),
                _ => Err(Failure::Unexpected),
            },
            _ => Err(Failure::Unexpected),
        }
    }

    /// Reads the reply of `provider` as an answer to "where is this address".
    pub fn into_location(self, provider: Provider) -> (outcome: Result<FullLocationData, Failure>)
        ensures
            location_outcome(outcome) == self@.location(provider),
    {
        match self {
            Reply::Failed(detail) => Err(Failure::Unavailable(detail)),
            Reply::IpApi(answer) => match provider {
                Provider::IpApi => answer.into_location(),
                _ => Err(Failure::Unexpected),
            },
            Reply::IpInfo(answer) => match provider {
                Provider::IpInfo => Ok(answer.into_location()),
                _ => Err(Failure::Unexpected),
            },
            Reply::MyIp(answer) => match provider {
                Provider::MyIp => Ok(answer.into_location()),
                _ => Err(Failure::Unexpected),
            },
            _ => Err(Failure::Unexpected),
        }
    }
}

/// Where each provider is reached. The two location providers take the
/// address inside the path, as it stands.
pub open spec fn url_of(provider: Provider, address: Seq<char>) -> Seq<char> {
    match provider {
        Provider::Ipify => IPIFY_URL@,
        Provider::MyIp => MYIP_URL@,
        Provider::IpApi => IP_API_URL.0@ + address + IP_API_URL.1@,
        Provider::IpInfo => IP_INFO_URL.0@ + address + IP_INFO_URL.1@,
    }
}

/// One GET request.
#[derive(Debug)]
pub struct Request {
    pub provider: Provider,
    pub url: String,
}

/// Mathematical content of a [`Request`].
pub ghost struct RequestView {
    pub provider: Provider,
    pub url: Seq<char>,
}

impl RequestView {
    /// The request that asks `provider`, about `address` where it is a
    /// location provider.
    pub open spec fn to(provider: Provider, address: Seq<char>) -> RequestView {
        RequestView { provider, url: url_of(provider, address) }
    }
}

/// One request as it is made: what is asked, and after how long a wait.
pub ghost struct Asked {
    pub request: RequestView,
    pub delay_secs: nat,
}

impl View for Request {
    type V = RequestView;

    open spec fn view(&self) -> RequestView {
        RequestView { provider: self.provider, url: self.url@ }
    }
}

impl Request {
    /// The request that asks `provider`, about `address` where it is a
    /// location provider. The address providers take no argument.
    pub fn to(provider: Provider, address: &str) -> (request: Request)
        ensures
            request@ == RequestView::to(provider, address@),
    {
        let url = match provider {
            Provider::Ipify => String::from_str(IPIFY_URL),
            Provider::MyIp => String::from_str(MYIP_URL),
            Provider::IpApi => String::from_str(IP_API_URL.0).concat(address).concat(IP_API_URL.1),
            Provider::IpInfo => String::from_str(IP_INFO_URL.0).concat(address).concat(
                IP_INFO_URL.1,
            ),
        };
        Request { provider, url }
    }
}

} // verus!
