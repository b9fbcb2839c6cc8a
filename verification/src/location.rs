//! The location resolver: country, city and network provider of an address
//! from the primary provider, attempted up to twice, else from the alternate
//! provider, else from the last provider, each asked once, else a record
//! that says that nobody answered.

use crate::provider::{
    Asked, Failure, FailureView, Provider, Reply, ReplyView, Request, RequestView,
};
use crate::record::{FullLocationData, LocationRecord, SENTINEL};
use crate::retry::{Retry, RetryStep, RetryStepView, RetryView, RETRY_DELAY_SECS};
use vstd::prelude::*;

verus! {

/// Attempts that the primary location provider is given.
pub const LOCATION_ATTEMPTS: u32 = 2;

/// The reason given where there is no address to look up.
pub const NO_LOOKUP_REASON: &'static str =
    "Cannot get full location data for 'N/A' or empty IP address.";

/// The reason given where every provider has failed.
pub const UNAVAILABLE_REASON: &'static str = "All IP data services are unavailable.";

/// Whether `address` can be looked up: the sentinel and the empty address
/// cannot.
pub open spec fn can_look_up(address: Seq<char>) -> bool {
    address != SENTINEL@ && address.len() > 0
}

/// The provider that a resolution asks next.
pub ghost enum LocationStage {
    Primary(RetryView),
    Alternate,
    Last,
}

/// Mathematical content of a [`LocationResolver`]: the address that is
/// looked up and the provider that is asked next.
pub ghost struct LocationPoint {
    pub address: Seq<char>,
    pub stage: LocationStage,
}

/// Mathematical content of a [`LocationStep`].
pub ghost enum LocationStepView {
    Ask { next: LocationPoint, failure: FailureView },
    Resolved(LocationRecord),
}

/// What resolving a location came to.
pub ghost struct LocationRun {
    /// The requests that were made, in order.
    pub asked: Seq<Asked>,
    /// What was found, or why nothing was.
    pub record: LocationRecord,
}

impl LocationPoint {
    /// Before the first request.
    pub open spec fn first(address: Seq<char>) -> LocationPoint {
        LocationPoint {
            address,
            stage: LocationStage::Primary(RetryView::fresh(LOCATION_ATTEMPTS as nat)),
        }
    }

    /// The beginning of a resolution: the point before the first request,
    /// or, for an address that cannot be looked up, the record that says so.
    pub open spec fn start(address: Seq<char>) -> Result<LocationPoint, LocationRecord> {
        if can_look_up(address) {
            Ok(LocationPoint::first(address))
        } else {
            Err(LocationRecord::failure(NO_LOOKUP_REASON@))
        }
    }

    /// The provider that is asked next.
    pub open spec fn provider(self) -> Provider {
        match self.stage {
            LocationStage::Primary(_) => Provider::IpApi,
            LocationStage::Alternate => Provider::IpInfo,
            LocationStage::Last => Provider::MyIp,
        }
    }

    /// The request that is due, and the wait before it.
    pub open spec fn ask(self) -> Asked {
        Asked {
            request: RequestView::to(self.provider(), self.address),
            delay_secs: match self.stage {
                LocationStage::Primary(retry) => retry.delay_secs(),
                _ => 0,
            },
        }
    }

    /// The number of the attempt that is due at the provider asked next,
    /// counted from 1, and the attempts that this provider is given.
    pub open spec fn attempt(self) -> (nat, nat) {
        match self.stage {
            LocationStage::Primary(retry) => (retry.failed + 1, retry.max_attempts),
            _ => (1, 1),
        }
    }

    /// The same resolution at another stage.
    pub open spec fn at(self, stage: LocationStage) -> LocationPoint {
        LocationPoint { address: self.address, stage }
    }

    /// The decision after the request that was due got `reply`. The first
    /// usable answer is the result. The primary provider is retried; once it
    /// is given up the alternate is asked, after it the last provider, and
    /// after that one nobody. Where another request follows, the failure of
    /// the last one goes with it.
    pub open spec fn step(self, reply: ReplyView) -> LocationStepView {
        match self.stage {
            LocationStage::Primary(retry) => match retry.settle(reply.location(Provider::IpApi)) {
                RetryStepView::Finished(Ok(record)) => LocationStepView::Resolved(record),
                RetryStepView::Finished(Err(failure)) => LocationStepView::Ask {
                    next: self.at(LocationStage::Alternate),
                    failure,
                },
                RetryStepView::Again { next, failure } => LocationStepView::Ask {
                    next: self.at(LocationStage::Primary(next)),
                    failure,
                },
            },
            LocationStage::Alternate => match reply.location(Provider::IpInfo) {
                Ok(record) => LocationStepView::Resolved(record),
                Err(failure) => LocationStepView::Ask {
                    next: self.at(LocationStage::Last),
                    failure,
                },
            },
            LocationStage::Last => match reply.location(Provider::MyIp) {
                Ok(record) => LocationStepView::Resolved(record),
                Err(_) => LocationStepView::Resolved(
                    LocationRecord::failure(UNAVAILABLE_REASON@),
                ),
            },
        }
    }

    /// A bound on the requests that follow the one that is due.
    pub open spec fn requests_left(self) -> nat {
        match self.stage {
            LocationStage::Primary(retry) => if retry.failed < retry.max_attempts {
                (retry.max_attempts - retry.failed + 1) as nat
            } else {
                2
            },
            LocationStage::Alternate => 1,
            LocationStage::Last => 0,
        }
    }

    /// The resolution from here on, where `replies(i)` is what request
    /// number `i` of the whole run, counted from 0, gets, and `next` is the
    /// number of the request that is due.
    pub open spec fn run(self, replies: spec_fn(nat) -> ReplyView, next: nat) -> LocationRun
        decreases self.requests_left(),
    {
        match self.step(replies(next)) {
            LocationStepView::Resolved(record) => LocationRun { asked: seq![self.ask()], record },
            LocationStepView::Ask { next: point, .. } => {
                let rest = point.run(replies, next + 1);
                LocationRun { asked: seq![self.ask()] + rest.asked, record: rest.record }
            },
        }
    }
}

/// The requests of a resolution for `address` in which every provider fails.
pub open spec fn location_plan(address: Seq<char>) -> Seq<Asked> {
    seq![
        Asked { request: RequestView::to(Provider::IpApi, address), delay_secs: 0 },
        Asked {
            request: RequestView::to(Provider::IpApi, address),
            delay_secs: RETRY_DELAY_SECS as nat,
        },
        Asked { request: RequestView::to(Provider::IpInfo, address), delay_secs: 0 },
        Asked { request: RequestView::to(Provider::MyIp, address), delay_secs: 0 },
    ]
}

/// What resolving the location of `address` comes to when request number
/// `i` of the whole run, counted from 0, gets `replies(i)` and the
/// resolution begins with request number `next`.
pub open spec fn resolve_location(
    address: Seq<char>,
    replies: spec_fn(nat) -> ReplyView,
    next: nat,
) -> LocationRun {
    match LocationPoint::start(address) {
        Ok(point) => point.run(replies, next),
        Err(record) => LocationRun { asked: Seq::empty(), record },
    }
}

#[derive(Debug)]
enum Stage {
    Primary(Retry),
    Alternate,
    Last,
}

/// Where the resolution of a location stands.
#[derive(Debug)]
pub struct LocationResolver {
    address: String,
    stage: Stage,
}

/// What follows a reply.
#[derive(Debug)]
pub enum LocationStep {
    /// The request gave no location, for the reason in `failure`. Make the
    /// request of `next`, and hand it the reply.
    Ask { next: LocationResolver, failure: Failure },
    /// The resolution is over.
    Resolved(FullLocationData),
}

impl View for LocationResolver {
    type V = LocationPoint;

    closed spec fn view(&self) -> LocationPoint {
        LocationPoint {
            address: self.address@,
            stage: match self.stage {
                Stage::Primary(retry) => LocationStage::Primary(retry@),
                Stage::Alternate => LocationStage::Alternate,
                Stage::Last => LocationStage::Last,
            },
        }
    }
}

impl View for LocationStep {
    type V = LocationStepView;

    open spec fn view(&self) -> LocationStepView {
        match self {
            LocationStep::Ask { next, failure } => LocationStepView::Ask {
                next: next@,
                failure: failure@,
            },
            LocationStep::Resolved(record) => LocationStepView::Resolved(record@),
        }
    }
}

impl LocationResolver {
    /// Begins to resolve the location of `address`. For `"N/A"` and for the
    /// empty address the resolution is over before anybody is asked, and the
    /// record that says so comes back as the error.
    pub fn start(address: &str) -> (begun: Result<LocationResolver, FullLocationData>)
        ensures
            match begun {
                Ok(resolver) => can_look_up(address@) && resolver@ == LocationPoint::first(
                    address@,
                ),
                Err(record) => !can_look_up(address@) && record@ == LocationRecord::failure(
                    NO_LOOKUP_REASON@,
                ),
            },
    {
        let address = String::from_str(address);
        let sentinel = String::from_str(SENTINEL);
        if address == sentinel || address.as_str().is_empty() {
            Err(FullLocationData::failure(NO_LOOKUP_REASON))
        } else {
            Ok(LocationResolver { address, stage: Stage::Primary(Retry::new(LOCATION_ATTEMPTS)) })
        }
    }

    /// The address that is looked up.
    pub fn address(&self) -> (address: &str)
        ensures
            address@ == self@.address,
    {
        self.address.as_str()
    }

    /// The request that is due.
    pub fn request(&self) -> (request: Request)
        ensures
            request@ == self@.ask().request,
    {
        let provider = match &self.stage {
            Stage::Primary(_) => Provider::IpApi,
            Stage::Alternate => Provider::IpInfo,
            Stage::Last => Provider::MyIp,
        };
        Request::to(provider, self.address.as_str())
    }

    /// Seconds to wait before the request that is due is made.
    pub fn delay_secs(&self) -> (secs: u64)
        ensures
            secs == self@.ask().delay_secs,
    {
        match &self.stage {
            Stage::Primary(retry) => retry.delay_secs(),
            _ => 0,
        }
    }

    /// The number of the attempt that is due at the provider asked next,
    /// counted from 1, and the attempts that this provider is given.
    pub fn attempt(&self) -> (attempt: (u32, u32))
        ensures
            attempt.0 == self@.attempt().0,
            attempt.1 == self@.attempt().1,
    {
        match &self.stage {
            Stage::Primary(retry) => (retry.attempt(), retry.max_attempts()),
            _ => (1, 1),
        }
    }

    /// Takes the reply to the request that was due and says what follows.
    pub fn step(self, reply: Reply) -> (step: LocationStep)
        ensures
            step@ == self@.step(reply@),
    {
        let address = self.address;
        match self.stage {
            Stage::Primary(retry) => {
                match retry.settle(reply.into_location(Provider::IpApi)) {
                    RetryStep::Finished(Ok(record)) => LocationStep::Resolved(record),
                    RetryStep::Finished(Err(failure)) => LocationStep::Ask {
                        next: LocationResolver { address, stage: Stage::Alternate },
                        failure,
                    },
                    RetryStep::Again { next, failure } => LocationStep::Ask {
                        next: LocationResolver { address, stage: Stage::Primary(next) },
                        failure,
                    },
                }
            },
            Stage::Alternate => match reply.into_location(Provider::IpInfo) {
                Ok(record) => LocationStep::Resolved(record),
                Err(failure) => LocationStep::Ask {
                    next: LocationResolver { address, stage: Stage::Last },
                    failure,
                },
            },
            Stage::Last => match reply.into_location(Provider::MyIp) {
                Ok(record) => LocationStep::Resolved(record),
                Err(_) => LocationStep::Resolved(FullLocationData::failure(UNAVAILABLE_REASON)),
            },
        }
    }
}

/// The requests. Whatever the replies, at most four requests are made, and
/// they are the first of the plan: the primary provider up to twice, with the
/// fixed delay before the second request, then the alternate and the last
/// provider once each. Somebody is asked if and only if the address can be
/// looked up.
pub proof fn location_requests(
    address: Seq<char>,
    replies: spec_fn(nat) -> ReplyView,
    next: nat,
)
    ensures
        resolve_location(address, replies, next).asked.len() <= 4,
        resolve_location(address, replies, next).asked == location_plan(address).take(
            resolve_location(address, replies, next).asked.len() as int,
        ),
        can_look_up(address) <==> resolve_location(address, replies, next).asked.len() >= 1,
{
    reveal_with_fuel(LocationPoint::run, 4);
}

/// No address. For the sentinel and for the empty address nobody is asked,
/// and the record holds a reason in `error` and nothing else.
pub proof fn location_without_address(
    address: Seq<char>,
    replies: spec_fn(nat) -> ReplyView,
    next: nat,
)
    requires
        address == SENTINEL@ || address.len() == 0,
    ensures
        resolve_location(address, replies, next).asked.len() == 0,
        resolve_location(address, replies, next).record == LocationRecord::failure(
            NO_LOOKUP_REASON@,
        ),
        resolve_location(address, replies, next).record.is_failure(),
{
    reveal_strlit("Cannot get full location data for 'N/A' or empty IP address.");
}

/// Primary success. Where the primary provider gives a usable answer at its
/// attempt number `attempt`, counted from 1, after failing before, the record
/// is that answer in the primary's mapping and no further request is made.
pub proof fn location_from_primary(
    address: Seq<char>,
    replies: spec_fn(nat) -> ReplyView,
    next: nat,
    attempt: nat,
)
    requires
        can_look_up(address),
        1 <= attempt <= LOCATION_ATTEMPTS,
        attempt == 2 ==> replies(next).location(Provider::IpApi) is Err,
        replies((next + attempt - 1) as nat).location(Provider::IpApi) is Ok,
    ensures
        resolve_location(address, replies, next).record == replies(
            (next + attempt - 1) as nat,
        ).location(Provider::IpApi)->Ok_0,
        resolve_location(address, replies, next).asked == location_plan(address).take(
            attempt as int,
        ),
{
    reveal_with_fuel(LocationPoint::run, 4);
}

/// Fallback order. Where the primary provider fails at both attempts, be it
/// by a status other than success, and the alternate provider answers, the
/// record is that answer in the alternate's mapping, and the last provider
/// is not asked.
pub proof fn location_from_alternate(
    address: Seq<char>,
    replies: spec_fn(nat) -> ReplyView,
    next: nat,
)
    requires
        can_look_up(address),
        replies(next).location(Provider::IpApi) is Err,
        replies(next + 1).location(Provider::IpApi) is Err,
        replies(next + 2).location(Provider::IpInfo) is Ok,
    ensures
        resolve_location(address, replies, next).record == replies(next + 2).location(
            Provider::IpInfo,
        )->Ok_0,
        resolve_location(address, replies, next).asked == location_plan(address).take(3),
        forall|answer: crate::provider::IpInfoView|
            replies(next + 2) == ReplyView::IpInfo(answer) ==> resolve_location(
                address,
                replies,
                next,
            ).record == answer.location(),
{
    reveal_with_fuel(LocationPoint::run, 4);
}

/// Last resort. Where the primary and the alternate provider fail and the
/// last provider answers, the record holds the address and the country code
/// of that answer, and the sentinel for city and network provider.
pub proof fn location_from_last(
    address: Seq<char>,
    replies: spec_fn(nat) -> ReplyView,
    next: nat,
)
    requires
        can_look_up(address),
        replies(next).location(Provider::IpApi) is Err,
        replies(next + 1).location(Provider::IpApi) is Err,
        replies(next + 2).location(Provider::IpInfo) is Err,
        replies(next + 3).location(Provider::MyIp) is Ok,
    ensures
        resolve_location(address, replies, next).record == replies(next + 3).location(
            Provider::MyIp,
        )->Ok_0,
        resolve_location(address, replies, next).asked == location_plan(address),
        forall|answer: crate::provider::MyIpView|
            replies(next + 3) == ReplyView::MyIp(answer) ==> resolve_location(
                address,
                replies,
                next,
            ).record == LocationRecord::found(answer.ip, answer.cc, SENTINEL@, SENTINEL@),
{
    reveal_with_fuel(LocationPoint::run, 4);
}

/// Exhaustion. Where all three providers fail, the primary at both attempts,
/// the record holds a reason in `error` and nothing else. For an address
/// that can be looked up, all four requests of the plan are made, and the
/// reason is that nobody answered.
pub proof fn location_exhaustion(
    address: Seq<char>,
    replies: spec_fn(nat) -> ReplyView,
    next: nat,
)
    requires
        replies(next).location(Provider::IpApi) is Err,
        replies(next + 1).location(Provider::IpApi) is Err,
        replies(next + 2).location(Provider::IpInfo) is Err,
        replies(next + 3).location(Provider::MyIp) is Err,
    ensures
        resolve_location(address, replies, next).record.is_failure(),
        resolve_location(address, replies, next).record == LocationRecord::failure(
            resolve_location(address, replies, next).record.error,
        ),
        can_look_up(address) ==> {
            &&& resolve_location(address, replies, next).record.error == UNAVAILABLE_REASON@
            &&& resolve_location(address, replies, next).asked == location_plan(address)
        },
{
    reveal_strlit("All IP data services are unavailable.");
    reveal_strlit("Cannot get full location data for 'N/A' or empty IP address.");
    reveal_with_fuel(LocationPoint::run, 4);
}

/// Success or failure, never both. Whatever the address and the replies, a
/// record that holds a reason in `error` holds nothing else.
pub proof fn location_well_formed(
    address: Seq<char>,
    replies: spec_fn(nat) -> ReplyView,
    next: nat,
)
    ensures
        resolve_location(address, replies, next).record.well_formed(),
{
    reveal_with_fuel(LocationPoint::run, 4);
}

/// The operation that the resolver retries: to ask the primary provider.
/// Its invocation number `i` is request number `first + i` of the whole run.
pub open spec fn primary_location(replies: spec_fn(nat) -> ReplyView, first: nat) -> spec_fn(
    nat,
) -> Result<LocationRecord, FailureView> {
    |i: nat| replies(first + i).location(Provider::IpApi)
}

/// Retry, then fall back. For an address that can be looked up, the
/// resolution is the retried primary operation, followed, where that fails,
/// by one request to the alternate provider and, where that fails too, by
/// one to the last: the record is the first usable answer among these, else
/// the record that says that nobody answered, and no request is made beyond
/// them.
pub proof fn location_by_retry(
    address: Seq<char>,
    replies: spec_fn(nat) -> ReplyView,
    next: nat,
)
    requires
        can_look_up(address),
    ensures
        ({
            let primary = RetryView::fresh(LOCATION_ATTEMPTS as nat).run(
                primary_location(replies, next),
            );
            let resolved = resolve_location(address, replies, next);
            let then = next + primary.invocations;
            match primary.result {
                Ok(record) => {
                    &&& resolved.record == record
                    &&& resolved.asked.len() == primary.invocations
                },
                Err(_) => match replies(then).location(Provider::IpInfo) {
                    Ok(record) => {
                        &&& resolved.record == record
                        &&& resolved.asked.len() == primary.invocations + 1
                    },
                    Err(_) => {
                        &&& resolved.record == match replies(then + 1).location(Provider::MyIp) {
                            Ok(record) => record,
                            Err(_) => LocationRecord::failure(UNAVAILABLE_REASON@),
                        }
                        &&& resolved.asked.len() == primary.invocations + 2
                    },
                },
            }
        }),
{
    reveal_with_fuel(LocationPoint::run, 4);
    reveal_with_fuel(RetryView::run, 2);
}

} // verus!
