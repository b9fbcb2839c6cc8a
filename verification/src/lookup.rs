//! The whole run: the address is resolved first, and its location after
//! that, unless no address was found. The caller makes the requests:
//!
//! 1. begin with [`Lookup::new`];
//! 2. wait [`Lookup::delay_secs`] seconds, send [`Lookup::request`], and
//!    hand what came back to [`Lookup::step`];
//! 3. repeat 2 with the run that the step returns, until the step returns
//!    the record.

use crate::address::{
    resolve_address, AddressPoint, AddressResolver, AddressRun, AddressStep, AddressStepView,
};
use crate::location::{
    resolve_location, LocationPoint, LocationResolver, LocationStep, LocationStepView,
};
use crate::provider::{Asked, Failure, FailureView, Reply, ReplyView, Request};
use crate::record::{FullLocationData, LocationRecord, OutputData, OutputRecord, SENTINEL};
use vstd::prelude::*;

verus! {

/// The reason given where no address was found.
pub const NO_ADDRESS_REASON: &'static str = "No external IP detected.";

/// Mathematical content of a [`Lookup`]: the resolution that is under way.
pub ghost enum LookupPoint {
    Address(AddressPoint),
    Location(LocationPoint),
}

/// Mathematical content of a [`LookupStep`].
pub ghost enum LookupStepView {
    Ask { next: LookupPoint, failure: Option<FailureView> },
    Finished(OutputRecord),
}

/// What a whole run came to.
pub ghost struct LookupRun {
    /// The requests that were made, in order.
    pub asked: Seq<Asked>,
    /// The record that is reported.
    pub output: OutputRecord,
}

/// What follows once the address is resolved to `address`: for the sentinel
/// the run is over and the record says that no address was found; any other
/// address is handed to the location resolver.
pub open spec fn locate(address: Seq<char>) -> LookupStepView {
    if address == SENTINEL@ {
        LookupStepView::Finished(
            OutputRecord {
                ip_address: address,
                full: LocationRecord::failure(NO_ADDRESS_REASON@),
            },
        )
    } else {
        match LocationPoint::start(address) {
            Ok(point) => LookupStepView::Ask { next: LookupPoint::Location(point), failure: None },
            Err(record) => LookupStepView::Finished(
                OutputRecord { ip_address: address, full: record },
            ),
        }
    }
}

impl LookupPoint {
    /// Before the first request.
    pub open spec fn initial() -> LookupPoint {
        LookupPoint::Address(AddressPoint::initial())
    }

    /// The request that is due, and the wait before it.
    pub open spec fn ask(self) -> Asked {
        match self {
            LookupPoint::Address(point) => point.ask(),
            LookupPoint::Location(point) => point.ask(),
        }
    }

    /// The number of the attempt that is due at the provider asked next,
    /// counted from 1, and the attempts that this provider is given.
    pub open spec fn attempt(self) -> (nat, nat) {
        match self {
            LookupPoint::Address(point) => point.attempt(),
            LookupPoint::Location(point) => point.attempt(),
        }
    }

    /// The decision after the request that was due got `reply`. Where
    /// another request follows a failure, that failure goes with it.
    pub open spec fn step(self, reply: ReplyView) -> LookupStepView {
        match self {
            LookupPoint::Address(point) => match point.step(reply) {
                AddressStepView::Ask { next, failure } => LookupStepView::Ask {
                    next: LookupPoint::Address(next),
                    failure: Some(failure),
                },
                AddressStepView::Resolved(address) => locate(address),
            },
            LookupPoint::Location(point) => match point.step(reply) {
                LocationStepView::Ask { next, failure } => LookupStepView::Ask {
                    next: LookupPoint::Location(next),
                    failure: Some(failure),
                },
                LocationStepView::Resolved(record) => LookupStepView::Finished(
                    OutputRecord { ip_address: point.address, full: record },
                ),
            },
        }
    }

    /// A bound on the requests that follow the one that is due.
    pub open spec fn requests_left(self) -> nat {
        match self {
            LookupPoint::Address(point) => point.requests_left() + 4,
            LookupPoint::Location(point) => point.requests_left(),
        }
    }

    /// The run from here on, where `replies(i)` is what request number `i`
    /// of the whole run, counted from 0, gets, and `next` is the number of
    /// the request that is due.
    pub open spec fn run(self, replies: spec_fn(nat) -> ReplyView, next: nat) -> LookupRun
        decreases self.requests_left(),
    {
        match self.step(replies(next)) {
            LookupStepView::Finished(output) => LookupRun { asked: seq![self.ask()], output },
            LookupStepView::Ask { next: point, .. } => {
                let rest = point.run(replies, next + 1);
                LookupRun { asked: seq![self.ask()] + rest.asked, output: rest.output }
            },
        }
    }
}

/// What a whole run comes to when request number `i`, counted from 0, gets
/// `replies(i)`.
pub open spec fn look_up(replies: spec_fn(nat) -> ReplyView) -> LookupRun {
    LookupPoint::initial().run(replies, 0)
}

#[derive(Debug)]
enum Phase {
    Address(AddressResolver),
    Location { address: String, resolver: LocationResolver },
}

/// Where a run stands.
#[derive(Debug)]
pub struct Lookup {
    phase: Phase,
}

/// What follows a reply.
#[derive(Debug)]
pub enum LookupStep {
    /// Make the request of `next`, and hand it the reply. Where the request
    /// before gave nothing usable, `failure` holds the reason; it is `None`
    /// where the address was just found and its location is asked for next.
    Ask { next: Lookup, failure: Option<Failure> },
    /// The run is over.
    Finished(OutputData),
}

impl View for Lookup {
    type V = LookupPoint;

    closed spec fn view(&self) -> LookupPoint {
        match self.phase {
            Phase::Address(resolver) => LookupPoint::Address(resolver@),
            Phase::Location { address, resolver } => LookupPoint::Location(resolver@),
        }
    }
}

impl View for LookupStep {
    type V = LookupStepView;

    open spec fn view(&self) -> LookupStepView {
        match self {
            LookupStep::Ask { next, failure } => LookupStepView::Ask {
                next: next@,
                failure: match failure {
                    Some(failure) => Some(failure@),
                    None => None,
                },
            },
            LookupStep::Finished(output) => LookupStepView::Finished(output@),
        }
    }
}

impl Lookup {
    #[verifier::type_invariant]
    spec fn keeps_the_address(self) -> bool {
        match self.phase {
            Phase::Address(_) => true,
            Phase::Location { address, resolver } => address@ == resolver@.address,
        }
    }

    /// A run that has asked nobody yet.
    pub fn new() -> (lookup: Lookup)
        ensures
            lookup@ == LookupPoint::initial(),
    {
        Lookup { phase: Phase::Address(AddressResolver::new()) }
    }

    /// What follows once the address is known to be `address`: the run is
    /// over for `"N/A"`, which is no address, and for the empty address,
    /// which cannot be looked up, and goes on with the first location
    /// request for any other.
    pub fn locate(address: String) -> (step: LookupStep)
        ensures
            step@ == locate(address@),
    {
        let sentinel = String::from_str(SENTINEL);
        if address == sentinel {
            LookupStep::Finished(
                OutputData {
                    ip_address: address,
                    full: FullLocationData::failure(NO_ADDRESS_REASON),
                },
            )
        } else {
            match LocationResolver::start(address.as_str()) {
                Ok(resolver) => LookupStep::Ask {
                    next: Lookup { phase: Phase::Location { address, resolver } },
                    failure: None,
                },
                Err(full) => LookupStep::Finished(OutputData { ip_address: address, full }),
            }
        }
    }

    /// The request that is due.
    pub fn request(&self) -> (request: Request)
        ensures
            request@ == self@.ask().request,
    {
        match &self.phase {
            Phase::Address(resolver) => resolver.request(),
            Phase::Location { resolver, .. } => resolver.request(),
        }
    }

    /// Seconds to wait before the request that is due is made.
    pub fn delay_secs(&self) -> (secs: u64)
        ensures
            secs == self@.ask().delay_secs,
    {
        match &self.phase {
            Phase::Address(resolver) => resolver.delay_secs(),
            Phase::Location { resolver, .. } => resolver.delay_secs(),
        }
    }

    /// The number of the attempt that is due at the provider asked next,
    /// counted from 1, and the attempts that this provider is given.
    pub fn attempt(&self) -> (attempt: (u32, u32))
        ensures
            attempt.0 == self@.attempt().0,
            attempt.1 == self@.attempt().1,
    {
        match &self.phase {
            Phase::Address(resolver) => resolver.attempt(),
            Phase::Location { resolver, .. } => resolver.attempt(),
        }
    }

    /// Takes the reply to the request that was due and says what follows.
    pub fn step(self, reply: Reply) -> (step: LookupStep)
        ensures
            step@ == self@.step(reply@),
    {
        proof {
            use_type_invariant(&self);
        }
        match self.phase {
            Phase::Address(resolver) => match resolver.step(reply) {
                AddressStep::Ask { next, failure } => LookupStep::Ask {
                    next: Lookup { phase: Phase::Address(next) },
                    failure: Some(failure),
                },
                AddressStep::Resolved(address) => Lookup::locate(address),
            },
            Phase::Location { address, resolver } => match resolver.step(reply) {
                LocationStep::Ask { next, failure } => LookupStep::Ask {
                    next: Lookup { phase: Phase::Location { address, resolver: next } },
                    failure: Some(failure),
                },
                LocationStep::Resolved(full) => LookupStep::Finished(
                    OutputData { ip_address: address, full },
                ),
            },
        }
    }
}

/// What the run comes to once the address is resolved as `found` says, the
/// first request of the run being number `first`.
spec fn after_address(
    found: AddressRun,
    replies: spec_fn(nat) -> ReplyView,
    first: nat,
) -> LookupRun {
    if found.address == SENTINEL@ {
        LookupRun {
            asked: found.asked,
            output: OutputRecord {
                ip_address: SENTINEL@,
                full: LocationRecord::failure(NO_ADDRESS_REASON@),
            },
        }
    } else {
        let located = resolve_location(found.address, replies, first + found.asked.len());
        LookupRun {
            asked: found.asked + located.asked,
            output: OutputRecord { ip_address: found.address, full: located.record },
        }
    }
}

/// A run that is resolving a location asks what the location resolver asks
/// and reports what it finds, under the address that is looked up.
proof fn lemma_location_phase(point: LocationPoint, replies: spec_fn(nat) -> ReplyView, next: nat)
    ensures
        LookupPoint::Location(point).run(replies, next) == (LookupRun {
            asked: point.run(replies, next).asked,
            output: OutputRecord {
                ip_address: point.address,
                full: point.run(replies, next).record,
            },
        }),
    decreases point.requests_left(),
{
    match point.step(replies(next)) {
        LocationStepView::Ask { next: later, .. } => {
            lemma_location_phase(later, replies, next + 1);
        },
        LocationStepView::Resolved(_) => {},
    }
}

/// A run that is resolving the address asks what the address resolver asks
/// and goes on from the address that it finds.
proof fn lemma_address_phase(point: AddressPoint, replies: spec_fn(nat) -> ReplyView, next: nat)
    ensures
        LookupPoint::Address(point).run(replies, next) == after_address(
            point.run(replies, next),
            replies,
            next,
        ),
    decreases point.requests_left(),
{
    match point.step(replies(next)) {
        AddressStepView::Ask { next: later, .. } => {
            lemma_address_phase(later, replies, next + 1);
            let rest = later.run(replies, next + 1);
            if rest.address != SENTINEL@ {
                let located = resolve_location(rest.address, replies, next + 1 + rest.asked.len());
                assert(seq![point.ask()] + (rest.asked + located.asked) == (seq![point.ask()]
                    + rest.asked) + located.asked);
            }
        },
        AddressStepView::Resolved(address) => {
            match LocationPoint::start(address) {
                Ok(begin) => {
                    lemma_location_phase(begin, replies, next + 1);
                },
                Err(_) => {},
            }
        },
    }
}

/// No address. Where the address resolves to the sentinel, the run asks the
/// address providers and nobody else, and the record that it reports holds
/// the sentinel as the address and, in the location's `error`, that no
/// address was found.
pub proof fn lookup_without_address(replies: spec_fn(nat) -> ReplyView)
    requires
        resolve_address(replies).address == SENTINEL@,
    ensures
        look_up(replies).asked == resolve_address(replies).asked,
        look_up(replies).output == (OutputRecord {
            ip_address: SENTINEL@,
            full: LocationRecord::failure(NO_ADDRESS_REASON@),
        }),
        look_up(replies).output.full.is_failure(),
{
    reveal_strlit("No external IP detected.");
    lemma_address_phase(AddressPoint::initial(), replies, 0);
}

/// With an address. Where the address resolves to anything but the
/// sentinel, the run asks what the address resolver asks and then what the
/// location resolver asks for that address, and reports the address with the
/// record that the location resolver finds.
pub proof fn lookup_with_address(replies: spec_fn(nat) -> ReplyView)
    requires
        resolve_address(replies).address != SENTINEL@,
    ensures
        look_up(replies).asked == resolve_address(replies).asked + resolve_location(
            resolve_address(replies).address,
            replies,
            resolve_address(replies).asked.len(),
        ).asked,
        look_up(replies).output == (OutputRecord {
            ip_address: resolve_address(replies).address,
            full: resolve_location(
                resolve_address(replies).address,
                replies,
                resolve_address(replies).asked.len(),
            ).record,
        }),
{
    lemma_address_phase(AddressPoint::initial(), replies, 0);
}

/// Always a record. Whatever the replies, the run ends after at most eight
/// requests, and the location that it reports is a success or a failure,
/// never both.
pub proof fn lookup_is_total(replies: spec_fn(nat) -> ReplyView)
    ensures
        1 <= look_up(replies).asked.len() <= 8,
        look_up(replies).output.full.well_formed(),
{
    let found = resolve_address(replies);
    crate::address::address_requests(replies);
    lemma_address_phase(AddressPoint::initial(), replies, 0);
    if found.address != SENTINEL@ {
        crate::location::location_requests(found.address, replies, found.asked.len());
        crate::location::location_well_formed(found.address, replies, found.asked.len());
    }
}

} // verus!
