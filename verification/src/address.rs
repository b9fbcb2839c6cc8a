//! The address resolver: the caller's public address from the primary
//! provider, attempted up to three times, else from the secondary provider,
//! asked once, else the sentinel.

use crate::provider::{
    Asked, Failure, FailureView, Provider, Reply, ReplyView, Request, RequestView,
};
use crate::record::SENTINEL;
use crate::retry::{Retry, RetryStep, RetryStepView, RetryView, RETRY_DELAY_SECS};
use vstd::prelude::*;

verus! {

/// Attempts that the primary address provider is given.
pub const ADDRESS_ATTEMPTS: u32 = 3;

/// Mathematical content of an [`AddressResolver`]: the provider that is
/// asked next.
pub ghost enum AddressPoint {
    Primary(RetryView),
    Secondary,
}

/// Mathematical content of an [`AddressStep`].
pub ghost enum AddressStepView {
    Ask { next: AddressPoint, failure: FailureView },
    Resolved(Seq<char>),
}

/// What resolving the address came to.
pub ghost struct AddressRun {
    /// The requests that were made, in order.
    pub asked: Seq<Asked>,
    /// The address, or the sentinel.
    pub address: Seq<char>,
}

impl AddressPoint {
    /// Before the first request.
    pub open spec fn initial() -> AddressPoint {
        AddressPoint::Primary(RetryView::fresh(ADDRESS_ATTEMPTS as nat))
    }

    /// The provider that is asked next.
    pub open spec fn provider(self) -> Provider {
        match self {
            AddressPoint::Primary(_) => Provider::Ipify,
            AddressPoint::Secondary => Provider::MyIp,
        }
    }

    /// The request that is due, and the wait before it.
    pub open spec fn ask(self) -> Asked {
        Asked {
            request: RequestView::to(self.provider(), Seq::empty()),
            delay_secs: match self {
                AddressPoint::Primary(retry) => retry.delay_secs(),
                AddressPoint::Secondary => 0,
            },
        }
    }

    /// The number of the attempt that is due at the provider asked next,
    /// counted from 1, and the attempts that this provider is given.
    pub open spec fn attempt(self) -> (nat, nat) {
        match self {
            AddressPoint::Primary(retry) => (retry.failed + 1, retry.max_attempts),
            AddressPoint::Secondary => (1, 1),
        }
    }

    /// The decision after the request that was due got `reply`. The primary
    /// provider is retried; once it is given up the secondary is asked, and
    /// what it says is final: its address, or the sentinel where it has none.
    /// Where another request follows, the failure of the last one goes with it.
    pub open spec fn step(self, reply: ReplyView) -> AddressStepView {
        match self {
            AddressPoint::Primary(retry) => match retry.settle(reply.address(Provider::Ipify)) {
                RetryStepView::Finished(Ok(address)) => AddressStepView::Resolved(address),
                RetryStepView::Finished(Err(failure)) => AddressStepView::Ask {
                    next: AddressPoint::Secondary,
                    failure,
                },
                RetryStepView::Again { next, failure } => AddressStepView::Ask {
                    next: AddressPoint::Primary(next),
                    failure,
                },
            },
            AddressPoint::Secondary => match reply.address(Provider::MyIp) {
                Ok(address) => AddressStepView::Resolved(address),
                Err(_) => AddressStepView::Resolved(SENTINEL@),
            },
        }
    }

    /// A bound on the requests that follow the one that is due.
    pub open spec fn requests_left(self) -> nat {
        match self {
            AddressPoint::Primary(retry) => if retry.failed < retry.max_attempts {
                (retry.max_attempts - retry.failed) as nat
            } else {
                1
            },
            AddressPoint::Secondary => 0,
        }
    }

    /// The resolution from here on, where `replies(i)` is what request
    /// number `i` of the whole run, counted from 0, gets, and `next` is the
    /// number of the request that is due.
    pub open spec fn run(self, replies: spec_fn(nat) -> ReplyView, next: nat) -> AddressRun
        decreases self.requests_left(),
    {
        match self.step(replies(next)) {
            AddressStepView::Resolved(address) => AddressRun { asked: seq![self.ask()], address },
            AddressStepView::Ask { next: point, .. } => {
                let rest = point.run(replies, next + 1);
                AddressRun { asked: seq![self.ask()] + rest.asked, address: rest.address }
            },
        }
    }
}

/// The requests of a resolution in which every provider fails.
pub open spec fn address_plan() -> Seq<Asked> {
    seq![
        Asked { request: RequestView::to(Provider::Ipify, Seq::empty()), delay_secs: 0 },
        Asked {
            request: RequestView::to(Provider::Ipify, Seq::empty()),
            delay_secs: RETRY_DELAY_SECS as nat,
        },
        Asked {
            request: RequestView::to(Provider::Ipify, Seq::empty()),
            delay_secs: RETRY_DELAY_SECS as nat,
        },
        Asked { request: RequestView::to(Provider::MyIp, Seq::empty()), delay_secs: 0 },
    ]
}

/// What resolving the address comes to when request number `i`, counted
/// from 0, gets `replies(i)`.
pub open spec fn resolve_address(replies: spec_fn(nat) -> ReplyView) -> AddressRun {
    AddressPoint::initial().run(replies, 0)
}

#[derive(Debug)]
enum Stage {
    Primary(Retry),
    Secondary,
}

/// Where the resolution of the address stands.
#[derive(Debug)]
pub struct AddressResolver {
    stage: Stage,
}

/// What follows a reply.
#[derive(Debug)]
pub enum AddressStep {
    /// The request gave no address, for the reason in `failure`. Make the
    /// request of `next`, and hand it the reply.
    Ask { next: AddressResolver, failure: Failure },
    /// The resolution is over: the address, or `"N/A"`.
    Resolved(String),
}

impl View for AddressResolver {
    type V = AddressPoint;

    closed spec fn view(&self) -> AddressPoint {
        match self.stage {
            Stage::Primary(retry) => AddressPoint::Primary(retry@),
            Stage::Secondary => AddressPoint::Secondary,
        }
    }
}

impl View for AddressStep {
    type V = AddressStepView;

    open spec fn view(&self) -> AddressStepView {
        match self {
            AddressStep::Ask { next, failure } => AddressStepView::Ask {
                next: next@,
                failure: failure@,
            },
            AddressStep::Resolved(address) => AddressStepView::Resolved(address@),
        }
    }
}

impl AddressResolver {
    /// A resolution that has asked nobody yet.
    pub fn new() -> (resolver: AddressResolver)
        ensures
            resolver@ == AddressPoint::initial(),
    {
        AddressResolver { stage: Stage::Primary(Retry::new(ADDRESS_ATTEMPTS)) }
    }

    /// The request that is due.
    pub fn request(&self) -> (request: Request)
        ensures
            request@ == self@.ask().request,
    {
        match &self.stage {
            Stage::Primary(_) => Request::to(Provider::Ipify, ""),
            Stage::Secondary => Request::to(Provider::MyIp, ""),
        }
    }

    /// Seconds to wait before the request that is due is made.
    pub fn delay_secs(&self) -> (secs: u64)
        ensures
            secs == self@.ask().delay_secs,
    {
        match &self.stage {
            Stage::Primary(retry) => retry.delay_secs(),
            Stage::Secondary => 0,
        }
    }

    /// The number of the attempt that is due at the provider asked next,
    /// counted from 1, and the attempts that this provider is given.
    pub fn attempt(&self) -> (attempt: (u32, u32))
        ensures
            attempt.0 == self@.attempt().0,
            attempt.1 == self@.attempt().1,
    {
        match &self.stage {
            Stage::Primary(retry) => (retry.attempt(), retry.max_attempts()),
            Stage::Secondary => (1, 1),
        }
    }

    /// Takes the reply to the request that was due and says what follows.
    pub fn step(self, reply: Reply) -> (step: AddressStep)
        ensures
            step@ == self@.step(reply@),
    {
        match self.stage {
            Stage::Primary(retry) => {
                match retry.settle(reply.into_address(Provider::Ipify)) {
                    RetryStep::Finished(Ok(address)) => AddressStep::Resolved(address),
                    RetryStep::Finished(Err(failure)) => AddressStep::Ask {
                        next: AddressResolver { stage: Stage::Secondary },
                        failure,
                    },
                    RetryStep::Again { next, failure } => AddressStep::Ask {
                        next: AddressResolver { stage: Stage::Primary(next) },
                        failure,
                    },
                }
            },
            Stage::Secondary => match reply.into_address(Provider::MyIp) {
                Ok(address) => AddressStep::Resolved(address),
                Err(_) => AddressStep::Resolved(String::from_str(SENTINEL)),
            },
        }
    }
}

/// The requests. Whatever the replies, between one and four requests are
/// made, and they are the first of the plan: the primary provider up to three
/// times, with the fixed delay before the second and the third request, then
/// the secondary provider once.
pub proof fn address_requests(replies: spec_fn(nat) -> ReplyView)
    ensures
        1 <= resolve_address(replies).asked.len() <= 4,
        resolve_address(replies).asked == address_plan().take(
            resolve_address(replies).asked.len() as int,
        ),
{
    reveal_with_fuel(AddressPoint::run, 4);
}

/// Primary success. Where the primary provider gives an address at its
/// attempt number `attempt`, counted from 1, after failing before, that
/// address is the result and no further request is made.
pub proof fn address_from_primary(replies: spec_fn(nat) -> ReplyView, attempt: nat)
    requires
        1 <= attempt <= ADDRESS_ATTEMPTS,
        forall|i: nat| i + 1 < attempt ==> (#[trigger] replies(i)).address(Provider::Ipify) is Err,
        replies((attempt - 1) as nat).address(Provider::Ipify) is Ok,
    ensures
        resolve_address(replies).address == replies((attempt - 1) as nat).address(
            Provider::Ipify,
        )->Ok_0,
        resolve_address(replies).asked.len() == attempt,
{
    reveal_with_fuel(AddressPoint::run, 4);
}

/// Fallback. Where the primary provider fails at all three attempts, the
/// secondary provider is asked; the result is the address that it gives, and
/// the sentinel where it gives none.
pub proof fn address_fallback(replies: spec_fn(nat) -> ReplyView)
    requires
        forall|i: nat|
            i < ADDRESS_ATTEMPTS ==> (#[trigger] replies(i)).address(Provider::Ipify) is Err,
    ensures
        resolve_address(replies).asked == address_plan(),
        resolve_address(replies).address == match replies(3).address(Provider::MyIp) {
            Ok(address) => address,
            Err(_) => SENTINEL@,
        },
{
    reveal_with_fuel(AddressPoint::run, 4);
}

/// The operation that the resolver retries: to ask the primary provider.
/// Its invocation number `i` is request number `i` of the resolution.
pub open spec fn primary_address(replies: spec_fn(nat) -> ReplyView) -> spec_fn(nat) -> Result<
    Seq<char>,
    FailureView,
> {
    |i: nat| replies(i).address(Provider::Ipify)
}

/// Retry, then fall back. The resolution is the retried primary operation,
/// followed, where that fails, by one request to the secondary provider:
/// the address is the primary's where the retry succeeds, else the
/// secondary's, else the sentinel, and no request is made beyond these.
pub proof fn address_by_retry(replies: spec_fn(nat) -> ReplyView)
    ensures
        ({
            let primary = RetryView::fresh(ADDRESS_ATTEMPTS as nat).run(primary_address(replies));
            let resolved = resolve_address(replies);
            match primary.result {
                Ok(address) => {
                    &&& resolved.address == address
                    &&& resolved.asked.len() == primary.invocations
                },
                Err(_) => {
                    &&& resolved.address == match replies(primary.invocations).address(
                        Provider::MyIp,
                    ) {
                        Ok(address) => address,
                        Err(_) => SENTINEL@,
                    }
                    &&& resolved.asked.len() == primary.invocations + 1
                },
            }
        }),
{
    reveal_with_fuel(AddressPoint::run, 4);
    reveal_with_fuel(RetryView::run, 3);
}

} // verus!
