//! Deterministic fault injection: a transport wrapper that fails one chosen send or
//! receive of one role, once per session pair.
use vstd::prelude::*;
use std::sync::Arc;
use std::sync::atomic::{AtomicBool, Ordering};
use crate::runtime::{RuntimeError, Transport, WireEnvelope, failure_of};
use crate::text::{same_text, text_from};

verus! {

/// Which transport operation a fault interrupts.
#[derive(Debug, Clone, Copy, PartialEq, Eq)]
pub enum FaultOperation {
    Send,
    Receive,
}

pub open spec fn operation_name(o: FaultOperation) -> Seq<char> {
    match o {
        FaultOperation::Send => "send"@,
        FaultOperation::Receive => "receive"@,
    }
}

impl FaultOperation {
    pub fn as_str(self) -> (r: &'static str)
        ensures
            r@ == operation_name(self),
    {
        match self {
            FaultOperation::Send => "send",
            FaultOperation::Receive => "receive",
        }
    }
}

fn same_operation(a: FaultOperation, b: FaultOperation) -> (r: bool)
    ensures
        r == (a == b),
{
    match (a, b) {
        (FaultOperation::Send, FaultOperation::Send) | (FaultOperation::Receive, FaultOperation::Receive) => true,
        _ => false,
    }
}

/// The `occurrence`-th `operation` of `role` is the planned fault, and no fault has fired
/// yet: the role and the operation are the plan's, and the count (from one) is the plan's
/// occurrence.
pub open spec fn fault_due(plan: FaultPlan, role: Seq<char>, operation: FaultOperation, occurrence: usize, already_fired: bool) -> bool {
    &&& !already_fired
    &&& role == plan.role@
    &&& operation == plan.operation
    &&& occurrence == plan.occurrence
}

/// A planned fault is due exactly once: at the plan's role, operation and occurrence
/// (counted from one) while nothing has fired, and at no other call.
pub proof fn law_planned_fault_is_due(plan: FaultPlan, role: Seq<char>, operation: FaultOperation, occurrence: usize, fired: bool)
    ensures
        fault_due(plan, plan.role@, plan.operation, plan.occurrence, false),
        fault_due(plan, role, operation, occurrence, fired) ==> role == plan.role@ && operation == plan.operation
            && occurrence == plan.occurrence && !fired,
        fired ==> !fault_due(plan, role, operation, occurrence, fired),
{
}

/// Whether the `occurrence`-th `operation` of `role` is the fault `plan` injects, given
/// whether a fault already fired in the session.
pub fn decide_fault(plan: &FaultPlan, role: &str, operation: FaultOperation, occurrence: usize, already_fired: bool) -> (r: bool)
    ensures
        r == fault_due(*plan, role@, operation, occurrence, already_fired),
{
    !already_fired && same_text(role, plan.role.as_str()) && same_operation(operation, plan.operation)
        && occurrence == plan.occurrence
}

/// The fault to inject: the `occurrence`-th `operation` of `role` fails with `failure`;
/// the peer, whose transport then fails, observes `peer_failure` when it is given.
#[derive(Debug, Clone)]
pub struct FaultPlan {
    pub role: String,
    pub operation: FaultOperation,
    pub occurrence: usize,
    pub failure: String,
    pub peer_failure: Option<String>,
}

/// A transport that injects the fault of a plan into another transport. The two roles'
/// wrappers share one flag, so the fault fires once.
pub struct FaultInjectingTransport<T> {
    inner: T,
    role: String,
    plan: FaultPlan,
    sends: usize,
    receives: usize,
    fired: Arc<AtomicBool>,
}

impl<T> FaultInjectingTransport<T> {
    pub closed spec fn role_view(&self) -> Seq<char> {
        self.role@
    }

    pub closed spec fn plan_view(&self) -> FaultPlan {
        self.plan
    }

    pub closed spec fn flag_view(&self) -> Arc<AtomicBool> {
        self.fired
    }

    pub closed spec fn inner_view(&self) -> T {
        self.inner
    }

    pub closed spec fn inner_ref(&self) -> &T {
        &self.inner
    }

    pub closed spec fn sends_view(&self) -> usize {
        self.sends
    }

    pub closed spec fn receives_view(&self) -> usize {
        self.receives
    }

    /// Wraps `inner` for `role`, with a flag of its own.
    pub fn new(inner: T, role: &str, plan: FaultPlan) -> (r: Result<Self, RuntimeError>)
        ensures
            plan.occurrence == 0 ==> (r matches Err(RuntimeError::Application(m)) && m@ == "fault occurrence must be at least one"@),
            plan.occurrence > 0 ==> (r matches Ok(t) && t.role_view() == role@ && t.plan_view() == plan && t.sends_view() == 0
                && t.receives_view() == 0),
    {
        Self::with_fired(inner, role, plan, Arc::new(AtomicBool::new(false)))
    }

    /// Wraps `inner` for `role`, sharing the flag `fired` with the peer's wrapper.
    pub fn with_fired(inner: T, role: &str, plan: FaultPlan, fired: Arc<AtomicBool>) -> (r: Result<Self, RuntimeError>)
        ensures
            plan.occurrence == 0 ==> (r matches Err(RuntimeError::Application(m)) && m@ == "fault occurrence must be at least one"@),
            plan.occurrence > 0 ==> (r matches Ok(t) && t.role_view() == role@ && t.plan_view() == plan && t.sends_view() == 0
                && t.receives_view() == 0 && t.flag_view() == fired),
    {
        if plan.occurrence == 0 {
            return Err(RuntimeError::Application(text_from("fault occurrence must be at least one")));
        }
        Ok(FaultInjectingTransport { inner, role: text_from(role), plan, sends: 0, receives: 0, fired })
    }

    /// The flag shared by the wrappers of a session pair.
    pub fn fired(&self) -> (r: Arc<AtomicBool>)
        ensures
            r == self.flag_view(),
    {
        crate::plan::share(&self.fired)
    }

    /// Counts one `operation` and decides whether it fails: only the planned role's
    /// planned occurrence of the planned operation does, and only while the fault has not
    /// fired yet, which it then has.
    /// Counts one `operation` and says whether it is the planned fault, given whether the
    /// shared flag was already set.
    fn should_inject(&mut self, operation: FaultOperation, already_fired: bool) -> (r: bool)
        ensures
            r == fault_due(old(self).plan_view(), old(self).role_view(), operation, if operation == FaultOperation::Send {
                final(self).sends_view()
            } else {
                final(self).receives_view()
            }, already_fired),
            final(self).role_view() == old(self).role_view(),
            final(self).plan_view() == old(self).plan_view(),
            final(self).flag_view() == old(self).flag_view(),
            final(self).inner_view() == old(self).inner_view(),
            operation == FaultOperation::Send ==> final(self).sends_view() == old(self).sends_view().wrapping_add(1)
                && final(self).receives_view() == old(self).receives_view(),
            operation == FaultOperation::Receive ==> final(self).receives_view() == old(self).receives_view().wrapping_add(1)
                && final(self).sends_view() == old(self).sends_view(),
            r ==> old(self).role_view() == old(self).plan_view().role@ && operation == old(self).plan_view().operation
                && old(self).plan_view().occurrence == if operation == FaultOperation::Send {
                final(self).sends_view()
            } else {
                final(self).receives_view()
            },
    {
        let occurrence = match operation {
            FaultOperation::Send => {
                self.sends = self.sends.wrapping_add(1);
                self.sends
            },
            FaultOperation::Receive => {
                self.receives = self.receives.wrapping_add(1);
                self.receives
            },
        };
        let inject = decide_fault(&self.plan, self.role.as_str(), operation, occurrence, already_fired);
        if inject {
            self.fired.store(true, Ordering::Relaxed);
        }
        inject
    }

    /// The error of the injected fault.
    fn injected_error(&self, operation: FaultOperation, failure: &str) -> (r: RuntimeError)
        ensures
            r matches RuntimeError::InjectedFailure { role, operation: op, occurrence, failure: f }
                && role@ == self.role_view() && op@ == operation_name(operation) && occurrence == if operation
                == FaultOperation::Send {
                self.sends_view()
            } else {
                self.receives_view()
            } && f@ == failure@,
    {
        let occurrence = match operation {
            FaultOperation::Send => self.sends,
            FaultOperation::Receive => self.receives,
        };
        RuntimeError::InjectedFailure { role: self.role.clone(), operation: operation.as_str(), occurrence, failure: text_from(failure) }
    }

    /// The peer of the faulty role sees its transport fail: where the plan names a peer
    /// failure, that transport failure becomes an injected failure of that name.
    /// The result of the inner transport, where the faulty role's peer turns a transport
    /// failure into its planned peer failure once the fault fired (`fired`).
    fn map_peer_error<U>(&self, operation: FaultOperation, result: Result<U, RuntimeError>, fired: bool) -> (r: Result<U, RuntimeError>)
        ensures
            (result is Err && self.role_view() != self.plan_view().role@ && fired && failure_of(result->Err_0) is Some
                && self.plan_view().peer_failure is Some) ==> injected_failure(
                self.role_view(),
                operation,
                if operation == FaultOperation::Send {
                    self.sends_view()
                } else {
                    self.receives_view()
                },
                self.plan_view().peer_failure->0@,
                r,
            ),
            !fired ==> r == result,
            result is Ok ==> r == result,
            self.role_view() == self.plan_view().role@ ==> r == result,
            failure_of(result->Err_0) is None ==> r == result,
            self.plan_view().peer_failure is None ==> r == result,
            r != result ==> injected_failure(
                self.role_view(),
                operation,
                if operation == FaultOperation::Send {
                    self.sends_view()
                } else {
                    self.receives_view()
                },
                self.plan_view().peer_failure->0@,
                r,
            ),
    {
        match result {
            Err(error) => {
                if !same_text(self.role.as_str(), self.plan.role.as_str()) && fired && error.transport_failure().is_some() {
                    match &self.plan.peer_failure {
                        Some(failure) => {
                            return Err(self.injected_error(operation, failure.as_str()));
                        },
                        None => {},
                    }
                }
                Err(error)
            },
            other => other,
        }
    }
}

/// `r` is the injected failure `failure` of `role`'s `occurrence`-th `operation`.
pub open spec fn injected_failure<U>(
    role: Seq<char>,
    operation: FaultOperation,
    occurrence: usize,
    failure: Seq<char>,
    r: Result<U, RuntimeError>,
) -> bool {
    r matches Err(RuntimeError::InjectedFailure { role: ro, operation: op, occurrence: o, failure: f }) && ro@ == role
        && op@ == operation_name(operation) && o == occurrence && f@ == failure
}

/// What the peer of the faulty role reports of the inner result `inner`: the result
/// itself, or, once a transport failure met it and the plan names a peer failure, that
/// failure injected at this occurrence.
pub open spec fn peer_outcome<T, U>(
    t: FaultInjectingTransport<T>,
    operation: FaultOperation,
    occurrence: usize,
    inner: Result<U, RuntimeError>,
    r: Result<U, RuntimeError>,
) -> bool {
    ||| r == inner
    ||| inner is Err && t.role_view() != t.plan_view().role@ && failure_of(inner->Err_0) is Some
        && t.plan_view().peer_failure is Some && injected_failure(
        t.role_view(),
        operation,
        occurrence,
        t.plan_view().peer_failure->0@,
        r,
    )
}

/// The wrapper counts one `operation` and keeps its role, plan and flag.
pub open spec fn counted<T>(before: FaultInjectingTransport<T>, after: FaultInjectingTransport<T>, operation: FaultOperation) -> bool {
    &&& after.role_view() == before.role_view()
    &&& after.plan_view() == before.plan_view()
    &&& after.flag_view() == before.flag_view()
    &&& operation == FaultOperation::Send ==> after.sends_view() == before.sends_view().wrapping_add(1)
        && after.receives_view() == before.receives_view()
    &&& operation == FaultOperation::Receive ==> after.receives_view() == before.receives_view().wrapping_add(1)
        && after.sends_view() == before.sends_view()
}

/// The operation is the planned one of the planned role, at the planned occurrence, and
/// fails with the planned failure.
pub open spec fn fault_fired<T, U>(
    before: FaultInjectingTransport<T>,
    operation: FaultOperation,
    occurrence: usize,
    r: Result<U, RuntimeError>,
) -> bool {
    &&& before.role_view() == before.plan_view().role@
    &&& operation == before.plan_view().operation
    &&& before.plan_view().occurrence == occurrence
    &&& injected_failure(before.role_view(), operation, occurrence, before.plan_view().failure@, r)
}

impl<T: Transport> Transport for FaultInjectingTransport<T> {
    fn plan(&self) -> (r: &'static str)
        ensures
            call_ensures(T::plan, (self.inner_ref(),), r),
    {
        self.inner.plan()
    }

    /// Fails the planned send with the planned failure, aborting the inner transport;
    /// any other send goes to the inner transport, whose transport failure the peer of
    /// the faulty role reports as its peer failure.
    fn send(&mut self, envelope: &WireEnvelope) -> (r: Result<(), RuntimeError>)
        ensures
            counted(*old(self), *final(self), FaultOperation::Send),
            (fault_fired(*old(self), FaultOperation::Send, final(self).sends_view(), r)
                && (exists|m: &mut T| #[trigger] call_ensures(T::abort, (m,), ()) && mut_ref_current(m) == old(self).inner_view()
                    && mut_ref_future(m) == final(self).inner_view()))
            || exists|m: &mut T, inner: Result<(), RuntimeError>| #[trigger] call_ensures(T::send, (m, envelope), inner)
                && mut_ref_current(m) == old(self).inner_view() && mut_ref_future(m) == final(self).inner_view()
                && peer_outcome(*old(self), FaultOperation::Send, final(self).sends_view(), inner, r),
    {
        let already_fired = self.fired.load(Ordering::Relaxed);
        if self.should_inject(FaultOperation::Send, already_fired) {
            self.inner.abort();
            let failure = self.plan.failure.clone();
            return Err(self.injected_error(FaultOperation::Send, failure.as_str()));
        }
        let result = self.inner.send(envelope);
        let fired = self.fired.load(Ordering::Relaxed);
        self.map_peer_error(FaultOperation::Send, result, fired)
    }

    /// Fails the planned receive with the planned failure, aborting the inner transport;
    /// any other receive comes from the inner transport, whose transport failure the peer
    /// of the faulty role reports as its peer failure.
    fn receive(&mut self) -> (r: Result<WireEnvelope, RuntimeError>)
        ensures
            counted(*old(self), *final(self), FaultOperation::Receive),
            (fault_fired(*old(self), FaultOperation::Receive, final(self).receives_view(), r)
                && (exists|m: &mut T| #[trigger] call_ensures(T::abort, (m,), ()) && mut_ref_current(m) == old(self).inner_view()
                    && mut_ref_future(m) == final(self).inner_view()))
            || exists|m: &mut T, inner: Result<WireEnvelope, RuntimeError>| #[trigger] call_ensures(T::receive, (m,), inner)
                && mut_ref_current(m) == old(self).inner_view() && mut_ref_future(m) == final(self).inner_view()
                && peer_outcome(*old(self), FaultOperation::Receive, final(self).receives_view(), inner, r),
    {
        let already_fired = self.fired.load(Ordering::Relaxed);
        if self.should_inject(FaultOperation::Receive, already_fired) {
            self.inner.abort();
            let failure = self.plan.failure.clone();
            return Err(self.injected_error(FaultOperation::Receive, failure.as_str()));
        }
        let result = self.inner.receive();
        let fired = self.fired.load(Ordering::Relaxed);
        self.map_peer_error(FaultOperation::Receive, result, fired)
    }

    /// Closes the inner transport for `role`.
    fn finish(&mut self, role: &str) -> (r: Result<(), RuntimeError>)
        ensures
            final(self).role_view() == old(self).role_view(),
            final(self).plan_view() == old(self).plan_view(),
            final(self).flag_view() == old(self).flag_view(),
            final(self).sends_view() == old(self).sends_view(),
            final(self).receives_view() == old(self).receives_view(),
            exists|m: &mut T| #[trigger] call_ensures(T::finish, (m, role), r) && mut_ref_current(m)
                == old(self).inner_view() && mut_ref_future(m) == final(self).inner_view(),
    {
        self.inner.finish(role)
    }

    /// Aborts the inner transport.
    fn abort(&mut self)
        ensures
            final(self).role_view() == old(self).role_view(),
            final(self).plan_view() == old(self).plan_view(),
            final(self).flag_view() == old(self).flag_view(),
            final(self).sends_view() == old(self).sends_view(),
            final(self).receives_view() == old(self).receives_view(),
            (exists|m: &mut T| #[trigger] call_ensures(T::abort, (m,), ()) && mut_ref_current(m) == old(self).inner_view()
                    && mut_ref_future(m) == final(self).inner_view()),
    {
        self.inner.abort();
    }
}

} // verus!
