//! A fluent Given-When-Then scenario builder.
//!
//! A scenario is a chain of stages. Each stage owns exactly one payload
//! value; every transition consumes the stage, applies a caller-supplied
//! function to the payload, and returns the next stage wrapping the
//! function's result. The narrative order — setup (`given`), action
//! (`when`), assertion (`then`) — is enforced by the type system: each
//! stage type only offers the transitions that are legal at its position,
//! so an out-of-order chain does not compile.

use vstd::prelude::*;
use core::future::Future;
use vstd::future::FutureAdditionalSpecFns;

mod runtime;

verus! {

/// The entry point of a scenario: `Kitten::given` and `Kitten::given_async`
/// start a chain.
pub struct Kitten;

/// The setup stage, holding the payload produced by `given` and each
/// subsequent `and`. Offers `and`/`and_async` to extend the setup and
/// `when`/`when_async` to move on to the action.
pub struct GivenAnd<T> {
    data: T,
}

/// The action stage, holding the payload produced by `when` and each
/// subsequent `and`. Offers `and`/`and_async` to refine the outcome and
/// `then`/`then_async` to move on to the assertions.
pub struct When<T> {
    data: T,
}

/// The assertion stage, holding the payload produced by `then` and each
/// subsequent `and`. Offers only `and`/`and_async`: a scenario ends here.
pub struct Then<T> {
    data: T,
}

impl<T> GivenAnd<T> {
    /// The payload this stage holds.
    pub closed spec fn payload(self) -> T {
        self.data
    }

    /// Consumes the stage and hands its payload back.
    pub fn into_payload(self) -> (r: T)
        ensures
            r == self.payload(),
    {
        self.data
    }
}

impl<T> When<T> {
    /// The payload this stage holds.
    pub closed spec fn payload(self) -> T {
        self.data
    }

    /// Consumes the stage and hands its payload back.
    pub fn into_payload(self) -> (r: T)
        ensures
            r == self.payload(),
    {
        self.data
    }
}

impl<T> Then<T> {
    /// The payload this stage holds.
    pub closed spec fn payload(self) -> T {
        self.data
    }

    /// Consumes the stage and hands its payload back.
    pub fn into_payload(self) -> (r: T)
        ensures
            r == self.payload(),
    {
        self.data
    }
}

/// The payload of a freshly started scenario is exactly the setup function's
/// return value, unmodified: whenever `function` admits only `value` as a
/// result, the stage `given(function)` returns holds `value` — for every
/// payload type.
pub proof fn lemma_given_payload_is_the_functions_value<R, F: Fn() -> R>(
    function: F,
    stage_payload: R,
    value: R,
)
    requires
        call_ensures(function, (), stage_payload),
        forall|ret: R| call_ensures(function, (), ret) ==> ret == value,
    ensures
        stage_payload == value,
{
}

/// Each transition passes the stage's payload to its supplied function and
/// holds that function's result, nothing else: whenever `function` admits
/// only `value` as a result on `input`, a transition from a stage holding
/// `input` returns a stage holding `value`. Chained stepwise, this pins every
/// payload of a scenario to the supplied functions applied in source order.
pub proof fn lemma_step_payload_is_the_functions_value<I, R, F: Fn(I) -> R>(
    function: F,
    input: I,
    stage_payload: R,
    value: R,
)
    requires
        call_ensures(function, (input,), stage_payload),
        forall|ret: R| call_ensures(function, (input,), ret) ==> ret == value,
    ensures
        stage_payload == value,
{
}

impl Kitten {
    /// Starts a scenario: invokes `function` once, with no arguments, and
    /// wraps its result as the first stage's payload.
    pub fn given<R, F: Fn() -> R>(function: F) -> (r: GivenAnd<R>)
        requires
            call_requires(function, ()),
        ensures
            call_ensures(function, (), r.payload()),
    {
        let result = function();
        GivenAnd { data: result }
    }

    /// Starts a scenario from a deferred computation: invokes `f` once, then
    /// blocks until the computation it returned resolves; the resolved value
    /// becomes the first stage's payload.
    pub fn given_async<R, Fut: Future<Output = R>, F: FnOnce() -> Fut>(f: F) -> (r: GivenAnd<R>)
        requires
            call_requires(f, ()),
        ensures
            exists|fut: Fut| #[trigger] call_ensures(f, (), fut) && r.payload() == fut@,
    {
        let fut = f();
        let data = runtime::resolve(fut);
        GivenAnd { data }
    }
}

impl<I> GivenAnd<I> {
    /// Extends the setup: applies `function` to the payload and stays in the
    /// setup stage, now holding the function's result.
    pub fn and<R, F: Fn(I) -> R>(self, function: F) -> (r: GivenAnd<R>)
        requires
            call_requires(function, (self.payload(),)),
        ensures
            call_ensures(function, (self.payload(),), r.payload()),
    {
        GivenAnd { data: function(self.data) }
    }

    /// Performs the action under test: applies `function` to the payload and
    /// moves to the action stage, holding the function's result.
    pub fn when<R, F: Fn(I) -> R>(self, function: F) -> (r: When<R>)
        requires
            call_requires(function, (self.payload(),)),
        ensures
            call_ensures(function, (self.payload(),), r.payload()),
    {
        When { data: function(self.data) }
    }

    /// Extends the setup with a deferred computation: invokes `f` once on the
    /// payload, blocks until the computation it returned resolves, and stays
    /// in the setup stage, now holding the resolved value.
    pub fn and_async<R, Fut: Future<Output = R>, F: FnOnce(I) -> Fut>(self, f: F) -> (r: GivenAnd<R>)
        requires
            call_requires(f, (self.payload(),)),
        ensures
            exists|fut: Fut|
                #[trigger] call_ensures(f, (self.payload(),), fut) && r.payload() == fut@,
    {
        let fut = f(self.data);
        let data = runtime::resolve(fut);
        GivenAnd { data }
    }

    /// Performs the action under test as a deferred computation: invokes `f`
    /// once on the payload, blocks until the computation it returned
    /// resolves, and moves to the action stage, holding the resolved value.
    pub fn when_async<R, Fut: Future<Output = R>, F: FnOnce(I) -> Fut>(self, f: F) -> (r: When<R>)
        requires
            call_requires(f, (self.payload(),)),
        ensures
            exists|fut: Fut|
                #[trigger] call_ensures(f, (self.payload(),), fut) && r.payload() == fut@,
    {
        let fut = f(self.data);
        let data = runtime::resolve(fut);
        When { data }
    }
}

impl<I> When<I> {
    /// Refines the outcome: applies `function` to the payload and stays in
    /// the action stage, now holding the function's result.
    pub fn and<R, F: Fn(I) -> R>(self, function: F) -> (r: When<R>)
        requires
            call_requires(function, (self.payload(),)),
        ensures
            call_ensures(function, (self.payload(),), r.payload()),
    {
        When { data: function(self.data) }
    }

    /// Makes the first assertion: applies `function` to the payload and moves
    /// to the assertion stage, holding the function's result.
    pub fn then<R, F: Fn(I) -> R>(self, function: F) -> (r: Then<R>)
        requires
            call_requires(function, (self.payload(),)),
        ensures
            call_ensures(function, (self.payload(),), r.payload()),
    {
        Then { data: function(self.data) }
    }

    /// Refines the outcome with a deferred computation: invokes `f` once on
    /// the payload, blocks until the computation it returned resolves, and
    /// stays in the action stage, now holding the resolved value.
    pub fn and_async<R, Fut: Future<Output = R>, F: FnOnce(I) -> Fut>(self, f: F) -> (r: When<R>)
        requires
            call_requires(f, (self.payload(),)),
        ensures
            exists|fut: Fut|
                #[trigger] call_ensures(f, (self.payload(),), fut) && r.payload() == fut@,
    {
        let fut = f(self.data);
        let data = runtime::resolve(fut);
        When { data }
    }

    /// Makes the first assertion as a deferred computation: invokes `f` once
    /// on the payload, blocks until the computation it returned resolves, and
    /// moves to the assertion stage, holding the resolved value.
    pub fn then_async<R, Fut: Future<Output = R>, F: FnOnce(I) -> Fut>(self, f: F) -> (r: Then<R>)
        requires
            call_requires(f, (self.payload(),)),
        ensures
            exists|fut: Fut|
                #[trigger] call_ensures(f, (self.payload(),), fut) && r.payload() == fut@,
    {
        let fut = f(self.data);
        let data = runtime::resolve(fut);
        Then { data }
    }
}

impl<I> Then<I> {
    /// Chains a further assertion: applies `function` to the payload and
    /// stays in the assertion stage, now holding the function's result.
    pub fn and<R, F: Fn(I) -> R>(self, function: F) -> (r: Then<R>)
        requires
            call_requires(function, (self.payload(),)),
        ensures
            call_ensures(function, (self.payload(),), r.payload()),
    {
        Then { data: function(self.data) }
    }

    /// Chains a further assertion as a deferred computation: invokes `f` once
    /// on the payload, blocks until the computation it returned resolves, and
    /// stays in the assertion stage, now holding the resolved value.
    pub fn and_async<R, Fut: Future<Output = R>, F: FnOnce(I) -> Fut>(self, f: F) -> (r: Then<R>)
        requires
            call_requires(f, (self.payload(),)),
        ensures
            exists|fut: Fut|
                #[trigger] call_ensures(f, (self.payload(),), fut) && r.payload() == fut@,
    {
        let fut = f(self.data);
        let data = runtime::resolve(fut);
        Then { data }
    }
}

} // verus!
