//! The blocking bridge for asynchronous steps.
//!
//! A deferred computation handed to an `_async` transition is driven to
//! completion on a private, single-use, single-thread cooperative scheduler,
//! and the calling thread blocks until it resolves. No scheduler instance is
//! shared or reused across steps, so each resolution is independently scoped.

use vstd::prelude::*;
use core::future::Future;
use vstd::future::FutureAdditionalSpecFns;

verus! {

#[verifier::external_type_specification]
#[verifier::external_body]
pub struct ExRuntime(tokio::runtime::Runtime);

/// Relies on tokio::runtime::Builder: `new_current_thread` selects a
/// scheduler that runs futures on the thread that blocks on them,
/// `enable_all` switches on the runtime's drivers, and `build` assembles the
/// runtime. `build` returns an error only when the operating system refuses
/// the runtime's resources; this call then aborts, as setting a scenario up
/// without a scheduler cannot proceed.
#[verifier::external_body]
fn get_current_thread() -> tokio::runtime::Runtime {
    tokio::runtime::Builder::new_current_thread()
        .enable_all()
        .build()
        .unwrap()
}

/// Relies on tokio::runtime::Runtime::block_on: it blocks the calling thread,
/// drives `fut` to completion, and returns the value the future resolved to,
/// which is written `fut@`. `block_on` aborts if the future itself panics, and
/// must not be called from within an asynchronous context; this library only
/// reaches it from its blocking call surface.
#[verifier::external_body]
fn block_on<Fut: Future>(runtime: tokio::runtime::Runtime, fut: Fut) -> (r: Fut::Output)
    ensures
        r == fut@,
{
    runtime.block_on(fut)
}

/// Drives `fut` to completion on a scheduler created for this one call and
/// discarded afterwards, and returns the value it resolved to.
pub(crate) fn resolve<Fut: Future>(fut: Fut) -> (r: Fut::Output)
    ensures
        r == fut@,
{
    block_on(get_current_thread(), fut)
}

} // verus!
