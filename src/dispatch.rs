//! The executors that the container runtime drives: what each exec does, and
//! how its outcome becomes the process's exit code.
use vstd::prelude::*;
use crate::classify::{Classification, ClassificationCache, UnsupportedReason, settle};
use crate::request::{Entrypoint, InvocationRequest, InvocationResult, RequestError, build_request, request_error, request_for};
use crate::service::ServiceError;

verus! {

/// The exit code of an exec whose WASM run failed, whatever the failure: the
/// conventional code of a process killed by a fatal signal.
pub const FAILURE_EXIT_CODE: i32 = 137;

/// Why an exec cannot go ahead.
#[derive(Debug, PartialEq, Eq)]
pub enum ExecError {
    /// The named engine cannot run this entry point, for the reason given.
    CantHandle { engine: String, reason: UnsupportedReason },
    /// The WASM entry point cannot be turned into a request.
    Request(RequestError),
}

/// Why a remote invocation brought no result.
#[derive(Debug, PartialEq, Eq)]
pub enum RemoteFailure {
    /// The remote endpoint could not be reached.
    Connection(String),
    /// The remote service reported a failure of its own.
    Remote(ServiceError),
    /// The reply could not be understood.
    Protocol(String),
}

/// What an offloading executor does for one exec.
#[derive(Debug, PartialEq, Eq)]
pub enum OffloadPlan {
    /// Hand the whole exec, unchanged, to the native executor.
    DelegateNative,
    /// Send this request to the remote host, once.
    Offload(InvocationRequest),
}

/// What a local executor does for one exec.
#[derive(Debug, PartialEq, Eq)]
pub enum LocalPlan {
    /// Hand the whole exec, unchanged, to the native executor.
    DelegateNative,
    /// Run the module with the local engine.
    RunWasm,
}

/// The capability error for an unsupported classification.
pub open spec fn cant_handle(engine: String, c: Classification) -> Option<ExecError> {
    match c {
        Classification::Unsupported(reason) => Some(ExecError::CantHandle { engine, reason }),
        _ => None,
    }
}

/// The exit code for the outcome of a WASM run: its status, or the failure code.
pub open spec fn exit_code_of<E>(outcome: Result<i32, E>) -> i32 {
    match outcome {
        Ok(status) => status,
        Err(_) => FAILURE_EXIT_CODE,
    }
}

/// Maps the outcome of a WASM run to the process's exit code.
pub fn exit_code<E>(outcome: &Result<i32, E>) -> (r: i32)
    ensures
        r == exit_code_of(*outcome),
{
    match outcome {
        Ok(status) => *status,
        Err(_) => FAILURE_EXIT_CODE,
    }
}

/// Maps the outcome of a remote invocation to the process's exit code.
pub fn remote_exit_code(outcome: &Result<InvocationResult, RemoteFailure>) -> (r: i32)
    ensures
        r == match *outcome {
            Ok(res) => res.status,
            Err(_) => FAILURE_EXIT_CODE,
        },
{
    match outcome {
        Ok(res) => res.status,
        Err(_) => FAILURE_EXIT_CODE,
    }
}

/// The error for a classification that cannot be run, naming the engine.
fn check_handled(engine: &String, c: &Classification) -> (r: Result<(), ExecError>)
    ensures
        match r {
            Ok(_) => cant_handle(*engine, *c) is None,
            Err(e) => cant_handle(*engine, *c) == Some(e),
        },
{
    match c {
        Classification::Unsupported(reason) => Err(
            ExecError::CantHandle { engine: engine.clone(), reason: reason.duplicate() },
        ),
        _ => Ok(()),
    }
}

/// An executor that sends WASM entry points to a remote host.
#[derive(Debug)]
pub struct DistributedExecuter {
    engine: String,
    inner: ClassificationCache,
}

impl DistributedExecuter {
    /// The engine's name.
    pub closed spec fn engine_name(self) -> String {
        self.engine
    }

    /// The classification this executor holds, once one is made.
    pub closed spec fn decision(self) -> Option<Classification> {
        self.inner.decision()
    }

    /// An executor for the named engine, with no classification made yet.
    pub fn new(engine: String) -> (r: DistributedExecuter)
        ensures
            r.engine_name() == engine,
            r.decision() is None,
    {
        DistributedExecuter { engine, inner: ClassificationCache::new() }
    }

    /// Tells whether the entry point still has to be probed.
    pub fn needs_probe(&self) -> (r: bool)
        ensures
            r == self.decision() is None,
    {
        self.inner.needs_probe()
    }

    /// The classification held, if one was made.
    pub fn classification(&self) -> (r: Option<Classification>)
        ensures
            r == self.decision(),
    {
        self.inner.get()
    }

    /// The classification of this executor's entry point: the one held, or
    /// `fresh` where none was made yet, which is then held for good.
    pub fn inner(&mut self, fresh: Classification) -> (r: Classification)
        ensures
            r == settle(old(self).decision(), fresh),
            final(self).decision() == Some(r),
            final(self).engine_name() == old(self).engine_name(),
    {
        self.inner.decide(fresh)
    }

    /// Whether this executor can run the entry point: a capability error naming
    /// the engine and the reason where it is unsupported.
    pub fn validate(&mut self, fresh: Classification) -> (r: Result<(), ExecError>)
        ensures
            final(self).decision() == Some(settle(old(self).decision(), fresh)),
            final(self).engine_name() == old(self).engine_name(),
            match r {
                Ok(_) => cant_handle(old(self).engine_name(), settle(old(self).decision(), fresh)) is None,
                Err(e) => cant_handle(old(self).engine_name(), settle(old(self).decision(), fresh)) == Some(e),
            },
    {
        let c = self.inner(fresh);
        check_handled(&self.engine, &c)
    }

    /// What one exec does: refuse an unsupported entry point, delegate a native
    /// one, or build the one request that offloads a WASM one.
    pub fn exec(&mut self, fresh: Classification, ep: Entrypoint) -> (r: Result<OffloadPlan, ExecError>)
        ensures
            final(self).decision() == Some(settle(old(self).decision(), fresh)),
            final(self).engine_name() == old(self).engine_name(),
            match settle(old(self).decision(), fresh) {
                Classification::Unsupported(reason) => r == Err::<OffloadPlan, ExecError>(
                    ExecError::CantHandle { engine: old(self).engine_name(), reason },
                ),
                Classification::Native => r == Ok::<OffloadPlan, ExecError>(OffloadPlan::DelegateNative),
                Classification::Wasm => match r {
                    Ok(OffloadPlan::Offload(req)) => request_for(ep, req),
                    Ok(OffloadPlan::DelegateNative) => false,
                    Err(ExecError::Request(e)) => request_error(ep) == Some(e),
                    Err(ExecError::CantHandle { .. }) => false,
                },
            },
    {
        let c = self.inner(fresh);
        match c {
            Classification::Unsupported(reason) => Err(
                ExecError::CantHandle { engine: self.engine.clone(), reason },
            ),
            Classification::Native => Ok(OffloadPlan::DelegateNative),
            Classification::Wasm => match build_request(ep) {
                Ok(req) => Ok(OffloadPlan::Offload(req)),
                Err(e) => Err(ExecError::Request(e)),
            },
        }
    }

    /// Accepts the environment that the container runtime hands over, and
    /// ignores it: a WASM run takes its environment from the entry point itself.
    pub fn setup_envs(&self, _envs: &Vec<(String, String)>) -> (r: Result<(), ExecError>)
        ensures
            r is Ok,
    {
        Ok(())
    }
}

/// An executor that runs WASM entry points with a local engine.
#[derive(Debug)]
pub struct Executor {
    engine: String,
    inner: ClassificationCache,
}

impl Executor {
    /// The engine's name.
    pub closed spec fn engine_name(self) -> String {
        self.engine
    }

    /// The classification this executor holds, once one is made.
    pub closed spec fn decision(self) -> Option<Classification> {
        self.inner.decision()
    }

    /// An executor for the named engine, with no classification made yet.
    pub fn new(engine: String) -> (r: Executor)
        ensures
            r.engine_name() == engine,
            r.decision() is None,
    {
        Executor { engine, inner: ClassificationCache::new() }
    }

    /// Tells whether the entry point still has to be probed.
    pub fn needs_probe(&self) -> (r: bool)
        ensures
            r == self.decision() is None,
    {
        self.inner.needs_probe()
    }

    /// The classification held, if one was made.
    pub fn classification(&self) -> (r: Option<Classification>)
        ensures
            r == self.decision(),
    {
        self.inner.get()
    }

    /// The classification of this executor's entry point: the one held, or
    /// `fresh` where none was made yet, which is then held for good.
    pub fn inner(&mut self, fresh: Classification) -> (r: Classification)
        ensures
            r == settle(old(self).decision(), fresh),
            final(self).decision() == Some(r),
            final(self).engine_name() == old(self).engine_name(),
    {
        self.inner.decide(fresh)
    }

    /// Whether this executor can run the entry point: a capability error naming
    /// the engine and the reason where it is unsupported.
    pub fn validate(&mut self, fresh: Classification) -> (r: Result<(), ExecError>)
        ensures
            final(self).decision() == Some(settle(old(self).decision(), fresh)),
            final(self).engine_name() == old(self).engine_name(),
            match r {
                Ok(_) => cant_handle(old(self).engine_name(), settle(old(self).decision(), fresh)) is None,
                Err(e) => cant_handle(old(self).engine_name(), settle(old(self).decision(), fresh)) == Some(e),
            },
    {
        let c = self.inner(fresh);
        check_handled(&self.engine, &c)
    }

    /// What one exec does: refuse an unsupported entry point, delegate a native
    /// one, or run a WASM one with the local engine.
    pub fn exec(&mut self, fresh: Classification) -> (r: Result<LocalPlan, ExecError>)
        ensures
            final(self).decision() == Some(settle(old(self).decision(), fresh)),
            final(self).engine_name() == old(self).engine_name(),
            r == match settle(old(self).decision(), fresh) {
                Classification::Unsupported(reason) => Err::<LocalPlan, ExecError>(
                    ExecError::CantHandle { engine: old(self).engine_name(), reason },
                ),
                Classification::Native => Ok::<LocalPlan, ExecError>(LocalPlan::DelegateNative),
                Classification::Wasm => Ok::<LocalPlan, ExecError>(LocalPlan::RunWasm),
            },
    {
        let c = self.inner(fresh);
        match c {
            Classification::Unsupported(reason) => Err(
                ExecError::CantHandle { engine: self.engine.clone(), reason },
            ),
            Classification::Native => Ok(LocalPlan::DelegateNative),
            Classification::Wasm => Ok(LocalPlan::RunWasm),
        }
    }

    /// Accepts the environment that the container runtime hands over, and
    /// ignores it: a WASM run takes its environment from the entry point itself.
    pub fn setup_envs(&self, _envs: &Vec<(String, String)>) -> (r: Result<(), ExecError>)
        ensures
            r is Ok,
    {
        Ok(())
    }
}

} // verus!
