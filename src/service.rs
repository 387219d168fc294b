//! The remote execution service: the decisions it takes while it runs one
//! request, from admission to the reply.
use vstd::prelude::*;
use crate::request::{InvocationRequest, InvocationResult};

verus! {

/// The execution budget, in bytes, that each module instance is created with.
pub const INSTANCE_BUDGET: u32 = 65536;

/// Why the service could not run a request.
#[derive(Debug, PartialEq, Eq)]
pub enum ServiceError {
    /// The request carries no module bytes.
    EmptyModule,
    /// The request names no export.
    EmptyFunctionName,
    /// A fresh runtime could not be created.
    RuntimeCreation(String),
    /// The module could not be built from the request's bytes.
    ModuleConstruction(String),
    /// The module could not be instantiated.
    Instantiation(String),
    /// The module exports no function of the given name.
    FunctionNotFound(String),
    /// The call of the export failed.
    Invocation(String),
}

/// The stages of one request's run, in order.
#[derive(Clone, Copy, Debug, PartialEq, Eq)]
pub enum Stage {
    /// Create a fresh runtime, shared with no other request.
    CreateRuntime,
    /// Build the module from the request's bytes and name, with its WASI
    /// environment: the root preopen, the request's environment and arguments.
    LoadModule,
    /// Instantiate the module with the fixed budget.
    Instantiate,
    /// Look up the export named by the request.
    ResolveExport,
    /// Call the export with no arguments, and report its first 32-bit integer
    /// result, if it returns one.
    Invoke,
}

/// What the service does next for a request.
#[derive(Debug, PartialEq, Eq)]
pub enum Step {
    /// Carry out this stage and report its outcome.
    Perform(Stage),
    /// Send this reply; the request is done.
    Reply(Result<InvocationResult, ServiceError>),
}

/// The first step for a request.
pub open spec fn start_step(req: InvocationRequest) -> Step {
    if req.wasm_bytes@.len() == 0 {
        Step::Reply(Err(ServiceError::EmptyModule))
    } else if req.func_name@.len() == 0 {
        Step::Reply(Err(ServiceError::EmptyFunctionName))
    } else {
        Step::Perform(Stage::CreateRuntime)
    }
}

/// The error that a failed stage is reported as.
pub open spec fn stage_error(stage: Stage, func_name: String, msg: String) -> ServiceError {
    match stage {
        Stage::CreateRuntime => ServiceError::RuntimeCreation(msg),
        Stage::LoadModule => ServiceError::ModuleConstruction(msg),
        Stage::Instantiate => ServiceError::Instantiation(msg),
        Stage::ResolveExport => ServiceError::FunctionNotFound(func_name),
        Stage::Invoke => ServiceError::Invocation(msg),
    }
}

/// The status reported for an export that returned `value`: the value itself,
/// or 0 where the export returns no 32-bit integer.
pub open spec fn status_of(value: Option<i32>) -> i32 {
    match value {
        Some(v) => v,
        None => 0,
    }
}

/// The step after `stage` ended with `outcome`. On success, the outcome of
/// `Invoke` carries the export's return value; that of other stages, nothing
/// that is read.
pub open spec fn next_step(func_name: String, stage: Stage, outcome: Result<Option<i32>, String>) -> Step {
    match outcome {
        Err(msg) => Step::Reply(Err(stage_error(stage, func_name, msg))),
        Ok(value) => match stage {
            Stage::CreateRuntime => Step::Perform(Stage::LoadModule),
            Stage::LoadModule => Step::Perform(Stage::Instantiate),
            Stage::Instantiate => Step::Perform(Stage::ResolveExport),
            Stage::ResolveExport => Step::Perform(Stage::Invoke),
            Stage::Invoke => Step::Reply(Ok(InvocationResult { status: status_of(value) })),
        },
    }
}

/// The step reached from `step` when the stages performed report `outcomes`,
/// one after another; `None` where the outcomes run out before a reply.
pub open spec fn run_from(func_name: String, step: Step, outcomes: Seq<Result<Option<i32>, String>>) -> Option<Step>
    decreases outcomes.len(),
{
    match step {
        Step::Reply(_) => Some(step),
        Step::Perform(stage) => if outcomes.len() == 0 {
            None
        } else {
            run_from(func_name, next_step(func_name, stage, outcomes[0]), outcomes.drop_first())
        },
    }
}

/// The reply to `req` when its stages report `outcomes` in order.
pub open spec fn reply_of(req: InvocationRequest, outcomes: Seq<Result<Option<i32>, String>>) -> Option<Step> {
    run_from(req.func_name, start_step(req), outcomes)
}

/// The execution service. It keeps no state between requests: everything a run
/// needs is created for that run and dropped with it.
#[derive(Debug, Default)]
pub struct Device2Executer {}

impl Device2Executer {
    /// A service ready for requests.
    pub fn new() -> (r: Device2Executer)
        ensures
            r == (Device2Executer {}),
    {
        Device2Executer {}
    }

    /// The first step for a request: a typed rejection where it carries no
    /// module or no export name, else the creation of a fresh runtime.
    pub fn start(&self, req: &InvocationRequest) -> (r: Step)
        ensures
            r == start_step(*req),
    {
        if req.wasm_bytes.len() == 0 {
            Step::Reply(Err(ServiceError::EmptyModule))
        } else if req.func_name.as_str().unicode_len() == 0 {
            Step::Reply(Err(ServiceError::EmptyFunctionName))
        } else {
            Step::Perform(Stage::CreateRuntime)
        }
    }

    /// The step after `stage` ended with `outcome`: the next stage, a typed
    /// error for a failed one, or, once the export has returned, its return
    /// value as the status (0 where it returns no 32-bit integer).
    pub fn advance(&self, req: &InvocationRequest, stage: Stage, outcome: Result<Option<i32>, String>) -> (r: Step)
        ensures
            r == next_step(req.func_name, stage, outcome),
            stage == Stage::Invoke ==> match outcome {
                Ok(Some(v)) => r == Step::Reply(Ok(InvocationResult { status: v })),
                Ok(None) => r == Step::Reply(Ok(InvocationResult { status: 0 })),
                Err(_) => r is Reply,
            },
    {
        match outcome {
            Err(msg) => Step::Reply(
                Err(
                    match stage {
                        Stage::CreateRuntime => ServiceError::RuntimeCreation(msg),
                        Stage::LoadModule => ServiceError::ModuleConstruction(msg),
                        Stage::Instantiate => ServiceError::Instantiation(msg),
                        Stage::ResolveExport => ServiceError::FunctionNotFound(req.func_name.clone()),
                        Stage::Invoke => ServiceError::Invocation(msg),
                    },
                ),
            ),
            Ok(value) => match stage {
                Stage::CreateRuntime => Step::Perform(Stage::LoadModule),
                Stage::LoadModule => Step::Perform(Stage::Instantiate),
                Stage::Instantiate => Step::Perform(Stage::ResolveExport),
                Stage::ResolveExport => Step::Perform(Stage::Invoke),
                Stage::Invoke => {
                    let status: i32 = match value {
                        Some(v) => v,
                        None => 0,
                    };
                    Step::Reply(Ok(InvocationResult { status }))
                },
            },
        }
    }
}

/// A request without module bytes is rejected with a typed error before any
/// stage runs, and the service is left as it was: a well-formed request that
/// follows is taken up as on a fresh service.
pub proof fn lemma_empty_module_rejected(
    svc: Device2Executer,
    bad: InvocationRequest,
    good: InvocationRequest,
)
    requires
        bad.wasm_bytes@.len() == 0,
        good.well_formed(),
    ensures
        start_step(bad) == Step::Reply(Err(ServiceError::EmptyModule)),
        svc == (Device2Executer {}),
        start_step(good) == Step::Perform(Stage::CreateRuntime),
{
}

/// Any two services are interchangeable: they hold no state, so the steps they
/// take for a request, which `start` and `advance` give from the request and the
/// outcomes alone, are the same on each, and no run leaves anything behind.
pub proof fn lemma_services_are_interchangeable(a: Device2Executer, b: Device2Executer)
    ensures
        a == b,
        a == (Device2Executer {}),
{
}

/// A request whose stages all succeed is answered, after exactly the five
/// stages in order, with the value the export returned as its status.
pub proof fn lemma_all_stages_succeed(req: InvocationRequest, value: Option<i32>)
    requires
        req.well_formed(),
    ensures
        reply_of(req, seq![Ok(None), Ok(None), Ok(None), Ok(None), Ok(value)]) == Some(
            Step::Reply(Ok(InvocationResult { status: status_of(value) })),
        ),
{
    let o: Seq<Result<Option<i32>, String>> = seq![Ok(None), Ok(None), Ok(None), Ok(None), Ok(value)];
    assert(o.drop_first() =~= seq![Ok(None), Ok(None), Ok(None), Ok(value)]);
    assert(o.drop_first().drop_first() =~= seq![Ok(None), Ok(None), Ok(value)]);
    assert(o.drop_first().drop_first().drop_first() =~= seq![Ok(None), Ok(value)]);
    assert(o.drop_first().drop_first().drop_first().drop_first() =~= seq![Ok(value)]);
    assert(o.drop_first().drop_first().drop_first().drop_first().drop_first() =~= Seq::<Result<Option<i32>, String>>::empty());
    reveal_with_fuel(run_from, 6);
}

/// A module without the requested export is answered with a typed
/// "function not found" error that names the export.
pub proof fn lemma_missing_export_is_typed(req: InvocationRequest, msg: String)
    requires
        req.well_formed(),
    ensures
        reply_of(req, seq![Ok(None), Ok(None), Ok(None), Err(msg)]) == Some(
            Step::Reply(Err::<InvocationResult, ServiceError>(ServiceError::FunctionNotFound(req.func_name))),
        ),
{
    let o: Seq<Result<Option<i32>, String>> = seq![Ok(None), Ok(None), Ok(None), Err(msg)];
    assert(o.drop_first() =~= seq![Ok(None), Ok(None), Err(msg)]);
    assert(o.drop_first().drop_first() =~= seq![Ok(None), Err(msg)]);
    assert(o.drop_first().drop_first().drop_first() =~= seq![Err(msg)]);
    assert(o.drop_first().drop_first().drop_first().drop_first() =~= Seq::<Result<Option<i32>, String>>::empty());
    reveal_with_fuel(run_from, 5);
}

/// What the runtime is given for one request.
#[derive(Debug, PartialEq, Eq)]
pub struct WasiConfig {
    /// The directories opened to the module: the root filesystem.
    pub preopens: Vec<String>,
    /// The argument vector, verbatim.
    pub args: Vec<String>,
    /// The environment, verbatim.
    pub envs: Vec<String>,
    /// The module's name, as the request gives it.
    pub module_name: String,
    /// The budget the instance is created with.
    pub instance_budget: u32,
}

/// A copy of a list of strings.
fn copy_strings(v: &Vec<String>) -> (r: Vec<String>)
    ensures
        r@ == v@,
{
    let mut out: Vec<String> = Vec::new();
    let mut i: usize = 0;
    while i < v.len()
        invariant
            i <= v@.len(),
            out@ == v@.subrange(0, i as int),
        decreases v@.len() - i,
    {
        out.push(v[i].clone());
        i = i + 1;
        assert(out@ =~= v@.subrange(0, i as int));
    }
    assert(out@ =~= v@);
    out
}

/// The environment a request's module runs in: the root filesystem opened,
/// the request's arguments and environment passed on verbatim, its module
/// name, and the fixed instance budget.
pub fn wasi_config(req: &InvocationRequest) -> (r: WasiConfig)
    ensures
        r.preopens@.len() == 1,
        r.preopens@[0]@ == seq!['/'],
        r.args@ == req.args@,
        r.envs@ == req.envs@,
        r.module_name == req.module_name,
        r.instance_budget == INSTANCE_BUDGET,
{
    let root = String::from_str("/");
    proof {
        reveal_strlit("/");
    }
    let mut preopens: Vec<String> = Vec::new();
    preopens.push(root);
    WasiConfig {
        preopens,
        args: copy_strings(&req.args),
        envs: copy_strings(&req.envs),
        module_name: req.module_name.clone(),
        instance_budget: INSTANCE_BUDGET,
    }
}

} // verus!
