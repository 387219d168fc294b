use wasm_offload::dispatch::{remote_exit_code, RemoteFailure};
use wasm_offload::request::{InvocationRequest, InvocationResult};
use wasm_offload::service::{wasi_config, Device2Executer, ServiceError, Stage, Step, INSTANCE_BUDGET};

fn request(bytes: Vec<u8>, func: &str) -> InvocationRequest {
    InvocationRequest {
        args: vec!["m.wasm".to_string()],
        envs: vec!["A=1".to_string()],
        wasm_bytes: bytes,
        func_name: func.to_string(),
        module_name: "main".to_string(),
    }
}

fn wasm() -> Vec<u8> {
    vec![0x00, 0x61, 0x73, 0x6d, 0x01, 0x00, 0x00, 0x00]
}

const ORDER: [Stage; 5] = [
    Stage::CreateRuntime,
    Stage::LoadModule,
    Stage::Instantiate,
    Stage::ResolveExport,
    Stage::Invoke,
];

/// Runs a request through the service with the given stage outcomes.
fn run(svc: &Device2Executer, req: &InvocationRequest, outcomes: &[Result<Option<i32>, String>]) -> Step {
    let mut step = svc.start(req);
    let mut i: usize = 0;
    while let Step::Perform(stage) = step {
        assert_eq!(stage, ORDER[i]);
        step = svc.advance(req, stage, outcomes[i].clone());
        i += 1;
    }
    step
}

#[test]
fn empty_module_is_rejected_and_service_goes_on() {
    let svc = Device2Executer::new();
    let bad = request(Vec::new(), "add_one");
    assert_eq!(svc.start(&bad), Step::Reply(Err(ServiceError::EmptyModule)));
    let good = request(wasm(), "add_one");
    assert_eq!(svc.start(&good), Step::Perform(Stage::CreateRuntime));
}

#[test]
fn empty_function_name_is_rejected() {
    let svc = Device2Executer::new();
    assert_eq!(
        svc.start(&request(wasm(), "")),
        Step::Reply(Err(ServiceError::EmptyFunctionName))
    );
}

#[test]
fn successful_run_replies_status_zero() {
    let svc = Device2Executer::new();
    let req = request(wasm(), "add_one");
    let ok: Vec<Result<Option<i32>, String>> = vec![Ok(None); 5];
    let step = run(&svc, &req, &ok);
    assert_eq!(step, Step::Reply(Ok(InvocationResult { status: 0 })));
    assert_eq!(remote_exit_code(&Ok(InvocationResult { status: 0 })), 0);
    assert_eq!(INSTANCE_BUDGET, 64 * 1024);
}

#[test]
fn missing_export_is_function_not_found() {
    let svc = Device2Executer::new();
    let req = request(wasm(), "missing");
    let outcomes = vec![Ok(None), Ok(None), Ok(None), Err("no export".to_string())];
    let step = run(&svc, &req, &outcomes);
    assert_eq!(step, Step::Reply(Err(ServiceError::FunctionNotFound("missing".to_string()))));
    let code = remote_exit_code(&Err(RemoteFailure::Remote(ServiceError::FunctionNotFound(
        "missing".to_string(),
    ))));
    assert_ne!(code, 0);
}

#[test]
fn each_stage_failure_is_typed() {
    let svc = Device2Executer::new();
    let req = request(wasm(), "f");
    let e = || Err("x".to_string());
    assert_eq!(
        svc.advance(&req, Stage::CreateRuntime, e()),
        Step::Reply(Err(ServiceError::RuntimeCreation("x".to_string())))
    );
    assert_eq!(
        svc.advance(&req, Stage::LoadModule, e()),
        Step::Reply(Err(ServiceError::ModuleConstruction("x".to_string())))
    );
    assert_eq!(
        svc.advance(&req, Stage::Instantiate, e()),
        Step::Reply(Err(ServiceError::Instantiation("x".to_string())))
    );
    assert_eq!(
        svc.advance(&req, Stage::Invoke, e()),
        Step::Reply(Err(ServiceError::Invocation("x".to_string())))
    );
}

#[test]
fn two_fresh_services_answer_alike() {
    let req = request(wasm(), "add_one");
    let ok: Vec<Result<Option<i32>, String>> = vec![Ok(None); 5];
    let first = run(&Device2Executer::new(), &req, &ok);
    let second = run(&Device2Executer::new(), &req, &ok);
    assert_eq!(first, second);
    let bad = vec![Ok(None), Err("corrupt".to_string())];
    let a = run(&Device2Executer::new(), &req, &bad);
    let b = run(&Device2Executer::default(), &req, &bad);
    assert_eq!(a, b);
    assert_eq!(a, Step::Reply(Err(ServiceError::ModuleConstruction("corrupt".to_string()))));
}

#[test]
fn export_return_value_is_the_status() {
    let svc = Device2Executer::new();
    let req = request(wasm(), "add_one");
    let outcomes = vec![Ok(None), Ok(None), Ok(None), Ok(None), Ok(Some(5))];
    let step = run(&svc, &req, &outcomes);
    assert_eq!(step, Step::Reply(Ok(InvocationResult { status: 5 })));
    assert_eq!(
        svc.advance(&req, Stage::Invoke, Ok(Some(-1))),
        Step::Reply(Ok(InvocationResult { status: -1 }))
    );
    assert_eq!(remote_exit_code(&Ok(InvocationResult { status: 5 })), 5);
}

#[test]
fn wasi_config_passes_request_through() {
    let mut req = request(wasm(), "f");
    req.args = vec!["a".to_string(), "b c".to_string()];
    req.envs = vec!["X=1".to_string(), "BARE".to_string()];
    req.module_name = "calc".to_string();
    let cfg = wasi_config(&req);
    assert_eq!(cfg.preopens, vec!["/".to_string()]);
    assert_eq!(cfg.args, req.args);
    assert_eq!(cfg.envs, req.envs);
    assert_eq!(cfg.module_name, "calc");
    assert_eq!(cfg.instance_budget, 65536);
}
