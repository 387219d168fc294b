//! The invocation request that carries a WASM entry point to the remote host.
use vstd::prelude::*;

verus! {

/// A WASM entry point as the container context supplies it.
#[derive(Debug, PartialEq, Eq)]
pub struct Entrypoint {
    /// The module's bytes as the entry point's source yielded them, or why it could not.
    pub wasm_bytes: Result<Vec<u8>, String>,
    /// The export to call.
    pub func: Option<String>,
    /// The module's name.
    pub name: Option<String>,
    /// The argument vector, in order.
    pub args: Vec<String>,
    /// The environment, in order: each key with its value, or with none where
    /// the entry carries no `=`.
    pub envs: Vec<(String, Option<String>)>,
}

/// The request sent for one container exec.
#[derive(Debug, PartialEq, Eq)]
pub struct InvocationRequest {
    pub args: Vec<String>,
    /// Each entry in `KEY=VALUE` form.
    pub envs: Vec<String>,
    pub wasm_bytes: Vec<u8>,
    pub func_name: String,
    pub module_name: String,
}

/// The reply to an invocation request.
#[derive(Clone, Copy, Debug, PartialEq, Eq)]
pub struct InvocationResult {
    pub status: i32,
}

/// Why an entry point cannot be turned into a request.
#[derive(Debug, PartialEq, Eq)]
pub enum RequestError {
    /// The entry point's source yielded no bytes, with the reason given.
    ModuleUnreadable(String),
    /// The entry point's source yielded an empty module.
    EmptyModule,
    /// The entry point names no export to call.
    MissingFunction,
}

/// The module name used when the entry point gives none.
pub open spec fn default_module_name() -> Seq<char> {
    seq!['m', 'a', 'i', 'n']
}

/// An environment entry in its wire form: `KEY=VALUE`, or the key alone where
/// it has no value.
pub open spec fn env_line(entry: (String, Option<String>)) -> Seq<char> {
    match entry.1 {
        Some(value) => entry.0@ + seq!['='] + value@,
        None => entry.0@,
    }
}

/// The wire form of each environment pair, in order.
pub open spec fn env_lines(envs: Seq<(String, Option<String>)>) -> Seq<Seq<char>> {
    Seq::new(envs.len(), |i: int| env_line(envs[i]))
}

impl InvocationRequest {
    /// The request's own invariant: a module to load and an export to call.
    pub open spec fn well_formed(self) -> bool {
        self.wasm_bytes@.len() > 0 && self.func_name@.len() > 0
    }

    /// The wire form of the environment, as a sequence of strings.
    pub open spec fn env_view(self) -> Seq<Seq<char>> {
        Seq::new(self.envs@.len(), |i: int| self.envs@[i]@)
    }
}

/// The error, if any, on which building a request from `ep` stops.
pub open spec fn request_error(ep: Entrypoint) -> Option<RequestError> {
    match ep.wasm_bytes {
        Err(e) => Some(RequestError::ModuleUnreadable(e)),
        Ok(b) => if b@.len() == 0 {
            Some(RequestError::EmptyModule)
        } else {
            match ep.func {
                None => Some(RequestError::MissingFunction),
                Some(f) => if f@.len() == 0 {
                    Some(RequestError::MissingFunction)
                } else {
                    None
                },
            }
        },
    }
}

/// `req` is the request built from `ep`: its bytes and export as given, the
/// module name given or `main`, the arguments verbatim, the environment joined.
pub open spec fn request_for(ep: Entrypoint, req: InvocationRequest) -> bool {
    &&& request_error(ep) is None
    &&& req.well_formed()
    &&& ep.wasm_bytes == Ok::<Vec<u8>, String>(req.wasm_bytes)
    &&& ep.func == Some(req.func_name)
    &&& req.module_name@ == match ep.name {
        Some(n) => n@,
        None => default_module_name(),
    }
    &&& req.args@ == ep.args@
    &&& req.env_view() == env_lines(ep.envs@)
}

/// Joins a key and a value as `KEY=VALUE`; a key without a value stays as it is.
pub fn env_entry(key: &String, value: &Option<String>) -> (r: String)
    ensures
        r@ == env_line((*key, *value)),
{
    let mut line = key.clone();
    if let Some(v) = value {
        line.append("=");
        line.append(v.as_str());
        proof {
            reveal_strlit("=");
        }
    }
    line
}

/// Joins each environment pair as `KEY=VALUE`, keeping their order.
pub fn env_entries(envs: &Vec<(String, Option<String>)>) -> (r: Vec<String>)
    ensures
        r@.len() == envs@.len(),
        forall|i: int| 0 <= i < envs@.len() ==> #[trigger] r@[i]@ == env_line(envs@[i]),
{
    let mut out: Vec<String> = Vec::new();
    let mut i: usize = 0;
    while i < envs.len()
        invariant
            i <= envs@.len(),
            out@.len() == i,
            forall|j: int| 0 <= j < i ==> #[trigger] out@[j]@ == env_line(envs@[j]),
        decreases envs@.len() - i,
    {
        let line = env_entry(&envs[i].0, &envs[i].1);
        out.push(line);
        i = i + 1;
    }
    out
}

/// Builds the request for a WASM entry point.
///
/// The module name is `main` where the entry point gives none; the arguments
/// are carried as they are, and the environment in `KEY=VALUE` form.
pub fn build_request(ep: Entrypoint) -> (r: Result<InvocationRequest, RequestError>)
    ensures
        match r {
            Ok(req) => request_for(ep, req),
            Err(e) => request_error(ep) == Some(e),
        },
{
    let envs = env_entries(&ep.envs);
    let Entrypoint { wasm_bytes, func, name, args, envs: _ } = ep;
    let wasm_bytes = match wasm_bytes {
        Err(e) => {
            return Err(RequestError::ModuleUnreadable(e));
        },
        Ok(b) => b,
    };
    if wasm_bytes.len() == 0 {
        return Err(RequestError::EmptyModule);
    }
    let func_name = match func {
        None => {
            return Err(RequestError::MissingFunction);
        },
        Some(f) => f,
    };
    if func_name.as_str().unicode_len() == 0 {
        return Err(RequestError::MissingFunction);
    }
    let module_name = match name {
        Some(n) => n,
        None => {
            let n = String::from_str("main");
            proof {
                reveal_strlit("main");
            }
            n
        },
    };
    let req = InvocationRequest { args, envs, wasm_bytes, func_name, module_name };
    assert(req.env_view() =~= env_lines(ep.envs@));
    assert(request_error(ep) is None);
    assert(req.well_formed());
    assert(ep.wasm_bytes == Ok::<Vec<u8>, String>(req.wasm_bytes));
    assert(ep.func == Some(req.func_name));
    assert(req.args@ == ep.args@);
    assert(req.module_name@ == match ep.name {
        Some(n) => n@,
        None => default_module_name(),
    });
    Ok(req)
}

} // verus!
