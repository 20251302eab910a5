use vstd::prelude::*;
use vstd::string::*;

use crate::command::{
    build_args,
    command_line,
    is_decimal,
    opt_view,
    strings_view,
    RelayOperation,
    RELAY_COUNT,
};
use crate::resolver::{resolve_post, Resolver};

verus! {

/// Why an operation failed, by the stage that failed.
#[derive(Debug, Clone)]
pub enum BridgeError {
    /// The controller executable was not found.
    Resolution(String),
    /// A parameter was out of range; nothing was started.
    Validation(String),
    /// The executable was found but could not be started.
    Launch(String),
}

impl BridgeError {
    pub open spec fn text(&self) -> Seq<char> {
        match self {
            BridgeError::Resolution(m) => m@,
            BridgeError::Validation(m) => m@,
            BridgeError::Launch(m) => m@,
        }
    }

    /// The error's description.
    pub fn message(&self) -> (r: String)
        ensures
            r@ == self.text(),
    {
        match self {
            BridgeError::Resolution(m) => m.clone(),
            BridgeError::Validation(m) => m.clone(),
            BridgeError::Launch(m) => m.clone(),
        }
    }
}

/// A run of the controller executable, ready to be started.
#[derive(Debug, Clone)]
pub struct Invocation {
    pub program: String,
    pub args: Vec<String>,
}

pub open spec fn relay_range_message() -> Seq<char> {
    "Relay number must be 1..8"@
}

pub open spec fn seconds_message() -> Seq<char> {
    "Seconds must be a plain decimal number"@
}

pub open spec fn launch_message(path: Seq<char>, cause: Seq<char>) -> Seq<char> {
    "Failed to run "@ + path + ": "@ + cause
}

/// The failure to start `path`, for the reason `cause`.
pub fn launch_error(path: &str, cause: &str) -> (r: BridgeError)
    ensures
        r is Launch,
        r.text() == launch_message(path@, cause@),
{
    let mut m = String::from_str("Failed to run ");
    m.append(path);
    m.append(": ");
    m.append(cause);
    BridgeError::Launch(m)
}

/// What `prepare` does: resolve the executable as `Resolver::resolve` does
/// and, once it is found, hand it the command line of `op` on `port`.
pub open spec fn prepared(
    before: Resolver,
    after: Resolver,
    paths: Seq<Seq<char>>,
    op: RelayOperation,
    port: Option<Seq<char>>,
    r: Result<Invocation, BridgeError>,
) -> bool {
    match r {
        Ok(inv) => resolve_post(before, after, paths, Ok(inv.program)) && strings_view(inv.args@)
            == command_line(op, port),
        Err(BridgeError::Resolution(m)) => resolve_post(before, after, paths, Err(m)),
        Err(_) => false,
    }
}

/// Resolves the executable among `candidates` and builds the command line of
/// `op` on `port`.
pub fn prepare(
    resolver: &mut Resolver,
    candidates: &Vec<String>,
    op: RelayOperation,
    port: Option<String>,
) -> (r: Result<Invocation, BridgeError>)
    requires
        op.wf(),
    ensures
        prepared(*old(resolver), *final(resolver), strings_view(candidates@), op, opt_view(port), r),
{
    match resolver.resolve(candidates) {
        Ok(program) => Ok(Invocation { program, args: build_args(op, port) }),
        Err(m) => Err(BridgeError::Resolution(m)),
    }
}

/// Lists the serial ports the controller can see.
pub fn relay_list_ports(resolver: &mut Resolver, candidates: &Vec<String>) -> (r: Result<
    Invocation,
    BridgeError,
>)
    ensures
        prepared(
            *old(resolver),
            *final(resolver),
            strings_view(candidates@),
            RelayOperation::ListPorts,
            None,
            r,
        ),
{
    prepare(resolver, candidates, RelayOperation::ListPorts, None)
}

/// Asks the controller for the state of `target`.
pub fn relay_status(
    resolver: &mut Resolver,
    candidates: &Vec<String>,
    port: Option<String>,
    target: String,
) -> (r: Result<Invocation, BridgeError>)
    ensures
        prepared(
            *old(resolver),
            *final(resolver),
            strings_view(candidates@),
            RelayOperation::Status { target },
            opt_view(port),
            r,
        ),
{
    prepare(resolver, candidates, RelayOperation::Status { target }, port)
}

/// Checks that a duration, when given, is in plain decimal form.
fn check_seconds(seconds: &Option<String>) -> (r: bool)
    ensures
        r == crate::command::seconds_ok(*seconds),
{
    match seconds {
        Some(s) => is_decimal(s.as_str()),
        None => true,
    }
}

/// Sets relay `relay` (1 to 8) to `state`, for `seconds` if given. An index
/// out of range, or a duration not in plain decimal form, is refused before
/// anything is looked up or started.
pub fn relay_set(
    resolver: &mut Resolver,
    candidates: &Vec<String>,
    port: Option<String>,
    relay: u8,
    state: String,
    seconds: Option<String>,
) -> (r: Result<Invocation, BridgeError>)
    ensures
        !(1 <= relay <= RELAY_COUNT) ==> r is Err && r->Err_0 is Validation && r->Err_0.text()
            == relay_range_message() && *final(resolver) == *old(resolver),
        1 <= relay <= RELAY_COUNT && !crate::command::seconds_ok(seconds) ==> r is Err
            && r->Err_0 is Validation && r->Err_0.text() == seconds_message() && *final(resolver)
            == *old(resolver),
        1 <= relay <= RELAY_COUNT && crate::command::seconds_ok(seconds) ==> prepared(
            *old(resolver),
            *final(resolver),
            strings_view(candidates@),
            RelayOperation::SetRelay { relay, state, seconds },
            opt_view(port),
            r,
        ),
{
    if relay < 1 || relay > RELAY_COUNT {
        return Err(BridgeError::Validation(String::from_str("Relay number must be 1..8")));
    }
    if !check_seconds(&seconds) {
        return Err(
            BridgeError::Validation(String::from_str("Seconds must be a plain decimal number")),
        );
    }
    prepare(resolver, candidates, RelayOperation::SetRelay { relay, state, seconds }, port)
}

/// Sets every relay to `state`, for `seconds` if given. A duration not in
/// plain decimal form is refused before anything is looked up or started.
pub fn relay_all(
    resolver: &mut Resolver,
    candidates: &Vec<String>,
    port: Option<String>,
    state: String,
    seconds: Option<String>,
) -> (r: Result<Invocation, BridgeError>)
    ensures
        !crate::command::seconds_ok(seconds) ==> r is Err && r->Err_0 is Validation
            && r->Err_0.text() == seconds_message() && *final(resolver) == *old(resolver),
        crate::command::seconds_ok(seconds) ==> prepared(
            *old(resolver),
            *final(resolver),
            strings_view(candidates@),
            RelayOperation::SetAll { state, seconds },
            opt_view(port),
            r,
        ),
{
    if !check_seconds(&seconds) {
        return Err(
            BridgeError::Validation(String::from_str("Seconds must be a plain decimal number")),
        );
    }
    prepare(resolver, candidates, RelayOperation::SetAll { state, seconds }, port)
}

} // verus!
