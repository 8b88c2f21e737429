//! The local IPC protocol between the emulator and system processes.
//!
//! One Unix socket at a fixed path carries three operations, each a fixed
//! request path with a JSON body: save a state to a slot, stop the run
//! loop, and start it again.  The bodies are encoded and parsed here,
//! exactly; the socket itself is the caller's concern.

use vstd::prelude::*;

use crate::text::{parse_decimal, push_decimal, spec_all_digits, spec_decimal, spec_digits_val,
    str_eq, lemma_decimal_digits, lemma_digits_val_bounds};

verus! {

/// The fixed path of the IPC socket.
pub fn socket_path() -> (r: &'static str)
    ensures
        r@ == "/tmp/ipc.sock"@,
{
    "/tmp/ipc.sock"
}

/// The save-state operation.
pub struct SaveState;

/// Arguments of the save-state operation: the slot, or none for `auto`.
#[derive(Clone, Copy, Debug, PartialEq, Eq, Structural)]
pub struct SaveStateArgs {
    pub slot: Option<u64>,
}

/// The stop operation: pause the emulator's run loop.
pub struct Stop;

/// Arguments of the stop operation: none.
#[derive(Clone, Copy, Debug, PartialEq, Eq, Structural)]
pub struct StopArgs {}

/// The start operation: resume the emulator's run loop.
pub struct Start;

/// Arguments of the start operation: none.
#[derive(Clone, Copy, Debug, PartialEq, Eq, Structural)]
pub struct StartArgs {}

impl SaveState {
    pub fn path() -> (r: &'static str)
        ensures
            r@ == "/save-state"@,
    {
        "/save-state"
    }
}

impl Stop {
    pub fn path() -> (r: &'static str)
        ensures
            r@ == "/stop"@,
    {
        "/stop"
    }
}

impl Start {
    pub fn path() -> (r: &'static str)
        ensures
            r@ == "/start"@,
    {
        "/start"
    }
}

/// The three operations of the protocol.
#[derive(Clone, Copy, Debug, PartialEq, Eq, Structural)]
pub enum IpcCall {
    SaveState,
    Stop,
    Start,
}

/// The operation a request path names.
pub open spec fn spec_route(path: Seq<char>) -> Option<IpcCall> {
    if path == "/save-state"@ {
        Some(IpcCall::SaveState)
    } else if path == "/stop"@ {
        Some(IpcCall::Stop)
    } else if path == "/start"@ {
        Some(IpcCall::Start)
    } else {
        None
    }
}

/// Routes a request path to its operation; unknown paths have none.
pub fn route(path: &str) -> (r: Option<IpcCall>)
    ensures
        r == spec_route(path@),
{
    if str_eq(path, "/save-state") {
        Some(IpcCall::SaveState)
    } else if str_eq(path, "/stop") {
        Some(IpcCall::Stop)
    } else if str_eq(path, "/start") {
        Some(IpcCall::Start)
    } else {
        None
    }
}

/// The JSON body of a save-state request.
pub open spec fn spec_save_args_json(slot: Option<u64>) -> Seq<char> {
    "{\"slot\":"@ + (match slot {
        None => "null"@,
        Some(n) => spec_decimal(n as int),
    }) + "}"@
}

/// Encodes the save-state arguments as their JSON body.
pub fn encode_save_state_args(args: &SaveStateArgs) -> (r: String)
    ensures
        r@ == spec_save_args_json(args.slot),
{
    let mut r = String::from_str("{\"slot\":");
    match args.slot {
        None => r.append("null"),
        Some(n) => push_decimal(n, &mut r),
    }
    r.append("}");
    assert(r@ =~= spec_save_args_json(args.slot));
    r
}

/// What a save-state body parses to: the canonical encoding of a slot, and
/// nothing else.  A number must be plain digits without a leading zero and
/// must fit the slot type.
pub open spec fn spec_parse_save_args(s: Seq<char>) -> Option<SaveStateArgs> {
    if s.len() >= 9 && s.subrange(0, 8) == "{\"slot\":"@ && s.last() == '}' {
        let mid = s.subrange(8, s.len() - 1);
        if mid == "null"@ {
            Some(SaveStateArgs { slot: None })
        } else if mid.len() >= 1 && spec_all_digits(mid) && (mid[0] != '0' || mid.len() == 1)
            && spec_digits_val(mid) <= u64::MAX {
            Some(SaveStateArgs { slot: Some(spec_digits_val(mid) as u64) })
        } else {
            None
        }
    } else {
        None
    }
}

/// Parses the JSON body of a save-state request.
pub fn parse_save_state_args(s: &str) -> (r: Option<SaveStateArgs>)
    ensures
        r == spec_parse_save_args(s@),
{
    let len = s.unicode_len();
    if len < 9 {
        return None;
    }
    let head = s.substring_char(0, 8);
    if !str_eq(head, "{\"slot\":") {
        return None;
    }
    if s.get_char(len - 1) != '}' {
        return None;
    }
    let mid = s.substring_char(8, len - 1);
    if str_eq(mid, "null") {
        return Some(SaveStateArgs { slot: None });
    }
    match parse_decimal(mid) {
        Some(v) => Some(SaveStateArgs { slot: Some(v) }),
        None => None,
    }
}

/// Parses the JSON body of a stop request, which is an empty object.
pub fn parse_stop_args(s: &str) -> (r: Option<StopArgs>)
    ensures
        r is Some <==> s@ == "{}"@,
{
    if str_eq(s, "{}") {
        Some(StopArgs {})
    } else {
        None
    }
}

/// Parses the JSON body of a start request, which is an empty object.
pub fn parse_start_args(s: &str) -> (r: Option<StartArgs>)
    ensures
        r is Some <==> s@ == "{}"@,
{
    if str_eq(s, "{}") {
        Some(StartArgs {})
    } else {
        None
    }
}

/// Encodes the empty JSON object used by the stop and start operations.
pub fn encode_empty_args() -> (r: String)
    ensures
        r@ == "{}"@,
{
    String::from_str("{}")
}

/// The numeric status a handler outcome maps to: success is OK, a handler
/// failure is a server error.
pub fn response_status(handler_ok: bool) -> (r: u16)
    ensures
        handler_ok ==> r == 200,
        !handler_ok ==> r == 500,
{
    if handler_ok {
        200
    } else {
        500
    }
}

/// Encoding a save-state body and parsing it back yields the same slot, for
/// every slot.
pub proof fn lemma_save_args_round_trip(slot: Option<u64>)
    ensures
        spec_parse_save_args(spec_save_args_json(slot)) == Some(SaveStateArgs { slot }),
{
    let s = spec_save_args_json(slot);
    let prefix = "{\"slot\":"@;
    reveal_strlit("{\"slot\":");
    reveal_strlit("null");
    reveal_strlit("}");
    assert(prefix.len() == 8);
    assert("}"@.len() == 1);
    match slot {
        None => {
            assert("null"@.len() == 4);
            assert(s.len() == 13);
            assert(s.subrange(0, 8) =~= prefix);
            assert(s.last() == '}');
            assert(s.subrange(8, s.len() - 1) =~= "null"@);
        },
        Some(n) => {
            lemma_decimal_digits(n as int);
            let d = spec_decimal(n as int);
            assert(s.len() == 9 + d.len());
            assert(s.subrange(0, 8) =~= prefix);
            assert(s.last() == '}');
            let mid = s.subrange(8, s.len() - 1);
            assert(mid =~= d);
            assert(spec_digits_val(mid) == n);
            assert(crate::text::spec_digit_val(mid[0]) >= 0);
            assert("null"@[0] == 'n');
            assert(crate::text::spec_digit_val('n') < 0);
            assert(mid != "null"@);
            assert(spec_parse_save_args(s) == Some(SaveStateArgs { slot }));
        },
    }
}

} // verus!
