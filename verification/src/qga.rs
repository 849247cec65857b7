//! The guest-agent command layer: building the JSON-RPC commands sent to
//! the in-guest helper, reading its replies, and the small sessions
//! (execute a process, read a file, write a file) composed of them.
//!
//! Everything here works on plain values; performing the actual exchange
//! with the hypervisor is the embedder's business. A builder returns the
//! exact bytes to send; a `parse_*` function reads a reply; the sessions
//! keep the state between the steps.

use vstd::prelude::*;
use vstd::string::StringSliceAdditionalSpecFns;
use crate::json::{
    ascii_bytes, jarr_strs, jbool, jint, jstr, push_bool, push_dec_i64, push_literal,
    push_quoted, push_str_array,
};
use crate::base64;
use crate::machine::Machine;
use crate::sjson::{self, json_doc, json_text, spec_as_bool, spec_as_i64, spec_as_str, JsonM};
use crate::text;

verus! {

/// The byte views of a list of argument strings.
pub open spec fn arg_views(args: Seq<String>) -> Seq<Seq<u8>> {
    Seq::new(args.len(), |i: int| vstd::utf8::encode_utf8(args[i]@))
}

/// The `guest-exec` command for a path, arguments and capture choice.
pub open spec fn spec_exec_command(path: Seq<u8>, args: Seq<Seq<u8>>, capture: bool) -> Seq<u8> {
    ascii_bytes("{\"arguments\":{\"arg\":"@) + jarr_strs(args) + ascii_bytes(
        ",\"capture-output\":"@,
    ) + jbool(capture) + ascii_bytes(",\"path\":"@) + jstr(path) + ascii_bytes(
        "},\"execute\":\"guest-exec\"}"@,
    )
}

/// The `guest-exec-status` command for a process id.
pub open spec fn spec_exec_status_command(pid: int) -> Seq<u8> {
    ascii_bytes("{\"arguments\":{\"pid\":"@) + jint(pid) + ascii_bytes(
        "},\"execute\":\"guest-exec-status\"}"@,
    )
}

/// The `guest-file-open` command for a path and mode.
pub open spec fn spec_file_open_command(path: Seq<u8>, mode: Seq<u8>) -> Seq<u8> {
    ascii_bytes("{\"arguments\":{\"mode\":"@) + jstr(mode) + ascii_bytes(",\"path\":"@) + jstr(
        path,
    ) + ascii_bytes("},\"execute\":\"guest-file-open\"}"@)
}

/// The `guest-file-read` command for a handle and chunk size.
pub open spec fn spec_file_read_command(handle: int, count: int) -> Seq<u8> {
    ascii_bytes("{\"arguments\":{\"count\":"@) + jint(count) + ascii_bytes(",\"handle\":"@)
        + jint(handle) + ascii_bytes("},\"execute\":\"guest-file-read\"}"@)
}

/// The `guest-file-write` command for a handle and base64 payload.
pub open spec fn spec_file_write_command(handle: int, b64: Seq<u8>) -> Seq<u8> {
    ascii_bytes("{\"arguments\":{\"buf-b64\":"@) + jstr(b64) + ascii_bytes(",\"handle\":"@)
        + jint(handle) + ascii_bytes("},\"execute\":\"guest-file-write\"}"@)
}

/// The `guest-file-close` command for a handle.
pub open spec fn spec_file_close_command(handle: int) -> Seq<u8> {
    ascii_bytes("{\"arguments\":{\"handle\":"@) + jint(handle) + ascii_bytes(
        "},\"execute\":\"guest-file-close\"}"@,
    )
}

/// The `guest-shutdown` command for a mode.
pub open spec fn spec_shutdown_command(mode: Seq<u8>) -> Seq<u8> {
    ascii_bytes("{\"arguments\":{\"mode\":"@) + jstr(mode) + ascii_bytes(
        "},\"execute\":\"guest-shutdown\"}"@,
    )
}

/// The `guest-set-time` command, with or without an explicit time.
pub open spec fn spec_set_time_command(time: Option<i64>) -> Seq<u8> {
    match time {
        Some(t) => ascii_bytes("{\"arguments\":{\"time\":"@) + jint(t as int) + ascii_bytes(
            "},\"execute\":\"guest-set-time\"}"@,
        ),
        None => ascii_bytes("{\"execute\":\"guest-set-time\"}"@),
    }
}

/// A raw command whose arguments are already serialized JSON text.
pub open spec fn spec_raw_command(cmd: Seq<u8>, args_text: Option<Seq<u8>>) -> Seq<u8> {
    match args_text {
        Some(t) => ascii_bytes("{\"arguments\":"@) + t + ascii_bytes(",\"execute\":"@) + jstr(
            cmd,
        ) + ascii_bytes("}"@),
        None => ascii_bytes("{\"execute\":"@) + jstr(cmd) + ascii_bytes("}"@),
    }
}

/// Builds the `guest-exec` command: run `cmd` with `args` in the guest,
/// capturing its output when asked to.
pub fn exec_command(cmd: &str, args: &Vec<String>, capture: bool) -> (r: Vec<u8>)
    ensures
        r@ == spec_exec_command(cmd.spec_bytes(), arg_views(args@), capture),
{
    let mut out: Vec<u8> = Vec::new();
    proof {
        reveal_strlit("{\"arguments\":{\"arg\":");
        reveal_strlit(",\"capture-output\":");
        reveal_strlit(",\"path\":");
        reveal_strlit("},\"execute\":\"guest-exec\"}");
    }
    push_literal(&mut out, "{\"arguments\":{\"arg\":");
    push_str_array(&mut out, args);
    push_literal(&mut out, ",\"capture-output\":");
    push_bool(&mut out, capture);
    push_literal(&mut out, ",\"path\":");
    push_quoted(&mut out, cmd.as_bytes());
    push_literal(&mut out, "},\"execute\":\"guest-exec\"}");
    proof {
        assert(arg_views(args@) =~= Seq::new(args@.len(), |i: int| vstd::utf8::encode_utf8(
            args@[i]@,
        )));
        assert(out@ =~= spec_exec_command(cmd.spec_bytes(), arg_views(args@), capture));
    }
    out
}

/// Builds the `guest-exec-status` command asking after a process.
pub fn exec_status_command(pid: i32) -> (r: Vec<u8>)
    ensures
        r@ == spec_exec_status_command(pid as int),
{
    let mut out: Vec<u8> = Vec::new();
    proof {
        reveal_strlit("{\"arguments\":{\"pid\":");
        reveal_strlit("},\"execute\":\"guest-exec-status\"}");
    }
    push_literal(&mut out, "{\"arguments\":{\"pid\":");
    push_dec_i64(&mut out, pid as i64);
    push_literal(&mut out, "},\"execute\":\"guest-exec-status\"}");
    proof {
        assert(out@ =~= spec_exec_status_command(pid as int));
    }
    out
}

/// Builds the `guest-file-open` command for a path and mode.
pub fn file_open_command(path: &str, mode: &str) -> (r: Vec<u8>)
    ensures
        r@ == spec_file_open_command(path.spec_bytes(), mode.spec_bytes()),
{
    let mut out: Vec<u8> = Vec::new();
    proof {
        reveal_strlit("{\"arguments\":{\"mode\":");
        reveal_strlit(",\"path\":");
        reveal_strlit("},\"execute\":\"guest-file-open\"}");
    }
    push_literal(&mut out, "{\"arguments\":{\"mode\":");
    push_quoted(&mut out, mode.as_bytes());
    push_literal(&mut out, ",\"path\":");
    push_quoted(&mut out, path.as_bytes());
    push_literal(&mut out, "},\"execute\":\"guest-file-open\"}");
    proof {
        assert(out@ =~= spec_file_open_command(path.spec_bytes(), mode.spec_bytes()));
    }
    out
}

/// Builds the `guest-file-read` command for the next chunk.
pub fn file_read_command(handle: i32, count: i32) -> (r: Vec<u8>)
    ensures
        r@ == spec_file_read_command(handle as int, count as int),
{
    let mut out: Vec<u8> = Vec::new();
    proof {
        reveal_strlit("{\"arguments\":{\"count\":");
        reveal_strlit(",\"handle\":");
        reveal_strlit("},\"execute\":\"guest-file-read\"}");
    }
    push_literal(&mut out, "{\"arguments\":{\"count\":");
    push_dec_i64(&mut out, count as i64);
    push_literal(&mut out, ",\"handle\":");
    push_dec_i64(&mut out, handle as i64);
    push_literal(&mut out, "},\"execute\":\"guest-file-read\"}");
    proof {
        assert(out@ =~= spec_file_read_command(handle as int, count as int));
    }
    out
}

/// Builds the `guest-file-write` command: the content is carried base64
/// encoded in the `buf-b64` argument.
pub fn file_write_command(handle: i32, content: &str) -> (r: Vec<u8>)
    ensures
        r@ == spec_file_write_command(
            handle as int,
            base64::b64_encode(content.spec_bytes()),
        ),
{
    let mut out: Vec<u8> = Vec::new();
    proof {
        reveal_strlit("{\"arguments\":{\"buf-b64\":");
        reveal_strlit(",\"handle\":");
        reveal_strlit("},\"execute\":\"guest-file-write\"}");
    }
    let encoded = base64::encode(content.as_bytes());
    push_literal(&mut out, "{\"arguments\":{\"buf-b64\":");
    push_quoted(&mut out, encoded.as_slice());
    push_literal(&mut out, ",\"handle\":");
    push_dec_i64(&mut out, handle as i64);
    push_literal(&mut out, "},\"execute\":\"guest-file-write\"}");
    proof {
        assert(out@ =~= spec_file_write_command(
            handle as int,
            base64::b64_encode(content.spec_bytes()),
        ));
    }
    out
}

/// Builds the `guest-file-close` command for a handle.
pub fn file_close_command(handle: i32) -> (r: Vec<u8>)
    ensures
        r@ == spec_file_close_command(handle as int),
{
    let mut out: Vec<u8> = Vec::new();
    proof {
        reveal_strlit("{\"arguments\":{\"handle\":");
        reveal_strlit("},\"execute\":\"guest-file-close\"}");
    }
    push_literal(&mut out, "{\"arguments\":{\"handle\":");
    push_dec_i64(&mut out, handle as i64);
    push_literal(&mut out, "},\"execute\":\"guest-file-close\"}");
    proof {
        assert(out@ =~= spec_file_close_command(handle as int));
    }
    out
}

/// Builds the `guest-shutdown` command for a mode.
pub fn shutdown_command(mode: &str) -> (r: Vec<u8>)
    ensures
        r@ == spec_shutdown_command(mode.spec_bytes()),
{
    let mut out: Vec<u8> = Vec::new();
    proof {
        reveal_strlit("{\"arguments\":{\"mode\":");
        reveal_strlit("},\"execute\":\"guest-shutdown\"}");
    }
    push_literal(&mut out, "{\"arguments\":{\"mode\":");
    push_quoted(&mut out, mode.as_bytes());
    push_literal(&mut out, "},\"execute\":\"guest-shutdown\"}");
    proof {
        assert(out@ =~= spec_shutdown_command(mode.spec_bytes()));
    }
    out
}

/// Builds the `guest-sync` command.
pub fn sync_command() -> (r: Vec<u8>)
    ensures
        r@ == ascii_bytes("{\"execute\":\"guest-sync\"}"@),
{
    let mut out: Vec<u8> = Vec::new();
    proof {
        reveal_strlit("{\"execute\":\"guest-sync\"}");
    }
    push_literal(&mut out, "{\"execute\":\"guest-sync\"}");
    proof {
        assert(out@ =~= ascii_bytes("{\"execute\":\"guest-sync\"}"@));
    }
    out
}

/// Builds the `guest-set-time` command; without an explicit time the
/// guest takes the host's.
pub fn set_time_command(time: Option<i64>) -> (r: Vec<u8>)
    ensures
        r@ == spec_set_time_command(time),
{
    let mut out: Vec<u8> = Vec::new();
    match time {
        Some(t) => {
            proof {
                reveal_strlit("{\"arguments\":{\"time\":");
                reveal_strlit("},\"execute\":\"guest-set-time\"}");
            }
            push_literal(&mut out, "{\"arguments\":{\"time\":");
            push_dec_i64(&mut out, t);
            push_literal(&mut out, "},\"execute\":\"guest-set-time\"}");
        },
        None => {
            proof {
                reveal_strlit("{\"execute\":\"guest-set-time\"}");
            }
            push_literal(&mut out, "{\"execute\":\"guest-set-time\"}");
        },
    }
    proof {
        assert(out@ =~= spec_set_time_command(time));
    }
    out
}

/// Builds the `guest-network-get-interfaces` command.
pub fn network_interfaces_command() -> (r: Vec<u8>)
    ensures
        r@ == ascii_bytes("{\"execute\":\"guest-network-get-interfaces\"}"@),
{
    let mut out: Vec<u8> = Vec::new();
    proof {
        reveal_strlit("{\"execute\":\"guest-network-get-interfaces\"}");
    }
    push_literal(&mut out, "{\"execute\":\"guest-network-get-interfaces\"}");
    proof {
        assert(out@ =~= ascii_bytes("{\"execute\":\"guest-network-get-interfaces\"}"@));
    }
    out
}

/// Builds the `guest-get-osinfo` command.
pub fn os_info_command() -> (r: Vec<u8>)
    ensures
        r@ == ascii_bytes("{\"execute\":\"guest-get-osinfo\"}"@),
{
    let mut out: Vec<u8> = Vec::new();
    proof {
        reveal_strlit("{\"execute\":\"guest-get-osinfo\"}");
    }
    push_literal(&mut out, "{\"execute\":\"guest-get-osinfo\"}");
    proof {
        assert(out@ =~= ascii_bytes("{\"execute\":\"guest-get-osinfo\"}"@));
    }
    out
}

/// Builds the `guest-get-users` command.
pub fn users_command() -> (r: Vec<u8>)
    ensures
        r@ == ascii_bytes("{\"execute\":\"guest-get-users\"}"@),
{
    let mut out: Vec<u8> = Vec::new();
    proof {
        reveal_strlit("{\"execute\":\"guest-get-users\"}");
    }
    push_literal(&mut out, "{\"execute\":\"guest-get-users\"}");
    proof {
        assert(out@ =~= ascii_bytes("{\"execute\":\"guest-get-users\"}"@));
    }
    out
}

/// Builds a raw command around already-serialized argument text.
pub fn raw_command_with_args(cmd: &str, args_text: &str) -> (r: Vec<u8>)
    ensures
        r@ == spec_raw_command(cmd.spec_bytes(), Some(args_text.spec_bytes())),
{
    let mut out: Vec<u8> = Vec::new();
    proof {
        reveal_strlit("{\"arguments\":");
        reveal_strlit(",\"execute\":");
        reveal_strlit("}");
    }
    push_literal(&mut out, "{\"arguments\":");
    let b = args_text.as_bytes();
    let len = b.len();
    let mut i: usize = 0;
    while i < len
        invariant
            i <= len,
            len == b@.len(),
            out@ == ascii_bytes("{\"arguments\":"@) + b@.take(i as int),
        decreases len - i,
    {
        out.push(b[i]);
        proof {
            assert(out@ =~= ascii_bytes("{\"arguments\":"@) + b@.take(i + 1));
        }
        i = i + 1;
    }
    proof {
        assert(b@.take(len as int) =~= b@);
    }
    push_literal(&mut out, ",\"execute\":");
    push_quoted(&mut out, cmd.as_bytes());
    push_literal(&mut out, "}");
    proof {
        assert(out@ =~= spec_raw_command(cmd.spec_bytes(), Some(args_text.spec_bytes())));
    }
    out
}

/// Builds a raw command without arguments.
pub fn raw_command_bare(cmd: &str) -> (r: Vec<u8>)
    ensures
        r@ == spec_raw_command(cmd.spec_bytes(), None),
{
    let mut out: Vec<u8> = Vec::new();
    proof {
        reveal_strlit("{\"execute\":");
        reveal_strlit("}");
    }
    push_literal(&mut out, "{\"execute\":");
    push_quoted(&mut out, cmd.as_bytes());
    push_literal(&mut out, "}");
    proof {
        assert(out@ =~= spec_raw_command(cmd.spec_bytes(), None));
    }
    out
}

/// What a running or finished guest process reported, as carried by the
/// `guest-exec-status` reply; output data stays base64 encoded here.
pub struct ExecStatus {
    pub exited: bool,
    pub exitcode: Option<i32>,
    pub signal: Option<i32>,
    pub out_data: Option<String>,
    pub err_data: Option<String>,
}

/// A guest file operation's report as the embedder shows it.
pub struct GuestFileInfo {
    pub handle: i32,
    pub success: bool,
    pub error: Option<String>,
}

/// A started guest process with whatever output was available at once.
pub struct ExecResult {
    pub pid: i32,
    pub exitcode: Option<i32>,
    pub stdout: Option<String>,
    pub stderr: Option<String>,
    pub exited: bool,
}

/// The member of a document under a key, when the document is an object
/// carrying it.
pub open spec fn spec_member(m: JsonM, key: Seq<char>) -> Option<JsonM> {
    match m {
        JsonM::Obj(fields) => if fields.dom().contains(key) {
            Some(fields[key])
        } else {
            None
        },
        _ => None,
    }
}

/// The "return" member of a reply: present exactly when the reply text
/// parses to an object carrying one.
pub open spec fn spec_reply_return(s: Seq<char>) -> Option<JsonM> {
    match json_doc(s) {
        Some(doc) => spec_member(doc, "return"@),
        None => None,
    }
}

/// A boolean member, with the stated fallback for a member that is
/// missing or not a boolean.
pub open spec fn spec_bool_field(ret: JsonM, key: Seq<char>, fallback: bool) -> bool {
    match spec_member(ret, key) {
        Some(f) => match spec_as_bool(f) {
            Some(b) => b,
            None => fallback,
        },
        None => fallback,
    }
}

/// An integer member, absent where missing or not a 64-bit integer.
pub open spec fn spec_i64_field(ret: JsonM, key: Seq<char>) -> Option<i64> {
    match spec_member(ret, key) {
        Some(f) => spec_as_i64(f),
        None => None,
    }
}

/// A string member, absent where missing or not a string.
pub open spec fn spec_str_field(ret: JsonM, key: Seq<char>) -> Option<Seq<char>> {
    match spec_member(ret, key) {
        Some(f) => spec_as_str(f),
        None => None,
    }
}

/// The pid an exec reply's "return" object reports: the integer under
/// "pid", and -1 where that member is missing or not such an integer.
pub open spec fn spec_exec_pid(ret: JsonM) -> i64 {
    match spec_i64_field(ret, "pid"@) {
        Some(n) => n,
        None => -1i64,
    }
}

/// Reads the `guest-exec` reply: a pid exactly when the reply parses
/// with a "return" member — the integer under "pid", or -1 where the
/// guest agent handed none back. The parser decides which texts parse.
pub fn parse_exec_pid(resp: &str) -> (r: Option<i32>)
    ensures
        r is Some <==> spec_reply_return(resp@) is Some,
        r matches Some(p) ==> (spec_reply_return(resp@) matches Some(ret) && p == spec_exec_pid(
            ret,
        ) as i32),
{
    match sjson::json_parse(resp) {
        Some(v) => {
            match sjson::json_get(&v, "return") {
                Some(ret) => {
                    let pid: i64 = match sjson::json_get(ret, "pid") {
                        Some(p) => {
                            match sjson::json_as_i64(p) {
                                Some(n) => n,
                                None => -1,
                            }
                        },
                        None => -1,
                    };
                    Some(#[verifier::truncate] (pid as i32))
                },
                None => None,
            }
        },
        None => None,
    }
}

/// Reads the `guest-exec-status` reply into its fields, exactly when the
/// reply parses with a "return" member: a missing or malformed "exited"
/// counts as still running, the codes come along where they are 64-bit
/// integers, the output fields where they are strings. The parser
/// decides which texts parse.
pub fn parse_exec_status(resp: &str) -> (r: Option<ExecStatus>)
    ensures
        r is Some <==> spec_reply_return(resp@) is Some,
        r matches Some(st) ==> (spec_reply_return(resp@) matches Some(ret) && {
            &&& st.exited == spec_bool_field(ret, "exited"@, false)
            &&& match spec_i64_field(ret, "exitcode"@) {
                Some(n) => st.exitcode == Some(n as i32),
                None => st.exitcode is None,
            }
            &&& match spec_i64_field(ret, "signal"@) {
                Some(n) => st.signal == Some(n as i32),
                None => st.signal is None,
            }
            &&& match spec_str_field(ret, "out-data"@) {
                Some(t) => st.out_data matches Some(d) && d@ == t,
                None => st.out_data is None,
            }
            &&& match spec_str_field(ret, "err-data"@) {
                Some(t) => st.err_data matches Some(d) && d@ == t,
                None => st.err_data is None,
            }
        }),
{
    let v = match sjson::json_parse(resp) {
        Some(v) => v,
        None => {
            return None;
        },
    };
    let ret = match sjson::json_get(&v, "return") {
        Some(ret) => ret,
        None => {
            return None;
        },
    };
    let exited: bool = match sjson::json_get(ret, "exited") {
        Some(e) => {
            match sjson::json_as_bool(e) {
                Some(b) => b,
                None => false,
            }
        },
        None => false,
    };
    let exitcode: Option<i32> = match sjson::json_get(ret, "exitcode") {
        Some(e) => {
            match sjson::json_as_i64(e) {
                Some(n) => Some(#[verifier::truncate] (n as i32)),
                None => None,
            }
        },
        None => None,
    };
    let signal: Option<i32> = match sjson::json_get(ret, "signal") {
        Some(e) => {
            match sjson::json_as_i64(e) {
                Some(n) => Some(#[verifier::truncate] (n as i32)),
                None => None,
            }
        },
        None => None,
    };
    let out_data: Option<String> = match sjson::json_get(ret, "out-data") {
        Some(e) => {
            match sjson::json_as_str(e) {
                Some(s) => Some(s.to_owned()),
                None => None,
            }
        },
        None => None,
    };
    let err_data: Option<String> = match sjson::json_get(ret, "err-data") {
        Some(e) => {
            match sjson::json_as_str(e) {
                Some(s) => Some(s.to_owned()),
                None => None,
            }
        },
        None => None,
    };
    Some(ExecStatus { exited, exitcode, signal, out_data, err_data })
}

/// The handle a `guest-file-open` reply carries: the "return" member
/// itself, where it is a 64-bit integer.
pub open spec fn spec_file_handle(s: Seq<char>) -> Option<i64> {
    match spec_reply_return(s) {
        Some(ret) => spec_as_i64(ret),
        None => None,
    }
}

/// Reads the `guest-file-open` reply: the file handle is the "return"
/// value itself, handed out exactly when it is an integer, truncated to
/// the handle width. The parser decides which texts parse.
pub fn parse_file_open(resp: &str) -> (r: Option<i32>)
    ensures
        r is Some <==> spec_file_handle(resp@) is Some,
        r matches Some(h) ==> (spec_file_handle(resp@) matches Some(n) && h == n as i32),
{
    match sjson::json_parse(resp) {
        Some(v) => {
            match sjson::json_get(&v, "return") {
                Some(h) => {
                    match sjson::json_as_i64(h) {
                        Some(n) => Some(#[verifier::truncate] (n as i32)),
                        None => None,
                    }
                },
                None => None,
            }
        },
        None => None,
    }
}

/// Reads a `guest-file-read` reply, exactly when it parses with a
/// "return" member: whether the file is exhausted (a missing or
/// malformed flag counts as exhausted) and the base64 chunk where the
/// reply carries one as a string. The parser decides which texts parse.
pub fn parse_file_read_chunk(resp: &str) -> (r: Option<(bool, Option<String>)>)
    ensures
        r is Some <==> spec_reply_return(resp@) is Some,
        r matches Some(p) ==> (spec_reply_return(resp@) matches Some(ret) && {
            &&& p.0 == spec_bool_field(ret, "eof"@, true)
            &&& match spec_str_field(ret, "buf-b64"@) {
                Some(t) => p.1 matches Some(c) && c@ == t,
                None => p.1 is None,
            }
        }),
{
    let v = match sjson::json_parse(resp) {
        Some(v) => v,
        None => {
            return None;
        },
    };
    let ret = match sjson::json_get(&v, "return") {
        Some(ret) => ret,
        None => {
            return None;
        },
    };
    let eof: bool = match sjson::json_get(ret, "eof") {
        Some(e) => {
            match sjson::json_as_bool(e) {
                Some(b) => b,
                None => true,
            }
        },
        None => true,
    };
    let chunk: Option<String> = match sjson::json_get(ret, "buf-b64") {
        Some(b) => {
            match sjson::json_as_str(b) {
                Some(s) => Some(s.to_owned()),
                None => None,
            }
        },
        None => None,
    };
    Some((eof, chunk))
}

/// Reads any reply for bare success: true exactly when the reply parses
/// with a "return" member. The parser decides which texts parse.
pub fn parse_return_present(resp: &str) -> (r: bool)
    ensures
        r <==> spec_reply_return(resp@) is Some,
{
    match sjson::json_parse(resp) {
        Some(v) => {
            match sjson::json_get(&v, "return") {
                Some(_) => true,
                None => false,
            }
        },
        None => false,
    }
}

/// The text a base64 payload denotes, when it is valid base64 whose
/// bytes are valid UTF-8.
pub open spec fn b64_text(t: Seq<u8>) -> Option<Seq<char>> {
    if base64::b64_decode_ok(t) && vstd::utf8::valid_utf8(base64::b64_decoded(t)) {
        Some(vstd::utf8::decode_utf8(base64::b64_decoded(t)))
    } else {
        None
    }
}

/// The text a base64 chunk contributes to a file's content: its decoded
/// text where it decodes, nothing otherwise.
pub open spec fn chunk_text(t: Seq<u8>) -> Seq<char> {
    match b64_text(t) {
        Some(s) => s,
        None => Seq::<char>::empty(),
    }
}

/// Decodes one base64 text payload to a string, `None` where the payload
/// is not base64 or its bytes are not UTF-8.
pub fn decode_b64_text(data: &str) -> (r: Option<String>)
    ensures
        r is Some <==> b64_text(data.spec_bytes()) is Some,
        r matches Some(s) ==> b64_text(data.spec_bytes()) == Some(s@),
{
    match base64::decode(data.as_bytes()) {
        Ok(bytes) => text::utf8_to_string(bytes),
        Err(_) => None,
    }
}

/// The open mode a file write asks for: append to or overwrite the file.
pub fn file_write_mode(append: bool) -> (r: &'static str)
    ensures
        append ==> r@ == "a"@,
        !append ==> r@ == "w"@,
{
    if append {
        "a"
    } else {
        "w"
    }
}

/// A file read in progress: the guest file handle, the text collected so
/// far, and whether the guest reported the end of the file.
pub struct FileReadSession {
    pub handle: i32,
    pub content: String,
    pub done: bool,
}

/// What the chunk of one `guest-file-read` reply contributes to the
/// collected content: its decoded text where the reply parses with a
/// "return" member whose "buf-b64" is a string of valid base64 denoting
/// UTF-8 text, nothing in every other case.
pub open spec fn spec_chunk_contribution(s: Seq<char>) -> Seq<char> {
    match spec_reply_return(s) {
        Some(ret) => match spec_str_field(ret, "buf-b64"@) {
            Some(t) => chunk_text(vstd::utf8::encode_utf8(t)),
            None => Seq::<char>::empty(),
        },
        None => Seq::<char>::empty(),
    }
}

/// Whether one `guest-file-read` reply ends the read: its "eof" flag,
/// counting a missing or malformed flag — or a reply that does not parse
/// with a "return" member — as the end.
pub open spec fn spec_chunk_eof(s: Seq<char>) -> bool {
    match spec_reply_return(s) {
        Some(ret) => spec_bool_field(ret, "eof"@, true),
        None => true,
    }
}

impl FileReadSession {
    /// Opens the session from the reply to a `guest-file-open` command
    /// built by `file_open_command`: a session exists exactly when the
    /// reply yields a handle, holds that handle, and starts empty.
    pub fn begin(open_resp: &str) -> (r: Option<FileReadSession>)
        ensures
            r is Some <==> spec_file_handle(open_resp@) is Some,
            r matches Some(s) ==> (spec_file_handle(open_resp@) matches Some(n) && s.handle == n
                as i32) && s.content@ == Seq::<char>::empty() && !s.done,
    {
        match parse_file_open(open_resp) {
            Some(handle) => Some(FileReadSession { handle, content: String::new(), done: false }),
            None => None,
        }
    }

    /// The command asking for the next chunk of the file.
    pub fn read_command(&self) -> (r: Vec<u8>)
        ensures
            r@ == spec_file_read_command(self.handle as int, 4096),
    {
        file_read_command(self.handle, 4096)
    }

    /// Folds one interpreted chunk into the content: the chunk's decoded
    /// text is appended where it decodes, anything else adds nothing; the
    /// end-of-file flag finishes the session.
    pub fn absorb(&mut self, eof: bool, chunk: Option<&str>)
        ensures
            final(self).handle == old(self).handle,
            final(self).done == eof,
            final(self).content@ == old(self).content@ + match chunk {
                Some(c) => chunk_text(c.spec_bytes()),
                None => Seq::<char>::empty(),
            },
    {
        match chunk {
            Some(c) => {
                match decode_b64_text(c) {
                    Some(s) => {
                        self.content.append(s.as_str());
                    },
                    None => {
                        proof {
                            assert(self.content@ =~= self.content@ + Seq::<char>::empty());
                        }
                    },
                }
            },
            None => {
                proof {
                    assert(self.content@ =~= self.content@ + Seq::<char>::empty());
                }
            },
        }
        self.done = eof;
    }

    /// Reads one `guest-file-read` reply and folds it in: the content
    /// grows by exactly what the reply's chunk denotes, the session ends
    /// exactly when the reply says so — or does not parse — and the
    /// answer says whether more chunks should be asked for.
    pub fn step(&mut self, resp: &str) -> (more: bool)
        ensures
            final(self).handle == old(self).handle,
            final(self).done == spec_chunk_eof(resp@),
            final(self).content@ == old(self).content@ + spec_chunk_contribution(resp@),
            more == !final(self).done,
    {
        match parse_file_read_chunk(resp) {
            Some((eof, chunk)) => {
                match chunk {
                    Some(c) => self.absorb(eof, Some(c.as_str())),
                    None => self.absorb(eof, None),
                }
                !self.done
            },
            None => {
                self.absorb(true, None);
                proof {
                    assert(self.content@ =~= self.content@ + spec_chunk_contribution(resp@));
                }
                false
            },
        }
    }

    /// The command closing the guest file.
    pub fn close_command(&self) -> (r: Vec<u8>)
        ensures
            r@ == spec_file_close_command(self.handle as int),
    {
        file_close_command(self.handle)
    }

    /// The collected content; a read that collected nothing is absent.
    pub fn take_content(self) -> (r: Option<String>)
        ensures
            r is Some <==> self.content@.len() > 0,
            r matches Some(s) ==> s@ == self.content@,
    {
        if self.content.as_str().is_empty() {
            None
        } else {
            Some(self.content)
        }
    }
}

/// Puts the started process and its first status report together: the
/// output fields are carried as base64 and are decoded here; a status
/// that never arrived leaves a bare, unexited record, as the guest gave
/// no account of the process yet.
pub fn exec_result(pid: i32, status: Option<ExecStatus>) -> (r: ExecResult)
    ensures
        r.pid == pid,
        status is None ==> r.exitcode is None && r.stdout is None && r.stderr is None
            && !r.exited,
        status matches Some(st) ==> {
            &&& r.exitcode == st.exitcode
            &&& r.exited == st.exited
            &&& (r.stdout is Some <==> (st.out_data matches Some(d) && b64_text(
                vstd::utf8::encode_utf8(d@),
            ) is Some))
            &&& (r.stdout matches Some(s) ==> st.out_data matches Some(d) && b64_text(
                vstd::utf8::encode_utf8(d@),
            ) == Some(s@))
            &&& (r.stderr is Some <==> (st.err_data matches Some(d) && b64_text(
                vstd::utf8::encode_utf8(d@),
            ) is Some))
            &&& (r.stderr matches Some(s) ==> st.err_data matches Some(d) && b64_text(
                vstd::utf8::encode_utf8(d@),
            ) == Some(s@))
        },
{
    match status {
        Some(st) => {
            let stdout = match st.out_data {
                Some(d) => decode_b64_text(d.as_str()),
                None => None,
            };
            let stderr = match st.err_data {
                Some(d) => decode_b64_text(d.as_str()),
                None => None,
            };
            ExecResult { pid, exitcode: st.exitcode, stdout, stderr, exited: st.exited }
        },
        None => ExecResult { pid, exitcode: None, stdout: None, stderr: None, exited: false },
    }
}

/// The bytes a raw command goes out as: an "arguments" member is
/// attached exactly when the given argument text parses as one JSON
/// document, carrying that document's compact serialization; any other
/// text is dropped and the command goes out bare.
pub open spec fn spec_raw_exchange(cmd: Seq<u8>, arguments: Option<Seq<char>>) -> Seq<u8> {
    match arguments {
        Some(a) => match json_doc(a) {
            Some(m) => spec_raw_command(cmd, Some(vstd::utf8::encode_utf8(json_text(m)))),
            None => spec_raw_command(cmd, None),
        },
        None => spec_raw_command(cmd, None),
    }
}

/// Builds a raw command. Argument text is parsed and re-serialized by
/// the JSON crate, which decides which texts pass; text it rejects is
/// dropped and the command goes out bare.
pub fn raw_command(cmd: &str, arguments: Option<&str>) -> (r: Vec<u8>)
    ensures
        r@ == spec_raw_exchange(
            cmd.spec_bytes(),
            match arguments {
                Some(a) => Some(a@),
                None => None,
            },
        ),
{
    match arguments {
        Some(args_str) => {
            match sjson::json_parse(args_str) {
                Some(v) => {
                    let text = sjson::json_to_text(&v);
                    let t = text.as_str();
                    let r = raw_command_with_args(cmd, t);
                    proof {
                        assert(r@ == spec_raw_command(cmd.spec_bytes(), Some(t.spec_bytes())));
                    }
                    r
                },
                None => raw_command_bare(cmd),
            }
        },
        None => raw_command_bare(cmd),
    }
}


/// The guest-agent convenience layer bound to one machine: each method
/// prepares the exact command for its agent call — with the documented
/// defaults filled in — and the timeout it is sent with. The embedder
/// performs the exchange and brings the reply back to the `parse_*`
/// functions and sessions above.
pub struct GuestAgent {
    pub machine: Machine,
}

impl GuestAgent {
    /// Binds the agent to a machine.
    pub fn new(machine: &Machine) -> (r: GuestAgent)
        ensures
            r.machine == *machine,
    {
        GuestAgent { machine: *machine }
    }

    /// The `guest-exec` exchange: missing arguments mean none, and output
    /// is captured unless declined.
    pub fn exec(&self, cmd: &str, args: Option<Vec<String>>, capture_output: Option<bool>) -> (r:
        (Vec<u8>, i32))
        ensures
            r.0@ == spec_exec_command(
                cmd.spec_bytes(),
                match args {
                    Some(a) => arg_views(a@),
                    None => Seq::<Seq<u8>>::empty(),
                },
                match capture_output {
                    Some(c) => c,
                    None => true,
                },
            ),
            r.1 == 30,
    {
        let argv: Vec<String> = match args {
            Some(a) => a,
            None => Vec::new(),
        };
        let capture: bool = match capture_output {
            Some(c) => c,
            None => true,
        };
        proof {
            assert(arg_views(Seq::<String>::empty()) =~= Seq::<Seq<u8>>::empty());
        }
        (exec_command(cmd, &argv, capture), 30)
    }

    /// The `guest-exec-status` exchange.
    pub fn exec_status(&self, pid: i32) -> (r: (Vec<u8>, i32))
        ensures
            r.0@ == spec_exec_status_command(pid as int),
            r.1 == 5,
    {
        (exec_status_command(pid), 5)
    }

    /// The opening exchange of a file read.
    pub fn file_read(&self, path: &str) -> (r: (Vec<u8>, i32))
        ensures
            r.0@ == spec_file_open_command(path.spec_bytes(), ascii_bytes("r"@)),
            r.1 == 5,
    {
        proof {
            reveal_strlit("r");
            vstd::string::is_ascii_spec_bytes("r");
            assert("r".spec_bytes() =~= ascii_bytes("r"@));
        }
        (file_open_command(path, "r"), 5)
    }

    /// The opening exchange of a file write: append or overwrite.
    pub fn file_write(&self, path: &str, append: Option<bool>) -> (r: (Vec<u8>, i32))
        ensures
            match append {
                Some(true) => r.0@ == spec_file_open_command(path.spec_bytes(), ascii_bytes("a"@)),
                _ => r.0@ == spec_file_open_command(path.spec_bytes(), ascii_bytes("w"@)),
            },
            r.1 == 5,
    {
        let ap: bool = match append {
            Some(a) => a,
            None => false,
        };
        let mode = file_write_mode(ap);
        proof {
            reveal_strlit("a");
            reveal_strlit("w");
            vstd::string::is_ascii_spec_bytes(mode);
            assert(mode.spec_bytes() =~= if ap { ascii_bytes("a"@) } else { ascii_bytes("w"@) });
        }
        (file_open_command(path, mode), 5)
    }

    /// The `guest-shutdown` exchange: a missing mode means `powerdown`.
    pub fn shutdown(&self, mode: Option<String>) -> (r: (Vec<u8>, i32))
        ensures
            r.0@ == spec_shutdown_command(
                match mode {
                    Some(m) => vstd::utf8::encode_utf8(m@),
                    None => ascii_bytes("powerdown"@),
                },
            ),
            r.1 == 5,
    {
        match mode {
            Some(m) => (shutdown_command(m.as_str()), 5),
            None => {
                proof {
                    reveal_strlit("powerdown");
                    vstd::string::is_ascii_spec_bytes("powerdown");
                    assert("powerdown".spec_bytes() =~= ascii_bytes("powerdown"@));
                }
                (shutdown_command("powerdown"), 5)
            },
        }
    }

    /// The `guest-sync` exchange.
    pub fn sync(&self) -> (r: (Vec<u8>, i32))
        ensures
            r.0@ == ascii_bytes("{\"execute\":\"guest-sync\"}"@),
            r.1 == 5,
    {
        (sync_command(), 5)
    }

    /// The `guest-set-time` exchange.
    pub fn set_time(&self, time: Option<i64>) -> (r: (Vec<u8>, i32))
        ensures
            r.0@ == spec_set_time_command(time),
            r.1 == 5,
    {
        (set_time_command(time), 5)
    }

    /// The `guest-network-get-interfaces` exchange.
    pub fn get_network_interfaces(&self) -> (r: (Vec<u8>, i32))
        ensures
            r.0@ == ascii_bytes("{\"execute\":\"guest-network-get-interfaces\"}"@),
            r.1 == 5,
    {
        (network_interfaces_command(), 5)
    }

    /// The `guest-get-osinfo` exchange.
    pub fn get_os_info(&self) -> (r: (Vec<u8>, i32))
        ensures
            r.0@ == ascii_bytes("{\"execute\":\"guest-get-osinfo\"}"@),
            r.1 == 5,
    {
        (os_info_command(), 5)
    }

    /// The `guest-get-users` exchange.
    pub fn get_users(&self) -> (r: (Vec<u8>, i32))
        ensures
            r.0@ == ascii_bytes("{\"execute\":\"guest-get-users\"}"@),
            r.1 == 5,
    {
        (users_command(), 5)
    }

    /// A raw exchange: exactly the command `raw_command` builds — the
    /// arguments attached precisely when their text parses as JSON.
    pub fn raw(&self, command: &str, arguments: Option<&str>) -> (r: (Vec<u8>, i32))
        ensures
            r.0@ == spec_raw_exchange(
                command.spec_bytes(),
                match arguments {
                    Some(a) => Some(a@),
                    None => None,
                },
            ),
            r.1 == 30,
    {
        (raw_command(command, arguments), 30)
    }
}

} // verus!
