//! The argument and environment vectors handed to the helper process.

use vstd::prelude::*;

use crate::error::BootstrapError;
use crate::text::{decimal_text, has_no_nul, is_c_text, pid_text};

verus! {

/// The byte strings held by a vector of byte vectors.
pub open spec fn byte_strings(v: Seq<Vec<u8>>) -> Seq<Seq<u8>> {
    v.map_values(|a: Vec<u8>| a@)
}

/// Every string of `v` may be handed to the operating system.
pub open spec fn all_c_text(v: Seq<Seq<u8>>) -> bool {
    forall|i: int| 0 <= i < v.len() ==> is_c_text(#[trigger] v[i])
}

/// `i` is the first position of `v` whose string holds a nul byte.
pub open spec fn first_non_c_text(v: Seq<Seq<u8>>, i: int) -> bool {
    &&& 0 <= i < v.len()
    &&& !is_c_text(v[i])
    &&& forall|j: int| 0 <= j < i ==> is_c_text(#[trigger] v[j])
}

/// The helper's argument vector. The order is a contract with the helper
/// binary: program, parent pid, crash context, minidump path, endpoint.
pub open spec fn argument_vector(
    program: Seq<u8>,
    parent_pid: int,
    crash_context: Seq<u8>,
    minidump_path: Seq<u8>,
    endpoint: Seq<u8>,
) -> Seq<Seq<u8>> {
    seq![program, decimal_text(parent_pid), crash_context, minidump_path, endpoint]
}

/// What building the argument vector yields: the vector when every argument
/// is nul-free, else the first offending position.
pub open spec fn arguments_outcome(
    r: Result<Vec<Vec<u8>>, BootstrapError>,
    program: Seq<u8>,
    parent_pid: int,
    crash_context: Seq<u8>,
    minidump_path: Seq<u8>,
    endpoint: Seq<u8>,
) -> bool {
    let args = argument_vector(program, parent_pid, crash_context, minidump_path, endpoint);
    &&& (r is Ok <==> all_c_text(args))
    &&& r matches Ok(v) ==> byte_strings(v@) == args
    &&& r matches Err(e) ==> (e matches BootstrapError::InvalidArgument { position }
        && first_non_c_text(args, position as int))
}

/// One `KEY=VALUE` environment entry.
pub open spec fn env_entry_text(key: Seq<u8>, value: Seq<u8>) -> Seq<u8> {
    key + seq![61u8] + value
}

/// The entries of an environment given as key/value pairs, in order.
pub open spec fn env_texts(vars: Seq<(Vec<u8>, Vec<u8>)>) -> Seq<Seq<u8>> {
    Seq::new(vars.len(), |i: int| env_entry_text(vars[i].0@, vars[i].1@))
}

fn append_bytes(out: &mut Vec<u8>, s: &[u8])
    ensures
        final(out)@ == old(out)@ + s@,
{
    let mut i: usize = 0;
    while i < s.len()
        invariant
            i <= s@.len(),
            out@ == old(out)@ + s@.subrange(0, i as int),
        decreases s@.len() - i,
    {
        out.push(s[i]);
        i = i + 1;
        assert(out@ =~= old(out)@ + s@.subrange(0, i as int));
    }
    assert(s@.subrange(0, i as int) =~= s@);
}

fn copy_bytes(s: &[u8]) -> (r: Vec<u8>)
    ensures
        r@ == s@,
{
    let mut out: Vec<u8> = Vec::new();
    append_bytes(&mut out, s);
    assert(out@ =~= s@);
    out
}

/// The position of the first string of `v` that holds a nul byte, if any.
pub fn first_invalid(v: &Vec<Vec<u8>>) -> (r: Option<usize>)
    ensures
        r is None <==> all_c_text(byte_strings(v@)),
        r matches Some(i) ==> first_non_c_text(byte_strings(v@), i as int),
{
    let mut i: usize = 0;
    while i < v.len()
        invariant
            i <= v@.len(),
            forall|j: int| 0 <= j < i ==> is_c_text(#[trigger] byte_strings(v@)[j]),
        decreases v@.len() - i,
    {
        if !has_no_nul(v[i].as_slice()) {
            assert(byte_strings(v@)[i as int] == v@[i as int]@);
            return Some(i);
        }
        i = i + 1;
    }
    None
}

/// The `KEY=VALUE` form of one environment variable.
pub fn env_entry(key: &[u8], value: &[u8]) -> (r: Vec<u8>)
    ensures
        r@ == env_entry_text(key@, value@),
{
    let mut out: Vec<u8> = Vec::new();
    append_bytes(&mut out, key);
    out.push(61u8);
    append_bytes(&mut out, value);
    assert(out@ =~= env_entry_text(key@, value@));
    out
}

/// The environment vector of the helper: every variable of `vars`, in order,
/// unfiltered, as `KEY=VALUE`. Fails on the first entry that holds a nul byte.
pub fn environment_block(vars: &Vec<(Vec<u8>, Vec<u8>)>) -> (r: Result<Vec<Vec<u8>>, BootstrapError>)
    ensures
        r is Ok <==> all_c_text(env_texts(vars@)),
        r matches Ok(v) ==> byte_strings(v@) == env_texts(vars@),
        r matches Err(e) ==> (e matches BootstrapError::InvalidEnvironment { index }
            && first_non_c_text(env_texts(vars@), index as int)),
{
    let mut out: Vec<Vec<u8>> = Vec::new();
    let mut i: usize = 0;
    while i < vars.len()
        invariant
            i <= vars@.len(),
            out@.len() == i,
            byte_strings(out@) == env_texts(vars@).subrange(0, i as int),
        decreases vars@.len() - i,
    {
        let entry = env_entry(vars[i].0.as_slice(), vars[i].1.as_slice());
        assert(entry@ == env_texts(vars@)[i as int]);
        let ghost before = out@;
        out.push(entry);
        i = i + 1;
        assert forall|k: int| 0 <= k < i implies byte_strings(out@)[k] == env_texts(vars@)[k] by {
            if k < i - 1 {
                assert(out@[k] == before[k]);
                assert(byte_strings(before)[k] == env_texts(vars@).subrange(0, i - 1)[k]);
            }
        }
        assert(byte_strings(out@) =~= env_texts(vars@).subrange(0, i as int));
    }
    assert(byte_strings(out@) =~= env_texts(vars@));
    match first_invalid(&out) {
        Some(index) => Err(BootstrapError::InvalidEnvironment { index }),
        None => Ok(out),
    }
}

/// The helper's argument vector for a parent with id `parent_pid`.
/// Fails on the first argument that holds a nul byte.
pub fn spawn_arguments(
    program: &[u8],
    parent_pid: i32,
    crash_context: &[u8],
    minidump_path: &[u8],
    endpoint: &[u8],
) -> (r: Result<Vec<Vec<u8>>, BootstrapError>)
    ensures
        arguments_outcome(r, program@, parent_pid as int, crash_context@, minidump_path@, endpoint@),
{
    let mut args: Vec<Vec<u8>> = Vec::new();
    args.push(copy_bytes(program));
    args.push(pid_text(parent_pid));
    args.push(copy_bytes(crash_context));
    args.push(copy_bytes(minidump_path));
    args.push(copy_bytes(endpoint));
    let ghost expected = argument_vector(
        program@,
        parent_pid as int,
        crash_context@,
        minidump_path@,
        endpoint@,
    );
    assert(byte_strings(args@) =~= expected);
    match first_invalid(&args) {
        Some(position) => Err(BootstrapError::InvalidArgument { position }),
        None => Ok(args),
    }
}

/// Relies on nix::unistd::getpid: the id of the calling process, which it
/// reports without failing.
#[verifier::external_body]
fn current_pid() -> (r: i32) {
    nix::unistd::getpid().as_raw()
}

/// The helper's argument vector, with the id of the calling process as the
/// parent pid.
pub fn helper_arguments(
    program: &[u8],
    crash_context: &[u8],
    minidump_path: &[u8],
    endpoint: &[u8],
) -> (r: Result<Vec<Vec<u8>>, BootstrapError>)
    ensures
        exists|pid: i32|
            arguments_outcome(r, program@, pid as int, crash_context@, minidump_path@, endpoint@),
{
    let pid = current_pid();
    spawn_arguments(program, pid, crash_context, minidump_path, endpoint)
}

} // verus!
