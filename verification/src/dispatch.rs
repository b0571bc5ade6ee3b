//! Backend selection and the dispatcher: a closed set of execution
//! strategies (local, local with attestation, remote) selected once per
//! dispatch from a configuration value, with an explicit rejection of
//! unrecognized values.

use vstd::prelude::*;

use crate::errors::RelayError;
use crate::exec::{check_elf_load_wf, elf_load_wf, execution_outcome, ExecEvent};
use crate::registry::ImageEntry;
use crate::text::{
    all_hex_digits, copy_bytes, hex_decode, hex_decoded, strip_hex_prefix, strip_hex_prefix_bytes,
};

verus! {

/// The execution strategy of one dispatch.
#[derive(Debug, Clone, Copy, PartialEq, Eq, Structural)]
pub enum BackendMode {
    /// Execute on this machine; no attestation.
    Local,
    /// Execute on this machine and prove the execution before returning.
    /// A strict superset of `Local` that returns the same output.
    LocalWithAttestation,
    /// Delegate to the remote proving service.
    Remote,
}

/// The answer of the remote service's backend-availability probe.
#[derive(Debug, Clone, Copy, PartialEq, Eq, Structural)]
pub struct AlphaRes {
    pub alpha: bool,
}

/// The configuration keyword that selects local execution (the bytes of
/// `local`).
pub open spec fn local_keyword() -> Seq<u8> {
    seq![108u8, 111u8, 99u8, 97u8, 108u8]
}

/// The configuration keyword that selects remote proving (the bytes of
/// `bonsai`).
pub open spec fn remote_keyword() -> Seq<u8> {
    seq![98u8, 111u8, 110u8, 115u8, 97u8, 105u8]
}

/// The view of an optional configuration value.
pub open spec fn opt_bytes_view(v: Option<Vec<u8>>) -> Option<Seq<u8>> {
    match v {
        None => None,
        Some(b) => Some(b@),
    }
}

/// The backend a proving-mode configuration value selects: unset, empty
/// and `local` select local execution (attested when attestation is
/// configured), `bonsai` selects remote proving, and anything else
/// selects nothing.
pub open spec fn selected_backend(value: Option<Seq<u8>>, attest: bool) -> Option<BackendMode> {
    match value {
        None => Some(if attest { BackendMode::LocalWithAttestation } else { BackendMode::Local }),
        Some(v) => if v =~= Seq::<u8>::empty() || v == local_keyword() {
            Some(if attest { BackendMode::LocalWithAttestation } else { BackendMode::Local })
        } else if v == remote_keyword() {
            Some(BackendMode::Remote)
        } else {
            None
        },
    }
}

/// Whether a byte string is the `local` keyword.
fn is_local_keyword(s: &Vec<u8>) -> (r: bool)
    ensures
        r <==> s@ == local_keyword(),
{
    let r = s.len() == 5 && s[0] == 108 && s[1] == 111 && s[2] == 99 && s[3] == 97 && s[4] == 108;
    proof {
        if r {
            assert(s@ =~= local_keyword());
        }
    }
    r
}

/// Whether a byte string is the `bonsai` keyword.
fn is_remote_keyword(s: &Vec<u8>) -> (r: bool)
    ensures
        r <==> s@ == remote_keyword(),
{
    let r = s.len() == 6 && s[0] == 98 && s[1] == 111 && s[2] == 110 && s[3] == 115 && s[4] == 97
        && s[5] == 105;
    proof {
        if r {
            assert(s@ =~= remote_keyword());
        }
    }
    r
}

/// Selects the execution backend from the proving-mode configuration
/// value (and whether attestation is configured for local runs). An
/// unrecognized value is rejected at once with `InvalidBackendConfig`,
/// carrying that value.
pub fn select_backend(value: &Option<Vec<u8>>, attest: bool) -> (r: Result<BackendMode, RelayError>)
    ensures
        (r is Ok) <==> (selected_backend(opt_bytes_view(*value), attest) is Some),
        r matches Ok(m) ==> selected_backend(opt_bytes_view(*value), attest) == Some(m),
        r matches Err(e) ==> (e matches RelayError::InvalidBackendConfig { value: v } && (
        *value matches Some(orig) && v@ == orig@)),
{
    match value {
        None => Ok(
            if attest {
                BackendMode::LocalWithAttestation
            } else {
                BackendMode::Local
            },
        ),
        Some(v) => {
            if v.len() == 0 || is_local_keyword(v) {
                proof {
                    if v@.len() == 0 {
                        assert(v@ =~= Seq::<u8>::empty());
                    }
                }
                Ok(
                    if attest {
                        BackendMode::LocalWithAttestation
                    } else {
                        BackendMode::Local
                    },
                )
            } else if is_remote_keyword(v) {
                Ok(BackendMode::Remote)
            } else {
                Err(RelayError::InvalidBackendConfig { value: copy_bytes(v) })
            }
        },
    }
}

/// The number of `|` bytes in a string.
pub open spec fn pipe_count(s: Seq<u8>) -> int
    decreases s.len(),
{
    if s.len() == 0 {
        0
    } else {
        pipe_count(s.drop_last()) + if s.last() == 124 { 1int } else { 0int }
    }
}

/// Splits the remote endpoint configuration value on `|` into the
/// service address and the access key. The value must hold exactly two
/// parts — exactly one `|` — or it is rejected as malformed.
pub fn parse_endpoint(s: &Vec<u8>) -> (r: Option<(Vec<u8>, Vec<u8>)>)
    ensures
        (r is Some) <==> pipe_count(s@) == 1,
        r matches Some(p) ==> (exists|i: int|
            0 <= i < s@.len() && s@[i] == 124 && p.0@ == s@.take(i) && p.1@ == s@.skip(i + 1)),
{
    let mut first: usize = 0;
    let mut count: usize = 0;
    let mut i: usize = 0;
    proof {
        assert(s@.take(0) =~= Seq::<u8>::empty());
    }
    while i < s.len()
        invariant
            i <= s@.len(),
            count as int == pipe_count(s@.take(i as int)),
            count <= i,
            count > 0 ==> (first < i && s@[first as int] == 124),
        decreases s@.len() - i,
    {
        if s[i] == 124 {
            if count == 0 {
                first = i;
            }
            count = count + 1;
        }
        proof {
            let t1 = s@.take(i as int + 1);
            assert(t1.drop_last() =~= s@.take(i as int));
            assert(t1.last() == s@[i as int]);
        }
        i = i + 1;
    }
    proof {
        assert(s@.take(s@.len() as int) =~= s@);
    }
    if count != 1 {
        return None;
    }
    let mut url: Vec<u8> = Vec::new();
    let mut j: usize = 0;
    while j < first
        invariant
            j <= first < s@.len(),
            url@ == s@.subrange(0, j as int),
        decreases first - j,
    {
        url.push(s[j]);
        proof {
            assert(url@ =~= s@.subrange(0, j as int + 1));
        }
        j = j + 1;
    }
    let mut key: Vec<u8> = Vec::new();
    let mut m: usize = first + 1;
    while m < s.len()
        invariant
            first as int + 1 <= m <= s@.len(),
            key@ == s@.subrange(first as int + 1, m as int),
        decreases s@.len() - m,
    {
        key.push(s[m]);
        proof {
            assert(key@ =~= s@.subrange(first as int + 1, m as int + 1));
        }
        m = m + 1;
    }
    proof {
        assert(url@ =~= s@.take(first as int));
        assert(key@ =~= s@.skip(first as int + 1));
    }
    Some((url, key))
}

/// The bytes denoted by a hexadecimal input string with every leading
/// `0x` pair removed; `None` when what remains is not hexadecimal of even
/// length.
pub open spec fn decoded_input(s: Seq<u8>) -> Option<Seq<u8>> {
    let t = strip_hex_prefix(s);
    if t.len() % 2 == 0 && all_hex_digits(t) {
        Some(hex_decoded(t))
    } else {
        None
    }
}

/// Decodes a hexadecimal input string (optionally `0x`-prefixed).
pub fn decode_input_hex(input: &Vec<u8>) -> (r: Option<Vec<u8>>)
    ensures
        (r is Some) <==> (decoded_input(input@) is Some),
        r matches Some(v) ==> decoded_input(input@) == Some(v@),
{
    let stripped = strip_hex_prefix_bytes(input);
    hex_decode(&stripped)
}

/// Resolves the output of a request on a local backend: the input must
/// decode from hexadecimal, the guest binary must pass the loader
/// pre-check, and the execution — run by the embedding program on the
/// decoded input, attested when the mode says so — must have completed;
/// then the journal is the output. An input that does not decode, a
/// binary the loader would fault on, and an execution that trapped are
/// all deterministic and surface as `ExecutionFailed`, never retried.
/// A remote-mode request is not answered here: it is delegated to the
/// remote proving machine, which the surrounding loop drives event by
/// event. Attestation changes only what guarantees accompany the run,
/// never the journal judged here.
pub fn resolve_image_output(
    input: &Vec<u8>,
    guest_entry: &ImageEntry,
    mode: &BackendMode,
    outcome: &ExecEvent,
) -> (r: Result<Vec<u8>, RelayError>)
    requires
        !(*mode is Remote),
    ensures
        (r is Ok) <==> (decoded_input(input@) is Some && elf_load_wf(guest_entry@.elf) && *outcome
            is Output),
        r matches Ok(j) ==> (outcome matches ExecEvent::Output { journal } && j@ == journal@),
        r matches Err(e) ==> e is ExecutionFailed,
{
    if decode_input_hex(input).is_none() {
        return Err(RelayError::ExecutionFailed);
    }
    if !check_elf_load_wf(&guest_entry.elf) {
        return Err(RelayError::ExecutionFailed);
    }
    execution_outcome(outcome)
}

} // verus!
