//! The local execution boundary: vetting a guest binary for the zkVM
//! host, judging an execution's outcome, the binary's content identifier,
//! and the receipt codec.
//!
//! Computing a binary's content identifier and decoding a serialized
//! session receipt are deterministic in their byte inputs and cannot
//! fault on a vetted binary, so they stay behind trusted contracts here,
//! each result named by an uninterpreted spec function of the bytes
//! alone. Running a guest is different in both respects: the executor
//! serves a guest-visible randomness system call from host entropy, so
//! the journal is not a function of the binary and the input; and a
//! running guest that touches an address outside its address space fails
//! a host-side assertion instead of returning an error, which no check
//! over the binary's bytes can rule out. The engine call is therefore
//! performed by the embedding program, and its outcome enters the library
//! as a value: `ExecEvent` is that value, `execution_outcome` judges it,
//! and the relay's per-event logic is verified for every value of it.
//!
//! The host loader trusts the program headers it parses: it stores one
//! 32-bit word per four bytes of each loadable segment and slices its
//! fixed-size pages at the word's address, so a segment placed at an
//! address that is not word-aligned makes it fault instead of fail, and a
//! segment whose file range runs past the end of the file can overflow
//! its offset arithmetic. The verified pre-check `elf_load_wf` reads the
//! same header fields and admits a binary only when every loadable
//! segment is word-aligned and lies inside the file; `compute_image_id`
//! requires it, the digest function tests it first, and the embedding
//! program tests it before handing a binary to the executor — loading can
//! then only fail, never fault.

use vstd::prelude::*;

use crate::errors::RelayError;
use crate::text::{copy_bytes, hex_encode, hex_encoded};

verus! {

/// The 32-byte content identifier of a guest binary, or `None` when the
/// binary cannot be loaded into a memory image; a function of the binary
/// alone.
pub uninterp spec fn image_id_of(elf: Seq<u8>) -> Option<Seq<u8>>;

/// The journal carried by a serialized session receipt, or `None` when
/// the bytes do not deserialize as one; a function of the bytes alone.
pub uninterp spec fn receipt_journal_of(buf: Seq<u8>) -> Option<Seq<u8>>;

/// The outcome of one local execution, as the embedding program reports
/// it from the engine.
#[derive(Debug, Clone, PartialEq, Eq)]
pub enum ExecEvent {
    /// The guest ran to completion with this journal.
    Output { journal: Vec<u8> },
    /// The guest binary did not load or the execution trapped.
    Trap,
}

/// Judges one local execution outcome: a completed run yields its
/// journal, and a binary that did not load or an execution that trapped
/// is `ExecutionFailed` — deterministic for the given binary and input,
/// and never retried.
pub fn execution_outcome(outcome: &ExecEvent) -> (r: Result<Vec<u8>, RelayError>)
    ensures
        (r is Ok) <==> (*outcome is Output),
        r matches Ok(j) ==> (outcome matches ExecEvent::Output { journal } && j@ == journal@),
        r matches Err(e) ==> e is ExecutionFailed,
{
    match outcome {
        ExecEvent::Output { journal } => Ok(copy_bytes(journal)),
        ExecEvent::Trap => Err(RelayError::ExecutionFailed),
    }
}

/// The little-endian 16-bit value at byte offset `i`.
pub open spec fn le16(s: Seq<u8>, i: int) -> int
    recommends
        0 <= i,
        i + 2 <= s.len(),
{
    s[i] as int + 256 * (s[i + 1] as int)
}

/// The little-endian 32-bit value at byte offset `i`.
pub open spec fn le32(s: Seq<u8>, i: int) -> int
    recommends
        0 <= i,
        i + 4 <= s.len(),
{
    s[i] as int + 256 * (s[i + 1] as int) + 65536 * (s[i + 2] as int) + 16777216 * (s[i
        + 3] as int)
}

/// Reads the little-endian 16-bit value at byte offset `i`.
fn read_le16(s: &Vec<u8>, i: usize) -> (r: u16)
    requires
        i + 2 <= s@.len(),
        s@.len() as int <= usize::MAX as int,
    ensures
        r as int == le16(s@, i as int),
{
    s[i] as u16 + 256 * (s[i + 1] as u16)
}

/// Reads the little-endian 32-bit value at byte offset `i`.
fn read_le32(s: &Vec<u8>, i: usize) -> (r: u32)
    requires
        i + 4 <= s@.len(),
        s@.len() as int <= usize::MAX as int,
    ensures
        r as int == le32(s@, i as int),
{
    s[i] as u32 + 256 * (s[i + 1] as u32) + 65536 * (s[i + 2] as u32) + 16777216 * (s[i
        + 3] as u32)
}

/// Whether the bytes begin with a 32-bit little-endian ELF header whose
/// program header table (one 32-byte entry per segment) lies inside the
/// file. Header layout: the program header offset is the 32-bit field at
/// byte 28, the entry size the 16-bit field at byte 42, and the entry
/// count the 16-bit field at byte 44.
pub open spec fn elf_header_wf(s: Seq<u8>) -> bool {
    &&& 52 <= s.len() <= 0xffffffff
    &&& s[0] == 0x7f
    &&& s[1] == 0x45
    &&& s[2] == 0x4c
    &&& s[3] == 0x46
    &&& s[4] == 1
    &&& s[5] == 1
    &&& le16(s, 42) == 32
    &&& le32(s, 28) + 32 * le16(s, 44) <= s.len()
}

/// Whether program header `k` is safe to hand to the host loader: a
/// loadable segment (type 1) must sit at a word-aligned virtual address
/// (the 32-bit field at entry byte 8), and its file range (offset at
/// entry byte 4 plus file size at entry byte 16) must lie inside the
/// file.
pub open spec fn elf_segment_wf(s: Seq<u8>, k: int) -> bool {
    let off = le32(s, 28) + 32 * k;
    le32(s, off) == 1 ==> (le32(s, off + 8) % 4 == 0 && le32(s, off + 4) + le32(s, off + 16)
        <= s.len())
}

/// Whether a binary may be handed to the host loader without a fault:
/// it is a 32-bit little-endian ELF whose program header table lies
/// inside the file and whose loadable segments are all word-aligned and
/// backed by bytes inside the file. Anything else is rejected before the
/// call.
pub open spec fn elf_load_wf(s: Seq<u8>) -> bool {
    elf_header_wf(s) && (forall|k: int| 0 <= k < le16(s, 44) ==> elf_segment_wf(s, k))
}

/// Decides `elf_load_wf` by reading the ELF header and each program
/// header.
pub fn check_elf_load_wf(elf: &Vec<u8>) -> (r: bool)
    ensures
        r <==> elf_load_wf(elf@),
{
    if elf.len() < 52 {
        return false;
    }
    if !(elf.len() as u64 <= 0xffffffffu64) {
        return false;
    }
    if !(elf[0] == 0x7f && elf[1] == 0x45 && elf[2] == 0x4c && elf[3] == 0x46 && elf[4] == 1
        && elf[5] == 1) {
        return false;
    }
    let phentsize = read_le16(elf, 42);
    if phentsize != 32 {
        return false;
    }
    let phoff = read_le32(elf, 28);
    let phnum = read_le16(elf, 44);
    if !((phoff as u64) + 32 * (phnum as u64) <= elf.len() as u64) {
        return false;
    }
    let mut k: usize = 0;
    while k < phnum as usize
        invariant
            elf_header_wf(elf@),
            phoff as int == le32(elf@, 28),
            phnum as int == le16(elf@, 44),
            k <= phnum as usize,
            forall|j: int| 0 <= j < k ==> elf_segment_wf(elf@, j),
        decreases phnum as int - k,
    {
        let off = phoff as usize + 32 * k;
        let ptype = read_le32(elf, off);
        if ptype == 1 {
            let vaddr = read_le32(elf, off + 8);
            if vaddr % 4 != 0 {
                proof {
                    assert(!elf_segment_wf(elf@, k as int));
                }
                return false;
            }
            let poff = read_le32(elf, off + 4);
            let fsz = read_le32(elf, off + 16);
            if !((poff as u64) + (fsz as u64) <= elf.len() as u64) {
                proof {
                    assert(!elf_segment_wf(elf@, k as int));
                }
                return false;
            }
        }
        k = k + 1;
    }
    true
}

/// Relies on risc0_zkvm's `Program::load_elf`, `MemoryImage::new` and
/// `MemoryImage::compute_id`: the computed identifier is a 32-byte digest
/// of the binary's memory image, a function of the binary alone. The
/// loader faults on a loadable segment at an address that is not
/// word-aligned, or with a file range outside the file, so callers must
/// establish `elf_load_wf` first; no guest code runs on this path.
#[verifier::external_body]
pub(crate) fn compute_image_id(elf: &Vec<u8>) -> (r: Option<Vec<u8>>)
    requires
        elf_load_wf(elf@),
    ensures
        (r is Some) <==> (image_id_of(elf@) is Some),
        r matches Some(d) ==> image_id_of(elf@) == Some(d@) && d@.len() == 32,
{
    let program = match risc0_zkvm::Program::load_elf(elf, risc0_zkvm::MEM_SIZE as u32) {
        Ok(p) => p,
        Err(_) => return None,
    };
    let image = match risc0_zkvm::MemoryImage::new(&program, risc0_zkvm::PAGE_SIZE as u32) {
        Ok(i) => i,
        Err(_) => return None,
    };
    Some(image.compute_id().as_bytes().to_vec())
}

/// Relies on bincode's `deserialize` for risc0_zkvm's `SessionReceipt`:
/// the decoded receipt's journal is a function of the serialized bytes
/// alone.
#[verifier::external_body]
pub(crate) fn decode_receipt(buf: &Vec<u8>) -> (r: Option<Vec<u8>>)
    ensures
        (r is Some) <==> (receipt_journal_of(buf@) is Some),
        r matches Some(j) ==> receipt_journal_of(buf@) == Some(j@),
{
    match bincode::deserialize::<risc0_zkvm::SessionReceipt>(buf) {
        Ok(receipt) => Some(receipt.journal),
        Err(_) => None,
    }
}

/// The lowercase hexadecimal spelling of the content identifier of a
/// binary: 64 hexadecimal digits for the 32-byte digest. A binary the
/// loader would fault on, or one without a loadable memory image, fails
/// with `ExecutionFailed`.
pub fn get_digest(elf: &Vec<u8>) -> (r: Result<Vec<u8>, RelayError>)
    ensures
        (r is Ok) <==> (elf_load_wf(elf@) && image_id_of(elf@) is Some),
        r matches Ok(h) ==> (image_id_of(elf@) matches Some(id) && h@ == hex_encoded(id)
            && h@.len() == 64),
        r matches Err(e) ==> e is ExecutionFailed,
{
    if !check_elf_load_wf(elf) {
        return Err(RelayError::ExecutionFailed);
    }
    match compute_image_id(elf) {
        Some(id) => Ok(hex_encode(&id)),
        None => Err(RelayError::ExecutionFailed),
    }
}

} // verus!
