//! The image registry: a static list of guest programs, each with a
//! logical name and the 32-byte content identifier of its binary, and the
//! resolution of a request's selector to one of them.
//!
//! A selector is either a hexadecimal spelling of a content identifier
//! (optionally `0x`-prefixed, either letter case) or a case-insensitive
//! logical name. Malformed hexadecimal is not an error: it simply never
//! matches the identifier path and falls through to name matching.

use vstd::prelude::*;

use crate::errors::RelayError;
use crate::text::{
    all_hex_digits, bytes_eq, copy_bytes, hex_decode, hex_decoded, hex_encode, hex_encoded,
    lemma_hex_encoded_shape, lemma_hex_round_trip, lemma_lower_of_case_variant,
    lemma_strip_of_hex, lower_byte, lower_seq, strip_hex_prefix, strip_hex_prefix_bytes,
    to_lower_ascii, to_upper_ascii, upper_seq,
};

verus! {

/// One registered guest program: a logical name, the 32-byte content
/// identifier of its binary, and the binary itself.
#[derive(Debug, Clone)]
pub struct ImageEntry {
    pub name: Vec<u8>,
    pub image_id: Vec<u8>,
    pub elf: Vec<u8>,
}

/// The mathematical value of an `ImageEntry`.
pub ghost struct ImageEntryView {
    pub name: Seq<u8>,
    pub image_id: Seq<u8>,
    pub elf: Seq<u8>,
}

impl View for ImageEntry {
    type V = ImageEntryView;

    open spec fn view(&self) -> ImageEntryView {
        ImageEntryView { name: self.name@, image_id: self.image_id@, elf: self.elf@ }
    }
}

/// Well-formedness of one entry: a 32-byte content identifier, and a name
/// without lowercase letters (selectors are uppercased before name
/// comparison, so only such a name can ever be matched).
pub open spec fn entry_wf(e: ImageEntryView) -> bool {
    e.image_id.len() == 32 && upper_seq(e.name) == e.name
}

/// The content identifier denoted by a selector: the selector is case
/// folded, every leading `0x` pair is removed, and the rest must be
/// hexadecimal for exactly 32 bytes; any other selector denotes none.
pub open spec fn selector_image_id(sel: Seq<u8>) -> Option<Seq<u8>> {
    let t = strip_hex_prefix(lower_seq(sel));
    if t.len() == 64 && all_hex_digits(t) {
        Some(hex_decoded(t))
    } else {
        None
    }
}

/// Whether an entry answers a selector: by content identifier written in
/// hexadecimal, or by case-insensitive logical name.
pub open spec fn entry_matches(e: ImageEntryView, sel: Seq<u8>) -> bool {
    e.name == upper_seq(sel) || selector_image_id(sel) == Some(e.image_id)
}

/// Whether any entry of the list answers the selector.
pub open spec fn some_entry_matches(list: Seq<ImageEntry>, sel: Seq<u8>) -> bool {
    exists|i: int| 0 <= i < list.len() && entry_matches(list[i]@, sel)
}

/// The registry invariant: entries are well formed, logical names and
/// content identifiers are unique, and no logical name collides with a
/// selector that denotes a registered identifier, so that every selector
/// designates at most one entry.
pub open spec fn registry_ok(list: Seq<ImageEntry>) -> bool {
    &&& forall|i: int| 0 <= i < list.len() ==> entry_wf(#[trigger] list[i]@)
    &&& forall|i: int, j: int|
        0 <= i < list.len() && 0 <= j < list.len() && i != j ==> #[trigger] list[i]@.name
            != #[trigger] list[j]@.name
    &&& forall|i: int, j: int|
        0 <= i < list.len() && 0 <= j < list.len() && i != j ==> #[trigger] list[i]@.image_id
            != #[trigger] list[j]@.image_id
    &&& forall|i: int, j: int|
        0 <= i < list.len() && 0 <= j < list.len() ==> #[trigger] list[i]@.name != upper_seq(
            hex_encoded(#[trigger] list[j]@.image_id),
        )
    &&& forall|i: int, j: int|
        0 <= i < list.len() && 0 <= j < list.len() ==> #[trigger] list[i]@.name != upper_seq(
            seq![48u8, 120u8] + hex_encoded(#[trigger] list[j]@.image_id),
        )
    &&& forall|i: int, j: int|
        0 <= i < list.len() && 0 <= j < list.len() ==> selector_image_id(
            #[trigger] list[i]@.name,
        ) != Some(#[trigger] list[j]@.image_id)
}

/// Parses a selector as the hexadecimal spelling of a 32-byte content
/// identifier; `None` for any selector that does not denote one.
pub fn parse_selector_id(selector: &Vec<u8>) -> (r: Option<Vec<u8>>)
    ensures
        (r is Some) <==> (selector_image_id(selector@) is Some),
        r matches Some(v) ==> selector_image_id(selector@) == Some(v@) && v@.len() == 32,
{
    let low = to_lower_ascii(selector);
    let stripped = strip_hex_prefix_bytes(&low);
    if stripped.len() != 64 {
        return None;
    }
    hex_decode(&stripped)
}

/// Resolves a selector against the registered guest list: the identifier
/// path and the name path are both tried, and the first entry (in list
/// order) that answers either is returned. When no entry answers, the
/// request is rejected with `UnknownImage`, carrying the selector and the
/// hex-encoded identifiers of all known guests.
pub fn resolve_guest_entry<'a>(guest_list: &'a Vec<ImageEntry>, guest_binary: &Vec<u8>) -> (r:
    Result<&'a ImageEntry, RelayError>)
    ensures
        (r is Ok) <==> some_entry_matches(guest_list@, guest_binary@),
        r matches Ok(e) ==> (exists|i: int|
            0 <= i < guest_list@.len() && *e == guest_list@[i] && entry_matches(
                guest_list@[i]@,
                guest_binary@,
            ) && (forall|j: int|
                0 <= j < i ==> !entry_matches(#[trigger] guest_list@[j]@, guest_binary@))),
        r matches Err(err) ==> (err matches RelayError::UnknownImage { selector, known }
            && selector@ == guest_binary@ && known@.len() == guest_list@.len() && (forall|i: int|
            0 <= i < guest_list@.len() ==> #[trigger] known@[i]@ == hex_encoded(
                guest_list@[i]@.image_id,
            ))),
{
    let sel_upper = to_upper_ascii(guest_binary);
    let sel_id = parse_selector_id(guest_binary);
    let mut i: usize = 0;
    while i < guest_list.len()
        invariant
            i <= guest_list@.len(),
            sel_upper@ == upper_seq(guest_binary@),
            (sel_id is Some) <==> (selector_image_id(guest_binary@) is Some),
            sel_id matches Some(v) ==> selector_image_id(guest_binary@) == Some(v@),
            forall|j: int| 0 <= j < i ==> !entry_matches(#[trigger] guest_list@[j]@, guest_binary@),
        decreases guest_list@.len() - i,
    {
        let entry = &guest_list[i];
        let name_hit = bytes_eq(&entry.name, &sel_upper);
        let id_hit = match &sel_id {
            Some(idb) => bytes_eq(&entry.image_id, idb),
            None => false,
        };
        if name_hit || id_hit {
            return Ok(entry);
        }
        i = i + 1;
    }
    let mut known: Vec<Vec<u8>> = Vec::new();
    let mut k: usize = 0;
    while k < guest_list.len()
        invariant
            k <= guest_list@.len(),
            known@.len() == k,
            forall|j: int|
                0 <= j < k ==> #[trigger] known@[j]@ == hex_encoded(guest_list@[j]@.image_id),
        decreases guest_list@.len() - k,
    {
        known.push(hex_encode(&guest_list[k].image_id));
        k = k + 1;
    }
    Err(RelayError::UnknownImage { selector: copy_bytes(guest_binary), known })
}

/// A selector that is the hexadecimal spelling of an identifier, with or
/// without a leading `0x`, denotes exactly that identifier.
#[verifier::rlimit(100)]
pub proof fn lemma_hex_selector_denotes(id: Seq<u8>, hex_sel: Seq<u8>)
    requires
        id.len() == 32,
        hex_sel == hex_encoded(id) || hex_sel == seq![48u8, 120u8] + hex_encoded(id),
    ensures
        selector_image_id(hex_sel) == Some(id),
{
    let h = hex_encoded(id);
    lemma_hex_encoded_shape(id);
    lemma_strip_of_hex(id);
    lemma_hex_round_trip(id);
    assert forall|k: int| 0 <= k < hex_sel.len() implies lower_byte(#[trigger] hex_sel[k])
        == hex_sel[k] by {
        if hex_sel == seq![48u8, 120u8] + h {
            if k >= 2 {
                assert(hex_sel[k] == h[k - 2]);
                assert(lower_seq(h)[k - 2] == h[k - 2]);
            }
        } else {
            assert(lower_seq(h)[k] == h[k]);
        }
    }
    assert(lower_seq(hex_sel) =~= hex_sel);
    assert(strip_hex_prefix(lower_seq(hex_sel)) == h);
    assert(selector_image_id(hex_sel) == Some(id));
}

/// For every registered entry of a registry that satisfies the registry
/// invariant, a selector that is any letter-case variant of the entry's
/// logical name, and a selector that is the lowercase hexadecimal
/// spelling of its content identifier (with or without a leading `0x`),
/// both designate that entry and no other: resolution by name and by
/// identifier agree.
pub proof fn lemma_resolution_agrees(list: Seq<ImageEntry>, i: int, name_sel: Seq<u8>, hex_sel: Seq<u8>)
    requires
        registry_ok(list),
        0 <= i < list.len(),
        upper_seq(name_sel) == list[i]@.name,
        hex_sel == hex_encoded(list[i]@.image_id) || hex_sel == seq![48u8, 120u8] + hex_encoded(
            list[i]@.image_id,
        ),
    ensures
        entry_matches(list[i]@, name_sel),
        entry_matches(list[i]@, hex_sel),
        forall|j: int|
            0 <= j < list.len() && j != i ==> !entry_matches(#[trigger] list[j]@, name_sel),
        forall|j: int|
            0 <= j < list.len() && j != i ==> !entry_matches(#[trigger] list[j]@, hex_sel),
{
    let id = list[i]@.image_id;
    lemma_hex_selector_denotes(id, hex_sel);
    assert(entry_matches(list[i]@, hex_sel));
    assert(entry_matches(list[i]@, name_sel));

    // The name selector denotes the same identifier (if any) as the stored
    // name itself, because both case fold to the same byte string.
    lemma_lower_of_case_variant(name_sel, list[i]@.name);
    assert(lower_seq(name_sel) == lower_seq(list[i]@.name));
    assert(selector_image_id(name_sel) == selector_image_id(list[i]@.name));

    assert forall|j: int| 0 <= j < list.len() && j != i implies !entry_matches(
        #[trigger] list[j]@,
        name_sel,
    ) by {
        assert(list[j]@.name != list[i]@.name);
        assert(selector_image_id(name_sel) != Some(list[j]@.image_id));
    }
    assert forall|j: int| 0 <= j < list.len() && j != i implies !entry_matches(
        #[trigger] list[j]@,
        hex_sel,
    ) by {
        assert(list[j]@.name != upper_seq(hex_sel));
        assert(list[j]@.image_id != list[i]@.image_id);
    }
}

} // verus!
