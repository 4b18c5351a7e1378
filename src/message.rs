//! Decoding of a received frame (header and payload bytes) into a typed message.

use crate::header::{ControlMessageType, DataMessageType, Header, MessageType};
use crate::pdo::{is_valid_pdo_word, pdo_of, PowerDataObject, VDMHeader};
use crate::wire::{read_u32_le, word_at};
use vstd::prelude::*;

verus! {

#[verifier::external_type_specification]
#[verifier::external_body]
#[verifier::reject_recursive_types(T)]
pub struct ExHeaplessVec<T, const N: usize>(heapless::Vec<T, N>);

/// What a list of at most eight power data objects holds, in order.
pub uninterp spec fn objects_of(v: heapless::Vec<PowerDataObject, 8>) -> Seq<PowerDataObject>;

/// Relies on heapless's `Vec::new`: a vector with no items.
#[verifier::external_body]
fn objects_new() -> (r: heapless::Vec<PowerDataObject, 8>)
    ensures
        objects_of(r) == Seq::<PowerDataObject>::empty(),
{
    heapless::Vec::new()
}

/// Relies on heapless's `Vec::push`: below the capacity of eight the item is
/// appended and `Ok` returned; at the capacity the vector is left alone and
/// the item handed back.
#[verifier::external_body]
fn objects_push(v: &mut heapless::Vec<PowerDataObject, 8>, x: PowerDataObject) -> (r: Result<(), PowerDataObject>)
    ensures
        objects_of(*old(v)).len() < 8 ==> r is Ok && objects_of(*final(v)) == objects_of(*old(v)).push(x),
        objects_of(*old(v)).len() >= 8 ==> r is Err && r->Err_0 == x && objects_of(*final(v)) == objects_of(*old(v)),
{
    v.push(x)
}

/// Relies on heapless's `Vec` length (through its slice): the number of
/// items, never above the capacity of eight.
#[verifier::external_body]
pub(crate) fn objects_len(v: &heapless::Vec<PowerDataObject, 8>) -> (r: usize)
    ensures
        r == objects_of(*v).len(),
        r <= 8,
{
    v.len()
}

/// Relies on heapless's `Vec` indexing (through its slice): the item at `i`.
#[verifier::external_body]
pub(crate) fn objects_get(v: &heapless::Vec<PowerDataObject, 8>, i: usize) -> (r: PowerDataObject)
    requires
        i < objects_of(*v).len(),
    ensures
        r == objects_of(*v)[i as int],
{
    v[i]
}

/// A received message.
pub enum Message {
    Accept,
    Reject,
    Ready,
    SourceCapabilities(heapless::Vec<PowerDataObject, 8>),
    VendorDefined(VDMHeader),
    SoftReset,
    Unknown,
}

/// The decoded objects among the first `count` words of `payload`: each
/// word in turn while all before it were valid; decoding stops at the first
/// word that no source can send.
pub open spec fn decoded_prefix(payload: Seq<u8>, count: nat) -> Seq<PowerDataObject>
    decreases count,
{
    if count == 0 {
        Seq::empty()
    } else {
        let prev = decoded_prefix(payload, (count - 1) as nat);
        let w = word_at(payload, count - 1);
        if prev.len() == count - 1 && is_valid_pdo_word(w) {
            prev.push(pdo_of(w))
        } else {
            prev
        }
    }
}

/// How many words a Source Capabilities payload offers: as many as the
/// header announces, no more than whole words of the payload, and no more
/// than eight.
pub open spec fn capability_word_count(payload_len: nat, num_objects: nat) -> nat {
    let whole = payload_len / 4;
    let n = if num_objects < whole { num_objects } else { whole };
    if n < 8 { n } else { 8 }
}

/// The objects of a Source Capabilities message.
pub open spec fn capabilities_of(payload: Seq<u8>, num_objects: nat) -> Seq<PowerDataObject> {
    decoded_prefix(payload, capability_word_count(payload.len(), num_objects))
}

proof fn lemma_decoded_prefix_len(payload: Seq<u8>, count: nat)
    ensures
        decoded_prefix(payload, count).len() <= count,
    decreases count,
{
    if count > 0 {
        lemma_decoded_prefix_len(payload, (count - 1) as nat);
    }
}

/// Once decoding has stopped short, later words change nothing.
proof fn lemma_decoded_prefix_stops(payload: Seq<u8>, i: nat, j: nat)
    requires
        i <= j,
        decoded_prefix(payload, i).len() < i,
    ensures
        decoded_prefix(payload, j) == decoded_prefix(payload, i),
    decreases j - i,
{
    if i < j {
        lemma_decoded_prefix_stops(payload, i, (j - 1) as nat);
        lemma_decoded_prefix_len(payload, i);
    }
}

/// With every word valid, all of the first `count` words are decoded, in order.
proof fn lemma_decoded_prefix_all_valid(payload: Seq<u8>, count: nat)
    requires
        forall|i: int| 0 <= i < count ==> is_valid_pdo_word(#[trigger] word_at(payload, i)),
    ensures
        decoded_prefix(payload, count).len() == count,
        forall|i: int|
            0 <= i < count ==> decoded_prefix(payload, count)[i] == pdo_of(word_at(payload, i)),
    decreases count,
{
    if count > 0 {
        lemma_decoded_prefix_all_valid(payload, (count - 1) as nat);
        assert(is_valid_pdo_word(word_at(payload, count - 1)));
    }
}

/// A Source Capabilities payload of exactly `4n` bytes, under a header that
/// announces `n` objects, decodes to exactly `n` objects, the `i`-th being
/// the decoded `i`-th word.
pub proof fn lemma_capabilities_exact_payload(payload: Seq<u8>, n: nat)
    requires
        n <= 8,
        payload.len() == 4 * n,
        forall|i: int| 0 <= i < n ==> is_valid_pdo_word(#[trigger] word_at(payload, i)),
    ensures
        capabilities_of(payload, n).len() == n,
        forall|i: int| 0 <= i < n ==> capabilities_of(payload, n)[i] == pdo_of(word_at(payload, i)),
{
    assert(capability_word_count(payload.len(), n) == n);
    lemma_decoded_prefix_all_valid(payload, n);
}

/// A Source Capabilities payload shorter than the `4n` bytes that its header
/// announces decodes to one object for each whole word it holds.
pub proof fn lemma_capabilities_short_payload(payload: Seq<u8>, n: nat)
    requires
        n <= 8,
        payload.len() < 4 * n,
        forall|i: int| 0 <= i < payload.len() / 4 ==> is_valid_pdo_word(#[trigger] word_at(payload, i)),
    ensures
        capabilities_of(payload, n).len() == payload.len() / 4,
{
    assert(capability_word_count(payload.len(), n) == payload.len() / 4);
    lemma_decoded_prefix_all_valid(payload, payload.len() / 4);
}

impl Message {
    /// Decodes a frame. Control messages ignore the payload. A Source
    /// Capabilities payload yields the objects of `capabilities_of`. A vendor
    /// defined message keeps the header word of its payload, or is `Unknown`
    /// when the payload holds fewer than four bytes. Any other kind is `Unknown`.
    pub fn parse(header: Header, payload: &[u8]) -> (r: Message)
        ensures
            header.message_type == MessageType::Control(ControlMessageType::Accept) ==> r
                is Accept,
            header.message_type == MessageType::Control(ControlMessageType::Reject) ==> r
                is Reject,
            header.message_type == MessageType::Control(ControlMessageType::PsRdy) ==> r is Ready,
            header.message_type == MessageType::Control(ControlMessageType::SoftReset) ==> r
                is SoftReset,
            header.message_type == MessageType::Data(DataMessageType::SourceCapabilities) ==> (r
                is SourceCapabilities && objects_of(r->SourceCapabilities_0) == capabilities_of(
                payload@,
                header.num_objects as nat,
            )),
            header.message_type == MessageType::Data(DataMessageType::VendorDefined) ==> (if payload@.len()
                >= 4 {
                r == Message::VendorDefined(VDMHeader(word_at(payload@, 0)))
            } else {
                r is Unknown
            }),
            !(header.message_type == MessageType::Control(ControlMessageType::Accept)
                || header.message_type == MessageType::Control(ControlMessageType::Reject)
                || header.message_type == MessageType::Control(ControlMessageType::PsRdy)
                || header.message_type == MessageType::Control(ControlMessageType::SoftReset)
                || header.message_type == MessageType::Data(DataMessageType::SourceCapabilities)
                || header.message_type == MessageType::Data(DataMessageType::VendorDefined)) ==> r
                is Unknown,
    {
        match header.message_type {
            MessageType::Control(ControlMessageType::Accept) => Message::Accept,
            MessageType::Control(ControlMessageType::Reject) => Message::Reject,
            MessageType::Control(ControlMessageType::PsRdy) => Message::Ready,
            MessageType::Control(ControlMessageType::SoftReset) => Message::SoftReset,
            MessageType::Data(DataMessageType::SourceCapabilities) => {
                Message::SourceCapabilities(parse_capabilities(header.num_objects, payload))
            },
            MessageType::Data(DataMessageType::VendorDefined) => {
                if payload.len() >= 4 {
                    Message::VendorDefined(VDMHeader(read_u32_le(payload, 0)))
                } else {
                    Message::Unknown
                }
            },
            _ => Message::Unknown,
        }
    }
}

fn parse_capabilities(num_objects: u8, payload: &[u8]) -> (r: heapless::Vec<PowerDataObject, 8>)
    ensures
        objects_of(r) == capabilities_of(payload@, num_objects as nat),
{
    let whole = payload.len() / 4;
    let mut count: usize = if (num_objects as usize) < whole {
        num_objects as usize
    } else {
        whole
    };
    if count > 8 {
        count = 8;
    }
    assert(count == capability_word_count(payload@.len(), num_objects as nat));
    let mut objects = objects_new();
    let mut i: usize = 0;
    while i < count
        invariant
            count == capability_word_count(payload@.len(), num_objects as nat),
            count <= 8,
            count <= payload@.len() / 4,
            i <= count,
            objects_of(objects) == decoded_prefix(payload@, i as nat),
            objects_of(objects).len() == i,
        decreases count - i,
    {
        let w = read_u32_le(payload, 4 * i);
        if !PowerDataObject::is_valid_word(w) {
            proof {
                assert(w == word_at(payload@, i as int));
                assert(decoded_prefix(payload@, (i + 1) as nat) == decoded_prefix(payload@, i as nat));
                lemma_decoded_prefix_stops(payload@, (i + 1) as nat, count as nat);
            }
            return objects;
        }
        let _ = objects_push(&mut objects, PowerDataObject::decode(w));
        i = i + 1;
    }
    objects
}

} // verus!
