//! The sender flow: turning a batch of named values into the wire
//! datagrams that the embedding application sends, one per entry, to the
//! loopback host on the batch's port.
//!
//! Everything up to the socket is decided and proved here: the address
//! path derived from each name, the exact bytes of each datagram, which
//! batches are accepted, and which error identifies a failing entry. The
//! application performs the sends and reports a transport failure through
//! [`report_send_failure`], so even that report is pinned to the entry it
//! belongs to.

use vstd::prelude::*;
use crate::codec;

verus! {

/// One entry of a batch: a name and the 32-bit pattern of its value.
///
/// The name holds the text of the identifier as bytes; the value is
/// carried bit-for-bit, so the wire argument equals the caller's value
/// exactly.
#[derive(Debug, Clone)]
pub struct BlendshapeEntry {
    pub name: Vec<u8>,
    pub value_bits: u32,
}

/// A batch of named values bound for one destination port.
///
/// Names are expected to be unique within a batch (the caller builds the
/// batch from a mapping); their order carries no meaning.
#[derive(Debug, Clone)]
pub struct BlendshapeData {
    pub data: Vec<BlendshapeEntry>,
    pub port: u16,
}

/// One outbound datagram, still tagged with the entry it came from so a
/// transport failure can identify the entry.
#[derive(Debug, Clone, PartialEq, Eq)]
pub struct Datagram {
    pub name: Vec<u8>,
    pub payload: Vec<u8>,
}

/// Everything that can go wrong in the relay.
///
/// `Bind`, `Send` and `Receive` arise at the sockets and are constructed
/// by the embedding application; `Address` and `Encode` are decided here.
#[derive(Debug, PartialEq, Eq)]
pub enum RelayError {
    /// The local socket could not be bound.
    Bind,
    /// The destination port cannot form a valid destination address.
    Address,
    /// The entry with this name could not be encoded.
    Encode { name: Vec<u8> },
    /// The transport failed to send the datagram of the entry with this
    /// name.
    Send { name: Vec<u8> },
    /// A transport-level receive failed; transient, never fatal.
    Receive,
}

/// The address path of an entry: a slash followed by the name.
pub open spec fn message_address(name: Seq<u8>) -> Seq<u8> {
    seq![47u8] + name
}

/// Whether an entry's name yields an address the wire format can carry.
pub open spec fn name_encodable(name: Seq<u8>) -> bool {
    codec::addr_encodable(message_address(name))
}

/// The exact wire bytes of the datagram of one entry.
pub open spec fn entry_payload(name: Seq<u8>, bits: u32) -> Seq<u8> {
    codec::message_bytes(message_address(name), bits)
}

/// Whether every entry of the batch can be encoded.
pub open spec fn all_encodable(entries: Seq<BlendshapeEntry>) -> bool {
    forall|i: int| 0 <= i < entries.len() ==> name_encodable(#[trigger] entries[i].name@)
}

/// Whether entry `i` is the first of the batch that cannot be encoded.
pub open spec fn first_unencodable_at(entries: Seq<BlendshapeEntry>, i: int) -> bool {
    &&& 0 <= i < entries.len()
    &&& !name_encodable(entries[i].name@)
    &&& forall|j: int| 0 <= j < i ==> name_encodable(#[trigger] entries[j].name@)
}

/// Whether the names of the batch are pairwise distinct, as they are when
/// the batch is built from a mapping.
pub open spec fn distinct_names(entries: Seq<BlendshapeEntry>) -> bool {
    forall|i: int, j: int|
        0 <= i < j < entries.len() ==> (#[trigger] entries[i].name@) != (
        #[trigger] entries[j].name@)
}

/// A destination can be formed exactly for the nonzero ports: the
/// transport has no port zero to send to.
pub open spec fn valid_port(port: u16) -> bool {
    port != 0
}

/// The decimal digits of `n`, most significant first, no sign and no
/// leading zero (a single `0` for zero itself).
pub open spec fn decimal(n: int) -> Seq<u8>
    decreases n,
{
    if n < 10 {
        seq![(48 + n) as u8]
    } else {
        decimal(n / 10) + seq![(48 + n % 10) as u8]
    }
}

/// The text of the destination of a batch bound for `port`: the loopback
/// host `127.0.0.1`, a colon, and the port in decimal.
pub open spec fn destination_text(port: u16) -> Seq<u8> {
    seq![49u8, 50u8, 55u8, 46u8, 48u8, 46u8, 48u8, 46u8, 49u8, 58u8] + decimal(port as int)
}

/// Appends the decimal digits of `n` to `out`.
fn push_decimal(n: u16, out: &mut Vec<u8>)
    ensures
        final(out)@ == old(out)@ + decimal(n as int),
    decreases n,
{
    if n < 10 {
        out.push(48 + n as u8);
    } else {
        push_decimal(n / 10, out);
        out.push(48 + (n % 10) as u8);
    }
}

/// Renders the destination of a batch bound for `port` as the bytes of
/// its text, `127.0.0.1:` followed by the port in decimal.
pub fn destination_address(port: u16) -> (r: Vec<u8>)
    ensures
        r@ == destination_text(port),
{
    let mut out: Vec<u8> = Vec::new();
    out.push(49u8);
    out.push(50u8);
    out.push(55u8);
    out.push(46u8);
    out.push(48u8);
    out.push(46u8);
    out.push(48u8);
    out.push(46u8);
    out.push(49u8);
    out.push(58u8);
    push_decimal(port, &mut out);
    assert(out@ == destination_text(port));
    out
}

/// Copies a byte slice into a fresh vector.
fn copy_bytes(src: &[u8]) -> (r: Vec<u8>)
    ensures
        r@ == src@,
{
    let mut out: Vec<u8> = Vec::new();
    let n = src.len();
    let mut i: usize = 0;
    while i < n
        invariant
            i <= n == src@.len(),
            out@ == src@.take(i as int),
        decreases n - i,
    {
        out.push(src[i]);
        i += 1;
    }
    assert(out@ == src@);
    out
}

/// Builds the address path of an entry: `/` followed by its name.
pub fn address_for(name: &[u8]) -> (r: Vec<u8>)
    ensures
        r@ == message_address(name@),
{
    let mut out: Vec<u8> = Vec::new();
    out.push(47u8);
    let n = name.len();
    let mut i: usize = 0;
    while i < n
        invariant
            i <= n == name@.len(),
            out@ == seq![47u8] + name@.take(i as int),
        decreases n - i,
    {
        out.push(name[i]);
        i += 1;
    }
    assert(out@ == message_address(name@));
    out
}

/// Encodes a whole batch into its outbound datagrams, one per entry, in
/// the order the entries stand in the batch.
///
/// A batch bound for port zero is rejected before any entry is looked at;
/// a batch with an unencodable entry is rejected at the first such entry,
/// which the error names. Every other batch yields exactly one datagram
/// per entry, carrying the wire bytes of that entry's message.
pub fn encode_batch(batch: &BlendshapeData) -> (r: Result<Vec<Datagram>, RelayError>)
    ensures
        r is Ok <==> (valid_port(batch.port) && all_encodable(batch.data@)),
        r matches Ok(v) ==> {
            &&& v@.len() == batch.data@.len()
            &&& forall|i: int|
                0 <= i < v@.len() ==> (#[trigger] v@[i]).name@ == batch.data@[i].name@
                    && v@[i].payload@ == entry_payload(
                    batch.data@[i].name@,
                    batch.data@[i].value_bits,
                )
        },
        !valid_port(batch.port) ==> r matches Err(RelayError::Address),
        (match r {
            Err(RelayError::Address) => !valid_port(batch.port),
            Err(RelayError::Encode { name }) => valid_port(batch.port) && exists|i: int|
                #[trigger] first_unencodable_at(batch.data@, i) && name@ == batch.data@[i].name@,
            Err(_) => false,
            Ok(_) => true,
        }),
{
    if batch.port == 0 {
        return Err(RelayError::Address);
    }
    let n = batch.data.len();
    let mut out: Vec<Datagram> = Vec::new();
    let mut i: usize = 0;
    while i < n
        invariant
            valid_port(batch.port),
            i <= n == batch.data@.len(),
            out@.len() == i,
            forall|j: int|
                0 <= j < i ==> (#[trigger] out@[j]).name@ == batch.data@[j].name@
                    && out@[j].payload@ == entry_payload(
                    batch.data@[j].name@,
                    batch.data@[j].value_bits,
                ),
            forall|j: int| 0 <= j < i ==> name_encodable(#[trigger] batch.data@[j].name@),
        decreases n - i,
    {
        let entry = &batch.data[i];
        let addr = address_for(entry.name.as_slice());
        match codec::encode_message(addr.as_slice(), entry.value_bits) {
            Ok(payload) => {
                let name = copy_bytes(entry.name.as_slice());
                out.push(Datagram { name, payload });
            },
            Err(_) => {
                assert(first_unencodable_at(batch.data@, i as int));
                let name = copy_bytes(entry.name.as_slice());
                return Err(RelayError::Encode { name });
            },
        }
        i += 1;
    }
    Ok(out)
}

/// Builds the error reported when the transport fails to send one
/// datagram: it identifies the entry the datagram came from by name.
pub fn report_send_failure(failed: Datagram) -> (e: RelayError)
    ensures
        e matches RelayError::Send { name } && name@ == failed.name@,
{
    RelayError::Send { name: failed.name }
}

/// Law: within a batch of pairwise distinct, encodable names, every two
/// entries produce distinct wire datagrams — the relay never collapses
/// two entries into one message.
pub proof fn lemma_batch_datagrams_distinct(entries: Seq<BlendshapeEntry>, i: int, j: int)
    requires
        distinct_names(entries),
        all_encodable(entries),
        0 <= i < entries.len(),
        0 <= j < entries.len(),
        i != j,
    ensures
        entry_payload(entries[i].name@, entries[i].value_bits) != entry_payload(
            entries[j].name@,
            entries[j].value_bits,
        ),
{
    let n1 = entries[i].name@;
    let n2 = entries[j].name@;
    assert(n1 != n2);
    if entry_payload(n1, entries[i].value_bits) == entry_payload(n2, entries[j].value_bits) {
        codec::lemma_message_injective(
            message_address(n1),
            entries[i].value_bits,
            message_address(n2),
            entries[j].value_bits,
        );
        assert(message_address(n1) == message_address(n2));
        assert forall|k: int| 0 <= k < n1.len() implies n1[k] == n2[k] by {
            assert(message_address(n1)[k + 1] == n1[k]);
            assert(message_address(n2)[k + 1] == n2[k]);
        }
        assert(n1 =~= n2);
    }
}

} // verus!
