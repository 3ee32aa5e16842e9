//! Wire codec for one protocol message.
//!
//! A message carries a textual address path together with a single 32-bit
//! argument. On the wire the address is laid out as its bytes followed by a
//! terminating zero byte, zero-padded up to a multiple of four bytes; then
//! the four-byte type-tag string `,f`; then the argument's four bytes, most
//! significant first. The argument is handled as its raw 32-bit pattern,
//! so the encoding is bit-for-bit faithful to the value the caller holds.

use vstd::prelude::*;

verus! {

/// The least multiple of four that is at least `n`.
pub open spec fn round_up4(n: int) -> int {
    if n % 4 == 0 {
        n
    } else {
        n + 4 - n % 4
    }
}

/// A run of `n` zero bytes.
pub open spec fn zero_bytes(n: int) -> Seq<u8> {
    Seq::new(n as nat, |i: int| 0u8)
}

/// The wire form of a string: its bytes, a terminating zero byte, and
/// zero padding up to the next multiple of four bytes.
pub open spec fn padded_string(s: Seq<u8>) -> Seq<u8> {
    s + zero_bytes(round_up4(s.len() as int + 1) - s.len() as int)
}

/// The four type-tag bytes of a message with a single 32-bit argument:
/// `,f` followed by its own zero padding.
pub open spec fn float_type_tag() -> Seq<u8> {
    seq![44u8, 102u8, 0u8, 0u8]
}

/// The argument's four bytes, most significant first.
pub open spec fn arg_bytes(bits: u32) -> Seq<u8> {
    seq![
        (bits >> 24) as u8,
        ((bits >> 16) & 0xff) as u8,
        ((bits >> 8) & 0xff) as u8,
        (bits & 0xff) as u8,
    ]
}

/// The full wire form of one message: padded address, type tag, argument.
pub open spec fn message_bytes(addr: Seq<u8>, bits: u32) -> Seq<u8> {
    padded_string(addr) + float_type_tag() + arg_bytes(bits)
}

/// An address the wire format can carry: it contains no zero byte (the
/// terminator could not be told from it), and its encoded length fits in
/// `usize`.
pub open spec fn addr_encodable(addr: Seq<u8>) -> bool {
    &&& forall|i: int| 0 <= i < addr.len() ==> addr[i] != 0
    &&& addr.len() + 12 <= usize::MAX
}

/// Why an address could not be encoded.
#[derive(Debug, PartialEq, Eq)]
pub enum EncodeError {
    /// The address is too long for its encoding to fit in memory.
    AddressTooLong,
    /// The address contains a zero byte, which the wire format reserves
    /// for the string terminator.
    ZeroByteInAddress,
}

/// Encodes one message. Returns the exact wire bytes for every address
/// the wire format can carry, and an error for every other address.
pub fn encode_message(addr: &[u8], bits: u32) -> (r: Result<Vec<u8>, EncodeError>)
    ensures
        addr_encodable(addr@) ==> (r matches Ok(v) && v@ == message_bytes(addr@, bits)),
        addr@.len() + 12 > usize::MAX ==> r matches Err(EncodeError::AddressTooLong),
        addr@.len() + 12 <= usize::MAX && !addr_encodable(addr@) ==> r matches Err(
            EncodeError::ZeroByteInAddress,
        ),
{
    let n = addr.len();
    if n > usize::MAX - 12 {
        return Err(EncodeError::AddressTooLong);
    }
    let mut out: Vec<u8> = Vec::new();
    let mut i: usize = 0;
    while i < n
        invariant
            i <= n == addr@.len(),
            n + 12 <= usize::MAX,
            out@ == addr@.take(i as int),
            forall|j: int| 0 <= j < i ==> addr@[j] != 0,
        decreases n - i,
    {
        let b = addr[i];
        if b == 0 {
            return Err(EncodeError::ZeroByteInAddress);
        }
        out.push(b);
        i += 1;
    }
    assert(out@ == addr@);
    out.push(0u8);
    while out.len() % 4 != 0
        invariant
            n + 12 <= usize::MAX,
            n + 1 <= out@.len() <= round_up4(n + 1),
            out@ == addr@ + zero_bytes(out@.len() - n),
        decreases round_up4(n + 1) - out@.len(),
    {
        assert(out@.len() < round_up4(n + 1)) by {
            lemma_round_up4(n + 1);
        };
        out.push(0u8);
        assert(out@ == addr@ + zero_bytes(out@.len() - n));
    }
    proof {
        lemma_round_up4(n + 1);
        assert(out@.len() == round_up4(n + 1));
        assert(out@ == padded_string(addr@));
    }
    out.push(44u8);
    out.push(102u8);
    out.push(0u8);
    out.push(0u8);
    assert(out@ == padded_string(addr@) + float_type_tag());
    assert((bits >> 24) < 256 && ((bits >> 16) & 0xff) < 256 && ((bits >> 8) & 0xff) < 256 && (
    bits & 0xff) < 256) by (bit_vector);
    out.push((bits >> 24) as u8);
    out.push(((bits >> 16) & 0xff) as u8);
    out.push(((bits >> 8) & 0xff) as u8);
    out.push((bits & 0xff) as u8);
    assert(out@ == message_bytes(addr@, bits));
    Ok(out)
}

/// Two distinct messages never share their wire form: the encoding is
/// injective in the address and in the argument, for every address the
/// wire format can carry.
pub proof fn lemma_message_injective(a1: Seq<u8>, b1: u32, a2: Seq<u8>, b2: u32)
    requires
        addr_encodable(a1),
        addr_encodable(a2),
        message_bytes(a1, b1) == message_bytes(a2, b2),
    ensures
        a1 == a2,
        b1 == b2,
{
    if a1.len() <= a2.len() {
        lemma_message_addr_len(a1, b1, a2, b2);
    } else {
        lemma_message_addr_len(a2, b2, a1, b1);
    }
    let len = a1.len();
    assert(a2.len() == len);
    assert forall|i: int| 0 <= i < len implies a1[i] == a2[i] by {
        assert(message_bytes(a1, b1)[i] == a1[i]);
        assert(message_bytes(a2, b2)[i] == a2[i]);
    }
    assert(a1 =~= a2);
    let p = round_up4(len as int + 1);
    lemma_round_up4(len as int + 1);
    assert forall|k: int| 0 <= k < 4 implies arg_bytes(b1)[k] == arg_bytes(b2)[k] by {
        assert(message_bytes(a1, b1)[p + 4 + k] == arg_bytes(b1)[k]);
        assert(message_bytes(a2, b2)[p + 4 + k] == arg_bytes(b2)[k]);
    }
    assert(b1 == b2) by (bit_vector)
        requires
            (b1 >> 24) as u8 == (b2 >> 24) as u8,
            ((b1 >> 16) & 0xff) as u8 == ((b2 >> 16) & 0xff) as u8,
            ((b1 >> 8) & 0xff) as u8 == ((b2 >> 8) & 0xff) as u8,
            (b1 & 0xff) as u8 == (b2 & 0xff) as u8,
    ;
}

/// Equal wire forms force the shorter address to be at least as long as
/// the other: at the shorter one's length the wire holds its terminating
/// zero byte, while the longer address still holds a nonzero byte there.
proof fn lemma_message_addr_len(a1: Seq<u8>, b1: u32, a2: Seq<u8>, b2: u32)
    requires
        addr_encodable(a1),
        addr_encodable(a2),
        message_bytes(a1, b1) == message_bytes(a2, b2),
        a1.len() <= a2.len(),
    ensures
        a1.len() == a2.len(),
{
    if a1.len() < a2.len() {
        let i = a1.len() as int;
        lemma_round_up4(a1.len() as int + 1);
        lemma_round_up4(a2.len() as int + 1);
        assert(message_bytes(a1, b1)[i] == padded_string(a1)[i]);
        assert(padded_string(a1)[i] == 0);
        assert(message_bytes(a2, b2)[i] == a2[i]);
        assert(a2[i] != 0);
    }
}

/// `round_up4(n)` is a multiple of four, at least `n` and within four of it.
proof fn lemma_round_up4(n: int)
    ensures
        n <= round_up4(n) < n + 4,
        round_up4(n) % 4 == 0,
{
}

} // verus!
