use vstd::prelude::*;

use crate::identity::{valid_name, valid_name_byte, Identity};

verus! {

/// Why a payload is not a well-formed encoding of an identity.
#[derive(Clone, Copy, Debug, PartialEq, Eq, Structural)]
pub enum ParseError {
    /// Fewer bytes than the shortest encoding.
    Truncated,
    /// The framing around the name field is missing or wrong.
    WrongShape,
    /// The name field holds a byte that no encoder emits verbatim.
    BadNameByte,
}

/// The framing that opens the name field of a wire message.
pub open spec fn frame_prefix() -> Seq<u8> {
    seq![0x7bu8, 0x22u8, 0x6eu8, 0x61u8, 0x6du8, 0x65u8, 0x22u8, 0x3au8, 0x22u8]
}

/// The framing that closes a wire message.
pub open spec fn frame_suffix() -> Seq<u8> {
    seq![0x22u8, 0x7du8]
}

/// The wire encoding of a name: the name bytes between the fixed framing.
pub open spec fn encoding_of(name: Seq<u8>) -> Seq<u8> {
    frame_prefix() + name + frame_suffix()
}

/// The shortest possible encoding: the framing plus a one-byte name.
pub open spec fn min_encoding_len() -> int {
    12
}

/// The framing bytes stand where the encoding puts them.
pub open spec fn spec_frame_ok(b: Seq<u8>) -> bool {
    &&& b.len() >= min_encoding_len()
    &&& b[0] == 0x7b
    &&& b[1] == 0x22
    &&& b[2] == 0x6e
    &&& b[3] == 0x61
    &&& b[4] == 0x6d
    &&& b[5] == 0x65
    &&& b[6] == 0x22
    &&& b[7] == 0x3a
    &&& b[8] == 0x22
    &&& b[b.len() - 2] == 0x22
    &&& b[b.len() - 1] == 0x7d
}

/// The bytes between the framing: the name field of a framed payload.
pub open spec fn wire_name(b: Seq<u8>) -> Seq<u8> {
    b.subrange(9, b.len() - 2)
}

/// Every byte of the name field may stand verbatim in a name.
pub open spec fn spec_name_bytes_ok(b: Seq<u8>) -> bool {
    forall|i: int| 9 <= i < b.len() - 2 ==> valid_name_byte(b[i])
}

/// What decoding a payload yields: the name it carries, or the first
/// reason it is rejected.
pub open spec fn spec_decode(b: Seq<u8>) -> Result<Seq<u8>, ParseError> {
    if b.len() < min_encoding_len() {
        Result::Err(ParseError::Truncated)
    } else if !spec_frame_ok(b) {
        Result::Err(ParseError::WrongShape)
    } else if !spec_name_bytes_ok(b) {
        Result::Err(ParseError::BadNameByte)
    } else {
        Result::Ok(wire_name(b))
    }
}

/// Round trip: decoding the encoding of any well-formed name yields
/// that name back.
pub proof fn lemma_round_trip(name: Seq<u8>)
    requires
        valid_name(name),
    ensures
        spec_decode(encoding_of(name)) == Ok::<Seq<u8>, ParseError>(name),
{
    let b = encoding_of(name);
    assert(b[b.len() - 2] == 0x22 && b[b.len() - 1] == 0x7d);
    assert(spec_frame_ok(b));
    assert forall|i: int| 9 <= i < b.len() - 2 implies valid_name_byte(b[i]) by {
        assert(b[i] == name[i - 9]);
    }
    assert(wire_name(b) =~= name);
}

/// Soundness: whatever decoding accepts is a well-formed name, and the
/// accepted payload is exactly that name's encoding.
pub proof fn lemma_decode_sound(b: Seq<u8>)
    requires
        spec_decode(b) is Ok,
    ensures
        valid_name(spec_decode(b)->Ok_0),
        b == encoding_of(spec_decode(b)->Ok_0),
{
    let name = wire_name(b);
    assert(b =~= encoding_of(name));
}

/// Completeness: a rejected payload is the encoding of no well-formed name.
pub proof fn lemma_decode_complete(b: Seq<u8>)
    requires
        spec_decode(b) is Err,
    ensures
        forall|n: Seq<u8>| valid_name(n) ==> encoding_of(n) != b,
{
    assert forall|n: Seq<u8>| valid_name(n) implies encoding_of(n) != b by {
        if encoding_of(n) == b {
            lemma_round_trip(n);
        }
    }
}

/// Serializes an identity to its wire form. Total for well-formed
/// identities: it always succeeds.
pub fn encode(id: &Identity) -> (r: Vec<u8>)
    requires
        id.well_formed(),
    ensures
        r@ == encoding_of(id@),
{
    let mut out: Vec<u8> = Vec::new();
    out.push(0x7b);
    out.push(0x22);
    out.push(0x6e);
    out.push(0x61);
    out.push(0x6d);
    out.push(0x65);
    out.push(0x22);
    out.push(0x3a);
    out.push(0x22);
    assert(out@ =~= frame_prefix());
    let mut i: usize = 0;
    while i < id.name.len()
        invariant
            i <= id.name@.len(),
            out@ == frame_prefix() + id.name@.subrange(0, i as int),
        decreases id.name@.len() - i,
    {
        out.push(id.name[i]);
        assert(out@ =~= frame_prefix() + id.name@.subrange(0, i + 1));
        i += 1;
    }
    assert(id.name@.subrange(0, id.name@.len() as int) =~= id.name@);
    out.push(0x22);
    out.push(0x7d);
    assert(out@ =~= encoding_of(id@));
    out
}

/// Deserializes a payload. Succeeds exactly on the encodings of
/// well-formed names; anything else is rejected with the reason, and the
/// caller decides whether that is fatal.
pub fn decode(bytes: &Vec<u8>) -> (r: Result<Identity, ParseError>)
    ensures
        match r {
            Ok(id) => {
                &&& id.well_formed()
                &&& spec_decode(bytes@) == Ok::<Seq<u8>, ParseError>(id@)
                &&& bytes@ == encoding_of(id@)
            },
            Err(e) => {
                &&& spec_decode(bytes@) == Err::<Seq<u8>, ParseError>(e)
                &&& forall|n: Seq<u8>| valid_name(n) ==> encoding_of(n) != bytes@
            },
        },
{
    let n = bytes.len();
    if n < 12 {
        proof {
            lemma_decode_complete(bytes@);
        }
        return Err(ParseError::Truncated);
    }
    if bytes[0] != 0x7b || bytes[1] != 0x22 || bytes[2] != 0x6e || bytes[3] != 0x61
        || bytes[4] != 0x6d || bytes[5] != 0x65 || bytes[6] != 0x22 || bytes[7] != 0x3a
        || bytes[8] != 0x22 || bytes[n - 2] != 0x22 || bytes[n - 1] != 0x7d {
        proof {
            lemma_decode_complete(bytes@);
        }
        return Err(ParseError::WrongShape);
    }
    assert(spec_frame_ok(bytes@));
    let mut name: Vec<u8> = Vec::new();
    let mut i: usize = 9;
    while i < n - 2
        invariant
            9 <= i <= n - 2,
            n == bytes@.len(),
            n >= 12,
            spec_frame_ok(bytes@),
            name@ == bytes@.subrange(9, i as int),
            forall|j: int| 9 <= j < i ==> valid_name_byte(bytes@[j]),
        decreases n - 2 - i,
    {
        let b = bytes[i];
        if b < 0x20 || b == 0x22 || b == 0x5c {
            proof {
                assert(!valid_name_byte(bytes@[i as int]));
                assert(!spec_name_bytes_ok(bytes@));
                lemma_decode_complete(bytes@);
            }
            return Err(ParseError::BadNameByte);
        }
        name.push(b);
        assert(name@ =~= bytes@.subrange(9, i + 1));
        i += 1;
    }
    assert(name@ =~= wire_name(bytes@));
    assert(spec_name_bytes_ok(bytes@));
    let id = Identity { name };
    proof {
        lemma_decode_sound(bytes@);
    }
    Ok(id)
}

} // verus!
