//! String marshaling between host text and engine-shaped bytes.
//!
//! Outbound: a [`NameString`] is a nul-free byte encoding of host text,
//! extended with a single terminator before it crosses the boundary. Inbound:
//! engine bytes are read up to the first terminator and decoded as UTF-8;
//! invalid UTF-8 is reported as [`Error::StringDecode`], never substituted.

use vstd::prelude::*;
use vstd::utf8::{decode_utf8, encode_utf8, valid_utf8};
use vstd::string::StrSliceExecFns;
use vstd::string::StringSliceAdditionalSpecFns;

use crate::error::Error;

verus! {

/// The prefix of `b` that precedes its first nul byte (all of `b` when it
/// holds none): what the engine reads of a terminated buffer.
pub open spec fn prefix_to_nul(b: Seq<u8>) -> Seq<u8>
    decreases b.len(),
{
    if b.len() == 0 {
        b
    } else if b[0] == 0 {
        Seq::<u8>::empty()
    } else {
        seq![b[0]] + prefix_to_nul(b.drop_first())
    }
}

/// Whether text cannot cross the boundary: its UTF-8 bytes contain an
/// embedded nul.
pub open spec fn has_embedded_nul(s: Seq<char>) -> bool {
    encode_utf8(s).contains(0)
}

/// The nul-terminated byte sequence that carries text to the engine.
pub open spec fn terminated_encoding(s: Seq<char>) -> Seq<u8> {
    encode_utf8(s).push(0)
}

/// A filled buffer with its final byte forced to a terminator, the shape in
/// which a caller-supplied output buffer is interpreted.
pub open spec fn force_terminated(b: Seq<u8>) -> Seq<u8> {
    if b.len() == 0 {
        b
    } else {
        b.update(b.len() - 1, 0)
    }
}

/// What decoding a terminated byte sequence yields: the text of the bytes
/// before the first terminator, or nothing when they are not valid UTF-8.
pub open spec fn decoded_text(b: Seq<u8>) -> Option<Seq<char>> {
    if valid_utf8(prefix_to_nul(b)) {
        Some(decode_utf8(prefix_to_nul(b)))
    } else {
        None
    }
}

/// A nul-free sequence is its own prefix-to-nul, and gains nothing from a
/// terminator appended behind it.
pub proof fn lemma_prefix_to_nul_no_nul(b: Seq<u8>)
    requires
        !b.contains(0),
    ensures
        prefix_to_nul(b) =~= b,
        prefix_to_nul(b.push(0)) =~= b,
    decreases b.len(),
{
    if b.len() == 0 {
        assert(b.push(0)[0] == 0);
        assert(prefix_to_nul(b.push(0)) =~= Seq::<u8>::empty());
    } else {
        assert(b[0] != 0) by {
            assert(b.contains(b[0]));
        }
        assert(!b.drop_first().contains(0)) by {
            if b.drop_first().contains(0) {
                let i = choose|i: int| 0 <= i < b.drop_first().len() && b.drop_first()[i] == 0;
                assert(b[i + 1] == 0);
            }
        }
        lemma_prefix_to_nul_no_nul(b.drop_first());
        assert(b.push(0)[0] == b[0]);
        assert(b.push(0).drop_first() =~= b.drop_first().push(0));
        assert(prefix_to_nul(b.push(0)) =~= seq![b[0]] + prefix_to_nul(b.drop_first().push(0)));
        assert(seq![b[0]] + b.drop_first() =~= b);
    }
}

/// Locates `prefix_to_nul` by the index of the first nul: when the bytes
/// before `i` are nul-free, the prefix ends at `i` if a nul stands there, and
/// is the whole sequence if `i` is its end.
pub proof fn lemma_prefix_to_nul_at(b: Seq<u8>, i: int)
    requires
        0 <= i <= b.len(),
        forall|j: int| 0 <= j < i ==> b[j] != 0,
    ensures
        i < b.len() && b[i] == 0 ==> prefix_to_nul(b) =~= b.subrange(0, i),
        i == b.len() ==> prefix_to_nul(b) =~= b,
    decreases i,
{
    if i == 0 {
        if i < b.len() && b[i] == 0 {
            assert(prefix_to_nul(b) =~= b.subrange(0, 0));
        }
    } else {
        assert(b[0] != 0);
        lemma_prefix_to_nul_at(b.drop_first(), i - 1);
        if i < b.len() && b[i] == 0 {
            assert(b.drop_first()[i - 1] == 0);
            assert(prefix_to_nul(b.drop_first()) =~= b.drop_first().subrange(0, i - 1));
            assert(prefix_to_nul(b) =~= seq![b[0]] + b.drop_first().subrange(0, i - 1));
            assert(prefix_to_nul(b) =~= b.subrange(0, i));
        } else if i == b.len() {
            assert(prefix_to_nul(b) =~= seq![b[0]] + b.drop_first());
            assert(prefix_to_nul(b) =~= b);
        }
    }
}

/// A name sent to the engine: host text held as its nul-free UTF-8 bytes.
///
/// An embedded nul byte is a construction-time failure
/// ([`Error::StringEncode`]), so a value of this type can always be
/// terminated and passed by address.
#[derive(Debug)]
pub struct NameString {
    bytes: Vec<u8>,
}

impl NameString {
    /// The bytes of the name, as sent (before the terminator).
    pub closed spec fn bytes_view(&self) -> Seq<u8> {
        self.bytes@
    }

    /// Validity: the bytes hold no embedded nul.
    pub open spec fn wf(&self) -> bool {
        !self.bytes_view().contains(0)
    }

    /// Encode host text. Fails with [`Error::StringEncode`] exactly when the
    /// text's UTF-8 bytes contain an embedded nul.
    pub fn new(s: &str) -> (r: Result<NameString, Error>)
        ensures
            r is Err <==> encode_utf8(s@).contains(0),
            r is Err ==> r == Err::<NameString, Error>(Error::StringEncode),
            r matches Ok(n) ==> n.bytes_view() == encode_utf8(s@) && n.wf(),
    {
        let bytes = s.as_bytes_vec();
        let mut i: usize = 0;
        while i < bytes.len()
            invariant
                bytes@ == encode_utf8(s@),
                0 <= i <= bytes.len(),
                forall|j: int| 0 <= j < i ==> bytes@[j] != 0,
            decreases bytes.len() - i,
        {
            if bytes[i] == 0 {
                return Err(Error::StringEncode);
            }
            i += 1;
        }
        assert(!bytes@.contains(0));
        Ok(NameString { bytes })
    }

    /// The length of the name in bytes, terminator not counted.
    pub fn len(&self) -> (r: usize)
        ensures
            r == self.bytes_view().len(),
    {
        self.bytes.len()
    }

    /// The nul-terminated byte sequence passed by address to the engine.
    pub fn terminated(&self) -> (r: Vec<u8>)
        ensures
            r@ == self.bytes_view().push(0),
    {
        let mut out: Vec<u8> = Vec::new();
        let mut i: usize = 0;
        while i < self.bytes.len()
            invariant
                0 <= i <= self.bytes.len(),
                out@ == self.bytes@.subrange(0, i as int),
            decreases self.bytes.len() - i,
        {
            out.push(self.bytes[i]);
            i += 1;
        }
        assert(out@ =~= self.bytes@);
        out.push(0);
        out
    }
}

/// Decode bytes the engine handed back: take the bytes before the first
/// terminator and read them as UTF-8. Fails with [`Error::StringDecode`]
/// exactly when that prefix is not valid UTF-8.
pub fn decode_terminated(b: &Vec<u8>) -> (r: Result<String, Error>)
    ensures
        r is Ok <==> decoded_text(b@) is Some,
        r is Err ==> r == Err::<String, Error>(Error::StringDecode),
        r matches Ok(s) ==> Some(s@) == decoded_text(b@),
{
    let mut prefix: Vec<u8> = Vec::new();
    let mut i: usize = 0;
    while i < b.len() && b[i] != 0
        invariant
            0 <= i <= b.len(),
            prefix@ == b@.subrange(0, i as int),
            forall|j: int| 0 <= j < i ==> b@[j] != 0,
        decreases b.len() - i,
    {
        prefix.push(b[i]);
        i += 1;
    }
    proof {
        lemma_prefix_to_nul_at(b@, i as int);
        assert(prefix@ =~= prefix_to_nul(b@));
    }
    match string_from_utf8(prefix) {
        Some(s) => Ok(s),
        None => Err(Error::StringDecode),
    }
}

/// Relies on `String::from_utf8`: it returns `Ok` exactly when the bytes are
/// valid UTF-8, and the resulting string is their decoding.
#[verifier::external_body]
pub(crate) fn string_from_utf8(bytes: Vec<u8>) -> (r: Option<String>)
    ensures
        r is Some <==> valid_utf8(bytes@),
        r matches Some(s) ==> s@ == decode_utf8(bytes@),
{
    match String::from_utf8(bytes) {
        Ok(s) => Some(s),
        Err(_) => None,
    }
}

/// Round trip: the terminated encoding of nul-free text, decoded again,
/// yields the original text.
pub proof fn lemma_round_trip(s: Seq<char>)
    requires
        !has_embedded_nul(s),
    ensures
        decoded_text(terminated_encoding(s)) == Some(s),
{
    lemma_prefix_to_nul_no_nul(encode_utf8(s));
    broadcast use vstd::utf8::encode_utf8_valid_utf8;
    broadcast use vstd::utf8::encode_utf8_decode_utf8;

    assert(prefix_to_nul(encode_utf8(s).push(0)) == encode_utf8(s));
    assert(decode_utf8(encode_utf8(s)) == s);
}

} // verus!
