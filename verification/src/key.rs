//! A secret key of the NIST P-256 curve, held as the bytes of its scalar.

use p256::elliptic_curve::sec1::ToEncodedPoint;
use vstd::prelude::*;

verus! {

/// The number that `bytes` write in base 256, the highest place first.
pub open spec fn big_endian(bytes: Seq<u8>) -> int
    decreases bytes.len(),
{
    if bytes.len() == 0 {
        0
    } else {
        256 * big_endian(bytes.drop_last()) + bytes.last()
    }
}

/// The order of the P-256 group.
pub open spec fn p256_order() -> int {
    0xffffffff00000000ffffffffffffffffbce6faada7179e84f3b9cac2fc632551int
}

/// Whether `d` is a secret scalar: 32 bytes that write a number above zero and
/// below the order of the group.
pub open spec fn is_scalar(d: Seq<u8>) -> bool {
    d.len() == 32 && 0 < big_endian(d) < p256_order()
}

/// `bytes` behind as many zeros as bring them to 32.
pub open spec fn padded(bytes: Seq<u8>) -> Seq<u8> {
    Seq::new((32 - bytes.len()) as nat, |i: int| 0u8) + bytes
}

/// The scalar that `bytes` write: at least 24 and at most 32 of them, padded
/// with zeros in front.
pub open spec fn scalar_of(bytes: Seq<u8>) -> Option<Seq<u8>> {
    if 24 <= bytes.len() <= 32 && is_scalar(padded(bytes)) {
        Some(padded(bytes))
    } else {
        None
    }
}

/// The affine coordinates x and y, in that order, of the public key that
/// belongs to the scalar `d`, each as 32 bytes with the highest place first.
pub uninterp spec fn public_point(d: Seq<u8>) -> (Seq<u8>, Seq<u8>);

/// A scalar is read as itself.
pub proof fn law_scalar_is_fixed(d: Seq<u8>)
    requires
        is_scalar(d),
    ensures
        scalar_of(d) == Some(d),
{
    assert(padded(d) =~= d);
}

/// Whatever is read as a scalar is one.
pub proof fn law_scalar_of_is_scalar(bytes: Seq<u8>)
    ensures
        scalar_of(bytes) matches Some(d) ==> is_scalar(d),
{
}

/// Calls `p256::SecretKey::from_slice`, and `to_bytes` on the key it gives.
///
/// Claimed: the call succeeds on 24 to 32 bytes that, padded with zeros in
/// front to 32, write a number above zero and below the group's order, and on
/// nothing else; the bytes of the key are then the padded ones.
#[verifier::external_body]
fn secret_key_from_slice(bytes: &[u8]) -> (r: Option<Vec<u8>>)
    ensures
        match r {
            Some(d) => scalar_of(bytes@) == Some(d@),
            None => scalar_of(bytes@) is None,
        },
{
    p256::SecretKey::from_slice(bytes).ok().map(|key| key.to_bytes().to_vec())
}

/// Calls `p256::SecretKey::random` on the random numbers of the operating
/// system, and `to_bytes` on the key it gives.
///
/// Claimed: the bytes are a scalar. Which one is left to chance. The call
/// panics where the operating system has no random numbers to give.
#[verifier::external_body]
fn secret_key_random() -> (r: Vec<u8>)
    ensures
        is_scalar(r@),
{
    p256::SecretKey::random(&mut rand::rngs::OsRng).to_bytes().to_vec()
}

/// Calls `to_encoded_point`, without compression, on the public key of the
/// secret key with the scalar `d`, and `x` and `y` on the point it gives.
///
/// Claimed: a public key is no point at infinity, so both coordinates are
/// there, each of 32 bytes, and they depend on the scalar alone.
#[verifier::external_body]
fn public_coordinates(d: &[u8]) -> (r: (Option<Vec<u8>>, Option<Vec<u8>>))
    requires
        is_scalar(d@),
    ensures
        r.0 is Some,
        r.1 is Some,
        (r.0->0@, r.1->0@) == public_point(d@),
        r.0->0@.len() == 32,
        r.1->0@.len() == 32,
{
    let key = p256::SecretKey::from_slice(d).unwrap();
    let point = key.public_key().to_encoded_point(false);
    (point.x().map(|x| x.to_vec()), point.y().map(|y| y.to_vec()))
}

/// The key that tokens are bound to and that requests carrying them are signed
/// with.
pub struct ProofKey {
    d: Vec<u8>,
}

impl View for ProofKey {
    type V = Seq<u8>;

    /// The 32 bytes of the secret scalar.
    closed spec fn view(&self) -> Seq<u8> {
        self.d@
    }
}

impl ProofKey {
    #[verifier::type_invariant]
    spec fn holds_a_scalar(self) -> bool {
        is_scalar(self.d@)
    }

    /// The key whose scalar `bytes` write.
    pub fn from_slice(bytes: &[u8]) -> (r: Option<ProofKey>)
        ensures
            match r {
                Some(key) => scalar_of(bytes@) == Some(key@),
                None => scalar_of(bytes@) is None,
            },
    {
        match secret_key_from_slice(bytes) {
            Some(d) => Some(ProofKey { d }),
            None => None,
        }
    }

    /// A key left to chance.
    pub fn random() -> (r: ProofKey)
        ensures
            is_scalar(r@),
    {
        ProofKey { d: secret_key_random() }
    }

    /// The bytes of the secret scalar.
    pub fn to_bytes(&self) -> (r: Vec<u8>)
        ensures
            r@ == self@,
            is_scalar(r@),
    {
        proof {
            use_type_invariant(self);
        }
        self.d.clone()
    }

    /// The coordinates x and y of the public key.
    pub fn public_point(&self) -> (r: (Option<Vec<u8>>, Option<Vec<u8>>))
        ensures
            r.0 is Some,
            r.1 is Some,
            (r.0->0@, r.1->0@) == public_point(self@),
            r.0->0@.len() == 32,
            r.1->0@.len() == 32,
    {
        proof {
            use_type_invariant(self);
        }
        public_coordinates(self.d.as_slice())
    }
}

proof fn lemma_padding(zeros: Seq<u8>, bytes: Seq<u8>)
    requires
        forall|i: int| 0 <= i < zeros.len() ==> #[trigger] zeros[i] == 0,
    ensures
        big_endian(zeros + bytes) == big_endian(bytes),
    decreases zeros.len() + bytes.len(),
{
    let all = zeros + bytes;
    if bytes.len() > 0 {
        assert(all.drop_last() =~= zeros + bytes.drop_last());
        lemma_padding(zeros, bytes.drop_last());
    } else if zeros.len() > 0 {
        assert(all.drop_last() =~= zeros.drop_last() + bytes);
        lemma_padding(zeros.drop_last(), bytes);
    } else {
        assert(all =~= bytes);
    }
}

/// Bytes are read as a scalar if and only if there are 24 to 32 of them and the
/// number they write is above zero and below the order of the group. The scalar
/// is 32 bytes that write the same number.
pub proof fn law_scalar_keeps_the_number(bytes: Seq<u8>)
    ensures
        scalar_of(bytes) is Some <==> 24 <= bytes.len() <= 32 && 0 < big_endian(bytes)
            < 0xffffffff00000000ffffffffffffffffbce6faada7179e84f3b9cac2fc632551int,
        scalar_of(bytes) matches Some(d) ==> d.len() == 32 && big_endian(d) == big_endian(bytes),
{
    lemma_padding(Seq::new((32 - bytes.len()) as nat, |i: int| 0u8), bytes);
}

/// A key is found again in its own bytes, and in no bytes that write another
/// number.
pub proof fn law_key_calls(key: ProofKey, own: Vec<u8>, bytes: &[u8], r: Option<ProofKey>)
    requires
        call_ensures(ProofKey::to_bytes, (&key,), own),
        call_ensures(ProofKey::from_slice, (bytes,), r),
    ensures
        own@ == key@,
        is_scalar(own@),
        bytes@ == own@ ==> (r matches Some(found) && found@ == key@),
        r matches Some(found) ==> big_endian(found@) == big_endian(bytes@) && found@.len() == 32,
        r is Some <==> 24 <= bytes@.len() <= 32 && 0 < big_endian(bytes@)
            < 0xffffffff00000000ffffffffffffffffbce6faada7179e84f3b9cac2fc632551int,
{
    law_scalar_is_fixed(key@);
    law_scalar_keeps_the_number(bytes@);
}

/// A key tells the coordinates of its own public key, x first, in 32 bytes each.
pub proof fn law_public_point(key: ProofKey, r: (Option<Vec<u8>>, Option<Vec<u8>>))
    requires
        call_ensures(ProofKey::public_point, (&key,), r),
    ensures
        r.0 matches Some(x) && x@ == public_point(key@).0 && x@.len() == 32,
        r.1 matches Some(y) && y@ == public_point(key@).1 && y@.len() == 32,
{
}

/// A key left to chance is 32 bytes that write a number above zero and below
/// the order of the group.
pub proof fn law_random_key(key: ProofKey)
    requires
        call_ensures(ProofKey::random, (), key),
    ensures
        key@.len() == 32,
        0 < big_endian(key@)
            < 0xffffffff00000000ffffffffffffffffbce6faada7179e84f3b9cac2fc632551int,
{
}

} // verus!
