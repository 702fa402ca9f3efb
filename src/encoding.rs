//! Byte encodings of Ed25519 points and scalars.
use ciphersuite::{Ciphersuite, Ed25519};
use vstd::arithmetic::power2::pow2;
use vstd::prelude::*;

verus! {

/// Length in bytes of an encoded point (a leaf or a blinded point).
pub const POINT_LEN: usize = 32;

/// Length in bytes of an encoded scalar (a blind).
pub const SCALAR_LEN: usize = 32;

/// Why a byte string was refused.
#[derive(Clone, Copy, Debug, PartialEq, Eq, Structural)]
pub enum DeserializationError {
    /// The byte string does not have the length of the encoding.
    WrongLength,
    /// Thirty-two bytes that are not the canonical encoding of a point of
    /// the prime-order subgroup.
    InvalidPoint,
    /// Thirty-two bytes whose little-endian value is not below the group order.
    NonCanonicalScalar,
}

/// Whether thirty-two bytes are the canonical encoding of an Ed25519 point
/// of the prime-order subgroup.
pub uninterp spec fn is_point_encoding(b: Seq<u8>) -> bool;

/// The little-endian value of a byte string.
pub open spec fn le_value(b: Seq<u8>) -> nat
    decreases b.len(),
{
    if b.len() == 0 {
        0
    } else {
        b[0] as nat + 256 * le_value(b.drop_first())
    }
}

/// The order of the prime-order subgroup of Ed25519.
pub open spec fn group_order() -> nat {
    pow2(252) + 27742317777372353535851937790883648493
}

/// The error a point encoding is refused with, if any.
pub open spec fn point_error(b: Seq<u8>) -> Option<DeserializationError> {
    if b.len() != POINT_LEN {
        Some(DeserializationError::WrongLength)
    } else if !is_point_encoding(b) {
        Some(DeserializationError::InvalidPoint)
    } else {
        None
    }
}

/// The error a scalar encoding is refused with, if any.
pub open spec fn scalar_error(b: Seq<u8>) -> Option<DeserializationError> {
    if b.len() != SCALAR_LEN {
        Some(DeserializationError::WrongLength)
    } else if le_value(b) >= group_order() {
        Some(DeserializationError::NonCanonicalScalar)
    } else {
        None
    }
}

/// Relies on `Ciphersuite::read_G` for `Ed25519`: it reads thirty-two bytes and
/// accepts them exactly when they decompress to a torsion-free point whose
/// encoding gives back the same bytes.
#[verifier::external_body]
fn read_point(b: &[u8]) -> (r: bool)
    requires
        b@.len() == POINT_LEN,
    ensures
        r == is_point_encoding(b@),
{
    let mut reader: &[u8] = b;
    <Ed25519 as Ciphersuite>::read_G(&mut reader).is_ok()
}

/// Relies on `Ciphersuite::read_F` for `Ed25519`: it reads thirty-two bytes and
/// accepts them exactly when their little-endian value is below the group
/// order (`Scalar::from_canonical_bytes`).
#[verifier::external_body]
fn read_scalar(b: &[u8]) -> (r: bool)
    requires
        b@.len() == SCALAR_LEN,
    ensures
        r == (le_value(b@) < group_order()),
{
    let mut reader: &[u8] = b;
    <Ed25519 as Ciphersuite>::read_F(&mut reader).is_ok()
}

/// Copies a slice of thirty-two bytes into an array.
fn to_array(b: &[u8]) -> (r: [u8; 32])
    requires
        b@.len() == 32,
    ensures
        r@ == b@,
{
    let mut a: [u8; 32] = [0u8; 32];
    let mut i: usize = 0;
    while i < 32
        invariant
            b@.len() == 32,
            0 <= i <= 32,
            forall|j: int| 0 <= j < i ==> a@[j] == b@[j],
        decreases 32 - i,
    {
        a[i] = b[i];
        i = i + 1;
    }
    assert(a@ =~= b@);
    a
}

/// The canonical encoding of an Ed25519 point of the prime-order subgroup.
#[derive(Clone, Copy, Debug, PartialEq, Eq)]
pub struct Point {
    bytes: [u8; 32],
}

impl View for Point {
    type V = Seq<u8>;

    closed spec fn view(&self) -> Seq<u8> {
        self.bytes@
    }
}

impl Point {
    /// Every point holds a valid encoding.
    pub open spec fn wf(&self) -> bool {
        point_error(self@) is None
    }

    /// Reads a point from its encoding.
    pub fn from_bytes(b: &[u8]) -> (r: Result<Point, DeserializationError>)
        ensures
            point_error(b@) is None <==> r is Ok,
            r matches Ok(p) ==> p@ == b@ && p.wf(),
            r matches Err(e) ==> point_error(b@) == Some(e),
    {
        if b.len() != POINT_LEN {
            Err(DeserializationError::WrongLength)
        } else if !read_point(b) {
            Err(DeserializationError::InvalidPoint)
        } else {
            Ok(Point { bytes: to_array(b) })
        }
    }

    /// The encoding of the point.
    pub fn to_bytes(&self) -> (r: [u8; 32])
        ensures
            r@ == self@,
    {
        self.bytes
    }

    /// Whether the point is encoded by the given bytes.
    pub fn is_encoded_by(&self, b: &[u8]) -> (r: bool)
        ensures
            r == (self@ == b@),
    {
        if b.len() != POINT_LEN {
            return false;
        }
        let mut i: usize = 0;
        while i < POINT_LEN
            invariant
                b@.len() == POINT_LEN,
                self@.len() == POINT_LEN,
                0 <= i <= POINT_LEN,
                forall|j: int| 0 <= j < i ==> self@[j] == b@[j],
            decreases POINT_LEN - i,
        {
            if self.bytes[i] != b[i] {
                return false;
            }
            i = i + 1;
        }
        assert(self@ =~= b@);
        true
    }
}

/// A blinding scalar, held in its canonical thirty-two byte encoding.
#[derive(Clone, Copy, Debug, PartialEq, Eq)]
pub struct Blind {
    bytes: [u8; 32],
}

impl View for Blind {
    type V = Seq<u8>;

    closed spec fn view(&self) -> Seq<u8> {
        self.bytes@
    }
}

impl Blind {
    /// Every blind holds a canonical scalar.
    pub open spec fn wf(&self) -> bool {
        scalar_error(self@) is None
    }

    /// Reads a blind from its encoding.
    pub fn from_bytes(b: &[u8]) -> (r: Result<Blind, DeserializationError>)
        ensures
            scalar_error(b@) is None <==> r is Ok,
            r matches Ok(s) ==> s@ == b@ && s.wf(),
            r matches Err(e) ==> scalar_error(b@) == Some(e),
    {
        if b.len() != SCALAR_LEN {
            Err(DeserializationError::WrongLength)
        } else if !read_scalar(b) {
            Err(DeserializationError::NonCanonicalScalar)
        } else {
            Ok(Blind { bytes: to_array(b) })
        }
    }

    /// The encoding of the blind.
    pub fn to_bytes(&self) -> (r: [u8; 32])
        ensures
            r@ == self@,
    {
        self.bytes
    }
}

} // verus!
