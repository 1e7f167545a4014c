use vstd::prelude::*;

use crate::bignat::BigNat;

verus! {

/// A 32-byte account or contract address.
pub type Address = [u8; 32];

/// An ESDT token identifier, as its raw bytes (empty when unset).
pub type TokenId = Vec<u8>;

/// The all-zero address.
pub open spec fn zero_address_view() -> Seq<u8> {
    Seq::new(32, |i: int| 0u8)
}

/// Byte-wise equality of two byte strings.
pub fn bytes_eq(a: &[u8], b: &[u8]) -> (r: bool)
    ensures
        r == (a@ == b@),
{
    if a.len() != b.len() {
        return false;
    }
    let mut i: usize = 0;
    while i < a.len()
        invariant
            a@.len() == b@.len(),
            0 <= i <= a@.len(),
            forall|j: int| 0 <= j < i ==> a@[j] == b@[j],
        decreases a@.len() - i,
    {
        if a[i] != b[i] {
            return false;
        }
        i = i + 1;
    }
    assert(a@ =~= b@);
    true
}

/// Equality of two addresses.
pub fn address_eq(a: &Address, b: &Address) -> (r: bool)
    ensures
        r == (a@ == b@),
{
    bytes_eq(a.as_slice(), b.as_slice())
}

/// Whether an address is the all-zero address.
pub fn is_zero_address(a: &Address) -> (r: bool)
    ensures
        r == (a@ == zero_address_view()),
{
    let mut i: usize = 0;
    while i < 32
        invariant
            a@.len() == 32,
            0 <= i <= 32,
            forall|j: int| 0 <= j < i ==> a@[j] == 0u8,
        decreases 32 - i,
    {
        if a[i] != 0 {
            return false;
        }
        i = i + 1;
    }
    assert(a@ =~= zero_address_view());
    true
}

/// Copies a byte string.
pub fn copy_bytes(a: &[u8]) -> (r: Vec<u8>)
    ensures
        r@ == a@,
{
    let mut r: Vec<u8> = Vec::new();
    let mut i: usize = 0;
    while i < a.len()
        invariant
            0 <= i <= a@.len(),
            r@ == a@.subrange(0, i as int),
        decreases a@.len() - i,
    {
        r.push(a[i]);
        i = i + 1;
        assert(r@ =~= a@.subrange(0, i as int));
    }
    assert(a@.subrange(0, a@.len() as int) =~= a@);
    r
}

/// The bytes of an address as an owned byte string.
pub fn address_key(a: &Address) -> (r: Vec<u8>)
    ensures
        r@ == a@,
{
    copy_bytes(a.as_slice())
}

/// An ESDT payment: a token, its nonce (0 for fungible tokens) and an amount.
#[derive(Clone, Debug, PartialEq, Eq)]
pub struct TokenPayment {
    pub token_id: TokenId,
    pub nonce: u64,
    pub amount: BigNat,
}

} // verus!
