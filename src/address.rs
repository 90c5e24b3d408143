use vstd::prelude::*;

verus! {

/// A 32-byte account identity: a public key, a program id or a mint.
#[derive(Clone, Copy, Debug, PartialEq, Eq)]
pub struct Address {
    pub bytes: [u8; 32],
}

impl Address {
    pub fn new(bytes: [u8; 32]) -> (r: Address)
        ensures
            r.bytes@ == bytes@,
    {
        Address { bytes }
    }

    pub fn to_bytes(&self) -> (r: [u8; 32])
        ensures
            r@ == self.bytes@,
    {
        self.bytes
    }

    /// Byte-wise comparison of two identities.
    pub fn equals(&self, other: &Address) -> (r: bool)
        ensures
            r == (self.bytes@ == other.bytes@),
    {
        let mut i: usize = 0;
        while i < 32
            invariant
                0 <= i <= 32,
                self.bytes@.len() == 32,
                other.bytes@.len() == 32,
                forall|j: int| 0 <= j < i ==> self.bytes@[j] == other.bytes@[j],
            decreases 32 - i,
        {
            if self.bytes[i] != other.bytes[i] {
                return false;
            }
            i = i + 1;
        }
        assert(self.bytes@ =~= other.bytes@);
        true
    }
}

/// Bytes of the swap aggregator program id (JUP6LkbZbjS1jKKwapdHNy74zcZ3tLUZoi5QNyVTaV4).
pub open spec fn jupiter_v6_id() -> Seq<u8> {
    seq![4u8, 121u8, 213u8, 91u8, 242u8, 49u8, 192u8, 110u8, 238u8, 116u8, 197u8, 110u8, 206u8, 104u8, 21u8, 7u8, 253u8, 177u8, 178u8, 222u8, 163u8, 244u8, 142u8, 81u8, 2u8, 177u8, 205u8, 162u8, 86u8, 188u8, 19u8, 143u8]
}

/// Bytes of the wrapped SOL mint (So11111111111111111111111111111111111111112).
pub open spec fn wsol_mint_id() -> Seq<u8> {
    seq![6u8, 155u8, 136u8, 87u8, 254u8, 171u8, 129u8, 132u8, 251u8, 104u8, 127u8, 99u8, 70u8, 24u8, 192u8, 53u8, 218u8, 196u8, 57u8, 220u8, 26u8, 235u8, 59u8, 85u8, 152u8, 160u8, 240u8, 0u8, 0u8, 0u8, 0u8, 1u8]
}

/// The swap aggregator program that the router forwards to.
pub fn jupiter_v6() -> (r: Address)
    ensures
        r.bytes@ == jupiter_v6_id(),
{
    let r = Address { bytes: [4u8, 121, 213, 91, 242, 49, 192, 110, 238, 116, 197, 110, 206, 104, 21, 7, 253, 177, 178, 222, 163, 244, 142, 81, 2, 177, 205, 162, 86, 188, 19, 143] };
    assert(r.bytes@ =~= jupiter_v6_id());
    r
}

/// The only mint that the vault settles arbitrage in.
pub fn wsol_mint() -> (r: Address)
    ensures
        r.bytes@ == wsol_mint_id(),
{
    let r = Address { bytes: [6u8, 155, 136, 87, 254, 171, 129, 132, 251, 104, 127, 99, 70, 24, 192, 53, 218, 196, 57, 220, 26, 235, 59, 85, 152, 160, 240, 0, 0, 0, 0, 1] };
    assert(r.bytes@ =~= wsol_mint_id());
    r
}

} // verus!
