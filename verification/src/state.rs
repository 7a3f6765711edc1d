use vstd::prelude::*;

verus! {

/// A 32-byte account address (a public key).
#[derive(Clone, Copy, Debug)]
pub struct Address {
    pub bytes: [u8; 32],
}

impl View for Address {
    type V = Seq<u8>;

    open spec fn view(&self) -> Seq<u8> {
        self.bytes@
    }
}

impl Address {
    /// Builds an address from its bytes.
    pub fn new(bytes: [u8; 32]) -> (a: Address)
        ensures
            a@ == bytes@,
    {
        Address { bytes }
    }

    /// Whether two addresses hold the same bytes.
    pub fn same(&self, other: &Address) -> (b: bool)
        ensures
            b == (self@ == other@),
    {
        let mut i: usize = 0;
        while i < 32
            invariant
                0 <= i <= 32,
                self@.len() == 32,
                other@.len() == 32,
                forall|j: int| 0 <= j < i ==> self@[j] == other@[j],
            decreases 32 - i,
        {
            if self.bytes[i] != other.bytes[i] {
                return false;
            }
            i = i + 1;
        }
        assert(self@ =~= other@);
        true
    }

    /// The address's bytes as a vector, as a seed is handed to address derivation.
    pub fn to_seed(&self) -> (v: Vec<u8>)
        ensures
            v@ == self@,
    {
        let mut v: Vec<u8> = Vec::new();
        let mut i: usize = 0;
        while i < 32
            invariant
                0 <= i <= 32,
                self@.len() == 32,
                v@ == self@.subrange(0, i as int),
            decreases 32 - i,
        {
            v.push(self.bytes[i]);
            i = i + 1;
        }
        assert(self@.subrange(0, 32) =~= self@);
        v
    }
}

} // verus!

verus! {

/// The data an escrow account holds: who made it, which mints it swaps, how much of
/// token B the maker wants, until when a taker may accept, and the bump seed of its
/// program-derived address.
#[derive(Clone, Copy, Debug)]
pub struct Escrow {
    pub seed: u64,
    pub maker: Address,
    pub mint_a: Address,
    pub mint_b: Address,
    pub receive: u64,
    pub expiration: i64,
    pub bump: u8,
}

/// What the program reads of a token account: its address, mint, owner and balance.
#[derive(Clone, Copy, Debug)]
pub struct TokenAccount {
    pub address: Address,
    pub mint: Address,
    pub owner: Address,
    pub amount: u64,
}

/// A transfer that a handler asks the token program to perform, signed by `authority`.
#[derive(Clone, Copy, Debug)]
pub struct TokenTransfer {
    pub from: Address,
    pub to: Address,
    pub authority: Address,
    pub mint: Address,
    pub amount: u64,
}

} // verus!
