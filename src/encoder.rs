//! Encrypted argument bundles: an ephemeral x25519 public key, a plaintext
//! nonce and the ciphertext blocks, in the order the circuit declares them.
//! Wire layout: key (32 bytes), nonce (16 bytes, little-endian), then each
//! 32-byte block.
use vstd::prelude::*;
use vstd::bytes::{spec_u128_to_le_bytes, u128_to_le_bytes};

verus! {

/// One opaque 32-byte ciphertext block.
pub type Ciphertext = [u8; 32];

/// The blocks in a row.
pub open spec fn blocks_bytes(blocks: Seq<Ciphertext>) -> Seq<u8> {
    blocks.map_values(|b: Ciphertext| b@).flatten_alt()
}

/// The wire bytes of a bundle.
pub open spec fn bundle_bytes(pub_key: Seq<u8>, nonce: u128, blocks: Seq<Ciphertext>) -> Seq<u8> {
    pub_key + spec_u128_to_le_bytes(nonce) + blocks_bytes(blocks)
}

/// The arguments of one computation request. The blocks are never inspected.
#[derive(Clone, Debug)]
pub struct EncryptedArgumentBundle {
    pub pub_key: [u8; 32],
    pub nonce: u128,
    pub ciphertexts: Vec<Ciphertext>,
}

/// Builds a bundle, keeping the blocks in the order given.
pub fn build(pub_key: [u8; 32], nonce: u128, ciphertexts: Vec<Ciphertext>) -> (r: EncryptedArgumentBundle)
    ensures
        r.pub_key == pub_key,
        r.nonce == nonce,
        r.ciphertexts@ == ciphertexts@,
{
    EncryptedArgumentBundle { pub_key, nonce, ciphertexts }
}

impl EncryptedArgumentBundle {
    /// The bundle's wire bytes.
    pub fn to_bytes(&self) -> (r: Vec<u8>)
        ensures
            r@ == bundle_bytes(self.pub_key@, self.nonce, self.ciphertexts@),
    {
        let mut r: Vec<u8> = Vec::new();
        let mut i: usize = 0;
        while i < 32
            invariant
                0 <= i <= 32,
                r@ == self.pub_key@.subrange(0, i as int),
            decreases 32 - i,
        {
            r.push(self.pub_key[i]);
            i = i + 1;
            assert(r@ =~= self.pub_key@.subrange(0, i as int));
        }
        assert(self.pub_key@.subrange(0, 32) =~= self.pub_key@);
        let nonce = u128_to_le_bytes(self.nonce);
        let mut i: usize = 0;
        while i < nonce.len()
            invariant
                0 <= i <= nonce@.len(),
                r@ == self.pub_key@ + nonce@.subrange(0, i as int),
            decreases nonce@.len() - i,
        {
            r.push(nonce[i]);
            i = i + 1;
            assert(r@ =~= self.pub_key@ + nonce@.subrange(0, i as int));
        }
        assert(nonce@.subrange(0, nonce@.len() as int) =~= nonce@);
        let ghost head = r@;
        let mut k: usize = 0;
        while k < self.ciphertexts.len()
            invariant
                0 <= k <= self.ciphertexts@.len(),
                r@ == head + blocks_bytes(self.ciphertexts@.subrange(0, k as int)),
            decreases self.ciphertexts@.len() - k,
        {
            let block = &self.ciphertexts[k];
            let ghost before = r@;
            let mut j: usize = 0;
            while j < 32
                invariant
                    0 <= j <= 32,
                    r@ == before + block@.subrange(0, j as int),
                decreases 32 - j,
            {
                r.push(block[j]);
                j = j + 1;
                assert(r@ =~= before + block@.subrange(0, j as int));
            }
            assert(block@.subrange(0, 32) =~= block@);
            proof {
                let done = self.ciphertexts@.subrange(0, k + 1);
                assert(done.drop_last() =~= self.ciphertexts@.subrange(0, k as int));
                assert(done.map_values(|b: Ciphertext| b@).drop_last() =~= self.ciphertexts@.subrange(
                    0,
                    k as int,
                ).map_values(|b: Ciphertext| b@));
            }
            k = k + 1;
            assert(r@ =~= head + blocks_bytes(self.ciphertexts@.subrange(0, k as int)));
        }
        assert(self.ciphertexts@.subrange(0, self.ciphertexts@.len() as int) =~= self.ciphertexts@);
        r
    }
}

} // verus!
