use vstd::prelude::*;
use vstd::slice::slice_index_get;

use sha2::Digest;

verus! {

/// The SHA-256 digest of `data`, as sha2 computes it: a fixed function of
/// the input bytes alone.
pub uninterp spec fn sha256_of(data: Seq<u8>) -> Seq<u8>;

/// The ASCII bytes of `"global::"`, the namespace prefix hashed into an
/// instruction discriminator.
pub open spec fn global_namespace_prefix() -> Seq<u8> {
    seq![103u8, 108u8, 111u8, 98u8, 97u8, 108u8, 58u8, 58u8]
}

/// Relies on sha2's `Sha256::digest`: the digest depends on the input bytes
/// alone, and a SHA-256 digest is 32 bytes long.
#[verifier::external_body]
fn sha256(data: &[u8]) -> (r: Vec<u8>)
    ensures
        r@ == sha256_of(data@),
        r@.len() == 32,
{
    sha2::Sha256::digest(data).to_vec()
}

/// The 8-byte instruction discriminator for the instruction whose name is
/// the ASCII bytes `name`: the first 8 bytes of SHA-256 over
/// `"global::" ++ name`.
pub fn pvp_ix_discriminator(name: &[u8]) -> (r: Vec<u8>)
    ensures
        r@ == sha256_of(global_namespace_prefix() + name@).take(8),
{
    let mut preimage: Vec<u8> = Vec::new();
    preimage.push(103u8);
    preimage.push(108u8);
    preimage.push(111u8);
    preimage.push(98u8);
    preimage.push(97u8);
    preimage.push(108u8);
    preimage.push(58u8);
    preimage.push(58u8);
    proof {
        assert(preimage@ =~= global_namespace_prefix() + name@.take(0));
    }
    let mut i: usize = 0;
    while i < name.len()
        invariant
            i <= name@.len(),
            preimage@ == global_namespace_prefix() + name@.take(i as int),
        decreases name@.len() - i,
    {
        preimage.push(*slice_index_get(name, i));
        proof {
            assert(preimage@ =~= global_namespace_prefix() + name@.take(i + 1));
        }
        i += 1;
    }
    proof {
        assert(preimage@ =~= global_namespace_prefix() + name@);
    }
    let digest = sha256(preimage.as_slice());
    let mut r: Vec<u8> = Vec::new();
    let mut j: usize = 0;
    while j < 8
        invariant
            j <= 8,
            digest@ == sha256_of(global_namespace_prefix() + name@),
            digest@.len() == 32,
            r@ == digest@.take(j as int),
        decreases 8 - j,
    {
        r.push(digest[j]);
        proof {
            assert(r@ =~= digest@.take(j + 1));
        }
        j += 1;
    }
    r
}

} // verus!
