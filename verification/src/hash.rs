//! The digests that name-based identifiers are made of.

use vstd::prelude::*;

verus! {

/// The MD5 digest of `data`: sixteen bytes.
pub uninterp spec fn md5_digest(data: Seq<u8>) -> Seq<u8>;

/// The SHA-1 digest of `data`: twenty bytes.
pub uninterp spec fn sha1_digest(data: Seq<u8>) -> Seq<u8>;

/// `md5::compute`: the sixteen bytes of the MD5 digest of `data`.
#[verifier::external_body]
pub(crate) fn md5_of(data: &[u8]) -> (r: [u8; 16])
    ensures
        r@ == md5_digest(data@),
{
    md5::compute(data).0
}

/// `Digest::digest` of `sha1::Sha1`: the twenty bytes of the SHA-1 digest
/// of `data`.
#[verifier::external_body]
pub(crate) fn sha1_of(data: &[u8]) -> (r: [u8; 20])
    ensures
        r@ == sha1_digest(data@),
{
    <sha1::Sha1 as sha1::Digest>::digest(data).into()
}

/// The bytes of `namespace` followed by those of `name`.
pub fn name_input(namespace: &[u8; 16], name: &[u8]) -> (r: Vec<u8>)
    ensures
        r@ == namespace@ + name@,
{
    let mut data: Vec<u8> = Vec::with_capacity(16);
    let mut i: usize = 0;
    while i < 16
        invariant
            i <= 16,
            data@ == namespace@.subrange(0, i as int),
        decreases 16 - i,
    {
        data.push(namespace[i]);
        assert(data@ =~= namespace@.subrange(0, i + 1));
        i += 1;
    }
    assert(data@ =~= namespace@);
    let mut k: usize = 0;
    while k < name.len()
        invariant
            k <= name@.len(),
            data@ == namespace@ + name@.subrange(0, k as int),
        decreases name@.len() - k,
    {
        data.push(name[k]);
        assert(data@ =~= namespace@ + name@.subrange(0, k + 1));
        k += 1;
    }
    assert(name@.subrange(0, name@.len() as int) =~= name@);
    data
}

/// The first sixteen bytes of a digest of twenty.
pub fn truncate_digest(digest: &[u8; 20]) -> (r: [u8; 16])
    ensures
        r@ == digest@.subrange(0, 16),
{
    let mut out: [u8; 16] = [0u8; 16];
    let mut i: usize = 0;
    while i < 16
        invariant
            i <= 16,
            forall|j: int| 0 <= j < i ==> out@[j] == digest@[j],
        decreases 16 - i,
    {
        out[i] = digest[i];
        i += 1;
    }
    assert(out@ =~= digest@.subrange(0, 16));
    out
}

/// The first sixteen bytes of the SHA-1 digest of a namespace followed by
/// a name.
pub fn hash(ns: &[u8; 16], src: &[u8]) -> (r: [u8; 16])
    ensures
        r@ == sha1_digest(ns@ + src@).subrange(0, 16),
{
    let data = name_input(ns, src);
    let digest = sha1_of(data.as_slice());
    truncate_digest(&digest)
}

} // verus!
