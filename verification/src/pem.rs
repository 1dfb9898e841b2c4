//! Keys written as blocks of text.

use vstd::prelude::*;
use vstd::string::*;

verus! {

/// The base64 text of a run of bytes, in the standard alphabet and with padding.
pub uninterp spec fn base64_text(bytes: Seq<u8>) -> Seq<char>;

/// The length of the base64 text of so many bytes can be counted in a `usize`.
pub open spec fn encodable_len(len: nat) -> bool {
    len / 3 * 4 + 4 <= usize::MAX
}

/// Encodes bytes as base64.
///
/// Calls `Engine::encode` of the crate `base64` on its `STANDARD` engine. That
/// function panics where the length of its result overflows, which the
/// precondition rules out. The result depends on the bytes alone; the contract
/// gives it its name and claims nothing more of it.
#[verifier::external_body]
pub(crate) fn base64_encode(bytes: &Vec<u8>) -> (r: String)
    requires
        encodable_len(bytes@.len()),
    ensures
        r@ == base64_text(bytes@),
{
    base64::Engine::encode(&base64::engine::general_purpose::STANDARD, bytes)
}

/// One key as a block: the opening line, the encoded key, and the closing line.
pub open spec fn pem_block_text(encoded: Seq<char>) -> Seq<char> {
    "------BEGIN-----\n"@ + encoded + "------END-----\n"@
}

/// The blocks of a list of keys, one after the other.
pub open spec fn pem_text(keys: Seq<Vec<u8>>) -> Seq<char>
    decreases keys.len(),
{
    if keys.len() == 0 {
        Seq::empty()
    } else {
        pem_text(keys.drop_last()) + pem_block_text(base64_text(keys.last()@))
    }
}

/// Appends the block of an encoded key to `pem`.
pub fn push_pem_block(pem: &mut String, encoded: &str)
    ensures
        final(pem)@ == old(pem)@ + pem_block_text(encoded@),
{
    let ghost before = pem@;
    pem.append("------BEGIN-----\n");
    pem.append(encoded);
    pem.append("------END-----\n");
    assert(pem@ =~= before + pem_block_text(encoded@));
}

/// Writes each key as a block of base64 text between an opening and a closing line.
pub fn to_pem(public_keys: &Vec<Vec<u8>>) -> (r: String)
    requires
        forall|i: int| 0 <= i < public_keys@.len() ==> encodable_len(#[trigger] public_keys@[i]@.len()),
    ensures
        r@ == pem_text(public_keys@),
{
    let mut pem = String::new();
    let mut i: usize = 0;
    assert(public_keys@.take(0) =~= Seq::<Vec<u8>>::empty());
    while i < public_keys.len()
        invariant
            i <= public_keys@.len(),
            forall|k: int|
                0 <= k < public_keys@.len() ==> encodable_len(#[trigger] public_keys@[k]@.len()),
            pem@ == pem_text(public_keys@.take(i as int)),
        decreases public_keys@.len() - i,
    {
        proof {
            assert(public_keys@.take(i + 1).drop_last() =~= public_keys@.take(i as int));
            assert(public_keys@.take(i + 1).last() == public_keys@[i as int]);
        }
        let encoded = base64_encode(&public_keys[i]);
        push_pem_block(&mut pem, encoded.as_str());
        i = i + 1;
    }
    assert(public_keys@.take(public_keys@.len() as int) =~= public_keys@);
    pem
}

} // verus!
