use vstd::prelude::*;
use vstd::slice::slice_subrange;

use crate::codec::{decode_field, fr_of_bytes};
use crate::error::Error;

verus! {

/// The `i`-th 32-byte chunk of a flat public-input blob.
pub open spec fn chunk32(s: Seq<u8>, i: int) -> Seq<u8> {
    s.subrange(32 * i, 32 * i + 32)
}

/// How many whole 32-byte chunks the blob holds.
pub open spec fn num_chunks(s: Seq<u8>) -> int {
    s.len() as int / 32
}

/// Every chunk decodes to a canonical field element.
pub open spec fn chunks_decodable(s: Seq<u8>) -> bool {
    forall|i: int| 0 <= i < num_chunks(s) ==> fr_of_bytes(#[trigger] chunk32(s, i)) is Some
}

/// The transformer accepts the blob: whole chunks only, all canonical.
pub open spec fn transform_ok(s: Seq<u8>) -> bool {
    s.len() % 32 == 0 && chunks_decodable(s)
}

/// The field elements of the blob, one per chunk, in blob order.
pub open spec fn fields_of(s: Seq<u8>) -> Seq<ark_bn254::Fr> {
    Seq::new(num_chunks(s) as nat, |i: int| fr_of_bytes(chunk32(s, i)).unwrap())
}

/// Splits the flat public-input blob into consecutive 32-byte chunks and
/// decodes each as a field element, keeping the original order.  A blob
/// whose length is not a multiple of 32, or with any non-canonical
/// chunk, is rejected as a whole: there is no partial acceptance.
pub fn transform_public_input_flatten(input: &[u8]) -> (r: Result<Vec<ark_bn254::Fr>, Error>)
    ensures
        r is Ok <==> transform_ok(input@),
        r is Ok ==> r.unwrap()@ == fields_of(input@),
        r is Err ==> r == Err::<Vec<ark_bn254::Fr>, Error>(Error::MalformedField),
{
    let len: usize = input.len();
    if len % 32 != 0 {
        return Err(Error::MalformedField);
    }
    let n: usize = len / 32;
    let mut out: Vec<ark_bn254::Fr> = Vec::new();
    let mut i: usize = 0;
    let mut off: usize = 0;
    while i < n
        invariant
            len == input@.len(),
            input@.len() % 32 == 0,
            n == num_chunks(input@),
            i <= n,
            off == 32 * i,
            out@.len() == i,
            forall|j: int| 0 <= j < i ==> fr_of_bytes(#[trigger] chunk32(input@, j)) is Some,
            forall|j: int| 0 <= j < i ==> out@[j] == fr_of_bytes(chunk32(input@, j)).unwrap(),
        decreases n - i,
    {
        proof {
            assert(input@.len() as int == 32 * num_chunks(input@) + input@.len() as int % 32);
            assert(32 * (i as int) + 32 <= 32 * (n as int));
        }
        let chunk: &[u8] = slice_subrange(input, off, off + 32);
        match decode_field(chunk) {
            Ok(f) => {
                out.push(f);
                proof {
                    assert(chunk@ == chunk32(input@, i as int));
                }
            },
            Err(_) => {
                proof {
                    assert(!chunks_decodable(input@)) by {
                        assert(fr_of_bytes(chunk32(input@, i as int)) is None);
                    }
                }
                return Err(Error::MalformedField);
            },
        }
        i += 1;
        off += 32;
    }
    proof {
        assert(out@ =~= fields_of(input@));
    }
    Ok(out)
}

} // verus!
