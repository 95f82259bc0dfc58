//! Chunked transfer protocol: splits the message body of a signing request
//! into an ordered sequence of command frames. The first frame carries the
//! serialized path under the `Init` marker; each following frame carries one
//! message chunk, `Add` for every chunk but the last and `Last` for the final
//! one, whose response carries the signature.

use crate::codec::build_sign_init_command;
use crate::decode::ProtocolError;
use crate::frame::ChunkMarker;
use crate::frame::CommandFrame;
use crate::frame::CLA;
use crate::frame::INS_SIGN_SECP256K1;
use crate::path::spec_serialize_path;
use vstd::arithmetic::div_mod::lemma_div_plus_one;
use vstd::prelude::*;
use vstd::slice::slice_subrange;
use vstd::slice::slice_to_vec;

verus! {

/// The message split into successive chunks of at most `chunk_size` bytes:
/// every chunk but the last is exactly `chunk_size` long, and the last one
/// holds whatever remains.
pub open spec fn chunk_split(message: Seq<u8>, chunk_size: nat) -> Seq<Seq<u8>>
    recommends
        1 <= chunk_size,
    decreases message.len(),
{
    if chunk_size == 0 {
        seq![]
    } else if message.len() == 0 {
        seq![]
    } else if message.len() <= chunk_size {
        seq![message]
    } else {
        seq![message.take(chunk_size as int)] + chunk_split(
            message.skip(chunk_size as int),
            chunk_size,
        )
    }
}

/// Law: chunking loses, reorders and duplicates nothing - the chunks of a
/// message, concatenated in order, are the message again.
pub proof fn lemma_chunks_reassemble(message: Seq<u8>, chunk_size: nat)
    requires
        1 <= chunk_size,
    ensures
        chunk_split(message, chunk_size).flatten() =~= message,
    decreases message.len(),
{
    let chunks = chunk_split(message, chunk_size);
    if message.len() == 0 {
        assert(chunks.flatten() =~= message);
    } else if message.len() <= chunk_size {
        assert(chunks == seq![message]);
        chunks.lemma_flatten_one_element();
        assert(chunks.flatten() =~= message);
    } else {
        let head = message.take(chunk_size as int);
        let tail = message.skip(chunk_size as int);
        lemma_chunks_reassemble(tail, chunk_size);
        assert(chunks.drop_first() =~~= chunk_split(tail, chunk_size));
        assert(chunks.first() == head);
        assert(chunks.flatten() == head + chunk_split(tail, chunk_size).flatten());
        assert(head + tail =~= message);
    }
}

/// Law: a non-empty message of `n` bytes splits into exactly
/// `(n + chunk_size - 1) / chunk_size` chunks, the quotient rounded up.
pub proof fn lemma_chunk_count(message: Seq<u8>, chunk_size: nat)
    requires
        1 <= chunk_size,
        1 <= message.len(),
    ensures
        chunk_split(message, chunk_size).len() == (message.len() + chunk_size - 1) as int / (
        chunk_size as int),
    decreases message.len(),
{
    let n = message.len() as int;
    let c = chunk_size as int;
    if message.len() <= chunk_size {
        assert((n + c - 1) / c == 1) by (nonlinear_arith)
            requires
                1 <= n <= c,
        ;
    } else {
        let tail = message.skip(chunk_size as int);
        lemma_chunk_count(tail, chunk_size);
        assert(tail.len() == n - c);
        assert(chunk_split(message, chunk_size).len() == 1 + (n - c + c - 1) / c);
        assert(n - c + c - 1 == n - 1);
        lemma_div_plus_one(n - 1, c);
        assert(1 + (n - 1) / c == (c + (n - 1)) / c);
        assert(c + (n - 1) == n + c - 1);
    }
}

/// Builds the full ordered frame sequence that signs `message` under `path`:
/// the path-establishing `Init` frame first, then one frame per message
/// chunk, in message order. An empty message is rejected as
/// `InvalidEmptyMessage` before any frame is built; for a non-empty message
/// the result holds exactly one frame more than there are chunks.
pub fn build_sign_frames(path: &zx_bip44::BIP44Path, message: &[u8], chunk_size: usize) -> (r:
    Result<Vec<CommandFrame>, ProtocolError>)
    requires
        1 <= chunk_size,
    ensures
        message@.len() == 0 ==> r == Err::<Vec<CommandFrame>, ProtocolError>(
            ProtocolError::InvalidEmptyMessage,
        ),
        message@.len() > 0 ==> (r matches Ok(frames) && {
            let chunks = chunk_split(message@, chunk_size as nat);
            &&& frames@.len() == 1 + chunks.len()
            &&& frames@.len() == 1 + (message@.len() + chunk_size - 1) as int / (chunk_size as int)
            &&& frames@[0].cla == CLA
            &&& frames@[0].ins == INS_SIGN_SECP256K1
            &&& frames@[0].p1 == ChunkMarker::Init.spec_byte()
            &&& frames@[0].p2 == 0
            &&& frames@[0].data@ == spec_serialize_path(path.0@)
            &&& (forall|i: int|
                1 <= i < frames@.len() ==> {
                    &&& (#[trigger] frames@[i]).cla == CLA
                    &&& frames@[i].ins == INS_SIGN_SECP256K1
                    &&& frames@[i].p2 == 0
                    &&& frames@[i].data@ == chunks[i - 1]
                    &&& frames@[i].p1 == (if i == frames@.len() - 1 {
                        ChunkMarker::Last.spec_byte()
                    } else {
                        ChunkMarker::Add.spec_byte()
                    })
                })
        }),
{
    if message.len() == 0 {
        return Err(ProtocolError::InvalidEmptyMessage);
    }
    let ghost chunks = chunk_split(message@, chunk_size as nat);
    let mut frames: Vec<CommandFrame> = Vec::new();
    frames.push(build_sign_init_command(path));
    let mut start: usize = 0;
    let ghost mut k: int = 0;
    proof {
        assert(message@.skip(0) =~= message@);
        assert(chunks.skip(0) =~~= chunks);
    }
    while start < message.len()
        invariant
            1 <= chunk_size,
            1 <= message@.len(),
            start <= message@.len(),
            chunks == chunk_split(message@, chunk_size as nat),
            0 <= k <= chunks.len(),
            chunk_split(message@.skip(start as int), chunk_size as nat) == chunks.skip(k),
            (start == message@.len()) <==> (k == chunks.len()),
            frames@.len() == 1 + k,
            frames@[0].cla == CLA,
            frames@[0].ins == INS_SIGN_SECP256K1,
            frames@[0].p1 == ChunkMarker::Init.spec_byte(),
            frames@[0].p2 == 0,
            frames@[0].data@ == spec_serialize_path(path.0@),
            forall|i: int|
                1 <= i < frames@.len() ==> {
                    &&& (#[trigger] frames@[i]).cla == CLA
                    &&& frames@[i].ins == INS_SIGN_SECP256K1
                    &&& frames@[i].p2 == 0
                    &&& frames@[i].data@ == chunks[i - 1]
                    &&& frames@[i].p1 == (if i == chunks.len() {
                        ChunkMarker::Last.spec_byte()
                    } else {
                        ChunkMarker::Add.spec_byte()
                    })
                },
        decreases message@.len() - start,
    {
        let remaining: usize = message.len() - start;
        let ghost rest = message@.skip(start as int);
        let end: usize;
        let marker: u8;
        if remaining <= chunk_size {
            end = message.len();
            marker = ChunkMarker::Last.byte();
        } else {
            end = start + chunk_size;
            marker = ChunkMarker::Add.byte();
        }
        proof {
            assert(rest.len() == message@.len() - start);
            if remaining <= chunk_size {
                assert(chunk_split(rest, chunk_size as nat) == seq![rest]);
                assert(chunks.skip(k).len() == 1);
                assert(k + 1 == chunks.len());
                assert(chunks[k] == chunks.skip(k)[0]);
                assert(chunks[k] == rest);
                assert(message@.subrange(start as int, end as int) =~= rest);
                assert(message@.skip(end as int) =~= Seq::<u8>::empty());
                assert(chunk_split(message@.skip(end as int), chunk_size as nat) =~~= chunks.skip(
                    k + 1,
                ));
            } else {
                let head = rest.take(chunk_size as int);
                assert(chunk_split(rest, chunk_size as nat) == seq![head] + chunk_split(
                    rest.skip(chunk_size as int),
                    chunk_size as nat,
                ));
                assert(chunks[k] == chunks.skip(k)[0]);
                assert(chunks[k] == head);
                assert(message@.subrange(start as int, end as int) =~= head);
                assert(rest.skip(chunk_size as int) =~= message@.skip(end as int));
                assert(chunks.skip(k).skip(1) =~~= chunks.skip(k + 1));
                assert((seq![head] + chunk_split(rest.skip(chunk_size as int), chunk_size as nat))
                    .skip(1) =~~= chunk_split(rest.skip(chunk_size as int), chunk_size as nat));
                assert(chunk_split(message@.skip(end as int), chunk_size as nat) =~~= chunks.skip(
                    k + 1,
                ));
                assert(k + 1 < chunks.len()) by {
                    assert(chunks.skip(k).len() >= 2);
                }
            }
        }
        let data: Vec<u8> = slice_to_vec(slice_subrange(message, start, end));
        frames.push(CommandFrame { cla: CLA, ins: INS_SIGN_SECP256K1, p1: marker, p2: 0, data });
        start = end;
        proof {
            k = k + 1;
        }
    }
    proof {
        lemma_chunk_count(message@, chunk_size as nat);
    }
    Ok(frames)
}

} // verus!
