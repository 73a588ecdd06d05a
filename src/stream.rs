//! What is written for each chunk of a streamed server output.
use vstd::prelude::*;
use vstd::utf8::{decode_utf8, valid_utf8};

verus! {

/// How the chunks of a stream are written.
#[derive(PartialEq, Eq, Structural, Clone, Copy, Debug)]
pub enum StreamMode {
    /// Each chunk as the bytes it holds.
    Raw,
    /// Each chunk decoded as UTF-8, followed by a line break.
    Text,
}

/// What to write for one chunk.
#[derive(Clone, Debug, PartialEq, Eq)]
pub enum Emit {
    Bytes(Vec<u8>),
    Text(String),
    /// The chunk is not UTF-8 text: the stream cannot be shown as text.
    Invalid,
}

/// What to write for one chunk, as plain values.
pub enum EmitView {
    Bytes(Seq<u8>),
    Text(Seq<char>),
    Invalid,
}

impl View for Emit {
    type V = EmitView;

    open spec fn view(&self) -> EmitView {
        match self {
            Emit::Bytes(b) => EmitView::Bytes(b@),
            Emit::Text(s) => EmitView::Text(s@),
            Emit::Invalid => EmitView::Invalid,
        }
    }
}

/// What is written for the chunk `chunk`.
pub open spec fn emit_spec(mode: StreamMode, chunk: Seq<u8>) -> EmitView {
    match mode {
        StreamMode::Raw => EmitView::Bytes(chunk),
        StreamMode::Text => if valid_utf8(chunk) {
            EmitView::Text(decode_utf8(chunk) + "\n"@)
        } else {
            EmitView::Invalid
        },
    }
}

/// What is written for a stream that has delivered `chunks`, chunk by chunk.
pub open spec fn emissions(mode: StreamMode, chunks: Seq<Seq<u8>>) -> Seq<EmitView>
    decreases chunks.len(),
{
    if chunks.len() == 0 {
        seq![]
    } else {
        emissions(mode, chunks.drop_last()).push(emit_spec(mode, chunks.last()))
    }
}

/// Relies on std::str::from_utf8: it accepts exactly the valid UTF-8 byte
/// sequences and gives the text they encode.
#[verifier::external_body]
fn text_of_utf8(b: &[u8]) -> (r: Option<String>)
    ensures
        match r {
            Some(s) => valid_utf8(b@) && s@ == decode_utf8(b@),
            None => !valid_utf8(b@),
        },
{
    std::str::from_utf8(b).ok().map(String::from)
}

/// What to write for one chunk of the stream, as soon as it arrives.
pub fn emit_chunk(mode: StreamMode, chunk: Vec<u8>) -> (r: Emit)
    ensures
        r@ == emit_spec(mode, chunk@),
{
    match mode {
        StreamMode::Raw => Emit::Bytes(chunk),
        StreamMode::Text => match text_of_utf8(chunk.as_slice()) {
            Some(s) => Emit::Text(s.concat("\n")),
            None => Emit::Invalid,
        },
    }
}

/// A stream writes every chunk, in the order of delivery, each as soon as
/// it is delivered: what is written for the first `k` chunks is what is
/// written first for the whole stream, and depends on nothing later.
pub proof fn lemma_stream_in_order(mode: StreamMode, chunks: Seq<Seq<u8>>, k: int)
    requires
        0 <= k <= chunks.len(),
    ensures
        emissions(mode, chunks).len() == chunks.len(),
        forall|i: int|
            0 <= i < chunks.len() ==> #[trigger] emissions(mode, chunks)[i] == emit_spec(
                mode,
                chunks[i],
            ),
        mode == StreamMode::Raw ==> forall|i: int|
            0 <= i < chunks.len() ==> #[trigger] emissions(mode, chunks)[i] == EmitView::Bytes(
                chunks[i],
            ),
        emissions(mode, chunks.subrange(0, k)) == emissions(mode, chunks).subrange(0, k),
    decreases chunks.len(),
{
    if chunks.len() > 0 {
        let init = chunks.drop_last();
        lemma_stream_in_order(mode, init, if k < chunks.len() { k } else { 0 });
        if k == chunks.len() {
            assert(chunks.subrange(0, k) =~= chunks);
            assert(emissions(mode, chunks).subrange(0, k) =~= emissions(mode, chunks));
        } else {
            assert(chunks.subrange(0, k) =~= init.subrange(0, k));
            assert(emissions(mode, chunks).subrange(0, k) =~= emissions(mode, init).subrange(0, k));
        }
        assert forall|i: int| 0 <= i < chunks.len() implies #[trigger] emissions(mode, chunks)[i]
            == emit_spec(mode, chunks[i]) by {
            if i < init.len() {
                assert(init[i] == chunks[i]);
            }
        }
    }
}

} // verus!
