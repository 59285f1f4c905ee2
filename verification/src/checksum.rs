//! Streaming content checksums.
//!
//! A [`ChecksumEngine`] is fed the content of a file chunk by chunk and
//! yields the MD5 digest of everything it was fed, as lower-case hexadecimal
//! text. How the content is cut into chunks does not matter.

use vstd::prelude::*;

verus! {

#[verifier::external_type_specification]
#[verifier::external_body]
pub struct ExContext(md5::Context);

/// The bytes that a digest context has consumed since it was created, in order.
pub uninterp spec fn consumed(context: md5::Context) -> Seq<u8>;

/// The MD5 digest of `data`, as 32 hexadecimal digits in lower case.
pub uninterp spec fn md5_hex(data: Seq<u8>) -> Seq<char>;

/// `c` is one of `0`-`9`, `a`-`f`.
pub open spec fn is_lower_hex_digit(c: char) -> bool {
    ('0' <= c && c <= '9') || ('a' <= c && c <= 'f')
}

/// `text` has the shape of a digest written in hexadecimal: 32 lower-case digits.
pub open spec fn is_hex_digest(text: Seq<char>) -> bool {
    &&& text.len() == 32
    &&& forall|i: int| 0 <= i < text.len() ==> is_lower_hex_digit(#[trigger] text[i])
}

/// Largest read buffer, in bytes, that a checksum computation uses.
pub const MAX_BUFFER_BYTES: u64 = 1_000_000;

/// `md5::Context::new`. Trusted: the new context has consumed nothing.
#[verifier::external_body]
fn context_new() -> (context: md5::Context)
    ensures
        consumed(context) == Seq::<u8>::empty(),
{
    md5::Context::new()
}

/// `md5::Context::consume`. Trusted: the context has then consumed `data` after
/// all that it had consumed before.
#[verifier::external_body]
fn context_consume(context: &mut md5::Context, data: &[u8])
    ensures
        consumed(*final(context)) == consumed(*old(context)) + data@,
{
    context.consume(data)
}

/// `md5::Context::compute`, its digest formatted by `LowerHex`. Trusted: the
/// text is the digest of what the context has consumed, two lower-case
/// hexadecimal digits for each of its 16 bytes.
#[verifier::external_body]
fn context_hex(context: md5::Context) -> (hex: String)
    ensures
        hex@ == md5_hex(consumed(context)),
        is_hex_digest(hex@),
{
    format!("{:x}", context.compute())
}

/// A running checksum over the bytes fed to it.
pub struct ChecksumEngine {
    context: md5::Context,
}

impl View for ChecksumEngine {
    type V = Seq<u8>;

    /// All bytes fed so far, in order.
    closed spec fn view(&self) -> Seq<u8> {
        consumed(self.context)
    }
}

impl ChecksumEngine {
    /// An engine that has been fed nothing.
    pub fn new() -> (engine: Self)
        ensures
            engine@ == Seq::<u8>::empty(),
    {
        ChecksumEngine { context: context_new() }
    }

    /// Feeds `chunk` to the engine.
    pub fn update(&mut self, chunk: &[u8])
        ensures
            final(self)@ == old(self)@ + chunk@,
    {
        context_consume(&mut self.context, chunk);
    }

    /// The checksum of everything fed to the engine.
    pub fn finish(self) -> (hex: String)
        ensures
            hex@ == md5_hex(self@),
            is_hex_digest(hex@),
    {
        context_hex(self.context)
    }
}

/// Capacity of the read buffer for a file of `file_len` bytes: the whole file
/// where it is small, and never more than [`MAX_BUFFER_BYTES`].
pub fn buffer_capacity(file_len: u64) -> (capacity: usize)
    ensures
        capacity as int == if file_len <= MAX_BUFFER_BYTES {
            file_len as int
        } else {
            MAX_BUFFER_BYTES as int
        },
{
    if file_len <= MAX_BUFFER_BYTES {
        file_len as usize
    } else {
        MAX_BUFFER_BYTES as usize
    }
}

/// All chunks joined in order.
pub open spec fn joined(chunks: Seq<Seq<u8>>) -> Seq<u8>
    decreases chunks.len(),
{
    if chunks.len() == 0 {
        Seq::<u8>::empty()
    } else {
        joined(chunks.drop_last()) + chunks.last()
    }
}

/// The byte sequences that `chunks` holds.
pub open spec fn chunk_views(chunks: Seq<Vec<u8>>) -> Seq<Seq<u8>> {
    Seq::new(chunks.len(), |i: int| chunks[i]@)
}

/// The checksum of a content that is held in memory as one piece.
pub fn checksum(content: &[u8]) -> (hex: String)
    ensures
        hex@ == md5_hex(content@),
        is_hex_digest(hex@),
{
    let mut engine = ChecksumEngine::new();
    engine.update(content);
    assert(Seq::<u8>::empty() + content@ =~= content@);
    engine.finish()
}

/// The checksum of a content that arrives in `chunks`: that of the chunks
/// joined, whatever their sizes.
pub fn checksum_of_chunks(chunks: &Vec<Vec<u8>>) -> (hex: String)
    ensures
        hex@ == md5_hex(joined(chunk_views(chunks@))),
        is_hex_digest(hex@),
{
    let mut engine = ChecksumEngine::new();
    let mut i: usize = 0;
    while i < chunks.len()
        invariant
            i <= chunks.len(),
            engine@ == joined(chunk_views(chunks@).take(i as int)),
        decreases chunks.len() - i,
    {
        engine.update(chunks[i].as_slice());
        proof {
            let all = chunk_views(chunks@);
            assert(all.take(i + 1).drop_last() =~= all.take(i as int));
            assert(all.take(i + 1).last() == chunks@[i as int]@);
        }
        i += 1;
    }
    assert(chunk_views(chunks@).take(i as int) =~= chunk_views(chunks@));
    engine.finish()
}

/// A further chunk adds its bytes at the end of what the chunks join to.
pub proof fn lemma_joined_push(chunks: Seq<Seq<u8>>, last: Seq<u8>)
    ensures
        joined(chunks.push(last)) == joined(chunks) + last,
{
    assert(chunks.push(last).drop_last() =~= chunks);
}

} // verus!
