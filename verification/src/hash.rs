//! MD5 digests, computed by the `md5` crate and written in lower-case hex.
use crate::manifest::{entry_hash_spec, is_hex_digit};
use crate::text::{push_char, string_of};
use vstd::prelude::*;

verus! {

pub const HASH_ALGORITHM_MD5: &'static str = "md5";

/// Size of the read buffer when hashing a file.
pub const HASH_BUF_SIZE: usize = 262144;

/// The MD5 digest of a byte string, as `md5::compute` gives it.
pub uninterp spec fn md5_digest(data: Seq<u8>) -> Seq<u8>;

/// `md5::compute`: the 16-byte MD5 digest of `data`, a function of the data.
#[verifier::external_body]
fn md5_compute(data: &[u8]) -> (d: [u8; 16])
    ensures
        d@ == md5_digest(data@),
{
    md5::compute(data).0
}

/// Lower-case hexadecimal digit of `d < 16`.
pub open spec fn hex_lower_digit(d: u8) -> char {
    if d < 10 {
        (48 + d) as char
    } else {
        (87 + d) as char
    }
}

/// Two lower-case hex digits per byte, high half first (`{:x}` of a digest).
pub open spec fn hex_lower(bytes: Seq<u8>) -> Seq<char>
    decreases bytes.len(),
{
    if bytes.len() == 0 {
        Seq::<char>::empty()
    } else {
        hex_lower(bytes.drop_last()).push(hex_lower_digit(bytes.last() / 16)).push(hex_lower_digit(bytes.last() % 16))
    }
}

/// Every character of the hex form is an ASCII hex digit, two per byte.
pub proof fn lemma_hex_lower(bytes: Seq<u8>)
    ensures
        hex_lower(bytes).len() == 2 * bytes.len(),
        forall|i: int| 0 <= i < hex_lower(bytes).len() ==> is_hex_digit(#[trigger] hex_lower(bytes)[i]) && hex_lower(bytes)[i] <= '\u{7f}',
    decreases bytes.len(),
{
    if bytes.len() > 0 {
        lemma_hex_lower(bytes.drop_last());
        let h = hex_lower(bytes.drop_last());
        let hi = hex_lower_digit(bytes.last() / 16);
        let lo = hex_lower_digit(bytes.last() % 16);
        assert(is_hex_digit(hi) && hi <= '\u{7f}');
        assert(is_hex_digit(lo) && lo <= '\u{7f}');
        assert forall|i: int| 0 <= i < hex_lower(bytes).len() implies is_hex_digit(#[trigger] hex_lower(bytes)[i]) && hex_lower(bytes)[i] <= '\u{7f}' by {
            if i < h.len() {
                assert(hex_lower(bytes)[i] == h[i]);
            }
        }
    }
}

/// The lower-case hex of a 16-byte digest, as the manifest generator writes
/// it, is a hash that manifest validation accepts: 32 hex digits.
pub proof fn law_digest_hex_is_manifest_hash(digest: Seq<u8>, path: Seq<char>)
    requires
        digest.len() == 16,
    ensures
        hex_lower(digest).len() == 32,
        entry_hash_spec(hex_lower(digest), path) is Ok,
{
    lemma_hex_lower(digest);
    let h = hex_lower(digest);
    assert(vstd::utf8::is_ascii_chars(h));
    vstd::utf8::is_ascii_chars_encode_utf8(h);
}

fn hex_digit_exec(d: u8) -> (c: char)
    requires
        d < 16,
    ensures
        c == hex_lower_digit(d),
{
    let table = ['0', '1', '2', '3', '4', '5', '6', '7', '8', '9', 'a', 'b', 'c', 'd', 'e', 'f'];
    let c = table[d as usize];
    proof {
        assert(table@[d as int] == hex_lower_digit(d)) by {
            if d < 10 {
            } else {
            }
        }
    }
    c
}

/// The bytes written as lower-case hex.
pub fn digest_to_hex(bytes: &[u8]) -> (s: String)
    ensures
        s@ == hex_lower(bytes@),
{
    let mut s = String::new();
    let mut i: usize = 0;
    while i < bytes.len()
        invariant
            i <= bytes.len(),
            s@ == hex_lower(bytes@.take(i as int)),
        decreases bytes.len() - i,
    {
        let b = bytes[i];
        push_char(&mut s, hex_digit_exec(b / 16));
        push_char(&mut s, hex_digit_exec(b % 16));
        assert(bytes@.take(i + 1).drop_last() == bytes@.take(i as int));
        i = i + 1;
    }
    assert(bytes@.take(bytes.len() as int) == bytes@);
    s
}

/// Compute MD5 of bytes in memory (for small chunks).
pub fn md5_bytes(bytes: &[u8]) -> (s: String)
    ensures
        s@ == hex_lower(md5_digest(bytes@)),
{
    let d = md5_compute(bytes);
    digest_to_hex(&d)
}

#[verifier::external_type_specification]
#[verifier::external_body]
pub struct ExMd5Context(md5::Context);

/// The bytes that an `md5::Context` has consumed since it was made.
pub uninterp spec fn md5_consumed(ctx: md5::Context) -> Seq<u8>;

/// `md5::Context::new`: a context that has consumed nothing.
#[verifier::external_body]
fn md5_context_new() -> (c: md5::Context)
    ensures
        md5_consumed(c) == Seq::<u8>::empty(),
{
    md5::Context::new()
}

/// `md5::Context::consume`: `data` is appended to what the context consumed.
#[verifier::external_body]
fn md5_consume(ctx: &mut md5::Context, data: &[u8])
    ensures
        md5_consumed(*final(ctx)) == md5_consumed(*old(ctx)) + data@,
{
    ctx.consume(data)
}

/// `md5::Context::compute`: the digest of everything the context consumed,
/// the same as `md5::compute` of those bytes.
#[verifier::external_body]
fn md5_context_compute(ctx: md5::Context) -> (d: [u8; 16])
    ensures
        d@ == md5_digest(md5_consumed(ctx)),
{
    ctx.compute().0
}

/// An MD5 digest computed chunk by chunk, as a file is read.
pub struct Md5Hasher {
    ctx: md5::Context,
}

impl Md5Hasher {
    /// The bytes fed so far, in order.
    pub closed spec fn fed(&self) -> Seq<u8> {
        md5_consumed(self.ctx)
    }

    pub fn new() -> (h: Md5Hasher)
        ensures
            h.fed() == Seq::<u8>::empty(),
    {
        Md5Hasher { ctx: md5_context_new() }
    }

    pub fn update(&mut self, chunk: &[u8])
        ensures
            final(self).fed() == old(self).fed() + chunk@,
    {
        md5_consume(&mut self.ctx, chunk);
    }

    /// The digest of all the bytes fed, in lower-case hex: what [`md5_bytes`]
    /// gives for them in one piece.
    pub fn finish(self) -> (s: String)
        ensures
            s@ == hex_lower(md5_digest(self.fed())),
    {
        let d = md5_context_compute(self.ctx);
        digest_to_hex(&d)
    }
}

} // verus!
