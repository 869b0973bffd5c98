//! Streaming MD5 digests, their lower-case hex text, and the comparison of a
//! computed digest with the one recorded in a sidecar.

use vstd::prelude::*;
use vstd::string::*;
use crate::text::digit_char;

verus! {

#[verifier::external_type_specification]
#[verifier::external_body]
pub struct ExMd5Context(md5::Context);

/// Name for the bytes an `md5::Context` has consumed so far.
pub uninterp spec fn md5_consumed(ctx: md5::Context) -> Seq<u8>;

/// Name for the 16-byte MD5 digest (RFC 1321) of a byte sequence.
pub uninterp spec fn md5_digest(data: Seq<u8>) -> Seq<u8>;

/// `md5::Context::new`.
///
/// Trusted: a fresh context has consumed nothing.
#[verifier::external_body]
fn md5_context_new() -> (c: md5::Context)
    ensures
        md5_consumed(c) == Seq::<u8>::empty(),
{
    md5::Context::new()
}

/// `md5::Context::consume`.
///
/// Trusted: the context's consumed bytes grow by exactly `data`, in order.
#[verifier::external_body]
fn md5_context_consume(c: &mut md5::Context, data: &[u8])
    ensures
        md5_consumed(*final(c)) == md5_consumed(*old(c)) + data@,
{
    c.consume(data);
}

/// `md5::Context::compute`, taking the digest's byte array.
///
/// Trusted: the digest is the MD5 of everything the context consumed.
#[verifier::external_body]
fn md5_context_compute(c: md5::Context) -> (d: [u8; 16])
    ensures
        d@ == md5_digest(md5_consumed(c)),
{
    c.compute().0
}

/// The hex digit character ('0'..='9', 'a'..='f') for a value below sixteen.
pub open spec fn hex_digit(n: nat) -> char {
    if n < 10 {
        digit_char(n)
    } else {
        ((n - 10) + ('a' as int)) as char
    }
}

/// Two lower-case hex digits per byte, most significant nibble first.
pub open spec fn lower_hex(bytes: Seq<u8>) -> Seq<char>
    decreases bytes.len(),
{
    if bytes.len() == 0 {
        Seq::empty()
    } else {
        lower_hex(bytes.drop_last()) + seq![
            hex_digit((bytes.last() / 16) as nat),
            hex_digit((bytes.last() % 16) as nat),
        ]
    }
}

fn hex_digit_str(d: u8) -> (s: &'static str)
    requires
        d < 16,
    ensures
        s@ == seq![hex_digit(d as nat)],
{
    proof {
        reveal_strlit("0");
        reveal_strlit("1");
        reveal_strlit("2");
        reveal_strlit("3");
        reveal_strlit("4");
        reveal_strlit("5");
        reveal_strlit("6");
        reveal_strlit("7");
        reveal_strlit("8");
        reveal_strlit("9");
        reveal_strlit("a");
        reveal_strlit("b");
        reveal_strlit("c");
        reveal_strlit("d");
        reveal_strlit("e");
        reveal_strlit("f");
    }
    if d == 0 { "0" }
    else if d == 1 { "1" }
    else if d == 2 { "2" }
    else if d == 3 { "3" }
    else if d == 4 { "4" }
    else if d == 5 { "5" }
    else if d == 6 { "6" }
    else if d == 7 { "7" }
    else if d == 8 { "8" }
    else if d == 9 { "9" }
    else if d == 10 { "a" }
    else if d == 11 { "b" }
    else if d == 12 { "c" }
    else if d == 13 { "d" }
    else if d == 14 { "e" }
    else { "f" }
}

/// Lower-case hex text of a byte string (what `{:x}` prints for an MD5 digest).
pub fn to_lower_hex(bytes: &[u8]) -> (s: String)
    ensures
        s@ == lower_hex(bytes@),
        s@.len() == 2 * bytes@.len(),
{
    let mut s = String::new();
    let mut i: usize = 0;
    while i < bytes.len()
        invariant
            i <= bytes@.len(),
            s@ == lower_hex(bytes@.subrange(0, i as int)),
            s@.len() == 2 * i,
        decreases bytes@.len() - i,
    {
        let b = bytes[i];
        s.append(hex_digit_str(b / 16));
        s.append(hex_digit_str(b % 16));
        proof {
            let pre = bytes@.subrange(0, i as int);
            let post = bytes@.subrange(0, i + 1);
            assert(post.drop_last() =~= pre);
            assert(post.last() == b);
            assert(lower_hex(post) =~= lower_hex(pre) + seq![
                hex_digit((b / 16) as nat),
                hex_digit((b % 16) as nat),
            ]);
        }
        i = i + 1;
    }
    proof {
        assert(bytes@.subrange(0, bytes@.len() as int) =~= bytes@);
    }
    s
}

/// An MD5 computation fed incrementally, e.g. from successive file chunks.
pub struct Md5Stream {
    ctx: md5::Context,
}

impl Md5Stream {
    /// Everything fed to the stream so far.
    pub closed spec fn consumed(&self) -> Seq<u8> {
        md5_consumed(self.ctx)
    }

    /// A stream that has consumed nothing.
    pub fn new() -> (s: Md5Stream)
        ensures
            s.consumed() == Seq::<u8>::empty(),
    {
        Md5Stream { ctx: md5_context_new() }
    }

    /// Feeds `data` after everything consumed so far.
    pub fn update(&mut self, data: &[u8])
        ensures
            final(self).consumed() == old(self).consumed() + data@,
    {
        md5_context_consume(&mut self.ctx, data);
    }

    /// The lower-case hex MD5 digest of everything consumed (32 characters).
    pub fn hex_digest(self) -> (h: String)
        ensures
            h@ == lower_hex(md5_digest(self.consumed())),
            h@.len() == 32,
    {
        let d = md5_context_compute(self.ctx);
        to_lower_hex(&d)
    }
}

/// ASCII lower-casing of one byte; every other byte is unchanged.
pub open spec fn ascii_lower_byte(b: u8) -> u8 {
    if 65 <= b && b <= 90 {
        (b + 32) as u8
    } else {
        b
    }
}

/// Two byte strings match when ASCII letter case is ignored.
pub open spec fn ascii_case_insensitive_eq(a: Seq<u8>, b: Seq<u8>) -> bool {
    a.len() == b.len() && forall|i: int| 0 <= i < a.len() ==> ascii_lower_byte(#[trigger] a[i])
        == ascii_lower_byte(b[i])
}

fn lower_byte(b: u8) -> (r: u8)
    ensures
        r == ascii_lower_byte(b),
{
    if 65 <= b && b <= 90 {
        b + 32
    } else {
        b
    }
}

/// `str::eq_ignore_ascii_case`: the two strings match once ASCII letters are lower-cased.
pub fn eq_ignore_ascii_case(a: &str, b: &str) -> (r: bool)
    ensures
        r == ascii_case_insensitive_eq(a.spec_bytes(), b.spec_bytes()),
{
    let x = a.as_bytes();
    let y = b.as_bytes();
    if x.len() != y.len() {
        return false;
    }
    let mut i: usize = 0;
    while i < x.len()
        invariant
            x@ == a.spec_bytes(),
            y@ == b.spec_bytes(),
            x@.len() == y@.len(),
            i <= x@.len(),
            forall|j: int| 0 <= j < i ==> ascii_lower_byte(#[trigger] x@[j]) == ascii_lower_byte(
                y@[j],
            ),
        decreases x@.len() - i,
    {
        if lower_byte(x[i]) != lower_byte(y[i]) {
            return false;
        }
        i = i + 1;
    }
    true
}

/// Whether a computed digest agrees with the digest recorded in a sidecar.
pub open spec fn md5_agrees(actual_hex: Seq<u8>, expected_hex: Seq<u8>) -> bool {
    expected_hex.len() == 0 || ascii_case_insensitive_eq(actual_hex, expected_hex)
}

/// Compares the hex digest of a local file with the one its sidecar
/// recorded. An empty recorded digest (sidecars written before digests were
/// kept) accepts any file; otherwise the comparison ignores letter case.
pub fn md5_matches(actual_hex: &str, expected_hex: &str) -> (r: bool)
    ensures
        r == md5_agrees(actual_hex.spec_bytes(), expected_hex.spec_bytes()),
{
    if expected_hex.is_empty() {
        proof {
            vstd::utf8::encode_utf8_decode_utf8(expected_hex@);
            assert(expected_hex.spec_bytes().len() == 0) by {
                assert(expected_hex@ =~= Seq::<char>::empty());
                reveal_with_fuel(vstd::utf8::encode_utf8, 1);
            }
        }
        return true;
    }
    proof {
        if expected_hex.spec_bytes().len() == 0 {
            vstd::utf8::encode_utf8_decode_utf8(expected_hex@);
            reveal_with_fuel(vstd::utf8::decode_utf8, 1);
        }
    }
    eq_ignore_ascii_case(actual_hex, expected_hex)
}

/// A digest always agrees with itself, whatever the letter case of the
/// recorded copy, and an empty recorded digest agrees with everything.
pub proof fn lemma_md5_agreement(actual: Seq<u8>, recorded: Seq<u8>, recased: Seq<u8>)
    requires
        recased.len() == recorded.len(),
        forall|i: int| 0 <= i < recorded.len() ==> ascii_lower_byte(#[trigger] recased[i])
            == ascii_lower_byte(recorded[i]),
    ensures
        md5_agrees(actual, actual),
        md5_agrees(actual, Seq::empty()),
        md5_agrees(actual, recorded) == md5_agrees(actual, recased),
{
}

} // verus!
