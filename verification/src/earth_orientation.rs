//! The integer side of JPL binary PCK (DAF/PCK) kernels for Earth orientation.
//!
//! * A DAF file starts with a 1024-byte file record (header), followed by
//!   summary records in a linked list starting at `FWARD`, then segment data.
//! * For a `DAF/PCK`, `ND=2` (start/stop ET per segment) and `NI=5`
//!   (body, frame, type, initial DAF addr, final DAF addr).
//! * The Earth high-precision kernels use body 3000 (ITRF93), frame 17
//!   (ECLIPJ2000), and segment type 2 (Chebyshev polynomials, fixed interval).
//! * Each Type 2 segment stores `N` equal-length records back-to-back, followed
//!   by a 4-double directory `[INIT, INTLEN, RSIZE, N]`. Each record is
//!   `[MID, RADIUS, a1_cheby[NCOEF], a2_cheby[NCOEF], a3_cheby[NCOEF]]` with
//!   `NCOEF = (RSIZE - 2) / 3`.
//!
//! This module reads the header, decodes summaries (keeping the
//! double-precision fields as their raw little-endian bit patterns), selects
//! the segments that can be evaluated, checks a Type 2 segment's layout and
//! locates a record inside it. Evaluating the Chebyshev series and building
//! the rotation is floating-point work done by the caller.

use vstd::prelude::*;
use vstd::string::*;
use crate::text::{debug_quoted, decimal, push_decimal, push_signed_decimal, quote_debug, signed_decimal};

verus! {

/// NAIF frame ID for ECLIPJ2000 (ecliptic of J2000).
pub const FRAME_ECLIPJ2000: i32 = 17;
/// NAIF body ID for ITRF93 high-precision Earth body frame.
pub const BODY_ITRF93: i32 = 3000;
/// Type 2 PCK segment: Chebyshev coefficients, fixed interval length.
pub const PCK_TYPE_CHEBYSHEV: i32 = 2;
/// DAF record size in bytes.
pub const DAF_RECORD_BYTES: usize = 1024;

/// Powers of 256.
pub open spec fn pow256(n: nat) -> nat
    decreases n,
{
    if n == 0 { 1 } else { 256 * pow256((n - 1) as nat) }
}

/// The unsigned little-endian value of `n` bytes of `b` starting at `at`.
pub open spec fn le_uint(b: Seq<u8>, at: int, n: nat) -> nat
    decreases n,
{
    if n == 0 {
        0
    } else {
        b[at] as nat + 256 * le_uint(b, at + 1, (n - 1) as nat)
    }
}

/// The two's-complement little-endian 32-bit value at `at`.
pub open spec fn le_i32(b: Seq<u8>, at: int) -> int {
    let u = le_uint(b, at, 4);
    if u >= 0x8000_0000 { u - 0x1_0000_0000 } else { u as int }
}

proof fn lemma_le_uint_bound(b: Seq<u8>, at: int, n: nat)
    ensures
        le_uint(b, at, n) < pow256(n),
    decreases n,
{
    if n > 0 {
        lemma_le_uint_bound(b, at + 1, (n - 1) as nat);
        let rest = le_uint(b, at + 1, (n - 1) as nat);
        let p = pow256((n - 1) as nat);
        assert(b[at] as nat + 256 * rest < 256 * p) by (nonlinear_arith)
            requires
                rest < p,
                (b[at] as nat) < 256,
        ;
    }
}

/// Little-endian unsigned value of `n` (at most eight) bytes at `at`.
fn read_le_uint(bytes: &[u8], at: usize, n: usize) -> (v: u64)
    requires
        n <= 8,
        at + n <= bytes@.len(),
    ensures
        v == le_uint(bytes@, at as int, n as nat),
{
    let len = bytes.len();
    let mut v: u64 = 0;
    let mut k: usize = n;
    while k > 0
        invariant
            len == bytes@.len(),
            n <= 8,
            at + n <= bytes@.len(),
            k <= n,
            v == le_uint(bytes@, at + k, (n - k) as nat),
        decreases k,
    {
        k = k - 1;
        proof {
            lemma_le_uint_bound(bytes@, at + k + 1, (n - k - 1) as nat);
            assert(pow256((n - k - 1) as nat) <= pow256(7)) by {
                lemma_pow256_monotone((n - k - 1) as nat, 7);
            }
            assert(pow256(7) == 0x100_0000_0000_0000) by {
                reveal_with_fuel(pow256, 8);
            }
        }
        assert(at + k < bytes@.len());
        let idx: usize = at + k;
        v = v * 256 + bytes[idx] as u64;
        proof {
            assert(le_uint(bytes@, at + k, (n - k) as nat) == bytes@[at + k] as nat + 256 * le_uint(
                bytes@,
                at + k + 1,
                (n - k - 1) as nat,
            ));
        }
    }
    v
}

proof fn lemma_pow256_monotone(a: nat, b: nat)
    requires
        a <= b,
    ensures
        pow256(a) <= pow256(b),
    decreases b,
{
    if a < b {
        lemma_pow256_monotone(a, (b - 1) as nat);
    }
}

/// `i32::from_le_bytes` of the four bytes at `at`.
pub fn read_i32_le(bytes: &[u8], at: usize) -> (v: i32)
    requires
        at + 4 <= bytes@.len(),
    ensures
        v == le_i32(bytes@, at as int),
{
    let u = read_le_uint(bytes, at, 4);
    proof {
        lemma_le_uint_bound(bytes@, at as int, 4);
        reveal_with_fuel(pow256, 5);
    }
    if u >= 0x8000_0000 {
        (u as i64 - 0x1_0000_0000i64) as i32
    } else {
        u as i32
    }
}

/// The raw bit pattern of the little-endian double at `at`.
pub fn read_u64_le(bytes: &[u8], at: usize) -> (v: u64)
    requires
        at + 8 <= bytes@.len(),
    ensures
        v == le_uint(bytes@, at as int, 8),
{
    read_le_uint(bytes, at, 8)
}

/// `std::str::from_utf8`.
///
/// Trusted: the bytes are accepted exactly when they are valid UTF-8, and
/// the accepted text has exactly these bytes.
#[verifier::external_body]
fn utf8_text(v: &[u8]) -> (r: Option<&str>)
    ensures
        r is Some <==> vstd::utf8::valid_utf8(v@),
        r matches Some(s) ==> s.spec_bytes() == v@,
{
    std::str::from_utf8(v).ok()
}

/// A copy of `b[from..to]`.
fn copy_range(b: &[u8], from: usize, to: usize) -> (r: Vec<u8>)
    requires
        from <= to <= b@.len(),
    ensures
        r@ == b@.subrange(from as int, to as int),
{
    let mut r: Vec<u8> = Vec::new();
    let mut i: usize = from;
    while i < to
        invariant
            from <= i <= to <= b@.len(),
            r@ == b@.subrange(from as int, i as int),
        decreases to - i,
    {
        r.push(b[i]);
        proof {
            assert(r@ =~= b@.subrange(from as int, i + 1));
        }
        i = i + 1;
    }
    r
}

/// `s` begins with the bytes of `prefix`.
pub open spec fn has_prefix(s: Seq<u8>, prefix: Seq<u8>) -> bool {
    prefix.len() <= s.len() && s.subrange(0, prefix.len() as int) == prefix
}

/// `str::starts_with` for a text prefix: a byte-wise prefix test.
fn starts_with(s: &str, prefix: &str) -> (r: bool)
    ensures
        r == has_prefix(s.spec_bytes(), prefix.spec_bytes()),
{
    let x = s.as_bytes();
    let p = prefix.as_bytes();
    if p.len() > x.len() {
        return false;
    }
    let mut i: usize = 0;
    while i < p.len()
        invariant
            x@ == s.spec_bytes(),
            p@ == prefix.spec_bytes(),
            p@.len() <= x@.len(),
            i <= p@.len(),
            forall|j: int| 0 <= j < i ==> x@[j] == p@[j],
        decreases p@.len() - i,
    {
        if x[i] != p[i] {
            proof {
                assert(x@.subrange(0, p@.len() as int)[i as int] != p@[i as int]);
            }
            return false;
        }
        i = i + 1;
    }
    proof {
        assert(x@.subrange(0, p@.len() as int) =~= p@);
    }
    true
}

/// The fields of a DAF/PCK file record that locate its summaries.
#[derive(Debug, Clone, Copy, PartialEq, Eq, Structural)]
pub struct DafHeader {
    /// Number of double-precision components per summary (2 for a PCK).
    pub nd: i32,
    /// Number of integer components per summary (5 for a PCK).
    pub ni: i32,
    /// Record number of the first summary record.
    pub fward: i32,
    /// Bytes per summary: `8 · (ND + (NI + 1) / 2)`.
    pub summary_bytes: usize,
}

/// The text of the error for a DAF identifier field.
pub open spec fn field_message(what: Seq<char>, text: Seq<char>) -> Seq<char> {
    what + debug_quoted(text)
}

/// The text of the error for unexpected summary dimensions.
pub open spec fn dims_message(nd: int, ni: int) -> Seq<char> {
    "unexpected DAF/PCK (ND,NI); got ("@ + signed_decimal(nd) + ","@ + signed_decimal(ni)
        + "), want (2,5)"@
}

/// What reading a file record gives: the identifier (bytes 0..8) must be
/// UTF-8 starting with `DAF/PCK`, the format (bytes 88..96) UTF-8 starting
/// with `LTL-IEEE`, and the summary dimensions (ND at 8, NI at 12) must be
/// (2, 5); FWARD is read at 76.
pub open spec fn is_header_result(h: Seq<u8>, r: Result<DafHeader, String>) -> bool {
    let locidw = h.subrange(0, 8);
    let locfmt = h.subrange(88, 96);
    let nd = le_i32(h, 8);
    let ni = le_i32(h, 12);
    if !vstd::utf8::valid_utf8(locidw) {
        r matches Err(m) && m@ == "LOCIDW is not ASCII"@
    } else if !has_prefix(locidw, vstd::utf8::encode_utf8("DAF/PCK"@)) {
        r matches Err(m) && m@ == field_message("expected 'DAF/PCK' identifier, got "@,
            vstd::utf8::decode_utf8(locidw))
    } else if !vstd::utf8::valid_utf8(locfmt) {
        r matches Err(m) && m@ == "LOCFMT is not ASCII"@
    } else if !has_prefix(locfmt, vstd::utf8::encode_utf8("LTL-IEEE"@)) {
        r matches Err(m) && m@ == field_message("only LTL-IEEE byte order supported, got "@,
            vstd::utf8::decode_utf8(locfmt))
    } else if nd != 2 || ni != 5 {
        r matches Err(m) && m@ == dims_message(nd, ni)
    } else {
        r == Ok::<DafHeader, String>(DafHeader { nd: 2, ni: 5, fward: le_i32(h, 76) as i32, summary_bytes: 40 })
    }
}

/// Reads and checks the file record of a DAF/PCK kernel.
pub fn parse_daf_header(header: &[u8]) -> (r: Result<DafHeader, String>)
    requires
        header@.len() >= 96,
    ensures
        is_header_result(header@, r),
{
    let locidw_bytes = copy_range(header, 0, 8);
    let locidw = match utf8_text(locidw_bytes.as_slice()) {
        Some(t) => t,
        None => {
            return Err(String::from_str("LOCIDW is not ASCII"));
        },
    };
    proof {
        vstd::utf8::decode_utf8_encode_utf8(locidw_bytes@);
        vstd::utf8::encode_utf8_decode_utf8(locidw@);
    }
    if !starts_with(locidw, "DAF/PCK") {
        let mut m = String::from_str("expected 'DAF/PCK' identifier, got ");
        let q = quote_debug(locidw);
        m.append(q.as_str());
        return Err(m);
    }
    let locfmt_bytes = copy_range(header, 88, 96);
    let locfmt = match utf8_text(locfmt_bytes.as_slice()) {
        Some(t) => t,
        None => {
            return Err(String::from_str("LOCFMT is not ASCII"));
        },
    };
    proof {
        vstd::utf8::decode_utf8_encode_utf8(locfmt_bytes@);
        vstd::utf8::encode_utf8_decode_utf8(locfmt@);
    }
    if !starts_with(locfmt, "LTL-IEEE") {
        let mut m = String::from_str("only LTL-IEEE byte order supported, got ");
        let q = quote_debug(locfmt);
        m.append(q.as_str());
        return Err(m);
    }
    let nd = read_i32_le(header, 8);
    let ni = read_i32_le(header, 12);
    let fward = read_i32_le(header, 76);
    if nd != 2 || ni != 5 {
        let mut m = String::from_str("unexpected DAF/PCK (ND,NI); got (");
        push_signed_decimal(&mut m, nd);
        m.append(",");
        push_signed_decimal(&mut m, ni);
        m.append("), want (2,5)");
        proof {
            assert(m@ =~= dims_message(nd as int, ni as int));
        }
        return Err(m);
    }
    // Summary size in 8-byte words: ND doubles plus NI integers packed two per word.
    let summary_words: usize = (nd as usize) + ((ni as usize) + 1) / 2;
    Ok(DafHeader { nd, ni, fward, summary_bytes: summary_words * 8 })
}

/// Byte offset of DAF record `record_number` (records are 1-indexed, 1024 bytes each).
pub fn daf_record_offset(record_number: u64) -> (r: u64)
    requires
        1 <= record_number,
        (record_number - 1) * 1024 <= u64::MAX,
    ensures
        r == (record_number - 1) * 1024,
{
    (record_number - 1) * (DAF_RECORD_BYTES as u64)
}

/// One segment summary of a DAF/PCK file, its doubles kept as raw bits.
#[derive(Debug, Clone, Copy, PartialEq, Eq, Structural)]
pub struct SegmentSummary {
    /// Bit pattern of the segment's start time (ET seconds past J2000 TDB).
    pub et_start_bits: u64,
    /// Bit pattern of the segment's stop time.
    pub et_stop_bits: u64,
    pub body: i32,
    pub frame: i32,
    pub dtype: i32,
    /// DAF 1-indexed double-word address of the first segment word.
    pub init_addr: i32,
    /// DAF 1-indexed double-word address of the last segment word.
    pub final_addr: i32,
}

/// The summary stored at byte `off` of a summary record.
pub open spec fn summary_at(rec: Seq<u8>, off: int) -> SegmentSummary {
    SegmentSummary {
        et_start_bits: le_uint(rec, off, 8) as u64,
        et_stop_bits: le_uint(rec, off + 8, 8) as u64,
        body: le_i32(rec, off + 16) as i32,
        frame: le_i32(rec, off + 20) as i32,
        dtype: le_i32(rec, off + 24) as i32,
        init_addr: le_i32(rec, off + 28) as i32,
        final_addr: le_i32(rec, off + 32) as i32,
    }
}

/// Decodes the `nsum` summaries of a summary record; summary `i` starts at
/// byte `24 + i · summary_bytes`, after the three control doubles.
pub fn parse_summaries(rec: &[u8], nsum: usize, summary_bytes: usize) -> (v: Vec<SegmentSummary>)
    requires
        summary_bytes >= 36,
        24 + nsum * summary_bytes <= rec@.len(),
    ensures
        v@.len() == nsum,
        forall|i: int| 0 <= i < nsum ==> #[trigger] v@[i] == summary_at(rec@, 24 + i * summary_bytes),
{
    let len = rec.len();
    let mut v: Vec<SegmentSummary> = Vec::new();
    let mut i: usize = 0;
    while i < nsum
        invariant
            len == rec@.len(),
            summary_bytes >= 36,
            24 + nsum * summary_bytes <= rec@.len(),
            i <= nsum,
            v@.len() == i,
            forall|k: int| 0 <= k < i ==> #[trigger] v@[k] == summary_at(rec@, 24 + k * summary_bytes),
        decreases nsum - i,
    {
        proof {
            assert((i + 1) * summary_bytes <= nsum * summary_bytes) by (nonlinear_arith)
                requires i < nsum;
            assert((i + 1) * summary_bytes == i * summary_bytes + summary_bytes) by (nonlinear_arith);
        }
        let off: usize = 24 + i * summary_bytes;
        let s = SegmentSummary {
            et_start_bits: read_u64_le(rec, off),
            et_stop_bits: read_u64_le(rec, off + 8),
            body: read_i32_le(rec, off + 16),
            frame: read_i32_le(rec, off + 20),
            dtype: read_i32_le(rec, off + 24),
            init_addr: read_i32_le(rec, off + 28),
            final_addr: read_i32_le(rec, off + 32),
        };
        v.push(s);
        i = i + 1;
    }
    v
}

/// The summaries of a summary record fit in it: three control doubles, then
/// `nsum` summaries of `summary_bytes` bytes each, within one record.
pub open spec fn summaries_fit(nsum: nat, summary_bytes: nat) -> bool {
    24 + nsum * summary_bytes <= DAF_RECORD_BYTES
}

/// The text of the error for a summary record that declares more summaries than fit.
pub open spec fn overfull_message(record: nat, nsum: nat) -> Seq<char> {
    "summary record "@ + decimal(record) + " declares "@ + decimal(nsum)
        + " summaries, more than fit in a record"@
}

/// The text of the error for a summary-record chain that comes back to a record.
pub open spec fn chain_loop_message(record: nat) -> Seq<char> {
    "summary records loop back to record "@ + decimal(record)
}

/// One step of the walk along the chain of summary records. `visited` holds
/// the record numbers read so far, the current `record` among them; `nsum`
/// and `next` are that record's summary count and forward pointer (read from
/// its control doubles). The step gives the number of summaries to decode and
/// the record to read next (none when `next` is not positive, the end of the
/// chain). A count that does not fit in the record, or a pointer back to a
/// record already read, is an error, so the walk neither reads out of the
/// record nor cycles.
pub fn summary_walk_step(
    visited: &[u64],
    record: u64,
    nsum: u64,
    summary_bytes: usize,
    next: i64,
) -> (r: Result<(usize, Option<u64>), String>)
    ensures
        !summaries_fit(nsum as nat, summary_bytes as nat) ==> (r matches Err(m) && m@
            == overfull_message(record as nat, nsum as nat)),
        summaries_fit(nsum as nat, summary_bytes as nat) && next > 0 && visited@.contains(
            next as u64,
        ) ==> (r matches Err(m) && m@ == chain_loop_message(next as nat)),
        summaries_fit(nsum as nat, summary_bytes as nat) && !(next > 0 && visited@.contains(
            next as u64,
        )) ==> r == Ok::<(usize, Option<u64>), String>(
            (nsum as usize, if next > 0 { Some(next as u64) } else { None }),
        ),
{
    let fits = match (summary_bytes as u64).checked_mul(nsum) {
        Some(p) => p <= 1000,
        None => false,
    };
    proof {
        assert(nsum * summary_bytes == summary_bytes * nsum) by (nonlinear_arith);
    }
    if !fits {
        let mut m = String::from_str("summary record ");
        push_decimal(&mut m, record);
        m.append(" declares ");
        push_decimal(&mut m, nsum);
        m.append(" summaries, more than fit in a record");
        proof {
            assert(m@ =~= overfull_message(record as nat, nsum as nat));
        }
        return Err(m);
    }
    if next <= 0 {
        return Ok((nsum as usize, None));
    }
    let n: u64 = next as u64;
    let mut i: usize = 0;
    while i < visited.len()
        invariant
            i <= visited@.len(),
            next > 0,
            n == next as u64,
            summaries_fit(nsum as nat, summary_bytes as nat),
            forall|j: int| 0 <= j < i ==> visited@[j] != n,
        decreases visited@.len() - i,
    {
        if visited[i] == n {
            let mut m = String::from_str("summary records loop back to record ");
            push_decimal(&mut m, n);
            proof {
                assert(visited@.contains(n));
                assert(m@ =~= chain_loop_message(next as nat));
            }
            return Err(m);
        }
        i = i + 1;
    }
    Ok((nsum as usize, Some(n)))
}

/// The segment holds Earth (ITRF93) orientation relative to ECLIPJ2000 as
/// Chebyshev polynomials, the only kind evaluated here; others are skipped.
pub open spec fn is_earth_chebyshev(s: SegmentSummary) -> bool {
    s.body == BODY_ITRF93 && s.frame == FRAME_ECLIPJ2000 && s.dtype == PCK_TYPE_CHEBYSHEV
}

/// Whether a segment is one this reader can evaluate.
pub fn usable_segment(s: &SegmentSummary) -> (r: bool)
    ensures
        r == is_earth_chebyshev(*s),
{
    s.body == BODY_ITRF93 && s.frame == FRAME_ECLIPJ2000 && s.dtype == PCK_TYPE_CHEBYSHEV
}

/// Byte offset of a Type 2 segment's directory `[INIT, INTLEN, RSIZE, N]`,
/// which occupies the segment's last four words (DAF addresses are
/// 1-based, in 8-byte words).
pub fn directory_byte_offset(final_addr: i32) -> (r: u64)
    requires
        final_addr >= 4,
    ensures
        r == (final_addr - 4) * 8,
{
    let dir_addr = (final_addr - 3) as u64;
    (dir_addr - 1) * 8
}

/// Where a Type 2 segment's records are and how they are cut.
#[derive(Debug, Clone, Copy, PartialEq, Eq, Structural)]
pub struct Type2Layout {
    /// Chebyshev coefficients per angle.
    pub ncoef: usize,
    /// Record length in doubles (`2 + 3 · ncoef`).
    pub rsize: usize,
    pub n_records: usize,
    /// Byte offset of the first record.
    pub records_byte: u64,
    /// Bytes of all records together.
    pub total_bytes: usize,
}

/// The segment length in words as the reader computes it (wrapping like `as usize`).
pub open spec fn segment_words(init_addr: i32, final_addr: i32) -> usize {
    (final_addr - init_addr + 1) as usize
}

/// The text of the error for a record size that does not split into three angles.
pub open spec fn rsize_message(source: Seq<char>, rsize: nat) -> Seq<char> {
    source + ": RSIZE - 2 = "@ + decimal((rsize - 2) as nat) + " is not divisible by 3"@
}

/// The text of the error for a segment whose length disagrees with its directory.
pub open spec fn size_mismatch_message(source: Seq<char>, words: nat, expected: nat) -> Seq<char> {
    source + ": segment size mismatch: "@ + decimal(words) + " words, expected "@ + decimal(
        expected,
    ) + ""@
}

/// Checks a Type 2 segment's directory against its extent: `RSIZE - 2` must
/// split into three equal coefficient blocks, and the segment must hold
/// exactly `N` records plus the four-word directory.
pub fn check_type2_layout(
    init_addr: i32,
    final_addr: i32,
    rsize: usize,
    n_records: usize,
    source: &str,
) -> (r: Result<Type2Layout, String>)
    requires
        rsize >= 3,
        n_records >= 1,
        i32::MIN <= final_addr - init_addr < i32::MAX,
        n_records * rsize + 4 <= usize::MAX,
        (rsize - 2) % 3 == 0 && segment_words(init_addr, final_addr) == n_records * rsize + 4
            ==> init_addr >= 1 && n_records * rsize * 8 <= usize::MAX,
    ensures
        (rsize - 2) % 3 != 0 ==> (r matches Err(m) && m@ == rsize_message(source@, rsize as nat)),
        ((rsize - 2) % 3 == 0 && segment_words(init_addr, final_addr) != n_records * rsize + 4)
            ==> (r matches Err(m) && m@ == size_mismatch_message(
            source@,
            segment_words(init_addr, final_addr) as nat,
            (n_records * rsize + 4) as nat,
        )),
        ((rsize - 2) % 3 == 0 && segment_words(init_addr, final_addr) == n_records * rsize + 4)
            ==> r == Ok::<Type2Layout, String>(
            Type2Layout {
                ncoef: ((rsize - 2) / 3) as usize,
                rsize,
                n_records,
                records_byte: ((init_addr - 1) * 8) as u64,
                total_bytes: (n_records * rsize * 8) as usize,
            },
        ),
{
    if (rsize - 2) % 3 != 0 {
        let mut m = String::from_str(source);
        m.append(": RSIZE - 2 = ");
        push_decimal(&mut m, (rsize - 2) as u64);
        m.append(" is not divisible by 3");
        proof {
            assert(m@ =~= rsize_message(source@, rsize as nat));
        }
        return Err(m);
    }
    let ncoef = (rsize - 2) / 3;
    // Records plus the 4-word directory must fill the segment exactly.
    let seg_words = #[verifier::truncate] ((final_addr - init_addr + 1) as usize);
    let expected = n_records * rsize + 4;
    if seg_words != expected {
        let mut m = String::from_str(source);
        m.append(": segment size mismatch: ");
        push_decimal(&mut m, seg_words as u64);
        m.append(" words, expected ");
        push_decimal(&mut m, expected as u64);
        proof {
            reveal_strlit("");
            assert(m@ =~= size_mismatch_message(source@, seg_words as nat, expected as nat));
        }
        return Err(m);
    }
    let records_byte = (init_addr - 1) as u64 * 8;
    let total_bytes = n_records * rsize * 8;
    Ok(Type2Layout { ncoef, rsize, n_records, records_byte, total_bytes })
}

/// The record holding a time: the raw interval index clamped to the
/// segment's records (an epoch equal to the segment's stop time falls into
/// the last record).
pub open spec fn clamped_index(raw: i64, n_records: usize) -> int {
    if raw < 0 {
        0
    } else if raw > n_records - 1 {
        n_records - 1
    } else {
        raw as int
    }
}

/// Positions, in doubles, of one record's fields inside the segment's records.
#[derive(Debug, Clone, Copy, PartialEq, Eq, Structural)]
pub struct RecordSpans {
    /// Position of the interval midpoint.
    pub mid: usize,
    /// Position of the interval half-length.
    pub radius: usize,
    /// Start of the first angle's coefficients.
    pub a1: usize,
    /// Start of the second angle's coefficients.
    pub a2: usize,
    /// Start of the third angle's coefficients.
    pub a3: usize,
    /// Coefficients per angle.
    pub ncoef: usize,
}

/// Locates the record for a raw interval index `floor((et - INIT) / INTLEN)`.
pub fn locate_record(raw: i64, layout: &Type2Layout) -> (r: RecordSpans)
    requires
        layout.n_records >= 1,
        layout.n_records <= i64::MAX,
        layout.rsize == 2 + 3 * layout.ncoef,
        layout.n_records * layout.rsize <= usize::MAX,
    ensures
        ({
            let base = clamped_index(raw, layout.n_records) * layout.rsize;
            &&& r.mid == base
            &&& r.radius == base + 1
            &&& r.a1 == base + 2
            &&& r.a2 == base + 2 + layout.ncoef
            &&& r.a3 == base + 2 + 2 * layout.ncoef
            &&& r.ncoef == layout.ncoef
            &&& r.a3 + layout.ncoef <= layout.n_records * layout.rsize
        }),
{
    let hi: i64 = layout.n_records as i64 - 1;
    let idx: usize = if raw < 0 {
        0
    } else if raw > hi {
        hi as usize
    } else {
        raw as usize
    };
    proof {
        assert((idx + 1) * layout.rsize <= layout.n_records * layout.rsize) by (nonlinear_arith)
            requires
                idx < layout.n_records,
        ;
        assert((idx + 1) * layout.rsize == idx * layout.rsize + layout.rsize) by (nonlinear_arith);
    }
    let base = idx * layout.rsize;
    RecordSpans {
        mid: base,
        radius: base + 1,
        a1: base + 2,
        a2: base + 2 + layout.ncoef,
        a3: base + 2 + 2 * layout.ncoef,
        ncoef: layout.ncoef,
    }
}

/// `r` picks the first segment, in load order, whose coverage includes the
/// epoch, or none when no segment covers it.
pub open spec fn is_first_covering(covers: Seq<bool>, r: Option<usize>) -> bool {
    match r {
        Some(i) => i < covers.len() && covers[i as int] && forall|j: int|
            0 <= j < i ==> !#[trigger] covers[j],
        None => forall|j: int| 0 <= j < covers.len() ==> !#[trigger] covers[j],
    }
}

/// The segment that serves an epoch, given for each loaded segment (in load
/// order) whether its coverage includes the epoch: the first one that does,
/// so where kernels overlap the earlier-listed kernel wins.
pub fn first_covering(covers: &[bool]) -> (r: Option<usize>)
    ensures
        is_first_covering(covers@, r),
{
    let mut i: usize = 0;
    while i < covers.len()
        invariant
            i <= covers@.len(),
            forall|j: int| 0 <= j < i ==> !#[trigger] covers@[j],
        decreases covers@.len() - i,
    {
        if covers[i] {
            return Some(i);
        }
        i = i + 1;
    }
    None
}

/// Which kernel serves an epoch. Segments are loaded kernel by kernel:
/// `kernel[j]` is the position, in the list of kernel files, of the file
/// that segment `j` came from. The segment chosen by `first_covering` belongs
/// to the earliest-listed kernel that covers the epoch, and an epoch goes
/// unserved only when no segment covers it.
///
/// With the list `AssistDataPaths::eop_kernels` gives (0 predict,
/// 1 historical, 2 current high precision), the current high-precision kernel
/// serves an epoch only when neither the predict nor the historical kernel
/// covers it: wherever they overlap, the earlier-listed kernel wins, so the
/// high-precision kernel does not take precedence in this order.
pub proof fn lemma_earliest_listed_kernel_serves(
    covers: Seq<bool>,
    kernel: Seq<nat>,
    r: Option<usize>,
)
    requires
        covers.len() == kernel.len(),
        forall|a: int, b: int| 0 <= a <= b < kernel.len() ==> #[trigger] kernel[a] <= #[trigger] kernel[b],
        is_first_covering(covers, r),
    ensures
        r matches Some(i) ==> forall|j: int| 0 <= j < covers.len() && #[trigger] covers[j] ==> kernel[i as int] <= kernel[j],
        r is None <==> forall|j: int| 0 <= j < covers.len() ==> !#[trigger] covers[j],
        (exists|j: int| 0 <= j < covers.len() && #[trigger] covers[j] && kernel[j] < 2) ==> (r matches Some(i)
            && kernel[i as int] < 2),
        (r matches Some(i) && kernel[i as int] == 2) ==> forall|j: int| 0 <= j < covers.len() && #[trigger] covers[j] ==> kernel[j] >= 2,
{
    if let Some(i) = r {
        assert forall|j: int| 0 <= j < covers.len() && #[trigger] covers[j] implies kernel[i as int] <= kernel[j] by {
            if j < i {
                assert(!covers[j]);
            }
        }
        assert(covers[i as int]);
    }
}

/// The record chosen for a raw interval index is always one of the
/// segment's records: the index itself when it is in range, the first
/// record below the range and the last record above it.
pub proof fn lemma_clamped_index(raw: i64, n_records: usize)
    requires
        n_records >= 1,
    ensures
        0 <= clamped_index(raw, n_records) < n_records,
        0 <= raw < n_records ==> clamped_index(raw, n_records) == raw,
        raw < 0 ==> clamped_index(raw, n_records) == 0,
        raw >= n_records ==> clamped_index(raw, n_records) == n_records - 1,
{
}

/// Only DAF/PCK files in little-endian IEEE format with two double and five
/// integer summary components are accepted; an accepted header reports those
/// dimensions, a summary size of `8 · (ND + (NI + 1) / 2)` bytes, and the
/// FWARD pointer stored at byte 76.
pub proof fn lemma_header_accepts_only_pck(h: Seq<u8>, r: Result<DafHeader, String>)
    requires
        is_header_result(h, r),
    ensures
        r matches Ok(d) ==> (d.nd == 2 && d.ni == 5 && d.summary_bytes == 8 * (d.nd + (d.ni + 1) / 2)
            && d.fward == le_i32(h, 76) as i32),
        r is Ok ==> le_i32(h, 8) == 2 && le_i32(h, 12) == 5,
        r is Ok ==> has_prefix(h.subrange(0, 8), vstd::utf8::encode_utf8("DAF/PCK"@)),
        r is Ok ==> has_prefix(h.subrange(88, 96), vstd::utf8::encode_utf8("LTL-IEEE"@)),
        (le_i32(h, 8) != 2 || le_i32(h, 12) != 5) ==> r is Err,
{
}

} // verus!
