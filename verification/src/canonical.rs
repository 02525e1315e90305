//! The canonical bytes of a certificate: one explicit, versioned encoding
//! with the fields in a fixed order, over which the certificate is signed.

use crate::evidence::{text_of, EvidenceView, Timestamp, WipeEvidence};
use vstd::bytes::{
    lemma_auto_spec_u32_to_from_le_bytes, lemma_auto_spec_u64_to_from_le_bytes,
    spec_u32_to_le_bytes, spec_u64_to_le_bytes, u32_to_le_bytes, u64_to_le_bytes,
};
use vstd::prelude::*;
use vstd::string::*;
use vstd::utf8::{decode_utf8, encode_utf8, encode_utf8_decode_utf8};

verus! {

/// The bytes with which every encoded certificate begins: the letters "WEV"
/// and the number of the encoding, 1.
pub open spec fn encoding_header() -> Seq<u8> {
    seq![0x57u8, 0x45u8, 0x56u8, 0x01u8]
}

/// A count as eight little-endian bytes.
pub open spec fn enc_count(count: nat) -> Seq<u8> {
    spec_u64_to_le_bytes(count as u64)
}

/// A text: the number of its UTF-8 bytes, then the bytes.
pub open spec fn enc_text(text: Seq<char>) -> Seq<u8> {
    enc_count(encode_utf8(text).len()) + encode_utf8(text)
}

/// An optional text: the byte 0 where there is none, else the byte 1 and the
/// text.
pub open spec fn enc_opt_text(text: Option<Seq<char>>) -> Seq<u8> {
    match text {
        None => seq![0u8],
        Some(t) => seq![1u8] + enc_text(t),
    }
}

/// A time: the seconds, raised by 2^63 so that they are not negative, as
/// eight little-endian bytes, then the nanoseconds as four.
pub open spec fn enc_time(time: Timestamp) -> Seq<u8> {
    spec_u64_to_le_bytes((time.secs as int + 0x8000_0000_0000_0000) as u64) + spec_u32_to_le_bytes(
        time.nanos,
    )
}

/// An optional time: the byte 0 where there is none, else the byte 1 and the
/// time.
pub open spec fn enc_opt_time(time: Option<Timestamp>) -> Seq<u8> {
    match time {
        None => seq![0u8],
        Some(t) => seq![1u8] + enc_time(t),
    }
}

/// The texts of a list one after the other.
pub open spec fn enc_lines(lines: Seq<Seq<char>>) -> Seq<u8>
    decreases lines.len(),
{
    if lines.len() == 0 {
        Seq::empty()
    } else {
        enc_lines(lines.drop_last()) + enc_text(lines.last())
    }
}

/// The canonical bytes of a certificate, over which it is signed: the header,
/// then every field in the order of its declaration, the log as the number of
/// its lines followed by the lines.
pub open spec fn canonical_encoding(ev: EvidenceView) -> Seq<u8> {
    encoding_header() + (enc_text(ev.version) + (enc_text(ev.certificate_id) + (enc_text(
        ev.device_id,
    ) + (enc_text(ev.device_path) + (enc_text(ev.method) + (enc_text(ev.nist_level) + (enc_time(
        ev.timestamp_start,
    ) + (enc_opt_time(ev.timestamp_end) + (enc_opt_text(ev.pre_hash) + (enc_opt_text(ev.post_hash)
        + (enc_count(ev.logs.len()) + enc_lines(ev.logs))))))))))))
}

fn put_text(out: &mut Vec<u8>, text: &str)
    ensures
        final(out)@ == old(out)@ + enc_text(text@),
        text_fits(text@),
{
    let bytes = text.as_bytes();
    let count = u64_to_le_bytes(bytes.len() as u64);
    out.extend_from_slice(count.as_slice());
    out.extend_from_slice(bytes);
    assert(out@ =~= old(out)@ + enc_text(text@));
}

fn put_opt_text(out: &mut Vec<u8>, text: &Option<String>)
    ensures
        final(out)@ == old(out)@ + enc_opt_text(text_of(*text)),
        opt_text_fits(text_of(*text)),
{
    match text {
        None => {
            out.push(0u8);
            assert(out@ =~= old(out)@ + seq![0u8]);
        },
        Some(t) => {
            out.push(1u8);
            put_text(out, t.as_str());
            assert(out@ =~= old(out)@ + (seq![1u8] + enc_text(t@)));
        },
    }
}

fn put_time(out: &mut Vec<u8>, time: Timestamp)
    ensures
        final(out)@ == old(out)@ + enc_time(time),
{
    let raised: u64 = if time.secs >= 0 {
        time.secs as u64 + 0x8000_0000_0000_0000u64
    } else {
        (time.secs - i64::MIN) as u64
    };
    let secs = u64_to_le_bytes(raised);
    let nanos = u32_to_le_bytes(time.nanos);
    out.extend_from_slice(secs.as_slice());
    out.extend_from_slice(nanos.as_slice());
    assert(out@ =~= old(out)@ + enc_time(time));
}

fn put_opt_time(out: &mut Vec<u8>, time: Option<Timestamp>)
    ensures
        final(out)@ == old(out)@ + enc_opt_time(time),
{
    match time {
        None => {
            out.push(0u8);
            assert(out@ =~= old(out)@ + seq![0u8]);
        },
        Some(t) => {
            out.push(1u8);
            put_time(out, t);
            assert(out@ =~= old(out)@ + (seq![1u8] + enc_time(t)));
        },
    }
}

proof fn lemma_concat_assoc(x: Seq<u8>, y: Seq<u8>, z: Seq<u8>)
    ensures
        (x + y) + z == x + (y + z),
{
    assert((x + y) + z =~= x + (y + z));
}

impl WipeEvidence {
    /// The canonical bytes of the certificate. They depend on the content of
    /// the certificate alone, so two certificates with the same content give
    /// the same bytes, and every length in it can be written as a count, so
    /// two certificates with the same bytes have the same content. The
    /// certificate is not changed.
    pub fn canonical_bytes(&self) -> (bytes: Vec<u8>)
        ensures
            bytes@ == canonical_encoding(self@),
            encodable(self@),
    {
        let mut out: Vec<u8> = Vec::new();
        out.push(0x57u8);
        out.push(0x45u8);
        out.push(0x56u8);
        out.push(0x01u8);
        assert(out@ =~= encoding_header());
        let ghost g0 = out@;
        put_text(&mut out, self.version.as_str());
        let ghost g1 = out@;
        put_text(&mut out, self.certificate_id.as_str());
        let ghost g2 = out@;
        put_text(&mut out, self.device_id.as_str());
        let ghost g3 = out@;
        put_text(&mut out, self.device_path.as_str());
        let ghost g4 = out@;
        put_text(&mut out, self.method.as_str());
        let ghost g5 = out@;
        put_text(&mut out, self.nist_level.as_str());
        let ghost g6 = out@;
        put_time(&mut out, self.timestamp_start);
        let ghost g7 = out@;
        put_opt_time(&mut out, self.timestamp_end);
        let ghost g8 = out@;
        put_opt_text(&mut out, &self.pre_hash);
        let ghost g9 = out@;
        put_opt_text(&mut out, &self.post_hash);
        let ghost g10 = out@;
        let count = u64_to_le_bytes(self.logs.len() as u64);
        out.extend_from_slice(count.as_slice());
        let ghost head = out@;
        let mut i: usize = 0;
        while i < self.logs.len()
            invariant
                i <= self.logs@.len(),
                out@ == head + enc_lines(self@.logs.subrange(0, i as int)),
                forall|j: int| 0 <= j < i ==> text_fits(#[trigger] self@.logs[j]),
            decreases self.logs@.len() - i,
        {
            put_text(&mut out, self.logs[i].as_str());
            proof {
                let done = self@.logs.subrange(0, i + 1);
                assert(done.drop_last() =~= self@.logs.subrange(0, i as int));
                assert(done.last() == self.logs@[i as int]@);
                lemma_concat_assoc(
                    head,
                    enc_lines(self@.logs.subrange(0, i as int)),
                    enc_text(done.last()),
                );
            }
            i = i + 1;
        }
        proof {
            let ev = self@;
            assert(ev.logs.subrange(0, self.logs@.len() as int) =~= ev.logs);
            let t11 = enc_count(ev.logs.len()) + enc_lines(ev.logs);
            let t10 = enc_opt_text(ev.post_hash) + t11;
            let t9 = enc_opt_text(ev.pre_hash) + t10;
            let t8 = enc_opt_time(ev.timestamp_end) + t9;
            let t7 = enc_time(ev.timestamp_start) + t8;
            let t6 = enc_text(ev.nist_level) + t7;
            let t5 = enc_text(ev.method) + t6;
            let t4 = enc_text(ev.device_path) + t5;
            let t3 = enc_text(ev.device_id) + t4;
            let t2 = enc_text(ev.certificate_id) + t3;
            let t1 = enc_text(ev.version) + t2;
            assert(head == g10 + enc_count(ev.logs.len()));
            lemma_concat_assoc(g10, enc_count(ev.logs.len()), enc_lines(ev.logs));
            assert(out@ == g10 + t11);
            lemma_concat_assoc(g9, enc_opt_text(ev.post_hash), t11);
            assert(out@ == g9 + t10);
            lemma_concat_assoc(g8, enc_opt_text(ev.pre_hash), t10);
            assert(out@ == g8 + t9);
            lemma_concat_assoc(g7, enc_opt_time(ev.timestamp_end), t9);
            assert(out@ == g7 + t8);
            lemma_concat_assoc(g6, enc_time(ev.timestamp_start), t8);
            assert(out@ == g6 + t7);
            lemma_concat_assoc(g5, enc_text(ev.nist_level), t7);
            assert(out@ == g5 + t6);
            lemma_concat_assoc(g4, enc_text(ev.method), t6);
            assert(out@ == g4 + t5);
            lemma_concat_assoc(g3, enc_text(ev.device_path), t5);
            assert(out@ == g3 + t4);
            lemma_concat_assoc(g2, enc_text(ev.device_id), t4);
            assert(out@ == g2 + t3);
            lemma_concat_assoc(g1, enc_text(ev.certificate_id), t3);
            assert(out@ == g1 + t2);
            lemma_concat_assoc(g0, enc_text(ev.version), t2);
            assert(out@ == g0 + t1);
        }
        out
    }
}

/// The length of the text in bytes can be written as a count.
pub open spec fn text_fits(text: Seq<char>) -> bool {
    encode_utf8(text).len() <= u64::MAX
}

/// The length of the text, where there is one, can be written as a count.
pub open spec fn opt_text_fits(text: Option<Seq<char>>) -> bool {
    text matches Some(t) ==> text_fits(t)
}

/// Every length in the certificate can be written as a count. This holds of
/// every certificate that a program holds in memory.
pub open spec fn encodable(ev: EvidenceView) -> bool {
    &&& text_fits(ev.version)
    &&& text_fits(ev.certificate_id)
    &&& text_fits(ev.device_id)
    &&& text_fits(ev.device_path)
    &&& text_fits(ev.method)
    &&& text_fits(ev.nist_level)
    &&& opt_text_fits(ev.pre_hash)
    &&& opt_text_fits(ev.post_hash)
    &&& ev.logs.len() <= u64::MAX
    &&& forall|i: int| 0 <= i < ev.logs.len() ==> text_fits(#[trigger] ev.logs[i])
}

proof fn lemma_bytes_prefix(x: Seq<u8>, rest_x: Seq<u8>, y: Seq<u8>, rest_y: Seq<u8>)
    requires
        x.len() == y.len(),
        x + rest_x == y + rest_y,
    ensures
        x == y,
        rest_x == rest_y,
{
    let n = x.len() as int;
    assert(x =~= (x + rest_x).subrange(0, n));
    assert(y =~= (y + rest_y).subrange(0, n));
    assert(rest_x =~= (x + rest_x).subrange(n, (x + rest_x).len() as int));
    assert(rest_y =~= (y + rest_y).subrange(n, (y + rest_y).len() as int));
}

proof fn lemma_count_prefix(a: nat, rest_a: Seq<u8>, b: nat, rest_b: Seq<u8>)
    requires
        a <= u64::MAX,
        b <= u64::MAX,
        enc_count(a) + rest_a == enc_count(b) + rest_b,
    ensures
        a == b,
        rest_a == rest_b,
{
    lemma_auto_spec_u64_to_from_le_bytes();
    lemma_bytes_prefix(enc_count(a), rest_a, enc_count(b), rest_b);
    assert(vstd::bytes::spec_u64_from_le_bytes(spec_u64_to_le_bytes(a as u64)) == a as u64);
    assert(vstd::bytes::spec_u64_from_le_bytes(spec_u64_to_le_bytes(b as u64)) == b as u64);
}

proof fn lemma_text_prefix(a: Seq<char>, rest_a: Seq<u8>, b: Seq<char>, rest_b: Seq<u8>)
    requires
        text_fits(a),
        text_fits(b),
        enc_text(a) + rest_a == enc_text(b) + rest_b,
    ensures
        a == b,
        rest_a == rest_b,
{
    let bytes_a = encode_utf8(a);
    let bytes_b = encode_utf8(b);
    lemma_concat_assoc(enc_count(bytes_a.len()), bytes_a, rest_a);
    lemma_concat_assoc(enc_count(bytes_b.len()), bytes_b, rest_b);
    lemma_count_prefix(bytes_a.len(), bytes_a + rest_a, bytes_b.len(), bytes_b + rest_b);
    lemma_bytes_prefix(bytes_a, rest_a, bytes_b, rest_b);
    encode_utf8_decode_utf8(a);
    encode_utf8_decode_utf8(b);
    assert(decode_utf8(bytes_a) == a);
    assert(decode_utf8(bytes_b) == b);
}

proof fn lemma_time_prefix(a: Timestamp, rest_a: Seq<u8>, b: Timestamp, rest_b: Seq<u8>)
    requires
        enc_time(a) + rest_a == enc_time(b) + rest_b,
    ensures
        a == b,
        rest_a == rest_b,
{
    lemma_auto_spec_u64_to_from_le_bytes();
    lemma_auto_spec_u32_to_from_le_bytes();
    let secs_a = (a.secs as int + 0x8000_0000_0000_0000) as u64;
    let secs_b = (b.secs as int + 0x8000_0000_0000_0000) as u64;
    lemma_bytes_prefix(enc_time(a), rest_a, enc_time(b), rest_b);
    lemma_bytes_prefix(
        spec_u64_to_le_bytes(secs_a),
        spec_u32_to_le_bytes(a.nanos),
        spec_u64_to_le_bytes(secs_b),
        spec_u32_to_le_bytes(b.nanos),
    );
    assert(vstd::bytes::spec_u64_from_le_bytes(spec_u64_to_le_bytes(secs_a)) == secs_a);
    assert(vstd::bytes::spec_u64_from_le_bytes(spec_u64_to_le_bytes(secs_b)) == secs_b);
    assert(vstd::bytes::spec_u32_from_le_bytes(spec_u32_to_le_bytes(a.nanos)) == a.nanos);
    assert(vstd::bytes::spec_u32_from_le_bytes(spec_u32_to_le_bytes(b.nanos)) == b.nanos);
}

proof fn lemma_opt_time_prefix(
    a: Option<Timestamp>,
    rest_a: Seq<u8>,
    b: Option<Timestamp>,
    rest_b: Seq<u8>,
)
    requires
        enc_opt_time(a) + rest_a == enc_opt_time(b) + rest_b,
    ensures
        a == b,
        rest_a == rest_b,
{
    assert((enc_opt_time(a) + rest_a)[0] == enc_opt_time(a)[0]);
    assert((enc_opt_time(b) + rest_b)[0] == enc_opt_time(b)[0]);
    match (a, b) {
        (Some(ta), Some(tb)) => {
            lemma_concat_assoc(seq![1u8], enc_time(ta), rest_a);
            lemma_concat_assoc(seq![1u8], enc_time(tb), rest_b);
            lemma_bytes_prefix(seq![1u8], enc_time(ta) + rest_a, seq![1u8], enc_time(tb) + rest_b);
            lemma_time_prefix(ta, rest_a, tb, rest_b);
        },
        (None, None) => {
            lemma_bytes_prefix(seq![0u8], rest_a, seq![0u8], rest_b);
        },
        _ => {},
    }
}

proof fn lemma_opt_text_prefix(
    a: Option<Seq<char>>,
    rest_a: Seq<u8>,
    b: Option<Seq<char>>,
    rest_b: Seq<u8>,
)
    requires
        opt_text_fits(a),
        opt_text_fits(b),
        enc_opt_text(a) + rest_a == enc_opt_text(b) + rest_b,
    ensures
        a == b,
        rest_a == rest_b,
{
    assert((enc_opt_text(a) + rest_a)[0] == enc_opt_text(a)[0]);
    assert((enc_opt_text(b) + rest_b)[0] == enc_opt_text(b)[0]);
    match (a, b) {
        (Some(ta), Some(tb)) => {
            lemma_concat_assoc(seq![1u8], enc_text(ta), rest_a);
            lemma_concat_assoc(seq![1u8], enc_text(tb), rest_b);
            lemma_bytes_prefix(seq![1u8], enc_text(ta) + rest_a, seq![1u8], enc_text(tb) + rest_b);
            lemma_text_prefix(ta, rest_a, tb, rest_b);
        },
        (None, None) => {
            lemma_bytes_prefix(seq![0u8], rest_a, seq![0u8], rest_b);
        },
        _ => {},
    }
}

proof fn lemma_lines_front(lines: Seq<Seq<char>>)
    requires
        lines.len() > 0,
    ensures
        enc_lines(lines) == enc_text(lines[0]) + enc_lines(lines.drop_first()),
    decreases lines.len(),
{
    if lines.len() == 1 {
        assert(lines.drop_last() =~= Seq::<Seq<char>>::empty());
        assert(lines.drop_first() =~= Seq::<Seq<char>>::empty());
        assert(enc_lines(lines) =~= enc_text(lines[0]) + enc_lines(lines.drop_first()));
    } else {
        let front = lines.drop_last();
        let back = lines.drop_first();
        lemma_lines_front(front);
        assert(front.drop_first() =~= back.drop_last());
        assert(back.last() == lines.last());
        assert(front[0] == lines[0]);
        lemma_concat_assoc(enc_text(lines[0]), enc_lines(back.drop_last()), enc_text(lines.last()));
    }
}

proof fn lemma_lines_prefix(
    a: Seq<Seq<char>>,
    rest_a: Seq<u8>,
    b: Seq<Seq<char>>,
    rest_b: Seq<u8>,
)
    requires
        a.len() == b.len(),
        forall|i: int| 0 <= i < a.len() ==> text_fits(#[trigger] a[i]),
        forall|i: int| 0 <= i < b.len() ==> text_fits(#[trigger] b[i]),
        enc_lines(a) + rest_a == enc_lines(b) + rest_b,
    ensures
        a == b,
        rest_a == rest_b,
    decreases a.len(),
{
    if a.len() == 0 {
        assert(a =~= b);
        assert(enc_lines(a) + rest_a =~= rest_a);
        assert(enc_lines(b) + rest_b =~= rest_b);
    } else {
        lemma_lines_front(a);
        lemma_lines_front(b);
        let more_a = a.drop_first();
        let more_b = b.drop_first();
        lemma_concat_assoc(enc_text(a[0]), enc_lines(more_a), rest_a);
        lemma_concat_assoc(enc_text(b[0]), enc_lines(more_b), rest_b);
        assert(text_fits(a[0]) && text_fits(b[0]));
        lemma_text_prefix(a[0], enc_lines(more_a) + rest_a, b[0], enc_lines(more_b) + rest_b);
        assert forall|i: int| 0 <= i < more_a.len() implies text_fits(#[trigger] more_a[i]) by {
            assert(more_a[i] == a[i + 1]);
        }
        assert forall|i: int| 0 <= i < more_b.len() implies text_fits(#[trigger] more_b[i]) by {
            assert(more_b[i] == b[i + 1]);
        }
        lemma_lines_prefix(more_a, rest_a, more_b, rest_b);
        assert(a =~= seq![a[0]] + more_a);
        assert(b =~= seq![b[0]] + more_b);
    }
}

/// The canonical bytes tell certificates apart: two certificates with the
/// same bytes have the same content. So no change to a certificate, be it of
/// one character, leaves the bytes that its signature was made over.
pub proof fn lemma_canonical_encoding_injective(a: EvidenceView, b: EvidenceView)
    requires
        encodable(a),
        encodable(b),
        canonical_encoding(a) == canonical_encoding(b),
    ensures
        a == b,
{
    let a11 = enc_count(a.logs.len()) + enc_lines(a.logs);
    let a10 = enc_opt_text(a.post_hash) + a11;
    let a9 = enc_opt_text(a.pre_hash) + a10;
    let a8 = enc_opt_time(a.timestamp_end) + a9;
    let a7 = enc_time(a.timestamp_start) + a8;
    let a6 = enc_text(a.nist_level) + a7;
    let a5 = enc_text(a.method) + a6;
    let a4 = enc_text(a.device_path) + a5;
    let a3 = enc_text(a.device_id) + a4;
    let a2 = enc_text(a.certificate_id) + a3;
    let a1 = enc_text(a.version) + a2;
    let b11 = enc_count(b.logs.len()) + enc_lines(b.logs);
    let b10 = enc_opt_text(b.post_hash) + b11;
    let b9 = enc_opt_text(b.pre_hash) + b10;
    let b8 = enc_opt_time(b.timestamp_end) + b9;
    let b7 = enc_time(b.timestamp_start) + b8;
    let b6 = enc_text(b.nist_level) + b7;
    let b5 = enc_text(b.method) + b6;
    let b4 = enc_text(b.device_path) + b5;
    let b3 = enc_text(b.device_id) + b4;
    let b2 = enc_text(b.certificate_id) + b3;
    let b1 = enc_text(b.version) + b2;
    assert(canonical_encoding(a) == encoding_header() + a1);
    assert(canonical_encoding(b) == encoding_header() + b1);
    lemma_bytes_prefix(encoding_header(), a1, encoding_header(), b1);
    lemma_text_prefix(a.version, a2, b.version, b2);
    lemma_text_prefix(a.certificate_id, a3, b.certificate_id, b3);
    lemma_text_prefix(a.device_id, a4, b.device_id, b4);
    lemma_text_prefix(a.device_path, a5, b.device_path, b5);
    lemma_text_prefix(a.method, a6, b.method, b6);
    lemma_text_prefix(a.nist_level, a7, b.nist_level, b7);
    lemma_time_prefix(a.timestamp_start, a8, b.timestamp_start, b8);
    lemma_opt_time_prefix(a.timestamp_end, a9, b.timestamp_end, b9);
    lemma_opt_text_prefix(a.pre_hash, a10, b.pre_hash, b10);
    lemma_opt_text_prefix(a.post_hash, a11, b.post_hash, b11);
    lemma_count_prefix(a.logs.len(), enc_lines(a.logs), b.logs.len(), enc_lines(b.logs));
    let none = Seq::<u8>::empty();
    assert(enc_lines(a.logs) + none =~= enc_lines(a.logs));
    assert(enc_lines(b.logs) + none =~= enc_lines(b.logs));
    lemma_lines_prefix(a.logs, none, b.logs, none);
}

} // verus!
