//! Decoder that splits a chunked byte stream into newline-delimited records.
//!
//! The `/events`, `/stats`, pull/build-progress and plain log endpoints emit
//! one textual record per line. The transport delivers the body as chunks
//! whose boundaries carry no meaning, so a record may arrive spread over
//! several chunks and one chunk may hold several records. [`Lines`] buffers
//! the chunks and yields each maximal run of bytes before a `\n` (0x0A), in
//! order; when the stream definitively ends, a final unterminated record is
//! flushed only if any bytes remain.
//!
//! Records are bytes first; [`record_to_string`] turns one into text,
//! reporting invalid UTF-8 as [`DecodeError::InvalidEncoding`]. Because the
//! delimiter is a single ASCII byte, and no byte of a multi-byte UTF-8
//! sequence equals an ASCII byte, splitting never falls inside a code point:
//! a record that fails to decode was malformed on the wire.

use vstd::prelude::*;

use crate::chunks::{concat_chunks, lemma_concat_take_succ};
use crate::errors::DecodeError;
use vstd::utf8::{
    encode_scalar, encode_utf8, decode_utf8, has_width_1_encoding, has_width_2_encoding,
    has_width_3_encoding, last_continuation_byte, leading_byte_width_1, leading_byte_width_2,
    leading_byte_width_3, leading_byte_width_4, second_last_continuation_byte,
    third_last_continuation_byte, valid_utf8,
};

verus! {

/// The newline byte that terminates a record.
pub const DELIMITER: u8 = 10;

/// The index of the first newline byte in `b`, or a negative value when `b`
/// holds none.
pub open spec fn find_nl(b: Seq<u8>) -> int
    decreases b.len(),
{
    if b.len() == 0 {
        -1
    } else if b[0] == DELIMITER {
        0
    } else if find_nl(b.skip(1)) < 0 {
        -1
    } else {
        1 + find_nl(b.skip(1))
    }
}

/// What [`find_nl`] finds is the first newline: it is a newline, nothing
/// before it is one, and a negative answer means there is none at all.
pub proof fn lemma_find_nl(b: Seq<u8>)
    ensures
        find_nl(b) >= 0 ==> find_nl(b) < b.len() && b[find_nl(b)] == DELIMITER,
        find_nl(b) >= 0 ==> forall|j: int| 0 <= j < find_nl(b) ==> b[j] != DELIMITER,
        find_nl(b) < 0 ==> forall|j: int| 0 <= j < b.len() ==> b[j] != DELIMITER,
    decreases b.len(),
{
    if b.len() > 0 && b[0] != DELIMITER {
        lemma_find_nl(b.skip(1));
        assert(forall|j: int| 1 <= j < b.len() ==> b[j] == b.skip(1)[j - 1]);
    }
}

/// Any position that is a newline with none before it is the one
/// [`find_nl`] finds.
pub proof fn lemma_find_nl_unique(b: Seq<u8>, k: int)
    requires
        0 <= k < b.len(),
        b[k] == DELIMITER,
        forall|j: int| 0 <= j < k ==> b[j] != DELIMITER,
    ensures
        find_nl(b) == k,
{
    lemma_find_nl(b);
}

/// The records of `b` that a newline already terminates, in order, the
/// delimiters dropped.
pub open spec fn complete_lines(b: Seq<u8>) -> Seq<Seq<u8>>
    decreases b.len(),
    via complete_lines_decreases
{
    if find_nl(b) < 0 {
        Seq::empty()
    } else {
        seq![b.take(find_nl(b))] + complete_lines(b.skip(find_nl(b) + 1))
    }
}

#[via_fn]
proof fn complete_lines_decreases(b: Seq<u8>) {
    lemma_find_nl(b);
}

/// The bytes of `b` after its last newline: the still unterminated record.
pub open spec fn line_rest(b: Seq<u8>) -> Seq<u8>
    decreases b.len(),
    via line_rest_decreases
{
    if find_nl(b) < 0 {
        b
    } else {
        line_rest(b.skip(find_nl(b) + 1))
    }
}

#[via_fn]
proof fn line_rest_decreases(b: Seq<u8>) {
    lemma_find_nl(b);
}

/// Every record of `b`: the newline-terminated ones, then the final
/// unterminated one if any bytes follow the last newline (flush-on-EOF).
pub open spec fn all_records(b: Seq<u8>) -> Seq<Seq<u8>> {
    if line_rest(b).len() > 0 {
        complete_lines(b) + seq![line_rest(b)]
    } else {
        complete_lines(b)
    }
}

/// Stream composition for records: appending bytes `c` behind `b` keeps
/// every record `b` already completed, and the rest split as if the
/// unterminated tail of `b` had arrived together with `c`. Chunk boundaries
/// therefore make no difference to the records.
pub proof fn lemma_lines_extend(b: Seq<u8>, c: Seq<u8>)
    ensures
        complete_lines(b + c) == complete_lines(b) + complete_lines(line_rest(b) + c),
        line_rest(b + c) == line_rest(line_rest(b) + c),
    decreases b.len(),
{
    lemma_find_nl(b);
    let i = find_nl(b);
    if i >= 0 {
        assert(forall|j: int| 0 <= j < i ==> (b + c)[j] == b[j]);
        assert((b + c)[i] == b[i]);
        lemma_find_nl_unique(b + c, i);
        assert((b + c).take(i) =~= b.take(i));
        assert((b + c).skip(i + 1) =~= b.skip(i + 1) + c);
        lemma_lines_extend(b.skip(i + 1), c);
        assert(seq![b.take(i)] + (complete_lines(b.skip(i + 1)) + complete_lines(
            line_rest(b.skip(i + 1)) + c,
        )) =~= (seq![b.take(i)] + complete_lines(b.skip(i + 1))) + complete_lines(
            line_rest(b.skip(i + 1)) + c,
        ));
    } else {
        assert(complete_lines(b) == Seq::<Seq<u8>>::empty());
        assert(line_rest(b) == b);
        assert(Seq::<Seq<u8>>::empty() + complete_lines(b + c) =~= complete_lines(b + c));
    }
}

/// Bytes without a newline hold no newline to find.
pub proof fn lemma_no_nl(s: Seq<u8>)
    requires
        forall|j: int| 0 <= j < s.len() ==> s[j] != DELIMITER,
    ensures
        find_nl(s) < 0,
        complete_lines(s) == Seq::<Seq<u8>>::empty(),
        line_rest(s) == s,
{
    lemma_find_nl(s);
}

/// Line splitting: for texts holding no newline, `s1 \n s2 \n` splits into
/// exactly the records `s1` and `s2`, nothing pending; and `s1 \n s2`
/// (no trailing delimiter) completes only `s1`, with `s2` pending until the
/// stream ends and the flush yields it.
pub proof fn lemma_line_splitting(s1: Seq<u8>, s2: Seq<u8>)
    requires
        forall|j: int| 0 <= j < s1.len() ==> s1[j] != DELIMITER,
        forall|j: int| 0 <= j < s2.len() ==> s2[j] != DELIMITER,
    ensures
        all_records(s1 + seq![DELIMITER] + s2 + seq![DELIMITER]) == seq![s1, s2],
        complete_lines(s1 + seq![DELIMITER] + s2) == seq![s1],
        line_rest(s1 + seq![DELIMITER] + s2) == s2,
{
    let both = s1 + seq![DELIMITER] + s2 + seq![DELIMITER];
    let open_tail = s1 + seq![DELIMITER] + s2;
    let n1 = s1.len() as int;
    let n2 = s2.len() as int;

    assert(both[n1] == DELIMITER);
    assert(forall|j: int| 0 <= j < n1 ==> both[j] == s1[j]);
    lemma_find_nl_unique(both, n1);
    assert(both.take(n1) =~= s1);
    assert(both.skip(n1 + 1) =~= s2 + seq![DELIMITER]);

    let tail = s2 + seq![DELIMITER];
    assert(tail[n2] == DELIMITER);
    assert(forall|j: int| 0 <= j < n2 ==> tail[j] == s2[j]);
    lemma_find_nl_unique(tail, n2);
    assert(tail.take(n2) =~= s2);
    assert(tail.skip(n2 + 1) =~= Seq::<u8>::empty());

    lemma_no_nl(Seq::<u8>::empty());
    assert(complete_lines(tail) == seq![s2] + Seq::<Seq<u8>>::empty());
    assert(complete_lines(both) == seq![s1] + (seq![s2] + Seq::<Seq<u8>>::empty()));
    assert(seq![s1] + (seq![s2] + Seq::<Seq<u8>>::empty()) =~= seq![s1, s2]);
    assert(line_rest(both) == line_rest(tail));
    assert(line_rest(tail) == line_rest(Seq::<u8>::empty()));
    lemma_no_nl(Seq::<u8>::empty());
    assert(line_rest(both).len() == 0);

    assert(open_tail[n1] == DELIMITER);
    assert(forall|j: int| 0 <= j < n1 ==> open_tail[j] == s1[j]);
    lemma_find_nl_unique(open_tail, n1);
    assert(open_tail.take(n1) =~= s1);
    assert(open_tail.skip(n1 + 1) =~= s2);
    lemma_no_nl(s2);
    assert(complete_lines(open_tail) == seq![s1] + Seq::<Seq<u8>>::empty());
    assert(seq![s1] + Seq::<Seq<u8>>::empty() =~= seq![s1]);
    assert(line_rest(open_tail) == line_rest(s2));
}

/// No character other than the newline encodes to the newline byte: a
/// one-byte encoding equals its scalar, and every byte of a longer encoding
/// has its high bit set.
proof fn lemma_encode_scalar_no_nl(c: char)
    requires
        c != '\n',
    ensures
        forall|k: int|
            0 <= k < encode_scalar(c as u32).len() ==> #[trigger] encode_scalar(c as u32)[k]
                != DELIMITER,
{
    broadcast use vstd::utf8::char_is_scalar;

    let v = c as u32;
    vstd::utf8::char_u32_cast(c, v);
    assert(v != 10) by {
        if v == 10 {
            assert((10u32 as char) == c);
            assert(('\n' as u32) == 10);
            vstd::utf8::char_u32_cast('\n', 10);
        }
    }
    if has_width_1_encoding(v) {
        let b0 = leading_byte_width_1(v);
        assert(b0 != 10) by (bit_vector)
            requires
                b0 == (v & 0x7F) as u8,
                v <= 0x7F,
                v != 10,
        ;
        assert(encode_scalar(v) == seq![b0]);
    } else if has_width_2_encoding(v) {
        let b0 = leading_byte_width_2(v);
        let b1 = last_continuation_byte(v);
        assert(b0 != 10 && b1 != 10) by (bit_vector)
            requires
                b0 == 0xC0u8 | (((v >> 6u32) & 0x1F) as u8),
                b1 == 0x80u8 | ((v & 0x3F) as u8),
        ;
        assert(encode_scalar(v) == seq![b0, b1]);
    } else if has_width_3_encoding(v) {
        let b0 = leading_byte_width_3(v);
        let b1 = second_last_continuation_byte(v);
        let b2 = last_continuation_byte(v);
        assert(b0 != 10 && b1 != 10 && b2 != 10) by (bit_vector)
            requires
                b0 == 0xE0u8 | (((v >> 12u32) & 0x0F) as u8),
                b1 == 0x80u8 | (((v >> 6u32) & 0x3F) as u8),
                b2 == 0x80u8 | ((v & 0x3F) as u8),
        ;
        assert(encode_scalar(v) == seq![b0, b1, b2]);
    } else {
        let b0 = leading_byte_width_4(v);
        let b1 = third_last_continuation_byte(v);
        let b2 = second_last_continuation_byte(v);
        let b3 = last_continuation_byte(v);
        assert(b0 != 10 && b1 != 10 && b2 != 10 && b3 != 10) by (bit_vector)
            requires
                b0 == 0xF0u8 | (((v >> 18u32) & 0x7) as u8),
                b1 == 0x80u8 | (((v >> 12u32) & 0x3F) as u8),
                b2 == 0x80u8 | (((v >> 6u32) & 0x3F) as u8),
                b3 == 0x80u8 | ((v & 0x3F) as u8),
        ;
        assert(encode_scalar(v) == seq![b0, b1, b2, b3]);
    }
}

/// A text without a newline character encodes to bytes without a newline
/// byte: the delimiter never falls inside a character's encoding.
pub proof fn lemma_encode_text_no_nl(s: Seq<char>)
    requires
        forall|j: int| 0 <= j < s.len() ==> s[j] != '\n',
    ensures
        forall|k: int|
            0 <= k < encode_utf8(s).len() ==> #[trigger] encode_utf8(s)[k]
                != DELIMITER,
    decreases s.len(),
{
    if s.len() > 0 {
        let head = encode_scalar(s[0] as u32);
        let tail = encode_utf8(s.drop_first());
        lemma_encode_scalar_no_nl(s[0]);
        assert(forall|j: int| 0 <= j < s.drop_first().len() ==> s.drop_first()[j] == s[j + 1]);
        lemma_encode_text_no_nl(s.drop_first());
        assert(encode_utf8(s) == head + tail);
        assert(forall|k: int|
            0 <= k < (head + tail).len() ==> #[trigger] (head + tail)[k] != DELIMITER);
    }
}

/// Line splitting for texts: for texts holding no newline character, the
/// encoding of `s1 \n s2 \n` splits into exactly two records, and they
/// decode back to the texts `s1` and `s2`.
pub proof fn lemma_text_line_splitting(s1: Seq<char>, s2: Seq<char>)
    requires
        forall|j: int| 0 <= j < s1.len() ==> s1[j] != '\n',
        forall|j: int| 0 <= j < s2.len() ==> s2[j] != '\n',
    ensures
        ({
            let stream = encode_utf8(s1) + seq![DELIMITER] + encode_utf8(
                s2,
            ) + seq![DELIMITER];
            &&& records_all_valid(all_records(stream))
            &&& decoded_records(all_records(stream)) == seq![s1, s2]
        }),
{
    broadcast use vstd::utf8::encode_utf8_valid_utf8, vstd::utf8::encode_utf8_decode_utf8;

    let e1 = encode_utf8(s1);
    let e2 = encode_utf8(s2);
    lemma_encode_text_no_nl(s1);
    lemma_encode_text_no_nl(s2);
    lemma_line_splitting(e1, e2);
    let stream = e1 + seq![DELIMITER] + e2 + seq![DELIMITER];
    assert(all_records(stream) == seq![e1, e2]);
    assert(records_all_valid(seq![e1, e2])) by {
        assert(seq![e1, e2][0] == e1 && seq![e1, e2][1] == e2);
    }
    assert(decoded_records(seq![e1, e2]) =~= seq![s1, s2]);
}

/// Incremental decoder for newline-delimited records.
///
/// Chunks go in through [`Lines::push_chunk`]; each record whose newline has
/// arrived comes out of [`Lines::next_line`], in order. When the upstream
/// definitively ends, [`Lines::flush`] yields the final unterminated record,
/// if any bytes remain. Its mathematical value is its buffered bytes.
pub struct Lines {
    buf: Vec<u8>,
}

impl View for Lines {
    type V = Seq<u8>;

    closed spec fn view(&self) -> Seq<u8> {
        self.buf@
    }
}

impl Lines {
    /// A fresh decoder with an empty buffer.
    pub fn new() -> (d: Lines)
        ensures
            d@ == Seq::<u8>::empty(),
    {
        Lines { buf: Vec::new() }
    }

    /// Appends a chunk at the buffer's tail, in arrival order.
    pub fn push_chunk(&mut self, chunk: &[u8])
        ensures
            final(self)@ == old(self)@ + chunk@,
    {
        let n = chunk.len();
        let mut i: usize = 0;
        while i < n
            invariant
                n == chunk@.len(),
                i <= n,
                self@ == old(self)@ + chunk@.take(i as int),
            decreases n - i,
        {
            self.buf.push(chunk[i]);
            i = i + 1;
            proof {
                assert(chunk@.take(i as int) == chunk@.take(i as int - 1).push(chunk@[i - 1]));
            }
        }
        proof {
            assert(chunk@.take(n as int) == chunk@);
        }
    }

    /// Takes the first newline-terminated record off the buffer, dropping
    /// its delimiter; `None` while no newline has arrived yet.
    pub fn next_line(&mut self) -> (r: Option<Vec<u8>>)
        ensures
            find_nl(old(self)@) >= 0 ==> {
                &&& r matches Some(l) && l@ == old(self)@.take(find_nl(old(self)@))
                &&& final(self)@ == old(self)@.skip(find_nl(old(self)@) + 1)
            },
            find_nl(old(self)@) < 0 ==> r is None && final(self)@ == old(self)@,
    {
        let n = self.buf.len();
        let mut k: usize = 0;
        while k < n && self.buf[k] != DELIMITER
            invariant
                n == self@.len(),
                k <= n,
                self@ == old(self)@,
                forall|j: int| 0 <= j < k ==> self@[j] != DELIMITER,
            decreases n - k,
        {
            k = k + 1;
        }
        proof {
            lemma_find_nl(self@);
            if k < n {
                lemma_find_nl_unique(self@, k as int);
            }
        }
        if k == n {
            return None;
        }
        let mut line: Vec<u8> = Vec::new();
        let mut j: usize = 0;
        while j < k
            invariant
                k < n,
                n == self@.len(),
                j <= k,
                self@ == old(self)@,
                line@ == self@.take(j as int),
            decreases k - j,
        {
            line.push(self.buf[j]);
            j = j + 1;
            proof {
                assert(self@.take(j as int) == self@.take(j as int - 1).push(self@[j - 1]));
            }
        }
        let mut rest: Vec<u8> = Vec::new();
        let mut j: usize = k + 1;
        while j < n
            invariant
                k < n,
                n == self@.len(),
                k + 1 <= j <= n,
                self@ == old(self)@,
                rest@ == self@.subrange(k as int + 1, j as int),
            decreases n - j,
        {
            rest.push(self.buf[j]);
            j = j + 1;
            proof {
                assert(self@.subrange(k as int + 1, j as int) == self@.subrange(
                    k as int + 1,
                    j as int - 1,
                ).push(self@[j - 1]));
            }
        }
        self.buf = rest;
        proof {
            assert(self@ =~= old(self)@.skip(k as int + 1));
        }
        Some(line)
    }

    /// How many bytes are buffered but not yet part of a yielded record.
    pub fn buffered_len(&self) -> (r: usize)
        ensures
            r == self@.len(),
    {
        self.buf.len()
    }

    /// Yields the final unterminated record once the upstream has
    /// definitively ended; `None` when no bytes remain, so an input ending
    /// in a newline flushes nothing.
    pub fn flush(&mut self) -> (r: Option<Vec<u8>>)
        ensures
            old(self)@.len() > 0 ==> {
                &&& r matches Some(l) && l@ == old(self)@
                &&& final(self)@ == Seq::<u8>::empty()
            },
            old(self)@.len() == 0 ==> r is None && final(self)@ == old(self)@,
    {
        if self.buf.len() > 0 {
            let mut taken: Vec<u8> = Vec::new();
            std::mem::swap(&mut taken, &mut self.buf);
            Some(taken)
        } else {
            None
        }
    }
}

/// Relies on `String::from_utf8`: it returns `Ok` exactly when the bytes
/// are valid UTF-8, and then the string holds their decoding; vstd's
/// `valid_utf8` and `decode_utf8` state the same scheme.
#[verifier::external_body]
fn bytes_to_string(bytes: &Vec<u8>) -> (r: Option<String>)
    ensures
        r is Some <==> valid_utf8(bytes@),
        r matches Some(s) ==> s@ == decode_utf8(bytes@),
{
    String::from_utf8(bytes.clone()).ok()
}

/// Turns one record into text: `Ok` exactly on valid UTF-8, the error
/// naming the encoding otherwise.
pub fn record_to_string(bytes: &Vec<u8>) -> (r: Result<String, DecodeError>)
    ensures
        r is Ok <==> valid_utf8(bytes@),
        r matches Ok(s) ==> s@ == decode_utf8(bytes@),
        r matches Err(e) ==> e == DecodeError::InvalidEncoding,
{
    match bytes_to_string(bytes) {
        Some(s) => Ok(s),
        None => Err(DecodeError::InvalidEncoding),
    }
}

/// Splits a complete chunk sequence into its records: every
/// newline-terminated run of bytes, then the flushed unterminated tail if
/// one remains. This is the one-shot form of the decoder, for a chunk
/// stream already gathered; a caller holding a live stream drives [`Lines`]
/// itself the same way.
pub fn decode_records(chunks: &Vec<Vec<u8>>) -> (r: Vec<Vec<u8>>)
    ensures
        r.deep_view() == all_records(concat_chunks(chunks.deep_view())),
{
    let ghost all = chunks.deep_view();
    let mut dec = Lines::new();
    let mut out: Vec<Vec<u8>> = Vec::new();
    let n = chunks.len();
    let mut i: usize = 0;
    proof {
        assert(all.take(0) =~= Seq::<Seq<u8>>::empty());
        assert(out.deep_view() =~= Seq::<Seq<u8>>::empty());
        lemma_no_nl(Seq::<u8>::empty());
    }
    while i < n
        invariant
            i <= n,
            n == chunks@.len(),
            all == chunks.deep_view(),
            out.deep_view() == complete_lines(concat_chunks(all.take(i as int))),
            dec@ == line_rest(concat_chunks(all.take(i as int))),
        decreases n - i,
    {
        let ghost done = concat_chunks(all.take(i as int));
        dec.push_chunk(chunks[i].as_slice());
        proof {
            assert(all[i as int] == chunks@[i as int]@);
            lemma_concat_take_succ(all, i as int);
            lemma_lines_extend(done, all[i as int]);
        }
        let ghost target = concat_chunks(all.take(i as int + 1));
        loop
            invariant
                out.deep_view() + complete_lines(dec@) == complete_lines(target),
                line_rest(dec@) == line_rest(target),
            ensures
                out.deep_view() == complete_lines(target),
                dec@ == line_rest(target),
            decreases dec@.len(),
        {
            let ghost b_p = dec@;
            proof {
                lemma_find_nl(b_p);
            }
            match dec.next_line() {
                Some(l) => {
                    let ghost prior = out.deep_view();
                    proof {
                        assert(complete_lines(b_p) == seq![l@] + complete_lines(dec@));
                        assert(prior.push(l@) + complete_lines(dec@) =~= prior + (seq![l@]
                            + complete_lines(dec@)));
                    }
                    out.push(l);
                    proof {
                        assert(out.deep_view() =~~= prior.push(out@[out@.len() - 1]@));
                    }
                },
                None => {
                    proof {
                        assert(complete_lines(b_p) == Seq::<Seq<u8>>::empty());
                        assert(out.deep_view() + Seq::<Seq<u8>>::empty() =~= out.deep_view());
                        assert(line_rest(b_p) == b_p);
                    }
                    break ;
                },
            }
        }
        i = i + 1;
    }
    proof {
        assert(all.take(n as int) =~= all);
    }
    let ghost total = concat_chunks(all);
    match dec.flush() {
        Some(l) => {
            let ghost prior = out.deep_view();
            proof {
                assert(prior.push(l@) =~= prior + seq![l@]);
            }
            out.push(l);
            proof {
                assert(out.deep_view() =~~= prior.push(out@[out@.len() - 1]@));
            }
        },
        None => {
        },
    }
    out
}

/// The records decoded as text, in order.
pub open spec fn decoded_records(recs: Seq<Seq<u8>>) -> Seq<Seq<char>> {
    recs.map_values(|rec: Seq<u8>| decode_utf8(rec))
}

/// Whether every record is valid UTF-8.
pub open spec fn records_all_valid(recs: Seq<Seq<u8>>) -> bool {
    forall|i: int| 0 <= i < recs.len() ==> valid_utf8(#[trigger] recs[i])
}

/// Splits a complete chunk sequence into textual records: exactly the
/// records of the concatenated bytes, each decoded as UTF-8, or the
/// encoding error exactly when some record is not valid UTF-8.
pub fn decode_text(chunks: &Vec<Vec<u8>>) -> (r: Result<Vec<String>, DecodeError>)
    ensures
        r is Ok <==> records_all_valid(all_records(concat_chunks(chunks.deep_view()))),
        r matches Ok(texts) ==> texts.deep_view() == decoded_records(
            all_records(concat_chunks(chunks.deep_view())),
        ),
        r matches Err(e) ==> e == DecodeError::InvalidEncoding,
{
    let ghost recs = all_records(concat_chunks(chunks.deep_view()));
    let records = decode_records(chunks);
    let mut out: Vec<String> = Vec::new();
    let n = records.len();
    let mut i: usize = 0;
    while i < n
        invariant
            i <= n,
            n == records@.len(),
            recs == all_records(concat_chunks(chunks.deep_view())),
            records.deep_view() == recs,
            out@.len() == i,
            forall|j: int| 0 <= j < i ==> valid_utf8(#[trigger] recs[j]),
            forall|j: int| 0 <= j < i ==> out.deep_view()[j] == decode_utf8(recs[j]),
        decreases n - i,
    {
        proof {
            assert(records@[i as int]@ =~= records@[i as int].deep_view());
            assert(records.deep_view()[i as int] == records@[i as int].deep_view());
        }
        match record_to_string(&records[i]) {
            Ok(s) => {
                let ghost prior = out.deep_view();
                out.push(s);
                proof {
                    assert(out.deep_view() =~= prior.push(out@[out@.len() - 1]@));
                }
            },
            Err(e) => {
                proof {
                    assert(recs.len() == records@.len());
                    assert(!valid_utf8(recs[i as int]));
                    assert(!records_all_valid(recs)) by {
                        if records_all_valid(recs) {
                            assert(valid_utf8(recs[i as int]));
                            assert(false);
                        }
                    }
                }
                return Err(e);
            },
        }
        i = i + 1;
    }
    proof {
        assert(recs.len() == records@.len());
        assert(records_all_valid(recs));
        assert(out.deep_view() =~= decoded_records(recs));
    }
    Ok(out)
}

} // verus!
