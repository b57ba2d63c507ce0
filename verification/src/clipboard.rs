use vstd::prelude::*;
use base64::Engine;
use crate::text::{char_is_whitespace, chars_of, is_whitespace, push_all, push_char};

verus! {

/// The character of the standard base64 alphabet for a six-bit value:
/// `A`-`Z`, `a`-`z`, `0`-`9`, `+`, `/`.
pub open spec fn base64_digit(v: u8) -> char {
    if v < 26 {
        (65 + v) as char
    } else if v < 52 {
        (97 + (v - 26)) as char
    } else if v < 62 {
        (48 + (v - 52)) as char
    } else if v == 62 {
        '+'
    } else {
        '/'
    }
}

/// The text that base64 (standard alphabet, no padding) encodes the bytes as:
/// each group of three bytes gives four characters of six bits each; a last
/// group of two bytes gives three characters and one of one byte gives two,
/// the missing low bits being zero.
pub open spec fn base64_text(d: Seq<u8>) -> Seq<char>
    decreases d.len(),
{
    if d.len() == 0 {
        Seq::empty()
    } else if d.len() == 1 {
        seq![base64_digit(d[0] >> 2u8), base64_digit((d[0] & 3u8) << 4u8)]
    } else if d.len() == 2 {
        seq![
            base64_digit(d[0] >> 2u8),
            base64_digit(((d[0] & 3u8) << 4u8) | (d[1] >> 4u8)),
            base64_digit((d[1] & 15u8) << 2u8),
        ]
    } else {
        seq![
            base64_digit(d[0] >> 2u8),
            base64_digit(((d[0] & 3u8) << 4u8) | (d[1] >> 4u8)),
            base64_digit(((d[1] & 15u8) << 2u8) | (d[2] >> 6u8)),
            base64_digit(d[2] & 63u8),
        ] + base64_text(d.skip(3))
    }
}

/// Every six-bit value has a character of the alphabet.
proof fn lemma_digit_in_alphabet(v: u8)
    requires
        v < 64,
    ensures
        is_base64_char(base64_digit(v)),
{
}

/// Base64 text is made of the standard alphabet.
pub proof fn lemma_base64_alphabet(d: Seq<u8>)
    ensures
        forall|i: int| 0 <= i < base64_text(d).len() ==> is_base64_char(#[trigger] base64_text(d)[i]),
    decreases d.len(),
{
    if d.len() > 0 {
        let a = d[0];
        let b = if d.len() > 1 { d[1] } else { 0u8 };
        let c = if d.len() > 2 { d[2] } else { 0u8 };
        assert(a >> 2u8 < 64u8 && ((a & 3u8) << 4u8) < 64u8 && (((a & 3u8) << 4u8) | (b >> 4u8)) < 64u8 && ((b
            & 15u8) << 2u8) < 64u8 && (((b & 15u8) << 2u8) | (c >> 6u8)) < 64u8 && (c & 63u8) < 64u8)
            by (bit_vector);
        lemma_digit_in_alphabet(a >> 2u8);
        lemma_digit_in_alphabet((a & 3u8) << 4u8);
        lemma_digit_in_alphabet(((a & 3u8) << 4u8) | (b >> 4u8));
        lemma_digit_in_alphabet((b & 15u8) << 2u8);
        lemma_digit_in_alphabet(((b & 15u8) << 2u8) | (c >> 6u8));
        lemma_digit_in_alphabet(c & 63u8);
        if d.len() > 2 {
            lemma_base64_alphabet(d.skip(3));
            let head = seq![
                base64_digit(a >> 2u8),
                base64_digit(((a & 3u8) << 4u8) | (b >> 4u8)),
                base64_digit(((b & 15u8) << 2u8) | (c >> 6u8)),
                base64_digit(c & 63u8),
            ];
            let rest = base64_text(d.skip(3));
            assert(base64_text(d) == head + rest);
            assert forall|i: int| 0 <= i < base64_text(d).len() implies is_base64_char(#[trigger] base64_text(d)[i]) by {
                if i >= 4 {
                    assert(base64_text(d)[i] == rest[i - 4]);
                }
            }
        }
    }
}

/// The bytes that a text decodes to in base64 (standard alphabet, no padding,
/// unused low bits zero): the bytes whose encoding the text is, or nothing
/// when it is no such encoding (see `lemma_base64_injective`: there is at
/// most one).
pub open spec fn base64_bytes(text: Seq<char>) -> Option<Seq<u8>> {
    if exists|d: Seq<u8>| base64_text(d) == text {
        Some(choose|d: Seq<u8>| base64_text(d) == text)
    } else {
        None
    }
}

proof fn lemma_digit_injective(v: u8, w: u8)
    requires
        v < 64,
        w < 64,
        base64_digit(v) == base64_digit(w),
    ensures
        v == w,
{
    let cv = base64_digit(v) as int;
    let cw = base64_digit(w) as int;
    assert(cv == if v < 26 {
        65 + v
    } else if v < 52 {
        97 + (v - 26)
    } else if v < 62 {
        48 + (v - 52)
    } else if v == 62 {
        43
    } else {
        47
    });
    assert(cw == if w < 26 {
        65 + w
    } else if w < 52 {
        97 + (w - 26)
    } else if w < 62 {
        48 + (w - 52)
    } else if w == 62 {
        43
    } else {
        47
    });
}

/// The encodings of different byte strings differ.
pub proof fn lemma_base64_injective(d1: Seq<u8>, d2: Seq<u8>)
    requires
        base64_text(d1) == base64_text(d2),
    ensures
        d1 == d2,
    decreases d1.len(),
{
    let t = base64_text(d1);
    if d1.len() >= 3 && d2.len() >= 3 {
        let (a, b, c) = (d1[0], d1[1], d1[2]);
        let (x, y, z) = (d2[0], d2[1], d2[2]);
        lemma_base64_len(d1.skip(3));
        lemma_base64_len(d2.skip(3));
        assert(t[0] == base64_digit(a >> 2u8) && t[0] == base64_digit(x >> 2u8));
        assert(a >> 2u8 < 64u8 && x >> 2u8 < 64u8 && (((a & 3u8) << 4u8) | (b >> 4u8)) < 64u8 && (((x & 3u8) << 4u8)
            | (y >> 4u8)) < 64u8 && (((b & 15u8) << 2u8) | (c >> 6u8)) < 64u8 && (((y & 15u8) << 2u8) | (z >> 6u8))
            < 64u8 && c & 63u8 < 64u8 && z & 63u8 < 64u8) by (bit_vector);
        lemma_digit_injective(a >> 2u8, x >> 2u8);
        assert(t[1] == base64_digit(((a & 3u8) << 4u8) | (b >> 4u8)));
        assert(t[1] == base64_digit(((x & 3u8) << 4u8) | (y >> 4u8)));
        lemma_digit_injective(((a & 3u8) << 4u8) | (b >> 4u8), ((x & 3u8) << 4u8) | (y >> 4u8));
        assert(t[2] == base64_digit(((b & 15u8) << 2u8) | (c >> 6u8)));
        assert(t[2] == base64_digit(((y & 15u8) << 2u8) | (z >> 6u8)));
        lemma_digit_injective(((b & 15u8) << 2u8) | (c >> 6u8), ((y & 15u8) << 2u8) | (z >> 6u8));
        assert(t[3] == base64_digit(c & 63u8) && t[3] == base64_digit(z & 63u8));
        lemma_digit_injective(c & 63u8, z & 63u8);
        assert(a == x && b == y && c == z) by (bit_vector)
            requires
                a >> 2u8 == x >> 2u8,
                ((a & 3u8) << 4u8) | (b >> 4u8) == ((x & 3u8) << 4u8) | (y >> 4u8),
                ((b & 15u8) << 2u8) | (c >> 6u8) == ((y & 15u8) << 2u8) | (z >> 6u8),
                c & 63u8 == z & 63u8,
        ;
        assert(base64_text(d1.skip(3)) =~= t.skip(4));
        assert(base64_text(d2.skip(3)) =~= t.skip(4));
        lemma_base64_injective(d1.skip(3), d2.skip(3));
        assert(d1 =~= d2) by {
            assert forall|i: int| 0 <= i < d1.len() implies d1[i] == d2[i] by {
                if i >= 3 {
                    assert(d1[i] == d1.skip(3)[i - 3]);
                    assert(d2[i] == d2.skip(3)[i - 3]);
                }
            }
        }
    } else if d1.len() >= 3 || d2.len() >= 3 {
        lemma_base64_len(d1);
        lemma_base64_len(d2);
    } else {
        lemma_base64_len(d1);
        lemma_base64_len(d2);
        if d1.len() == 1 {
            let (a, x) = (d1[0], d2[0]);
            assert(a >> 2u8 < 64u8 && x >> 2u8 < 64u8 && (a & 3u8) << 4u8 < 64u8 && (x & 3u8) << 4u8 < 64u8)
                by (bit_vector);
            lemma_digit_injective(a >> 2u8, x >> 2u8);
            lemma_digit_injective((a & 3u8) << 4u8, (x & 3u8) << 4u8);
            assert(a == x) by (bit_vector)
                requires
                    a >> 2u8 == x >> 2u8,
                    (a & 3u8) << 4u8 == (x & 3u8) << 4u8,
            ;
            assert(d1 =~= d2);
        } else if d1.len() == 2 {
            let (a, b, x, y) = (d1[0], d1[1], d2[0], d2[1]);
            assert(a >> 2u8 < 64u8 && x >> 2u8 < 64u8 && (((a & 3u8) << 4u8) | (b >> 4u8)) < 64u8 && (((x & 3u8)
                << 4u8) | (y >> 4u8)) < 64u8 && (b & 15u8) << 2u8 < 64u8 && (y & 15u8) << 2u8 < 64u8) by (bit_vector);
            lemma_digit_injective(a >> 2u8, x >> 2u8);
            lemma_digit_injective(((a & 3u8) << 4u8) | (b >> 4u8), ((x & 3u8) << 4u8) | (y >> 4u8));
            lemma_digit_injective((b & 15u8) << 2u8, (y & 15u8) << 2u8);
            assert(a == x && b == y) by (bit_vector)
                requires
                    a >> 2u8 == x >> 2u8,
                    ((a & 3u8) << 4u8) | (b >> 4u8) == ((x & 3u8) << 4u8) | (y >> 4u8),
                    (b & 15u8) << 2u8 == (y & 15u8) << 2u8,
            ;
            assert(d1 =~= d2);
        } else {
            assert(d1 =~= d2);
        }
    }
}

/// The length of an encoding: four characters for each whole group of three
/// bytes, then two or three for a last group of one or two bytes.
pub proof fn lemma_base64_len(d: Seq<u8>)
    ensures
        base64_text(d).len() == 4 * (d.len() / 3) + (if d.len() % 3 == 0 {
            0
        } else {
            d.len() % 3 + 1
        }),
    decreases d.len(),
{
    if d.len() >= 3 {
        lemma_base64_len(d.skip(3));
    }
}

/// Decoding an encoding gives back the bytes.
pub proof fn lemma_base64_round_trip(d: Seq<u8>)
    ensures
        base64_bytes(base64_text(d)) == Some(d),
{
    let t = base64_text(d);
    assert(exists|e: Seq<u8>| base64_text(e) == t);
    let e = choose|e: Seq<u8>| base64_text(e) == t;
    lemma_base64_injective(e, d);
}

/// The characters of the standard base64 alphabet.
pub open spec fn is_base64_char(c: char) -> bool {
    ('A' <= c <= 'Z') || ('a' <= c <= 'z') || ('0' <= c <= '9') || c == '+' || c == '/'
}

/// Encodes bytes with base64's `STANDARD_NO_PAD` engine (`Engine::encode`):
/// the text is `base64_text` of the bytes.
#[verifier::external_body]
fn encode_base64(data: &[u8]) -> (r: String)
    requires
        data@.len() <= usize::MAX / 2,
    ensures
        r@ == base64_text(data@),
{
    base64::prelude::BASE64_STANDARD_NO_PAD.encode(data)
}

/// Decodes a text with base64's `STANDARD_NO_PAD` engine (`Engine::decode`):
/// `base64_bytes` of the text. The engine refuses padding and nonzero unused
/// bits, so it accepts exactly the texts its encoder writes; where it reports
/// an error the result is nothing.
#[verifier::external_body]
fn decode_base64(text: &str) -> (r: Option<Vec<u8>>)
    ensures
        match r {
            Some(v) => base64_bytes(text@) == Some(v@),
            None => base64_bytes(text@) is None,
        },
{
    match base64::prelude::BASE64_STANDARD_NO_PAD.decode(text) {
        Ok(v) => Some(v),
        Err(_) => None,
    }
}

/// The complete raw deflate stream (no zlib header) that flate2's default
/// backend, miniz_oxide, writes for the bytes at the best compression level.
pub uninterp spec fn raw_deflate_best(data: Seq<u8>) -> Seq<u8>;

/// What flate2's default backend writes when it decompresses raw deflate data
/// with unlimited room: every byte the data yields, up to the end of the
/// stream, of the data, or of what it can decode.
pub uninterp spec fn raw_inflate(data: Seq<u8>) -> Seq<u8>;

/// Compresses bytes with flate2 at the best level, as raw deflate without a
/// zlib header (`Compress::compress_vec` with `FlushCompress::Finish`), into a
/// vector allocated with at least `capacity` bytes; nothing when flate2 reports
/// an error. flate2 writes only into the vector's spare capacity, which the
/// allocator decides, and miniz_oxide stops only when the stream is finished or
/// that room is full; so when fewer than `capacity` bytes come back the stream
/// is complete: it is `raw_deflate_best` of the bytes, never empty, and
/// decompresses back to them. Of a longer output nothing is stated.
#[verifier::external_body]
fn deflate(data: &[u8], capacity: usize) -> (r: Option<Vec<u8>>)
    ensures
        r matches Some(v) ==> (v@.len() < capacity ==> (v@ == raw_deflate_best(data@) && v@.len() > 0 && raw_inflate(
            v@,
        ) == data@)),
{
    let mut out = Vec::with_capacity(capacity);
    match flate2::Compress::new(flate2::Compression::best(), false).compress_vec(data, &mut out, flate2::FlushCompress::Finish) {
        Ok(_) => Some(out),
        Err(_) => None,
    }
}

/// Decompresses raw deflate data with flate2 (`Decompress::decompress_vec`
/// with `FlushDecompress::Finish`, no zlib header) into a vector allocated with
/// at least `capacity` bytes; nothing when flate2 reports an error. miniz_oxide
/// writes the decoded bytes in order into the vector's spare capacity (which
/// the allocator decides) until the stream or the data ends or the room is
/// full: so what comes back is a beginning of `raw_inflate` of the data, and
/// all of it when fewer than `capacity` bytes come back.
#[verifier::external_body]
fn inflate(data: &[u8], capacity: usize) -> (r: Option<Vec<u8>>)
    ensures
        r matches Some(v) ==> (v@.len() <= raw_inflate(data@).len() && v@ == raw_inflate(data@).take(v@.len() as int)),
        r matches Some(v) ==> (v@.len() < capacity ==> v@ == raw_inflate(data@)),
{
    let mut out = Vec::with_capacity(capacity);
    match flate2::Decompress::new(false).decompress_vec(data, &mut out, flate2::FlushDecompress::Finish) {
        Ok(_) => Some(out),
        Err(_) => None,
    }
}

/// The tag that opens the editor's clipboard data.
pub open spec fn open_tag() -> Seq<char> {
    seq!['<', 'B', 'A', 'N', 'K', 'I', '>']
}

/// The tag that closes the editor's clipboard data.
pub open spec fn close_tag() -> Seq<char> {
    seq!['<', '/', 'B', 'A', 'N', 'K', 'I', '>']
}

/// Clipboard text: the data between the two tags.
pub open spec fn wrap(body: Seq<char>) -> Seq<char> {
    open_tag() + body + close_tag()
}

/// Whether `needle` occurs in `hay` at `i`.
pub open spec fn occurs_at(hay: Seq<char>, needle: Seq<char>, i: int) -> bool {
    &&& 0 <= i
    &&& i + needle.len() <= hay.len()
    &&& forall|k: int| 0 <= k < needle.len() ==> #[trigger] hay[i + k] == needle[k]
}

/// Where `needle` first occurs in `hay`, if it does.
#[verifier::opaque]
pub open spec fn first_occurrence(hay: Seq<char>, needle: Seq<char>) -> Option<int> {
    if exists|i: int| occurs_at(hay, needle, i) {
        Some(choose|i: int| occurs_at(hay, needle, i) && forall|j: int| 0 <= j < i ==> !occurs_at(hay, needle, j))
    } else {
        None
    }
}

/// The first occurrence is the one with no occurrence before it.
pub proof fn lemma_first_is(hay: Seq<char>, needle: Seq<char>, i: int)
    requires
        occurs_at(hay, needle, i),
        forall|j: int| 0 <= j < i ==> !occurs_at(hay, needle, j),
    ensures
        first_occurrence(hay, needle) == Some(i),
{
    reveal(first_occurrence);
    let k = choose|k: int| occurs_at(hay, needle, k) && forall|j: int| 0 <= j < k ==> !occurs_at(hay, needle, j);
    assert(occurs_at(hay, needle, k));
    if k < i {
        assert(!occurs_at(hay, needle, k));
    }
    if i < k {
        assert(!occurs_at(hay, needle, i));
    }
}

/// No occurrence at all.
pub proof fn lemma_none_occurs(hay: Seq<char>, needle: Seq<char>)
    requires
        forall|j: int| !occurs_at(hay, needle, j),
    ensures
        first_occurrence(hay, needle) is None,
{
    reveal(first_occurrence);
}

/// The first place where `needle` occurs in `hay`.
pub fn find(hay: &Vec<char>, needle: &Vec<char>) -> (r: Option<usize>)
    ensures
        match r {
            Some(i) => occurs_at(hay@, needle@, i as int) && forall|j: int| 0 <= j < i ==> !occurs_at(hay@, needle@, j),
            None => forall|j: int| !occurs_at(hay@, needle@, j),
        },
{
    let n = hay.len();
    let m = needle.len();
    if m > n {
        return None;
    }
    let mut i: usize = 0;
    while i <= n - m
        invariant
            n == hay@.len(),
            m == needle@.len(),
            m <= n,
            i <= n - m + 1,
            forall|j: int| 0 <= j < i ==> !occurs_at(hay@, needle@, j),
        decreases n - m + 1 - i,
    {
        let mut k: usize = 0;
        while k < m
            invariant
                k <= m,
                i + m <= n,
                n == hay@.len(),
                m == needle@.len(),
                forall|t: int| 0 <= t < k ==> hay@[i + t] == needle@[t],
            ensures
                k <= m,
                forall|t: int| 0 <= t < k ==> hay@[i + t] == needle@[t],
                k < m ==> hay@[i + k] != needle@[k as int],
            decreases m - k,
        {
            if hay[i + k] != needle[k] {
                break;
            }
            k = k + 1;
        }
        if k == m {
            return Some(i);
        }
        assert(!occurs_at(hay@, needle@, i as int)) by {
            if occurs_at(hay@, needle@, i as int) {
                assert(hay@[i + k] == needle@[k as int]);
            }
        }
        i = i + 1;
    }
    assert forall|j: int| !occurs_at(hay@, needle@, j) by {
        if j > n - m {
        }
    }
    None
}

/// A text with its whitespace left out.
pub open spec fn drop_whitespace(s: Seq<char>) -> Seq<char>
    decreases s.len(),
{
    if s.len() == 0 {
        s
    } else if char_is_whitespace(s.last()) {
        drop_whitespace(s.drop_last())
    } else {
        drop_whitespace(s.drop_last()).push(s.last())
    }
}

/// The data of clipboard text: what stands between the first opening tag and
/// the first closing tag after... (the first closing tag anywhere, which must
/// not come before the opening tag), with whitespace left out.
pub open spec fn spec_envelope_body(text: Seq<char>) -> Option<Seq<char>> {
    match (first_occurrence(text, open_tag()), first_occurrence(text, close_tag())) {
        (Some(start), Some(end)) => if end < start {
            None
        } else {
            Some(drop_whitespace(text.subrange(start + 7, end)))
        },
        _ => None,
    }
}

fn tag_chars(close: bool) -> (r: Vec<char>)
    ensures
        r@ == (if close { close_tag() } else { open_tag() }),
{
    let r = if close {
        vec!['<', '/', 'B', 'A', 'N', 'K', 'I', '>']
    } else {
        vec!['<', 'B', 'A', 'N', 'K', 'I', '>']
    };
    assert(r@ =~= (if close { close_tag() } else { open_tag() }));
    r
}

/// Finds the data of clipboard text, without its whitespace.
pub fn envelope_body(text: &str) -> (r: Option<String>)
    ensures
        match r {
            Some(b) => spec_envelope_body(text@) == Some(b@),
            None => spec_envelope_body(text@) is None,
        },
{
    let cs = chars_of(text);
    let open = tag_chars(false);
    let close = tag_chars(true);
    let start = match find(&cs, &open) {
        Some(s) => s,
        None => {
            proof {
                lemma_none_occurs(cs@, open_tag());
            }
            return None;
        },
    };
    proof {
        lemma_first_is(cs@, open_tag(), start as int);
    }
    let end = match find(&cs, &close) {
        Some(e) => e,
        None => {
            proof {
                lemma_none_occurs(cs@, close_tag());
            }
            return None;
        },
    };
    proof {
        lemma_first_is(cs@, close_tag(), end as int);
    }
    if end < start {
        return None;
    }
    assert(end >= start + 7) by {
        if end < start + 7 {
            assert(cs@[end + 0] == close_tag()[0]);
            assert(cs@[end + 1] == close_tag()[1]);
            let d = (end - start) as int;
            assert(cs@[start + d] == open_tag()[d]);
            if d + 1 < 7 {
                assert(cs@[start + (d + 1)] == open_tag()[d + 1]);
            }
        }
    }
    let mut out = String::new();
    let mut k: usize = start + 7;
    while k < end
        invariant
            start + 7 <= k <= end,
            end <= cs@.len(),
            out@ == drop_whitespace(cs@.subrange(start + 7, k as int)),
        decreases end - k,
    {
        let c = cs[k];
        assert(cs@.subrange(start + 7, k + 1).drop_last() =~= cs@.subrange(start + 7, k as int));
        if !is_whitespace(c) {
            push_char(&mut out, c);
        }
        k = k + 1;
    }
    Some(out)
}

/// Four bytes of a number, least significant first.
pub open spec fn le4(n: u32) -> Seq<u8> {
    seq![(n & 0xff) as u8, ((n >> 8u32) & 0xff) as u8, ((n >> 16u32) & 0xff) as u8, ((n >> 24u32) & 0xff) as u8]
}

/// A number from four bytes, least significant first.
pub open spec fn le_u32(b: Seq<u8>) -> u32 {
    (b[0] as u32) | ((b[1] as u32) << 8u32) | ((b[2] as u32) << 16u32) | ((b[3] as u32) << 24u32)
}

/// Clipboard data: the compressed records, then the length of the records in
/// four bytes; nothing shorter than five bytes is such data.
pub open spec fn spec_split_length(c: Seq<u8>) -> Option<(Seq<u8>, u32)> {
    if c.len() < 5 {
        None
    } else {
        Some((c.take(c.len() - 4), le_u32(c.skip(c.len() - 4))))
    }
}

/// Splits clipboard data into the compressed records and their length.
pub fn split_length(c: &Vec<u8>) -> (r: Option<(Vec<u8>, u32)>)
    ensures
        match r {
            Some((d, n)) => spec_split_length(c@) == Some((d@, n)),
            None => spec_split_length(c@) is None,
        },
{
    let len = c.len();
    if len < 5 {
        return None;
    }
    let lm4 = len - 4;
    let mut d: Vec<u8> = Vec::new();
    let mut k: usize = 0;
    while k < lm4
        invariant
            k <= lm4,
            lm4 + 4 == c@.len(),
            d@ == c@.take(k as int),
        decreases lm4 - k,
    {
        d.push(c[k]);
        k = k + 1;
        assert(d@ =~= c@.take(k as int));
    }
    let n: u32 = (c[lm4] as u32) | ((c[lm4 + 1] as u32) << 8u32) | ((c[lm4 + 2] as u32) << 16u32) | ((c[lm4 + 3] as u32)
        << 24u32);
    assert(c@.skip(lm4 as int)[0] == c@[lm4 as int]);
    assert(c@.skip(lm4 as int)[1] == c@[lm4 + 1]);
    assert(c@.skip(lm4 as int)[2] == c@[lm4 + 2]);
    assert(c@.skip(lm4 as int)[3] == c@[lm4 + 3]);
    Some((d, n))
}

/// Appends a number in four bytes, least significant first.
pub fn push_le4(v: &mut Vec<u8>, n: u32)
    ensures
        final(v)@ == old(v)@ + le4(n),
{
    v.push((n & 0xff) as u8);
    v.push(((n >> 8u32) & 0xff) as u8);
    v.push(((n >> 16u32) & 0xff) as u8);
    v.push(((n >> 24u32) & 0xff) as u8);
    assert(v@ =~= old(v)@ + le4(n));
}

/// Reading back four bytes written for a number gives the number.
pub proof fn law_length_round_trip(n: u32)
    ensures
        le_u32(le4(n)) == n,
{
    let b0 = (n & 0xff) as u8;
    let b1 = ((n >> 8u32) & 0xff) as u8;
    let b2 = ((n >> 16u32) & 0xff) as u8;
    let b3 = ((n >> 24u32) & 0xff) as u8;
    assert(((b0 as u32) | ((b1 as u32) << 8u32) | ((b2 as u32) << 16u32) | ((b3 as u32) << 24u32)) == n) by (bit_vector)
        requires
            b0 == (n & 0xff) as u8,
            b1 == ((n >> 8u32) & 0xff) as u8,
            b2 == ((n >> 16u32) & 0xff) as u8,
            b3 == ((n >> 24u32) & 0xff) as u8,
    ;
}

/// Whether a base64 text holds compressed records followed by their length.
pub open spec fn encodes(body: Seq<char>, c: Seq<u8>, n: u32) -> bool {
    &&& base64_bytes(body) == Some(c + le4(n))
    &&& forall|i: int| 0 <= i < body.len() ==> is_base64_char(#[trigger] body[i])
}

/// Frames compressed records as clipboard text: their length follows them in
/// four bytes, and the whole is written in base64 between the tags. Nothing
/// when the framed data is too long to encode.
pub fn frame_compressed(compressed: Vec<u8>, len: u32) -> (r: Option<String>)
    ensures
        compressed@.len() + 4 > usize::MAX / 2 ==> r is None,
        compressed@.len() + 4 <= usize::MAX / 2 ==> (r matches Some(t) && t@ == wrap(
            base64_text(compressed@ + le4(len)),
        ) && encodes(base64_text(compressed@ + le4(len)), compressed@, len)),
{
    let ghost before = compressed@;
    let mut c = compressed;
    push_le4(&mut c, len);
    if c.len() > usize::MAX / 2 {
        return None;
    }
    let body = encode_base64(c.as_slice());
    proof {
        lemma_base64_alphabet(c@);
        lemma_base64_round_trip(c@);
    }
    let mut t = String::new();
    push_all(&mut t, "<BANKI>");
    push_all(&mut t, body.as_str());
    push_all(&mut t, "</BANKI>");
    proof {
        reveal_strlit("<BANKI>");
        reveal_strlit("</BANKI>");
        assert("<BANKI>"@ =~= open_tag());
        assert("</BANKI>"@ =~= close_tag());
        assert(t@ =~= wrap(body@));
        assert(encodes(body@, before, len));
    }
    Some(t)
}

/// The room given to flate2 for compressing `n` bytes of records: eight bytes
/// more than the records.
pub fn deflate_capacity(n: usize) -> (r: usize)
    requires
        n + 8 <= usize::MAX,
    ensures
        r == n + 8,
{
    n + 8
}

/// The room given to flate2 for decompressing records whose stored length is
/// `len`: that length, but at most 1 MiB.
pub fn inflate_capacity(len: u32) -> (r: usize)
    ensures
        r == if len < 0x10_0000 {
            len as usize
        } else {
            0x10_0000usize
        },
{
    if len < 0x10_0000 {
        len as usize
    } else {
        0x10_0000
    }
}

/// Clipboard text `t` as copying writes the records with compressed bytes
/// `c`: the base64 of `c` and the records' length between the tags; when `c`
/// is shorter than the room given to flate2, it is the complete stream
/// `raw_deflate_best` of the records, which is not empty and decompresses back
/// to them.
pub open spec fn copied_as(records: Seq<u8>, c: Seq<u8>, t: Seq<char>) -> bool {
    &&& t == wrap(base64_text(c + le4(records.len() as u32)))
    &&& encodes(base64_text(c + le4(records.len() as u32)), c, records.len() as u32)
    &&& c.len() < records.len() + 8 ==> (c == raw_deflate_best(records) && c.len() > 0 && raw_inflate(c) == records)
}

/// Copies serialised records to clipboard text: they are compressed by flate2
/// into a vector of `deflate_capacity` bytes of room, then framed (see
/// `frame_compressed`) with their length. Nothing is copied when there are no
/// records or flate2 fails.
pub fn copy_text(records: &Vec<u8>) -> (r: Option<String>)
    requires
        records@.len() + 8 <= usize::MAX,
    ensures
        records@.len() == 0 ==> r is None,
        r matches Some(t) ==> exists|c: Seq<u8>| #[trigger] copied_as(records@, c, t@),
{
    if records.len() == 0 {
        return None;
    }
    let c = match deflate(records.as_slice(), deflate_capacity(records.len())) {
        Some(c) => c,
        None => {
            return None;
        },
    };
    let ghost cv = c@;
    let r = frame_compressed(c, records.len() as u32);
    proof {
        if r is Some {
            assert(copied_as(records@, cv, r->Some_0@));
        }
    }
    r
}

/// The stages of reading clipboard text before decompressing: the data
/// between the tags, decoded from base64 and split into the compressed records
/// and their length.
pub open spec fn spec_paste_stage(text: Seq<char>) -> Option<(Seq<u8>, u32)> {
    match spec_envelope_body(text) {
        None => None,
        Some(b) => match base64_bytes(b) {
            None => None,
            Some(c) => spec_split_length(c),
        },
    }
}

/// Reads clipboard text up to decompression: the data between the tags,
/// decoded from base64 and split into the compressed records and their
/// length; nothing when the text is not clipboard data.
pub fn paste_stage(text: &str) -> (r: Option<(Vec<u8>, u32)>)
    ensures
        match r {
            Some((c, n)) => spec_paste_stage(text@) == Some((c@, n)),
            None => spec_paste_stage(text@) is None,
        },
{
    let body = match envelope_body(text) {
        Some(b) => b,
        None => {
            return None;
        },
    };
    let c = match decode_base64(body.as_str()) {
        Some(c) => c,
        None => {
            return None;
        },
    };
    split_length(&c)
}

/// Records `v` as pasting reads them from clipboard text: the text holds
/// compressed bytes `c` and a length `n`; `v` is a beginning of `raw_inflate`
/// of `c`, and all of it when shorter than the room given to flate2.
pub open spec fn pasted_as(text: Seq<char>, v: Seq<u8>) -> bool {
    match spec_paste_stage(text) {
        None => false,
        Some((c, n)) => {
            &&& v.len() <= raw_inflate(c).len()
            &&& v == raw_inflate(c).take(v.len() as int)
            &&& v.len() < (if n < 0x10_0000 {
                n as int
            } else {
                0x10_0000
            }) ==> v == raw_inflate(c)
        },
    }
}

/// The records that clipboard text holds: it is read as `copy_text` writes it
/// (see `paste_stage`), then decompressed by flate2 into a vector of
/// `inflate_capacity` of the stored length bytes of room. Nothing when the
/// text is not clipboard data or flate2 fails.
pub fn paste_payload(text: &str) -> (r: Option<Vec<u8>>)
    ensures
        spec_paste_stage(text@) is None ==> r is None,
        r matches Some(v) ==> pasted_as(text@, v@),
{
    let (compressed, len) = match paste_stage(text) {
        Some(p) => p,
        None => {
            return None;
        },
    };
    let cap = inflate_capacity(len);
    inflate(compressed.as_slice(), cap)
}

proof fn lemma_no_close_tag_before(body: Seq<char>, j: int)
    requires
        forall|i: int| 0 <= i < body.len() ==> is_base64_char(#[trigger] body[i]),
        0 <= j < 7 + body.len(),
    ensures
        !occurs_at(wrap(body), close_tag(), j),
{
    let t = wrap(body);
    if occurs_at(t, close_tag(), j) {
        assert(t[j + 0] == close_tag()[0]);
        assert(t[j + 1] == close_tag()[1]);
        if j < 7 {
            assert(t[j] == open_tag()[j]);
            assert(t[j + 1] == (if j + 1 < 7 { open_tag()[j + 1] } else { body[j + 1 - 7] }));
        } else {
            assert(t[j] == body[j - 7]);
            assert(is_base64_char(body[j - 7]));
        }
    }
}

/// Clipboard text made of base64 characters between the tags gives back its
/// data.
proof fn lemma_wrap_then_body(body: Seq<char>)
    requires
        forall|i: int| 0 <= i < body.len() ==> is_base64_char(#[trigger] body[i]),
    ensures
        spec_envelope_body(wrap(body)) == Some(body),
{
    let t = wrap(body);
    assert(occurs_at(t, open_tag(), 0)) by {
        assert forall|k: int| 0 <= k < 7 implies #[trigger] t[0 + k] == open_tag()[k] by {
        }
    }
    lemma_first_is(t, open_tag(), 0);
    let e: int = 7 + body.len() as int;
    assert(occurs_at(t, close_tag(), e)) by {
        assert forall|k: int| 0 <= k < 8 implies #[trigger] t[e + k] == close_tag()[k] by {
        }
    }
    assert forall|j: int| 0 <= j < e implies !occurs_at(t, close_tag(), j) by {
        lemma_no_close_tag_before(body, j);
    }
    lemma_first_is(t, close_tag(), e);
    assert(t.subrange(7, e) =~= body);
    lemma_no_whitespace_kept(body);
}

/// What copying writes, pasting reads back: the data between the tags of the
/// text that `copy_text` makes decodes to the compressed records and the length
/// of the records copied (for compressed records of at least one byte; an
/// empty compressed stream is too short to be clipboard data).
pub proof fn law_copied_text_reads_back(body: Seq<char>, c: Seq<u8>, n: u32)
    requires
        encodes(body, c, n),
        c.len() > 0,
    ensures
        spec_paste_stage(wrap(body)) == Some((c, n)),
{
    lemma_wrap_then_body(body);
    law_length_round_trip(n);
    let cc = c + le4(n);
    assert(cc.take(cc.len() - 4) =~= c);
    assert(cc.skip(cc.len() - 4) =~= le4(n));
}

/// Pasting gives back what copying wrote: clipboard text written for records
/// (fewer than 1 MiB of them) whose compressed stream fitted the room given to
/// flate2 reads back, when pasting succeeds, as exactly those records.
pub proof fn law_paste_gives_back_the_copy(records: Seq<u8>, c: Seq<u8>, t: Seq<char>, v: Seq<u8>)
    requires
        0 < records.len() < 0x10_0000,
        copied_as(records, c, t),
        c.len() < records.len() + 8,
        pasted_as(t, v),
    ensures
        v == records,
{
    let n = records.len() as u32;
    lemma_base64_alphabet(c + le4(n));
    law_copied_text_reads_back(base64_text(c + le4(n)), c, n);
    assert(spec_paste_stage(t) == Some((c, n)));
    if v.len() < records.len() {
        assert(v == raw_inflate(c));
    } else {
        assert(v =~= records);
    }
}

proof fn lemma_no_whitespace_kept(s: Seq<char>)
    requires
        forall|i: int| 0 <= i < s.len() ==> is_base64_char(#[trigger] s[i]),
    ensures
        drop_whitespace(s) == s,
    decreases s.len(),
{
    if s.len() > 0 {
        assert(is_base64_char(s[s.len() - 1]));
        lemma_no_whitespace_kept(s.drop_last());
        assert(s.drop_last().push(s.last()) =~= s);
    }
}

} // verus!
