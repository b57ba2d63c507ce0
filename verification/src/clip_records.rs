use vstd::prelude::*;

verus! {

/// The byte that opens a tile record in the clipboard format; any other first
/// byte is the serialized type of a level object.
pub const TILE_MARKER: u8 = 255;

/// One entry of the editor's copy buffer: a tile at an offset from the centre
/// of the copied area, or a level object given by its serialized type and its
/// serialized body.
pub enum ClipRecord {
    Tile { x: i16, y: i16, tile: u8 },
    Object { kind: u8, payload: Vec<u8> },
}

/// What a clip record means, with the object body as a sequence of bytes.
pub enum ClipRecordView {
    Tile(i16, i16, u8),
    Object(u8, Seq<u8>),
}

impl View for ClipRecord {
    type V = ClipRecordView;

    open spec fn view(&self) -> ClipRecordView {
        match self {
            ClipRecord::Tile { x, y, tile } => ClipRecordView::Tile(*x, *y, *tile),
            ClipRecord::Object { kind, payload } => ClipRecordView::Object(*kind, payload@),
        }
    }
}

/// The low byte of a 16-bit value in little-endian order.
pub open spec fn lo_byte(v: i16) -> u8 {
    ((v as u16) % 256) as u8
}

/// The high byte of a 16-bit value in little-endian order.
pub open spec fn hi_byte(v: i16) -> u8 {
    ((v as u16) / 256) as u8
}

/// The 16-bit signed value whose little-endian bytes are `lo`, `hi`.
pub open spec fn i16_from_le(lo: u8, hi: u8) -> i16 {
    ((hi as u16) * 256 + (lo as u16)) as u16 as i16
}

/// The bytes that a record occupies in the copy buffer.
pub open spec fn encode_record(r: ClipRecordView) -> Seq<u8> {
    match r {
        ClipRecordView::Tile(x, y, t) => seq![
            TILE_MARKER,
            lo_byte(x),
            hi_byte(x),
            lo_byte(y),
            hi_byte(y),
            t,
        ],
        ClipRecordView::Object(k, p) => seq![k, p.len() as u8] + p,
    }
}

/// The copy buffer that holds the records in order.
pub open spec fn encode_all(rs: Seq<ClipRecordView>) -> Seq<u8>
    decreases rs.len(),
{
    if rs.len() == 0 {
        Seq::empty()
    } else {
        encode_record(rs[0]) + encode_all(rs.skip(1))
    }
}

/// A record that the format can carry: an object's type must differ from the
/// tile marker and its body must fit in the one length byte.
pub open spec fn record_fits(r: ClipRecordView) -> bool {
    match r {
        ClipRecordView::Tile(_, _, _) => true,
        ClipRecordView::Object(k, p) => k != TILE_MARKER && p.len() <= 255,
    }
}

/// What the paste scan reads from position `i` on: the records in order, and
/// whether it stalls on an object record whose body runs past the end of the
/// buffer (the scan neither reads such a record nor moves past it).
pub open spec fn parse_from(d: Seq<u8>, i: int) -> (Seq<ClipRecordView>, bool)
    decreases d.len() - i,
{
    if i < 0 || i + 1 >= d.len() {
        (Seq::empty(), false)
    } else if d[i] == TILE_MARKER {
        if i + 5 < d.len() {
            let r = ClipRecordView::Tile(
                i16_from_le(d[i + 1], d[i + 2]),
                i16_from_le(d[i + 3], d[i + 4]),
                d[i + 5],
            );
            let rest = parse_from(d, i + 6);
            (seq![r].add(rest.0), rest.1)
        } else {
            (Seq::empty(), false)
        }
    } else {
        let len = d[i + 1] as int;
        if i + len + 1 < d.len() {
            let r = ClipRecordView::Object(d[i], d.subrange(i + 2, i + 2 + len));
            let rest = parse_from(d, i + len + 2);
            (seq![r].add(rest.0), rest.1)
        } else {
            (Seq::empty(), true)
        }
    }
}

/// The records of a whole copy buffer, and whether the scan stalls.
pub open spec fn parse_all(d: Seq<u8>) -> (Seq<ClipRecordView>, bool) {
    parse_from(d, 0)
}

/// Appends a tile record to the copy buffer.
pub fn push_tile_record(buf: &mut Vec<u8>, x: i16, y: i16, tile: u8)
    ensures
        final(buf)@ == old(buf)@ + encode_record(ClipRecordView::Tile(x, y, tile)),
{
    let ux = x as u16;
    let uy = y as u16;
    buf.push(TILE_MARKER);
    buf.push((ux % 256) as u8);
    buf.push((ux / 256) as u8);
    buf.push((uy % 256) as u8);
    buf.push((uy / 256) as u8);
    buf.push(tile);
    assert(buf@ =~= old(buf)@ + encode_record(ClipRecordView::Tile(x, y, tile)));
}

/// Appends an object record to the copy buffer; an object whose body is longer
/// than 255 bytes is left out.
pub fn push_object_record(buf: &mut Vec<u8>, kind: u8, payload: &[u8]) -> (pushed: bool)
    ensures
        pushed == (payload@.len() <= 255),
        pushed ==> final(buf)@ == old(buf)@ + encode_record(
            ClipRecordView::Object(kind, payload@),
        ),
        !pushed ==> final(buf)@ == old(buf)@,
{
    let n = payload.len();
    if n > 255 {
        return false;
    }
    buf.push(kind);
    buf.push(n as u8);
    let ghost start = buf@;
    let mut k: usize = 0;
    while k < n
        invariant
            k <= n,
            n == payload@.len(),
            buf@ == start + payload@.subrange(0, k as int),
        decreases n - k,
    {
        buf.push(payload[k]);
        k = k + 1;
        assert(buf@ =~= start + payload@.subrange(0, k as int));
    }
    assert(payload@.subrange(0, n as int) =~= payload@);
    assert(buf@ =~= old(buf)@ + encode_record(ClipRecordView::Object(kind, payload@)));
    true
}

/// The offset of a tile from the centre of the copied area, as stored in a tile
/// record (the difference is cut to 16 bits).
pub fn tile_offset(coord: i32, centre: i32) -> (r: i16)
    requires
        i32::MIN <= coord - centre <= i32::MAX,
    ensures
        r == (coord - centre) as i16,
{
    (coord - centre) as i16
}

fn le_i16(lo: u8, hi: u8) -> (r: i16)
    ensures
        r == i16_from_le(lo, hi),
{
    ((hi as u16) * 256 + (lo as u16)) as i16
}

fn copy_range(d: &[u8], from: usize, to: usize) -> (r: Vec<u8>)
    requires
        from <= to <= d@.len(),
    ensures
        r@ == d@.subrange(from as int, to as int),
{
    let mut out: Vec<u8> = Vec::new();
    let mut k = from;
    while k < to
        invariant
            from <= k <= to,
            to <= d@.len(),
            out@ == d@.subrange(from as int, k as int),
        decreases to - k,
    {
        out.push(d[k]);
        k = k + 1;
        assert(out@ =~= d@.subrange(from as int, k as int));
    }
    out
}

/// Reads the records of a copy buffer, in order. The flag is set when the scan
/// stalls on an object record whose body runs past the end of the buffer; the
/// records before that one are returned.
pub fn parse_records(d: &[u8]) -> (r: (Vec<ClipRecord>, bool))
    ensures
        r.0@.map_values(|c: ClipRecord| c@) == parse_all(d@).0,
        r.1 == parse_all(d@).1,
{
    let mut out: Vec<ClipRecord> = Vec::new();
    let mut i: usize = 0;
    let n = d.len();
    let mut stalled = false;
    while n - i > 1
        invariant_except_break
            !stalled,
        invariant
            n == d@.len(),
            i <= n,
            parse_all(d@) == (out@.map_values(|c: ClipRecord| c@) + parse_from(d@, i as int).0,
            parse_from(d@, i as int).1),
        ensures
            stalled ==> parse_all(d@) == (out@.map_values(|c: ClipRecord| c@), true),
            !stalled ==> parse_all(d@) == (out@.map_values(|c: ClipRecord| c@), false),
        decreases n - i,
    {
        let ghost before = out@.map_values(|c: ClipRecord| c@);
        if d[i] == TILE_MARKER {
            if n - i > 5 {
                let x = le_i16(d[i + 1], d[i + 2]);
                let y = le_i16(d[i + 3], d[i + 4]);
                let rec = ClipRecord::Tile { x, y, tile: d[i + 5] };
                out.push(rec);
                proof {
                    let rest = parse_from(d@, (i + 6) as int);
                    assert(out@.map_values(|c: ClipRecord| c@) =~= before.push(
                        ClipRecordView::Tile(x, y, d@[i + 5]),
                    ));
                    assert(before + (seq![ClipRecordView::Tile(x, y, d@[i + 5])] + rest.0)
                        =~= out@.map_values(|c: ClipRecord| c@) + rest.0);
                }
                i = i + 6;
            } else {
                break ;
            }
        } else {
            let len = d[i + 1] as usize;
            if n - i > len + 1 {
                let payload = copy_range(d, i + 2, i + 2 + len);
                let rec = ClipRecord::Object { kind: d[i], payload };
                out.push(rec);
                proof {
                    let r = ClipRecordView::Object(
                        d@[i as int],
                        d@.subrange(i + 2, i + 2 + len),
                    );
                    let rest = parse_from(d@, (i + len + 2) as int);
                    assert(out@.map_values(|c: ClipRecord| c@) =~= before.push(r));
                    assert(before + (seq![r] + rest.0) =~= out@.map_values(|c: ClipRecord| c@)
                        + rest.0);
                }
                i = i + len + 2;
            } else {
                stalled = true;
                proof {
                    assert(before + Seq::<ClipRecordView>::empty() =~= before);
                }
                break ;
            }
        }
    }
    proof {
        if !stalled {
            let b = out@.map_values(|c: ClipRecord| c@);
            assert(b + Seq::<ClipRecordView>::empty() =~= b);
        }
    }
    (out, stalled)
}

proof fn lemma_i16_le_roundtrip(v: i16)
    ensures
        i16_from_le(lo_byte(v), hi_byte(v)) == v,
{
    let u = v as u16;
    assert((((u % 256) as u8) as u16) == u % 256);
    assert((((u / 256) as u8) as u16) == u / 256);
    assert((u / 256) * 256 + u % 256 == u);
    assert((v as u16) as i16 == v) by (bit_vector);
}

proof fn lemma_parse_encoded(d: Seq<u8>, i: int, rs: Seq<ClipRecordView>)
    requires
        0 <= i <= d.len(),
        d.subrange(i as int, d.len() as int) == encode_all(rs),
        forall|k: int| 0 <= k < rs.len() ==> record_fits(#[trigger] rs[k]),
    ensures
        parse_from(d, i) == (rs, false),
    decreases rs.len(),
{
    if rs.len() == 0 {
        assert(d.subrange(i as int, d.len() as int).len() == 0);
        assert(parse_from(d, i).0 =~= rs);
    } else {
        let r = rs[0];
        let tail = rs.skip(1);
        let rest_bytes = d.subrange(i as int, d.len() as int);
        assert(rest_bytes == encode_record(r) + encode_all(tail));
        let er = encode_record(r);
        assert forall|j: int| 0 <= j < er.len() implies d[i + j] == #[trigger] er[j] by {
            assert(rest_bytes[j] == d[i + j]);
            assert((er + encode_all(tail))[j] == er[j]);
        }
        assert(d.subrange(i + er.len(), d.len() as int) =~= encode_all(tail)) by {
            assert forall|j: int| 0 <= j < encode_all(tail).len() implies d[i + er.len() + j]
                == #[trigger] encode_all(tail)[j] by {
                assert(rest_bytes[er.len() + j] == d[i + (er.len() + j)]);
                assert((er + encode_all(tail))[er.len() + j] == encode_all(tail)[j]);
            }
        }
        assert(record_fits(r));
        assert forall|k: int| 0 <= k < tail.len() implies record_fits(#[trigger] tail[k]) by {
            assert(tail[k] == rs[k + 1]);
        }
        match r {
            ClipRecordView::Tile(x, y, t) => {
                let e = encode_record(r);
                assert(e.len() == 6);
                assert(rest_bytes.len() >= 6);
                assert(d[i + 0] == e[0]);
                assert(d[i + 1] == e[1]);
                assert(d[i + 2] == e[2]);
                assert(d[i + 3] == e[3]);
                assert(d[i + 4] == e[4]);
                assert(d[i + 5] == e[5]);
                lemma_i16_le_roundtrip(x);
                lemma_i16_le_roundtrip(y);
                assert(d.subrange(i + 6, d.len() as int) =~= encode_all(tail));
                lemma_parse_encoded(d, i + 6, tail);
                assert(parse_from(d, i).0 =~= rs);
            },
            ClipRecordView::Object(k, p) => {
                let e = encode_record(r);
                assert(e.len() == 2 + p.len());
                assert(d[i + 0] == e[0]);
                assert(d[i + 1] == e[1]);
                assert forall|j: int| 0 <= j < p.len() implies d[i + 2 + j] == #[trigger] p[j] by {
                    assert(d[i + (2 + j)] == e[2 + j]);
                }
                assert((p.len() as u8) as nat == p.len());
                assert(d.subrange(i + 2, i + 2 + p.len()) =~= p);
                assert(d.subrange(i + 2 + p.len(), d.len() as int) =~= encode_all(tail));
                lemma_parse_encoded(d, i + 2 + p.len(), tail);
                assert(parse_from(d, i).0 =~= rs);
            },
        }
    }
}

/// Pasting reads back exactly the records that copying wrote: for records that
/// the format can carry, scanning their encoding gives them back in order and
/// never stalls.
pub proof fn law_paste_reads_what_copy_wrote(rs: Seq<ClipRecordView>)
    requires
        forall|k: int| 0 <= k < rs.len() ==> record_fits(#[trigger] rs[k]),
    ensures
        parse_all(encode_all(rs)) == (rs, false),
{
    let d = encode_all(rs);
    assert(d.subrange(0, d.len() as int) =~= d);
    lemma_parse_encoded(d, 0, rs);
}

} // verus!
