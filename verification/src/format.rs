//! Pixel formats of planes: the pairs of a fourcc code and a layout modifier
//! that a plane can scan out.

use vstd::prelude::*;
use crate::blob::{read_u32, read_u64, spec_read_u32, spec_read_u64, ByteOrder};
use drm_fourcc::DrmFourcc;

verus! {

/// The fourcc code of 32-bit ARGB with 8 bits per channel.
pub const FOURCC_ARGB8888: u32 = 875713089;

/// The modifier that stands for "no modifier given".
pub const MODIFIER_INVALID: u64 = 0x00ff_ffff_ffff_ffff;

/// The modifier of the linear layout.
pub const MODIFIER_LINEAR: u64 = 0;

/// The size in bytes of the header of a format table.
pub const IN_FORMATS_HEADER: usize = 24;

/// The size in bytes of one modifier record of a format table.
pub const IN_FORMATS_RECORD: usize = 24;

/// A pixel format with its layout.
#[derive(Clone, Copy, Debug, PartialEq, Eq, Hash, Structural)]
pub struct Format {
    /// The fourcc code of the pixel format.
    pub code: u32,
    /// The modifier that names the layout in memory.
    pub modifier: u64,
}

/// The format that every plane is taken to support when nothing else is
/// known.
pub open spec fn default_format() -> Format {
    Format { code: FOURCC_ARGB8888, modifier: MODIFIER_INVALID }
}

/// Whether bit `j` of `mask` is set.
pub open spec fn mask_selects(mask: u64, j: u64) -> bool {
    mask & (1u64 << j) != 0
}

/// Whether the format table `b` pairs `f` through bit `j` of its modifier
/// record `i`.
///
/// The table starts with six unsigned 32-bit fields: version, flags, number
/// of formats, number of modifiers, offset of the formats, offset of the
/// modifier records. The formats are unsigned 32-bit codes. A modifier record
/// holds the modifier in 64 bits, the index of the first format its mask
/// speaks of in 32 bits, 32 unused bits, and the mask in 64 bits. A record or
/// a format that does not lie inside the table pairs nothing.
pub open spec fn in_formats_entry(b: Seq<u8>, order: ByteOrder, i: int, j: int, f: Format) -> bool {
    let count_formats = spec_read_u32(b, 8, order);
    let count_modifiers = spec_read_u32(b, 12, order);
    let formats_offset = spec_read_u32(b, 16, order);
    let modifiers_offset = spec_read_u32(b, 20, order);
    let record = modifiers_offset + 24 * i;
    let k = j + spec_read_u32(b, record + 8, order);
    &&& b.len() >= 24
    &&& 0 <= i < count_modifiers
    &&& record + 24 <= b.len()
    &&& 0 <= j < 64
    &&& mask_selects(spec_read_u64(b, record + 16, order) as u64, j as u64)
    &&& k < count_formats
    &&& formats_offset + 4 * k + 4 <= b.len()
    &&& f.code == spec_read_u32(b, formats_offset + 4 * k, order)
    &&& f.modifier == spec_read_u64(b, record, order)
}

/// Whether the format table `b` advertises the pair `f`.
pub open spec fn advertises(b: Seq<u8>, order: ByteOrder, f: Format) -> bool {
    exists|i: int, j: int| in_formats_entry(b, order, i, j, f)
}

/// Whether the table pairs `f` through a bit that comes before bit `j` of
/// record `i`, records taken in order and bits from the lowest up.
pub open spec fn entry_before(b: Seq<u8>, order: ByteOrder, i: int, j: int, f: Format) -> bool {
    exists|i2: int, j2: int|
        (i2 < i || (i2 == i && j2 < j)) && in_formats_entry(b, order, i2, j2, f)
}

proof fn lemma_entry_step(b: Seq<u8>, order: ByteOrder, i: int, j: int, f: Format)
    ensures
        entry_before(b, order, i, j + 1, f) == (entry_before(b, order, i, j, f)
            || in_formats_entry(b, order, i, j, f)),
{
    if entry_before(b, order, i, j + 1, f) {
        let (i2, j2) = choose|i2: int, j2: int|
            (i2 < i || (i2 == i && j2 < j + 1)) && in_formats_entry(b, order, i2, j2, f);
        if i2 == i && j2 == j {
        } else {
            assert((i2 < i || (i2 == i && j2 < j)) && in_formats_entry(b, order, i2, j2, f));
        }
    }
    if entry_before(b, order, i, j, f) {
        let (i2, j2) = choose|i2: int, j2: int|
            (i2 < i || (i2 == i && j2 < j)) && in_formats_entry(b, order, i2, j2, f);
        assert((i2 < i || (i2 == i && j2 < j + 1)) && in_formats_entry(b, order, i2, j2, f));
    }
    if in_formats_entry(b, order, i, j, f) {
        assert((i < i || (i == i && j < j + 1)) && in_formats_entry(b, order, i, j, f));
    }
}

proof fn lemma_entry_row(b: Seq<u8>, order: ByteOrder, i: int, f: Format)
    ensures
        entry_before(b, order, i + 1, 0, f) == entry_before(b, order, i, 64, f),
{
    if entry_before(b, order, i + 1, 0, f) {
        let (i2, j2) = choose|i2: int, j2: int|
            (i2 < i + 1 || (i2 == i + 1 && j2 < 0)) && in_formats_entry(b, order, i2, j2, f);
        assert((i2 < i || (i2 == i && j2 < 64)) && in_formats_entry(b, order, i2, j2, f));
    }
    if entry_before(b, order, i, 64, f) {
        let (i2, j2) = choose|i2: int, j2: int|
            (i2 < i || (i2 == i && j2 < 64)) && in_formats_entry(b, order, i2, j2, f);
        assert((i2 < i + 1 || (i2 == i + 1 && j2 < 0)) && in_formats_entry(b, order, i2, j2, f));
    }
}

/// Decodes a format table: a list that holds exactly the pairs that the
/// table advertises. A pair may come more than once.
pub fn decode_in_formats(blob: &[u8], order: ByteOrder) -> (out: Vec<Format>)
    ensures
        forall|f: Format| out@.contains(f) <==> advertises(blob@, order, f),
{
    let mut out: Vec<Format> = Vec::new();
    let len: usize = blob.len();
    if len < IN_FORMATS_HEADER {
        assert forall|f: Format| out@.contains(f) <==> advertises(blob@, order, f) by {}
        return out;
    }
    let count_formats: u32 = read_u32(blob, 8, order);
    let count_modifiers: u32 = read_u32(blob, 12, order);
    let formats_offset: u32 = read_u32(blob, 16, order);
    let modifiers_offset: u32 = read_u32(blob, 20, order);
    let mut i: u32 = 0;
    assert forall|f: Format| out@.contains(f) <==> entry_before(blob@, order, 0, 0, f) by {}
    while i < count_modifiers && modifiers_offset as u64 + 24 * (i as u64) + 24 <= len as u64
        invariant
            len == blob@.len(),
            len >= 24,
            count_formats == spec_read_u32(blob@, 8, order),
            count_modifiers == spec_read_u32(blob@, 12, order),
            formats_offset == spec_read_u32(blob@, 16, order),
            modifiers_offset == spec_read_u32(blob@, 20, order),
            i <= count_modifiers,
            forall|f: Format| out@.contains(f) <==> entry_before(blob@, order, i as int, 0, f),
        decreases count_modifiers - i,
    {
        let record: usize = (modifiers_offset as u64 + 24 * (i as u64)) as usize;
        let modifier: u64 = read_u64(blob, record, order);
        let offset: u32 = read_u32(blob, record + 8, order);
        let mask: u64 = read_u64(blob, record + 16, order);
        let mut j: u32 = 0;
        while j < 64
            invariant
                len == blob@.len(),
                len >= 24,
                count_formats == spec_read_u32(blob@, 8, order),
                count_modifiers == spec_read_u32(blob@, 12, order),
                formats_offset == spec_read_u32(blob@, 16, order),
                modifiers_offset == spec_read_u32(blob@, 20, order),
                i < count_modifiers,
                record == modifiers_offset + 24 * i,
                record + 24 <= len,
                modifier == spec_read_u64(blob@, record as int, order),
                offset == spec_read_u32(blob@, record + 8, order),
                mask == spec_read_u64(blob@, record + 16, order),
                j <= 64,
                forall|f: Format|
                    out@.contains(f) <==> entry_before(blob@, order, i as int, j as int, f),
            decreases 64 - j,
        {
            let ghost before = out@;
            let mut pushed: bool = false;
            if mask & (1u64 << j) != 0 {
                let k: u64 = j as u64 + offset as u64;
                if k < count_formats as u64 {
                    let at: u64 = formats_offset as u64 + 4 * k;
                    if at + 4 <= len as u64 {
                        let code: u32 = read_u32(blob, at as usize, order);
                        out.push(Format { code, modifier });
                        pushed = true;
                    }
                }
            }
            proof {
                broadcast use vstd::seq_lib::lemma_seq_contains_after_push;

                assert(mask_selects(mask, j as u64) == (mask & (1u64 << j) != 0));
                assert forall|f: Format|
                    out@.contains(f) <==> entry_before(blob@, order, i as int, j + 1, f) by {
                    lemma_entry_step(blob@, order, i as int, j as int, f);
                    if pushed {
                        let g = out@.last();
                        assert(out@ == before.push(g));
                        assert(in_formats_entry(blob@, order, i as int, j as int, g));
                        assert(in_formats_entry(blob@, order, i as int, j as int, f) ==> f == g);
                    } else {
                        assert(!in_formats_entry(blob@, order, i as int, j as int, f));
                    }
                }
            }
            j = j + 1;
        }
        proof {
            assert forall|f: Format|
                out@.contains(f) <==> entry_before(blob@, order, i + 1, 0, f) by {
                lemma_entry_row(blob@, order, i as int, f);
            }
        }
        i = i + 1;
    }
    proof {
        assert forall|f: Format| out@.contains(f) <==> advertises(blob@, order, f) by {
            if entry_before(blob@, order, i as int, 0, f) {
                let (i2, j2) = choose|i2: int, j2: int|
                    (i2 < i || (i2 == i && j2 < 0)) && in_formats_entry(blob@, order, i2, j2, f);
                assert(in_formats_entry(blob@, order, i2, j2, f));
            }
            if advertises(blob@, order, f) {
                let (i2, j2) = choose|i2: int, j2: int| in_formats_entry(blob@, order, i2, j2, f);
                assert(i2 < i);
                assert((i2 < i || (i2 == i && j2 < 0)) && in_formats_entry(
                    blob@,
                    order,
                    i2,
                    j2,
                    f,
                ));
            }
        }
    }
    out
}

/// Whether `drm_fourcc` knows `code` as the fourcc of a pixel format.
pub uninterp spec fn fourcc_recognized(code: u32) -> bool;

/// Asks `DrmFourcc::try_from` whether `code` is the fourcc of a pixel format
/// that the crate `drm_fourcc` knows. The answer depends on `code` alone: the
/// conversion compares it with a fixed list of codes.
#[verifier::external_body]
fn is_recognized_fourcc(code: u32) -> (b: bool)
    ensures
        b == fourcc_recognized(code),
{
    DrmFourcc::try_from(code).is_ok()
}

/// The test for a recognized fourcc code, as a function.
pub open spec fn code_recognized() -> spec_fn(u32) -> bool {
    |c: u32| fourcc_recognized(c)
}

/// The test for a pair with a recognized fourcc code, as a function.
pub open spec fn format_recognized() -> spec_fn(Format) -> bool {
    |f: Format| fourcc_recognized(f.code)
}

/// The codes of `codes` that are recognized fourcc codes, in their order.
pub fn recognized_codes(codes: &Vec<u32>) -> (out: Vec<u32>)
    ensures
        out@ == codes@.filter(code_recognized()),
        forall|c: u32| #[trigger] out@.contains(c) <==> codes@.contains(c) && fourcc_recognized(c),
{
    let mut out: Vec<u32> = Vec::new();
    let mut i: usize = 0;
    proof {
        reveal(Seq::filter);
        assert(codes@.take(0) =~= Seq::<u32>::empty());
    }
    while i < codes.len()
        invariant
            i <= codes@.len(),
            out@ == codes@.take(i as int).filter(code_recognized()),
            forall|c: u32| #[trigger]
                out@.contains(c) <==> codes@.take(i as int).contains(c) && fourcc_recognized(c),
        decreases codes@.len() - i,
    {
        let c: u32 = codes[i];
        let known: bool = is_recognized_fourcc(c);
        let ghost before = out@;
        if known {
            out.push(c);
        }
        proof {
            broadcast use vstd::seq_lib::lemma_seq_contains_after_push;

            let next = codes@.take(i + 1);
            assert(next =~= codes@.take(i as int).push(c));
            assert(next.drop_last() =~= codes@.take(i as int));
            assert(next.last() == c);
            reveal(Seq::filter);
            assert forall|x: u32| #[trigger]
                out@.contains(x) <==> next.contains(x) && fourcc_recognized(x) by {
                assert(before.contains(x) <==> codes@.take(i as int).contains(x)
                    && fourcc_recognized(x));
            }
        }
        i = i + 1;
    }
    assert(codes@.take(i as int) =~= codes@);
    out
}

/// The pairs of `formats` whose code is a recognized fourcc code, in their
/// order.
pub fn recognized_formats(formats: &Vec<Format>) -> (out: Vec<Format>)
    ensures
        out@ == formats@.filter(format_recognized()),
        forall|f: Format| #[trigger]
            out@.contains(f) <==> formats@.contains(f) && fourcc_recognized(f.code),
{
    let mut out: Vec<Format> = Vec::new();
    let mut i: usize = 0;
    proof {
        reveal(Seq::filter);
        assert(formats@.take(0) =~= Seq::<Format>::empty());
    }
    while i < formats.len()
        invariant
            i <= formats@.len(),
            out@ == formats@.take(i as int).filter(format_recognized()),
            forall|f: Format| #[trigger]
                out@.contains(f) <==> formats@.take(i as int).contains(f) && fourcc_recognized(
                    f.code,
                ),
        decreases formats@.len() - i,
    {
        let f: Format = formats[i];
        let known: bool = is_recognized_fourcc(f.code);
        let ghost before = out@;
        if known {
            out.push(f);
        }
        proof {
            broadcast use vstd::seq_lib::lemma_seq_contains_after_push;

            let next = formats@.take(i + 1);
            assert(next =~= formats@.take(i as int).push(f));
            assert(next.drop_last() =~= formats@.take(i as int));
            assert(next.last() == f);
            reveal(Seq::filter);
            assert forall|x: Format| #[trigger]
                out@.contains(x) <==> next.contains(x) && fourcc_recognized(x.code) by {
                assert(before.contains(x) <==> formats@.take(i as int).contains(x)
                    && fourcc_recognized(x.code));
            }
        }
        i = i + 1;
    }
    assert(formats@.take(i as int) =~= formats@);
    out
}

/// Whether `formats` lists `f`.
pub fn formats_contain(formats: &Vec<Format>, f: &Format) -> (b: bool)
    ensures
        b == formats@.contains(*f),
{
    let mut i: usize = 0;
    while i < formats.len()
        invariant
            i <= formats@.len(),
            forall|k: int| 0 <= k < i ==> formats@[k] != *f,
        decreases formats@.len() - i,
    {
        if formats[i] == *f {
            assert(formats@[i as int] == *f);
            return true;
        }
        i = i + 1;
    }
    false
}

/// Appends `f` to `formats` unless it is listed already.
pub fn push_unique(formats: &mut Vec<Format>, f: Format)
    requires
        old(formats)@.no_duplicates(),
    ensures
        final(formats)@.no_duplicates(),
        final(formats)@ == if old(formats)@.contains(f) {
            old(formats)@
        } else {
            old(formats)@.push(f)
        },
        forall|g: Format| final(formats)@.contains(g) <==> old(formats)@.contains(g) || g == f,
{
    broadcast use vstd::seq_lib::lemma_seq_contains_after_push;

    if !formats_contain(formats, &f) {
        formats.push(f);
    }
}

/// Whether the pair `f` is collected from the codes `legacy` of a plane's
/// plain format list and the pairs `advertised` of its format table.
///
/// Every code of the plain list comes without a modifier. A driver that
/// takes modifiers adds the advertised pairs. On a driver that does not, a
/// cursor plane gets every code of the plain list in the linear layout too.
pub open spec fn collected(
    legacy: Seq<u32>,
    advertised: Seq<Format>,
    has_modifiers: bool,
    is_cursor: bool,
    f: Format,
) -> bool {
    ||| f.modifier == MODIFIER_INVALID && legacy.contains(f.code)
    ||| has_modifiers && advertised.contains(f)
    ||| !has_modifiers && is_cursor && f.modifier == MODIFIER_LINEAR && legacy.contains(f.code)
}

/// The set of pairs collected from `legacy` and `advertised`; the default
/// format alone where nothing is collected.
pub open spec fn spec_collect_formats(
    legacy: Seq<u32>,
    advertised: Seq<Format>,
    has_modifiers: bool,
    is_cursor: bool,
) -> Set<Format> {
    if legacy.len() == 0 && !(has_modifiers && advertised.len() > 0) {
        set![default_format()]
    } else {
        Set::new(|f: Format| collected(legacy, advertised, has_modifiers, is_cursor, f))
    }
}

/// Collects the formats of a plane from the recognized codes of its plain
/// format list and the recognized pairs of its format table. No pair comes
/// twice in the result.
pub fn collect_formats(
    legacy: &Vec<u32>,
    advertised: &Vec<Format>,
    has_modifiers: bool,
    is_cursor: bool,
) -> (out: Vec<Format>)
    ensures
        out@.no_duplicates(),
        out@.to_set() == spec_collect_formats(legacy@, advertised@, has_modifiers, is_cursor),
{
    let mut out: Vec<Format> = Vec::new();
    let mut i: usize = 0;
    assert(legacy@.take(0) =~= Seq::<u32>::empty());
    while i < legacy.len()
        invariant
            i <= legacy@.len(),
            out@.no_duplicates(),
            forall|f: Format|
                out@.contains(f) <==> f.modifier == MODIFIER_INVALID && legacy@.take(
                    i as int,
                ).contains(f.code),
        decreases legacy@.len() - i,
    {
        proof {
            broadcast use vstd::seq_lib::lemma_seq_contains_after_push;

            assert(legacy@.take(i + 1) =~= legacy@.take(i as int).push(legacy@[i as int]));
        }
        push_unique(&mut out, Format { code: legacy[i], modifier: MODIFIER_INVALID });
        i = i + 1;
    }
    assert(legacy@.take(i as int) =~= legacy@);
    if has_modifiers {
        let mut k: usize = 0;
        assert(advertised@.take(0) =~= Seq::<Format>::empty());
        while k < advertised.len()
            invariant
                k <= advertised@.len(),
                out@.no_duplicates(),
                forall|f: Format|
                    out@.contains(f) <==> (f.modifier == MODIFIER_INVALID && legacy@.contains(
                        f.code,
                    )) || advertised@.take(k as int).contains(f),
            decreases advertised@.len() - k,
        {
            proof {
                broadcast use vstd::seq_lib::lemma_seq_contains_after_push;

                assert(advertised@.take(k + 1) =~= advertised@.take(k as int).push(
                    advertised@[k as int],
                ));
            }
            push_unique(&mut out, advertised[k]);
            k = k + 1;
        }
        assert(advertised@.take(k as int) =~= advertised@);
    } else if is_cursor {
        let mut k: usize = 0;
        while k < legacy.len()
            invariant
                k <= legacy@.len(),
                out@.no_duplicates(),
                forall|f: Format|
                    out@.contains(f) <==> (f.modifier == MODIFIER_INVALID && legacy@.contains(
                        f.code,
                    )) || (f.modifier == MODIFIER_LINEAR && legacy@.take(k as int).contains(
                        f.code,
                    )),
            decreases legacy@.len() - k,
        {
            proof {
                broadcast use vstd::seq_lib::lemma_seq_contains_after_push;

                assert(legacy@.take(k + 1) =~= legacy@.take(k as int).push(legacy@[k as int]));
            }
            push_unique(&mut out, Format { code: legacy[k], modifier: MODIFIER_LINEAR });
            k = k + 1;
        }
        assert(legacy@.take(k as int) =~= legacy@);
    }
    assert forall|f: Format|
        out@.contains(f) <==> collected(legacy@, advertised@, has_modifiers, is_cursor, f) by {}
    if out.len() == 0 {
        proof {
            if legacy@.len() > 0 {
                let f = Format { code: legacy@[0], modifier: MODIFIER_INVALID };
                assert(legacy@.contains(f.code));
                assert(out@.contains(f));
            }
            if has_modifiers && advertised@.len() > 0 {
                assert(advertised@.contains(advertised@[0]));
                assert(out@.contains(advertised@[0]));
            }
        }
        out.push(Format { code: FOURCC_ARGB8888, modifier: MODIFIER_INVALID });
        assert(out@ =~= seq![default_format()]);
        assert(out@.to_set() =~= set![default_format()]) by {
            assert forall|f: Format| out@.to_set().contains(f) <==> f == default_format() by {
                if f == default_format() {
                    assert(out@[0] == f);
                }
            }
        }
    } else {
        proof {
            let f = out@[0];
            assert(out@.contains(f));
            assert(out@.to_set() =~= Set::new(
                |f: Format| collected(legacy@, advertised@, has_modifiers, is_cursor, f),
            ));
        }
    }
    out
}

/// Whether a plane supports the pair `f`, given the codes `legacy` of its
/// plain format list, whether the driver takes modifiers, the plane's format
/// table if it has one, and whether it is a cursor plane.
pub open spec fn format_supported(
    legacy: Seq<u32>,
    has_modifiers: bool,
    in_formats: Option<Seq<u8>>,
    order: ByteOrder,
    is_cursor: bool,
    f: Format,
) -> bool {
    &&& fourcc_recognized(f.code)
    &&& {
        ||| f.modifier == MODIFIER_INVALID && legacy.contains(f.code)
        ||| has_modifiers && in_formats is Some && advertises(in_formats->0, order, f)
        ||| !has_modifiers && is_cursor && f.modifier == MODIFIER_LINEAR && legacy.contains(
            f.code,
        )
    }
}

/// The set of pairs that a plane supports; the default format alone where
/// it would be empty.
pub open spec fn spec_supported_formats(
    legacy: Seq<u32>,
    has_modifiers: bool,
    in_formats: Option<Seq<u8>>,
    order: ByteOrder,
    is_cursor: bool,
) -> Set<Format> {
    let found = Set::new(
        |f: Format| format_supported(legacy, has_modifiers, in_formats, order, is_cursor, f),
    );
    if found == Set::<Format>::empty() {
        set![default_format()]
    } else {
        found
    }
}

/// Every pair that a plane supports comes without a modifier, or is
/// advertised by the plane's format table, or is the linear layout on a
/// cursor plane.
pub proof fn lemma_supported_has_source(
    legacy: Seq<u32>,
    has_modifiers: bool,
    in_formats: Option<Seq<u8>>,
    order: ByteOrder,
    is_cursor: bool,
    f: Format,
)
    requires
        spec_supported_formats(legacy, has_modifiers, in_formats, order, is_cursor).contains(f),
    ensures
        f.modifier == MODIFIER_INVALID || (in_formats is Some && advertises(
            in_formats->0,
            order,
            f,
        )) || (is_cursor && f.modifier == MODIFIER_LINEAR),
{
}

/// The view of an optional blob.
pub open spec fn blob_view(blob: Option<&[u8]>) -> Option<Seq<u8>> {
    match blob {
        Some(b) => Some(b@),
        None => None,
    }
}

/// Enumerates the formats that a plane supports.
///
/// `legacy` is the plane's plain format list, `in_formats` its format table
/// where the plane has one, in the byte order `order`. Codes that are not
/// recognized fourcc codes are left out. No pair comes twice in the result.
pub fn supported_formats(
    legacy: &Vec<u32>,
    has_modifiers: bool,
    in_formats: Option<&[u8]>,
    order: ByteOrder,
    is_cursor: bool,
) -> (out: Vec<Format>)
    ensures
        out@.no_duplicates(),
        out@.to_set() == spec_supported_formats(
            legacy@,
            has_modifiers,
            blob_view(in_formats),
            order,
            is_cursor,
        ),
        forall|f: Format| #[trigger]
            out@.contains(f) ==> f.modifier == MODIFIER_INVALID || (in_formats is Some
                && advertises(in_formats->0@, order, f)) || (is_cursor && f.modifier
                == MODIFIER_LINEAR),
{
    let known: Vec<u32> = recognized_codes(legacy);
    let advertised: Vec<Format> = if has_modifiers {
        match in_formats {
            Some(blob) => {
                let all = decode_in_formats(blob, order);
                recognized_formats(&all)
            },
            None => Vec::new(),
        }
    } else {
        Vec::new()
    };
    let out = collect_formats(&known, &advertised, has_modifiers, is_cursor);
    proof {
        let view = blob_view(in_formats);
        let found = Set::new(
            |f: Format| format_supported(legacy@, has_modifiers, view, order, is_cursor, f),
        );
        let gathered = Set::new(
            |f: Format| collected(known@, advertised@, has_modifiers, is_cursor, f),
        );
        assert forall|f: Format| gathered.contains(f) == found.contains(f) by {}
        assert(gathered =~= found);
        if known@.len() == 0 && !(has_modifiers && advertised@.len() > 0) {
            assert forall|f: Format| !found.contains(f) by {
                if found.contains(f) {
                    if known@.contains(f.code) {
                        let k = choose|k: int| 0 <= k < known@.len() && known@[k] == f.code;
                    }
                    if advertised@.contains(f) {
                        let k = choose|k: int| 0 <= k < advertised@.len() && advertised@[k] == f;
                    }
                }
            }
            assert(found =~= Set::<Format>::empty());
        } else {
            if known@.len() > 0 {
                let f = Format { code: known@[0], modifier: MODIFIER_INVALID };
                assert(known@.contains(f.code));
                assert(found.contains(f));
            } else {
                let f = advertised@[0];
                assert(advertised@.contains(f));
                assert(found.contains(f));
            }
            assert(found != Set::<Format>::empty());
        }
        assert forall|f: Format| #[trigger]
            out@.contains(f) implies f.modifier == MODIFIER_INVALID || (in_formats is Some
            && advertises(in_formats->0@, order, f)) || (is_cursor && f.modifier
            == MODIFIER_LINEAR) by {
            assert(out@.to_set().contains(f));
        }
    }
    out
}

} // verus!
