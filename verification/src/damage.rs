//! Damage clips of a plane: the rectangles of a framebuffer that changed,
//! marshalled for the kernel.

use vstd::prelude::*;
use crate::blob::{spec_i32_bytes, write_i32, ByteOrder};
use crate::geometry::Rectangle;

verus! {

/// The size in bytes of one marshalled clip.
pub const CLIP_BYTES: usize = 16;

/// The sum of `a` and `b`, held to the range of `i32`.
pub open spec fn spec_saturating_add(a: i32, b: i32) -> i32 {
    if a + b > i32::MAX {
        i32::MAX
    } else if a + b < i32::MIN {
        i32::MIN
    } else {
        (a + b) as i32
    }
}

/// The sum of `a` and `b`, held to the range of `i32`.
#[verifier::when_used_as_spec(spec_saturating_add)]
pub fn saturating_add(a: i32, b: i32) -> (s: i32)
    ensures
        s == spec_saturating_add(a, b),
{
    let wide: i64 = a as i64 + b as i64;
    if wide > i32::MAX as i64 {
        i32::MAX
    } else if wide < i32::MIN as i64 {
        i32::MIN
    } else {
        wide as i32
    }
}

/// A clip as the kernel reads it: two corners, the second one past the end.
#[derive(Clone, Copy, Debug, PartialEq, Eq, Structural)]
pub struct DamageClip {
    pub x1: i32,
    pub y1: i32,
    pub x2: i32,
    pub y2: i32,
}

/// The clip that covers `rect`. The far corner saturates.
pub open spec fn spec_clip_of(rect: Rectangle) -> DamageClip {
    DamageClip {
        x1: rect.loc.x,
        y1: rect.loc.y,
        x2: spec_saturating_add(rect.loc.x, rect.size.w),
        y2: spec_saturating_add(rect.loc.y, rect.size.h),
    }
}

/// The clip that covers `rect`.
#[verifier::when_used_as_spec(spec_clip_of)]
pub fn clip_of(rect: Rectangle) -> (c: DamageClip)
    ensures
        c == spec_clip_of(rect),
{
    DamageClip {
        x1: rect.loc.x,
        y1: rect.loc.y,
        x2: saturating_add(rect.loc.x, rect.size.w),
        y2: saturating_add(rect.loc.y, rect.size.h),
    }
}

/// The sixteen bytes of one clip: `x1`, `y1`, `x2`, `y2`, each a signed
/// 32-bit integer.
pub open spec fn spec_clip_bytes(c: DamageClip, order: ByteOrder) -> Seq<u8> {
    spec_i32_bytes(c.x1, order) + spec_i32_bytes(c.y1, order) + spec_i32_bytes(c.x2, order)
        + spec_i32_bytes(c.y2, order)
}

/// The packed array of the clips of `rects`, one after the other.
pub open spec fn spec_damage_blob(rects: Seq<Rectangle>, order: ByteOrder) -> Seq<u8>
    decreases rects.len(),
{
    if rects.len() == 0 {
        Seq::<u8>::empty()
    } else {
        spec_damage_blob(rects.drop_last(), order) + spec_clip_bytes(
            spec_clip_of(rects.last()),
            order,
        )
    }
}

/// The packed array of the clips of `rects` holds sixteen bytes for each.
pub proof fn lemma_damage_blob_len(rects: Seq<Rectangle>, order: ByteOrder)
    ensures
        spec_damage_blob(rects, order).len() == 16 * rects.len(),
    decreases rects.len(),
{
    if rects.len() > 0 {
        lemma_damage_blob_len(rects.drop_last(), order);
    }
}

/// The damage clips of a plane, as a kernel property blob.
///
/// The value names a blob that was created from the bytes that
/// [`PlaneDamageClips::from_damage`] returns. Whoever created the blob
/// destroys it when the last holder lets go of it.
#[derive(Clone, Copy, Debug, PartialEq, Eq, Structural)]
pub struct PlaneDamageClips {
    blob: u64,
}

impl PlaneDamageClips {
    /// The handle of the blob with the identifier `blob`.
    pub fn new(blob: u64) -> (clips: PlaneDamageClips)
        ensures
            clips.spec_blob() == blob,
    {
        PlaneDamageClips { blob }
    }

    /// The identifier of the blob.
    pub closed spec fn spec_blob(&self) -> u64 {
        self.blob
    }

    /// The identifier of the blob.
    #[verifier::when_used_as_spec(spec_blob)]
    pub fn blob(&self) -> (id: u64)
        ensures
            id == self.spec_blob(),
    {
        self.blob
    }

    /// The contents of the blob for the damage `damage`, whose rectangles
    /// are in buffer coordinates: nothing where there is no damage, else the
    /// packed array of their clips in the byte order `order`.
    pub fn from_damage(damage: &Vec<Rectangle>, order: ByteOrder) -> (data: Option<Vec<u8>>)
        ensures
            data is None <==> damage@.len() == 0,
            data matches Some(bytes) ==> bytes@ == spec_damage_blob(damage@, order)
                && bytes@.len() == 16 * damage@.len(),
    {
        if damage.len() == 0 {
            return None;
        }
        let mut bytes: Vec<u8> = Vec::new();
        let mut i: usize = 0;
        assert(damage@.take(0) =~= Seq::<Rectangle>::empty());
        while i < damage.len()
            invariant
                i <= damage@.len(),
                bytes@ == spec_damage_blob(damage@.take(i as int), order),
            decreases damage@.len() - i,
        {
            let clip = clip_of(damage[i]);
            proof {
                let next = damage@.take(i + 1);
                assert(next.drop_last() =~= damage@.take(i as int));
                assert(next.last() == damage@[i as int]);
            }
            let ghost before = bytes@;
            write_i32(&mut bytes, clip.x1, order);
            write_i32(&mut bytes, clip.y1, order);
            write_i32(&mut bytes, clip.x2, order);
            write_i32(&mut bytes, clip.y2, order);
            assert(bytes@ =~= before + spec_clip_bytes(clip, order));
            i = i + 1;
        }
        proof {
            assert(damage@.take(i as int) =~= damage@);
            lemma_damage_blob_len(damage@, order);
        }
        Some(bytes)
    }
}

} // verus!
