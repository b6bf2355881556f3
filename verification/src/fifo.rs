//! The pixel FIFO feeding the LCD: a fixed ring of at most 16 pixels.
//!
//! The background fetcher pushes 8 pixels at a time; sprites are never
//! pushed but mixed into the leading 8 pixels, pixel by pixel, under the
//! DMG/CGB priority rules.

use vstd::prelude::*;

use crate::sprite::Sprite;

verus! {

/// How two overlapping sprites are ranked: by OAM index (CGB) or by the
/// order they were mixed, which follows the OAM scan (DMG).
#[derive(Clone, Copy, PartialEq, Eq, Structural, Debug)]
pub enum SpritePriorityMode {
    ByIndex,
    ByCoord,
}

/// What produced a pixel. Background pixels carry their tile attribute's
/// bg-priority bit; sprite pixels carry the DMG palette selector and the
/// sprite's OAM index.
#[derive(Clone, Copy, PartialEq, Eq, Structural, Debug)]
pub enum PixelType {
    Background(bool),
    Sprite { dmg_palette: u8, index: u8 },
}

/// One entry of the FIFO: a 2-bit color, the palette register value to
/// resolve it through, and its provenance.
#[derive(Clone, Copy, PartialEq, Eq, Structural, Debug)]
pub struct FifoPixel {
    pub color: u8,
    pub palette: u8,
    pub pixel_type: PixelType,
}

impl Default for FifoPixel {
    fn default() -> (r: FifoPixel)
        ensures
            r == (FifoPixel { color: 0, palette: 0, pixel_type: PixelType::Background(false) }),
    {
        FifoPixel { color: 0, palette: 0, pixel_type: PixelType::Background(false) }
    }
}

/// The 16-slot pixel ring from the fixed_vec_deque crate. The type is held
/// opaque; what it holds is exposed through `pixel_deque_items` and the
/// wrappers below, whose contracts the verifier takes on trust.
#[verifier::external_body]
pub struct PixelDeque {
    inner: fixed_vec_deque::FixedVecDeque<[FifoPixel; 16]>,
}

/// The pixels the ring buffer holds, front first.
pub uninterp spec fn pixel_deque_items(q: PixelDeque) -> Seq<FifoPixel>;

/// Relies on FixedVecDeque::new: a freshly constructed ring buffer is empty.
#[verifier::external_body]
fn pixel_deque_new() -> (q: PixelDeque)
    ensures
        pixel_deque_items(q) == (Seq::<FifoPixel>::empty()),
{
    PixelDeque { inner: fixed_vec_deque::FixedVecDeque::new() }
}

/// Relies on FixedVecDeque::len: the number of elements held.
#[verifier::external_body]
fn pixel_deque_len(q: &PixelDeque) -> (n: usize)
    ensures
        n == pixel_deque_items(*q).len(),
{
    q.inner.len()
}

/// Relies on FixedVecDeque::push_back, which appends in place when the ring
/// is not full (when full it would overwrite the front, so that case is
/// excluded here).
#[verifier::external_body]
fn pixel_deque_push_back(q: &mut PixelDeque, p: FifoPixel)
    requires
        pixel_deque_items(*old(q)).len() < 16,
    ensures
        pixel_deque_items(*final(q)) == pixel_deque_items(*old(q)).push(p),
{
    *q.inner.push_back() = p;
}

/// Relies on FixedVecDeque::pop_front: removes and returns the front element.
#[verifier::external_body]
fn pixel_deque_pop_front(q: &mut PixelDeque) -> (p: FifoPixel)
    requires
        pixel_deque_items(*old(q)).len() > 0,
    ensures
        p == pixel_deque_items(*old(q))[0],
        pixel_deque_items(*final(q)) == pixel_deque_items(*old(q)).subrange(
            1,
            pixel_deque_items(*old(q)).len() as int,
        ),
{
    *q.inner.pop_front().unwrap()
}

/// Relies on FixedVecDeque::get: the element at the index, front being 0.
#[verifier::external_body]
fn pixel_deque_get(q: &PixelDeque, i: usize) -> (p: FifoPixel)
    requires
        i < pixel_deque_items(*q).len(),
    ensures
        p == pixel_deque_items(*q)[i as int],
{
    *q.inner.get(i).unwrap()
}

/// Relies on FixedVecDeque::get_mut: writes the element at the index.
#[verifier::external_body]
fn pixel_deque_set(q: &mut PixelDeque, i: usize, p: FifoPixel)
    requires
        i < pixel_deque_items(*old(q)).len(),
    ensures
        pixel_deque_items(*final(q)) == pixel_deque_items(*old(q)).update(i as int, p),
{
    if let Some(slot) = q.inner.get_mut(i) {
        *slot = p;
    }
}

/// Relies on FixedVecDeque::clear: leaves the ring empty.
#[verifier::external_body]
fn pixel_deque_clear(q: &mut PixelDeque)
    ensures
        pixel_deque_items(*final(q)) == (Seq::<FifoPixel>::empty()),
{
    q.inner.clear();
}

/// Whether a sprite pixel replaces the pixel already in the FIFO.
///
/// Over background: a non-zero sprite color wins when the CGB master
/// priority is forced, or when neither the tile attribute nor the OAM
/// attribute asserts background priority, or when the background color is 0.
/// Over another sprite: a non-zero color wins only where the earlier sprite
/// left color 0, except that CGB index priority lets a lower OAM index win.
pub open spec fn spec_sprite_wins(
    existing: FifoPixel,
    sprite_color: u8,
    index: u8,
    oam_bg_priority: bool,
    mode: SpritePriorityMode,
    master_priority: bool,
) -> bool {
    sprite_color != 0 && match existing.pixel_type {
        PixelType::Background(bg_priority) => master_priority || ((!bg_priority || existing.color
            == 0) && (!oam_bg_priority || existing.color == 0)),
        PixelType::Sprite { dmg_palette: _, index: existing_index } => (mode
            == SpritePriorityMode::ByIndex && existing_index > index) || existing.color == 0,
    }
}

/// The FIFO entry after one sprite pixel is mixed over an existing entry.
pub open spec fn spec_mix_pixel(
    existing: FifoPixel,
    sprite_color: u8,
    index: u8,
    oam_bg_priority: bool,
    dmg_palette: u8,
    palette: u8,
    mode: SpritePriorityMode,
    master_priority: bool,
) -> FifoPixel {
    if spec_sprite_wins(existing, sprite_color, index, oam_bg_priority, mode, master_priority) {
        FifoPixel {
            color: sprite_color,
            palette,
            pixel_type: PixelType::Sprite { dmg_palette, index },
        }
    } else {
        existing
    }
}

/// The background pixel FIFO, a ring of at most 16 pixels.
pub struct Fifo {
    pub pixels: PixelDeque,
}

impl View for Fifo {
    type V = Seq<FifoPixel>;

    open spec fn view(&self) -> Seq<FifoPixel> {
        pixel_deque_items(self.pixels)
    }
}

impl Fifo {
    pub fn new() -> (r: Fifo)
        ensures
            r@ == (Seq::<FifoPixel>::empty()),
    {
        Fifo { pixels: pixel_deque_new() }
    }

    pub fn len(&self) -> (n: usize)
        ensures
            n == self@.len(),
    {
        pixel_deque_len(&self.pixels)
    }

    /// Remove and return the front pixel.
    pub fn pop(&mut self) -> (p: FifoPixel)
        requires
            old(self)@.len() > 0,
        ensures
            p == old(self)@[0],
            final(self)@ == old(self)@.subrange(1, old(self)@.len() as int),
    {
        pixel_deque_pop_front(&mut self.pixels)
    }

    /// Append one fetched batch of 8 background pixels.
    #[verifier::loop_isolation(false)]
    pub fn push_bg(&mut self, colors: [u8; 8], palette: u8, bg_priority: bool)
        requires
            old(self)@.len() + 8 <= 16,
        ensures
            final(self)@ == old(self)@ + Seq::new(
                8,
                |j: int|
                    (FifoPixel {
                        color: colors[j],
                        palette,
                        pixel_type: PixelType::Background(bg_priority),
                    }),
            ),
    {
        let ghost target = old(self)@ + Seq::new(
            8,
            |j: int|
                (FifoPixel {
                    color: colors[j],
                    palette,
                    pixel_type: PixelType::Background(bg_priority),
                }),
        );
        let mut i: usize = 0;
        while i < 8
            invariant
                i <= 8,
                self@.len() == old(self)@.len() + i,
                self@ == target.take(old(self)@.len() + i as int),
            decreases 8 - i,
        {
            let p = FifoPixel {
                color: colors[i],
                palette,
                pixel_type: PixelType::Background(bg_priority),
            };
            proof {
                assert(target.take(old(self)@.len() + (i + 1) as int) =~= target.take(
                    old(self)@.len() + i as int,
                ).push(p));
            }
            pixel_deque_push_back(&mut self.pixels, p);
            i = i + 1;
        }
        proof {
            assert(self@ =~= target);
        }
    }

    /// Whether this sprite pixel replaces the given FIFO entry.
    fn sprite_wins(
        existing: &FifoPixel,
        sprite_color: u8,
        index: u8,
        oam_bg_priority: bool,
        mode: SpritePriorityMode,
        master_priority: bool,
    ) -> (r: bool)
        ensures
            r == spec_sprite_wins(
                *existing,
                sprite_color,
                index,
                oam_bg_priority,
                mode,
                master_priority,
            ),
    {
        if sprite_color == 0 {
            return false;
        }
        match existing.pixel_type {
            PixelType::Background(bg_priority) => master_priority || ((!bg_priority
                || existing.color == 0) && (!oam_bg_priority || existing.color == 0)),
            PixelType::Sprite { dmg_palette: _, index: existing_index } => (mode
                == SpritePriorityMode::ByIndex && existing_index > index) || existing.color == 0,
        }
    }

    /// Mix one sprite's 8-pixel row into the leading 8 entries of the FIFO.
    /// Sprites are only ever mixed, never pushed, so the FIFO must already
    /// hold at least 8 pixels.
    #[verifier::loop_isolation(false)]
    pub fn mix_sprite(
        &mut self,
        colors: [u8; 8],
        index: u8,
        sprite_meta: &Sprite,
        palette: u8,
        sprite_priority_mode: SpritePriorityMode,
        master_priority: bool,
    )
        requires
            old(self)@.len() >= 8,
        ensures
            final(self)@.len() == old(self)@.len(),
            forall|i: int|
                0 <= i < 8 ==> final(self)@[i] == spec_mix_pixel(
                    old(self)@[i],
                    colors[i],
                    index,
                    sprite_meta.flags & 0x80u8 != 0,
                    if sprite_meta.flags & 0x10u8 != 0 { 1u8 } else { 0u8 },
                    palette,
                    sprite_priority_mode,
                    master_priority,
                ),
            forall|i: int| 8 <= i < old(self)@.len() ==> final(self)@[i] == old(self)@[i],
    {
        let oam_bg_priority: bool = sprite_meta.bg_priority();
        let dmg_palette: u8 = sprite_meta.palette_selector();
        let mut i: usize = 0;
        while i < 8
            invariant
                i <= 8,
                self@.len() == old(self)@.len(),
                old(self)@.len() >= 8,
                oam_bg_priority == (sprite_meta.flags & 0x80u8 != 0),
                dmg_palette == (if sprite_meta.flags & 0x10u8 != 0 { 1u8 } else { 0u8 }),
                forall|j: int|
                    0 <= j < i ==> self@[j] == spec_mix_pixel(
                        old(self)@[j],
                        colors[j],
                        index,
                        sprite_meta.flags & 0x80u8 != 0,
                        if sprite_meta.flags & 0x10u8 != 0 { 1u8 } else { 0u8 },
                        palette,
                        sprite_priority_mode,
                        master_priority,
                    ),
                forall|j: int| i <= j < old(self)@.len() ==> self@[j] == old(self)@[j],
            decreases 8 - i,
        {
            let existing: FifoPixel = pixel_deque_get(&self.pixels, i);
            let sprite_color: u8 = colors[i];
            if Self::sprite_wins(
                &existing,
                sprite_color,
                index,
                oam_bg_priority,
                sprite_priority_mode,
                master_priority,
            ) {
                let p = FifoPixel {
                    color: sprite_color,
                    palette,
                    pixel_type: PixelType::Sprite { dmg_palette, index },
                };
                pixel_deque_set(&mut self.pixels, i, p);
            }
            i = i + 1;
        }
    }

    pub fn clear(&mut self)
        ensures
            final(self)@ == (Seq::<FifoPixel>::empty()),
    {
        pixel_deque_clear(&mut self.pixels);
    }
}

} // verus!
