//! Pixel FIFO: push/pop order, capacity discipline, and the sprite mixing
//! priority rules.

use gb_emu_core::fifo::{Fifo, PixelType, SpritePriorityMode};
use gb_emu_core::sprite::Sprite;

fn sprite_with_flags(flags: u8) -> Sprite {
    let mut s = Sprite::new();
    s.set_at_offset(3, flags);
    s
}

#[test]
fn push_and_pop_keep_order() {
    let mut fifo = Fifo::new();
    assert_eq!(fifo.len(), 0);
    fifo.push_bg([0, 1, 2, 3, 0, 1, 2, 3], 0xE4, false);
    assert_eq!(fifo.len(), 8);
    for expect in [0u8, 1, 2, 3, 0, 1, 2, 3] {
        let p = fifo.pop();
        assert_eq!(p.color, expect);
        assert_eq!(p.palette, 0xE4);
        assert!(matches!(p.pixel_type, PixelType::Background(false)));
    }
    assert_eq!(fifo.len(), 0);
}

#[test]
fn two_batches_fill_the_ring() {
    let mut fifo = Fifo::new();
    fifo.push_bg([1; 8], 0, false);
    fifo.push_bg([2; 8], 0, false);
    assert_eq!(fifo.len(), 16);
    for _ in 0..8 {
        assert_eq!(fifo.pop().color, 1);
    }
    for _ in 0..8 {
        assert_eq!(fifo.pop().color, 2);
    }
}

#[test]
fn clear_empties_the_ring() {
    let mut fifo = Fifo::new();
    fifo.push_bg([3; 8], 0, false);
    fifo.clear();
    assert_eq!(fifo.len(), 0);
}

#[test]
fn sprite_wins_over_background_zero() {
    let mut fifo = Fifo::new();
    fifo.push_bg([0; 8], 0xE4, false);
    let meta = sprite_with_flags(0);
    fifo.mix_sprite([3; 8], 5, &meta, 0xD2, SpritePriorityMode::ByCoord, false);
    let p = fifo.pop();
    assert_eq!(p.color, 3);
    assert_eq!(p.palette, 0xD2);
    assert!(matches!(p.pixel_type, PixelType::Sprite { dmg_palette: 0, index: 5 }));
}

#[test]
fn transparent_sprite_pixel_never_wins() {
    let mut fifo = Fifo::new();
    fifo.push_bg([0; 8], 0xE4, false);
    let meta = sprite_with_flags(0);
    fifo.mix_sprite([0; 8], 5, &meta, 0xD2, SpritePriorityMode::ByCoord, false);
    let p = fifo.pop();
    assert_eq!(p.color, 0);
    assert!(matches!(p.pixel_type, PixelType::Background(false)));
}

#[test]
fn oam_bg_priority_hides_sprite_behind_nonzero_background() {
    let mut fifo = Fifo::new();
    fifo.push_bg([2; 8], 0xE4, false);
    // Flag bit 7: the sprite goes behind background colors 1..4.
    let meta = sprite_with_flags(0x80);
    fifo.mix_sprite([3; 8], 0, &meta, 0xD2, SpritePriorityMode::ByCoord, false);
    let p = fifo.pop();
    assert_eq!(p.color, 2, "background kept");
    // Over background color 0 the same sprite shows.
    let mut fifo = Fifo::new();
    fifo.push_bg([0; 8], 0xE4, false);
    fifo.mix_sprite([3; 8], 0, &meta, 0xD2, SpritePriorityMode::ByCoord, false);
    assert_eq!(fifo.pop().color, 3);
}

#[test]
fn master_priority_overrides_background_priority() {
    let mut fifo = Fifo::new();
    fifo.push_bg([2; 8], 0xE4, true);
    let meta = sprite_with_flags(0x80);
    fifo.mix_sprite([3; 8], 0, &meta, 0xD2, SpritePriorityMode::ByCoord, true);
    assert_eq!(fifo.pop().color, 3, "master priority forces the sprite");
}

#[test]
fn sprite_over_sprite_by_coordinate() {
    // DMG: the sprite mixed first (leftmost x) keeps every pixel it
    // colored; the later one only fills the holes.
    let mut fifo = Fifo::new();
    fifo.push_bg([0; 8], 0xE4, false);
    let meta = sprite_with_flags(0);
    fifo.mix_sprite([1, 0, 1, 0, 1, 0, 1, 0], 3, &meta, 0, SpritePriorityMode::ByCoord, false);
    fifo.mix_sprite([2; 8], 1, &meta, 0, SpritePriorityMode::ByCoord, false);
    let expect = [1u8, 2, 1, 2, 1, 2, 1, 2];
    for (i, e) in expect.iter().enumerate() {
        let p = fifo.pop();
        assert_eq!(p.color, *e, "pixel {i}");
    }
}

#[test]
fn sprite_over_sprite_by_index() {
    // CGB: a lower OAM index wins even where the earlier-mixed sprite drew.
    let mut fifo = Fifo::new();
    fifo.push_bg([0; 8], 0xE4, false);
    let meta = sprite_with_flags(0);
    fifo.mix_sprite([1; 8], 3, &meta, 0, SpritePriorityMode::ByIndex, false);
    fifo.mix_sprite([2; 8], 1, &meta, 0, SpritePriorityMode::ByIndex, false);
    for _ in 0..8 {
        assert_eq!(fifo.pop().color, 2);
    }
    // And a higher index loses.
    let mut fifo = Fifo::new();
    fifo.push_bg([0; 8], 0xE4, false);
    fifo.mix_sprite([1; 8], 1, &meta, 0, SpritePriorityMode::ByIndex, false);
    fifo.mix_sprite([2; 8], 3, &meta, 0, SpritePriorityMode::ByIndex, false);
    for _ in 0..8 {
        assert_eq!(fifo.pop().color, 1);
    }
}

#[test]
fn mixing_touches_only_the_leading_eight() {
    let mut fifo = Fifo::new();
    fifo.push_bg([0; 8], 0xE4, false);
    fifo.push_bg([0; 8], 0xE4, false);
    let meta = sprite_with_flags(0);
    fifo.mix_sprite([3; 8], 0, &meta, 0, SpritePriorityMode::ByCoord, false);
    for _ in 0..8 {
        assert_eq!(fifo.pop().color, 3);
    }
    for _ in 0..8 {
        assert_eq!(fifo.pop().color, 0, "trailing pixels untouched");
    }
}

#[test]
fn sprite_metadata_flags_decode() {
    let s = sprite_with_flags(0xFF);
    assert!(s.bg_priority());
    assert!(s.y_flipped());
    assert!(s.x_flipped());
    assert_eq!(s.palette_selector(), 1);
    assert_eq!(s.cgb_palette(), 7);
    assert_eq!(s.bank(), 1);
    let mut s = Sprite::new();
    s.set_at_offset(0, 40);
    s.set_at_offset(1, 20);
    s.set_at_offset(2, 7);
    assert_eq!(s.y(), 40);
    assert_eq!(s.x(), 20);
    assert_eq!(s.tile(), 7);
    assert_eq!(s.screen_y(), 24);
    assert_eq!(s.screen_x(), 12);
    assert_eq!(s.get_at_offset(0), 40);
    assert_eq!(s.get_at_offset(3), 0);
}
