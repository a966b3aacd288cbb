use rust8::display::{Display, ScreenPixel, Sprite, HEIGHT, WIDTH};
use rust8::memory::Memory;

fn set_cells(d: &Display) -> Vec<(usize, usize)> {
    let mut out = Vec::new();
    for y in 0..HEIGHT {
        for x in 0..WIDTH {
            if d.pixel(x, y) {
                out.push((x, y));
            }
        }
    }
    out
}

#[test]
fn sprite_wraps_at_right_edge() {
    let mut d = Display::new();
    let mut mem = Memory::new();
    d.push_sprite(Sprite::new(vec![0xFF], 60, 0), &mut mem);
    for x in [60, 61, 62, 63, 0, 1, 2, 3] {
        assert!(d.pixel(x, 0), "column {} of row 0", x);
    }
    assert_eq!(set_cells(&d).len(), 8);
    assert_eq!(mem.v_regs[15], 0);
}

#[test]
fn sprite_wraps_at_bottom_edge() {
    let mut d = Display::new();
    let mut mem = Memory::new();
    d.push_sprite(Sprite::new(vec![0x80, 0x80, 0x80], 0, 31), &mut mem);
    assert_eq!(set_cells(&d), vec![(0, 0), (0, 1), (0, 31)]);
}

#[test]
fn sprite_bits_most_significant_leftmost() {
    let s = Sprite::new(vec![0b1000_0001], 10, 5);
    assert_eq!(s.pixels.len(), 8);
    // bit 0 first: the rightmost pixel
    assert_eq!(s.pixels[0], ScreenPixel::new(17, 5, true));
    assert_eq!(s.pixels[1], ScreenPixel::new(16, 5, false));
    assert_eq!(s.pixels[7], ScreenPixel::new(10, 5, true));
    assert_eq!(s.x, 10);
    assert_eq!(s.y, 5);
}

#[test]
fn sprite_coordinates_reduce_modulo_grid() {
    let s = Sprite::new(vec![0x80], 64 + 3, 32 + 2);
    assert_eq!(s.pixels[7], ScreenPixel::new(3, 2, true));
}

#[test]
fn clear_then_composite_matches_fresh_grid() {
    let rows = vec![0xF0, 0x90, 0x90, 0x90, 0xF0];
    let mut mem = Memory::new();
    let mut used = Display::new();
    used.push_sprite(Sprite::new(vec![0xFF, 0x0F, 0xAA], 2, 1), &mut mem);
    used.clear_disp();
    assert!(set_cells(&used).is_empty());
    used.push_sprite(Sprite::new(rows.clone(), 3, 4), &mut mem);
    let mut fresh = Display::new();
    fresh.push_sprite(Sprite::new(rows, 3, 4), &mut mem);
    assert_eq!(set_cells(&used), set_cells(&fresh));
    assert_eq!(set_cells(&fresh).len(), 14);
}

#[test]
fn composite_twice_restores_and_collides() {
    let mut mem = Memory::new();
    let mut d = Display::new();
    d.push_sprite(Sprite::new(vec![0x3C, 0x42], 20, 10), &mut mem);
    let before = set_cells(&d);
    let rows = vec![0xFF, 0x81, 0x81, 0xFF];
    d.push_sprite(Sprite::new(rows.clone(), 18, 9), &mut mem);
    assert_ne!(set_cells(&d), before);
    d.push_sprite(Sprite::new(rows, 18, 9), &mut mem);
    assert_eq!(mem.v_regs[15], 1);
    assert_eq!(set_cells(&d), before);
}

#[test]
fn collision_flag_cleared_without_erasure() {
    let mut mem = Memory::new();
    mem.v_regs[15] = 1;
    let mut d = Display::new();
    d.push_sprite(Sprite::new(vec![0xF0], 0, 0), &mut mem);
    assert_eq!(mem.v_regs[15], 0);
    d.push_sprite(Sprite::new(vec![0x0F], 0, 0), &mut mem);
    assert_eq!(mem.v_regs[15], 0);
    assert_eq!(set_cells(&d).len(), 8);
    d.push_sprite(Sprite::new(vec![0x01], 0, 0), &mut mem);
    assert_eq!(mem.v_regs[15], 1);
    assert!(!d.pixel(7, 0));
}

#[test]
fn empty_sprite_draws_nothing() {
    let mut mem = Memory::new();
    mem.v_regs[15] = 1;
    let mut d = Display::new();
    d.push_sprite(Sprite::new(vec![], 5, 5), &mut mem);
    assert!(set_cells(&d).is_empty());
    assert_eq!(mem.v_regs[15], 0);
}
