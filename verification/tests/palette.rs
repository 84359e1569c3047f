use eye_care::palette::{palette_entry, ColorCycle, Rgba, PALETTE_LEN};

#[test]
fn palette_holds_the_eight_colours_in_order() {
    let expected: [[u8; 4]; 8] = [
        [0xFF, 0xFF, 0xFF, 0xFF],
        [0x00, 0x00, 0x00, 0xFF],
        [0x00, 0xFF, 0x00, 0xFF],
        [0x00, 0x00, 0xFF, 0xFF],
        [0xFF, 0xFF, 0x00, 0xFF],
        [0xFF, 0xA5, 0x00, 0xFF],
        [0x00, 0xFF, 0xFF, 0xFF],
        [0xFF, 0x00, 0x00, 0xFF],
    ];
    assert_eq!(PALETTE_LEN, 8);
    for i in 0..PALETTE_LEN {
        assert_eq!(palette_entry(i).to_bytes(), expected[i]);
    }
}

#[test]
fn new_cycle_starts_on_white() {
    let cycle = ColorCycle::new();
    assert_eq!(cycle.index(), 0);
    assert_eq!(cycle.current(), Rgba { r: 0xFF, g: 0xFF, b: 0xFF, a: 0xFF });
}

#[test]
fn current_does_not_move_the_cursor() {
    let mut cycle = ColorCycle::new();
    cycle.advance();
    let first = cycle.current();
    let second = cycle.current();
    assert_eq!(first, second);
    assert_eq!(cycle.index(), 1);
    assert_eq!(first, Rgba { r: 0x00, g: 0x00, b: 0x00, a: 0xFF });
}

#[test]
fn advance_walks_the_palette_and_wraps() {
    let mut cycle = ColorCycle::new();
    for step in 1..=20usize {
        cycle.advance();
        assert_eq!(cycle.index(), step % 8);
        assert_eq!(cycle.current(), palette_entry(step % 8));
    }
}

#[test]
fn eight_advances_return_to_the_start() {
    for start in 0..8usize {
        let mut cycle = ColorCycle::new();
        for _ in 0..start {
            cycle.advance();
        }
        assert_eq!(cycle.index(), start);
        for _ in 0..8 {
            cycle.advance();
        }
        assert_eq!(cycle.index(), start);
    }
}

#[test]
fn seventh_position_wraps_to_zero() {
    let mut cycle = ColorCycle::new();
    for _ in 0..7 {
        cycle.advance();
    }
    assert_eq!(cycle.index(), 7);
    assert_eq!(cycle.current(), Rgba { r: 0xFF, g: 0x00, b: 0x00, a: 0xFF });
    cycle.advance();
    assert_eq!(cycle.index(), 0);
}
