use stutterclock::RandomSource;

/// Reference model of the generator, computed independently: shift
/// right, feed the tap mask back when the extracted bit was one.
fn reference_step(r: u16) -> (u16, u16) {
    let lsb = r & 1;
    let shifted = r >> 1;
    if lsb != 0 {
        (shifted ^ 0xB400, lsb)
    } else {
        (shifted, lsb)
    }
}

fn reference_draw(r: u16) -> (u16, u8) {
    let mut reg = r;
    let mut draw: u8 = 0;
    for _ in 0..4 {
        let (next, bit) = reference_step(reg);
        draw = (draw << 1) | (bit as u8);
        reg = next;
    }
    (reg, draw)
}

#[test]
fn lfsr_never_reaches_zero_default_seed() {
    let mut src = RandomSource::new(0xACE1);
    for _ in 0..10_000 {
        let draw = src.next4();
        assert!(draw < 16);
        assert_ne!(src.reg, 0);
    }
}

#[test]
fn lfsr_never_reaches_zero_other_seeds() {
    for seed in [1u16, 2, 0x8000, 0xFFFF, 0xB400, 0x1234] {
        let mut src = RandomSource::new(seed);
        for _ in 0..4_096 {
            src.next4();
            assert_ne!(src.reg, 0);
        }
    }
}

#[test]
fn lfsr_first_draw_hand_computed() {
    // From 0xACE1: step 1 extracts 1 and gives (0xACE1 >> 1) ^ 0xB400
    // = 0x5670 ^ 0xB400 = 0xE270; steps 2..4 extract 0, 0, 0 and give
    // 0x7138, 0x389C, 0x1C4E. Most-significant-first, the draw is
    // 0b1000 = 8.
    let mut src = RandomSource::new(0xACE1);
    let draw = src.next4();
    assert_eq!(draw, 8);
    assert_eq!(src.reg, 0x1C4E);
}

#[test]
fn lfsr_matches_reference_model() {
    let mut src = RandomSource::new(0xACE1);
    let mut reg: u16 = 0xACE1;
    for _ in 0..1_000 {
        let (next, expect) = reference_draw(reg);
        let draw = src.next4();
        assert_eq!(draw, expect);
        assert_eq!(src.reg, next);
        reg = next;
    }
}
