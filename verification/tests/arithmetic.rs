use microcode_cpu::alu::alu;
use microcode_cpu::bits::u4;

#[test]
fn u4_keeps_the_low_nibble_of_every_byte() {
    for x in 0u8..=255 {
        assert_eq!(u4(x), x & 0x0f);
        assert_eq!(u4(x), x % 16);
    }
}

#[test]
fn u4_examples() {
    assert_eq!(u4(0x00), 0x00);
    assert_eq!(u4(0x0f), 0x0f);
    assert_eq!(u4(0x10), 0x00);
    assert_eq!(u4(0xab), 0x0b);
    assert_eq!(u4(0xf0), 0x00);
    assert_eq!(u4(0xff), 0x0f);
}

#[test]
fn alu_adds_every_pair_modulo_256() {
    for a in 0u16..256 {
        for b in 0u16..256 {
            let (sum, carry) = alu(a as u8, b as u8, false);
            assert_eq!(sum as u16, (a + b) % 256);
            assert_eq!(carry, a + b >= 256);
        }
    }
}

#[test]
fn alu_subtracts_every_pair_modulo_256() {
    for a in 0i32..256 {
        for b in 0i32..256 {
            let (sum, carry) = alu(a as u8, b as u8, true);
            assert_eq!(sum as i32, (a - b).rem_euclid(256));
            assert_eq!(carry, a < b);
        }
    }
}

#[test]
fn alu_agrees_with_overflowing_arithmetic() {
    for a in 0u8..=255 {
        for b in 0u8..=255 {
            assert_eq!(alu(a, b, false), a.overflowing_add(b));
            assert_eq!(alu(a, b, true), a.overflowing_sub(b));
        }
    }
}

#[test]
fn alu_examples() {
    assert_eq!(alu(0, 0, false), (0, false));
    assert_eq!(alu(1, 2, false), (3, false));
    assert_eq!(alu(200, 100, false), (44, true));
    assert_eq!(alu(255, 1, false), (0, true));
    assert_eq!(alu(255, 255, false), (254, true));
    assert_eq!(alu(128, 127, false), (255, false));
    assert_eq!(alu(10, 5, true), (5, false));
    assert_eq!(alu(5, 10, true), (251, true));
    assert_eq!(alu(0, 1, true), (255, true));
    assert_eq!(alu(0, 255, true), (1, true));
    assert_eq!(alu(7, 7, true), (0, false));
    assert_eq!(alu(0, 0, true), (0, false));
}
