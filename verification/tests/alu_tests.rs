use emu_intel_8088::alu::{
    aaa, aas, adc16, adc8, add16, add8, cmp16, cmp8, daa, das, dec16, dec8, inc16, inc8, neg16,
    neg8, sbb16, sbb8, sub16, sub8,
};
use emu_intel_8088::flags::Flags;

fn set_flags(carry: bool, parity: bool, aux: bool, zero: bool, sign: bool, overflow: bool) -> Flags {
    Flags {
        carry,
        parity,
        auxiliary_carry: aux,
        zero,
        sign,
        trap: false,
        interrupt: false,
        direction: false,
        overflow,
    }
}

#[test]
fn alu_test_das() {
    assert_eq!(
        (0x88, set_flags(true, true, true, false, true, false)),
        das(0xEE, Flags::empty())
    );
}

#[test]
fn alu_test_aas() {
    assert_eq!(
        (0x507, Flags::empty()),
        aas(0x5C7, set_flags(true, false, false, false, true, false))
    );
}

#[test]
fn alu_test_daa() {
    assert_eq!(
        (0x14, set_flags(true, true, true, false, false, true)),
        daa(0xAE, set_flags(false, false, false, false, true, false))
    );
}

#[test]
fn alu_test_aaa() {
    assert_eq!(
        (257, set_flags(true, false, true, false, false, false)),
        aaa(11, Flags::empty())
    );
}

#[test]
fn alu_test_cmp16() {
    assert_eq!(
        set_flags(false, true, false, true, false, false),
        cmp16(0x55FF, 0x55FF)
    );
    assert_eq!(Flags::empty(), cmp16(0xFF01, 0xFF00));
    assert_eq!(
        set_flags(false, false, true, false, false, false),
        cmp16(281, 267)
    );
    assert_eq!(
        set_flags(true, true, true, false, true, false),
        cmp16(294, 375)
    );
    assert_eq!(
        set_flags(false, false, true, false, false, true),
        cmp16(32768, 32767)
    );
}

#[test]
fn alu_test_cmp8() {
    assert_eq!(
        set_flags(false, true, false, true, false, false),
        cmp8(0x55, 0x55)
    );
    assert_eq!(Flags::empty(), cmp8(3, 2));
    assert_eq!(
        set_flags(false, false, true, false, false, false),
        cmp8(25, 11)
    );
    assert_eq!(set_flags(true, true, true, false, true, false), cmp8(38, 119));
    assert_eq!(
        set_flags(false, false, true, false, false, true),
        cmp8(128, 127)
    );
}

#[test]
fn alu_test_neg16() {
    assert_eq!((0xFFF5, set_flags(true, true, true, false, true, false)), neg16(11));
    assert_eq!(
        (0x7FF0, set_flags(true, true, false, false, false, false)),
        neg16(0x8010)
    );
    assert_eq!((0, set_flags(false, true, false, true, false, false)), neg16(0));
    assert_eq!(
        (0x8000, set_flags(true, true, false, false, true, true)),
        neg16(0x8000)
    );
}

#[test]
fn alu_test_neg8() {
    assert_eq!((245, set_flags(true, true, true, false, true, false)), neg8(11));
    assert_eq!(
        (56, set_flags(true, false, true, false, false, false)),
        neg8(200)
    );
    assert_eq!((0, set_flags(false, true, false, true, false, false)), neg8(0));
    assert_eq!(
        (0x80, set_flags(true, false, false, false, true, true)),
        neg8(0x80)
    );
}

#[test]
fn alu_test_dec16() {
    assert_eq!(
        (0xFFFF, set_flags(false, true, true, false, true, false)),
        dec16(0, Flags::empty())
    );
}

#[test]
fn alu_test_dec8() {
    assert_eq!(
        (0xFF, set_flags(false, true, true, false, true, false)),
        dec8(0, Flags::empty())
    );
}

#[test]
fn alu_test_sbb16() {
    assert_eq!(
        (0, set_flags(false, true, false, true, false, false)),
        sbb16(0, 0, 0)
    );
    assert_eq!((1, Flags::empty()), sbb16(1, 0, 0));
    assert_eq!((1, Flags::empty()), sbb16(3, 1, 1));
}

#[test]
fn alu_test_sbb8() {
    assert_eq!(
        (0, set_flags(false, true, false, true, false, false)),
        sbb8(0, 0, 0)
    );
    assert_eq!((1, Flags::empty()), sbb8(1, 0, 0));
    assert_eq!((1, Flags::empty()), sbb8(3, 1, 1));
}

#[test]
fn alu_test_sub16() {
    assert_eq!(
        (0, set_flags(false, true, false, true, false, false)),
        sub16(0x55FF, 0x55FF)
    );
    assert_eq!((1, Flags::empty()), sub16(0xFF01, 0xFF00));
    assert_eq!(
        (14, set_flags(false, false, true, false, false, false)),
        sub16(281, 267)
    );
    assert_eq!(
        (65455, set_flags(true, true, true, false, true, false)),
        sub16(294, 375)
    );
    assert_eq!(
        (1, set_flags(false, false, true, false, false, true)),
        sub16(32768, 32767)
    );
}

#[test]
fn alu_test_sub8() {
    assert_eq!(
        (0, set_flags(false, true, false, true, false, false)),
        sub8(0x55, 0x55)
    );
    assert_eq!((1, Flags::empty()), sub8(3, 2));
    assert_eq!(
        (14, set_flags(false, false, true, false, false, false)),
        sub8(25, 11)
    );
    assert_eq!(
        (175, set_flags(true, true, true, false, true, false)),
        sub8(38, 119)
    );
    assert_eq!(
        (1, set_flags(false, false, true, false, false, true)),
        sub8(128, 127)
    );
}

#[test]
fn alu_test_inc16() {
    assert_eq!(
        (0, set_flags(false, true, true, true, false, false)),
        inc16(0xFFFF, Flags::empty())
    );
}

#[test]
fn alu_test_inc8() {
    assert_eq!(
        (0, set_flags(false, true, true, true, false, false)),
        inc8(0xFF, Flags::empty())
    );
}

#[test]
fn alu_test_adc16() {
    assert_eq!(
        (0, set_flags(false, true, false, true, false, false)),
        adc16(0, 0, 0)
    );
    assert_eq!((1, Flags::empty()), adc16(0, 0, 1));
    assert_eq!((2, Flags::empty()), adc16(1, 0, 1));
}

#[test]
fn alu_test_adc8() {
    assert_eq!(
        (0, set_flags(false, true, false, true, false, false)),
        adc8(0, 0, 0)
    );
    assert_eq!((1, Flags::empty()), adc8(0, 0, 1));
    assert_eq!((2, Flags::empty()), adc8(1, 0, 1));
}

#[test]
fn alu_test_add16() {
    assert_eq!(
        (0, set_flags(false, true, false, true, false, false)),
        add16(0, 0)
    );
    assert_eq!((1, Flags::empty()), add16(1, 0));
    assert_eq!(
        (0, set_flags(true, true, true, true, false, false)),
        add16(0xFFFF, 1)
    );
    assert_eq!(
        (0xFFE0, set_flags(true, false, false, false, true, false)),
        add16(0xFFF0, 0xFFF0)
    );
    assert_eq!(
        (0x8000, set_flags(false, true, true, false, true, true)),
        add16(0x7FFF, 1)
    );
}

#[test]
fn alu_test_add8() {
    assert_eq!(
        (137, set_flags(false, false, true, false, true, true)),
        add8(43, 94)
    );
    assert_eq!((0, set_flags(false, true, false, true, false, false)), add8(0, 0));
    assert_eq!((1, Flags::empty()), add8(1, 0));
    assert_eq!(
        (0, set_flags(true, true, true, true, false, false)),
        add8(0xFF, 1)
    );
    assert_eq!(
        (0xE0, set_flags(true, false, false, false, true, false)),
        add8(0xF0, 0xF0)
    );
    assert_eq!(
        (0x80, set_flags(false, false, true, false, true, true)),
        add8(0x7F, 1)
    );
}
