use kicad_format::number::Number;

fn num(v: f32) -> Number {
    Number::from_bits(v.to_bits())
}

fn float(n: Number) -> f32 {
    f32::from_bits(n.to_bits())
}

fn samples() -> Vec<f32> {
    let mut out = vec![
        0.0,
        -0.0,
        0.25,
        0.5,
        0.999_999_94,
        1.0,
        1.5,
        -1.5,
        2.54,
        -7.62,
        127.0,
        255.9,
        32767.0,
        32767.5,
        32768.0,
        -32768.0,
        -32768.9,
        -32769.0,
        65535.0,
        8_388_607.5,
        8_388_608.0,
        16_777_215.0,
        16_777_216.0,
        20_211_014.0,
        2_147_483_520.0,
        2_147_483_648.0,
        -2_147_483_648.0,
        -2_147_483_904.0,
        4_294_967_040.0,
        4_294_967_296.0,
        1.0e10,
        -1.0e10,
        3.0e38,
        f32::MAX,
        f32::MIN,
        f32::MIN_POSITIVE,
        f32::EPSILON,
        f32::INFINITY,
        f32::NEG_INFINITY,
        f32::NAN,
    ];
    out.push(f32::from_bits(1));
    out.push(f32::from_bits(0x007f_ffff));
    out.push(f32::from_bits(0xffc0_0001));
    let mut state: u32 = 0x1234_5678;
    for _ in 0..20000 {
        state = state.wrapping_mul(1_664_525).wrapping_add(1_013_904_223);
        out.push(f32::from_bits(state));
    }
    out
}

#[test]
fn as_u32_is_the_cast() {
    for v in samples() {
        assert_eq!(num(v).as_u32(), v as u32, "value {v:?} bits {:#x}", v.to_bits());
    }
}

#[test]
fn as_i32_is_the_cast() {
    for v in samples() {
        assert_eq!(num(v).as_i32(), v as i32, "value {v:?} bits {:#x}", v.to_bits());
    }
}

#[test]
fn as_i16_is_the_cast() {
    for v in samples() {
        assert_eq!(num(v).as_i16(), v as i16, "value {v:?} bits {:#x}", v.to_bits());
    }
}

#[test]
fn from_u32_is_the_cast() {
    let mut values: Vec<u32> = vec![
        0,
        1,
        2,
        3,
        255,
        8_388_607,
        8_388_608,
        16_777_215,
        16_777_216,
        16_777_217,
        16_777_218,
        16_777_219,
        20_211_014,
        20_211_015,
        33_554_430,
        33_554_431,
        33_554_433,
        0x7fff_ffff,
        0x8000_0000,
        0xffff_ff7f,
        0xffff_ff80,
        0xffff_ffff,
    ];
    let mut state: u32 = 0x9e37_79b9;
    for i in 0..20000 {
        state = state.wrapping_mul(1_664_525).wrapping_add(1_013_904_223);
        values.push(state >> (i % 32));
    }
    for v in values {
        assert_eq!(Number::from_u32(v).to_bits(), (v as f32).to_bits(), "value {v}");
    }
}

#[test]
fn from_i32_is_the_cast() {
    let mut values: Vec<i32> = vec![
        0,
        1,
        -1,
        42,
        -42,
        16_777_217,
        -16_777_217,
        -16_777_219,
        i32::MAX,
        i32::MIN,
        i32::MIN + 1,
        -2_147_483_583,
    ];
    let mut state: u32 = 0x0bad_cafe;
    for i in 0..20000 {
        state = state.wrapping_mul(1_664_525).wrapping_add(1_013_904_223);
        values.push((state as i32) >> (i % 32));
    }
    for v in values {
        assert_eq!(Number::from_i32(v).to_bits(), (v as f32).to_bits(), "value {v}");
    }
}

#[test]
fn from_i16_is_the_cast() {
    for v in i16::MIN..=i16::MAX {
        assert_eq!(Number::from_i16(v).to_bits(), (v as f32).to_bits(), "value {v}");
        assert_eq!(Number::from_i16(v).as_i16(), v);
    }
}

#[test]
fn exact_values() {
    assert_eq!(num(20_211_014.0).as_u32(), 20_211_014);
    assert_eq!(Number::from_u32(20_211_014).to_bits(), 0x4b9a_32a3);
    assert_eq!(float(Number::from_u32(20_211_014)), 20_211_014.0);
    assert_eq!(Number::from_u32(1).to_bits(), 0x3f80_0000);
    assert_eq!(Number::from_i32(-2).to_bits(), 0xc000_0000);
    assert_eq!(num(-0.75).as_i32(), 0);
    assert_eq!(num(1.0e10).as_i16(), i16::MAX);
    assert_eq!(num(f32::NAN).as_u32(), 0);
}

#[test]
fn ties_go_to_the_even_significand() {
    // 16777217 lies half way between 16777216 and 16777218.
    assert_eq!(float(Number::from_u32(16_777_217)), 16_777_216.0);
    // 16777219 lies half way between 16777218 and 16777220.
    assert_eq!(float(Number::from_u32(16_777_219)), 16_777_220.0);
    // Rounding up may carry into the exponent.
    assert_eq!(float(Number::from_u32(u32::MAX)), 4_294_967_296.0);
}

#[test]
fn whole_numbers_below_two_to_the_24_survive() {
    let mut v: u32 = 0;
    while v < 16_777_216 {
        assert_eq!(Number::from_u32(v).as_u32(), v);
        v += 977;
    }
}
