use int24::i24;

fn v(x: i32) -> i24 {
    i24::from(x)
}

#[test]
fn byte_round_trip_all_patterns() {
    let mut n: u32 = 0;
    while n < 0x100_0000 {
        let b = [n as u8, (n >> 8) as u8, (n >> 16) as u8];
        let x = i24::from_le_bytes(b);
        assert_eq!(x.to_le_bytes(), b);
        assert_eq!(i24::from_le_bytes(x.to_le_bytes()), x);
        let be = x.to_be_bytes();
        assert_eq!(be, [b[2], b[1], b[0]]);
        assert_eq!(i24::from_be_bytes(be), x);
        assert_eq!(i24::from(x.as_i32()), x);
        n += 1;
    }
}

#[test]
fn sign_extension_examples() {
    assert_eq!(i24(0xFF, 0xFF, 0x7F).as_i32(), 8388607);
    assert_eq!(i24(0x00, 0x00, 0x80).as_i32(), -8388608);
    assert_eq!(i24(0xFF, 0xFF, 0xFF).as_i64(), -1);
    assert_eq!(i24(0xFF, 0xFF, 0xFF).as_i128(), -1);
    assert_eq!(i24(0x34, 0x12, 0x00).as_i32(), 0x1234);
}

#[test]
fn wrap_around_construction() {
    assert_eq!(i24::from(16777216i32), i24::from(0i32));
    assert_eq!(i24::from(-8388609i32), i24::from(8388607i32));
    assert_eq!(i24::from(8388608i32), i24::min_value());
    assert_eq!(i24::from(0x1_2345_6789i64).as_i32(), 0x45_6789);
    assert_eq!(i24::from(u32::MAX).as_i32(), -1);
    assert_eq!(i24::from(u64::MAX).as_i32(), -1);
    assert_eq!(i24::from(u128::MAX).as_i32(), -1);
    assert_eq!(i24::from(i128::MIN).as_i32(), 0);
    assert_eq!(i24::from(-1i8).as_i32(), -1);
    assert_eq!(i24::from(-300i16).as_i32(), -300);
    assert_eq!(i24::from(200u8).as_i32(), 200);
    assert_eq!(i24::from(60000u16).as_i32(), 60000);
}

#[test]
fn max_plus_one_wraps_to_min() {
    assert_eq!(i24::from(8388607i32) + i24::from(1i32), i24::from(-8388608i32));
    assert_eq!(i24::max_value() + v(1), i24::min_value());
    assert_eq!(i24::min_value() - v(1), i24::max_value());
}

#[test]
fn negating_min_gives_min() {
    assert_eq!(-i24::min_value(), i24::min_value());
    assert_eq!(-v(5), v(-5));
    assert_eq!(-v(0), v(0));
    assert_eq!(-i24::max_value(), v(-8388607));
}

#[test]
fn ordering_is_numeric() {
    let low = i24(0xFF, 0, 0);
    let min = i24(0, 0, 0x80);
    assert_eq!(low.as_i32(), 255);
    assert!(min < low);
    assert!(low > min);
    let samples = [
        -8388608, -8388607, -65536, -256, -255, -1, 0, 1, 127, 128, 255, 256, 65535, 65536,
        8388606, 8388607,
    ];
    for &a in samples.iter() {
        for &b in samples.iter() {
            let (x, y) = (v(a), v(b));
            assert_eq!(x < y, x.as_i32() < y.as_i32());
            assert_eq!(x <= y, a <= b);
            assert_eq!(x.cmp(&y), a.cmp(&b));
            assert_eq!(x.partial_cmp(&y), Some(a.cmp(&b)));
        }
    }
}

#[test]
fn bitand_acts_on_each_byte() {
    let samples = [0, 1, -1, 0x123456, -0x123456, 0x7F00FF, -8388608, 8388607, 0x00AA55];
    for &a in samples.iter() {
        for &b in samples.iter() {
            let (x, y) = (v(a), v(b));
            let (lx, ly) = (x.to_le_bytes(), y.to_le_bytes());
            let and = (x & y).to_le_bytes();
            let or = (x | y).to_le_bytes();
            let xor = (x ^ y).to_le_bytes();
            for i in 0..3 {
                assert_eq!(and[i], lx[i] & ly[i]);
                assert_eq!(or[i], lx[i] | ly[i]);
                assert_eq!(xor[i], lx[i] ^ ly[i]);
            }
            assert_eq!((x & y).as_i32(), a & b);
            assert_eq!((x | y).as_i32(), a | b);
            assert_eq!((x ^ y).as_i32(), a ^ b);
        }
    }
}

#[test]
fn formats_as_decimal() {
    assert_eq!(i24::from(-1i32).to_string(), "-1");
    assert_eq!(i24(0xFF, 0xFF, 0x7F).to_string(), "8388607");
    assert_eq!(i24::min_value().to_string(), "-8388608");
    assert_eq!(v(0).to_string(), "0");
    assert_eq!(v(1234).to_string(), "1234");
}

#[test]
fn unsigned_widening_keeps_bits() {
    assert_eq!(i24::from(-1i32).as_u32(), 0x00FF_FFFF);
    assert_eq!(i24::from(-1i32).as_u64(), 0x00FF_FFFF);
    assert_eq!(i24::from(-1i32).as_u128(), 0x00FF_FFFF);
    assert_eq!(i24::min_value().as_u32(), 0x80_0000);
    assert_eq!(v(42).as_u32(), 42);
}

#[test]
fn narrowing_keeps_low_bytes() {
    let x = i24(0x34, 0x82, 0x05);
    assert_eq!(x.as_u16(), 0x8234);
    assert_eq!(x.as_i16(), 0x8234u16 as i16);
    assert_eq!(x.as_u8(), 0x34);
    assert_eq!(x.as_i8(), 0x34);
    let y = i24(0x90, 0x12, 0x00);
    assert_eq!(y.as_i8(), 0x90u8 as i8);
    assert_eq!(y.as_i16(), 0x1290);
    assert_eq!(v(-1).as_i16(), -1);
    assert_eq!(v(-1).as_i8(), -1);
}

#[test]
fn into_native_types() {
    let x = v(-2);
    let a: i8 = x.into();
    let b: i16 = x.into();
    let c: i32 = x.into();
    let d: i64 = x.into();
    let e: i128 = x.into();
    let f: u8 = x.into();
    let g: u16 = x.into();
    let h: u32 = x.into();
    let i: u64 = x.into();
    let j: u128 = x.into();
    assert_eq!((a, b, c, d, e), (-2, -2, -2, -2, -2));
    assert_eq!((f, g, h, i, j), (0xFE, 0xFFFE, 0xFF_FFFE, 0xFF_FFFE, 0xFF_FFFE));
}

#[test]
fn sign_bit() {
    assert!(v(-1).is_minus());
    assert!(i24::min_value().is_minus());
    assert!(!v(0).is_minus());
    assert!(!i24::max_value().is_minus());
}

#[test]
fn arithmetic_wraps_and_truncates() {
    assert_eq!(v(1000) - v(3000), v(-2000));
    assert_eq!(v(-4096) * v(4096), v(0));
    assert_eq!(v(4097) * v(4097), v(4097 * 4097 - 16777216));
    assert_eq!(i24::max_value() * i24::max_value(), v(1));
    assert_eq!(v(7) / v(2), v(3));
    assert_eq!(v(-7) / v(2), v(-3));
    assert_eq!(v(7) / v(-2), v(-3));
    assert_eq!(v(-7) / v(-2), v(3));
    assert_eq!(i24::min_value() / v(-1), i24::min_value());
    assert_eq!(v(7) % v(2), v(1));
    assert_eq!(v(-7) % v(2), v(-1));
    assert_eq!(v(7) % v(-2), v(1));
    assert_eq!(v(-7) % v(-2), v(-1));
    assert_eq!(i24::min_value() % v(-1), v(0));
}

#[test]
fn shifts_use_count_modulo_32() {
    assert_eq!(v(3) << v(2), v(12));
    assert_eq!(v(1) << v(23), i24::min_value());
    assert_eq!(v(1) << v(24), v(0));
    assert_eq!(v(1) << v(33), v(2));
    assert_eq!(v(1) << v(-31), v(2));
    assert_eq!(v(-16) >> v(2), v(-4));
    assert_eq!(v(-1) >> v(20), v(-1));
    assert_eq!(v(-7) >> v(1), v(-4));
    assert_eq!(i24::max_value() >> v(22), v(1));
    assert_eq!(v(256) >> v(34), v(64));
}

#[test]
fn complement() {
    assert_eq!(!v(0), v(-1));
    assert_eq!(!v(5), v(-6));
    assert_eq!(!i24(0x0F, 0xF0, 0x55), i24(0xF0, 0x0F, 0xAA));
}

#[test]
fn in_place_operators() {
    let mut x = v(10);
    x += v(5);
    assert_eq!(x, v(15));
    x -= v(20);
    assert_eq!(x, v(-5));
    x *= v(-3);
    assert_eq!(x, v(15));
    x.div_assign(v(4));
    assert_eq!(x, v(3));
    x.rem_assign(v(2));
    assert_eq!(x, v(1));
    x <<= v(4);
    assert_eq!(x, v(16));
    x >>= v(2);
    assert_eq!(x, v(4));
    x |= v(3);
    assert_eq!(x, v(7));
    x &= v(5);
    assert_eq!(x, v(5));
    x ^= v(1);
    assert_eq!(x, v(4));
    let mut y = i24::max_value();
    y += v(1);
    assert_eq!(y, i24::min_value());
}

#[test]
fn clamp_bounds() {
    assert_eq!(v(5).clamp(v(1), v(3)), v(3));
    assert_eq!(v(-5).clamp(v(1), v(3)), v(1));
    assert_eq!(v(2).clamp(v(1), v(3)), v(2));
    assert_eq!(i24::min_value().clamp(i24::min_value(), v(0)), i24::min_value());
    assert_eq!(v(7).clamp(v(7), v(7)), v(7));
}

#[test]
fn default_is_zero() {
    assert_eq!(i24::default(), i24(0, 0, 0));
    assert_eq!(i24::default().as_i32(), 0);
}
