use bevy::math::Vec4;
use bevy::render::render_resource::std140::Writer;
use shader_material::error::MaterialError;
use shader_material::material::{finite, LinearRgba, ShaderMaterial};

fn rgba(r: f32, g: f32, b: f32, a: f32) -> LinearRgba {
    LinearRgba::from_bits(r.to_bits(), g.to_bits(), b.to_bits(), a.to_bits()).unwrap()
}

fn red(frame: u32) -> ShaderMaterial {
    ShaderMaterial { color: rgba(1.0, 0.0, 0.0, 1.0), frame }
}

#[test]
fn finite_numbers_are_told_from_the_others() {
    assert!(finite(0.0f32.to_bits()));
    assert!(finite((-0.0f32).to_bits()));
    assert!(finite(1.0f32.to_bits()));
    assert!(finite(f32::MAX.to_bits()));
    assert!(finite(f32::MIN.to_bits()));
    assert!(finite(f32::MIN_POSITIVE.to_bits()));
    assert!(finite(0x0000_0001));
    assert!(finite(0x7f7f_ffff));
    assert!(!finite(f32::INFINITY.to_bits()));
    assert!(!finite(f32::NEG_INFINITY.to_bits()));
    assert!(!finite(f32::NAN.to_bits()));
    assert!(!finite(0x7f80_0000));
    assert!(!finite(0x7fc0_0000));
    assert!(!finite(0xffff_ffff));
    assert!(!finite(0x7f80_0001));
}

#[test]
fn finite_agrees_with_the_float_test_on_many_patterns() {
    let mut bits: u32 = 0;
    let mut count: u32 = 0;
    while count < 100_000 {
        assert_eq!(finite(bits), f32::from_bits(bits).is_finite());
        bits = bits.wrapping_mul(1_664_525).wrapping_add(1_013_904_223);
        count += 1;
    }
}

#[test]
fn color_keeps_its_bit_patterns() {
    let color = LinearRgba::from_bits(0x3f80_0000, 0x3f00_0000, 0, 0xbf80_0000).unwrap();
    assert_eq!(color.to_bits(), (0x3f80_0000, 0x3f00_0000, 0, 0xbf80_0000));
}

#[test]
fn color_with_a_component_that_is_not_finite_is_refused() {
    let one: u32 = 1.0f32.to_bits();
    let inf: u32 = f32::INFINITY.to_bits();
    let nan: u32 = f32::NAN.to_bits();
    assert_eq!(LinearRgba::from_bits(inf, one, one, one), None);
    assert_eq!(LinearRgba::from_bits(one, nan, one, one), None);
    assert_eq!(LinearRgba::from_bits(one, one, f32::NEG_INFINITY.to_bits(), one), None);
    assert_eq!(LinearRgba::from_bits(one, one, one, nan), None);
    assert!(LinearRgba::from_bits(one, one, one, one).is_some());
}

#[test]
fn block_of_red_at_frame_one() {
    let bytes = red(1).as_std140_bytes();
    let expected: Vec<u8> = vec![
        0x00, 0x00, 0x80, 0x3f, 0, 0, 0, 0, 0, 0, 0, 0, 0x00, 0x00, 0x80, 0x3f, 1, 0, 0, 0, 0, 0,
        0, 0, 0, 0, 0, 0, 0, 0, 0, 0,
    ];
    assert_eq!(bytes, expected);
}

#[test]
fn block_holds_every_byte_of_the_frame_counter() {
    let bytes = red(0x0403_0201).as_std140_bytes();
    assert_eq!(&bytes[16..20], &[0x01, 0x02, 0x03, 0x04]);
    let bytes = red(u32::MAX).as_std140_bytes();
    assert_eq!(&bytes[16..20], &[0xff, 0xff, 0xff, 0xff]);
    assert_eq!(&bytes[20..32], &[0u8; 12]);
}

#[test]
fn block_is_always_thirty_two_bytes_with_zero_padding() {
    let material = ShaderMaterial { color: rgba(0.25, -3.5, 1.0e-30, 7.0e20), frame: 77 };
    let bytes = material.as_std140_bytes();
    assert_eq!(bytes.len(), 32);
    assert!(bytes[20..].iter().all(|byte| *byte == 0));
}

#[test]
fn block_agrees_with_the_outside_writer() {
    let material = ShaderMaterial { color: rgba(1.0, 0.84, 0.0, 1.0), frame: 0x1234_5678 };
    let mut written: Vec<u8> = Vec::new();
    let mut writer = Writer::new(&mut written);
    writer.write(&Vec4::new(1.0, 0.84, 0.0, 1.0)).unwrap();
    writer.write(&0x1234_5678u32).unwrap();
    assert_eq!(written.len(), 20);
    let bytes = material.as_std140_bytes();
    assert_eq!(&bytes[..20], &written[..]);
}

#[test]
fn reading_a_block_gives_the_material_back() {
    let material = ShaderMaterial { color: rgba(0.1, 0.2, 0.3, 0.4), frame: 123_456_789 };
    let bytes = material.as_std140_bytes();
    assert_eq!(ShaderMaterial::from_std140_bytes(&bytes), Ok(material));
    let read = ShaderMaterial::from_std140_bytes(&bytes).unwrap();
    let bits = read.color.to_bits();
    assert_eq!(f32::from_bits(bits.0).to_bits(), 0.1f32.to_bits());
    assert_eq!(f32::from_bits(bits.3).to_bits(), 0.4f32.to_bits());
    assert_eq!(read.frame, 123_456_789);
}

#[test]
fn reading_gives_back_many_materials_bit_for_bit() {
    let mut seed: u32 = 12345;
    let mut made: u32 = 0;
    while made < 2000 {
        let mut parts: [u32; 5] = [0; 5];
        for part in parts.iter_mut() {
            seed = seed.wrapping_mul(1_664_525).wrapping_add(1_013_904_223);
            *part = seed;
        }
        if let Some(color) = LinearRgba::from_bits(parts[0], parts[1], parts[2], parts[3]) {
            let material = ShaderMaterial { color, frame: parts[4] };
            let bytes = material.as_std140_bytes();
            assert_eq!(ShaderMaterial::from_std140_bytes(&bytes), Ok(material));
            made += 1;
        }
    }
}

#[test]
fn reading_does_not_look_at_the_padding() {
    let mut bytes = red(9).as_std140_bytes();
    for byte in bytes[20..].iter_mut() {
        *byte = 0xab;
    }
    assert_eq!(ShaderMaterial::from_std140_bytes(&bytes), Ok(red(9)));
}

#[test]
fn block_of_another_size_is_an_invalid_layout() {
    let bytes = red(1).as_std140_bytes();
    assert_eq!(ShaderMaterial::from_std140_bytes(&bytes[..31]), Err(MaterialError::InvalidLayout));
    assert_eq!(ShaderMaterial::from_std140_bytes(&bytes[..20]), Err(MaterialError::InvalidLayout));
    assert_eq!(ShaderMaterial::from_std140_bytes(&[]), Err(MaterialError::InvalidLayout));
    let mut longer = bytes.clone();
    longer.push(0);
    assert_eq!(ShaderMaterial::from_std140_bytes(&longer), Err(MaterialError::InvalidLayout));
}

#[test]
fn block_with_a_color_that_is_not_finite_holds_no_material() {
    let mut bytes = red(1).as_std140_bytes();
    bytes[4..8].copy_from_slice(&f32::NAN.to_bits().to_le_bytes());
    assert_eq!(ShaderMaterial::from_std140_bytes(&bytes), Err(MaterialError::NonFiniteColor));
    let mut bytes = red(1).as_std140_bytes();
    bytes[12..16].copy_from_slice(&f32::INFINITY.to_bits().to_le_bytes());
    assert_eq!(ShaderMaterial::from_std140_bytes(&bytes), Err(MaterialError::NonFiniteColor));
}

#[test]
fn advance_adds_one_frame_and_keeps_the_color() {
    let mut material = red(0);
    material.advance();
    assert_eq!(material, red(1));
    material.advance();
    material.advance();
    assert_eq!(material.frame, 3);
    assert_eq!(material.color, rgba(1.0, 0.0, 0.0, 1.0));
}

#[test]
fn advance_stays_at_the_largest_frame() {
    let mut material = red(u32::MAX - 1);
    material.advance();
    assert_eq!(material.frame, u32::MAX);
    material.advance();
    assert_eq!(material.frame, u32::MAX);
}

#[test]
fn frame_counter_never_decreases() {
    let mut material = red(u32::MAX - 3);
    let mut last: u32 = material.frame;
    let mut step: u32 = 0;
    while step < 10 {
        material.advance();
        assert!(material.frame >= last);
        last = material.frame;
        step += 1;
    }
}

#[test]
fn snapshot_is_a_copy() {
    let mut material = red(4);
    let snapshot = material.extract_asset();
    assert_eq!(snapshot, material);
    material.color = rgba(0.0, 1.0, 0.0, 1.0);
    material.advance();
    assert_eq!(snapshot, red(4));
}
