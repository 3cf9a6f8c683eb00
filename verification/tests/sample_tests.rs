use wav_recorder::float32::pcm_from_f32_bits;
use wav_recorder::sample::{
    pcm_from_f32_buffer, pcm_from_i16, pcm_from_i16_buffer, pcm_from_u16, pcm_from_u16_buffer,
    DeviceFormat, RawBuffer, RawSample, SampleFormat, CANONICAL_MAX, UNSIGNED_MIDPOINT,
};

fn native(sample: f32) -> i16 {
    (sample * i16::MAX as f32) as i16
}

fn converted(sample: f32) -> i16 {
    pcm_from_f32_bits(sample.to_bits())
}

#[test]
fn unsigned_samples_are_recentred() {
    assert_eq!(pcm_from_u16(0), -32768);
    assert_eq!(pcm_from_u16(1), -32767);
    assert_eq!(pcm_from_u16(32767), -1);
    assert_eq!(pcm_from_u16(32768), 0);
    assert_eq!(pcm_from_u16(32769), 1);
    assert_eq!(pcm_from_u16(65535), 32767);
    assert_eq!(UNSIGNED_MIDPOINT, 32768);
}

#[test]
fn unsigned_conversion_matches_subtraction_everywhere() {
    for sample in 0..=u16::MAX {
        assert_eq!(pcm_from_u16(sample), (sample as i32 - 32768) as i16);
    }
}

#[test]
fn signed_samples_pass_through() {
    for sample in [i16::MIN, -1, 0, 1, 12345, i16::MAX] {
        assert_eq!(pcm_from_i16(sample), sample);
    }
}

#[test]
fn float_zero_and_full_scale() {
    assert_eq!(converted(0.0), 0);
    assert_eq!(converted(-0.0), 0);
    assert_eq!(converted(1.0), 32767);
    assert_eq!(converted(-1.0), -32767);
    assert_eq!(pcm_from_f32_bits(0x3f80_0000), 32767);
    assert_eq!(pcm_from_f32_bits(0xbf80_0000), -32767);
}

#[test]
fn float_samples_are_cut_off_toward_zero() {
    assert_eq!(converted(0.5), 16383);
    assert_eq!(converted(-0.5), -16383);
    assert_eq!(converted(0.25), 8191);
    assert_eq!(converted(0.1), 3276);
    assert_eq!(converted(-0.1), -3276);
    assert_eq!(converted(0.999_99), 32766);
    assert_eq!(converted(1.0 / 32767.0), native(1.0 / 32767.0));
    assert_eq!(converted(0.000_03), 0);
    assert_eq!(converted(0.000_031), 1);
}

#[test]
fn float_samples_out_of_range_saturate() {
    assert_eq!(converted(1.5), 32767);
    assert_eq!(converted(2.0), 32767);
    assert_eq!(converted(1.0e30), 32767);
    assert_eq!(converted(f32::INFINITY), 32767);
    assert_eq!(converted(f32::MAX), 32767);
    assert_eq!(converted(-1.000_01), -32767);
    assert_eq!(converted(-1.000_1), -32768);
    assert_eq!(converted(-2.0), -32768);
    assert_eq!(converted(f32::NEG_INFINITY), -32768);
    assert_eq!(converted(f32::MIN), -32768);
}

#[test]
fn float_not_a_number_is_silence() {
    assert_eq!(converted(f32::NAN), 0);
    assert_eq!(pcm_from_f32_bits(0x7fc0_0000), 0);
    assert_eq!(pcm_from_f32_bits(0xffc0_0000), 0);
    assert_eq!(pcm_from_f32_bits(0x7f80_0001), 0);
    assert_eq!(pcm_from_f32_bits(0xffff_ffff), 0);
}

#[test]
fn float_tiny_samples_are_silence() {
    assert_eq!(converted(f32::MIN_POSITIVE), 0);
    assert_eq!(pcm_from_f32_bits(1), 0);
    assert_eq!(pcm_from_f32_bits(0x8000_0001), 0);
    assert_eq!(pcm_from_f32_bits(0x007f_ffff), 0);
    assert_eq!(converted(1.0e-10), 0);
    assert_eq!(converted(-3.0e-5), 0);
}

#[test]
fn zero_level_and_full_scale_of_every_format() {
    assert_eq!(RawSample::Float32(0.0f32.to_bits()).to_pcm(), 0);
    assert_eq!(RawSample::SignedInt16(0).to_pcm(), 0);
    assert_eq!(RawSample::UnsignedInt16(32768).to_pcm(), 0);
    assert_eq!(RawSample::Float32(1.0f32.to_bits()).to_pcm(), CANONICAL_MAX);
    assert_eq!(RawSample::SignedInt16(i16::MAX).to_pcm(), CANONICAL_MAX);
    assert_eq!(RawSample::UnsignedInt16(u16::MAX).to_pcm(), CANONICAL_MAX);
}

#[test]
fn raw_sample_knows_its_format() {
    assert_eq!(RawSample::Float32(0).format(), SampleFormat::Float32);
    assert_eq!(RawSample::SignedInt16(0).format(), SampleFormat::SignedInt16);
    assert_eq!(RawSample::UnsignedInt16(0).format(), SampleFormat::UnsignedInt16);
}

#[test]
fn only_three_device_formats_are_supported() {
    assert_eq!(SampleFormat::from_device(DeviceFormat::F32), Some(SampleFormat::Float32));
    assert_eq!(SampleFormat::from_device(DeviceFormat::I16), Some(SampleFormat::SignedInt16));
    assert_eq!(SampleFormat::from_device(DeviceFormat::U16), Some(SampleFormat::UnsignedInt16));
    for other in [
        DeviceFormat::I8,
        DeviceFormat::I32,
        DeviceFormat::I64,
        DeviceFormat::U8,
        DeviceFormat::U32,
        DeviceFormat::U64,
        DeviceFormat::F64,
        DeviceFormat::Other,
    ] {
        assert_eq!(SampleFormat::from_device(other), None);
    }
}

#[test]
fn buffers_convert_sample_by_sample() {
    let floats = [0.0f32.to_bits(), 1.0f32.to_bits(), (-0.5f32).to_bits(), f32::NAN.to_bits()];
    assert_eq!(pcm_from_f32_buffer(&floats), vec![0, 32767, -16383, 0]);
    assert_eq!(RawBuffer::Float32(&floats).to_pcm(), vec![0, 32767, -16383, 0]);

    let signed = [i16::MIN, -1, 0, 7, i16::MAX];
    assert_eq!(pcm_from_i16_buffer(&signed), signed.to_vec());
    assert_eq!(RawBuffer::SignedInt16(&signed).to_pcm(), signed.to_vec());

    let unsigned = [0u16, 32768, 65535, 40000];
    assert_eq!(pcm_from_u16_buffer(&unsigned), vec![-32768, 0, 32767, 7232]);
    assert_eq!(RawBuffer::UnsignedInt16(&unsigned).to_pcm(), vec![-32768, 0, 32767, 7232]);
}

#[test]
fn buffers_know_their_format_and_length() {
    let floats = [0u32; 3];
    let signed = [0i16; 5];
    let unsigned: [u16; 0] = [];
    assert_eq!(RawBuffer::Float32(&floats).format(), SampleFormat::Float32);
    assert_eq!(RawBuffer::Float32(&floats).len(), 3);
    assert_eq!(RawBuffer::SignedInt16(&signed).format(), SampleFormat::SignedInt16);
    assert_eq!(RawBuffer::SignedInt16(&signed).len(), 5);
    assert_eq!(RawBuffer::UnsignedInt16(&unsigned).format(), SampleFormat::UnsignedInt16);
    assert_eq!(RawBuffer::UnsignedInt16(&unsigned).len(), 0);
    assert!(RawBuffer::UnsignedInt16(&unsigned).to_pcm().is_empty());
}

fn matches_native_for_every_fraction(exponents: std::ops::RangeInclusive<u32>) {
    for exponent in exponents {
        for fraction in 0..0x80_0000u32 {
            let bits = (exponent << 23) | fraction;
            assert_eq!(pcm_from_f32_bits(bits), native(f32::from_bits(bits)));
            let negative = bits | 0x8000_0000;
            assert_eq!(pcm_from_f32_bits(negative), native(f32::from_bits(negative)));
        }
    }
}

#[test]
fn float_conversion_matches_native_for_exponents_0_to_31() {
    matches_native_for_every_fraction(0..=31);
}

#[test]
fn float_conversion_matches_native_for_exponents_32_to_63() {
    matches_native_for_every_fraction(32..=63);
}

#[test]
fn float_conversion_matches_native_for_exponents_64_to_95() {
    matches_native_for_every_fraction(64..=95);
}

#[test]
fn float_conversion_matches_native_for_exponents_96_to_111() {
    matches_native_for_every_fraction(96..=111);
}

#[test]
fn float_conversion_matches_native_for_exponents_112_to_119() {
    matches_native_for_every_fraction(112..=119);
}

#[test]
fn float_conversion_matches_native_for_exponents_120_to_127() {
    matches_native_for_every_fraction(120..=127);
}

#[test]
fn float_conversion_matches_native_for_exponents_128_to_159() {
    matches_native_for_every_fraction(128..=159);
}

#[test]
fn float_conversion_matches_native_for_exponents_160_to_191() {
    matches_native_for_every_fraction(160..=191);
}

#[test]
fn float_conversion_matches_native_for_exponents_192_to_223() {
    matches_native_for_every_fraction(192..=223);
}

#[test]
fn float_conversion_matches_native_for_exponents_224_to_255() {
    matches_native_for_every_fraction(224..=255);
}
