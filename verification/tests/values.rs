use easel::uniforms::{
    uniform_buffer_contents, UniformBlock, Uniforms, UserUniform, UserUniformType,
    UNIFORM_BLOCK_SIZE,
};
use easel::utils::{
    bits_of_signed, convert_bytes_to_value, convert_value_to_bytes, copy_bytes, decimal_string,
    painting_components, shader_file_kind, signed_from_bits, transcode_frame_data_for_movie,
    transcode_painting_data, ShaderFileKind, UniformValue, SIZE_MISMATCH,
};
use easel::vector::{BitsVector2, BitsVector4, IntVector2, IntVector3, IntVector4, UIntVector2};

fn all_kinds() -> Vec<UserUniformType> {
    vec![
        UserUniformType::Float32,
        UserUniformType::Float64,
        UserUniformType::UInt32,
        UserUniformType::UInt64,
        UserUniformType::Int32,
        UserUniformType::Int64,
        UserUniformType::Bool,
    ]
}

fn samples() -> Vec<UniformValue> {
    vec![
        UniformValue::Float32(2.5f32.to_bits()),
        UniformValue::Float32((-0.0f32).to_bits()),
        UniformValue::Float32(f32::MAX.to_bits()),
        UniformValue::Float64(2.5f64.to_bits()),
        UniformValue::Float64(f64::MIN_POSITIVE.to_bits()),
        UniformValue::UInt32(0),
        UniformValue::UInt32(4),
        UniformValue::UInt32(u32::MAX),
        UniformValue::UInt64(0x0102_0304_0506_0708),
        UniformValue::UInt64(u64::MAX),
        UniformValue::Int32(-1),
        UniformValue::Int32(i32::MIN),
        UniformValue::Int32(i32::MAX),
        UniformValue::Int64(-2),
        UniformValue::Int64(i64::MIN),
        UniformValue::Int64(i64::MAX),
        UniformValue::Bool(true),
        UniformValue::Bool(false),
    ]
}

#[test]
fn every_value_round_trips_through_its_bytes() {
    for value in samples() {
        let bytes = convert_value_to_bytes(value);
        assert_eq!(bytes.len(), value.kind().size());
        assert_eq!(convert_bytes_to_value(&bytes, value.kind()), Ok(value));
    }
}

#[test]
fn sizes_are_those_of_the_machine_types() {
    assert_eq!(UserUniformType::Float32.size(), std::mem::size_of::<f32>());
    assert_eq!(UserUniformType::Float64.size(), std::mem::size_of::<f64>());
    assert_eq!(UserUniformType::UInt32.size(), std::mem::size_of::<u32>());
    assert_eq!(UserUniformType::UInt64.size(), std::mem::size_of::<u64>());
    assert_eq!(UserUniformType::Int32.size(), std::mem::size_of::<i32>());
    assert_eq!(UserUniformType::Int64.size(), std::mem::size_of::<i64>());
    assert_eq!(UserUniformType::Bool.size(), 4);
}

#[test]
fn bytes_are_least_significant_first() {
    assert_eq!(convert_value_to_bytes(UniformValue::UInt32(4)), vec![4, 0, 0, 0]);
    assert_eq!(
        convert_value_to_bytes(UniformValue::UInt32(0x0102_0304)),
        vec![4, 3, 2, 1]
    );
    assert_eq!(
        convert_value_to_bytes(UniformValue::UInt64(0x0102_0304_0506_0708)),
        vec![8, 7, 6, 5, 4, 3, 2, 1]
    );
    assert_eq!(convert_value_to_bytes(UniformValue::Int32(-1)), vec![255; 4]);
    assert_eq!(
        convert_value_to_bytes(UniformValue::Int32(-2)),
        (-2i32).to_le_bytes().to_vec()
    );
    assert_eq!(
        convert_value_to_bytes(UniformValue::Int64(i64::MIN)),
        i64::MIN.to_le_bytes().to_vec()
    );
    assert_eq!(
        convert_value_to_bytes(UniformValue::Float32(2.5f32.to_bits())),
        2.5f32.to_le_bytes().to_vec()
    );
    assert_eq!(
        convert_value_to_bytes(UniformValue::Float64(2.5f64.to_bits())),
        2.5f64.to_le_bytes().to_vec()
    );
}

#[test]
fn a_boolean_takes_four_bytes() {
    assert_eq!(convert_value_to_bytes(UniformValue::Bool(true)), vec![1, 0, 0, 0]);
    assert_eq!(convert_value_to_bytes(UniformValue::Bool(false)), vec![0, 0, 0, 0]);
    assert_eq!(
        convert_bytes_to_value(&[0, 0, 1, 0], UserUniformType::Bool),
        Ok(UniformValue::Bool(true))
    );
    assert_eq!(
        convert_bytes_to_value(&[1], UserUniformType::Bool),
        Err(SIZE_MISMATCH)
    );
}

#[test]
fn a_wrong_length_is_refused_for_every_kind() {
    for kind in all_kinds() {
        for len in 0..10usize {
            let bytes = vec![7u8; len];
            let read = convert_bytes_to_value(&bytes, kind);
            if len == kind.size() {
                assert!(read.is_ok());
            } else {
                assert_eq!(read, Err(SIZE_MISMATCH));
            }
        }
    }
    assert_eq!(
        SIZE_MISMATCH,
        "Amount of bytes in slice incorrect for size of given type."
    );
}

#[test]
fn bytes_are_read_as_the_kind_asked_for() {
    let bytes = [0xff, 0xff, 0xff, 0xff];
    assert_eq!(
        convert_bytes_to_value(&bytes, UserUniformType::UInt32),
        Ok(UniformValue::UInt32(u32::MAX))
    );
    assert_eq!(
        convert_bytes_to_value(&bytes, UserUniformType::Int32),
        Ok(UniformValue::Int32(-1))
    );
    assert_eq!(
        convert_bytes_to_value(&bytes, UserUniformType::Float32),
        Ok(UniformValue::Float32(u32::MAX))
    );
    assert_eq!(
        convert_bytes_to_value(&1.5f64.to_le_bytes(), UserUniformType::Float64),
        Ok(UniformValue::Float64(1.5f64.to_bits()))
    );
    assert_eq!(
        convert_bytes_to_value(&(-5i64).to_le_bytes(), UserUniformType::Int64),
        Ok(UniformValue::Int64(-5))
    );
}

#[test]
fn signed_numbers_and_their_bit_patterns() {
    assert_eq!(bits_of_signed(-1), u32::MAX);
    assert_eq!(bits_of_signed(i32::MIN), 0x8000_0000);
    assert_eq!(bits_of_signed(7), 7);
    assert_eq!(signed_from_bits(u32::MAX), -1);
    assert_eq!(signed_from_bits(0x8000_0000), i32::MIN);
    assert_eq!(signed_from_bits(0x7fff_ffff), i32::MAX);
    assert_eq!(UIntVector2::new(u32::MAX, 3).to_signed(), IntVector2::new(-1, 3));
    assert_eq!(IntVector2::new(-1, 3).to_unsigned(), UIntVector2::new(u32::MAX, 3));
}

#[test]
fn vectors_are_made_of_their_components() {
    assert_eq!(IntVector4::new(1, 2, 3, 4), IntVector4 { x: 1, y: 2, z: 3, w: 4 });
    assert_eq!(IntVector3::new(1, 2, 3), IntVector3 { x: 1, y: 2, z: 3 });
    assert_eq!(IntVector2::new(1, 2), IntVector2 { x: 1, y: 2 });
    assert_eq!(IntVector4::zero(), IntVector4::new(0, 0, 0, 0));
    assert_eq!(IntVector3::zero(), IntVector3::new(0, 0, 0));
    assert_eq!(IntVector2::zero(), IntVector2::new(0, 0));
    assert_eq!(UIntVector2::zero(), UIntVector2::new(0, 0));
    assert_eq!(BitsVector2::zero(), BitsVector2::new(0.0f32.to_bits(), 0.0f32.to_bits()));
    assert_eq!(BitsVector4::zero(), BitsVector4::new(0, 0, 0, 0));
}

#[test]
fn a_uniform_holds_its_value_as_bytes() {
    let uniform = UserUniform::new("speed".to_string(), UniformValue::Float32(2.5f32.to_bits()));
    assert_eq!(uniform.name(), "speed");
    assert_eq!(uniform.size(), 4);
    assert_eq!(uniform.bytes(), 2.5f32.to_le_bytes().to_vec());
    assert_eq!(uniform.bytes, 2.5f32.to_le_bytes().to_vec());
    assert_eq!(uniform.inherent_type, UserUniformType::Float32);
    assert_eq!(uniform.get_value(), Ok(UniformValue::Float32(2.5f32.to_bits())));
}

#[test]
fn a_uniform_of_the_wrong_size_has_no_value() {
    let uniform = UserUniform {
        bytes: vec![1],
        name: "flag".to_string(),
        inherent_type: UserUniformType::Bool,
    };
    assert_eq!(uniform.get_value(), Err(SIZE_MISMATCH));
}

#[test]
fn a_uniform_takes_edits_of_its_own_size_only() {
    let mut uniform = UserUniform::new("count".to_string(), UniformValue::UInt32(1));
    assert!(uniform.set(&[9, 0, 0, 0]));
    assert_eq!(uniform.get_value(), Ok(UniformValue::UInt32(9)));
    assert!(!uniform.set(&[1, 2, 3, 4, 5, 6, 7, 8]));
    assert!(!uniform.set(&[]));
    assert_eq!(uniform.get_value(), Ok(UniformValue::UInt32(9)));
    assert_eq!(uniform.name(), "count");
    assert!(uniform.set_value(UniformValue::UInt32(11)));
    assert_eq!(uniform.bytes(), vec![11, 0, 0, 0]);
    assert!(!uniform.set_value(UniformValue::Int32(12)));
    assert!(!uniform.set_value(UniformValue::UInt64(12)));
    assert_eq!(uniform.bytes(), vec![11, 0, 0, 0]);
}

#[test]
fn a_copy_is_independent() {
    let first = UserUniform::new("gain".to_string(), UniformValue::Int32(-3));
    let mut copy = first.copy();
    let clone = first.clone();
    assert!(copy.set_value(UniformValue::Int32(5)));
    assert_eq!(first.get_value(), Ok(UniformValue::Int32(-3)));
    assert_eq!(copy.get_value(), Ok(UniformValue::Int32(5)));
    assert_eq!(clone.get_value(), Ok(UniformValue::Int32(-3)));
    assert_eq!(copy.name(), "gain");
    assert_eq!(clone.name(), "gain");
    assert_eq!(clone.inherent_type, UserUniformType::Int32);
}

#[test]
fn the_buffer_holds_the_uniforms_in_order() {
    let uniforms = vec![
        UserUniform::new("a".to_string(), UniformValue::UInt32(1)),
        UserUniform::new("b".to_string(), UniformValue::UInt64(2)),
        UserUniform::new("c".to_string(), UniformValue::Bool(true)),
    ];
    assert_eq!(
        uniform_buffer_contents(&uniforms),
        vec![1, 0, 0, 0, 2, 0, 0, 0, 0, 0, 0, 0, 1, 0, 0, 0]
    );
    assert_eq!(uniform_buffer_contents(&Vec::new()), Vec::<u8>::new());
    assert_eq!(copy_bytes(&[1, 2, 3]), vec![1, 2, 3]);
}

#[test]
fn the_frame_uniforms_start_at_zero() {
    let uniforms = Uniforms::new();
    assert_eq!(uniforms.resolution, UIntVector2::zero());
    assert_eq!(uniforms.mouse_position, BitsVector4::zero());
    assert_eq!(uniforms.mouse_button, IntVector4::zero());
    assert_eq!(uniforms.date, IntVector4::zero());
    assert_eq!(uniforms.time, 0);
    assert_eq!(uniforms.time_delta, 0);
    assert_eq!(uniforms.frame_num, 0);
    assert_eq!(uniforms.num_textures, 0);
}

#[test]
fn the_uniform_block_has_eighty_bytes_in_field_order() {
    let mut uniforms = Uniforms::new();
    uniforms.mouse_button = IntVector4::new(1, 0, -1, 0);
    uniforms.date = IntVector4::new(2021, 5, 17, 0);
    uniforms.frame_num = 9;
    uniforms.num_textures = 2;
    let block = uniforms.to_block(
        BitsVector2::new(1920.0f32.to_bits(), 1280.0f32.to_bits()),
        BitsVector4::new(1.0f32.to_bits(), 2.0f32.to_bits(), 3.0f32.to_bits(), 4.0f32.to_bits()),
        0.5f32.to_bits(),
        0.25f32.to_bits(),
    );
    assert_eq!(
        block,
        UniformBlock {
            resolution: BitsVector4::new(1920.0f32.to_bits(), 1280.0f32.to_bits(), 0, 0),
            mouse_position: BitsVector4::new(
                1.0f32.to_bits(),
                2.0f32.to_bits(),
                3.0f32.to_bits(),
                4.0f32.to_bits()
            ),
            mouse_button: IntVector4::new(1, 0, -1, 0),
            date: IntVector4::new(2021, 5, 17, 0),
            time: 0.5f32.to_bits(),
            time_delta: 0.25f32.to_bits(),
            frame_num: 9,
            num_textures: 2,
        }
    );
    let mut expected: Vec<u8> = Vec::new();
    for x in [1920.0f32, 1280.0, 0.0, 0.0, 1.0, 2.0, 3.0, 4.0] {
        expected.extend_from_slice(&x.to_le_bytes());
    }
    for x in [1i32, 0, -1, 0, 2021, 5, 17, 0] {
        expected.extend_from_slice(&x.to_le_bytes());
    }
    expected.extend_from_slice(&0.5f32.to_le_bytes());
    expected.extend_from_slice(&0.25f32.to_le_bytes());
    expected.extend_from_slice(&9u32.to_le_bytes());
    expected.extend_from_slice(&2u32.to_le_bytes());
    let bytes = block.to_bytes();
    assert_eq!(bytes.len(), UNIFORM_BLOCK_SIZE);
    assert_eq!(UNIFORM_BLOCK_SIZE, 80);
    assert_eq!(bytes, expected);
    assert_eq!(block.words().len(), 20);
}

#[test]
fn a_movie_frame_is_sent_as_it_is_read() {
    let painting: Vec<u8> = (0..40).collect();
    let mut pixel_data = vec![200u8];
    transcode_frame_data_for_movie(&painting, UIntVector2::new(3, 2), &mut pixel_data);
    let mut expected = vec![200u8];
    expected.extend(0..24u8);
    assert_eq!(pixel_data, expected);
    let mut nothing = Vec::new();
    transcode_frame_data_for_movie(&painting, UIntVector2::new(0, 5), &mut nothing);
    assert!(nothing.is_empty());
}

#[test]
fn the_components_of_a_painting_are_read_low_byte_first() {
    let painting = vec![
        0x00, 0x3c, 0x00, 0x38, 0x00, 0x00, 0xff, 0x7b, 1, 2, 3, 4, 5, 6, 7, 8, 9, 9,
    ];
    assert_eq!(
        painting_components(&painting, UIntVector2::new(2, 1)),
        vec![0x3c00, 0x3800, 0x0000, 0x7bff, 0x0201, 0x0403, 0x0605, 0x0807]
    );
    assert_eq!(painting_components(&painting, UIntVector2::new(0, 0)), Vec::<u16>::new());
}

#[test]
fn the_levels_of_a_painting_are_written_low_byte_first() {
    let mut pixel_data = vec![9u8];
    transcode_painting_data(&[0x1234, 0, 65535, 0x00ff, 0xff00], &mut pixel_data);
    assert_eq!(
        pixel_data,
        vec![9, 0x34, 0x12, 0, 0, 0xff, 0xff, 0xff, 0x00, 0x00, 0xff]
    );
    transcode_painting_data(&[], &mut pixel_data);
    assert_eq!(pixel_data.len(), 11);
}

#[test]
fn numbers_are_written_in_decimal() {
    assert_eq!(decimal_string(0), "0");
    assert_eq!(decimal_string(7), "7");
    assert_eq!(decimal_string(10), "10");
    assert_eq!(decimal_string(1920), "1920");
    assert_eq!(decimal_string(1_000_000), "1000000");
    assert_eq!(decimal_string(u32::MAX), "4294967295");
    for n in [9u32, 11, 99, 100, 101, 60, 1234567890] {
        assert_eq!(decimal_string(n), n.to_string());
    }
}

#[test]
fn the_ending_of_a_name_tells_the_kind_of_shader() {
    assert_eq!(shader_file_kind("shader.frag"), Some(ShaderFileKind::Source));
    assert_eq!(shader_file_kind("shader.spv"), Some(ShaderFileKind::Binary));
    assert_eq!(shader_file_kind("dir/a.b.frag"), Some(ShaderFileKind::Source));
    assert_eq!(shader_file_kind("frag"), Some(ShaderFileKind::Source));
    assert_eq!(shader_file_kind("shader.glsl"), None);
    assert_eq!(shader_file_kind("shader.frag.bak"), None);
    assert_eq!(shader_file_kind("dir.v2/shader"), None);
    assert_eq!(shader_file_kind("shader."), None);
    assert_eq!(shader_file_kind(""), None);
    assert_eq!(shader_file_kind("sch\u{e4}der.spv"), Some(ShaderFileKind::Binary));
}
