//! Scalars and their byte layout.
//!
//! Values are laid out least significant byte first, which is the layout a
//! shader reads from a buffer.

use vstd::prelude::*;
use vstd::slice::slice_to_vec;
use vstd::string::*;
use byteorder::ByteOrder;
use crate::uniforms::UserUniformType;
use crate::vector::UIntVector2;

verus! {

/// A scalar of one of the seven supported kinds. The two floating-point kinds
/// hold the IEEE-754 bit pattern of the number.
#[derive(Debug, Copy, Clone, PartialEq, Eq, Structural)]
pub enum UniformValue {
    Float32(u32),
    Float64(u64),
    UInt32(u32),
    UInt64(u64),
    Int32(i32),
    Int64(i64),
    Bool(bool),
}

/// What `convert_bytes_to_value` answers when the slice has the wrong length.
pub const SIZE_MISMATCH: &'static str = "Amount of bytes in slice incorrect for size of given type.";

/// The four bytes of `x`, least significant first.
pub open spec fn u32_bytes(x: u32) -> Seq<u8> {
    seq![
        (x % 256) as u8,
        (x / 256 % 256) as u8,
        (x / 65536 % 256) as u8,
        (x / 16777216) as u8,
    ]
}

/// The eight bytes of `x`, least significant first.
pub open spec fn u64_bytes(x: u64) -> Seq<u8> {
    u32_bytes((x % 0x1_0000_0000) as u32) + u32_bytes((x / 0x1_0000_0000) as u32)
}

/// The number whose four bytes, least significant first, are `bytes`.
pub open spec fn u32_from_bytes(bytes: Seq<u8>) -> u32
    recommends
        bytes.len() == 4,
{
    (bytes[0] + 256 * bytes[1] + 65536 * bytes[2] + 16777216 * bytes[3]) as u32
}

/// The number whose eight bytes, least significant first, are `bytes`.
pub open spec fn u64_from_bytes(bytes: Seq<u8>) -> u64
    recommends
        bytes.len() == 8,
{
    (u32_from_bytes(bytes.subrange(0, 4)) + 0x1_0000_0000 * u32_from_bytes(
        bytes.subrange(4, 8),
    )) as u64
}

/// The two's-complement bit pattern of `x`.
pub open spec fn i32_bits(x: i32) -> u32 {
    if x >= 0 {
        x as u32
    } else {
        (x + 0x1_0000_0000) as u32
    }
}

/// The signed number whose two's-complement bit pattern is `bits`.
pub open spec fn i32_from_bits(bits: u32) -> i32 {
    if bits < 0x8000_0000 {
        bits as i32
    } else {
        (bits - 0x1_0000_0000) as i32
    }
}

/// The two's-complement bit pattern of `x`.
pub open spec fn i64_bits(x: i64) -> u64 {
    if x >= 0 {
        x as u64
    } else {
        (x + 0x1_0000_0000_0000_0000) as u64
    }
}

/// The signed number whose two's-complement bit pattern is `bits`.
pub open spec fn i64_from_bits(bits: u64) -> i64 {
    if bits < 0x8000_0000_0000_0000 {
        bits as i64
    } else {
        (bits - 0x1_0000_0000_0000_0000) as i64
    }
}

impl UniformValue {
    /// The kind of this scalar.
    pub open spec fn spec_kind(self) -> UserUniformType {
        match self {
            UniformValue::Float32(_) => UserUniformType::Float32,
            UniformValue::Float64(_) => UserUniformType::Float64,
            UniformValue::UInt32(_) => UserUniformType::UInt32,
            UniformValue::UInt64(_) => UserUniformType::UInt64,
            UniformValue::Int32(_) => UserUniformType::Int32,
            UniformValue::Int64(_) => UserUniformType::Int64,
            UniformValue::Bool(_) => UserUniformType::Bool,
        }
    }

    /// The kind of this scalar.
    pub fn kind(self) -> (kind: UserUniformType)
        ensures
            kind == self.spec_kind(),
    {
        match self {
            UniformValue::Float32(_) => UserUniformType::Float32,
            UniformValue::Float64(_) => UserUniformType::Float64,
            UniformValue::UInt32(_) => UserUniformType::UInt32,
            UniformValue::UInt64(_) => UserUniformType::UInt64,
            UniformValue::Int32(_) => UserUniformType::Int32,
            UniformValue::Int64(_) => UserUniformType::Int64,
            UniformValue::Bool(_) => UserUniformType::Bool,
        }
    }
}

/// The bytes of a scalar: four or eight, least significant first. A boolean
/// takes four bytes, holding one for true and zero for false.
pub open spec fn value_bytes(value: UniformValue) -> Seq<u8> {
    match value {
        UniformValue::Float32(bits) => u32_bytes(bits),
        UniformValue::Float64(bits) => u64_bytes(bits),
        UniformValue::UInt32(x) => u32_bytes(x),
        UniformValue::UInt64(x) => u64_bytes(x),
        UniformValue::Int32(x) => u32_bytes(i32_bits(x)),
        UniformValue::Int64(x) => u64_bytes(i64_bits(x)),
        UniformValue::Bool(b) => u32_bytes(if b { 1u32 } else { 0u32 }),
    }
}

/// The scalar of kind `as_type` that `bytes` hold. A boolean is true when
/// its four bytes hold anything but zero.
pub open spec fn value_from_bytes(bytes: Seq<u8>, as_type: UserUniformType) -> UniformValue
    recommends
        bytes.len() == as_type.spec_size(),
{
    match as_type {
        UserUniformType::Float32 => UniformValue::Float32(u32_from_bytes(bytes)),
        UserUniformType::Float64 => UniformValue::Float64(u64_from_bytes(bytes)),
        UserUniformType::UInt32 => UniformValue::UInt32(u32_from_bytes(bytes)),
        UserUniformType::UInt64 => UniformValue::UInt64(u64_from_bytes(bytes)),
        UserUniformType::Int32 => UniformValue::Int32(i32_from_bits(u32_from_bytes(bytes))),
        UserUniformType::Int64 => UniformValue::Int64(i64_from_bits(u64_from_bytes(bytes))),
        UserUniformType::Bool => UniformValue::Bool(u32_from_bytes(bytes) != 0),
    }
}

/// Reading back the bytes of a 32-bit number gives the number.
pub proof fn lemma_u32_bytes_round_trip(x: u32)
    ensures
        u32_bytes(x).len() == 4,
        u32_from_bytes(u32_bytes(x)) == x,
{
}

/// Reading back the bytes of a 64-bit number gives the number.
pub proof fn lemma_u64_bytes_round_trip(x: u64)
    ensures
        u64_bytes(x).len() == 8,
        u64_from_bytes(u64_bytes(x)) == x,
{
    let low = (x % 0x1_0000_0000) as u32;
    let high = (x / 0x1_0000_0000) as u32;
    lemma_u32_bytes_round_trip(low);
    lemma_u32_bytes_round_trip(high);
    assert(u64_bytes(x).subrange(0, 4) =~= u32_bytes(low));
    assert(u64_bytes(x).subrange(4, 8) =~= u32_bytes(high));
}

/// A signed number survives the trip through its bit pattern.
pub proof fn lemma_signed_bits_round_trip(x: i32, y: i64)
    ensures
        i32_from_bits(i32_bits(x)) == x,
        i64_from_bits(i64_bits(y)) == y,
{
}

/// Every scalar takes as many bytes as its kind says, and reading those
/// bytes back as that kind gives the scalar again.
pub proof fn lemma_value_bytes_round_trip(value: UniformValue)
    ensures
        value_bytes(value).len() == value.spec_kind().spec_size(),
        value_from_bytes(value_bytes(value), value.spec_kind()) == value,
{
    match value {
        UniformValue::Float32(bits) => lemma_u32_bytes_round_trip(bits),
        UniformValue::Float64(bits) => lemma_u64_bytes_round_trip(bits),
        UniformValue::UInt32(x) => lemma_u32_bytes_round_trip(x),
        UniformValue::UInt64(x) => lemma_u64_bytes_round_trip(x),
        UniformValue::Int32(x) => {
            lemma_u32_bytes_round_trip(i32_bits(x));
            lemma_signed_bits_round_trip(x, 0);
        },
        UniformValue::Int64(x) => {
            lemma_u64_bytes_round_trip(i64_bits(x));
            lemma_signed_bits_round_trip(0, x);
        },
        UniformValue::Bool(b) => lemma_u32_bytes_round_trip(if b { 1u32 } else { 0u32 }),
    }
}

/// Appends the four bytes of `x`, least significant first.
pub fn push_u32(bytes: &mut Vec<u8>, x: u32)
    ensures
        final(bytes)@ == old(bytes)@ + u32_bytes(x),
{
    bytes.push((x % 256) as u8);
    bytes.push((x / 256 % 256) as u8);
    bytes.push((x / 65536 % 256) as u8);
    bytes.push((x / 16777216) as u8);
    assert(bytes@ =~= old(bytes)@ + u32_bytes(x));
}

/// The two's-complement bit pattern of `x`.
pub fn bits_of_signed(x: i32) -> (bits: u32)
    ensures
        bits == i32_bits(x),
{
    if x >= 0 {
        x as u32
    } else {
        (x as i64 + 0x1_0000_0000) as u32
    }
}

/// Appends the eight bytes of `x`, least significant first.
pub fn push_u64(bytes: &mut Vec<u8>, x: u64)
    ensures
        final(bytes)@ == old(bytes)@ + u64_bytes(x),
{
    push_u32(bytes, (x % 0x1_0000_0000) as u32);
    push_u32(bytes, (x / 0x1_0000_0000) as u32);
    assert(bytes@ =~= old(bytes)@ + u64_bytes(x));
}

fn read_u32(bytes: &[u8], at: usize) -> (x: u32)
    requires
        at + 4 <= bytes@.len(),
    ensures
        x == u32_from_bytes(bytes@.subrange(at as int, at + 4)),
{
    let b0: u32 = bytes[at] as u32;
    let b1: u32 = bytes[at + 1] as u32;
    let b2: u32 = bytes[at + 2] as u32;
    let b3: u32 = bytes[at + 3] as u32;
    b0 + 256 * b1 + 65536 * b2 + 16777216 * b3
}

fn read_u64(bytes: &[u8]) -> (x: u64)
    requires
        bytes@.len() == 8,
    ensures
        x == u64_from_bytes(bytes@),
{
    let low: u64 = read_u32(bytes, 0) as u64;
    let high: u64 = read_u32(bytes, 4) as u64;
    low + 0x1_0000_0000 * high
}

/// The signed number whose two's-complement bit pattern is `bits`.
pub fn signed_from_bits(bits: u32) -> (x: i32)
    ensures
        x == i32_from_bits(bits),
{
    if bits < 0x8000_0000 {
        bits as i32
    } else {
        (bits as i64 - 0x1_0000_0000) as i32
    }
}

fn long_from_bits(bits: u64) -> (x: i64)
    ensures
        x == i64_from_bits(bits),
{
    if bits < 0x8000_0000_0000_0000 {
        bits as i64
    } else {
        (bits as i128 - 0x1_0000_0000_0000_0000) as i64
    }
}

/// Lays a scalar out in bytes: four or eight, least significant first.
pub fn convert_value_to_bytes(value: UniformValue) -> (bytes: Vec<u8>)
    ensures
        bytes@ == value_bytes(value),
        bytes@.len() == value.spec_kind().spec_size(),
{
    let mut bytes: Vec<u8> = Vec::new();
    match value {
        UniformValue::Float32(bits) => push_u32(&mut bytes, bits),
        UniformValue::Float64(bits) => push_u64(&mut bytes, bits),
        UniformValue::UInt32(x) => push_u32(&mut bytes, x),
        UniformValue::UInt64(x) => push_u64(&mut bytes, x),
        UniformValue::Int32(x) => push_u32(&mut bytes, bits_of_signed(x)),
        UniformValue::Int64(x) => {
            let bits: u64 = if x >= 0 {
                x as u64
            } else {
                (x as i128 + 0x1_0000_0000_0000_0000) as u64
            };
            push_u64(&mut bytes, bits)
        },
        UniformValue::Bool(b) => push_u32(&mut bytes, if b { 1 } else { 0 }),
    }
    proof {
        lemma_value_bytes_round_trip(value);
        assert(bytes@ =~= value_bytes(value));
    }
    bytes
}

/// Reads a scalar of kind `as_type` from `bytes`. The slice must be exactly
/// as long as the kind is wide; any other length is answered with
/// `SIZE_MISMATCH`.
pub fn convert_bytes_to_value(bytes: &[u8], as_type: UserUniformType) -> (value: Result<
    UniformValue,
    &'static str,
>)
    ensures
        bytes@.len() == as_type.spec_size() ==> value == Ok::<UniformValue, &'static str>(
            value_from_bytes(bytes@, as_type),
        ),
        bytes@.len() != as_type.spec_size() ==> value == Err::<UniformValue, &'static str>(
            SIZE_MISMATCH,
        ),
{
    if bytes.len() != as_type.size() {
        return Err(SIZE_MISMATCH);
    }
    proof {
        assert(bytes@.subrange(0, bytes@.len() as int) =~= bytes@);
    }
    Ok(
        match as_type {
            UserUniformType::Float32 => UniformValue::Float32(read_u32(bytes, 0)),
            UserUniformType::Float64 => UniformValue::Float64(read_u64(bytes)),
            UserUniformType::UInt32 => UniformValue::UInt32(read_u32(bytes, 0)),
            UserUniformType::UInt64 => UniformValue::UInt64(read_u64(bytes)),
            UserUniformType::Int32 => UniformValue::Int32(signed_from_bits(read_u32(bytes, 0))),
            UserUniformType::Int64 => UniformValue::Int64(long_from_bits(read_u64(bytes))),
            UserUniformType::Bool => UniformValue::Bool(read_u32(bytes, 0) != 0),
        },
    )
}

/// The two bytes of `x`, least significant first.
pub open spec fn u16_bytes(x: u16) -> Seq<u8> {
    seq![(x % 256) as u8, (x / 256) as u8]
}

/// The number whose two bytes, least significant first, are `bytes`.
pub open spec fn u16_from_bytes(bytes: Seq<u8>) -> u16
    recommends
        bytes.len() == 2,
{
    (bytes[0] + 256 * bytes[1]) as u16
}

/// Calls `byteorder::LittleEndian::write_u16` on a buffer of two bytes: the
/// buffer then holds the low byte of `x` and after it the high byte.
#[verifier::external_body]
fn write_u16(x: u16) -> (bytes: [u8; 2])
    ensures
        bytes@ == u16_bytes(x),
{
    let mut bytes = [0u8; 2];
    byteorder::LittleEndian::write_u16(&mut bytes, x);
    bytes
}

/// Number of pixels of a picture of size `resolution`.
pub open spec fn pixel_count(resolution: UIntVector2) -> nat {
    (resolution.x * resolution.y) as nat
}

/// The bytes that a movie frame of size `resolution` sends to the encoder:
/// the first four bytes of each pixel of `painting` in turn, which are its
/// red, green, blue and alpha, row after row from the top, with nothing
/// before, between or after them.
pub open spec fn movie_frame_bytes(painting: Seq<u8>, resolution: UIntVector2) -> Seq<u8>
    recommends
        painting.len() >= 4 * pixel_count(resolution),
{
    painting.subrange(0, 4 * pixel_count(resolution) as int)
}

/// Appends to `pixel_data` the bytes that a movie frame of size
/// `resolution` sends to the encoder, taken from `painting`, the buffer that
/// the frame was read back into.
///
/// The buffer must hold the whole frame: four bytes for each pixel.
pub fn transcode_frame_data_for_movie(
    painting: &[u8],
    resolution: UIntVector2,
    pixel_data: &mut Vec<u8>,
)
    requires
        painting@.len() >= 4 * pixel_count(resolution),
    ensures
        final(pixel_data)@ == old(pixel_data)@ + movie_frame_bytes(painting@, resolution),
{
    let width = resolution.x as usize;
    let height = resolution.y as usize;
    let total = painting.len();
    assert(4 * (resolution.x * resolution.y) <= total);
    assert(width * height == resolution.x * resolution.y) by (nonlinear_arith)
        requires
            width == resolution.x,
            height == resolution.y,
    ;
    let count: usize = 4 * (width * height);
    let mut i: usize = 0;
    while i < count
        invariant
            i <= count <= painting@.len(),
            count == 4 * pixel_count(resolution),
            pixel_data@ == old(pixel_data)@ + painting@.subrange(0, i as int),
        decreases count - i,
    {
        pixel_data.push(painting[i]);
        assert(pixel_data@ =~= old(pixel_data)@ + painting@.subrange(0, i + 1));
        i += 1;
    }
}

/// The component `i` of a painting: the bit pattern of the half-precision
/// number that `painting` holds in the two bytes from `2 * i` on, low byte
/// first.
pub open spec fn painting_component(painting: Seq<u8>, i: int) -> u16
    recommends
        0 <= i,
        2 * i + 2 <= painting.len(),
{
    u16_from_bytes(painting.subrange(2 * i, 2 * i + 2))
}

/// Reads the components of a painting of size `resolution` from `painting`,
/// the buffer that it was read back into: for each pixel its red, green,
/// blue and alpha, each the bit pattern of a half-precision number.
///
/// The buffer must hold the whole painting: eight bytes for each pixel.
pub fn painting_components(painting: &[u8], resolution: UIntVector2) -> (components: Vec<u16>)
    requires
        painting@.len() >= 8 * pixel_count(resolution),
    ensures
        components@.len() == 4 * pixel_count(resolution),
        forall|i: int|
            0 <= i < components@.len() ==> #[trigger] components@[i] == painting_component(
                painting@,
                i,
            ),
{
    let width = resolution.x as usize;
    let height = resolution.y as usize;
    let total = painting.len();
    assert(8 * (resolution.x * resolution.y) <= total);
    assert(width * height == resolution.x * resolution.y) by (nonlinear_arith)
        requires
            width == resolution.x,
            height == resolution.y,
    ;
    let count: usize = 4 * (width * height);
    let mut components: Vec<u16> = Vec::new();
    let mut i: usize = 0;
    while i < count
        invariant
            i <= count,
            2 * count <= total == painting@.len(),
            count == 4 * pixel_count(resolution),
            components@.len() == i,
            forall|j: int|
                0 <= j < i ==> #[trigger] components@[j] == painting_component(painting@, j),
        decreases count - i,
    {
        let low: u16 = painting[2 * i] as u16;
        let high: u16 = painting[2 * i + 1] as u16;
        components.push(low + 256 * high);
        i += 1;
    }
    components
}

/// The bytes of a list of 16-bit levels, each low byte first.
pub open spec fn levels_bytes(levels: Seq<u16>) -> Seq<u8>
    decreases levels.len(),
{
    if levels.len() == 0 {
        Seq::empty()
    } else {
        levels_bytes(levels.drop_last()) + u16_bytes(levels.last())
    }
}

/// Appends to `pixel_data` the bytes of a painting whose components have
/// the levels `levels`, each between 0 and 65535: two bytes for each
/// component, low byte first, in the order of the components.
pub fn transcode_painting_data(levels: &[u16], pixel_data: &mut Vec<u8>)
    ensures
        final(pixel_data)@ == old(pixel_data)@ + levels_bytes(levels@),
{
    let mut i: usize = 0;
    assert(levels_bytes(levels@.subrange(0, 0)) =~= Seq::<u8>::empty());
    while i < levels.len()
        invariant
            i <= levels.len(),
            pixel_data@ == old(pixel_data)@ + levels_bytes(levels@.subrange(0, i as int)),
        decreases levels.len() - i,
    {
        let bytes = write_u16(levels[i]);
        proof {
            assert(levels@.subrange(0, i + 1).drop_last() =~= levels@.subrange(0, i as int));
        }
        pixel_data.push(bytes[0]);
        pixel_data.push(bytes[1]);
        assert(pixel_data@ =~= old(pixel_data)@ + levels_bytes(levels@.subrange(0, i + 1)));
        i += 1;
    }
    proof {
        assert(levels@.subrange(0, i as int) =~= levels@);
    }
}

/// The character of a decimal digit.
pub open spec fn digit_char(digit: nat) -> char
    recommends
        digit < 10,
{
    if digit == 0 {
        '0'
    } else if digit == 1 {
        '1'
    } else if digit == 2 {
        '2'
    } else if digit == 3 {
        '3'
    } else if digit == 4 {
        '4'
    } else if digit == 5 {
        '5'
    } else if digit == 6 {
        '6'
    } else if digit == 7 {
        '7'
    } else if digit == 8 {
        '8'
    } else {
        '9'
    }
}

/// The decimal digits of `n`, without leading zeros.
pub open spec fn decimal(n: nat) -> Seq<char>
    decreases n,
{
    if n < 10 {
        seq![digit_char(n)]
    } else {
        decimal(n / 10).push(digit_char(n % 10))
    }
}

fn digit_str(digit: u32) -> (s: &'static str)
    requires
        digit < 10,
    ensures
        s@ == seq![digit_char(digit as nat)],
{
    proof {
        reveal_strlit("0");
        reveal_strlit("1");
        reveal_strlit("2");
        reveal_strlit("3");
        reveal_strlit("4");
        reveal_strlit("5");
        reveal_strlit("6");
        reveal_strlit("7");
        reveal_strlit("8");
        reveal_strlit("9");
    }
    let s = if digit == 0 {
        "0"
    } else if digit == 1 {
        "1"
    } else if digit == 2 {
        "2"
    } else if digit == 3 {
        "3"
    } else if digit == 4 {
        "4"
    } else if digit == 5 {
        "5"
    } else if digit == 6 {
        "6"
    } else if digit == 7 {
        "7"
    } else if digit == 8 {
        "8"
    } else {
        "9"
    };
    assert(s@ =~= seq![digit_char(digit as nat)]);
    s
}

/// `n` written in decimal digits, without leading zeros.
pub fn decimal_string(n: u32) -> (s: String)
    ensures
        s@ == decimal(n as nat),
    decreases n,
{
    if n < 10 {
        String::from_str(digit_str(n))
    } else {
        let mut s = decimal_string(n / 10);
        s.append(digit_str(n % 10));
        assert(s@ =~= decimal(n as nat));
        s
    }
}

/// What the writer of a painting reports.
#[derive(Debug, Copy, Clone, PartialEq, Eq, Structural)]
pub enum WriteFinished {
    /// The painting is on disk.
    Finished,
}

/// A kind of shader file.
#[derive(Debug, Copy, Clone, PartialEq, Eq, Structural)]
pub enum ShaderFileKind {
    /// Fragment shader source, which is compiled when it is loaded.
    Source,
    /// A compiled SPIR-V module, which is loaded as it is.
    Binary,
}

/// The place of the last full stop in `name`, or -1 where it has none.
pub open spec fn last_full_stop(name: Seq<char>) -> int
    decreases name.len(),
{
    if name.len() == 0 {
        -1
    } else if name.last() == '.' {
        name.len() - 1
    } else {
        last_full_stop(name.drop_last())
    }
}

/// The part of `name` behind its last full stop; the whole of `name` where
/// it has none.
pub open spec fn extension(name: Seq<char>) -> Seq<char> {
    name.subrange(last_full_stop(name) + 1, name.len() as int)
}

/// The last full stop is where no full stop follows.
pub proof fn lemma_last_full_stop(name: Seq<char>, at: int)
    requires
        -1 <= at < name.len(),
        at >= 0 ==> name[at] == '.',
        forall|j: int| at < j < name.len() ==> name[j] != '.',
    ensures
        last_full_stop(name) == at,
    decreases name.len(),
{
    if name.len() > 0 && name.last() != '.' {
        lemma_last_full_stop(name.drop_last(), at);
    }
}

/// The kind of shader that a file of the name `name` holds, going by what
/// stands behind the last full stop of the name: `frag` for source, `spv` for
/// a compiled module. Any other name holds no shader.
pub open spec fn spec_shader_file_kind(name: Seq<char>) -> Option<ShaderFileKind> {
    if extension(name) == "frag"@ {
        Some(ShaderFileKind::Source)
    } else if extension(name) == "spv"@ {
        Some(ShaderFileKind::Binary)
    } else {
        None
    }
}

/// The kind of shader that a file of the name `name` holds: source where
/// the name ends in `.frag`, a compiled module where it ends in `.spv`, and
/// none otherwise.
pub fn shader_file_kind(name: &str) -> (kind: Option<ShaderFileKind>)
    ensures
        kind == spec_shader_file_kind(name@),
{
    let len = name.unicode_len();
    let mut start: usize = len;
    while start > 0 && name.get_char(start - 1) != '.'
        invariant
            start <= len == name@.len(),
            forall|j: int| start <= j < len ==> name@[j] != '.',
        decreases start,
    {
        start -= 1;
    }
    proof {
        lemma_last_full_stop(name@, start - 1);
    }
    let ending = String::from_str(name.substring_char(start, len));
    if ending == String::from_str("frag") {
        Some(ShaderFileKind::Source)
    } else if ending == String::from_str("spv") {
        Some(ShaderFileKind::Binary)
    } else {
        None
    }
}

/// The list turned round: its last item first. Taking items off the end of
/// the result gives them in the order of the list.
pub fn reversed<T>(items: Vec<T>) -> (turned: Vec<T>)
    ensures
        turned@.len() == items@.len(),
        forall|j: int|
            0 <= j < turned@.len() ==> #[trigger] turned@[j] == items@[items@.len() - 1 - j],
{
    let ghost all = items@;
    let mut items = items;
    let mut turned: Vec<T> = Vec::new();
    while items.len() > 0
        invariant
            items@.len() + turned@.len() == all.len(),
            forall|j: int| 0 <= j < items@.len() ==> #[trigger] items@[j] == all[j],
            forall|j: int|
                0 <= j < turned@.len() ==> #[trigger] turned@[j] == all[all.len() - 1 - j],
        decreases items.len(),
    {
        let item = items.pop().unwrap();
        turned.push(item);
    }
    turned
}

/// A copy of `bytes`.
pub fn copy_bytes(bytes: &[u8]) -> (copy: Vec<u8>)
    ensures
        copy@ == bytes@,
{
    slice_to_vec(bytes)
}

} // verus!
