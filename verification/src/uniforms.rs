//! The values a shader is given: the frame uniforms that every shader
//! receives, and the named scalars a user declares.

use vstd::prelude::*;
use crate::config::{section_loadable, ConfigDocument, ConfigEntry};
use crate::utils::{
    convert_bytes_to_value, convert_value_to_bytes, copy_bytes, i32_bits, u32_bytes, value_bytes,
    value_from_bytes, UniformValue, SIZE_MISMATCH,
};
use crate::vector::{BitsVector2, BitsVector4, IntVector4, UIntVector2};

verus! {

/// The kind of a user uniform.
#[derive(Debug, Copy, Clone, PartialEq, Eq, Structural)]
pub enum UserUniformType {
    Float32,
    Float64,
    UInt32,
    UInt64,
    Int32,
    Int64,
    Bool,
}

impl UserUniformType {
    /// Width of the kind in bytes. A boolean is as wide as a 32-bit integer,
    /// so that every uniform starts on a four-byte boundary.
    pub open spec fn spec_size(self) -> nat {
        match self {
            UserUniformType::Float32 => 4,
            UserUniformType::Float64 => 8,
            UserUniformType::UInt32 => 4,
            UserUniformType::UInt64 => 8,
            UserUniformType::Int32 => 4,
            UserUniformType::Int64 => 8,
            UserUniformType::Bool => 4,
        }
    }

    /// Width of the kind in bytes.
    pub fn size(self) -> (size: usize)
        ensures
            size == self.spec_size(),
    {
        match self {
            UserUniformType::Float32 => 4,
            UserUniformType::Float64 => 8,
            UserUniformType::UInt32 => 4,
            UserUniformType::UInt64 => 8,
            UserUniformType::Int32 => 4,
            UserUniformType::Int64 => 8,
            UserUniformType::Bool => 4,
        }
    }
}

/// The values that every shader receives each frame, kept exact: lengths in
/// pixels, times in nanoseconds, and the mouse position as the bit patterns
/// of its single-precision coordinates.
#[derive(Debug, Copy, Clone, PartialEq, Eq, Structural)]
pub struct Uniforms {
    /// Viewport resolution in pixels.
    pub resolution: UIntVector2,
    /// Mouse pixel coordinates. `x`, `y`: current; `z`, `w`: previous.
    pub mouse_position: BitsVector4,
    /// Whether a mouse button is down (1) or not (0).
    /// `x`: left, `y`: right, `z`: middle, `w`: any other.
    pub mouse_button: IntVector4,
    /// Year, month, day; `w` is unused.
    pub date: IntVector4,
    /// Time spent playing, in nanoseconds.
    pub time: u64,
    /// Time since the previous frame, in nanoseconds.
    pub time_delta: u64,
    /// Shader playback frame.
    pub frame_num: u32,
    /// Number of textures bound.
    pub num_textures: u32,
}

impl Uniforms {
    /// The uniforms before the first frame: everything zero.
    pub open spec fn spec_new() -> Uniforms {
        Uniforms {
            resolution: UIntVector2 { x: 0, y: 0 },
            mouse_position: BitsVector4 { x: 0, y: 0, z: 0, w: 0 },
            mouse_button: IntVector4 { x: 0, y: 0, z: 0, w: 0 },
            date: IntVector4 { x: 0, y: 0, z: 0, w: 0 },
            time: 0,
            time_delta: 0,
            frame_num: 0,
            num_textures: 0,
        }
    }

    /// The uniforms before the first frame: everything zero.
    pub fn new() -> (uniforms: Uniforms)
        ensures
            uniforms == Uniforms::spec_new(),
    {
        Uniforms {
            resolution: UIntVector2::zero(),
            mouse_position: BitsVector4::zero(),
            mouse_button: IntVector4::zero(),
            date: IntVector4::zero(),
            time: 0,
            time_delta: 0,
            frame_num: 0,
            num_textures: 0,
        }
    }
}

/// The frame uniforms as the shader reads them: twenty 32-bit words. Each
/// single-precision number is held as its IEEE-754 bit pattern.
#[derive(Debug, Copy, Clone, PartialEq, Eq, Structural)]
pub struct UniformBlock {
    /// Viewport resolution in pixels; `z` and `w` are unused.
    pub resolution: BitsVector4,
    /// Mouse pixel coordinates. `x`, `y`: current; `z`, `w`: previous.
    pub mouse_position: BitsVector4,
    pub mouse_button: IntVector4,
    pub date: IntVector4,
    /// Time spent playing, in seconds.
    pub time: u32,
    /// Time since the previous frame, in seconds.
    pub time_delta: u32,
    pub frame_num: u32,
    pub num_textures: u32,
}

/// Number of bytes of the frame uniform block. Shaders are written against
/// this size and the order of the fields.
pub const UNIFORM_BLOCK_SIZE: usize = 80;

/// The bytes of a list of 32-bit words, each least significant byte first.
pub open spec fn words_bytes(words: Seq<u32>) -> Seq<u8>
    decreases words.len(),
{
    if words.len() == 0 {
        Seq::empty()
    } else {
        words_bytes(words.drop_last()) + u32_bytes(words.last())
    }
}

/// A list of 32-bit words takes four bytes for each word.
pub proof fn lemma_words_bytes_len(words: Seq<u32>)
    ensures
        words_bytes(words).len() == 4 * words.len(),
    decreases words.len(),
{
    if words.len() > 0 {
        lemma_words_bytes_len(words.drop_last());
    }
}

impl UniformBlock {
    /// The words of the block: its fields in the order in which they are
    /// declared, the components of a vector in the order x, y, z, w, signed
    /// numbers as their two's-complement bit patterns.
    pub open spec fn spec_words(self) -> Seq<u32> {
        seq![
            self.resolution.x,
            self.resolution.y,
            self.resolution.z,
            self.resolution.w,
            self.mouse_position.x,
            self.mouse_position.y,
            self.mouse_position.z,
            self.mouse_position.w,
            i32_bits(self.mouse_button.x),
            i32_bits(self.mouse_button.y),
            i32_bits(self.mouse_button.z),
            i32_bits(self.mouse_button.w),
            i32_bits(self.date.x),
            i32_bits(self.date.y),
            i32_bits(self.date.z),
            i32_bits(self.date.w),
            self.time,
            self.time_delta,
            self.frame_num,
            self.num_textures,
        ]
    }

    /// The bytes of the block: its words, each least significant byte first.
    pub open spec fn spec_bytes(self) -> Seq<u8> {
        words_bytes(self.spec_words())
    }

    /// The words of the block.
    pub fn words(&self) -> (words: Vec<u32>)
        ensures
            words@ == self.spec_words(),
    {
        let mut words: Vec<u32> = Vec::new();
        words.push(self.resolution.x);
        words.push(self.resolution.y);
        words.push(self.resolution.z);
        words.push(self.resolution.w);
        words.push(self.mouse_position.x);
        words.push(self.mouse_position.y);
        words.push(self.mouse_position.z);
        words.push(self.mouse_position.w);
        words.push(crate::utils::bits_of_signed(self.mouse_button.x));
        words.push(crate::utils::bits_of_signed(self.mouse_button.y));
        words.push(crate::utils::bits_of_signed(self.mouse_button.z));
        words.push(crate::utils::bits_of_signed(self.mouse_button.w));
        words.push(crate::utils::bits_of_signed(self.date.x));
        words.push(crate::utils::bits_of_signed(self.date.y));
        words.push(crate::utils::bits_of_signed(self.date.z));
        words.push(crate::utils::bits_of_signed(self.date.w));
        words.push(self.time);
        words.push(self.time_delta);
        words.push(self.frame_num);
        words.push(self.num_textures);
        assert(words@ =~= self.spec_words());
        words
    }

    /// The bytes of the block as they are copied to the device: always
    /// `UNIFORM_BLOCK_SIZE` of them.
    pub fn to_bytes(&self) -> (bytes: Vec<u8>)
        ensures
            bytes@ == self.spec_bytes(),
            bytes@.len() == UNIFORM_BLOCK_SIZE,
    {
        let words = self.words();
        let mut bytes: Vec<u8> = Vec::new();
        let mut i: usize = 0;
        while i < words.len()
            invariant
                i <= words.len(),
                bytes@ == words_bytes(words@.subrange(0, i as int)),
            decreases words.len() - i,
        {
            proof {
                assert(words@.subrange(0, i + 1).drop_last() =~= words@.subrange(0, i as int));
            }
            crate::utils::push_u32(&mut bytes, words[i]);
            i += 1;
        }
        proof {
            assert(words@.subrange(0, i as int) =~= words@);
            lemma_words_bytes_len(words@);
        }
        bytes
    }
}

impl Uniforms {
    /// The block that the shader reads for these uniforms. The caller gives
    /// the numbers that the shader reads in single precision: the width and
    /// height of the viewport, the time and the time since the previous
    /// frame in seconds, and the mouse position, which for a painting is
    /// scaled to the painting's size.
    pub fn to_block(
        &self,
        resolution: BitsVector2,
        mouse_position: BitsVector4,
        time: u32,
        time_delta: u32,
    ) -> (block: UniformBlock)
        ensures
            block == (UniformBlock {
                resolution: BitsVector4 { x: resolution.x, y: resolution.y, z: 0, w: 0 },
                mouse_position,
                mouse_button: self.mouse_button,
                date: self.date,
                time,
                time_delta,
                frame_num: self.frame_num,
                num_textures: self.num_textures,
            }),
    {
        UniformBlock {
            resolution: BitsVector4 { x: resolution.x, y: resolution.y, z: 0, w: 0 },
            mouse_position,
            mouse_button: self.mouse_button,
            date: self.date,
            time,
            time_delta,
            frame_num: self.frame_num,
            num_textures: self.num_textures,
        }
    }
}

/// A named scalar that a user declares for a shader. The value is held as
/// the bytes that are uploaded.
#[derive(Debug, PartialEq, Eq)]
pub struct UserUniform {
    pub bytes: Vec<u8>,
    pub name: String,
    pub inherent_type: UserUniformType,
}

/// What a `UserUniform` holds.
pub struct UserUniformView {
    pub bytes: Seq<u8>,
    pub name: Seq<char>,
    pub inherent_type: UserUniformType,
}

impl View for UserUniform {
    type V = UserUniformView;

    open spec fn view(&self) -> UserUniformView {
        UserUniformView { bytes: self.bytes@, name: self.name@, inherent_type: self.inherent_type }
    }
}

impl UserUniformView {
    /// The uniform holds exactly as many bytes as its kind is wide.
    pub open spec fn well_formed(self) -> bool {
        self.bytes.len() == self.inherent_type.spec_size()
    }

    /// The uniform named `name` that holds `value`.
    pub open spec fn of_value(name: Seq<char>, value: UniformValue) -> UserUniformView {
        UserUniformView { bytes: value_bytes(value), name, inherent_type: value.spec_kind() }
    }
}

impl UserUniform {
    /// The uniform holds exactly as many bytes as its kind is wide.
    pub open spec fn well_formed(&self) -> bool {
        self@.well_formed()
    }

    /// A uniform named `name` that holds `value`.
    pub fn new(name: String, value: UniformValue) -> (uniform: UserUniform)
        ensures
            uniform@ == UserUniformView::of_value(name@, value),
            uniform.well_formed(),
    {
        UserUniform { bytes: convert_value_to_bytes(value), name, inherent_type: value.kind() }
    }

    /// The value, read from the bytes as the uniform's kind. Fails with
    /// `SIZE_MISMATCH` when the uniform does not hold as many bytes as its
    /// kind is wide.
    pub fn get_value(&self) -> (value: Result<UniformValue, &'static str>)
        ensures
            self.well_formed() ==> value == Ok::<UniformValue, &'static str>(
                value_from_bytes(self@.bytes, self@.inherent_type),
            ),
            !self.well_formed() ==> value == Err::<UniformValue, &'static str>(SIZE_MISMATCH),
    {
        convert_bytes_to_value(self.bytes.as_slice(), self.inherent_type)
    }

    /// Number of bytes the uniform takes in the buffer.
    pub fn size(&self) -> (size: usize)
        ensures
            size == self@.bytes.len(),
    {
        self.bytes.len()
    }

    /// The name by which the shader description declares the uniform.
    pub fn name(&self) -> (name: &str)
        ensures
            name@ == self@.name,
    {
        self.name.as_str()
    }

    /// The bytes that are uploaded for the uniform.
    pub fn bytes(&self) -> (bytes: Vec<u8>)
        ensures
            bytes@ == self@.bytes,
    {
        copy_bytes(self.bytes.as_slice())
    }

    /// Replaces the value by `bytes`, when they are as many as the uniform's
    /// kind is wide; otherwise leaves the uniform as it is. Says whether the
    /// bytes were taken.
    pub fn set(&mut self, bytes: &[u8]) -> (taken: bool)
        ensures
            taken == (bytes@.len() == old(self)@.inherent_type.spec_size()),
            taken ==> final(self)@ == (UserUniformView { bytes: bytes@, ..old(self)@ }),
            !taken ==> final(self)@ == old(self)@,
    {
        if bytes.len() == self.inherent_type.size() {
            self.bytes = copy_bytes(bytes);
            true
        } else {
            false
        }
    }

    /// Replaces the value by `value`, when it is of the uniform's kind;
    /// otherwise leaves the uniform as it is. Says whether it was taken.
    pub fn set_value(&mut self, value: UniformValue) -> (taken: bool)
        ensures
            taken == (value.spec_kind() == old(self)@.inherent_type),
            taken ==> final(self)@ == (UserUniformView {
                bytes: value_bytes(value),
                ..old(self)@
            }),
            !taken ==> final(self)@ == old(self)@,
    {
        if value.kind() == self.inherent_type {
            self.bytes = convert_value_to_bytes(value);
            true
        } else {
            false
        }
    }

    /// An independent copy, to be handed to another thread.
    pub fn copy(&self) -> (copy: UserUniform)
        ensures
            copy@ == self@,
    {
        UserUniform {
            bytes: copy_bytes(self.bytes.as_slice()),
            name: self.name.clone(),
            inherent_type: self.inherent_type,
        }
    }
}

impl Clone for UserUniform {
    fn clone(&self) -> (copy: UserUniform)
        ensures
            copy@ == self@,
    {
        self.copy()
    }
}

/// The uniforms that a section declares: one for each declaration whose tag
/// names a kind, in the order of the declarations.
pub open spec fn loaded_uniforms(entries: Seq<ConfigEntry>) -> Seq<UserUniformView>
    decreases entries.len(),
{
    if entries.len() == 0 {
        Seq::empty()
    } else {
        let rest = loaded_uniforms(entries.drop_last());
        match entries.last().spec_scalar() {
            Some(value) => rest.push(UserUniformView::of_value(entries.last().name@, value)),
            None => rest,
        }
    }
}

/// Loads the uniforms of the section `"uniforms"`. Each declaration gives a
/// name, a type tag and a value:
///
/// ```text
/// "uniforms": {
///     "dynamic": ["bool", false],
///     "ground_truth": ["f32", 4.0]
/// }
/// ```
///
/// The tags are `f32`, `f64`, `u32`, `u64`, `i32`, `i64` and `bool` (bound as
/// a 32-bit unsigned integer in the shader); a declaration with any other tag
/// is left out. The result keeps the order of the declarations, which is the
/// order in which the uniforms are bound.
pub fn load_uniforms_from_json(data: &ConfigDocument) -> (uniforms: Vec<UserUniform>)
    requires
        section_loadable(data.uniforms@),
    ensures
        uniform_views(uniforms@) == loaded_uniforms(data.uniforms@),
{
    let entries = &data.uniforms;
    let mut uniforms: Vec<UserUniform> = Vec::new();
    let mut i: usize = 0;
    while i < entries.len()
        invariant
            i <= entries.len(),
            section_loadable(entries@),
            uniform_views(uniforms@) == loaded_uniforms(entries@.subrange(0, i as int)),
        decreases entries.len() - i,
    {
        let ghost before = uniforms@;
        proof {
            assert(entries@.subrange(0, i + 1).drop_last() =~= entries@.subrange(0, i as int));
            assert(entries@[i as int].spec_loadable());
        }
        match entries[i].scalar() {
            Some(value) => {
                let uniform = UserUniform::new(entries[i].name.clone(), value);
                uniforms.push(uniform);
                assert(uniform_views(uniforms@) =~= uniform_views(before).push(uniform@));
            },
            None => {},
        }
        i += 1;
    }
    proof {
        assert(entries@.subrange(0, i as int) =~= entries@);
    }
    uniforms
}

/// The views of a list of uniforms, in order.
pub open spec fn uniform_views(uniforms: Seq<UserUniform>) -> Seq<UserUniformView> {
    Seq::new(uniforms.len(), |i: int| uniforms[i]@)
}

/// The bytes of a list of uniforms, one after the other in the order of the
/// list.
pub open spec fn concat_uniform_bytes(uniforms: Seq<UserUniformView>) -> Seq<u8>
    decreases uniforms.len(),
{
    if uniforms.len() == 0 {
        Seq::empty()
    } else {
        concat_uniform_bytes(uniforms.drop_last()) + uniforms.last().bytes
    }
}

/// The bytes of a list of uniforms are as many as the sizes of the uniforms
/// add up to: the buffer and its contents always agree in length.
pub proof fn lemma_concat_uniform_bytes_len(uniforms: Seq<UserUniformView>)
    ensures
        concat_uniform_bytes(uniforms).len() == total_uniform_size(uniforms),
    decreases uniforms.len(),
{
    if uniforms.len() > 0 {
        lemma_concat_uniform_bytes_len(uniforms.drop_last());
    }
}

/// The sizes of a list of uniforms, added up.
pub open spec fn total_uniform_size(uniforms: Seq<UserUniformView>) -> nat
    decreases uniforms.len(),
{
    if uniforms.len() == 0 {
        0
    } else {
        total_uniform_size(uniforms.drop_last()) + uniforms.last().bytes.len()
    }
}

/// The contents of the custom uniform buffer: the bytes of every uniform in
/// the order of the list.
pub fn uniform_buffer_contents(uniforms: &Vec<UserUniform>) -> (bytes: Vec<u8>)
    ensures
        bytes@ == concat_uniform_bytes(uniform_views(uniforms@)),
        bytes@.len() == total_uniform_size(uniform_views(uniforms@)),
{
    let mut bytes: Vec<u8> = Vec::new();
    let mut i: usize = 0;
    let ghost views = uniform_views(uniforms@);
    while i < uniforms.len()
        invariant
            i <= uniforms.len(),
            views == uniform_views(uniforms@),
            bytes@ == concat_uniform_bytes(views.subrange(0, i as int)),
        decreases uniforms.len() - i,
    {
        let mut part = uniforms[i].bytes();
        proof {
            let next = views.subrange(0, i + 1);
            assert(next.drop_last() =~= views.subrange(0, i as int));
            assert(next.last() == uniforms[i as int]@);
        }
        bytes.append(&mut part);
        i += 1;
    }
    proof {
        assert(views.subrange(0, i as int) =~= views);
        lemma_concat_uniform_bytes_len(views);
    }
    bytes
}

} // verus!
