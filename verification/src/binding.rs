//! The bindings that a shader sees.
//!
//! The first bind group holds the frame uniforms at binding 0 and, where the
//! user declared any uniforms, the custom uniform buffer at binding 1. The
//! second holds a sampler at binding 0 and one texture for each bound image
//! from binding 1 on, in the order in which the images were given.

use vstd::prelude::*;

verus! {

/// What is bound at one binding.
#[derive(Debug, Copy, Clone, PartialEq, Eq, Structural)]
pub enum BindingKind {
    /// A uniform buffer, without dynamic offset.
    UniformBuffer,
    /// A filtering sampler.
    Sampler,
    /// A filterable 2D texture, not multisampled.
    Texture,
}

/// One entry of a bind group layout. Every entry is visible to the fragment
/// stage only.
#[derive(Debug, Copy, Clone, PartialEq, Eq, Structural)]
pub struct BindingSlot {
    pub binding: u32,
    pub kind: BindingKind,
}

/// Why a set of bindings cannot be made.
#[derive(Debug, Copy, Clone, PartialEq, Eq, Structural)]
pub enum BindingError {
    /// More textures were given than a shader stage can sample.
    TooManyTextures { given: usize, limit: u32 },
}

/// The graphics backend that the device runs on.
#[derive(Debug, Copy, Clone, PartialEq, Eq, Structural)]
pub enum Backend {
    Vulkan,
    Dx12,
    Metal,
    Other,
}

/// The first bind group layout: the frame uniforms, then the custom uniforms
/// if there are any.
pub open spec fn spec_primary_layout(custom_uniforms: bool) -> Seq<BindingSlot> {
    if custom_uniforms {
        seq![
            BindingSlot { binding: 0, kind: BindingKind::UniformBuffer },
            BindingSlot { binding: 1, kind: BindingKind::UniformBuffer },
        ]
    } else {
        seq![BindingSlot { binding: 0, kind: BindingKind::UniformBuffer }]
    }
}

/// The second bind group layout: the sampler, then `num_textures` textures.
pub open spec fn spec_secondary_layout(num_textures: nat) -> Seq<BindingSlot> {
    Seq::new(
        num_textures + 1,
        |i: int|
            if i == 0 {
                BindingSlot { binding: 0, kind: BindingKind::Sampler }
            } else {
                BindingSlot { binding: i as u32, kind: BindingKind::Texture }
            },
    )
}

/// The first bind group layout. Binding 0 is the frame uniform buffer;
/// binding 1 is the custom uniform buffer, and is there if and only if
/// `custom_uniforms` says that the user declared uniforms.
pub fn primary_bind_group_layout(custom_uniforms: bool) -> (layout: Vec<BindingSlot>)
    ensures
        layout@ == spec_primary_layout(custom_uniforms),
{
    let mut layout: Vec<BindingSlot> = Vec::new();
    layout.push(BindingSlot { binding: 0, kind: BindingKind::UniformBuffer });
    if custom_uniforms {
        layout.push(BindingSlot { binding: 1, kind: BindingKind::UniformBuffer });
    }
    assert(layout@ =~= spec_primary_layout(custom_uniforms));
    layout
}

/// The second bind group layout. Binding 0 is the sampler; the textures
/// follow from binding 1 on, in the order in which they were given. More
/// textures than `max_textures`, the number that a shader stage of the device
/// can sample, are refused.
pub fn secondary_bind_group_layout(num_textures: usize, max_textures: u32) -> (layout: Result<
    Vec<BindingSlot>,
    BindingError,
>)
    ensures
        num_textures <= max_textures ==> layout is Ok && layout->Ok_0@ == spec_secondary_layout(
            num_textures as nat,
        ),
        num_textures > max_textures ==> layout == Err::<Vec<BindingSlot>, BindingError>(
            BindingError::TooManyTextures { given: num_textures, limit: max_textures },
        ),
{
    if num_textures > max_textures as usize {
        return Err(BindingError::TooManyTextures { given: num_textures, limit: max_textures });
    }
    let mut layout: Vec<BindingSlot> = Vec::new();
    layout.push(BindingSlot { binding: 0, kind: BindingKind::Sampler });
    let mut bound: usize = 0;
    while bound < num_textures
        invariant
            bound <= num_textures <= max_textures,
            layout@ =~= spec_secondary_layout(bound as nat),
        decreases num_textures - bound,
    {
        bound += 1;
        layout.push(BindingSlot { binding: bound as u32, kind: BindingKind::Texture });
    }
    Ok(layout)
}

/// The largest push constant block that a backend offers, in bytes.
pub fn max_push_constant_size(backend: Backend) -> (size: u32)
    ensures
        size == match backend {
            Backend::Vulkan => 256u32,
            Backend::Dx12 => 256u32,
            Backend::Metal => 4096u32,
            Backend::Other => 128u32,
        },
{
    match backend {
        Backend::Vulkan => 256,
        Backend::Dx12 => 256,
        Backend::Metal => 4096,
        Backend::Other => 128,
    }
}

} // verus!
