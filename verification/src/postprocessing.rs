//! Post-processing: shader stages that run one after the other on the
//! picture that the main shader drew.
//!
//! A render path owns two textures of the same size and format. The main
//! shader draws into the first, the target. Each stage then reads the
//! texture that the stage before it wrote and writes the other one. For a
//! painting or a movie frame a last stage, the conversion from linear colour
//! to sRGB, follows the stages that the user added.

use vstd::prelude::*;
use crate::binding::{BindingKind, BindingSlot};
use crate::texture::TextureFormat;

verus! {

/// The three places a picture is rendered for, each with a format of its own.
#[derive(Debug, Copy, Clone, PartialEq, Eq, Structural)]
pub enum PipelineType {
    /// The window.
    Render,
    /// A painting that is written to disk.
    Painting,
    /// A frame of a movie.
    Movie,
}

/// The format rendered to on the way to the window. It is linear, so that
/// post-processing works on linear colour.
pub const RENDER_TEXTURE_FORMAT: TextureFormat = TextureFormat::Rgba8Unorm;

/// The format of a painting.
pub const PAINTING_TEXTURE_FORMAT: TextureFormat = TextureFormat::Rgba16Float;

/// The format of a movie frame.
pub const MOVIE_TEXTURE_FORMAT: TextureFormat = TextureFormat::Rgba8UnormSrgb;

/// The format of the window's own images.
pub const SWAP_CHAIN_TEXTURE_FORMAT: TextureFormat = TextureFormat::Bgra8UnormSrgb;

impl PipelineType {
    /// The format that pictures of this kind are rendered in.
    pub open spec fn spec_format(self) -> TextureFormat {
        match self {
            PipelineType::Render => RENDER_TEXTURE_FORMAT,
            PipelineType::Painting => PAINTING_TEXTURE_FORMAT,
            PipelineType::Movie => MOVIE_TEXTURE_FORMAT,
        }
    }

    /// The format that pictures of this kind are rendered in.
    pub fn format(self) -> (format: TextureFormat)
        ensures
            format == self.spec_format(),
    {
        match self {
            PipelineType::Render => RENDER_TEXTURE_FORMAT,
            PipelineType::Painting => PAINTING_TEXTURE_FORMAT,
            PipelineType::Movie => MOVIE_TEXTURE_FORMAT,
        }
    }

    /// Whether the conversion to sRGB closes the chain. The window converts
    /// by itself; a painting and a movie frame do not.
    pub open spec fn spec_has_terminal_stage(self) -> bool {
        self != PipelineType::Render
    }

    /// Whether the conversion to sRGB closes the chain.
    pub fn has_terminal_stage(self) -> (terminal: bool)
        ensures
            terminal == self.spec_has_terminal_stage(),
    {
        match self {
            PipelineType::Render => false,
            PipelineType::Painting => true,
            PipelineType::Movie => true,
        }
    }
}

/// One of the two textures of a render path.
#[derive(Debug, Copy, Clone, PartialEq, Eq, Structural)]
pub enum TextureSlot {
    /// The texture that the main shader draws into.
    Target,
    /// The second texture.
    Scratch,
}

impl TextureSlot {
    /// The other texture.
    pub open spec fn spec_other(self) -> TextureSlot {
        match self {
            TextureSlot::Target => TextureSlot::Scratch,
            TextureSlot::Scratch => TextureSlot::Target,
        }
    }

    /// The other texture.
    pub fn other(self) -> (other: TextureSlot)
        ensures
            other == self.spec_other(),
    {
        match self {
            TextureSlot::Target => TextureSlot::Scratch,
            TextureSlot::Scratch => TextureSlot::Target,
        }
    }
}

/// A stage of the chain.
#[derive(Debug, Copy, Clone, PartialEq, Eq, Structural)]
pub enum StageRef {
    /// The stage that the user added at this position.
    User(usize),
    /// The conversion to sRGB.
    Terminal,
}

/// One of the uniform buffers.
#[derive(Debug, Copy, Clone, PartialEq, Eq, Structural)]
pub enum BufferSlot {
    /// The frame uniforms.
    FrameUniforms,
    /// The user's uniforms.
    UserUniforms,
}

/// A buffer bound from its start for `size` bytes.
#[derive(Debug, Copy, Clone, PartialEq, Eq, Structural)]
pub struct BufferBinding {
    pub binding: u32,
    pub buffer: BufferSlot,
    pub size: usize,
}

/// One draw: the three vertices of a triangle that covers the screen, drawn
/// once, without index buffer.
#[derive(Debug, Copy, Clone, PartialEq, Eq, Structural)]
pub struct DrawCall {
    pub vertices: u32,
    pub instances: u32,
}

/// The draw that every pass makes.
pub open spec fn full_screen_draw() -> DrawCall {
    DrawCall { vertices: 3, instances: 1 }
}

/// One render pass of a stage: what it binds, reads, writes and draws. The
/// output is cleared before the draw and stored after it; there is no depth
/// test and one sample per pixel.
#[derive(Debug, PartialEq, Eq)]
pub struct StagePass {
    /// The stage that runs.
    pub stage: StageRef,
    /// The pipeline of the stage that is used.
    pub pipeline: PipelineType,
    /// The first bind group: the uniform buffers.
    pub uniforms: Vec<BufferBinding>,
    /// The texture read, bound at binding 1 of the second bind group, behind
    /// the sampler at binding 0.
    pub input: TextureSlot,
    /// The texture written.
    pub output: TextureSlot,
    pub draw: DrawCall,
}

/// The frame uniforms and the size in bytes of each uniform buffer.
#[derive(Debug, Copy, Clone, PartialEq, Eq, Structural)]
pub struct UniformBuffers {
    /// Size of the frame uniform buffer.
    pub frame_size: usize,
    /// Size of the user's uniform buffer, if there is one.
    pub user_size: Option<usize>,
}

/// The uniform buffers that a pass binds: the frame uniforms at binding 0
/// and the user's uniforms, where there are any, at binding 1.
pub open spec fn spec_uniform_bindings(buffers: UniformBuffers) -> Seq<BufferBinding> {
    let frame = BufferBinding {
        binding: 0,
        buffer: BufferSlot::FrameUniforms,
        size: buffers.frame_size,
    };
    match buffers.user_size {
        Some(size) => seq![
            frame,
            BufferBinding { binding: 1, buffer: BufferSlot::UserUniforms, size },
        ],
        None => seq![frame],
    }
}

/// The uniform buffers that a pass binds.
pub fn uniform_bindings(buffers: UniformBuffers) -> (bindings: Vec<BufferBinding>)
    ensures
        bindings@ == spec_uniform_bindings(buffers),
{
    let mut bindings: Vec<BufferBinding> = Vec::new();
    bindings.push(
        BufferBinding { binding: 0, buffer: BufferSlot::FrameUniforms, size: buffers.frame_size },
    );
    match buffers.user_size {
        Some(size) => {
            bindings.push(BufferBinding { binding: 1, buffer: BufferSlot::UserUniforms, size });
        },
        None => {},
    }
    assert(bindings@ =~= spec_uniform_bindings(buffers));
    bindings
}

/// A post-processing shader that runs after the main fragment shader.
#[derive(Debug, PartialEq, Eq)]
pub struct PostProcess {
    /// The compiled fragment shader.
    pub shader_module: Vec<u8>,
    /// Whether the stage is given the user's uniforms.
    pub custom_uniforms_provided: bool,
}

/// What a `PostProcess` holds.
pub struct PostProcessView {
    pub shader_module: Seq<u8>,
    pub custom_uniforms_provided: bool,
}

impl View for PostProcess {
    type V = PostProcessView;

    open spec fn view(&self) -> PostProcessView {
        PostProcessView {
            shader_module: self.shader_module@,
            custom_uniforms_provided: self.custom_uniforms_provided,
        }
    }
}

/// The views of a list of stages, in order.
pub open spec fn postprocess_views(stages: Seq<PostProcess>) -> Seq<PostProcessView> {
    Seq::new(stages.len(), |i: int| stages[i]@)
}

/// The pass that runs `stage` from `input` to `output`.
pub open spec fn stage_pass_wf(
    pass: StagePass,
    stage: StageRef,
    input: TextureSlot,
    output: TextureSlot,
    buffers: UniformBuffers,
    pipeline_type: PipelineType,
) -> bool {
    &&& pass.stage == stage
    &&& pass.pipeline == pipeline_type
    &&& pass.uniforms@ == spec_uniform_bindings(buffers)
    &&& pass.input == input
    &&& pass.output == output
    &&& pass.draw == full_screen_draw()
}

impl PostProcess {
    /// The stage that runs the compiled shader `shader_module`.
    pub fn new(shader_module: Vec<u8>, custom_uniforms_provided: bool) -> (stage: PostProcess)
        ensures
            stage@ == (PostProcessView {
                shader_module: shader_module@,
                custom_uniforms_provided,
            }),
    {
        PostProcess { shader_module, custom_uniforms_provided }
    }

    /// The layout of the stage's first bind group: one uniform buffer for
    /// the frame uniforms and, where the stage is given them, one for the
    /// user's.
    pub fn uniforms_bind_group_layout(&self) -> (layout: Vec<BindingSlot>)
        ensures
            layout@ == crate::binding::spec_primary_layout(self.custom_uniforms_provided),
    {
        crate::binding::primary_bind_group_layout(self.custom_uniforms_provided)
    }

    /// The layout of the stage's second bind group: a sampler and the one
    /// texture that the stage reads.
    pub fn texture_bind_group_layout(&self) -> (layout: Vec<BindingSlot>)
        ensures
            layout@ == crate::binding::spec_secondary_layout(1),
    {
        let mut layout: Vec<BindingSlot> = Vec::new();
        layout.push(BindingSlot { binding: 0, kind: BindingKind::Sampler });
        layout.push(BindingSlot { binding: 1, kind: BindingKind::Texture });
        assert(layout@ =~= crate::binding::spec_secondary_layout(1));
        layout
    }

    /// The formats of the three pipelines of a stage, which differ in
    /// nothing else: for the window, for a painting and for a movie frame.
    pub fn pipeline_formats() -> (formats: (TextureFormat, TextureFormat, TextureFormat))
        ensures
            formats == (
                RENDER_TEXTURE_FORMAT,
                PAINTING_TEXTURE_FORMAT,
                MOVIE_TEXTURE_FORMAT,
            ),
    {
        (RENDER_TEXTURE_FORMAT, PAINTING_TEXTURE_FORMAT, MOVIE_TEXTURE_FORMAT)
    }

    /// The render pass that runs this stage, which is the stage `stage` of
    /// its chain, from `input` to `output`.
    ///
    /// The uniform buffers bound are as many as the stage's layout has
    /// entries exactly if the stage is given the user's uniforms when it was
    /// made for them, and only then.
    pub fn post_process(
        &self,
        stage: StageRef,
        input: TextureSlot,
        output: TextureSlot,
        buffers: UniformBuffers,
        pipeline_type: PipelineType,
    ) -> (pass: StagePass)
        ensures
            stage_pass_wf(pass, stage, input, output, buffers, pipeline_type),
            (pass.uniforms@.len() == crate::binding::spec_primary_layout(
                self.custom_uniforms_provided,
            ).len()) == (buffers.user_size is Some == self.custom_uniforms_provided),
    {
        StagePass {
            stage,
            pipeline: pipeline_type,
            uniforms: uniform_bindings(buffers),
            input,
            output,
            draw: DrawCall { vertices: 3, instances: 1 },
        }
    }
}

/// One step of a chain: the stage that runs, the texture it reads and the
/// texture it writes.
#[derive(Debug, Copy, Clone, PartialEq, Eq, Structural)]
pub struct ChainStep {
    pub stage: StageRef,
    pub input: TextureSlot,
    pub output: TextureSlot,
}

/// The texture that holds the picture after `k` steps.
pub open spec fn slot_after(k: int) -> TextureSlot {
    if k % 2 == 0 {
        TextureSlot::Target
    } else {
        TextureSlot::Scratch
    }
}

/// The number of steps of a chain of `stages` user stages.
pub open spec fn chain_len(stages: nat, pipeline_type: PipelineType) -> nat {
    if pipeline_type.spec_has_terminal_stage() {
        stages + 1
    } else {
        stages
    }
}

/// The steps of a chain of `stages` user stages: the user's stages in their
/// order and then, except for the window, the conversion to sRGB. Step `k`
/// reads the texture that holds the picture after `k` steps and writes the
/// other one.
pub open spec fn chain_steps(stages: nat, pipeline_type: PipelineType) -> Seq<ChainStep> {
    Seq::new(
        chain_len(stages, pipeline_type),
        |k: int|
            ChainStep {
                stage: if k < stages {
                    StageRef::User(k as usize)
                } else {
                    StageRef::Terminal
                },
                input: slot_after(k),
                output: slot_after(k + 1),
            },
    )
}

/// The texture that holds the finished picture.
pub open spec fn chain_output(stages: nat, pipeline_type: PipelineType) -> TextureSlot {
    slot_after(chain_len(stages, pipeline_type) as int)
}

/// The steps of a chain of `stages` user stages, in the order in which they
/// run.
pub fn plan_chain(stages: usize, pipeline_type: PipelineType) -> (steps: Vec<ChainStep>)
    ensures
        steps@ == chain_steps(stages as nat, pipeline_type),
        steps@.len() == chain_len(stages as nat, pipeline_type),
{
    let mut steps: Vec<ChainStep> = Vec::new();
    let mut input = TextureSlot::Target;
    let mut k: usize = 0;
    while k < stages
        invariant
            k <= stages,
            input == slot_after(k as int),
            steps@.len() == k,
            forall|j: int|
                0 <= j < k ==> #[trigger] steps@[j] == chain_steps(stages as nat, pipeline_type)[j],
        decreases stages - k,
    {
        steps.push(ChainStep { stage: StageRef::User(k), input, output: input.other() });
        input = input.other();
        k += 1;
    }
    if pipeline_type.has_terminal_stage() {
        steps.push(ChainStep { stage: StageRef::Terminal, input, output: input.other() });
    }
    assert(steps@ =~= chain_steps(stages as nat, pipeline_type));
    steps
}

/// The texture that holds the finished picture of a chain of `stages` user
/// stages.
pub fn plan_chain_output(stages: usize, pipeline_type: PipelineType) -> (slot: TextureSlot)
    ensures
        slot == chain_output(stages as nat, pipeline_type),
{
    let after_user_stages = if stages % 2 == 0 {
        TextureSlot::Target
    } else {
        TextureSlot::Scratch
    };
    if pipeline_type.has_terminal_stage() {
        after_user_stages.other()
    } else {
        after_user_stages
    }
}

/// A chain of N user stages runs N + 1 passes for a painting or a movie
/// frame, the last of them the conversion to sRGB, and N passes for the
/// window.
pub proof fn lemma_chain_pass_count(stages: nat)
    ensures
        chain_steps(stages, PipelineType::Painting).len() == stages + 1,
        chain_steps(stages, PipelineType::Movie).len() == stages + 1,
        chain_steps(stages, PipelineType::Render).len() == stages,
        chain_steps(stages, PipelineType::Painting).last().stage == StageRef::Terminal,
        chain_steps(stages, PipelineType::Movie).last().stage == StageRef::Terminal,
        forall|k: int|
            0 <= k < stages ==> (#[trigger] chain_steps(stages, PipelineType::Render)[k]).stage
                != StageRef::Terminal,
{
}

/// The first step reads the texture that the main shader drew into. Every
/// later step reads the texture that the step before it wrote. No step reads
/// the texture that it writes, and the last step writes the texture that
/// holds the finished picture.
pub proof fn lemma_chain_ping_pong(stages: nat, pipeline_type: PipelineType, k: int)
    requires
        0 <= k < chain_steps(stages, pipeline_type).len(),
    ensures
        k == 0 ==> chain_steps(stages, pipeline_type)[k].input == TextureSlot::Target,
        k > 0 ==> chain_steps(stages, pipeline_type)[k].input == chain_steps(
            stages,
            pipeline_type,
        )[k - 1].output,
        chain_steps(stages, pipeline_type)[k].input != chain_steps(stages, pipeline_type)[k].output,
        k == chain_steps(stages, pipeline_type).len() - 1 ==> chain_steps(
            stages,
            pipeline_type,
        )[k].output == chain_output(stages, pipeline_type),
{
}

/// The user's stages run in the order in which they were added, each once,
/// and the conversion to sRGB comes after all of them.
pub proof fn lemma_chain_order(stages: nat, pipeline_type: PipelineType, k: int)
    requires
        0 <= k < chain_steps(stages, pipeline_type).len(),
        stages <= usize::MAX,
    ensures
        k < stages ==> chain_steps(stages, pipeline_type)[k].stage == StageRef::User(k as usize),
        k >= stages ==> chain_steps(stages, pipeline_type)[k].stage == StageRef::Terminal,
        chain_steps(stages, pipeline_type)[k].stage == StageRef::Terminal ==> k
            == chain_steps(stages, pipeline_type).len() - 1,
{
}

} // verus!
