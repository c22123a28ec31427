//! What the canvas renders: the frame for the window, a painting, a movie
//! frame. Each comes as a plan of what to draw, in which order, from which
//! texture into which.

use vstd::prelude::*;
use super::message::{
    action_views, CanvasAction, CanvasActionView, CanvasMessage, CanvasMessageView, SwapChainError,
};
use super::{Canvas, CanvasView};
use crate::binding::{
    primary_bind_group_layout, spec_primary_layout, spec_secondary_layout, BindingKind,
    BindingSlot,
};
use crate::postprocessing::{
    chain_output, chain_steps, full_screen_draw, plan_chain, plan_chain_output, stage_pass_wf,
    uniform_bindings, DrawCall, PipelineType, StagePass, StageRef, TextureSlot, UniformBuffers,
};
use crate::push_constants::{
    push_constant_writes, push_constant_writes_wf, push_constants_size, total_push_constant_size,
    PushConstantWrite,
};
use crate::texture::{image_layout, spec_image_layout, ImageLayout, TextureFormat};
use crate::uniforms::{Uniforms, UNIFORM_BLOCK_SIZE};
use crate::vector::UIntVector2;

verus! {

/// A fraction.
#[derive(Debug, Copy, Clone, PartialEq, Eq, Structural)]
pub struct Ratio {
    pub numerator: u32,
    pub denominator: u32,
}

/// How the mouse position is scaled for a picture of another size than the
/// window: `x` and `z` by `horizontal`, `y` and `w` by `vertical`.
#[derive(Debug, Copy, Clone, PartialEq, Eq, Structural)]
pub struct MouseScale {
    pub horizontal: Ratio,
    pub vertical: Ratio,
}

/// How a picture is rendered.
///
/// Two textures of size `resolution` and format `format` are made. The main
/// shader draws into the first with `main_draw`, with the two bind groups of
/// the canvas bound and `push_constants` sent. Then `passes` run in order.
/// The finished picture is in `output`. For the window it is drawn from
/// there into the window's image with `present`, by a pipeline of its own
/// that binds a sampler and the picture and nothing else; otherwise it is
/// copied from there into a buffer that the CPU can read, laid out as
/// `readback` says.
#[derive(Debug, PartialEq, Eq)]
pub struct RenderPlan {
    pub pipeline: PipelineType,
    pub resolution: UIntVector2,
    pub format: TextureFormat,
    /// The frame uniforms to copy to the device before anything is drawn,
    /// where they differ from those of the last update.
    pub uniforms: Option<Uniforms>,
    /// How the mouse position in `uniforms` is to be scaled.
    pub mouse_scale: Option<MouseScale>,
    pub push_constants: Vec<PushConstantWrite>,
    pub main_draw: DrawCall,
    pub passes: Vec<StagePass>,
    pub output: TextureSlot,
    pub present: Option<DrawCall>,
    pub readback: Option<ImageLayout>,
}

/// The layouts that the three pipelines of the canvas are built for.
#[derive(Debug, PartialEq, Eq)]
pub struct PipelineLayout {
    /// The first bind group: the uniform buffers.
    pub primary: Vec<BindingSlot>,
    /// The second bind group: the sampler and the textures.
    pub secondary: Vec<BindingSlot>,
    /// Where there are push constants: the end of their range, which starts
    /// at zero and is visible to the fragment stage.
    pub push_constant_range: Option<u32>,
}

impl CanvasView {
    /// The uniform buffers that every pass binds.
    pub open spec fn uniform_buffers(self) -> UniformBuffers {
        UniformBuffers {
            frame_size: UNIFORM_BLOCK_SIZE,
            user_size: self.user_uniforms_buffer_size,
        }
    }

    /// Number of bytes that the push constants take.
    pub open spec fn push_constants_size(self) -> nat {
        match self.push_constants {
            Some(constants) => total_push_constant_size(constants),
            None => 0,
        }
    }

    /// The frame uniforms for a picture of size `resolution`: those of the
    /// canvas with the resolution of the picture.
    pub open spec fn picture_uniforms(self, resolution: UIntVector2) -> Uniforms {
        Uniforms { resolution, ..self.uniforms }
    }

    /// The scale of the mouse position for a picture of size `resolution`:
    /// the picture's width over the window's, and the picture's height over
    /// the window's.
    pub open spec fn picture_mouse_scale(self, resolution: UIntVector2) -> MouseScale {
        MouseScale {
            horizontal: Ratio {
                numerator: resolution.x,
                denominator: self.uniforms.resolution.x,
            },
            vertical: Ratio { numerator: resolution.y, denominator: self.uniforms.resolution.y },
        }
    }

    /// Whether a picture of this kind and size can be planned: the push
    /// constants and, where the picture is read back, its rows must not be
    /// longer than a `u32` can say.
    pub open spec fn can_plan(self, pipeline_type: PipelineType, resolution: UIntVector2) -> bool {
        &&& self.push_constants_size() <= u32::MAX
        &&& pipeline_type != PipelineType::Render ==> spec_image_layout(
            resolution.x,
            resolution.y,
            pipeline_type.spec_format(),
        ) is Some
    }

    /// `plan` is the plan for a picture of the kind `pipeline_type` and the
    /// size `resolution`.
    pub open spec fn is_plan(
        self,
        plan: RenderPlan,
        pipeline_type: PipelineType,
        resolution: UIntVector2,
    ) -> bool {
        let steps = chain_steps(self.postprocess_ops.len(), pipeline_type);
        &&& plan.pipeline == pipeline_type
        &&& plan.resolution == resolution
        &&& plan.format == pipeline_type.spec_format()
        &&& plan.main_draw == full_screen_draw()
        &&& match self.push_constants {
            Some(constants) => push_constant_writes_wf(constants, plan.push_constants@),
            None => plan.push_constants@.len() == 0,
        }
        &&& plan.passes@.len() == steps.len()
        &&& forall|k: int|
            0 <= k < steps.len() ==> stage_pass_wf(
                #[trigger] plan.passes@[k],
                steps[k].stage,
                steps[k].input,
                steps[k].output,
                self.uniform_buffers(),
                pipeline_type,
            )
        &&& plan.output == chain_output(self.postprocess_ops.len(), pipeline_type)
        &&& if pipeline_type == PipelineType::Render {
            &&& plan.uniforms is None
            &&& plan.mouse_scale is None
            &&& plan.present == Some(full_screen_draw())
            &&& plan.readback is None
        } else {
            &&& plan.present is None
            &&& plan.uniforms == Some(self.picture_uniforms(resolution))
            &&& plan.mouse_scale == Some(self.picture_mouse_scale(resolution))
            &&& plan.readback == spec_image_layout(
                resolution.x,
                resolution.y,
                pipeline_type.spec_format(),
            )
        }
    }

    /// What the owner is asked to do after a frame: to send every uniform to
    /// the dashboard, in order, and to have the window drawn again.
    pub open spec fn post_render_actions<B>(self) -> Seq<CanvasActionView<B>> {
        Seq::new(
            self.user_uniforms.len() + 1,
            |i: int|
                if i < self.user_uniforms.len() {
                    CanvasActionView::Send(CanvasMessageView::UniformForGUI(self.user_uniforms[i]))
                } else {
                    CanvasActionView::RequestRedraw
                },
        )
    }
}

impl Canvas {
    /// The uniform buffers that every pass binds.
    pub fn uniform_buffers(&self) -> (buffers: UniformBuffers)
        ensures
            buffers == self@.uniform_buffers(),
    {
        UniformBuffers {
            frame_size: UNIFORM_BLOCK_SIZE,
            user_size: self.user_uniforms_buffer_size,
        }
    }

    /// The layouts that the pipelines of the canvas are built for. The first
    /// bind group holds the frame uniforms at binding 0 and the user's
    /// uniforms, if they have a buffer, at binding 1; the second holds the
    /// sampler at binding 0 and the textures from binding 1 on. `None` where
    /// the push constants take more bytes than a `u32` can say.
    pub fn pipeline_layout(&self) -> (layout: Option<PipelineLayout>)
        ensures
            layout is Some == (self@.push_constants_size() <= u32::MAX),
            layout is Some ==> {
                &&& layout->Some_0.primary@ == spec_primary_layout(
                    self@.user_uniforms_buffer_size is Some,
                )
                &&& layout->Some_0.secondary@ == spec_secondary_layout(
                    self@.uniforms.num_textures as nat,
                )
                &&& layout->Some_0.push_constant_range == match self@.push_constants {
                    Some(constants) => Some(total_push_constant_size(constants) as u32),
                    None => None,
                }
            },
    {
        let push_constant_range = match &self.push_constants {
            Some(constants) => match push_constants_size(constants) {
                Some(size) => Some(size),
                None => {
                    return None;
                },
            },
            None => None,
        };
        let mut secondary: Vec<BindingSlot> = Vec::new();
        secondary.push(BindingSlot { binding: 0, kind: BindingKind::Sampler });
        let mut bound: u32 = 0;
        while bound < self.uniforms.num_textures
            invariant
                bound <= self.uniforms.num_textures,
                secondary@ =~= spec_secondary_layout(bound as nat),
            decreases self.uniforms.num_textures - bound,
        {
            bound += 1;
            secondary.push(BindingSlot { binding: bound, kind: BindingKind::Texture });
        }
        Some(
            PipelineLayout {
                primary: primary_bind_group_layout(self.user_uniforms_buffer_size.is_some()),
                secondary,
                push_constant_range,
            },
        )
    }

    /// The plan for a picture of the kind `pipeline_type` and the size
    /// `resolution`, or `None` where it cannot be planned.
    pub fn plan(&self, pipeline_type: PipelineType, resolution: UIntVector2) -> (plan: Option<
        RenderPlan,
    >)
        ensures
            plan is Some == self@.can_plan(pipeline_type, resolution),
            plan is Some ==> self@.is_plan(plan->Some_0, pipeline_type, resolution),
    {
        let push_constants = match &self.push_constants {
            Some(constants) => match push_constant_writes(constants) {
                Some(writes) => writes,
                None => {
                    return None;
                },
            },
            None => Vec::new(),
        };
        let format = pipeline_type.format();
        let (present, readback) = match pipeline_type {
            PipelineType::Render => (Some(DrawCall { vertices: 3, instances: 1 }), None),
            _ => match image_layout(resolution.x, resolution.y, format) {
                Some(layout) => (None, Some(layout)),
                None => {
                    return None;
                },
            },
        };
        let stages = self.postprocess_ops.len();
        let steps = plan_chain(stages, pipeline_type);
        let buffers = self.uniform_buffers();
        let mut passes: Vec<StagePass> = Vec::new();
        let mut k: usize = 0;
        while k < steps.len()
            invariant
                k <= steps.len(),
                stages == self.postprocess_ops@.len(),
                steps@ == chain_steps(stages as nat, pipeline_type),
                buffers == self@.uniform_buffers(),
                passes@.len() == k,
                forall|j: int|
                    0 <= j < k ==> stage_pass_wf(
                        #[trigger] passes@[j],
                        steps@[j].stage,
                        steps@[j].input,
                        steps@[j].output,
                        buffers,
                        pipeline_type,
                    ),
            decreases steps.len() - k,
        {
            let step = steps[k];
            let pass = match step.stage {
                StageRef::User(at) => {
                    assert(at == k);
                    self.postprocess_ops[at].post_process(
                        step.stage,
                        step.input,
                        step.output,
                        buffers,
                        pipeline_type,
                    )
                },
                StageRef::Terminal => StagePass {
                    stage: step.stage,
                    pipeline: pipeline_type,
                    uniforms: uniform_bindings(buffers),
                    input: step.input,
                    output: step.output,
                    draw: DrawCall { vertices: 3, instances: 1 },
                },
            };
            passes.push(pass);
            k += 1;
        }
        let (uniforms, mouse_scale) = match pipeline_type {
            PipelineType::Render => (None, None),
            _ => {
                let mut uniforms = self.uniforms;
                uniforms.resolution = resolution;
                (
                    Some(uniforms),
                    Some(
                        MouseScale {
                            horizontal: Ratio {
                                numerator: resolution.x,
                                denominator: self.uniforms.resolution.x,
                            },
                            vertical: Ratio {
                                numerator: resolution.y,
                                denominator: self.uniforms.resolution.y,
                            },
                        },
                    ),
                )
            },
        };
        Some(
            RenderPlan {
                pipeline: pipeline_type,
                resolution,
                format,
                uniforms,
                mouse_scale,
                push_constants,
                main_draw: DrawCall { vertices: 3, instances: 1 },
                passes,
                output: plan_chain_output(stages, pipeline_type),
                present,
                readback,
            },
        )
    }

    /// The plan for the next frame in the window, or `None` while playback
    /// is paused.
    ///
    /// The picture has the size of the window. The user's post-processing
    /// stages run on it; the conversion to sRGB does not, since the window
    /// converts by itself. The finished picture is then drawn into the image
    /// that the window gives; `frame_acquired` says what becomes of the frame
    /// once the window was asked for one. While playback is paused there is
    /// no plan: nothing is rendered, submitted or told.
    pub fn render_canvas(&self) -> (plan: Option<RenderPlan>)
        ensures
            plan is Some == (!self@.paused && self@.can_plan(PipelineType::Render, self@.size)),
            plan is Some ==> self@.is_plan(plan->Some_0, PipelineType::Render, self@.size),
    {
        if self.paused {
            return None;
        }
        self.plan(PipelineType::Render, self.size)
    }

    /// What becomes of the frame planned by `plan` once the window was
    /// asked for an image to render to.
    ///
    /// Where the window gave one, the plan is handed back to be carried out,
    /// with what to tell the dashboard once it has been submitted. Where the
    /// window gave none, the frame is left out: nothing is carried out,
    /// nothing is submitted, and the dashboard is told the reason, once, and
    /// nothing else.
    pub fn frame_acquired<B>(
        &self,
        plan: RenderPlan,
        acquired: Result<(), SwapChainError>,
    ) -> (frame: (Option<RenderPlan>, Vec<CanvasMessage<B>>))
        ensures
            match acquired {
                Ok(_) => frame.0 == Some(plan) && message_views(frame.1@) == plan.spec_submitted::<
                    B,
                >(None, 0),
                Err(error) => frame.0 is None && message_views(frame.1@) == seq![
                    CanvasMessageView::<B>::SwapChainFrameError(error),
                ],
            },
    {
        match acquired {
            Ok(_) => {
                let messages = plan.submitted::<B>(None, 0);
                (Some(plan), messages)
            },
            Err(error) => {
                let mut messages: Vec<CanvasMessage<B>> = Vec::new();
                messages.push(CanvasMessage::SwapChainFrameError(error));
                assert(message_views(messages@) =~= seq![
                    CanvasMessageView::<B>::SwapChainFrameError(error),
                ]);
                (None, messages)
            },
        }
    }

    /// The plan for a painting of size `resolution`, whatever the size of
    /// the window.
    ///
    /// The frame uniforms that the painting is rendered with have the
    /// painting's resolution, and a mouse position that is scaled by the
    /// painting's width over the window's and by the painting's height over
    /// the window's. All of the user's post-processing stages run, and the
    /// conversion to sRGB after them. The finished painting is copied into a
    /// buffer that the CPU can read, which goes to the dashboard with the
    /// message that `RenderPlan::submitted` gives.
    pub fn create_painting(&self, resolution: UIntVector2) -> (plan: Option<RenderPlan>)
        ensures
            plan is Some == self@.can_plan(PipelineType::Painting, resolution),
            plan is Some ==> self@.is_plan(plan->Some_0, PipelineType::Painting, resolution),
    {
        self.plan(PipelineType::Painting, resolution)
    }

    /// The plan for a movie frame of size `resolution`: that of a painting,
    /// in the format of a movie.
    pub fn create_movie_frame(&self, resolution: UIntVector2) -> (plan: Option<RenderPlan>)
        ensures
            plan is Some == self@.can_plan(PipelineType::Movie, resolution),
            plan is Some ==> self@.is_plan(plan->Some_0, PipelineType::Movie, resolution),
    {
        self.plan(PipelineType::Movie, resolution)
    }

    /// What follows every frame: each of the user's uniforms goes to the
    /// dashboard, which offers an editor for it, and the window is asked to
    /// draw again.
    pub fn post_render<B>(&self) -> (actions: Vec<CanvasAction<B>>)
        ensures
            action_views(actions@) == self@.post_render_actions::<B>(),
    {
        let mut actions: Vec<CanvasAction<B>> = Vec::new();
        let mut i: usize = 0;
        while i < self.user_uniforms.len()
            invariant
                i <= self.user_uniforms.len(),
                actions@.len() == i,
                forall|j: int|
                    0 <= j < i ==> (#[trigger] actions@[j])@ == CanvasActionView::<B>::Send(
                        CanvasMessageView::UniformForGUI(self.user_uniforms@[j]@),
                    ),
            decreases self.user_uniforms.len() - i,
        {
            actions.push(
                CanvasAction::Send(CanvasMessage::UniformForGUI(self.user_uniforms[i].copy())),
            );
            i += 1;
        }
        actions.push(CanvasAction::RequestRedraw);
        assert(action_views(actions@) =~= self@.post_render_actions::<B>());
        actions
    }
}

/// In every plan the post-processing passes are as many as the stages that
/// the user added, and one more for a painting or a movie frame: the
/// conversion to sRGB, which runs last. The user's stages run in the order
/// in which they were added. The first pass reads the texture that the main
/// shader drew into, every later pass reads the texture that the pass before
/// it wrote, no pass reads what it writes, and the last pass writes the
/// texture that holds the finished picture.
pub proof fn lemma_plan_passes(
    canvas: CanvasView,
    plan: RenderPlan,
    pipeline_type: PipelineType,
    resolution: UIntVector2,
    k: int,
)
    requires
        canvas.is_plan(plan, pipeline_type, resolution),
        0 <= k < plan.passes@.len(),
        canvas.postprocess_ops.len() <= usize::MAX,
    ensures
        plan.passes@.len() == canvas.postprocess_ops.len() + if pipeline_type
            == PipelineType::Render {
            0int
        } else {
            1int
        },
        k < canvas.postprocess_ops.len() ==> plan.passes@[k].stage == StageRef::User(k as usize),
        k >= canvas.postprocess_ops.len() ==> plan.passes@[k].stage == StageRef::Terminal,
        k == 0 ==> plan.passes@[k].input == TextureSlot::Target,
        k > 0 ==> plan.passes@[k].input == plan.passes@[k - 1].output,
        plan.passes@[k].input != plan.passes@[k].output,
        k == plan.passes@.len() - 1 ==> plan.passes@[k].output == plan.output,
{
    let steps = chain_steps(canvas.postprocess_ops.len(), pipeline_type);
    assert(stage_pass_wf(
        plan.passes@[k],
        steps[k].stage,
        steps[k].input,
        steps[k].output,
        canvas.uniform_buffers(),
        pipeline_type,
    ));
    if k > 0 {
        assert(stage_pass_wf(
            plan.passes@[k - 1],
            steps[k - 1].stage,
            steps[k - 1].input,
            steps[k - 1].output,
            canvas.uniform_buffers(),
            pipeline_type,
        ));
    }
}

/// A painting or a movie frame of the size W by H, planned for a window of
/// the size Ww by Wh, is rendered with the mouse position scaled by W over
/// Ww across and by H over Wh down, each on its own, and with the resolution
/// W by H. Nothing else of the frame uniforms differs from the canvas's.
pub proof fn lemma_picture_mouse_scale(
    canvas: CanvasView,
    plan: RenderPlan,
    pipeline_type: PipelineType,
    resolution: UIntVector2,
)
    requires
        canvas.is_plan(plan, pipeline_type, resolution),
        pipeline_type != PipelineType::Render,
    ensures
        plan.mouse_scale == Some(
            MouseScale {
                horizontal: Ratio {
                    numerator: resolution.x,
                    denominator: canvas.uniforms.resolution.x,
                },
                vertical: Ratio {
                    numerator: resolution.y,
                    denominator: canvas.uniforms.resolution.y,
                },
            },
        ),
        plan.uniforms == Some(Uniforms { resolution, ..canvas.uniforms }),
{
}

/// A plan without post-processing passes leaves the finished picture where
/// the main shader drew it.
pub proof fn lemma_plan_without_passes(
    canvas: CanvasView,
    plan: RenderPlan,
    pipeline_type: PipelineType,
    resolution: UIntVector2,
)
    requires
        canvas.is_plan(plan, pipeline_type, resolution),
        plan.passes@.len() == 0,
    ensures
        pipeline_type == PipelineType::Render,
        canvas.postprocess_ops.len() == 0,
        plan.output == TextureSlot::Target,
{
}

/// What a list of messages holds, in order.
pub open spec fn message_views<B>(messages: Seq<CanvasMessage<B>>) -> Seq<CanvasMessageView<B>> {
    Seq::new(messages.len(), |i: int| messages[i]@)
}

impl RenderPlan {
    /// What the dashboard is told once the plan has been submitted at
    /// `started`.
    ///
    /// For a frame in the window: that a render pass was submitted, and that
    /// a frame was stepped. For a painting or a movie frame: that it was
    /// started, with the buffer `buffer` that will hold it; without a buffer
    /// there is nothing to tell.
    pub open spec fn spec_submitted<B>(self, buffer: Option<B>, started: u64) -> Seq<
        CanvasMessageView<B>,
    > {
        match self.pipeline {
            PipelineType::Render => seq![
                CanvasMessageView::RenderPassSubmitted,
                CanvasMessageView::FrameStep,
            ],
            PipelineType::Painting => match buffer {
                Some(buffer) => seq![
                    CanvasMessageView::PaintingStarted(buffer, self.resolution, started),
                ],
                None => Seq::empty(),
            },
            PipelineType::Movie => match buffer {
                Some(buffer) => seq![
                    CanvasMessageView::MovieFrameStarted(buffer, self.resolution, started),
                ],
                None => Seq::empty(),
            },
        }
    }

    /// What the dashboard is told once the plan has been submitted at
    /// `started`.
    pub fn submitted<B>(&self, buffer: Option<B>, started: u64) -> (messages: Vec<CanvasMessage<B>>)
        ensures
            message_views(messages@) == self.spec_submitted(buffer, started),
    {
        let mut messages: Vec<CanvasMessage<B>> = Vec::new();
        match self.pipeline {
            PipelineType::Render => {
                messages.push(CanvasMessage::RenderPassSubmitted);
                messages.push(CanvasMessage::FrameStep);
            },
            PipelineType::Painting => match buffer {
                Some(buffer) => {
                    messages.push(CanvasMessage::PaintingStarted(buffer, self.resolution, started));
                },
                None => {},
            },
            PipelineType::Movie => match buffer {
                Some(buffer) => {
                    messages.push(
                        CanvasMessage::MovieFrameStarted(buffer, self.resolution, started),
                    );
                },
                None => {},
            },
        }
        assert(message_views(messages@) =~= self.spec_submitted(buffer, started));
        messages
    }
}

} // verus!
