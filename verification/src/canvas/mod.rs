//! The canvas: the window that shows the shader.
//!
//! The canvas keeps the frame uniforms and the frame clock, the user's
//! uniforms and push constants, the fragment shader in use and the chain of
//! post-processing stages. It reacts to the window's events, to the
//! dashboard's messages and to changes of the watched files. What has to be
//! done on the GPU or with the window it hands back as actions.

use vstd::prelude::*;
use crate::binding::BindingError;
use crate::clock::{reading, start_new_stopwatch, start_stopwatch, stop_stopwatch};
use crate::dashboard::{DashboardMessage, DashboardMessageView};
use crate::postprocessing::{postprocess_views, PostProcess, PostProcessView};
use crate::push_constants::{push_constant_views, PushConstantView, TypedPushConstant};
use crate::uniforms::{
    total_uniform_size, uniform_views, Uniforms, UserUniform, UserUniformView,
};
use crate::utils::reversed;
use crate::vector::{BitsVector2, BitsVector4, IntVector4, UIntVector2};

pub mod message;
pub mod rendering;
pub mod file_loading;

use self::file_loading::{
    config_event_views, shader_event_views, ConfigFileEvent, ConfigFileEventView, ShaderFileEvent,
    ShaderFileEventView,
};
pub use self::message::{
    action_views, CanvasAction, CanvasActionView, CanvasMessage, CanvasMessageView, SwapChainError,
};

verus! {

/// A mouse button.
#[derive(Debug, Copy, Clone, PartialEq, Eq, Structural)]
pub enum MouseButton {
    Left,
    Right,
    Middle,
    Other,
}

/// A key that the canvas knows, or any other.
#[derive(Debug, Copy, Clone, PartialEq, Eq, Structural)]
pub enum Key {
    Space,
    P,
    Escape,
    Other,
}

/// An event of the canvas window.
#[derive(Debug, Copy, Clone, PartialEq, Eq, Structural)]
pub enum CanvasInput {
    /// A key went down.
    KeyPressed(Key),
    /// Any other keyboard input.
    KeyboardOther,
    /// The cursor moved to this place, in pixels.
    CursorMoved(BitsVector2),
    /// A mouse button went down or up.
    MouseInput { button: MouseButton, pressed: bool },
    /// The window has this size now.
    Resized(UIntVector2),
    /// The scale factor changed, and the window has this size now.
    ScaleFactorChanged(UIntVector2),
    /// Anything else.
    Other,
}

/// The state of the canvas.
pub struct Canvas {
    /// Size of the window in pixels. It is not the size of a painting.
    pub size: UIntVector2,
    /// The uniforms that every shader is given.
    pub uniforms: Uniforms,
    /// Size of the user's uniform buffer in bytes, if there is one. There is
    /// one exactly if the user's uniforms take any bytes, and it is as large
    /// as they are together.
    pub user_uniforms_buffer_size: Option<usize>,
    /// The user's uniforms, in the order in which they are bound.
    pub user_uniforms: Vec<UserUniform>,
    /// The user's push constants, in the order in which they are sent.
    pub push_constants: Option<Vec<TypedPushConstant>>,
    /// The compiled fragment shader that the three pipelines are built from.
    pub fragment_shader: Vec<u8>,
    /// The post-processing stages that the user added, in the order in which
    /// they run. The conversion to sRGB is not among them: it closes the
    /// chain of a painting and of a movie frame, whatever is added here.
    pub postprocess_ops: Vec<PostProcess>,
    /// Measures the time for which the shader has been playing. It runs
    /// while playback is not paused.
    pub stop_watch: stopwatch::Stopwatch,
    /// Whether playback is paused.
    pub paused: bool,
    /// Whether the window shows its title bar.
    pub show_titlebar: bool,
    /// Whether the fragment shader's file is watched.
    pub shader_file_watcher: bool,
    /// Whether the file that declares uniforms and push constants is watched.
    pub json_file_watcher: bool,
    /// Resolution of a painting that is started from the canvas window.
    pub painting_resolution: UIntVector2,
}

/// What a `Canvas` holds, but for its stopwatch, of which only the readings
/// can be known.
pub struct CanvasView {
    pub size: UIntVector2,
    pub uniforms: Uniforms,
    pub user_uniforms_buffer_size: Option<usize>,
    pub user_uniforms: Seq<UserUniformView>,
    pub push_constants: Option<Seq<PushConstantView>>,
    pub fragment_shader: Seq<u8>,
    pub postprocess_ops: Seq<PostProcessView>,
    pub paused: bool,
    pub show_titlebar: bool,
    pub shader_file_watcher: bool,
    pub json_file_watcher: bool,
    pub painting_resolution: UIntVector2,
}

impl View for Canvas {
    type V = CanvasView;

    open spec fn view(&self) -> CanvasView {
        CanvasView {
            size: self.size,
            uniforms: self.uniforms,
            user_uniforms_buffer_size: self.user_uniforms_buffer_size,
            user_uniforms: uniform_views(self.user_uniforms@),
            push_constants: match self.push_constants {
                Some(constants) => Some(push_constant_views(constants@)),
                None => None,
            },
            fragment_shader: self.fragment_shader@,
            postprocess_ops: postprocess_views(self.postprocess_ops@),
            paused: self.paused,
            show_titlebar: self.show_titlebar,
            shader_file_watcher: self.shader_file_watcher,
            json_file_watcher: self.json_file_watcher,
            painting_resolution: self.painting_resolution,
        }
    }
}

/// The place of the first uniform named `name` in `uniforms`, or the length
/// of `uniforms` where none has that name.
pub open spec fn position_of(uniforms: Seq<UserUniformView>, name: Seq<char>) -> int
    decreases uniforms.len(),
{
    if uniforms.len() == 0 {
        0
    } else if uniforms[0].name == name {
        0
    } else {
        1 + position_of(uniforms.drop_first(), name)
    }
}

/// `uniforms` with the first uniform that has the name of `edited` replaced
/// by `edited`; unchanged where no uniform has that name.
pub open spec fn replace_by_name(
    uniforms: Seq<UserUniformView>,
    edited: UserUniformView,
) -> Seq<UserUniformView> {
    let at = position_of(uniforms, edited.name);
    if 0 <= at < uniforms.len() {
        uniforms.update(at, edited)
    } else {
        uniforms
    }
}

/// The size of the buffer for `uniforms`: none where they take no bytes,
/// else as many bytes as they take together. Uniforms that take more bytes
/// than a `usize` can say, which is more than a machine holds, count as
/// taking the largest `usize`.
pub open spec fn buffer_size_of(uniforms: Seq<UserUniformView>) -> Option<usize> {
    if total_uniform_size(uniforms) == 0 {
        None
    } else if total_uniform_size(uniforms) <= usize::MAX {
        Some(total_uniform_size(uniforms) as usize)
    } else {
        Some(usize::MAX)
    }
}

/// The stages `stages`, each given the user's uniforms or not as `provided`
/// says.
pub open spec fn stages_given(stages: Seq<PostProcessView>, provided: bool) -> Seq<
    PostProcessView,
> {
    Seq::new(
        stages.len(),
        |i: int| PostProcessView { custom_uniforms_provided: provided, ..stages[i] },
    )
}

/// `position_of` finds the first uniform of the name, and nothing else.
pub proof fn lemma_position_of(uniforms: Seq<UserUniformView>, name: Seq<char>)
    ensures
        0 <= position_of(uniforms, name) <= uniforms.len(),
        position_of(uniforms, name) < uniforms.len() ==> uniforms[position_of(
            uniforms,
            name,
        )].name == name,
        forall|i: int|
            0 <= i < position_of(uniforms, name) ==> (#[trigger] uniforms[i]).name != name,
    decreases uniforms.len(),
{
    if uniforms.len() > 0 && uniforms[0].name != name {
        let rest = uniforms.drop_first();
        lemma_position_of(rest, name);
        assert forall|i: int| 0 <= i < position_of(uniforms, name) implies (
        #[trigger] uniforms[i]).name != name by {
            if i > 0 {
                assert(rest[i - 1] == uniforms[i]);
            }
        }
    }
}

impl CanvasView {
    /// The canvas after playback is paused.
    pub open spec fn pause(self) -> CanvasView {
        CanvasView { paused: true, ..self }
    }

    /// The canvas after playback is resumed.
    pub open spec fn play(self) -> CanvasView {
        CanvasView { paused: false, ..self }
    }

    /// The canvas after playback is paused when playing, resumed when paused.
    pub open spec fn toggle_pause(self) -> CanvasView {
        CanvasView { paused: !self.paused, ..self }
    }

    /// The canvas after the window has taken the size `new_size`.
    pub open spec fn resize(self, new_size: UIntVector2) -> CanvasView {
        CanvasView {
            size: new_size,
            uniforms: Uniforms { resolution: new_size, ..self.uniforms },
            ..self
        }
    }

    /// What the owner is asked to do when the window has taken the size
    /// `new_size`.
    pub open spec fn resize_actions<B>(new_size: UIntVector2) -> Seq<CanvasActionView<B>> {
        seq![
            CanvasActionView::ResizeSwapChain(new_size),
            CanvasActionView::Send(CanvasMessageView::WindowResized(new_size.spec_to_signed())),
        ]
    }

    /// The canvas after the cursor moved to `position`: the place where it
    /// was becomes the previous place.
    pub open spec fn cursor_moved(self, position: BitsVector2) -> CanvasView {
        CanvasView {
            uniforms: Uniforms {
                mouse_position: BitsVector4 {
                    x: position.x,
                    y: position.y,
                    z: self.uniforms.mouse_position.x,
                    w: self.uniforms.mouse_position.y,
                },
                ..self.uniforms
            },
            ..self
        }
    }

    /// The canvas after a mouse button went down or up.
    pub open spec fn mouse_input(self, button: MouseButton, pressed: bool) -> CanvasView {
        let state: i32 = if pressed {
            1
        } else {
            0
        };
        let buttons = self.uniforms.mouse_button;
        CanvasView {
            uniforms: Uniforms {
                mouse_button: match button {
                    MouseButton::Left => IntVector4 { x: state, ..buttons },
                    MouseButton::Right => IntVector4 { y: state, ..buttons },
                    MouseButton::Middle => IntVector4 { z: state, ..buttons },
                    MouseButton::Other => IntVector4 { w: state, ..buttons },
                },
                ..self.uniforms
            },
            ..self
        }
    }

    /// The canvas after the window event `event`.
    pub open spec fn after_input(self, event: CanvasInput) -> CanvasView {
        match event {
            CanvasInput::KeyPressed(Key::Space) => self.toggle_pause(),
            CanvasInput::CursorMoved(position) => self.cursor_moved(position),
            CanvasInput::MouseInput { button, pressed } => self.mouse_input(button, pressed),
            CanvasInput::Resized(size) => self.resize(size),
            CanvasInput::ScaleFactorChanged(size) => self.resize(size),
            _ => self,
        }
    }

    /// What the owner is asked to do upon the window event `event`.
    pub open spec fn input_actions<B>(self, event: CanvasInput) -> Seq<CanvasActionView<B>> {
        match event {
            CanvasInput::KeyPressed(Key::Space) => seq![
                CanvasActionView::Send(CanvasMessageView::PausePlayChanged),
            ],
            CanvasInput::KeyPressed(Key::P) => seq![
                CanvasActionView::CreatePainting(self.painting_resolution),
            ],
            CanvasInput::CursorMoved(position) => seq![
                CanvasActionView::Send(CanvasMessageView::MouseMoved(position)),
            ],
            CanvasInput::Resized(size) => Self::resize_actions(size),
            CanvasInput::ScaleFactorChanged(size) => Self::resize_actions(size),
            _ => Seq::empty(),
        }
    }

    /// Whether the canvas has dealt with the window event `event`. It leaves
    /// the escape key, which closes the program, and what it does not know
    /// to its owner.
    pub open spec fn input_handled(event: CanvasInput) -> bool {
        match event {
            CanvasInput::KeyPressed(Key::Escape) => false,
            CanvasInput::Other => false,
            _ => true,
        }
    }

    /// The canvas after the uniform `edited` came back from the dashboard.
    /// It takes the place of the first uniform of its name, whatever its
    /// size; without a uniform of that name the list stays as it is. The
    /// user's uniform buffer is from then on as large as the uniforms now
    /// are together, and every stage is given the user's uniforms exactly if
    /// they have a buffer.
    pub open spec fn after_edit(self, edited: UserUniformView) -> CanvasView {
        let uniforms = replace_by_name(self.user_uniforms, edited);
        CanvasView {
            user_uniforms: uniforms,
            user_uniforms_buffer_size: buffer_size_of(uniforms),
            postprocess_ops: stages_given(self.postprocess_ops, buffer_size_of(uniforms) is Some),
            ..self
        }
    }

    /// What the owner is asked to do when the uniform `edited` came back
    /// from the dashboard: to make the user's uniform buffer and all that is
    /// built on it anew, where the size of the buffer has changed.
    pub open spec fn edit_actions<B>(self, edited: UserUniformView) -> Seq<CanvasActionView<B>> {
        if buffer_size_of(replace_by_name(self.user_uniforms, edited))
            != self.user_uniforms_buffer_size {
            seq![CanvasActionView::<B>::RebuildBindings]
        } else {
            Seq::empty()
        }
    }

    /// The canvas after the dashboard's message `message`.
    pub open spec fn after_signal(self, message: DashboardMessageView) -> CanvasView {
        match message {
            DashboardMessageView::PausePlayChanged => self.toggle_pause(),
            DashboardMessageView::Pause => self.pause(),
            DashboardMessageView::Play => self.play(),
            DashboardMessageView::TitlebarStatusChanged => CanvasView {
                show_titlebar: !self.show_titlebar,
                ..self
            },
            DashboardMessageView::PaintingRenderRequested(_) => self,
            DashboardMessageView::UniformUpdatedViaGUI(edited) => self.after_edit(edited),
            DashboardMessageView::MovieRenderRequested(_) => self,
            DashboardMessageView::PaintingResolutionUpdated(resolution) => CanvasView {
                painting_resolution: resolution,
                ..self
            },
        }
    }

    /// What the owner is asked to do upon the dashboard's message `message`.
    pub open spec fn signal_actions<B>(self, message: DashboardMessageView) -> Seq<
        CanvasActionView<B>,
    > {
        match message {
            DashboardMessageView::UniformUpdatedViaGUI(edited) => self.edit_actions(edited),
            DashboardMessageView::TitlebarStatusChanged => seq![
                CanvasActionView::SetDecorations(!self.show_titlebar),
            ],
            DashboardMessageView::PaintingRenderRequested(resolution) => seq![
                CanvasActionView::CreatePainting(resolution),
            ],
            DashboardMessageView::MovieRenderRequested(resolution) => seq![
                CanvasActionView::CreateMovieFrame(resolution),
            ],
            _ => Seq::empty(),
        }
    }

    /// The canvas after the dashboard's messages `messages`, taken in order.
    pub open spec fn after_signals(self, messages: Seq<DashboardMessageView>) -> CanvasView
        decreases messages.len(),
    {
        if messages.len() == 0 {
            self
        } else {
            self.after_signals(messages.drop_last()).after_signal(messages.last())
        }
    }

    /// What the owner is asked to do upon the dashboard's messages
    /// `messages`, taken in order.
    pub open spec fn signals_actions<B>(self, messages: Seq<DashboardMessageView>) -> Seq<
        CanvasActionView<B>,
    >
        decreases messages.len(),
    {
        if messages.len() == 0 {
            Seq::empty()
        } else {
            self.signals_actions::<B>(messages.drop_last()) + self.after_signals(
                messages.drop_last(),
            ).signal_actions::<B>(messages.last())
        }
    }

    /// The canvas after the frame clock moved on, on the day `today`, when
    /// the stopwatch shows `reading`. While playback is paused nothing
    /// moves. Otherwise the frame counter goes up by one (and starts again
    /// at zero at the end of its range), the time becomes what the stopwatch
    /// shows, and the time since the last frame becomes what the stopwatch
    /// has gone on by since the time was last set: time for which the
    /// stopwatch stood is no part of it.
    pub open spec fn advance(self, reading: u64, today: IntVector4) -> CanvasView {
        if self.paused {
            self
        } else {
            CanvasView {
                uniforms: Uniforms {
                    frame_num: if self.uniforms.frame_num == u32::MAX {
                        0
                    } else {
                        (self.uniforms.frame_num + 1) as u32
                    },
                    time: reading,
                    time_delta: crate::clock::span(self.uniforms.time, reading) as u64,
                    date: today,
                    ..self.uniforms
                },
                ..self
            }
        }
    }

    /// The canvas after the update on the day `today`, when the stopwatch
    /// shows `reading`: after the dashboard's messages, then the changes of
    /// the fragment shader's file, then the changes of the file that
    /// declares uniforms and push constants, and then the move of the frame
    /// clock.
    pub open spec fn updated(
        self,
        messages: Seq<DashboardMessageView>,
        shader_events: Seq<ShaderFileEventView>,
        config_events: Seq<ConfigFileEventView>,
        reading: u64,
        today: IntVector4,
    ) -> CanvasView {
        self.after_signals(messages).after_shader_events(shader_events).after_config_events(
            config_events,
        ).advance(reading, today)
    }

    /// The uploads that end every update: the bytes of the user's uniforms,
    /// if they have a buffer, and the frame uniforms.
    pub open spec fn upload_actions<B>(self) -> Seq<CanvasActionView<B>> {
        let frame = seq![CanvasActionView::<B>::CopyFrameUniforms(self.uniforms)];
        match self.user_uniforms_buffer_size {
            Some(_) => seq![
                CanvasActionView::<B>::WriteUserUniforms(
                    crate::uniforms::concat_uniform_bytes(self.user_uniforms),
                ),
            ] + frame,
            None => frame,
        }
    }

    /// The user's uniform buffer is there exactly if the user's uniforms
    /// take any bytes, and it is as large as they are together: what is
    /// written to it each update fills it, no more and no less.
    pub open spec fn buffer_agrees(self) -> bool {
        self.user_uniforms_buffer_size == buffer_size_of(self.user_uniforms)
    }
}

/// While playback is paused, an update moves neither the frame counter nor
/// the time, whatever the stopwatch shows: the frame uniforms stay as they
/// are.
pub proof fn lemma_paused_update_moves_nothing(canvas: CanvasView, reading: u64, today: IntVector4)
    requires
        canvas.paused,
    ensures
        canvas.advance(reading, today) == canvas,
{
}

/// Pausing and resuming changes nothing that a shader sees: the frame
/// uniforms stay as they are. Where the stopwatch shows at the next update
/// what it showed at the last, the time stays as it is and no time has
/// passed since the last frame.
pub proof fn lemma_pause_resume_without_delay(canvas: CanvasView, today: IntVector4)
    requires
        !canvas.paused,
    ensures
        canvas.pause().play().uniforms == canvas.uniforms,
        canvas.pause().play().advance(canvas.uniforms.time, today).uniforms.time
            == canvas.uniforms.time,
        canvas.pause().play().advance(canvas.uniforms.time, today).uniforms.time_delta == 0,
{
}

/// From an update at which the stopwatch shows `before`, through a pause
/// with any number of updates in it, to the update after the pause, at which
/// the stopwatch shows `after`: the time is what the stopwatch shows, the
/// time since the last frame is what the stopwatch has gone on by and not
/// the time of the pause, and the frame counter has gone on by one, as long
/// as it has not reached the end of its range.
pub proof fn lemma_resume_after_delay(
    canvas: CanvasView,
    before: u64,
    during: u64,
    after: u64,
    today: IntVector4,
)
    requires
        !canvas.paused,
        before <= after,
    ensures
        ({
            let first = canvas.advance(before, today);
            let last = first.pause().advance(during, today).play().advance(after, today);
            &&& first.pause().advance(during, today).uniforms == first.uniforms
            &&& last.uniforms.time == after
            &&& last.uniforms.time_delta == after - before
            &&& last.uniforms.time - first.uniforms.time == last.uniforms.time_delta
            &&& first.uniforms.frame_num < u32::MAX ==> last.uniforms.frame_num
                == first.uniforms.frame_num + 1
            &&& first.uniforms.frame_num == u32::MAX ==> last.uniforms.frame_num == 0
        }),
{
}

/// Putting a uniform of the same size in the place of another leaves the
/// size of the whole list as it is.
pub proof fn lemma_total_size_update(
    uniforms: Seq<UserUniformView>,
    at: int,
    edited: UserUniformView,
)
    requires
        0 <= at < uniforms.len(),
        uniforms[at].bytes.len() == edited.bytes.len(),
    ensures
        total_uniform_size(uniforms.update(at, edited)) == total_uniform_size(uniforms),
    decreases uniforms.len(),
{
    if at == uniforms.len() - 1 {
        assert(uniforms.update(at, edited).drop_last() =~= uniforms.drop_last());
    } else {
        lemma_total_size_update(uniforms.drop_last(), at, edited);
        assert(uniforms.update(at, edited).drop_last() =~= uniforms.drop_last().update(
            at,
            edited,
        ));
    }
}

/// An edit that takes as many bytes as the uniform it replaces leaves the
/// user's uniforms as large as they were: where they and their buffer
/// agreed, the buffer keeps its size and nothing is asked of the owner.
pub proof fn lemma_edit_of_same_size<B>(canvas: CanvasView, edited: UserUniformView)
    requires
        canvas.buffer_agrees(),
        position_of(canvas.user_uniforms, edited.name) < canvas.user_uniforms.len()
            ==> canvas.user_uniforms[position_of(
            canvas.user_uniforms,
            edited.name,
        )].bytes.len() == edited.bytes.len(),
    ensures
        total_uniform_size(canvas.after_edit(edited).user_uniforms) == total_uniform_size(
            canvas.user_uniforms,
        ),
        canvas.after_edit(edited).user_uniforms_buffer_size == canvas.user_uniforms_buffer_size,
        canvas.edit_actions::<B>(edited) == Seq::<CanvasActionView<B>>::empty(),
{
    lemma_position_of(canvas.user_uniforms, edited.name);
    let at = position_of(canvas.user_uniforms, edited.name);
    if 0 <= at < canvas.user_uniforms.len() {
        lemma_total_size_update(canvas.user_uniforms, at, edited);
    }
}

/// An edit replaces the first uniform of its name and touches no other:
/// the list keeps its length and its order, and without a uniform of that
/// name it stays as it is.
pub proof fn lemma_edit_replaces_first_of_name(
    uniforms: Seq<UserUniformView>,
    edited: UserUniformView,
    i: int,
)
    requires
        0 <= i < uniforms.len(),
    ensures
        replace_by_name(uniforms, edited).len() == uniforms.len(),
        i == position_of(uniforms, edited.name) ==> replace_by_name(uniforms, edited)[i] == edited,
        i != position_of(uniforms, edited.name) ==> replace_by_name(uniforms, edited)[i]
            == uniforms[i],
        i < position_of(uniforms, edited.name) ==> uniforms[i].name != edited.name,
        position_of(uniforms, edited.name) < uniforms.len() ==> uniforms[position_of(
            uniforms,
            edited.name,
        )].name == edited.name,
{
    lemma_position_of(uniforms, edited.name);
}

/// No message of the dashboard, no event of the window and no move of the
/// frame clock makes the user's uniforms and their buffer disagree, and
/// after an edit they agree whatever was before.
pub proof fn lemma_buffer_stays_agreed(
    canvas: CanvasView,
    message: DashboardMessageView,
    event: CanvasInput,
    reading: u64,
    today: IntVector4,
)
    ensures
        canvas.buffer_agrees() ==> canvas.after_signal(message).buffer_agrees(),
        canvas.buffer_agrees() ==> canvas.after_input(event).buffer_agrees(),
        canvas.buffer_agrees() ==> canvas.advance(reading, today).buffer_agrees(),
        message is UniformUpdatedViaGUI ==> canvas.after_signal(message).buffer_agrees(),
{
}

/// The canvas for a window of size `size`. A list of uniforms that takes no
/// bytes is as good as none: there is no buffer for it.
pub open spec fn new_canvas(
    size: UIntVector2,
    fragment_shader: Seq<u8>,
    num_images: nat,
    user_uniforms: Option<Seq<UserUniformView>>,
    push_constants: Option<Seq<PushConstantView>>,
) -> CanvasView {
    CanvasView {
        size,
        uniforms: Uniforms {
            resolution: size,
            num_textures: num_images as u32,
            ..Uniforms::spec_new()
        },
        user_uniforms_buffer_size: match user_uniforms {
            Some(uniforms) => buffer_size_of(uniforms),
            None => None,
        },
        user_uniforms: match user_uniforms {
            Some(uniforms) => uniforms,
            None => Seq::empty(),
        },
        push_constants,
        fragment_shader,
        postprocess_ops: Seq::empty(),
        paused: false,
        show_titlebar: true,
        shader_file_watcher: false,
        json_file_watcher: false,
        painting_resolution: UIntVector2 { x: 0, y: 0 },
    }
}

/// The size of a list of uniforms in bytes, or `None` where it is more than
/// a `usize` can say.
pub fn uniforms_size(uniforms: &Vec<UserUniform>) -> (size: Option<usize>)
    ensures
        total_uniform_size(uniform_views(uniforms@)) <= usize::MAX ==> size == Some(
            total_uniform_size(uniform_views(uniforms@)) as usize,
        ),
        total_uniform_size(uniform_views(uniforms@)) > usize::MAX ==> size is None,
{
    let ghost views = uniform_views(uniforms@);
    let mut size: usize = 0;
    let mut i: usize = 0;
    while i < uniforms.len()
        invariant
            i <= uniforms.len(),
            views == uniform_views(uniforms@),
            size == total_uniform_size(views.subrange(0, i as int)),
        decreases uniforms.len() - i,
    {
        proof {
            assert(views.subrange(0, i + 1).drop_last() =~= views.subrange(0, i as int));
            lemma_total_size_grows(views, i + 1);
        }
        match size.checked_add(uniforms[i].size()) {
            Some(sum) => {
                size = sum;
            },
            None => {
                return None;
            },
        }
        i += 1;
    }
    proof {
        assert(views.subrange(0, i as int) =~= views);
    }
    Some(size)
}

/// The first uniforms of a list are together no larger than the whole list.
pub proof fn lemma_total_size_grows(uniforms: Seq<UserUniformView>, n: int)
    requires
        0 <= n <= uniforms.len(),
    ensures
        total_uniform_size(uniforms.subrange(0, n)) <= total_uniform_size(uniforms),
    decreases uniforms.len() - n,
{
    if n < uniforms.len() {
        lemma_total_size_grows(uniforms, n + 1);
        assert(uniforms.subrange(0, n + 1).drop_last() =~= uniforms.subrange(0, n));
    } else {
        assert(uniforms.subrange(0, n) =~= uniforms);
    }
}

/// The size of the buffer for a list of uniforms: none where they take no
/// bytes, else as many bytes as they take together.
pub fn buffer_size(uniforms: &Vec<UserUniform>) -> (size: Option<usize>)
    ensures
        size == buffer_size_of(uniform_views(uniforms@)),
{
    match uniforms_size(uniforms) {
        Some(total) => if total > 0 {
            Some(total)
        } else {
            None
        },
        None => Some(usize::MAX),
    }
}

/// The place of the first uniform named `name` in `uniforms`, or the length
/// of `uniforms` where none has that name.
pub fn position(uniforms: &Vec<UserUniform>, name: &String) -> (at: usize)
    ensures
        at == position_of(uniform_views(uniforms@), name@),
        at <= uniforms@.len(),
{
    let ghost views = uniform_views(uniforms@);
    let mut i: usize = 0;
    proof {
        assert(views.subrange(0, views.len() as int) =~= views);
    }
    while i < uniforms.len()
        invariant
            i <= uniforms.len(),
            views == uniform_views(uniforms@),
            position_of(views, name@) == i + position_of(
                views.subrange(i as int, views.len() as int),
                name@,
            ),
        decreases uniforms.len() - i,
    {
        let ghost rest = views.subrange(i as int, views.len() as int);
        proof {
            assert(rest.drop_first() =~= views.subrange(i + 1, views.len() as int));
            assert(rest[0] == uniforms@[i as int]@);
        }
        if uniforms[i].name == *name {
            return i;
        }
        i += 1;
    }
    proof {
        assert(views.subrange(i as int, views.len() as int) =~= Seq::empty());
    }
    i
}

fn same_size(a: Option<usize>, b: Option<usize>) -> (same: bool)
    ensures
        same == (a == b),
{
    match (a, b) {
        (Some(x), Some(y)) => x == y,
        (None, None) => true,
        _ => false,
    }
}

impl Canvas {
    /// The canvas for a window of size `size`. It plays from the moment it
    /// is made.
    ///
    /// * `size` - size of the window in pixels
    /// * `fs_spirv_data` - the compiled fragment shader
    /// * `num_images` - number of images that are bound as textures
    /// * `user_uniforms` - the user's uniforms, bound in this order
    /// * `push_constants` - the user's push constants, sent in this order
    /// * `max_textures` - number of textures that a shader stage of the
    ///   device can sample
    ///
    /// More images than `max_textures` are refused. Otherwise the canvas
    /// comes with the message that tells the dashboard the window's size as
    /// the resolution to offer for paintings.
    ///
    /// The user's uniforms have a buffer exactly if they take any bytes, and
    /// it is as large as they are together.
    pub fn new<B>(
        size: UIntVector2,
        fs_spirv_data: Vec<u8>,
        num_images: usize,
        user_uniforms: Option<Vec<UserUniform>>,
        push_constants: Option<Vec<TypedPushConstant>>,
        max_textures: u32,
    ) -> (made: Result<(Canvas, CanvasMessage<B>), BindingError>)
        ensures
            num_images > max_textures ==> made == Err::<(Canvas, CanvasMessage<B>), BindingError>(
                BindingError::TooManyTextures { given: num_images, limit: max_textures },
            ),
            num_images <= max_textures ==> made is Ok && made->Ok_0.0@ == new_canvas(
                size,
                fs_spirv_data@,
                num_images as nat,
                match user_uniforms {
                    Some(uniforms) => Some(uniform_views(uniforms@)),
                    None => None,
                },
                match push_constants {
                    Some(constants) => Some(push_constant_views(constants@)),
                    None => None,
                },
            ) && made->Ok_0.1@ == CanvasMessageView::<B>::UpdatePaintingResolutioninGUI(
                size.spec_to_signed(),
            ) && made->Ok_0.0@.buffer_agrees(),
    {
        if num_images > max_textures as usize {
            return Err(BindingError::TooManyTextures { given: num_images, limit: max_textures });
        }
        let mut uniforms = Uniforms::new();
        uniforms.resolution = size;
        uniforms.num_textures = num_images as u32;
        let (buffer_size, uniform_list) = match user_uniforms {
            Some(list) => (buffer_size(&list), list),
            None => (None, Vec::new()),
        };
        let canvas = Canvas {
            size,
            uniforms,
            user_uniforms_buffer_size: buffer_size,
            user_uniforms: uniform_list,
            push_constants,
            fragment_shader: fs_spirv_data,
            postprocess_ops: Vec::new(),
            stop_watch: start_new_stopwatch(),
            paused: false,
            show_titlebar: true,
            shader_file_watcher: false,
            json_file_watcher: false,
            painting_resolution: UIntVector2::zero(),
        };
        proof {
            assert(canvas@.user_uniforms =~= match user_uniforms {
                Some(list) => uniform_views(list@),
                None => Seq::empty(),
            });
            assert(canvas@.postprocess_ops =~= Seq::empty());
        }
        Ok((canvas, CanvasMessage::UpdatePaintingResolutioninGUI(size.to_signed())))
    }

    /// Pauses playback. The stopwatch, if it runs, is stopped.
    pub fn pause(&mut self)
        ensures
            final(self)@ == old(self)@.pause(),
    {
        if !self.paused {
            stop_stopwatch(&mut self.stop_watch);
        }
        self.paused = true;
    }

    /// Resumes playback. The stopwatch, if it stands, is started; one that
    /// runs is left alone, so that the time never goes back.
    pub fn play(&mut self)
        ensures
            final(self)@ == old(self)@.play(),
    {
        if self.paused {
            start_stopwatch(&mut self.stop_watch);
        }
        self.paused = false;
    }

    /// Pauses playback when playing, resumes it when paused.
    pub fn toggle_pause(&mut self)
        ensures
            final(self)@ == old(self)@.toggle_pause(),
    {
        if self.paused {
            self.play();
        } else {
            self.pause();
        }
    }

    /// Takes note that the window has the size `new_size`. The owner is
    /// asked to make the swap chain anew and to tell the dashboard.
    pub fn resize<B>(&mut self, new_size: UIntVector2) -> (actions: Vec<CanvasAction<B>>)
        ensures
            final(self)@ == old(self)@.resize(new_size),
            action_views(actions@) == CanvasView::resize_actions::<B>(new_size),
    {
        self.size = new_size;
        self.uniforms.resolution = new_size;
        let mut actions: Vec<CanvasAction<B>> = Vec::new();
        actions.push(CanvasAction::ResizeSwapChain(new_size));
        actions.push(CanvasAction::Send(CanvasMessage::WindowResized(new_size.to_signed())));
        assert(action_views(actions@) =~= CanvasView::resize_actions::<B>(new_size));
        actions
    }

    /// Handles an event of the canvas window. Says whether the event was
    /// dealt with, and asks the owner for what it calls for.
    ///
    /// The space bar pauses and resumes playback, `P` starts a painting, the
    /// cursor and the mouse buttons are noted in the frame uniforms, and a
    /// new size of the window is taken over.
    pub fn input<B>(&mut self, event: CanvasInput) -> (handled: (bool, Vec<CanvasAction<B>>))
        ensures
            final(self)@ == old(self)@.after_input(event),
            handled.0 == CanvasView::input_handled(event),
            action_views(handled.1@) == old(self)@.input_actions::<B>(event),
    {
        let mut actions: Vec<CanvasAction<B>> = Vec::new();
        match event {
            CanvasInput::KeyPressed(Key::Space) => {
                self.toggle_pause();
                actions.push(CanvasAction::Send(CanvasMessage::PausePlayChanged));
            },
            CanvasInput::KeyPressed(Key::P) => {
                actions.push(CanvasAction::CreatePainting(self.painting_resolution));
            },
            CanvasInput::KeyPressed(Key::Escape) => {
                assert(action_views(actions@) =~= old(self)@.input_actions::<B>(event));
                return (false, actions);
            },
            CanvasInput::KeyPressed(Key::Other) => {},
            CanvasInput::KeyboardOther => {},
            CanvasInput::CursorMoved(position) => {
                self.uniforms.mouse_position.z = self.uniforms.mouse_position.x;
                self.uniforms.mouse_position.w = self.uniforms.mouse_position.y;
                self.uniforms.mouse_position.x = position.x;
                self.uniforms.mouse_position.y = position.y;
                actions.push(CanvasAction::Send(CanvasMessage::MouseMoved(position)));
            },
            CanvasInput::MouseInput { button, pressed } => {
                let state: i32 = if pressed {
                    1
                } else {
                    0
                };
                match button {
                    MouseButton::Left => {
                        self.uniforms.mouse_button.x = state;
                    },
                    MouseButton::Right => {
                        self.uniforms.mouse_button.y = state;
                    },
                    MouseButton::Middle => {
                        self.uniforms.mouse_button.z = state;
                    },
                    MouseButton::Other => {
                        self.uniforms.mouse_button.w = state;
                    },
                }
            },
            CanvasInput::Resized(size) => {
                actions = self.resize(size);
            },
            CanvasInput::ScaleFactorChanged(size) => {
                actions = self.resize(size);
            },
            CanvasInput::Other => {
                assert(action_views(actions@) =~= old(self)@.input_actions::<B>(event));
                return (false, actions);
            },
        }
        assert(action_views(actions@) =~= old(self)@.input_actions::<B>(event));
        (true, actions)
    }

    /// Puts `edited` in the place of the first uniform of its name,
    /// whatever its size; without a uniform of that name the list stays as
    /// it is. The user's uniform buffer is from then on as large as the
    /// uniforms now are together, and where that is another size than
    /// before, the owner is asked to make the buffer and all that is built
    /// on it anew.
    pub fn replace_uniform<B>(&mut self, edited: UserUniform) -> (actions: Vec<CanvasAction<B>>)
        ensures
            final(self)@ == old(self)@.after_edit(edited@),
            action_views(actions@) == old(self)@.edit_actions::<B>(edited@),
            final(self)@.buffer_agrees(),
    {
        let ghost views = uniform_views(self.user_uniforms@);
        let at = position(&self.user_uniforms, &edited.name);
        if at < self.user_uniforms.len() {
            self.user_uniforms.set(at, edited);
        }
        assert(uniform_views(self.user_uniforms@) =~= replace_by_name(views, edited@));
        let size = buffer_size(&self.user_uniforms);
        let changed = !same_size(size, self.user_uniforms_buffer_size);
        self.user_uniforms_buffer_size = size;
        self.give_stages_uniforms(size.is_some());
        let mut actions: Vec<CanvasAction<B>> = Vec::new();
        if changed {
            actions.push(CanvasAction::RebuildBindings);
        }
        assert(action_views(actions@) =~= old(self)@.edit_actions::<B>(edited@));
        actions
    }

    /// Acts on a message of the dashboard.
    pub fn dashboard_signal_received<B>(&mut self, message: DashboardMessage) -> (actions: Vec<
        CanvasAction<B>,
    >)
        ensures
            final(self)@ == old(self)@.after_signal(message@),
            action_views(actions@) == old(self)@.signal_actions::<B>(message@),
            message@ matches DashboardMessageView::UniformUpdatedViaGUI(edited)
                ==> final(self)@.user_uniforms == (if position_of(
                old(self)@.user_uniforms,
                edited.name,
            ) < old(self)@.user_uniforms.len() {
                old(self)@.user_uniforms.update(
                    position_of(old(self)@.user_uniforms, edited.name),
                    edited,
                )
            } else {
                old(self)@.user_uniforms
            }) && final(self)@.buffer_agrees(),
            old(self)@.buffer_agrees() ==> final(self)@.buffer_agrees(),
    {
        let mut actions: Vec<CanvasAction<B>> = Vec::new();
        match message {
            DashboardMessage::PausePlayChanged => {
                self.toggle_pause();
            },
            DashboardMessage::Pause => {
                self.pause();
            },
            DashboardMessage::Play => {
                self.play();
            },
            DashboardMessage::TitlebarStatusChanged => {
                self.show_titlebar = !self.show_titlebar;
                actions.push(CanvasAction::SetDecorations(self.show_titlebar));
            },
            DashboardMessage::PaintingRenderRequested(resolution) => {
                actions.push(CanvasAction::CreatePainting(resolution));
            },
            DashboardMessage::UniformUpdatedViaGUI(modified_uniform) => {
                proof {
                    lemma_position_of(old(self)@.user_uniforms, modified_uniform@.name);
                }
                actions = self.replace_uniform(modified_uniform);
            },
            DashboardMessage::MovieRenderRequested(resolution) => {
                actions.push(CanvasAction::CreateMovieFrame(resolution));
            },
            DashboardMessage::PaintingResolutionUpdated(resolution) => {
                self.painting_resolution = resolution;
            },
        }
        assert(action_views(actions@) =~= old(self)@.signal_actions::<B>(message@));
        actions
    }

    /// Moves the frame clock on, on the day `today` (year, month, day), when
    /// the stopwatch shows `reading`. While playback is paused nothing
    /// moves.
    pub fn advance(&mut self, reading: u64, today: IntVector4)
        ensures
            final(self)@ == old(self)@.advance(reading, today),
    {
        if !self.paused {
            self.uniforms.frame_num = if self.uniforms.frame_num == u32::MAX {
                0
            } else {
                self.uniforms.frame_num + 1
            };
            self.uniforms.time_delta = if reading >= self.uniforms.time {
                reading - self.uniforms.time
            } else {
                0
            };
            self.uniforms.time = reading;
            self.uniforms.date = today;
        }
    }

    /// Acts on the dashboard's messages `messages`, in the order in which
    /// they came.
    pub fn dashboard_signals_received<B>(&mut self, messages: Vec<DashboardMessage>) -> (actions:
        Vec<CanvasAction<B>>)
        ensures
            final(self)@ == old(self)@.after_signals(
                crate::dashboard::dashboard_message_views(messages@),
            ),
            action_views(actions@) == old(self)@.signals_actions::<B>(
                crate::dashboard::dashboard_message_views(messages@),
            ),
            old(self)@.buffer_agrees() ==> final(self)@.buffer_agrees(),
    {
        let ghost all = crate::dashboard::dashboard_message_views(messages@);
        let total = messages.len();
        let mut actions: Vec<CanvasAction<B>> = Vec::new();
        // Taken off the end of `pending`, the messages come in the order in
        // which they came.
        let mut pending = reversed(messages);
        let mut done: usize = 0;
        while pending.len() > 0
            invariant
                done + pending@.len() == total,
                all.len() == total,
                forall|j: int|
                    0 <= j < pending@.len() ==> (#[trigger] pending@[j])@ == all[total - 1 - j],
                self@ == old(self)@.after_signals(all.subrange(0, done as int)),
                action_views(actions@) == old(self)@.signals_actions::<B>(
                    all.subrange(0, done as int),
                ),
                old(self)@.buffer_agrees() ==> self@.buffer_agrees(),
            decreases pending.len(),
        {
            let ghost before = action_views(actions@);
            let message = pending.pop().unwrap();
            proof {
                assert(message@ == all[done as int]);
                assert(all.subrange(0, done + 1).drop_last() =~= all.subrange(0, done as int));
                assert(all.subrange(0, done + 1).last() == all[done as int]);
            }
            let mut more = self.dashboard_signal_received::<B>(message);
            let ghost added = action_views(more@);
            actions.append(&mut more);
            assert(action_views(actions@) =~= before + added);
            done += 1;
        }
        proof {
            assert(all.subrange(0, done as int) =~= all);
        }
        actions
    }

    /// The uploads that end every update: the bytes of the user's uniforms,
    /// if they have a buffer, and the frame uniforms.
    pub fn uploads<B>(&self) -> (actions: Vec<CanvasAction<B>>)
        ensures
            action_views(actions@) == self@.upload_actions::<B>(),
    {
        let mut actions: Vec<CanvasAction<B>> = Vec::new();
        match self.user_uniforms_buffer_size {
            Some(_) => {
                actions.push(
                    CanvasAction::WriteUserUniforms(
                        crate::uniforms::uniform_buffer_contents(&self.user_uniforms),
                    ),
                );
            },
            None => {},
        }
        actions.push(CanvasAction::CopyFrameUniforms(self.uniforms));
        assert(action_views(actions@) =~= self@.upload_actions::<B>());
        actions
    }

    /// Acts on everything that came in since the last update: the
    /// dashboard's messages, then the changes of the fragment shader's file,
    /// then the changes of the file that declares uniforms and push
    /// constants, each kind in the order in which it came.
    pub fn receive<B>(
        &mut self,
        messages: Vec<DashboardMessage>,
        shader_events: Vec<ShaderFileEvent>,
        config_events: Vec<ConfigFileEvent>,
    ) -> (actions: Vec<CanvasAction<B>>)
        requires
            forall|i: int|
                0 <= i < config_events@.len() ==> (#[trigger] config_events@[i]).spec_loadable(),
        ensures
            final(self)@ == old(self)@.after_signals(
                crate::dashboard::dashboard_message_views(messages@),
            ).after_shader_events(shader_event_views(shader_events@)).after_config_events(
                config_event_views(config_events@),
            ),
            action_views(actions@) == old(self)@.signals_actions::<B>(
                crate::dashboard::dashboard_message_views(messages@),
            ) + CanvasView::shader_events_actions::<B>(shader_event_views(shader_events@))
                + CanvasView::config_events_actions::<B>(config_event_views(config_events@)),
            old(self)@.buffer_agrees() ==> final(self)@.buffer_agrees(),
    {
        let mut actions = self.dashboard_signals_received::<B>(messages);
        let ghost first = action_views(actions@);
        let mut more = self.update_shader_pipelines::<B>(shader_events);
        let ghost second = action_views(more@);
        actions.append(&mut more);
        assert(action_views(actions@) =~= first + second);
        let mut last = self.update_custom_uniforms_from_files::<B>(config_events);
        let ghost third = action_views(last@);
        actions.append(&mut last);
        assert(action_views(actions@) =~= first + second + third);
        actions
    }

    /// The update that precedes every frame, on the day `today`.
    ///
    /// First the messages that came from the dashboard since the last update
    /// are acted on, all of them and in the order in which they came. Then
    /// the changes of the fragment shader's file, in their order, and after
    /// them the changes of the file that declares uniforms and push
    /// constants, in theirs. Then the stopwatch is read and the frame clock
    /// moves on, unless playback is paused. At the end the bytes of the
    /// user's uniforms are written to their buffer, paused or not, so that
    /// an edit shows in the next frame, and the frame uniforms are copied to
    /// the device.
    ///
    /// What the stopwatch shows is the time of the frame uniforms after the
    /// update, unless playback is paused. The canvas is then as `update_at`
    /// leaves it for that reading.
    ///
    /// Every document that comes with a change must be one that can be
    /// loaded.
    pub fn update<B>(
        &mut self,
        messages: Vec<DashboardMessage>,
        shader_events: Vec<ShaderFileEvent>,
        config_events: Vec<ConfigFileEvent>,
        today: IntVector4,
    ) -> (actions: Vec<CanvasAction<B>>)
        requires
            forall|i: int|
                0 <= i < config_events@.len() ==> (#[trigger] config_events@[i]).spec_loadable(),
        ensures
            final(self)@ == old(self)@.updated(
                crate::dashboard::dashboard_message_views(messages@),
                shader_event_views(shader_events@),
                config_event_views(config_events@),
                final(self)@.uniforms.time,
                today,
            ),
            action_views(actions@) == old(self)@.signals_actions::<B>(
                crate::dashboard::dashboard_message_views(messages@),
            ) + CanvasView::shader_events_actions::<B>(shader_event_views(shader_events@))
                + CanvasView::config_events_actions::<B>(config_event_views(config_events@))
                + final(self)@.upload_actions::<B>(),
            old(self)@.buffer_agrees() ==> final(self)@.buffer_agrees(),
    {
        let mut actions = self.receive::<B>(messages, shader_events, config_events);
        let ghost received = self@;
        let ghost first = action_views(actions@);
        let shown = reading(&self.stop_watch);
        self.advance(shown, today);
        assert(self@ == received.advance(self@.uniforms.time, today));
        let mut uploads = self.uploads::<B>();
        let ghost second = action_views(uploads@);
        actions.append(&mut uploads);
        assert(action_views(actions@) =~= first + second);
        actions
    }

    /// The update that precedes every frame, on the day `today`, for a
    /// stopwatch that shows `reading`: what `update` does, but that the
    /// stopwatch is not read.
    pub fn update_at<B>(
        &mut self,
        messages: Vec<DashboardMessage>,
        shader_events: Vec<ShaderFileEvent>,
        config_events: Vec<ConfigFileEvent>,
        reading: u64,
        today: IntVector4,
    ) -> (actions: Vec<CanvasAction<B>>)
        requires
            forall|i: int|
                0 <= i < config_events@.len() ==> (#[trigger] config_events@[i]).spec_loadable(),
        ensures
            final(self)@ == old(self)@.updated(
                crate::dashboard::dashboard_message_views(messages@),
                shader_event_views(shader_events@),
                config_event_views(config_events@),
                reading,
                today,
            ),
            action_views(actions@) == old(self)@.signals_actions::<B>(
                crate::dashboard::dashboard_message_views(messages@),
            ) + CanvasView::shader_events_actions::<B>(shader_event_views(shader_events@))
                + CanvasView::config_events_actions::<B>(config_event_views(config_events@))
                + final(self)@.upload_actions::<B>(),
            old(self)@.buffer_agrees() ==> final(self)@.buffer_agrees(),
    {
        let mut actions = self.receive::<B>(messages, shader_events, config_events);
        let ghost first = action_views(actions@);
        self.advance(reading, today);
        let mut uploads = self.uploads::<B>();
        let ghost second = action_views(uploads@);
        actions.append(&mut uploads);
        assert(action_views(actions@) =~= first + second);
        actions
    }

    /// Stops watching both files, as the program is about to end.
    pub fn exit_requested(&mut self)
        ensures
            final(self)@ == (CanvasView {
                shader_file_watcher: false,
                json_file_watcher: false,
                ..old(self)@
            }),
    {
        self.shader_file_watcher = false;
        self.json_file_watcher = false;
    }
}

} // verus!
