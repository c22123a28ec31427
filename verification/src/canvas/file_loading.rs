//! How the canvas follows the files it was started with: the fragment
//! shader, the description of uniforms and push constants, and the
//! post-processing shaders.

use vstd::prelude::*;
use super::message::{action_views, CanvasAction, CanvasActionView, CanvasMessage, CanvasMessageView};
use super::{Canvas, CanvasView};
use crate::config::ConfigDocument;
use super::{buffer_size, buffer_size_of, stages_given};
use crate::postprocessing::{postprocess_views, PostProcess, PostProcessView};
use crate::push_constants::{
    load_push_constants_from_json, loaded_push_constants, PushConstantView,
};
use crate::uniforms::{load_uniforms_from_json, loaded_uniforms, UserUniformView};
use crate::utils::reversed;

verus! {

/// The shortest interval at which a watched file is looked at, in
/// milliseconds.
pub const MIN_WATCH_INTERVAL_MS: u64 = 80;

/// What became of the watched fragment shader.
#[derive(Debug, PartialEq, Eq)]
pub enum ShaderFileEvent {
    /// The file was created or written. Holds what loading it gave: the
    /// compiled shader, or the compiler's words.
    Changed(Result<Vec<u8>, String>),
    /// The file was removed.
    Removed,
    /// The file was renamed.
    Renamed,
    /// The watcher failed.
    Error,
    /// Anything else.
    Other,
}

/// What became of the watched description of uniforms and push constants.
#[derive(Debug, PartialEq, Eq)]
pub enum ConfigFileEvent {
    /// The file was created or written. Holds the document read from it.
    Changed(ConfigDocument),
    /// The file was removed.
    Removed,
    /// The file was renamed.
    Renamed,
    /// The watcher failed.
    Error,
    /// Anything else.
    Other,
}

/// What a `ShaderFileEvent` holds.
pub enum ShaderFileEventView {
    Changed(Result<Seq<u8>, Seq<char>>),
    Removed,
    Renamed,
    Error,
    Other,
}

impl View for ShaderFileEvent {
    type V = ShaderFileEventView;

    open spec fn view(&self) -> ShaderFileEventView {
        match *self {
            ShaderFileEvent::Changed(Ok(shader)) => ShaderFileEventView::Changed(Ok(shader@)),
            ShaderFileEvent::Changed(Err(text)) => ShaderFileEventView::Changed(Err(text@)),
            ShaderFileEvent::Removed => ShaderFileEventView::Removed,
            ShaderFileEvent::Renamed => ShaderFileEventView::Renamed,
            ShaderFileEvent::Error => ShaderFileEventView::Error,
            ShaderFileEvent::Other => ShaderFileEventView::Other,
        }
    }
}

/// What a `ConfigFileEvent` holds: where the file was written, the uniforms
/// and the push constants that the document declares.
pub enum ConfigFileEventView {
    Changed { uniforms: Seq<UserUniformView>, push_constants: Seq<PushConstantView> },
    Removed,
    Renamed,
    Error,
    Other,
}

impl View for ConfigFileEvent {
    type V = ConfigFileEventView;

    open spec fn view(&self) -> ConfigFileEventView {
        match *self {
            ConfigFileEvent::Changed(document) => ConfigFileEventView::Changed {
                uniforms: loaded_uniforms(document.uniforms@),
                push_constants: loaded_push_constants(document.push_constants@),
            },
            ConfigFileEvent::Removed => ConfigFileEventView::Removed,
            ConfigFileEvent::Renamed => ConfigFileEventView::Renamed,
            ConfigFileEvent::Error => ConfigFileEventView::Error,
            ConfigFileEvent::Other => ConfigFileEventView::Other,
        }
    }
}

impl ConfigFileEvent {
    /// The document of the event, if it has one, can be loaded.
    pub open spec fn spec_loadable(&self) -> bool {
        match *self {
            ConfigFileEvent::Changed(document) => document.spec_loadable(),
            _ => true,
        }
    }

    /// Whether the document of the event, if it has one, can be loaded.
    pub fn loadable(&self) -> (ok: bool)
        ensures
            ok == self.spec_loadable(),
    {
        match self {
            ConfigFileEvent::Changed(document) => document.loadable(),
            _ => true,
        }
    }
}

/// The views of a list of events, in order.
pub open spec fn shader_event_views(events: Seq<ShaderFileEvent>) -> Seq<ShaderFileEventView> {
    Seq::new(events.len(), |i: int| events[i]@)
}

/// The views of a list of events, in order.
pub open spec fn config_event_views(events: Seq<ConfigFileEvent>) -> Seq<ConfigFileEventView> {
    Seq::new(events.len(), |i: int| events[i]@)
}

impl CanvasView {
    /// The canvas after a change of the fragment shader's file. A shader
    /// that compiled is taken. One that did not leaves the canvas as it is.
    /// A file that is gone, or a watcher that failed, is no longer watched.
    pub open spec fn after_shader_event(self, event: ShaderFileEventView) -> CanvasView {
        match event {
            ShaderFileEventView::Changed(Ok(shader)) => CanvasView {
                fragment_shader: shader,
                ..self
            },
            ShaderFileEventView::Changed(Err(_)) => self,
            ShaderFileEventView::Removed
            | ShaderFileEventView::Renamed
            | ShaderFileEventView::Error => CanvasView { shader_file_watcher: false, ..self },
            ShaderFileEventView::Other => self,
        }
    }

    /// What the owner is asked to do upon a change of the fragment shader's
    /// file: to rebuild the pipelines and tell the dashboard of the success,
    /// or to tell the dashboard the compiler's words, once.
    pub open spec fn shader_event_actions<B>(event: ShaderFileEventView) -> Seq<
        CanvasActionView<B>,
    > {
        match event {
            ShaderFileEventView::Changed(Ok(_)) => seq![
                CanvasActionView::<B>::RebuildPipelines,
                CanvasActionView::<B>::Send(CanvasMessageView::ShaderCompilationSucceeded),
            ],
            ShaderFileEventView::Changed(Err(text)) => seq![
                CanvasActionView::<B>::Send(CanvasMessageView::ShaderCompilationFailed(text)),
            ],
            _ => Seq::empty(),
        }
    }

    /// The canvas after a change of the file that declares uniforms and push
    /// constants. A document that was written replaces both lists whole. The
    /// user's uniform buffer is from then on as large as the new uniforms
    /// are together, or is no more where they take no bytes, and every stage
    /// is given the user's uniforms exactly if they have a buffer.
    pub open spec fn after_config_event(self, event: ConfigFileEventView) -> CanvasView {
        match event {
            ConfigFileEventView::Changed { uniforms, push_constants } => CanvasView {
                user_uniforms: uniforms,
                push_constants: Some(push_constants),
                user_uniforms_buffer_size: buffer_size_of(uniforms),
                postprocess_ops: stages_given(
                    self.postprocess_ops,
                    buffer_size_of(uniforms) is Some,
                ),
                ..self
            },
            ConfigFileEventView::Removed
            | ConfigFileEventView::Renamed
            | ConfigFileEventView::Error => CanvasView { json_file_watcher: false, ..self },
            ConfigFileEventView::Other => self,
        }
    }

    /// What the owner is asked to do upon a change of the file that declares
    /// uniforms and push constants: where a document was written, to make
    /// the user's uniform buffer and all that is built on it anew.
    pub open spec fn config_event_actions<B>(event: ConfigFileEventView) -> Seq<
        CanvasActionView<B>,
    > {
        match event {
            ConfigFileEventView::Changed { .. } => seq![CanvasActionView::<B>::RebuildBindings],
            _ => Seq::empty(),
        }
    }

    /// What the owner is asked to do upon the changes `events` of the file
    /// that declares uniforms and push constants, taken in order.
    pub open spec fn config_events_actions<B>(events: Seq<ConfigFileEventView>) -> Seq<
        CanvasActionView<B>,
    >
        decreases events.len(),
    {
        if events.len() == 0 {
            Seq::empty()
        } else {
            Self::config_events_actions::<B>(events.drop_last()) + Self::config_event_actions::<B>(
                events.last(),
            )
        }
    }

    /// The canvas after the changes `events` of the fragment shader's file,
    /// taken in order.
    pub open spec fn after_shader_events(self, events: Seq<ShaderFileEventView>) -> CanvasView
        decreases events.len(),
    {
        if events.len() == 0 {
            self
        } else {
            self.after_shader_events(events.drop_last()).after_shader_event(events.last())
        }
    }

    /// What the owner is asked to do upon the changes `events` of the
    /// fragment shader's file, taken in order.
    pub open spec fn shader_events_actions<B>(events: Seq<ShaderFileEventView>) -> Seq<
        CanvasActionView<B>,
    >
        decreases events.len(),
    {
        if events.len() == 0 {
            Seq::empty()
        } else {
            Self::shader_events_actions::<B>(events.drop_last()) + Self::shader_event_actions::<B>(
                events.last(),
            )
        }
    }

    /// The canvas after the changes `events` of the file that declares
    /// uniforms and push constants, taken in order.
    pub open spec fn after_config_events(self, events: Seq<ConfigFileEventView>) -> CanvasView
        decreases events.len(),
    {
        if events.len() == 0 {
            self
        } else {
            self.after_config_events(events.drop_last()).after_config_event(events.last())
        }
    }
}

/// A shader that does not compile changes nothing. The canvas stays as it
/// is, so whatever was a plan for a picture before is a plan for it after,
/// and the owner is asked for one thing only: to tell the dashboard the
/// compiler's words.
pub proof fn lemma_failed_reload_changes_nothing<B>(
    canvas: CanvasView,
    text: Seq<char>,
    plan: crate::canvas::rendering::RenderPlan,
    pipeline_type: crate::postprocessing::PipelineType,
    resolution: crate::vector::UIntVector2,
)
    ensures
        canvas.after_shader_event(ShaderFileEventView::Changed(Err(text))) == canvas,
        canvas.after_shader_event(ShaderFileEventView::Changed(Err(text))).is_plan(
            plan,
            pipeline_type,
            resolution,
        ) == canvas.is_plan(plan, pipeline_type, resolution),
        CanvasView::shader_event_actions::<B>(ShaderFileEventView::Changed(Err(text))) == seq![
            CanvasActionView::<B>::Send(CanvasMessageView::ShaderCompilationFailed(text)),
        ],
        CanvasView::shader_event_actions::<B>(ShaderFileEventView::Changed(Err(text))).len() == 1,
{
}

/// The interval at which a watched file is looked at when `requested_ms` is
/// asked for: that, but no less than `MIN_WATCH_INTERVAL_MS`.
pub open spec fn spec_watch_interval(requested_ms: u64) -> u64 {
    if requested_ms >= MIN_WATCH_INTERVAL_MS {
        requested_ms
    } else {
        MIN_WATCH_INTERVAL_MS
    }
}

/// The interval at which a watched file is looked at when `requested_ms` is
/// asked for: that, but no less than `MIN_WATCH_INTERVAL_MS`.
pub fn watch_interval(requested_ms: u64) -> (interval_ms: u64)
    ensures
        interval_ms == spec_watch_interval(requested_ms),
{
    if requested_ms >= MIN_WATCH_INTERVAL_MS {
        requested_ms
    } else {
        MIN_WATCH_INTERVAL_MS
    }
}

impl Canvas {
    /// Acts on a change of the fragment shader's file.
    ///
    /// Where the file was written and the shader compiled, the canvas takes
    /// the new shader, asks for the three pipelines to be rebuilt from it
    /// and tells the dashboard. Where it did not compile, the canvas stays
    /// as it is, so that the old pipelines keep drawing, and tells the
    /// dashboard the compiler's words, once. Where the file was removed or
    /// renamed, or the watcher failed, the file is no longer watched.
    pub fn update_shader_pipeline<B>(&mut self, event: ShaderFileEvent) -> (actions: Vec<
        CanvasAction<B>,
    >)
        ensures
            final(self)@ == old(self)@.after_shader_event(event@),
            action_views(actions@) == CanvasView::shader_event_actions::<B>(event@),
            event@ is Changed && event@->Changed_0 is Err ==> final(self)@ == old(self)@
                && action_views(actions@).len() == 1,
            old(self)@.buffer_agrees() ==> final(self)@.buffer_agrees(),
    {
        let mut actions: Vec<CanvasAction<B>> = Vec::new();
        match event {
            ShaderFileEvent::Changed(Ok(shader)) => {
                self.fragment_shader = shader;
                actions.push(CanvasAction::RebuildPipelines);
                actions.push(CanvasAction::Send(CanvasMessage::ShaderCompilationSucceeded));
                assert(action_views(actions@) =~= seq![
                    CanvasActionView::<B>::RebuildPipelines,
                    CanvasActionView::<B>::Send(CanvasMessageView::ShaderCompilationSucceeded),
                ]);
            },
            ShaderFileEvent::Changed(Err(text)) => {
                actions.push(CanvasAction::Send(CanvasMessage::ShaderCompilationFailed(text)));
                assert(action_views(actions@) =~= seq![
                    CanvasActionView::<B>::Send(CanvasMessageView::ShaderCompilationFailed(text@)),
                ]);
            },
            ShaderFileEvent::Removed | ShaderFileEvent::Renamed | ShaderFileEvent::Error => {
                self.shader_file_watcher = false;
                assert(action_views(actions@) =~= Seq::<CanvasActionView<B>>::empty());
            },
            ShaderFileEvent::Other => {
                assert(action_views(actions@) =~= Seq::<CanvasActionView<B>>::empty());
            },
        }
        actions
    }

    /// Adds a post-processing stage that runs the compiled shader
    /// `shader_data`. It runs after the stages added before it, and before
    /// the conversion to sRGB that closes the chain of a painting and of a
    /// movie frame. The stage is given the user's uniforms if they have a
    /// buffer.
    pub fn add_post_processing_shader(&mut self, shader_data: Vec<u8>)
        ensures
            final(self)@ == (CanvasView {
                postprocess_ops: old(self)@.postprocess_ops.push(
                    PostProcessView {
                        shader_module: shader_data@,
                        custom_uniforms_provided: old(self)@.user_uniforms_buffer_size is Some,
                    },
                ),
                ..old(self)@
            }),
    {
        let postprocess = PostProcess::new(shader_data, self.user_uniforms_buffer_size.is_some());
        self.postprocess_ops.push(postprocess);
        assert(crate::postprocessing::postprocess_views(self.postprocess_ops@)
            =~= crate::postprocessing::postprocess_views(old(self).postprocess_ops@).push(
            postprocess@,
        ));
    }

    /// Takes note that the fragment shader's file is watched from now on.
    /// Gives the interval at which to look at it, in milliseconds, when
    /// `interval_ms` is asked for.
    pub fn watch_shader_file(&mut self, interval_ms: u64) -> (interval: u64)
        ensures
            final(self)@ == (CanvasView { shader_file_watcher: true, ..old(self)@ }),
            interval == spec_watch_interval(interval_ms),
    {
        self.shader_file_watcher = true;
        watch_interval(interval_ms)
    }

    /// Takes note that the file that declares uniforms and push constants is
    /// watched from now on. Gives the interval at which to look at it, in
    /// milliseconds, when `interval_ms` is asked for.
    pub fn watch_uniforms_file(&mut self, interval_ms: u64) -> (interval: u64)
        ensures
            final(self)@ == (CanvasView { json_file_watcher: true, ..old(self)@ }),
            interval == spec_watch_interval(interval_ms),
    {
        self.json_file_watcher = true;
        watch_interval(interval_ms)
    }

    /// Gives every stage the user's uniforms, or none of them, as `provided`
    /// says.
    pub fn give_stages_uniforms(&mut self, provided: bool)
        ensures
            final(self)@ == (CanvasView {
                postprocess_ops: stages_given(old(self)@.postprocess_ops, provided),
                ..old(self)@
            }),
    {
        let mut stages: Vec<PostProcess> = Vec::new();
        core::mem::swap(&mut stages, &mut self.postprocess_ops);
        let ghost all = stages@;
        let total = stages.len();
        let mut pending = reversed(stages);
        let mut done: usize = 0;
        while pending.len() > 0
            invariant
                done + pending@.len() == total == all.len(),
                forall|j: int|
                    0 <= j < pending@.len() ==> #[trigger] pending@[j] == all[total - 1 - j],
                (CanvasView { postprocess_ops: old(self)@.postprocess_ops, ..self@ }) == old(
                    self,
                )@,
                self.postprocess_ops@.len() == done,
                forall|j: int|
                    0 <= j < done ==> (#[trigger] self.postprocess_ops@[j])@ == (PostProcessView {
                        custom_uniforms_provided: provided,
                        ..all[j]@
                    }),
            decreases pending.len(),
        {
            let mut stage = pending.pop().unwrap();
            stage.custom_uniforms_provided = provided;
            self.postprocess_ops.push(stage);
            done += 1;
        }
        assert(postprocess_views(self.postprocess_ops@) =~= stages_given(
            old(self)@.postprocess_ops,
            provided,
        ));
    }

    /// Acts on a change of the file that declares uniforms and push
    /// constants.
    ///
    /// Where the file was written, the uniforms and the push constants of
    /// the canvas are replaced by those that the document declares: nothing
    /// is kept of the old ones. The user's uniform buffer is from then on as
    /// large as the new uniforms are together, and the owner is asked to
    /// make it, and what is built on it, anew. Where the file was removed or
    /// renamed, or the watcher failed, the file is no longer watched.
    pub fn update_custom_uniforms_from_file<B>(&mut self, event: ConfigFileEvent) -> (actions: Vec<
        CanvasAction<B>,
    >)
        requires
            event.spec_loadable(),
        ensures
            final(self)@ == old(self)@.after_config_event(event@),
            action_views(actions@) == CanvasView::config_event_actions::<B>(event@),
            event@ is Changed ==> final(self)@.buffer_agrees(),
            old(self)@.buffer_agrees() ==> final(self)@.buffer_agrees(),
    {
        let mut actions: Vec<CanvasAction<B>> = Vec::new();
        match event {
            ConfigFileEvent::Changed(document) => {
                let uniforms = load_uniforms_from_json(&document);
                let size = buffer_size(&uniforms);
                self.user_uniforms = uniforms;
                self.push_constants = Some(load_push_constants_from_json(&document));
                self.user_uniforms_buffer_size = size;
                self.give_stages_uniforms(size.is_some());
                actions.push(CanvasAction::RebuildBindings);
            },
            ConfigFileEvent::Removed | ConfigFileEvent::Renamed | ConfigFileEvent::Error => {
                self.json_file_watcher = false;
            },
            ConfigFileEvent::Other => {},
        }
        assert(action_views(actions@) =~= CanvasView::config_event_actions::<B>(event@));
        actions
    }

    /// Acts on the changes `events` of the fragment shader's file, in the
    /// order in which they came.
    pub fn update_shader_pipelines<B>(&mut self, events: Vec<ShaderFileEvent>) -> (actions: Vec<
        CanvasAction<B>,
    >)
        ensures
            final(self)@ == old(self)@.after_shader_events(shader_event_views(events@)),
            action_views(actions@) == CanvasView::shader_events_actions::<B>(
                shader_event_views(events@),
            ),
            old(self)@.buffer_agrees() ==> final(self)@.buffer_agrees(),
    {
        let ghost all = shader_event_views(events@);
        let total = events.len();
        let mut actions: Vec<CanvasAction<B>> = Vec::new();
        // Taken off the end of `pending`, the events come in the order in
        // which they came.
        let mut pending = reversed(events);
        let mut done: usize = 0;
        assert(all.subrange(0, 0) =~= Seq::empty());
        assert(action_views(actions@) =~= Seq::empty());
        while pending.len() > 0
            invariant
                done + pending@.len() == total,
                all.len() == total,
                forall|j: int|
                    0 <= j < pending@.len() ==> (#[trigger] pending@[j])@ == all[total - 1 - j],
                self@ == old(self)@.after_shader_events(all.subrange(0, done as int)),
                action_views(actions@) == CanvasView::shader_events_actions::<B>(
                    all.subrange(0, done as int),
                ),
                old(self)@.buffer_agrees() ==> self@.buffer_agrees(),
            decreases pending.len(),
        {
            let ghost before = action_views(actions@);
            let event = pending.pop().unwrap();
            proof {
                assert(event@ == all[done as int]);
                assert(all.subrange(0, done + 1).drop_last() =~= all.subrange(0, done as int));
                assert(all.subrange(0, done + 1).last() == all[done as int]);
            }
            let mut more = self.update_shader_pipeline::<B>(event);
            let ghost added = action_views(more@);
            actions.append(&mut more);
            assert(action_views(actions@) =~= before + added);
            done += 1;
        }
        proof {
            assert(all.subrange(0, done as int) =~= all);
        }
        actions
    }

    /// Acts on the changes `events` of the file that declares uniforms and
    /// push constants, in the order in which they came.
    pub fn update_custom_uniforms_from_files<B>(&mut self, events: Vec<ConfigFileEvent>) -> (actions:
        Vec<CanvasAction<B>>)
        requires
            forall|i: int| 0 <= i < events@.len() ==> (#[trigger] events@[i]).spec_loadable(),
        ensures
            final(self)@ == old(self)@.after_config_events(config_event_views(events@)),
            action_views(actions@) == CanvasView::config_events_actions::<B>(
                config_event_views(events@),
            ),
            old(self)@.buffer_agrees() ==> final(self)@.buffer_agrees(),
    {
        let ghost all = config_event_views(events@);
        let total = events.len();
        let mut actions: Vec<CanvasAction<B>> = Vec::new();
        // Taken off the end of `pending`, the events come in the order in
        // which they came.
        let mut pending = reversed(events);
        let mut done: usize = 0;
        assert(all.subrange(0, 0) =~= Seq::empty());
        assert(action_views(actions@) =~= Seq::empty());
        while pending.len() > 0
            invariant
                done + pending@.len() == total,
                all.len() == total,
                forall|j: int|
                    0 <= j < pending@.len() ==> (#[trigger] pending@[j])@ == all[total - 1 - j]
                        && pending@[j].spec_loadable(),
                self@ == old(self)@.after_config_events(all.subrange(0, done as int)),
                action_views(actions@) == CanvasView::config_events_actions::<B>(
                    all.subrange(0, done as int),
                ),
                old(self)@.buffer_agrees() ==> self@.buffer_agrees(),
            decreases pending.len(),
        {
            let ghost before = action_views(actions@);
            let event = pending.pop().unwrap();
            proof {
                assert(event@ == all[done as int]);
                assert(all.subrange(0, done + 1).drop_last() =~= all.subrange(0, done as int));
                assert(all.subrange(0, done + 1).last() == all[done as int]);
            }
            let mut more = self.update_custom_uniforms_from_file::<B>(event);
            let ghost added = action_views(more@);
            actions.append(&mut more);
            assert(action_views(actions@) =~= before + added);
            done += 1;
        }
        proof {
            assert(all.subrange(0, done as int) =~= all);
        }
        actions
    }
}

} // verus!
