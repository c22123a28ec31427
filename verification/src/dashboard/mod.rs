//! The dashboard: the window with the controls.
//!
//! The dashboard shows what the canvas reports, sends the canvas what its
//! user asks for, has paintings written to disk, and owns the recorder of a
//! movie from its start to its end. While a movie is recorded, it alone
//! decides when the next frame is due.

use vstd::prelude::*;
use vstd::string::*;
use crate::canvas::message::{CanvasMessage, CanvasMessageView, SwapChainError};
use crate::canvas::rendering::message_views;
use crate::recording::{Recorder, RecorderView, ThreadToRecorderSignal};
use crate::clock::span;
use crate::uniforms::{UserUniform, UserUniformView};
use crate::vector::UIntVector2;

pub mod state;
pub mod ui;

pub use self::state::{new_dashboard_state, DashboardState, DashboardStateView};

verus! {

/// The messages that the dashboard sends to the canvas.
#[derive(Debug, PartialEq, Eq)]
pub enum DashboardMessage {
    /// Pause when playing, play when paused.
    PausePlayChanged,
    Play,
    Pause,
    /// Show the title bar when hidden, hide it when shown.
    TitlebarStatusChanged,
    /// Render a painting of this resolution.
    PaintingRenderRequested(UIntVector2),
    /// The resolution that paintings started from the canvas window have.
    PaintingResolutionUpdated(UIntVector2),
    /// Render a movie frame of this resolution.
    MovieRenderRequested(UIntVector2),
    /// A uniform was edited.
    UniformUpdatedViaGUI(UserUniform),
}

/// What a `DashboardMessage` holds.
pub enum DashboardMessageView {
    PausePlayChanged,
    Play,
    Pause,
    TitlebarStatusChanged,
    PaintingRenderRequested(UIntVector2),
    PaintingResolutionUpdated(UIntVector2),
    MovieRenderRequested(UIntVector2),
    UniformUpdatedViaGUI(UserUniformView),
}

impl View for DashboardMessage {
    type V = DashboardMessageView;

    open spec fn view(&self) -> DashboardMessageView {
        match *self {
            DashboardMessage::PausePlayChanged => DashboardMessageView::PausePlayChanged,
            DashboardMessage::Play => DashboardMessageView::Play,
            DashboardMessage::Pause => DashboardMessageView::Pause,
            DashboardMessage::TitlebarStatusChanged => DashboardMessageView::TitlebarStatusChanged,
            DashboardMessage::PaintingRenderRequested(resolution) => {
                DashboardMessageView::PaintingRenderRequested(resolution)
            },
            DashboardMessage::PaintingResolutionUpdated(resolution) => {
                DashboardMessageView::PaintingResolutionUpdated(resolution)
            },
            DashboardMessage::MovieRenderRequested(resolution) => {
                DashboardMessageView::MovieRenderRequested(resolution)
            },
            DashboardMessage::UniformUpdatedViaGUI(uniform) => {
                DashboardMessageView::UniformUpdatedViaGUI(uniform@)
            },
        }
    }
}

/// The views of a list of messages, in order.
pub open spec fn dashboard_message_views(messages: Seq<DashboardMessage>) -> Seq<
    DashboardMessageView,
> {
    Seq::new(messages.len(), |i: int| messages[i]@)
}

/// Something that the dashboard asks its owner to do. The owner carries the
/// actions out in the order in which it is given them.
#[derive(Debug, PartialEq, Eq)]
pub enum DashboardAction<B> {
    /// Send the message to the canvas.
    Send(DashboardMessage),
    /// Read the painting from its buffer and write it to this file, away
    /// from the thread of the dashboard; report when it is written.
    WritePainting { buffer: B, resolution: UIntVector2, filename: String, open_externally: bool },
    /// Hand the frame in this buffer to the recorder's worker.
    RecordFrame(B, UIntVector2),
    /// Start the worker of the recorder that the dashboard now holds.
    StartRecorder,
    /// Send the recorder's worker the order to stop.
    StopRecorder,
    /// Wait for the recorder's worker to end. The dashboard holds the
    /// recorder no longer.
    FinishRecorder,
    /// Make the swap chain anew for a window of this size.
    ResizeSwapChain(UIntVector2),
    /// Note in the log that a painting took this long from its start to the
    /// end of writing, in nanoseconds.
    LogPaintingTime(u64),
    /// Tell the window that there is something new to draw.
    RequestRedraw,
}

/// What a `DashboardAction` holds.
pub enum DashboardActionView<B> {
    Send(DashboardMessageView),
    WritePainting { buffer: B, resolution: UIntVector2, filename: Seq<char>, open_externally: bool },
    RecordFrame(B, UIntVector2),
    StartRecorder,
    StopRecorder,
    FinishRecorder,
    ResizeSwapChain(UIntVector2),
    LogPaintingTime(u64),
    RequestRedraw,
}

impl<B> View for DashboardAction<B> {
    type V = DashboardActionView<B>;

    open spec fn view(&self) -> DashboardActionView<B> {
        match *self {
            DashboardAction::Send(message) => DashboardActionView::Send(message@),
            DashboardAction::WritePainting { buffer, resolution, filename, open_externally } => {
                DashboardActionView::WritePainting {
                    buffer,
                    resolution,
                    filename: filename@,
                    open_externally,
                }
            },
            DashboardAction::RecordFrame(buffer, resolution) => DashboardActionView::RecordFrame(
                buffer,
                resolution,
            ),
            DashboardAction::StartRecorder => DashboardActionView::StartRecorder,
            DashboardAction::StopRecorder => DashboardActionView::StopRecorder,
            DashboardAction::FinishRecorder => DashboardActionView::FinishRecorder,
            DashboardAction::ResizeSwapChain(size) => DashboardActionView::ResizeSwapChain(size),
            DashboardAction::LogPaintingTime(time) => DashboardActionView::LogPaintingTime(time),
            DashboardAction::RequestRedraw => DashboardActionView::RequestRedraw,
        }
    }
}

/// The views of a list of actions, in order.
pub open spec fn dashboard_action_views<B>(actions: Seq<DashboardAction<B>>) -> Seq<
    DashboardActionView<B>,
> {
    Seq::new(actions.len(), |i: int| actions[i]@)
}

/// The dashboard.
#[derive(Debug, PartialEq, Eq)]
pub struct Dashboard {
    /// Size of the dashboard's window in pixels.
    pub size: UIntVector2,
    /// When the last frame of the dashboard began.
    pub last_frame: u64,
    pub state: DashboardState,
    /// The recorder, from the start of a recording until the encoder has
    /// finished.
    pub recorder: Option<Recorder>,
    /// When the last movie frame was asked for.
    pub last_movie_frame_time: Option<u64>,
    /// Whether the platform can open a painting in another program.
    pub opens_paintings: bool,
}

/// What a `Dashboard` holds.
pub struct DashboardView {
    pub size: UIntVector2,
    pub last_frame: u64,
    pub state: DashboardStateView,
    pub recorder: Option<RecorderView>,
    pub last_movie_frame_time: Option<u64>,
    pub opens_paintings: bool,
}

impl View for Dashboard {
    type V = DashboardView;

    open spec fn view(&self) -> DashboardView {
        DashboardView {
            size: self.size,
            last_frame: self.last_frame,
            state: self.state@,
            recorder: match self.recorder {
                Some(recorder) => Some(recorder@),
                None => None,
            },
            last_movie_frame_time: self.last_movie_frame_time,
            opens_paintings: self.opens_paintings,
        }
    }
}

/// The counter after one more was counted. It starts again at zero at the
/// end of its range.
pub open spec fn counted(counter: usize) -> usize {
    if counter == usize::MAX {
        0
    } else {
        (counter + 1) as usize
    }
}

/// Nanoseconds in a second.
pub const NANOS_PER_SECOND: u64 = 1_000_000_000;

/// The shortest time between two frames of the dashboard, in milliseconds.
pub const UPDATE_INTERVAL_MS: u64 = 16;

/// Whether the next frame of the dashboard is due at `now_ms`, when the last
/// began at `last_ms`: at least `UPDATE_INTERVAL_MS` milliseconds have
/// passed. The dashboard then updates, draws its controls and sends what
/// follows a frame; the events of the window in between do not make it draw
/// more often.
pub fn tick_due(last_ms: u64, now_ms: u64) -> (due: bool)
    ensures
        due == (span(last_ms, now_ms) >= UPDATE_INTERVAL_MS),
{
    now_ms >= last_ms && now_ms - last_ms >= UPDATE_INTERVAL_MS
}

impl DashboardView {
    /// The dashboard with the state `state`.
    pub open spec fn with_state(self, state: DashboardStateView) -> DashboardView {
        DashboardView { state, ..self }
    }

    /// Whether the dashboard can take the message: a movie frame needs a
    /// recorder to go to.
    pub open spec fn accepts<B>(self, message: CanvasMessageView<B>) -> bool {
        message is MovieFrameStarted ==> self.recorder is Some
    }

    /// The dashboard after the canvas's message `message`.
    pub open spec fn after_message<B>(self, message: CanvasMessageView<B>) -> DashboardView {
        let state = self.state;
        match message {
            CanvasMessageView::FrameStep => self.with_state(
                DashboardStateView { frame_num: counted(state.frame_num), ..state },
            ),
            CanvasMessageView::MouseMoved(position) => self.with_state(
                DashboardStateView { mouse_pos: position, ..state },
            ),
            CanvasMessageView::RenderPassSubmitted => self,
            CanvasMessageView::WindowResized(size) => self.with_state(
                DashboardStateView { render_window_size: size, ..state },
            ),
            CanvasMessageView::SwapChainFrameError(error) => if error == SwapChainError::Timeout {
                self.with_state(
                    DashboardStateView {
                        frame_timeout_count: counted(state.frame_timeout_count),
                        ..state
                    },
                )
            } else {
                self
            },
            CanvasMessageView::PaintingStarted(_, _, started) => self.with_state(
                DashboardStateView {
                    painting_start_time: Some(started),
                    painting_in_progress: true,
                    ..state
                },
            ),
            CanvasMessageView::ShaderCompilationFailed(text) => self.with_state(
                DashboardStateView { shader_compilation_error_msg: Some(text), ..state },
            ),
            CanvasMessageView::ShaderCompilationSucceeded => self.with_state(
                DashboardStateView { shader_compilation_error_msg: None, paused: false, ..state },
            ),
            CanvasMessageView::PausePlayChanged => self.with_state(
                DashboardStateView { paused: !state.paused, ..state },
            ),
            CanvasMessageView::UniformForGUI(uniform) => self.with_state(
                DashboardStateView { gui_uniforms: state.gui_uniforms.push(uniform), ..state },
            ),
            CanvasMessageView::UpdatePaintingResolutioninGUI(resolution) => self.with_state(
                DashboardStateView { painting_resolution: resolution, ..state },
            ),
            CanvasMessageView::MovieFrameStarted(_, _, _) => self,
        }
    }

    /// What the owner is asked to do upon the canvas's message `message`.
    ///
    /// A painting is written to the file of the chosen name with the ending
    /// `.tiff`. A shader that does not compile pauses playback, and one that
    /// compiles again resumes it. A movie frame goes to the recorder, unless
    /// the recorder has been told to stop: no frame follows that order.
    pub open spec fn message_actions<B>(self, message: CanvasMessageView<B>) -> Seq<
        DashboardActionView<B>,
    > {
        match message {
            CanvasMessageView::PaintingStarted(buffer, resolution, _) => seq![
                DashboardActionView::WritePainting {
                    buffer,
                    resolution,
                    filename: self.state.painting_filename + ".tiff"@,
                    open_externally: self.opens_paintings && self.state.open_painting_externally,
                },
            ],
            CanvasMessageView::ShaderCompilationFailed(_) => seq![
                DashboardActionView::Send(DashboardMessageView::Pause),
            ],
            CanvasMessageView::ShaderCompilationSucceeded => seq![
                DashboardActionView::Send(DashboardMessageView::Play),
            ],
            CanvasMessageView::MovieFrameStarted(buffer, resolution, _) => match self.recorder {
                Some(recorder) => if recorder.can_stop() {
                    seq![DashboardActionView::RecordFrame(buffer, resolution)]
                } else {
                    Seq::empty()
                },
                None => Seq::empty(),
            },
            _ => Seq::empty(),
        }
    }

    /// The dashboard after the canvas's messages `messages`, taken in order.
    pub open spec fn after_messages<B>(self, messages: Seq<CanvasMessageView<B>>) -> DashboardView
        decreases messages.len(),
    {
        if messages.len() == 0 {
            self
        } else {
            self.after_messages(messages.drop_last()).after_message(messages.last())
        }
    }

    /// What the owner is asked to do upon the canvas's messages `messages`,
    /// taken in order.
    pub open spec fn messages_actions<B>(self, messages: Seq<CanvasMessageView<B>>) -> Seq<
        DashboardActionView<B>,
    >
        decreases messages.len(),
    {
        if messages.len() == 0 {
            Seq::empty()
        } else {
            self.messages_actions(messages.drop_last()) + self.after_messages(
                messages.drop_last(),
            ).message_actions(messages.last())
        }
    }

    /// Whether the next movie frame is due at `now`: frames are asked for,
    /// and either none has been asked for yet, or the last was asked for at
    /// least the `movie_framerate`-th part of a second ago.
    pub open spec fn frame_due(self, now: u64) -> bool {
        &&& self.state.recording_in_progress
        &&& match self.last_movie_frame_time {
            Some(last) => span(last, now) * self.state.movie_framerate >= NANOS_PER_SECOND,
            None => true,
        }
    }

    /// Whether a movie frame is asked for at `now`: there is a recorder, its
    /// encoder has been reported ready, and a frame is due.
    pub open spec fn requests_frame(self, now: u64) -> bool {
        match self.recorder {
            Some(recorder) => self.frame_due(now) && recorder.ready,
            None => false,
        }
    }

    /// The dashboard after it has looked after its recorder at `now`, with
    /// the report `report` of the recorder's worker, if one has come.
    pub open spec fn after_recorder_tick(
        self,
        report: Option<ThreadToRecorderSignal>,
        now: u64,
    ) -> DashboardView {
        match self.recorder {
            Some(recorder) => DashboardView {
                last_movie_frame_time: if self.requests_frame(now) {
                    Some(now)
                } else {
                    self.last_movie_frame_time
                },
                recorder: if recorder.polled(report).done {
                    None
                } else {
                    Some(recorder.polled(report))
                },
                ..self
            },
            None => self,
        }
    }

    /// What the owner is asked to do when the dashboard looks after its
    /// recorder, and what closes every update: the canvas is told the
    /// resolution chosen for paintings.
    pub open spec fn recorder_tick_actions<B>(
        self,
        report: Option<ThreadToRecorderSignal>,
        now: u64,
    ) -> Seq<DashboardActionView<B>> {
        let request = if self.requests_frame(now) {
            seq![
                DashboardActionView::<B>::Send(
                    DashboardMessageView::MovieRenderRequested(
                        self.state.recording_resolution.spec_to_unsigned(),
                    ),
                ),
            ]
        } else {
            Seq::empty()
        };
        let finish = match self.recorder {
            Some(recorder) => if recorder.polled(report).done {
                seq![DashboardActionView::<B>::FinishRecorder]
            } else {
                Seq::empty()
            },
            None => Seq::empty(),
        };
        request + finish + seq![
            DashboardActionView::<B>::Send(
                DashboardMessageView::PaintingResolutionUpdated(
                    self.state.painting_resolution.spec_to_unsigned(),
                ),
            ),
        ]
    }

    /// The dashboard after a frame of it ended at `now`.
    pub open spec fn frame_ticked(self, now: u64) -> DashboardView {
        DashboardView {
            last_frame: now,
            state: DashboardStateView {
                last_render_time: span(self.last_frame, now) as u64,
                ..self.state
            },
            ..self
        }
    }

    /// What the owner is asked to do after a frame of the dashboard: to send
    /// the canvas every uniform as it was edited, in order, and to have the
    /// window drawn again.
    pub open spec fn post_render_actions<B>(self) -> Seq<DashboardActionView<B>> {
        Seq::new(
            self.state.gui_uniforms.len() + 1,
            |i: int|
                if i < self.state.gui_uniforms.len() {
                    DashboardActionView::Send(
                        DashboardMessageView::UniformUpdatedViaGUI(self.state.gui_uniforms[i]),
                    )
                } else {
                    DashboardActionView::RequestRedraw
                },
        )
    }
}

/// The dashboard for a window of size `size`, opened at `now`.
pub open spec fn new_dashboard(size: UIntVector2, now: u64, opens_paintings: bool) -> DashboardView {
    DashboardView {
        size,
        last_frame: now,
        state: DashboardStateView {
            render_window_size: size.spec_to_signed(),
            ..new_dashboard_state()
        },
        recorder: None,
        last_movie_frame_time: None,
        opens_paintings,
    }
}

fn count(counter: usize) -> (next: usize)
    ensures
        next == counted(counter),
{
    if counter == usize::MAX {
        0
    } else {
        counter + 1
    }
}

impl Dashboard {
    /// The dashboard for a window of size `size`, opened at `now`.
    /// `opens_paintings` says whether the platform can open a painting in
    /// another program.
    pub fn new(size: UIntVector2, now: u64, opens_paintings: bool) -> (dashboard: Dashboard)
        ensures
            dashboard@ == new_dashboard(size, now, opens_paintings),
    {
        let mut state = DashboardState::new();
        state.render_window_size = size.to_signed();
        Dashboard {
            size,
            last_frame: now,
            state,
            recorder: None,
            last_movie_frame_time: None,
            opens_paintings,
        }
    }

    /// Whether the dashboard can take the message: a movie frame needs a
    /// recorder to go to.
    pub fn accepts<B>(&self, message: &CanvasMessage<B>) -> (ok: bool)
        ensures
            ok == self@.accepts(message@),
    {
        match message {
            CanvasMessage::MovieFrameStarted(_, _, _) => self.recorder.is_some(),
            _ => true,
        }
    }

    /// Acts on a message of the canvas.
    pub fn handle_message<B>(&mut self, message: CanvasMessage<B>) -> (actions: Vec<
        DashboardAction<B>,
    >)
        requires
            old(self)@.accepts(message@),
        ensures
            final(self)@ == old(self)@.after_message(message@),
            dashboard_action_views(actions@) == old(self)@.message_actions(message@),
    {
        let mut actions: Vec<DashboardAction<B>> = Vec::new();
        match message {
            CanvasMessage::FrameStep => {
                self.state.frame_num = count(self.state.frame_num);
            },
            CanvasMessage::MouseMoved(position) => {
                self.state.mouse_pos = position;
            },
            CanvasMessage::RenderPassSubmitted => {},
            CanvasMessage::WindowResized(new_size) => {
                self.state.render_window_size = new_size;
            },
            CanvasMessage::SwapChainFrameError(frame_error) => match frame_error {
                SwapChainError::Timeout => {
                    self.state.frame_timeout_count = count(self.state.frame_timeout_count);
                },
                _ => {},
            },
            CanvasMessage::PaintingStarted(buffer, resolution, start_time) => {
                let mut filename = self.state.painting_filename.clone();
                filename.append(".tiff");
                self.state.painting_start_time = Some(start_time);
                self.state.painting_in_progress = true;
                let open_externally = self.opens_paintings && self.state.open_painting_externally;
                actions.push(
                    DashboardAction::WritePainting { buffer, resolution, filename, open_externally },
                );
            },
            CanvasMessage::ShaderCompilationFailed(err_msg) => {
                self.state.shader_compilation_error_msg = Some(err_msg);
                actions.push(DashboardAction::Send(DashboardMessage::Pause));
            },
            CanvasMessage::ShaderCompilationSucceeded => {
                self.state.shader_compilation_error_msg = None;
                actions.push(DashboardAction::Send(DashboardMessage::Play));
                self.state.paused = false;
            },
            CanvasMessage::PausePlayChanged => {
                self.state.paused = !self.state.paused;
            },
            CanvasMessage::UniformForGUI(uniform) => {
                self.state.gui_uniforms.push(uniform);
                assert(self@.state.gui_uniforms =~= old(self)@.state.gui_uniforms.push(uniform@));
            },
            CanvasMessage::UpdatePaintingResolutioninGUI(resolution) => {
                self.state.painting_resolution = resolution;
            },
            CanvasMessage::MovieFrameStarted(buffer, resolution, _start_time) => {
                match &self.recorder {
                    Some(recorder) => {
                        if recorder.takes_frames() {
                            actions.push(DashboardAction::RecordFrame(buffer, resolution));
                        }
                    },
                    None => {},
                }
            },
        }
        assert(dashboard_action_views(actions@) =~= old(self)@.message_actions(message@));
        actions
    }

    /// Whether the next movie frame is due at `now`.
    pub fn frame_due(&self, now: u64) -> (due: bool)
        ensures
            due == self@.frame_due(now),
    {
        if !self.state.recording_in_progress {
            return false;
        }
        match self.last_movie_frame_time {
            Some(last) => {
                if self.state.movie_framerate < 1 {
                    assert(span(last, now) * self.state.movie_framerate <= 0) by (nonlinear_arith)
                        requires
                            self.state.movie_framerate < 1,
                            span(last, now) >= 0,
                    ;
                    return false;
                }
                let delta: u128 = if now >= last {
                    (now - last) as u128
                } else {
                    0
                };
                let rate: u128 = self.state.movie_framerate as u128;
                assert(delta * rate <= u128::MAX) by (nonlinear_arith)
                    requires
                        delta <= u64::MAX,
                        rate <= i32::MAX,
                ;
                delta * rate >= NANOS_PER_SECOND as u128
            },
            None => true,
        }
    }

    /// The update that precedes every frame of the dashboard, at `now`.
    ///
    /// The messages that came from the canvas since the last update are
    /// acted on, all of them and in the order in which they came. Then the
    /// recorder, if there is one, is looked after: where a movie frame is
    /// due and the encoder has been reported ready, the canvas is asked for
    /// a frame; then the worker's report `report`, if one has come, is
    /// taken, and a recorder that has finished is let go. At the end the
    /// canvas is told the resolution chosen for paintings.
    ///
    /// Every message must be one that the dashboard can take, and while
    /// there is a recorder the frame rate must be at least one frame per
    /// second.
    pub fn update<B>(
        &mut self,
        messages: Vec<CanvasMessage<B>>,
        report: Option<ThreadToRecorderSignal>,
        now: u64,
    ) -> (actions: Vec<DashboardAction<B>>)
        requires
            forall|i: int|
                0 <= i < messages@.len() ==> old(self)@.accepts(#[trigger] messages@[i]@),
            old(self)@.recorder is Some ==> old(self)@.state.movie_framerate >= 1,
        ensures
            final(self)@ == old(self)@.after_messages(message_views(messages@)).after_recorder_tick(
                report,
                now,
            ),
            dashboard_action_views(actions@) == old(self)@.messages_actions(
                message_views(messages@),
            ) + old(self)@.after_messages(message_views(messages@)).recorder_tick_actions::<B>(
                report,
                now,
            ),
    {
        let ghost all = message_views(messages@);
        let total = messages.len();
        let mut actions: Vec<DashboardAction<B>> = Vec::new();
        // Taken off the end of `pending`, the messages come in the order in
        // which they came.
        let mut pending = crate::utils::reversed(messages);
        let mut done: usize = 0;
        assert(all.subrange(0, 0) =~= Seq::empty());
        while pending.len() > 0
            invariant
                done + pending@.len() == total,
                all.len() == total,
                forall|j: int|
                    0 <= j < pending@.len() ==> (#[trigger] pending@[j])@ == all[total - 1 - j],
                forall|j: int| 0 <= j < total ==> old(self)@.accepts(#[trigger] all[j]),
                self@.recorder == old(self)@.recorder,
                self@ == old(self)@.after_messages(all.subrange(0, done as int)),
                dashboard_action_views(actions@) == old(self)@.messages_actions(
                    all.subrange(0, done as int),
                ),
            decreases pending.len(),
        {
            let ghost before = dashboard_action_views(actions@);
            let message = pending.pop().unwrap();
            proof {
                assert(message@ == all[done as int]);
                assert(old(self)@.accepts(all[done as int]));
                assert(all.subrange(0, done + 1).drop_last() =~= all.subrange(0, done as int));
                assert(all.subrange(0, done + 1).last() == all[done as int]);
            }
            let mut more = self.handle_message(message);
            let ghost added = dashboard_action_views(more@);
            actions.append(&mut more);
            assert(dashboard_action_views(actions@) =~= before + added);
            done += 1;
        }
        proof {
            assert(all.subrange(0, done as int) =~= all);
        }
        let ghost handled = self@;
        let ghost before = dashboard_action_views(actions@);
        let due = self.frame_due(now);
        let mut finished = false;
        let mut requested = false;
        match &mut self.recorder {
            Some(recorder) => {
                requested = due && recorder.ready;
                finished = recorder.poll(report);
            },
            None => {},
        }
        if requested {
            actions.push(
                DashboardAction::Send(
                    DashboardMessage::MovieRenderRequested(
                        self.state.recording_resolution.to_unsigned(),
                    ),
                ),
            );
            self.last_movie_frame_time = Some(now);
        }
        if finished {
            self.recorder = None;
            actions.push(DashboardAction::FinishRecorder);
        }
        actions.push(
            DashboardAction::Send(
                DashboardMessage::PaintingResolutionUpdated(
                    self.state.painting_resolution.to_unsigned(),
                ),
            ),
        );
        assert(dashboard_action_views(actions@) =~= before + handled.recorder_tick_actions::<B>(
            report,
            now,
        ));
        actions
    }

    /// Takes note that a frame of the dashboard ended at `now`: the time it
    /// took is the time since the frame began.
    pub fn frame_tick(&mut self, now: u64)
        ensures
            final(self)@ == old(self)@.frame_ticked(now),
    {
        self.state.last_render_time = if now >= self.last_frame {
            now - self.last_frame
        } else {
            0
        };
        self.last_frame = now;
    }

    /// What follows every frame of the dashboard, at `now`: each uniform
    /// goes back to the canvas as it was edited, the list of uniforms is
    /// emptied for the next frame, and the window is asked to draw again.
    pub fn post_render<B>(&mut self, now: u64) -> (actions: Vec<DashboardAction<B>>)
        ensures
            final(self)@ == (DashboardView {
                state: DashboardStateView {
                    gui_uniforms: Seq::empty(),
                    ..old(self)@.frame_ticked(now).state
                },
                ..old(self)@.frame_ticked(now)
            }),
            dashboard_action_views(actions@) == old(self)@.post_render_actions::<B>(),
    {
        let mut actions: Vec<DashboardAction<B>> = Vec::new();
        let mut i: usize = 0;
        while i < self.state.gui_uniforms.len()
            invariant
                i <= self.state.gui_uniforms.len(),
                *self == *old(self),
                actions@.len() == i,
                forall|j: int|
                    0 <= j < i ==> (#[trigger] actions@[j])@ == DashboardActionView::<B>::Send(
                        DashboardMessageView::UniformUpdatedViaGUI(self.state.gui_uniforms@[j]@),
                    ),
            decreases self.state.gui_uniforms.len() - i,
        {
            actions.push(
                DashboardAction::Send(
                    DashboardMessage::UniformUpdatedViaGUI(self.state.gui_uniforms[i].copy()),
                ),
            );
            i += 1;
        }
        actions.push(DashboardAction::RequestRedraw);
        assert(dashboard_action_views(actions@) =~= old(self)@.post_render_actions::<B>());
        self.state.gui_uniforms.clear();
        self.frame_tick(now);
        assert(self@.state.gui_uniforms =~= Seq::empty());
        actions
    }
}

} // verus!
