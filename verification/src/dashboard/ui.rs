//! How the dashboard reacts to its window and to its controls.

use vstd::prelude::*;
use vstd::string::*;
use super::{
    dashboard_action_views, Dashboard, DashboardAction, DashboardActionView, DashboardMessage,
    DashboardMessageView, DashboardStateView, DashboardView,
};
use crate::postprocessing::MOVIE_TEXTURE_FORMAT;
use crate::recording::{Recorder, RecorderView};
use crate::clock::span;
use crate::uniforms::{uniform_views, UserUniform, UserUniformView};
use crate::utils::{i32_bits, WriteFinished};
use crate::vector::{IntVector2, UIntVector2};

verus! {

/// An event of the dashboard window.
#[derive(Debug, Copy, Clone, PartialEq, Eq, Structural)]
pub enum DashboardInput {
    /// The window has this size now.
    Resized(UIntVector2),
    /// The space bar went down.
    SpacePressed,
    /// Anything else.
    Other,
}

/// What the controls hold after they were drawn, and which buttons were
/// pressed.
#[derive(Debug, PartialEq, Eq)]
pub struct UiInput {
    pub pause_button_pressed: bool,
    pub titlebar_button_pressed: bool,
    /// The button is drawn only while no painting is being written.
    pub create_painting_button_pressed: bool,
    /// The button starts a recording when there is none, and stops the one
    /// there is; it is not drawn once the recording has been stopped.
    pub record_button_pressed: bool,
    pub painting_resolution: IntVector2,
    pub recording_resolution: IntVector2,
    pub movie_framerate: i32,
    /// The name for paintings, where it was edited.
    pub painting_filename: Option<String>,
    /// The name for movies, where it was edited.
    pub recording_filename: Option<String>,
    pub open_painting_externally: bool,
    pub pause_while_painting: bool,
    /// The uniforms as their editors left them.
    pub gui_uniforms: Vec<UserUniform>,
}

/// What a `UiInput` holds.
pub struct UiInputView {
    pub pause_button_pressed: bool,
    pub titlebar_button_pressed: bool,
    pub create_painting_button_pressed: bool,
    pub record_button_pressed: bool,
    pub painting_resolution: IntVector2,
    pub recording_resolution: IntVector2,
    pub movie_framerate: i32,
    pub painting_filename: Option<Seq<char>>,
    pub recording_filename: Option<Seq<char>>,
    pub open_painting_externally: bool,
    pub pause_while_painting: bool,
    pub gui_uniforms: Seq<UserUniformView>,
}

impl View for UiInput {
    type V = UiInputView;

    open spec fn view(&self) -> UiInputView {
        UiInputView {
            pause_button_pressed: self.pause_button_pressed,
            titlebar_button_pressed: self.titlebar_button_pressed,
            create_painting_button_pressed: self.create_painting_button_pressed,
            record_button_pressed: self.record_button_pressed,
            painting_resolution: self.painting_resolution,
            recording_resolution: self.recording_resolution,
            movie_framerate: self.movie_framerate,
            painting_filename: match self.painting_filename {
                Some(name) => Some(name@),
                None => None,
            },
            recording_filename: match self.recording_filename {
                Some(name) => Some(name@),
                None => None,
            },
            open_painting_externally: self.open_painting_externally,
            pause_while_painting: self.pause_while_painting,
            gui_uniforms: uniform_views(self.gui_uniforms@),
        }
    }
}

impl DashboardView {
    /// The dashboard after the window event `event`.
    pub open spec fn after_input(self, event: DashboardInput) -> DashboardView {
        match event {
            DashboardInput::Resized(size) => DashboardView { size, ..self },
            DashboardInput::SpacePressed => self.with_state(
                DashboardStateView { paused: !self.state.paused, ..self.state },
            ),
            DashboardInput::Other => self,
        }
    }

    /// What the owner is asked to do upon the window event `event`.
    pub open spec fn input_actions<B>(event: DashboardInput) -> Seq<DashboardActionView<B>> {
        match event {
            DashboardInput::Resized(size) => seq![DashboardActionView::ResizeSwapChain(size)],
            DashboardInput::SpacePressed => seq![
                DashboardActionView::Send(DashboardMessageView::PausePlayChanged),
            ],
            DashboardInput::Other => Seq::empty(),
        }
    }

    /// The dashboard after the writer's report `report`, if one has come:
    /// once the painting is written, none is in progress.
    pub open spec fn after_painting_poll(self, report: Option<WriteFinished>) -> DashboardView {
        if self.state.painting_in_progress && report is Some {
            self.with_state(
                DashboardStateView {
                    painting_in_progress: false,
                    painting_start_time: None,
                    ..self.state
                },
            )
        } else {
            self
        }
    }

    /// What the owner is asked to do upon the writer's report at `now`: to
    /// note how long the painting took, where its start is known, and to
    /// resume playback, where it was paused for the painting.
    pub open spec fn painting_poll_actions<B>(self, report: Option<WriteFinished>, now: u64) -> Seq<
        DashboardActionView<B>,
    > {
        if self.state.painting_in_progress && report is Some {
            let log = match self.state.painting_start_time {
                Some(started) => seq![
                    DashboardActionView::<B>::LogPaintingTime(span(started, now) as u64),
                ],
                None => Seq::empty(),
            };
            let play = if self.state.pause_while_painting {
                seq![DashboardActionView::<B>::Send(DashboardMessageView::Play)]
            } else {
                Seq::empty()
            };
            log + play
        } else {
            Seq::empty()
        }
    }

    /// The recorder that the record button starts: for frames of the chosen
    /// size and rate, written to the chosen name with the ending `.mp4`.
    pub open spec fn new_recorder(self) -> RecorderView {
        RecorderView {
            width: i32_bits(self.state.recording_resolution.x),
            height: i32_bits(self.state.recording_resolution.y),
            framerate: i32_bits(self.state.movie_framerate),
            filename: self.state.recording_filename + ".mp4"@,
            done: false,
            ready: false,
            stop_signal_received: false,
        }
    }

    /// Whether the dashboard can take what the controls hold: the record
    /// button cannot stop a recording that has been stopped.
    pub open spec fn accepts_ui(self, ui: UiInputView) -> bool {
        ui.record_button_pressed ==> match self.recorder {
            Some(recorder) => recorder.can_stop(),
            None => true,
        }
    }

    /// The dashboard with what the controls hold taken over, and with the
    /// pause button and the title bar button acted on.
    pub open spec fn with_controls(self, ui: UiInputView) -> DashboardView {
        self.with_state(
            DashboardStateView {
                paused: if ui.pause_button_pressed {
                    !self.state.paused
                } else {
                    self.state.paused
                },
                show_titlebar: if ui.titlebar_button_pressed {
                    !self.state.show_titlebar
                } else {
                    self.state.show_titlebar
                },
                painting_resolution: ui.painting_resolution,
                recording_resolution: ui.recording_resolution,
                movie_framerate: ui.movie_framerate,
                painting_filename: match ui.painting_filename {
                    Some(name) => name,
                    None => self.state.painting_filename,
                },
                recording_filename: match ui.recording_filename {
                    Some(name) => name,
                    None => self.state.recording_filename,
                },
                open_painting_externally: ui.open_painting_externally,
                pause_while_painting: ui.pause_while_painting,
                gui_uniforms: ui.gui_uniforms,
                ..self.state
            },
        )
    }

    /// The dashboard after the record button, where it was pressed: without
    /// a recorder one is made and frames are asked for from now on; with a
    /// recorder that one is told to stop and no further frame is asked for.
    pub open spec fn after_record_button(self, pressed: bool) -> DashboardView {
        if !pressed {
            self
        } else {
            match self.recorder {
                Some(recorder) => DashboardView {
                    recorder: Some(recorder.stopped()),
                    state: DashboardStateView { recording_in_progress: false, ..self.state },
                    ..self
                },
                None => DashboardView {
                    recorder: Some(self.new_recorder()),
                    last_movie_frame_time: None,
                    state: DashboardStateView { recording_in_progress: true, ..self.state },
                    ..self
                },
            }
        }
    }

    /// The dashboard after the controls were drawn.
    pub open spec fn after_ui(self, ui: UiInputView) -> DashboardView {
        self.with_controls(ui).after_record_button(ui.record_button_pressed)
    }

    /// What the pause button asks for.
    pub open spec fn pause_actions<B>(pressed: bool) -> Seq<DashboardActionView<B>> {
        if pressed {
            seq![DashboardActionView::<B>::Send(DashboardMessageView::PausePlayChanged)]
        } else {
            Seq::empty()
        }
    }

    /// What the title bar button asks for.
    pub open spec fn titlebar_actions<B>(pressed: bool) -> Seq<DashboardActionView<B>> {
        if pressed {
            seq![DashboardActionView::<B>::Send(DashboardMessageView::TitlebarStatusChanged)]
        } else {
            Seq::empty()
        }
    }

    /// What the button that creates a painting asks for: a painting of the
    /// chosen resolution, with playback paused before, where that is chosen.
    pub open spec fn painting_actions<B>(
        pressed: bool,
        pause_while_painting: bool,
        resolution: IntVector2,
    ) -> Seq<DashboardActionView<B>> {
        if pressed {
            let request = seq![
                DashboardActionView::<B>::Send(
                    DashboardMessageView::PaintingRenderRequested(resolution.spec_to_unsigned()),
                ),
            ];
            if pause_while_painting {
                seq![DashboardActionView::<B>::Send(DashboardMessageView::Pause)] + request
            } else {
                request
            }
        } else {
            Seq::empty()
        }
    }

    /// What the record button asks for: to start the recorder's worker when
    /// there was no recorder, to stop it when there was one.
    pub open spec fn record_actions<B>(self, pressed: bool) -> Seq<DashboardActionView<B>> {
        if pressed {
            if self.recorder is None {
                seq![DashboardActionView::<B>::StartRecorder]
            } else {
                seq![DashboardActionView::<B>::StopRecorder]
            }
        } else {
            Seq::empty()
        }
    }

    /// What the owner is asked to do after the controls were drawn, button
    /// by button: pause or play, show or hide the title bar, render a
    /// painting, start or stop the recorder.
    pub open spec fn ui_actions<B>(self, ui: UiInputView) -> Seq<DashboardActionView<B>> {
        Self::pause_actions::<B>(ui.pause_button_pressed) + Self::titlebar_actions::<B>(
            ui.titlebar_button_pressed,
        ) + Self::painting_actions::<B>(
            ui.create_painting_button_pressed,
            ui.pause_while_painting,
            ui.painting_resolution,
        ) + self.record_actions::<B>(ui.record_button_pressed)
    }
}

impl Dashboard {
    /// Handles an event of the dashboard window. The space bar pauses and
    /// resumes playback.
    pub fn input<B>(&mut self, event: DashboardInput) -> (actions: Vec<DashboardAction<B>>)
        ensures
            final(self)@ == old(self)@.after_input(event),
            dashboard_action_views(actions@) == DashboardView::input_actions::<B>(event),
    {
        let mut actions: Vec<DashboardAction<B>> = Vec::new();
        match event {
            DashboardInput::Resized(size) => {
                self.size = size;
                actions.push(DashboardAction::ResizeSwapChain(size));
            },
            DashboardInput::SpacePressed => {
                self.state.paused = !self.state.paused;
                actions.push(DashboardAction::Send(DashboardMessage::PausePlayChanged));
            },
            DashboardInput::Other => {},
        }
        assert(dashboard_action_views(actions@) =~= DashboardView::input_actions::<B>(event));
        actions
    }

    /// Takes note that a frame of the dashboard began at `now`.
    pub fn frame_begins(&mut self, now: u64)
        ensures
            final(self)@ == (DashboardView { last_frame: now, ..old(self)@ }),
    {
        self.last_frame = now;
    }

    /// Takes the report `report` of the writer of a painting, if one has
    /// come by `now`. Says whether a painting is still being written.
    pub fn poll_painting<B>(&mut self, report: Option<WriteFinished>, now: u64) -> (polled: (
        bool,
        Vec<DashboardAction<B>>,
    ))
        ensures
            final(self)@ == old(self)@.after_painting_poll(report),
            polled.0 == final(self)@.state.painting_in_progress,
            dashboard_action_views(polled.1@) == old(self)@.painting_poll_actions::<B>(report, now),
    {
        let mut actions: Vec<DashboardAction<B>> = Vec::new();
        if self.state.painting_in_progress && report.is_some() {
            self.state.painting_in_progress = false;
            match self.state.painting_start_time {
                Some(started) => {
                    let elapsed: u64 = if now >= started {
                        now - started
                    } else {
                        0
                    };
                    actions.push(DashboardAction::LogPaintingTime(elapsed));
                    self.state.painting_start_time = None;
                },
                None => {},
            }
            if self.state.pause_while_painting {
                actions.push(DashboardAction::Send(DashboardMessage::Play));
            }
        }
        assert(dashboard_action_views(actions@) =~= old(self)@.painting_poll_actions::<B>(
            report,
            now,
        ));
        (self.state.painting_in_progress, actions)
    }

    /// Whether the dashboard can take what the controls hold.
    pub fn accepts_ui(&self, ui: &UiInput) -> (ok: bool)
        ensures
            ok == self@.accepts_ui(ui@),
    {
        if !ui.record_button_pressed {
            return true;
        }
        match &self.recorder {
            Some(recorder) => recorder.takes_frames(),
            None => true,
        }
    }

    fn take_controls(&mut self, ui: UiInput)
        ensures
            final(self)@ == old(self)@.with_controls(ui@),
    {
        let UiInput {
            pause_button_pressed,
            titlebar_button_pressed,
            create_painting_button_pressed: _,
            record_button_pressed: _,
            painting_resolution,
            recording_resolution,
            movie_framerate,
            painting_filename,
            recording_filename,
            open_painting_externally,
            pause_while_painting,
            gui_uniforms,
        } = ui;
        self.state.painting_resolution = painting_resolution;
        self.state.recording_resolution = recording_resolution;
        self.state.movie_framerate = movie_framerate;
        self.state.open_painting_externally = open_painting_externally;
        self.state.pause_while_painting = pause_while_painting;
        self.state.gui_uniforms = gui_uniforms;
        if pause_button_pressed {
            self.state.paused = !self.state.paused;
        }
        if titlebar_button_pressed {
            self.state.show_titlebar = !self.state.show_titlebar;
        }
        match painting_filename {
            Some(name) => {
                self.state.painting_filename = name;
            },
            None => {},
        }
        match recording_filename {
            Some(name) => {
                self.state.recording_filename = name;
            },
            None => {},
        }
    }

    fn press_record<B>(&mut self, pressed: bool, actions: &mut Vec<DashboardAction<B>>)
        requires
            pressed ==> match old(self)@.recorder {
                Some(recorder) => recorder.can_stop(),
                None => true,
            },
        ensures
            final(self)@ == old(self)@.after_record_button(pressed),
            dashboard_action_views(final(actions)@) == dashboard_action_views(old(actions)@)
                + old(self)@.record_actions::<B>(pressed),
    {
        if pressed {
            if self.recorder.is_none() {
                let mut filename = self.state.recording_filename.clone();
                filename.append(".mp4");
                let resolution = self.state.recording_resolution.to_unsigned();
                self.recorder = Some(
                    Recorder::new(
                        resolution.x,
                        resolution.y,
                        MOVIE_TEXTURE_FORMAT,
                        crate::utils::bits_of_signed(self.state.movie_framerate),
                        filename,
                    ),
                );
                self.state.recording_in_progress = true;
                self.last_movie_frame_time = None;
                actions.push(DashboardAction::StartRecorder);
            } else {
                let mut recorder = self.recorder.take().unwrap();
                let _signal = recorder.stop::<B>();
                self.recorder = Some(recorder);
                self.state.recording_in_progress = false;
                actions.push(DashboardAction::StopRecorder);
            }
        }
        assert(dashboard_action_views(actions@) =~= dashboard_action_views(old(actions)@) + old(
            self,
        )@.record_actions::<B>(pressed));
    }

    fn press_pause<B>(pressed: bool, actions: &mut Vec<DashboardAction<B>>)
        ensures
            dashboard_action_views(final(actions)@) == dashboard_action_views(old(actions)@)
                + DashboardView::pause_actions::<B>(pressed),
    {
        if pressed {
            actions.push(DashboardAction::Send(DashboardMessage::PausePlayChanged));
        }
        assert(dashboard_action_views(actions@) =~= dashboard_action_views(old(actions)@)
            + DashboardView::pause_actions::<B>(pressed));
    }

    fn press_titlebar<B>(pressed: bool, actions: &mut Vec<DashboardAction<B>>)
        ensures
            dashboard_action_views(final(actions)@) == dashboard_action_views(old(actions)@)
                + DashboardView::titlebar_actions::<B>(pressed),
    {
        if pressed {
            actions.push(DashboardAction::Send(DashboardMessage::TitlebarStatusChanged));
        }
        assert(dashboard_action_views(actions@) =~= dashboard_action_views(old(actions)@)
            + DashboardView::titlebar_actions::<B>(pressed));
    }

    fn press_create_painting<B>(
        pressed: bool,
        pause_while_painting: bool,
        resolution: IntVector2,
        actions: &mut Vec<DashboardAction<B>>,
    )
        ensures
            dashboard_action_views(final(actions)@) == dashboard_action_views(old(actions)@)
                + DashboardView::painting_actions::<B>(pressed, pause_while_painting, resolution),
    {
        if pressed {
            if pause_while_painting {
                actions.push(DashboardAction::Send(DashboardMessage::Pause));
            }
            actions.push(
                DashboardAction::Send(
                    DashboardMessage::PaintingRenderRequested(resolution.to_unsigned()),
                ),
            );
        }
        assert(dashboard_action_views(actions@) =~= dashboard_action_views(old(actions)@)
            + DashboardView::painting_actions::<B>(pressed, pause_while_painting, resolution));
    }

    /// Takes over what the controls hold after they were drawn, and reacts
    /// to the buttons that were pressed.
    ///
    /// The record button starts a recording when there is none: frames of
    /// the chosen size and rate, written to the chosen name with the ending
    /// `.mp4`. When there is a recording, the button stops it: no further
    /// frame is asked for, and the frames already on their way are still
    /// written. A recording can be stopped once.
    pub fn render_dashboard<B>(&mut self, ui: UiInput) -> (actions: Vec<DashboardAction<B>>)
        requires
            old(self)@.accepts_ui(ui@),
        ensures
            final(self)@ == old(self)@.after_ui(ui@),
            dashboard_action_views(actions@) == old(self)@.ui_actions::<B>(ui@),
    {
        let mut actions: Vec<DashboardAction<B>> = Vec::new();
        assert(dashboard_action_views(actions@) =~= Seq::<DashboardActionView<B>>::empty());
        let pause = ui.pause_button_pressed;
        let titlebar = ui.titlebar_button_pressed;
        let create = ui.create_painting_button_pressed;
        let record = ui.record_button_pressed;
        let pause_while_painting = ui.pause_while_painting;
        let resolution = ui.painting_resolution;
        self.take_controls(ui);
        Self::press_pause(pause, &mut actions);
        Self::press_titlebar(titlebar, &mut actions);
        Self::press_create_painting(create, pause_while_painting, resolution, &mut actions);
        self.press_record(record, &mut actions);
        assert(dashboard_action_views(actions@) =~= old(self)@.ui_actions::<B>(ui@));
        actions
    }
}

} // verus!
