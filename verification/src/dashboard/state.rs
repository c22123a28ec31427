//! What the dashboard shows and lets its user change.

use vstd::prelude::*;
use vstd::string::*;
use crate::uniforms::{uniform_views, UserUniform, UserUniformView};
use crate::vector::{BitsVector2, IntVector2};

verus! {

/// What the dashboard shows and lets its user change.
#[derive(Debug, PartialEq, Eq)]
pub struct DashboardState {
    /// Time that the last frame of the dashboard took, in nanoseconds.
    pub last_render_time: u64,
    /// Number of frames that the canvas has rendered.
    pub frame_num: usize,
    /// Number of frames that the canvas left out because no image came in
    /// time.
    pub frame_timeout_count: usize,
    /// Where the mouse is in the canvas window.
    pub mouse_pos: BitsVector2,
    /// Size of the canvas window.
    pub render_window_size: IntVector2,
    pub paused: bool,
    pub show_titlebar: bool,
    pub painting_resolution: IntVector2,
    pub recording_resolution: IntVector2,
    /// Name of the file that a painting is written to, without its ending.
    pub painting_filename: String,
    /// Name of the file that a movie is written to, without its ending.
    pub recording_filename: String,
    /// Whether frames are asked for.
    pub recording_in_progress: bool,
    /// Frames per second of a movie.
    pub movie_framerate: i32,
    /// Whether a painting is opened in another program once written. Only
    /// some platforms can.
    pub open_painting_externally: bool,
    pub pause_while_painting: bool,
    /// Whether a painting is being written.
    pub painting_in_progress: bool,
    /// The compiler's words, while the shader does not compile.
    pub shader_compilation_error_msg: Option<String>,
    /// When the painting that is being written was started.
    pub painting_start_time: Option<u64>,
    /// The uniforms that editors are offered for in this frame.
    pub gui_uniforms: Vec<UserUniform>,
}

/// What a `DashboardState` holds.
pub struct DashboardStateView {
    pub last_render_time: u64,
    pub frame_num: usize,
    pub frame_timeout_count: usize,
    pub mouse_pos: BitsVector2,
    pub render_window_size: IntVector2,
    pub paused: bool,
    pub show_titlebar: bool,
    pub painting_resolution: IntVector2,
    pub recording_resolution: IntVector2,
    pub painting_filename: Seq<char>,
    pub recording_filename: Seq<char>,
    pub recording_in_progress: bool,
    pub movie_framerate: i32,
    pub open_painting_externally: bool,
    pub pause_while_painting: bool,
    pub painting_in_progress: bool,
    pub shader_compilation_error_msg: Option<Seq<char>>,
    pub painting_start_time: Option<u64>,
    pub gui_uniforms: Seq<UserUniformView>,
}

impl View for DashboardState {
    type V = DashboardStateView;

    open spec fn view(&self) -> DashboardStateView {
        DashboardStateView {
            last_render_time: self.last_render_time,
            frame_num: self.frame_num,
            frame_timeout_count: self.frame_timeout_count,
            mouse_pos: self.mouse_pos,
            render_window_size: self.render_window_size,
            paused: self.paused,
            show_titlebar: self.show_titlebar,
            painting_resolution: self.painting_resolution,
            recording_resolution: self.recording_resolution,
            painting_filename: self.painting_filename@,
            recording_filename: self.recording_filename@,
            recording_in_progress: self.recording_in_progress,
            movie_framerate: self.movie_framerate,
            open_painting_externally: self.open_painting_externally,
            pause_while_painting: self.pause_while_painting,
            painting_in_progress: self.painting_in_progress,
            shader_compilation_error_msg: match self.shader_compilation_error_msg {
                Some(text) => Some(text@),
                None => None,
            },
            painting_start_time: self.painting_start_time,
            gui_uniforms: uniform_views(self.gui_uniforms@),
        }
    }
}

/// The state of a dashboard that has just been opened.
pub open spec fn new_dashboard_state() -> DashboardStateView {
    DashboardStateView {
        last_render_time: 0,
        frame_num: 0,
        frame_timeout_count: 0,
        mouse_pos: BitsVector2 { x: 0, y: 0 },
        render_window_size: IntVector2 { x: 0, y: 0 },
        paused: false,
        show_titlebar: true,
        painting_resolution: IntVector2 { x: 0, y: 0 },
        recording_resolution: IntVector2 { x: 1024, y: 1024 },
        painting_filename: "Painting"@,
        recording_filename: "Muybridge"@,
        recording_in_progress: false,
        movie_framerate: 60,
        open_painting_externally: true,
        pause_while_painting: true,
        painting_in_progress: false,
        shader_compilation_error_msg: None,
        painting_start_time: None,
        gui_uniforms: Seq::empty(),
    }
}

impl DashboardState {
    /// The state of a dashboard that has just been opened.
    pub fn new() -> (state: DashboardState)
        ensures
            state@ == new_dashboard_state(),
    {
        let state = DashboardState {
            last_render_time: 0,
            frame_num: 0,
            frame_timeout_count: 0,
            mouse_pos: BitsVector2::zero(),
            render_window_size: IntVector2::zero(),
            paused: false,
            show_titlebar: true,
            painting_resolution: IntVector2::zero(),
            recording_resolution: IntVector2::new(1024, 1024),
            painting_filename: String::from_str("Painting"),
            recording_filename: String::from_str("Muybridge"),
            recording_in_progress: false,
            movie_framerate: 60,
            open_painting_externally: true,
            pause_while_painting: true,
            painting_in_progress: false,
            shader_compilation_error_msg: None,
            painting_start_time: None,
            gui_uniforms: Vec::new(),
        };
        assert(state@.gui_uniforms =~= Seq::empty());
        state
    }
}

} // verus!
