use easel::binding::{BindingError, BindingKind, BindingSlot};
use easel::canvas::file_loading::{
    watch_interval, ConfigFileEvent, ShaderFileEvent, MIN_WATCH_INTERVAL_MS,
};
use easel::canvas::rendering::{MouseScale, Ratio};
use easel::canvas::{
    Canvas, CanvasAction, CanvasInput, CanvasMessage, Key, MouseButton, SwapChainError,
};
use easel::config::{ConfigDocument, ConfigEntry, ConfigValue};
use easel::dashboard::DashboardMessage;
use easel::postprocessing::{
    BufferBinding, BufferSlot, DrawCall, PipelineType, PostProcess, StageRef, TextureSlot,
};
use easel::push_constants::TypedPushConstant;
use easel::texture::{ImageLayout, TextureFormat};
use easel::uniforms::{Uniforms, UserUniform};
use easel::utils::UniformValue;
use easel::vector::{BitsVector2, BitsVector4, IntVector2, IntVector4, UIntVector2};

type Action = CanvasAction<u8>;
type Message = CanvasMessage<u8>;

const TODAY: IntVector4 = IntVector4 { x: 2021, y: 5, z: 17, w: 0 };

fn bare() -> Canvas {
    let (canvas, _): (Canvas, Message) =
        Canvas::new(UIntVector2::new(800, 600), vec![1, 2, 3], 0, None, None, 16).unwrap();
    canvas
}

fn speed(value: f32) -> UserUniform {
    UserUniform::new("speed".to_string(), UniformValue::Float32(value.to_bits()))
}

fn count(value: u32) -> UserUniform {
    UserUniform::new("count".to_string(), UniformValue::UInt32(value))
}

fn furnished() -> Canvas {
    let (canvas, _): (Canvas, Message) = Canvas::new(
        UIntVector2::new(800, 600),
        vec![1, 2, 3],
        2,
        Some(vec![speed(2.5), count(3)]),
        Some(vec![
            TypedPushConstant::new(UniformValue::UInt32(4), "samples".to_string()),
            TypedPushConstant::new(UniformValue::Float64(1.0f64.to_bits()), "scale".to_string()),
        ]),
        16,
    )
    .unwrap();
    canvas
}

fn copy_of(canvas: &Canvas) -> Canvas {
    Canvas {
        size: canvas.size,
        uniforms: canvas.uniforms,
        user_uniforms_buffer_size: canvas.user_uniforms_buffer_size,
        user_uniforms: canvas.user_uniforms.iter().map(|u| u.copy()).collect(),
        push_constants: canvas.push_constants.as_ref().map(|list| {
            list.iter().map(|c| TypedPushConstant::new(c.value, c.name.clone())).collect()
        }),
        fragment_shader: canvas.fragment_shader.clone(),
        postprocess_ops: canvas
            .postprocess_ops
            .iter()
            .map(|p| PostProcess::new(p.shader_module.clone(), p.custom_uniforms_provided))
            .collect(),
        stop_watch: canvas.stop_watch,
        paused: canvas.paused,
        show_titlebar: canvas.show_titlebar,
        shader_file_watcher: canvas.shader_file_watcher,
        json_file_watcher: canvas.json_file_watcher,
        painting_resolution: canvas.painting_resolution,
    }
}

fn wait(milliseconds: u64) {
    let from = std::time::Instant::now();
    while from.elapsed() < std::time::Duration::from_millis(milliseconds) {}
}

fn same(a: &Canvas, b: &Canvas) -> bool {
    a.size == b.size
        && a.uniforms == b.uniforms
        && a.user_uniforms_buffer_size == b.user_uniforms_buffer_size
        && a.user_uniforms == b.user_uniforms
        && a.push_constants == b.push_constants
        && a.fragment_shader == b.fragment_shader
        && a.postprocess_ops == b.postprocess_ops
        && a.paused == b.paused
        && a.show_titlebar == b.show_titlebar
        && a.shader_file_watcher == b.shader_file_watcher
        && a.json_file_watcher == b.json_file_watcher
        && a.painting_resolution == b.painting_resolution
}

#[test]
fn a_new_canvas_plays_and_tells_its_size() {
    let made: Result<(Canvas, Message), BindingError> = Canvas::new(
        UIntVector2::new(1920, 1280),
        vec![9, 8],
        3,
        Some(vec![speed(2.5), count(3)]),
        None,
        16,
    );
    let (canvas, message) = made.unwrap();
    assert_eq!(message, CanvasMessage::UpdatePaintingResolutioninGUI(IntVector2::new(1920, 1280)));
    assert_eq!(canvas.size, UIntVector2::new(1920, 1280));
    assert_eq!(
        canvas.uniforms,
        Uniforms { resolution: UIntVector2::new(1920, 1280), num_textures: 3, ..Uniforms::new() }
    );
    assert_eq!(canvas.user_uniforms_buffer_size, Some(8));
    assert_eq!(canvas.user_uniforms.len(), 2);
    assert_eq!(canvas.push_constants, None);
    assert_eq!(canvas.fragment_shader, vec![9, 8]);
    assert!(canvas.postprocess_ops.is_empty());
    assert!(!canvas.paused);
    assert!(canvas.show_titlebar);
    assert!(!canvas.shader_file_watcher);
    assert!(!canvas.json_file_watcher);
    assert_eq!(canvas.painting_resolution, UIntVector2::zero());
    assert_eq!(bare().user_uniforms_buffer_size, None);
    assert!(bare().user_uniforms.is_empty());
}

#[test]
fn uniforms_without_bytes_have_no_buffer() {
    let (canvas, _): (Canvas, Message) =
        Canvas::new(UIntVector2::new(8, 8), Vec::new(), 0, Some(Vec::new()), None, 16).unwrap();
    assert_eq!(canvas.user_uniforms_buffer_size, None);
    assert!(canvas.user_uniforms.is_empty());
    let layout = canvas.pipeline_layout().unwrap();
    assert_eq!(layout.primary, vec![BindingSlot { binding: 0, kind: BindingKind::UniformBuffer }]);
    let uploads: Vec<Action> = canvas.uploads();
    assert_eq!(uploads, vec![CanvasAction::CopyFrameUniforms(canvas.uniforms)]);
    let made: Result<(Canvas, Message), BindingError> =
        Canvas::new(UIntVector2::new(8, 8), Vec::new(), 3, Some(Vec::new()), None, 2);
    assert!(matches!(made, Err(BindingError::TooManyTextures { given: 3, limit: 2 })));
    let hollow = UserUniform {
        bytes: Vec::new(),
        name: "hollow".to_string(),
        inherent_type: easel::uniforms::UserUniformType::Bool,
    };
    let (canvas, _): (Canvas, Message) =
        Canvas::new(UIntVector2::new(8, 8), Vec::new(), 0, Some(vec![hollow]), None, 16).unwrap();
    assert_eq!(canvas.user_uniforms_buffer_size, None);
    assert_eq!(canvas.user_uniforms.len(), 1);
}

#[test]
fn too_many_images_are_refused() {
    let made: Result<(Canvas, Message), BindingError> =
        Canvas::new(UIntVector2::new(8, 8), Vec::new(), 17, None, None, 16);
    assert!(matches!(made, Err(BindingError::TooManyTextures { given: 17, limit: 16 })));
    let made: Result<(Canvas, Message), BindingError> =
        Canvas::new(UIntVector2::new(8, 8), Vec::new(), 16, None, None, 16);
    assert!(made.is_ok());
}

#[test]
fn the_layout_follows_uniforms_textures_and_push_constants() {
    let layout = furnished().pipeline_layout().unwrap();
    assert_eq!(
        layout.primary,
        vec![
            BindingSlot { binding: 0, kind: BindingKind::UniformBuffer },
            BindingSlot { binding: 1, kind: BindingKind::UniformBuffer },
        ]
    );
    assert_eq!(
        layout.secondary,
        vec![
            BindingSlot { binding: 0, kind: BindingKind::Sampler },
            BindingSlot { binding: 1, kind: BindingKind::Texture },
            BindingSlot { binding: 2, kind: BindingKind::Texture },
        ]
    );
    assert_eq!(layout.push_constant_range, Some(12));
    let layout = bare().pipeline_layout().unwrap();
    assert_eq!(layout.primary, vec![BindingSlot { binding: 0, kind: BindingKind::UniformBuffer }]);
    assert_eq!(layout.secondary, vec![BindingSlot { binding: 0, kind: BindingKind::Sampler }]);
    assert_eq!(layout.push_constant_range, None);
}

#[test]
fn the_space_bar_pauses_and_resumes() {
    let mut canvas = bare();
    let (handled, actions): (bool, Vec<Action>) =
        canvas.input(CanvasInput::KeyPressed(Key::Space));
    assert!(handled);
    assert_eq!(actions, vec![CanvasAction::Send(CanvasMessage::PausePlayChanged)]);
    assert!(canvas.paused);
    let (handled, actions): (bool, Vec<Action>) =
        canvas.input(CanvasInput::KeyPressed(Key::Space));
    assert!(handled);
    assert_eq!(actions, vec![CanvasAction::Send(CanvasMessage::PausePlayChanged)]);
    assert!(!canvas.paused);
}

#[test]
fn keys_and_other_events() {
    let mut canvas = bare();
    canvas.painting_resolution = UIntVector2::new(4000, 3000);
    let before = copy_of(&canvas);
    let (handled, actions): (bool, Vec<Action>) =
        canvas.input(CanvasInput::KeyPressed(Key::P));
    assert!(handled);
    assert_eq!(actions, vec![CanvasAction::CreatePainting(UIntVector2::new(4000, 3000))]);
    let (handled, actions): (bool, Vec<Action>) =
        canvas.input(CanvasInput::KeyPressed(Key::Escape));
    assert!(!handled);
    assert!(actions.is_empty());
    let (handled, actions): (bool, Vec<Action>) =
        canvas.input(CanvasInput::KeyPressed(Key::Other));
    assert!(handled);
    assert!(actions.is_empty());
    let (handled, actions): (bool, Vec<Action>) = canvas.input(CanvasInput::KeyboardOther);
    assert!(handled);
    assert!(actions.is_empty());
    let (handled, actions): (bool, Vec<Action>) = canvas.input(CanvasInput::Other);
    assert!(!handled);
    assert!(actions.is_empty());
    assert!(same(&canvas, &before));
}

#[test]
fn the_mouse_is_noted_in_the_uniforms() {
    let mut canvas = bare();
    let first = BitsVector2::new(10.0f32.to_bits(), 20.0f32.to_bits());
    let second = BitsVector2::new(30.5f32.to_bits(), 40.5f32.to_bits());
    let (_, actions): (bool, Vec<Action>) = canvas.input(CanvasInput::CursorMoved(first));
    assert_eq!(actions, vec![CanvasAction::Send(CanvasMessage::MouseMoved(first))]);
    assert_eq!(canvas.uniforms.mouse_position, BitsVector4::new(first.x, first.y, 0, 0));
    let (handled, actions): (bool, Vec<Action>) =
        canvas.input(CanvasInput::CursorMoved(second));
    assert!(handled);
    assert_eq!(actions, vec![CanvasAction::Send(CanvasMessage::MouseMoved(second))]);
    assert_eq!(
        canvas.uniforms.mouse_position,
        BitsVector4::new(second.x, second.y, first.x, first.y)
    );
    let presses = [
        (MouseButton::Left, IntVector4::new(1, 0, 0, 0)),
        (MouseButton::Right, IntVector4::new(1, 1, 0, 0)),
        (MouseButton::Middle, IntVector4::new(1, 1, 1, 0)),
        (MouseButton::Other, IntVector4::new(1, 1, 1, 1)),
    ];
    for (button, expected) in presses {
        let (handled, actions): (bool, Vec<Action>) =
            canvas.input(CanvasInput::MouseInput { button, pressed: true });
        assert!(handled);
        assert!(actions.is_empty());
        assert_eq!(canvas.uniforms.mouse_button, expected);
    }
    let (_, _): (bool, Vec<Action>) =
        canvas.input(CanvasInput::MouseInput { button: MouseButton::Right, pressed: false });
    assert_eq!(canvas.uniforms.mouse_button, IntVector4::new(1, 0, 1, 1));
}

#[test]
fn a_new_size_is_taken_over() {
    let mut canvas = bare();
    let size = UIntVector2::new(1024, 768);
    let expected: Vec<Action> = vec![
        CanvasAction::ResizeSwapChain(size),
        CanvasAction::Send(CanvasMessage::WindowResized(IntVector2::new(1024, 768))),
    ];
    let actions: Vec<Action> = canvas.resize(size);
    assert_eq!(actions, expected);
    assert_eq!(canvas.size, size);
    assert_eq!(canvas.uniforms.resolution, size);
    let mut canvas = bare();
    let (handled, actions): (bool, Vec<Action>) = canvas.input(CanvasInput::Resized(size));
    assert!(handled);
    assert_eq!(actions, expected);
    assert_eq!(canvas.size, size);
    let mut canvas = bare();
    let (handled, actions): (bool, Vec<Action>) =
        canvas.input(CanvasInput::ScaleFactorChanged(size));
    assert!(handled);
    assert_eq!(actions, expected);
    assert_eq!(canvas.uniforms.resolution, size);
}

#[test]
fn the_dashboard_is_obeyed() {
    let mut canvas = furnished();
    let none: Vec<Action> = Vec::new();
    let actions: Vec<Action> = canvas.dashboard_signal_received(DashboardMessage::Pause);
    assert_eq!(actions, none);
    assert!(canvas.paused);
    let actions: Vec<Action> = canvas.dashboard_signal_received(DashboardMessage::Pause);
    assert_eq!(actions, none);
    let actions: Vec<Action> = canvas.dashboard_signal_received(DashboardMessage::Play);
    assert_eq!(actions, none);
    assert!(!canvas.paused);
    let actions: Vec<Action> =
        canvas.dashboard_signal_received(DashboardMessage::PausePlayChanged);
    assert_eq!(actions, none);
    assert!(canvas.paused);
    let actions: Vec<Action> =
        canvas.dashboard_signal_received(DashboardMessage::TitlebarStatusChanged);
    assert_eq!(actions, vec![CanvasAction::SetDecorations(false)]);
    assert!(!canvas.show_titlebar);
    let actions: Vec<Action> =
        canvas.dashboard_signal_received(DashboardMessage::TitlebarStatusChanged);
    assert_eq!(actions, vec![CanvasAction::SetDecorations(true)]);
    let resolution = UIntVector2::new(3000, 2000);
    let actions: Vec<Action> = canvas
        .dashboard_signal_received(DashboardMessage::PaintingRenderRequested(resolution));
    assert_eq!(actions, vec![CanvasAction::CreatePainting(resolution)]);
    let actions: Vec<Action> =
        canvas.dashboard_signal_received(DashboardMessage::MovieRenderRequested(resolution));
    assert_eq!(actions, vec![CanvasAction::CreateMovieFrame(resolution)]);
    assert_eq!(canvas.painting_resolution, UIntVector2::zero());
    let actions: Vec<Action> = canvas
        .dashboard_signal_received(DashboardMessage::PaintingResolutionUpdated(resolution));
    assert_eq!(actions, none);
    assert_eq!(canvas.painting_resolution, resolution);
}

#[test]
fn an_edited_uniform_replaces_the_one_of_its_name() {
    let mut canvas = furnished();
    let _: Vec<Action> =
        canvas.dashboard_signal_received(DashboardMessage::UniformUpdatedViaGUI(count(9)));
    assert_eq!(canvas.user_uniforms, vec![speed(2.5), count(9)]);
    let _: Vec<Action> =
        canvas.dashboard_signal_received(DashboardMessage::UniformUpdatedViaGUI(speed(0.5)));
    assert_eq!(canvas.user_uniforms, vec![speed(0.5), count(9)]);
    let stranger = UserUniform::new("other".to_string(), UniformValue::UInt32(1));
    let _: Vec<Action> =
        canvas.dashboard_signal_received(DashboardMessage::UniformUpdatedViaGUI(stranger));
    assert_eq!(canvas.user_uniforms, vec![speed(0.5), count(9)]);
    canvas.user_uniforms.push(count(1));
    canvas.user_uniforms_buffer_size = Some(12);
    let actions: Vec<Action> = canvas.replace_uniform(count(7));
    assert!(actions.is_empty());
    assert_eq!(canvas.user_uniforms, vec![speed(0.5), count(7), count(1)]);
}

#[test]
fn an_update_acts_on_all_messages_then_uploads() {
    let mut canvas = furnished();
    let resolution = UIntVector2::new(64, 32);
    let actions: Vec<Action> = canvas.update_at(
        vec![
            DashboardMessage::TitlebarStatusChanged,
            DashboardMessage::UniformUpdatedViaGUI(count(8)),
            DashboardMessage::PaintingRenderRequested(resolution),
            DashboardMessage::TitlebarStatusChanged,
            DashboardMessage::MovieRenderRequested(resolution),
        ],
        Vec::new(),
        Vec::new(),
        1_500,
        TODAY,
    );
    let mut bytes = 2.5f32.to_le_bytes().to_vec();
    bytes.extend_from_slice(&[8, 0, 0, 0]);
    let uniforms = Uniforms {
        resolution: UIntVector2::new(800, 600),
        num_textures: 2,
        frame_num: 1,
        time: 1_500,
        time_delta: 1_500,
        date: TODAY,
        ..Uniforms::new()
    };
    assert_eq!(
        actions,
        vec![
            CanvasAction::SetDecorations(false),
            CanvasAction::CreatePainting(resolution),
            CanvasAction::SetDecorations(true),
            CanvasAction::CreateMovieFrame(resolution),
            CanvasAction::WriteUserUniforms(bytes),
            CanvasAction::CopyFrameUniforms(uniforms),
        ]
    );
    assert_eq!(canvas.uniforms, uniforms);
    assert!(canvas.show_titlebar);
}

#[test]
fn an_update_without_custom_uniforms_uploads_the_frame_uniforms_only() {
    let mut canvas = bare();
    let actions: Vec<Action> = canvas.update_at(Vec::new(), Vec::new(), Vec::new(), 16, TODAY);
    assert_eq!(actions, vec![CanvasAction::CopyFrameUniforms(canvas.uniforms)]);
    assert_eq!(canvas.uniforms.frame_num, 1);
    assert_eq!(canvas.uniforms.time, 16);
    assert_eq!(canvas.uniforms.time_delta, 16);
    let _: Vec<Action> = canvas.update_at(Vec::new(), Vec::new(), Vec::new(), 40, TODAY);
    assert_eq!(canvas.uniforms.frame_num, 2);
    assert_eq!(canvas.uniforms.time, 40);
    assert_eq!(canvas.uniforms.time_delta, 24);
}

#[test]
fn a_paused_canvas_still_uploads_edits() {
    let mut canvas = furnished();
    let _: Vec<Action> = canvas.update_at(Vec::new(), Vec::new(), Vec::new(), 100, TODAY);
    let frozen = canvas.uniforms;
    let actions: Vec<Action> = canvas.update_at(
        vec![DashboardMessage::Pause, DashboardMessage::UniformUpdatedViaGUI(count(5))],
        Vec::new(),
        Vec::new(),
        200,
        IntVector4::new(2022, 1, 1, 0),
    );
    let mut bytes = 2.5f32.to_le_bytes().to_vec();
    bytes.extend_from_slice(&[5, 0, 0, 0]);
    assert_eq!(
        actions,
        vec![CanvasAction::WriteUserUniforms(bytes), CanvasAction::CopyFrameUniforms(frozen)]
    );
    assert_eq!(canvas.uniforms, frozen);
    assert!(canvas.paused);
}

#[test]
fn pausing_and_resuming_at_once_changes_nothing_a_shader_sees() {
    let mut canvas = bare();
    let _: Vec<Action> = canvas.update_at(Vec::new(), Vec::new(), Vec::new(), 1_000, TODAY);
    let mut twin = copy_of(&canvas);
    canvas.pause();
    canvas.play();
    assert_eq!(canvas.uniforms, twin.uniforms);
    assert_eq!(canvas.uniforms.frame_num, 1);
    assert_eq!(canvas.uniforms.time, 1_000);
    let _: Vec<Action> = canvas.update_at(Vec::new(), Vec::new(), Vec::new(), 2_000, TODAY);
    let _: Vec<Action> = twin.update_at(Vec::new(), Vec::new(), Vec::new(), 2_000, TODAY);
    assert_eq!(canvas.uniforms, twin.uniforms);
    assert_eq!(canvas.uniforms.time, 2_000);
}

#[test]
fn the_time_of_a_pause_is_not_counted() {
    // The stopwatch stands during the pause: it shows 1_000 before and 1_650 at the first update
    // after it.
    let mut canvas = bare();
    let _: Vec<Action> = canvas.update_at(Vec::new(), Vec::new(), Vec::new(), 1_000, TODAY);
    canvas.toggle_pause();
    let _: Vec<Action> = canvas.update_at(Vec::new(), Vec::new(), Vec::new(), 1_400, TODAY);
    let _: Vec<Action> = canvas.update_at(Vec::new(), Vec::new(), Vec::new(), 1_400, TODAY);
    assert_eq!(canvas.uniforms.frame_num, 1);
    assert_eq!(canvas.uniforms.time, 1_000);
    assert_eq!(canvas.uniforms.time_delta, 1_000);
    canvas.toggle_pause();
    let _: Vec<Action> = canvas.update_at(Vec::new(), Vec::new(), Vec::new(), 1_650, TODAY);
    assert_eq!(canvas.uniforms.frame_num, 2);
    assert_eq!(canvas.uniforms.time, 1_650);
    assert_eq!(canvas.uniforms.time_delta, 650);
    let _: Vec<Action> = canvas.update_at(Vec::new(), Vec::new(), Vec::new(), 1_700, TODAY);
    assert_eq!(canvas.uniforms.time_delta, 50);
}

#[test]
fn the_stopwatch_stands_while_playback_is_paused() {
    let started = std::time::Instant::now();
    let mut canvas = bare();
    let _: Vec<Action> = canvas.update(Vec::new(), Vec::new(), Vec::new(), TODAY);
    let first = canvas.uniforms;
    assert_eq!(first.frame_num, 1);
    assert_eq!(first.time_delta, first.time);
    let before_pause = started.elapsed();
    canvas.pause();
    canvas.pause();
    wait(200);
    let _: Vec<Action> = canvas.update(Vec::new(), Vec::new(), Vec::new(), TODAY);
    assert_eq!(canvas.uniforms, first);
    let resumed = std::time::Instant::now();
    canvas.play();
    canvas.play();
    wait(20);
    let _: Vec<Action> = canvas.update(Vec::new(), Vec::new(), Vec::new(), TODAY);
    let playing = (before_pause + resumed.elapsed()).as_nanos() as u64;
    let last = canvas.uniforms;
    assert_eq!(last.frame_num, 2);
    assert!(last.time >= first.time + 20_000_000);
    assert!(last.time <= playing);
    assert_eq!(last.time_delta, last.time - first.time);
    assert!(last.time_delta <= playing);
    let _: Vec<Action> = canvas.dashboard_signal_received(DashboardMessage::Play);
    let _: Vec<Action> = canvas.update(Vec::new(), Vec::new(), Vec::new(), TODAY);
    assert!(canvas.uniforms.time >= last.time);
}

#[test]
fn an_edit_of_another_size_is_taken_and_the_buffer_follows() {
    let mut canvas = furnished();
    canvas.add_post_processing_shader(vec![1]);
    let wide = UserUniform::new("count".to_string(), UniformValue::UInt64(9));
    let actions: Vec<Action> =
        canvas.dashboard_signal_received(DashboardMessage::UniformUpdatedViaGUI(wide.copy()));
    assert_eq!(actions, vec![CanvasAction::RebuildBindings]);
    assert_eq!(canvas.user_uniforms, vec![speed(2.5), wide]);
    assert_eq!(canvas.user_uniforms_buffer_size, Some(12));
    let uploads: Vec<Action> = canvas.uploads();
    let mut bytes = 2.5f32.to_le_bytes().to_vec();
    bytes.extend_from_slice(&9u64.to_le_bytes());
    assert_eq!(
        uploads,
        vec![
            CanvasAction::WriteUserUniforms(bytes),
            CanvasAction::CopyFrameUniforms(canvas.uniforms),
        ]
    );
    let same_size = UserUniform::new("speed".to_string(), UniformValue::Int32(-1));
    let actions: Vec<Action> =
        canvas.dashboard_signal_received(DashboardMessage::UniformUpdatedViaGUI(same_size.copy()));
    assert!(actions.is_empty());
    assert_eq!(canvas.user_uniforms_buffer_size, Some(12));
    assert_eq!(canvas.user_uniforms[0], same_size);

    // An edit that leaves no bytes lets the buffer go, and the stages with it.
    let mut canvas = bare();
    canvas.add_post_processing_shader(vec![1]);
    canvas.user_uniforms.push(count(1));
    canvas.user_uniforms_buffer_size = Some(4);
    let hollow = UserUniform {
        bytes: Vec::new(),
        name: "count".to_string(),
        inherent_type: easel::uniforms::UserUniformType::UInt32,
    };
    let actions: Vec<Action> = canvas.replace_uniform(hollow);
    assert_eq!(actions, vec![CanvasAction::RebuildBindings]);
    assert_eq!(canvas.user_uniforms_buffer_size, None);
    assert_eq!(canvas.user_uniforms.len(), 1);
    assert_eq!(canvas.postprocess_ops, vec![PostProcess::new(vec![1], false)]);
    let actions: Vec<Action> = canvas.replace_uniform(count(2));
    assert_eq!(actions, vec![CanvasAction::RebuildBindings]);
    assert_eq!(canvas.user_uniforms_buffer_size, Some(4));
    assert_eq!(canvas.postprocess_ops, vec![PostProcess::new(vec![1], true)]);
    let stranger = UserUniform::new("other".to_string(), UniformValue::UInt64(1));
    let actions: Vec<Action> = canvas.replace_uniform(stranger);
    assert!(actions.is_empty());
    assert_eq!(canvas.user_uniforms, vec![count(2)]);
}

#[test]
fn the_frame_counter_wraps() {
    let mut canvas = bare();
    canvas.uniforms.frame_num = u32::MAX;
    canvas.advance(1, TODAY);
    assert_eq!(canvas.uniforms.frame_num, 0);
    canvas.advance(0, TODAY);
    assert_eq!(canvas.uniforms.frame_num, 1);
    assert_eq!(canvas.uniforms.time_delta, 0);
    assert_eq!(canvas.uniforms.date, TODAY);
}

#[test]
fn a_shader_that_does_not_compile_changes_nothing() {
    let mut canvas = furnished();
    canvas.add_post_processing_shader(vec![7]);
    let _ = canvas.watch_shader_file(100);
    let before = copy_of(&canvas);
    let plan_before = canvas.render_canvas();
    let painting_before = canvas.create_painting(UIntVector2::new(100, 50));
    let actions: Vec<Action> = canvas.update_shader_pipeline(ShaderFileEvent::Changed(Err(
        "shader.frag:3: error: 'x' : undeclared identifier".to_string(),
    )));
    assert_eq!(
        actions,
        vec![CanvasAction::Send(CanvasMessage::ShaderCompilationFailed(
            "shader.frag:3: error: 'x' : undeclared identifier".to_string()
        ))]
    );
    assert!(same(&canvas, &before));
    assert_eq!(canvas.fragment_shader, vec![1, 2, 3]);
    assert_eq!(canvas.render_canvas(), plan_before);
    assert_eq!(canvas.create_painting(UIntVector2::new(100, 50)), painting_before);
    let actions: Vec<Action> =
        canvas.update_shader_pipeline(ShaderFileEvent::Changed(Err("again".to_string())));
    assert_eq!(actions.len(), 1);
    assert!(same(&canvas, &before));
}

#[test]
fn a_shader_that_compiles_is_taken() {
    let mut canvas = furnished();
    let mut expected = copy_of(&canvas);
    let actions: Vec<Action> =
        canvas.update_shader_pipeline(ShaderFileEvent::Changed(Ok(vec![4, 5, 6, 7])));
    assert_eq!(
        actions,
        vec![
            CanvasAction::RebuildPipelines,
            CanvasAction::Send(CanvasMessage::ShaderCompilationSucceeded),
        ]
    );
    expected.fragment_shader = vec![4, 5, 6, 7];
    assert!(same(&canvas, &expected));
}

#[test]
fn a_lost_file_is_no_longer_watched() {
    for event in [ShaderFileEvent::Removed, ShaderFileEvent::Renamed, ShaderFileEvent::Error] {
        let mut canvas = bare();
        assert_eq!(canvas.watch_shader_file(500), 500);
        assert_eq!(canvas.watch_uniforms_file(10), 80);
        assert!(canvas.shader_file_watcher && canvas.json_file_watcher);
        let actions: Vec<Action> = canvas.update_shader_pipeline(event);
        assert!(actions.is_empty());
        assert!(!canvas.shader_file_watcher);
        assert!(canvas.json_file_watcher);
    }
    for event in [ConfigFileEvent::Removed, ConfigFileEvent::Renamed, ConfigFileEvent::Error] {
        let mut canvas = bare();
        let _ = canvas.watch_shader_file(500);
        let _ = canvas.watch_uniforms_file(500);
        let actions: Vec<Action> = canvas.update_custom_uniforms_from_file(event);
        assert!(actions.is_empty());
        assert!(canvas.shader_file_watcher);
        assert!(!canvas.json_file_watcher);
    }
    let mut canvas = bare();
    let _ = canvas.watch_shader_file(500);
    let _ = canvas.watch_uniforms_file(500);
    let before = copy_of(&canvas);
    let actions: Vec<Action> = canvas.update_shader_pipeline(ShaderFileEvent::Other);
    assert!(actions.is_empty());
    let actions: Vec<Action> = canvas.update_custom_uniforms_from_file(ConfigFileEvent::Other);
    assert!(actions.is_empty());
    assert!(same(&canvas, &before));
    canvas.exit_requested();
    assert!(!canvas.shader_file_watcher && !canvas.json_file_watcher);
}

#[test]
fn files_are_looked_at_no_more_often_than_every_eighty_milliseconds() {
    assert_eq!(MIN_WATCH_INTERVAL_MS, 80);
    assert_eq!(watch_interval(0), 80);
    assert_eq!(watch_interval(79), 80);
    assert_eq!(watch_interval(80), 80);
    assert_eq!(watch_interval(81), 81);
    assert_eq!(watch_interval(u64::MAX), u64::MAX);
}

fn scalar(tag: &str, x: u32) -> Vec<ConfigValue> {
    vec![
        ConfigValue {
            as_str: Some(tag.to_string()),
            as_bool: None,
            as_f32: None,
            as_f64: None,
            as_u32: None,
            as_u64: None,
            as_i32: None,
            as_i64: None,
        },
        ConfigValue {
            as_str: None,
            as_bool: None,
            as_f32: Some((x as f32).to_bits()),
            as_f64: Some((x as f64).to_bits()),
            as_u32: Some(x),
            as_u64: Some(x as u64),
            as_i32: Some(x as i32),
            as_i64: Some(x as i64),
        },
    ]
}

#[test]
fn a_changed_description_replaces_uniforms_and_push_constants() {
    let mut canvas = furnished();
    canvas.add_post_processing_shader(vec![1]);
    let mut expected = copy_of(&canvas);
    let document = ConfigDocument {
        uniforms: vec![
            ConfigEntry { name: "gain".to_string(), members: scalar("f32", 2) },
            ConfigEntry { name: "tint".to_string(), members: scalar("vec3", 0) },
        ],
        push_constants: vec![ConfigEntry { name: "depth".to_string(), members: scalar("i64", 6) }],
    };
    assert!(document.loadable());
    let actions: Vec<Action> =
        canvas.update_custom_uniforms_from_file(ConfigFileEvent::Changed(document));
    assert_eq!(actions, vec![CanvasAction::RebuildBindings]);
    expected.user_uniforms =
        vec![UserUniform::new("gain".to_string(), UniformValue::Float32(2.0f32.to_bits()))];
    expected.push_constants =
        Some(vec![TypedPushConstant::new(UniformValue::Int64(6), "depth".to_string())]);
    expected.user_uniforms_buffer_size = Some(4);
    assert!(same(&canvas, &expected));
    let uploads: Vec<Action> = canvas.uploads();
    assert_eq!(
        uploads,
        vec![
            CanvasAction::WriteUserUniforms(2.0f32.to_le_bytes().to_vec()),
            CanvasAction::CopyFrameUniforms(canvas.uniforms),
        ]
    );
    assert_eq!(canvas.pipeline_layout().unwrap().primary.len(), 2);
    assert_eq!(canvas.pipeline_layout().unwrap().push_constant_range, Some(8));

    // Without uniforms there is no buffer, and no stage is given one.
    let empty = ConfigDocument { uniforms: Vec::new(), push_constants: Vec::new() };
    let actions: Vec<Action> =
        canvas.update_custom_uniforms_from_file(ConfigFileEvent::Changed(empty));
    assert_eq!(actions, vec![CanvasAction::RebuildBindings]);
    assert!(canvas.user_uniforms.is_empty());
    assert_eq!(canvas.user_uniforms_buffer_size, None);
    assert_eq!(canvas.push_constants, Some(Vec::new()));
    assert_eq!(canvas.postprocess_ops, vec![PostProcess::new(vec![1], false)]);
    let uploads: Vec<Action> = canvas.uploads();
    assert_eq!(uploads, vec![CanvasAction::CopyFrameUniforms(canvas.uniforms)]);
    assert_eq!(canvas.pipeline_layout().unwrap().primary.len(), 1);
    let plan = canvas.create_painting(UIntVector2::new(8, 8)).unwrap();
    assert_eq!(plan.passes[0].uniforms.len(), 1);

    // With uniforms again there is a buffer again, of their size.
    let document = ConfigDocument {
        uniforms: vec![
            ConfigEntry { name: "a".to_string(), members: scalar("u64", 1) },
            ConfigEntry { name: "c".to_string(), members: scalar("i32", 1) },
        ],
        push_constants: Vec::new(),
    };
    let _: Vec<Action> =
        canvas.update_custom_uniforms_from_file(ConfigFileEvent::Changed(document));
    assert_eq!(canvas.user_uniforms_buffer_size, Some(12));
    assert_eq!(canvas.postprocess_ops, vec![PostProcess::new(vec![1], true)]);
}

#[test]
fn stages_run_in_the_order_in_which_they_were_added() {
    let mut canvas = furnished();
    canvas.add_post_processing_shader(vec![1]);
    canvas.add_post_processing_shader(vec![2]);
    canvas.add_post_processing_shader(vec![3]);
    assert_eq!(
        canvas.postprocess_ops,
        vec![
            PostProcess::new(vec![1], true),
            PostProcess::new(vec![2], true),
            PostProcess::new(vec![3], true),
        ]
    );
    let mut canvas = bare();
    canvas.add_post_processing_shader(vec![1]);
    assert_eq!(canvas.postprocess_ops, vec![PostProcess::new(vec![1], false)]);
}

#[test]
fn a_painting_scales_the_mouse_by_its_size_over_the_windows() {
    let mut canvas = furnished();
    let position = BitsVector4::new(
        400.0f32.to_bits(),
        300.0f32.to_bits(),
        390.0f32.to_bits(),
        310.0f32.to_bits(),
    );
    canvas.uniforms.mouse_position = position;
    let resolution = UIntVector2::new(3200, 1800);
    let plan = canvas.create_painting(resolution).unwrap();
    assert_eq!(
        plan.mouse_scale,
        Some(MouseScale {
            horizontal: Ratio { numerator: 3200, denominator: 800 },
            vertical: Ratio { numerator: 1800, denominator: 600 },
        })
    );
    assert_eq!(
        plan.uniforms,
        Some(Uniforms { resolution, mouse_position: position, ..canvas.uniforms })
    );
    assert_eq!(plan.resolution, resolution);
    assert_eq!(plan.format, TextureFormat::Rgba16Float);
    assert_eq!(plan.pipeline, PipelineType::Painting);
    assert_eq!(
        plan.readback,
        Some(ImageLayout { bytes_per_row: 25_600, rows_per_image: 1800, size: 46_080_000 })
    );
    assert_eq!(canvas.uniforms.resolution, UIntVector2::new(800, 600));
}

#[test]
fn a_painting_runs_every_stage_and_the_conversion() {
    let mut canvas = furnished();
    canvas.add_post_processing_shader(vec![1]);
    canvas.add_post_processing_shader(vec![2]);
    let plan = canvas.create_painting(UIntVector2::new(64, 64)).unwrap();
    let frame = BufferBinding { binding: 0, buffer: BufferSlot::FrameUniforms, size: 80 };
    let user = BufferBinding { binding: 1, buffer: BufferSlot::UserUniforms, size: 8 };
    assert_eq!(plan.passes.len(), 3);
    let expected = [
        (StageRef::User(0), TextureSlot::Target, TextureSlot::Scratch),
        (StageRef::User(1), TextureSlot::Scratch, TextureSlot::Target),
        (StageRef::Terminal, TextureSlot::Target, TextureSlot::Scratch),
    ];
    for (pass, (stage, input, output)) in plan.passes.iter().zip(expected) {
        assert_eq!(pass.stage, stage);
        assert_eq!(pass.input, input);
        assert_eq!(pass.output, output);
        assert_eq!(pass.pipeline, PipelineType::Painting);
        assert_eq!(pass.uniforms, vec![frame, user]);
        assert_eq!(pass.draw, DrawCall { vertices: 3, instances: 1 });
    }
    assert_eq!(plan.output, TextureSlot::Scratch);
    assert_eq!(plan.present, None);
    assert_eq!(plan.main_draw, DrawCall { vertices: 3, instances: 1 });
    assert_eq!(plan.push_constants.len(), 2);
    assert_eq!(plan.push_constants[0].offset, 0);
    assert_eq!(plan.push_constants[0].bytes, vec![4, 0, 0, 0]);
    assert_eq!(plan.push_constants[1].offset, 4);
    assert_eq!(plan.push_constants[1].bytes, 1.0f64.to_le_bytes().to_vec());
}

#[test]
fn a_movie_frame_is_planned_like_a_painting_in_its_own_format() {
    let mut canvas = bare();
    canvas.add_post_processing_shader(vec![1]);
    let resolution = UIntVector2::new(1024, 1024);
    let plan = canvas.create_movie_frame(resolution).unwrap();
    assert_eq!(plan.pipeline, PipelineType::Movie);
    assert_eq!(plan.format, TextureFormat::Rgba8UnormSrgb);
    assert_eq!(plan.passes.len(), 2);
    assert_eq!(plan.passes[1].stage, StageRef::Terminal);
    assert_eq!(plan.passes[1].input, plan.passes[0].output);
    assert_eq!(plan.output, TextureSlot::Target);
    assert_eq!(
        plan.readback,
        Some(ImageLayout { bytes_per_row: 4096, rows_per_image: 1024, size: 4_194_304 })
    );
    assert_eq!(
        plan.mouse_scale,
        Some(MouseScale {
            horizontal: Ratio { numerator: 1024, denominator: 800 },
            vertical: Ratio { numerator: 1024, denominator: 600 },
        })
    );
    assert!(plan.push_constants.is_empty());
    assert_eq!(canvas.create_movie_frame(UIntVector2::new(u32::MAX, 1)), None);
    assert_eq!(canvas.create_painting(UIntVector2::new(0x2000_0000, 1)), None);
}

#[test]
fn a_frame_for_the_window_leaves_the_conversion_out() {
    let mut canvas = bare();
    let plan = canvas.render_canvas().unwrap();
    assert!(plan.passes.is_empty());
    assert_eq!(plan.output, TextureSlot::Target);
    canvas.add_post_processing_shader(vec![1]);
    canvas.add_post_processing_shader(vec![2]);
    canvas.add_post_processing_shader(vec![3]);
    let plan = canvas.render_canvas().unwrap();
    assert_eq!(plan.pipeline, PipelineType::Render);
    assert_eq!(plan.format, TextureFormat::Rgba8Unorm);
    assert_eq!(plan.resolution, UIntVector2::new(800, 600));
    assert_eq!(plan.passes.len(), 3);
    for (k, pass) in plan.passes.iter().enumerate() {
        assert_eq!(pass.stage, StageRef::User(k));
        assert_eq!(pass.pipeline, PipelineType::Render);
        assert_eq!(
            pass.uniforms,
            vec![BufferBinding { binding: 0, buffer: BufferSlot::FrameUniforms, size: 80 }]
        );
    }
    assert_eq!(plan.output, TextureSlot::Scratch);
    assert_eq!(plan.uniforms, None);
    assert_eq!(plan.mouse_scale, None);
    assert_eq!(plan.present, Some(DrawCall { vertices: 3, instances: 1 }));
    assert_eq!(plan.readback, None);
    canvas.pause();
    assert_eq!(canvas.render_canvas(), None);
    assert!(canvas.create_painting(UIntVector2::new(8, 8)).is_some());
}

#[test]
fn what_is_told_after_a_render() {
    let canvas = bare();
    let resolution = UIntVector2::new(8, 4);
    let frame = canvas.render_canvas().unwrap();
    assert_eq!(
        frame.submitted(Some(1u8), 5),
        vec![CanvasMessage::RenderPassSubmitted, CanvasMessage::FrameStep]
    );
    assert_eq!(
        frame.submitted(None, 5),
        vec![Message::RenderPassSubmitted, Message::FrameStep]
    );
    let painting = canvas.create_painting(resolution).unwrap();
    assert_eq!(
        painting.submitted(Some(7u8), 55),
        vec![CanvasMessage::PaintingStarted(7u8, resolution, 55)]
    );
    assert_eq!(painting.submitted(None, 55), Vec::<Message>::new());
    let movie = canvas.create_movie_frame(resolution).unwrap();
    assert_eq!(
        movie.submitted(Some(9u8), 56),
        vec![CanvasMessage::MovieFrameStarted(9u8, resolution, 56)]
    );
}

#[test]
fn a_frame_without_an_image_is_left_out() {
    let mut canvas = bare();
    canvas.add_post_processing_shader(vec![1]);
    for error in [
        SwapChainError::Timeout,
        SwapChainError::Outdated,
        SwapChainError::Lost,
        SwapChainError::OutOfMemory,
    ] {
        let plan = canvas.render_canvas().unwrap();
        let (execute, messages): (_, Vec<Message>) = canvas.frame_acquired(plan, Err(error));
        assert_eq!(execute, None);
        assert_eq!(messages, vec![CanvasMessage::SwapChainFrameError(error)]);
    }
    let plan = canvas.render_canvas().unwrap();
    let expected = canvas.render_canvas();
    let (execute, messages): (_, Vec<Message>) = canvas.frame_acquired(plan, Ok(()));
    assert_eq!(execute, expected);
    assert_eq!(messages, vec![CanvasMessage::RenderPassSubmitted, CanvasMessage::FrameStep]);
    canvas.pause();
    assert_eq!(canvas.render_canvas(), None);
}

#[test]
fn after_a_frame_the_uniforms_go_to_the_dashboard() {
    let canvas = furnished();
    let actions: Vec<Action> = canvas.post_render();
    assert_eq!(
        actions,
        vec![
            CanvasAction::Send(CanvasMessage::UniformForGUI(speed(2.5))),
            CanvasAction::Send(CanvasMessage::UniformForGUI(count(3))),
            CanvasAction::RequestRedraw,
        ]
    );
    let actions: Vec<Action> = bare().post_render();
    assert_eq!(actions, vec![CanvasAction::RequestRedraw]);
    assert_eq!(canvas.uniform_buffers().frame_size, 80);
    assert_eq!(canvas.uniform_buffers().user_size, Some(8));
}

#[test]
fn an_update_takes_messages_then_the_shader_then_the_description() {
    let mut canvas = furnished();
    let _ = canvas.watch_shader_file(100);
    let _ = canvas.watch_uniforms_file(100);
    let document = ConfigDocument {
        uniforms: vec![ConfigEntry { name: "count".to_string(), members: scalar("u32", 1) }],
        push_constants: Vec::new(),
    };
    let actions: Vec<Action> = canvas.update_at(
        vec![
            DashboardMessage::UniformUpdatedViaGUI(count(9)),
            DashboardMessage::TitlebarStatusChanged,
        ],
        vec![
            ShaderFileEvent::Changed(Err("first".to_string())),
            ShaderFileEvent::Changed(Ok(vec![5, 5])),
            ShaderFileEvent::Removed,
            ShaderFileEvent::Changed(Err("second".to_string())),
        ],
        vec![ConfigFileEvent::Changed(document), ConfigFileEvent::Renamed],
        10,
        TODAY,
    );
    assert_eq!(canvas.user_uniforms_buffer_size, Some(4));
    assert_eq!(
        actions,
        vec![
            CanvasAction::SetDecorations(false),
            CanvasAction::Send(CanvasMessage::ShaderCompilationFailed("first".to_string())),
            CanvasAction::RebuildPipelines,
            CanvasAction::Send(CanvasMessage::ShaderCompilationSucceeded),
            CanvasAction::Send(CanvasMessage::ShaderCompilationFailed("second".to_string())),
            CanvasAction::RebuildBindings,
            CanvasAction::WriteUserUniforms(vec![1, 0, 0, 0]),
            CanvasAction::CopyFrameUniforms(canvas.uniforms),
        ]
    );
    assert_eq!(canvas.fragment_shader, vec![5, 5]);
    assert_eq!(canvas.user_uniforms, vec![count(1)]);
    assert_eq!(canvas.push_constants, Some(Vec::new()));
    assert!(!canvas.shader_file_watcher);
    assert!(!canvas.json_file_watcher);
    assert_eq!(canvas.uniforms.frame_num, 1);
    assert!(ConfigFileEvent::Removed.loadable());
    let broken = ConfigDocument {
        uniforms: vec![ConfigEntry { name: "count".to_string(), members: Vec::new() }],
        push_constants: Vec::new(),
    };
    assert!(!ConfigFileEvent::Changed(broken).loadable());
}

#[test]
fn messages_and_changes_can_be_handed_in_one_by_one() {
    let mut canvas = furnished();
    let actions: Vec<Action> = canvas.dashboard_signals_received(
        vec![DashboardMessage::Pause, DashboardMessage::TitlebarStatusChanged],
    );
    assert_eq!(actions, vec![CanvasAction::SetDecorations(false)]);
    assert!(canvas.paused);
    let actions: Vec<Action> = canvas.update_shader_pipelines(vec![
        ShaderFileEvent::Other,
        ShaderFileEvent::Changed(Ok(vec![8])),
    ]);
    assert_eq!(
        actions,
        vec![
            CanvasAction::RebuildPipelines,
            CanvasAction::Send(CanvasMessage::ShaderCompilationSucceeded),
        ]
    );
    let actions: Vec<Action> = canvas
        .update_custom_uniforms_from_files(vec![ConfigFileEvent::Other, ConfigFileEvent::Error]);
    assert!(actions.is_empty());
    assert!(!canvas.json_file_watcher);
    let actions: Vec<Action> = canvas.uploads();
    let mut bytes = 2.5f32.to_le_bytes().to_vec();
    bytes.extend_from_slice(&[3, 0, 0, 0]);
    assert_eq!(
        actions,
        vec![
            CanvasAction::WriteUserUniforms(bytes),
            CanvasAction::CopyFrameUniforms(canvas.uniforms),
        ]
    );
}
