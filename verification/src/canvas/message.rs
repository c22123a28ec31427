//! What the canvas tells the dashboard.

use vstd::prelude::*;
use crate::uniforms::{UserUniform, UserUniformView};
use crate::vector::{BitsVector2, IntVector2, UIntVector2};

verus! {

/// Why the window gave no image to render to.
#[derive(Debug, Copy, Clone, PartialEq, Eq, Structural)]
pub enum SwapChainError {
    /// No image came in time.
    Timeout,
    /// The swap chain no longer fits the window.
    Outdated,
    /// The swap chain was lost.
    Lost,
    /// There is no memory left for an image.
    OutOfMemory,
}

/// The messages that the canvas sends. `B` is the buffer that a finished
/// render is read back into; the canvas and the dashboard only pass it on.
#[derive(Debug, PartialEq, Eq)]
pub enum CanvasMessage<B> {
    /// A frame has been dispatched for rendering (not a painting).
    RenderPassSubmitted,
    /// The mouse has moved to a new place in the window.
    MouseMoved(BitsVector2),
    /// A frame has been rendered.
    FrameStep,
    /// The window gave no image to render to.
    SwapChainFrameError(SwapChainError),
    /// The window has a new size.
    WindowResized(IntVector2),
    /// A painting has been dispatched for rendering. The buffer will hold
    /// the painting once rendering finishes; with it come the resolution of
    /// the painting and the time at which rendering started.
    PaintingStarted(B, UIntVector2, u64),
    /// A movie frame has been dispatched for rendering. The buffer will hold
    /// the frame once rendering finishes; with it come the resolution of the
    /// frame and the time at which rendering started.
    MovieFrameStarted(B, UIntVector2, u64),
    /// The shader was loaded again and the pipelines were rebuilt.
    ShaderCompilationSucceeded,
    /// The shader could not be loaded again; holds the compiler's words.
    ShaderCompilationFailed(String),
    /// Playback was paused or resumed from the canvas window.
    PausePlayChanged,
    /// A uniform for which the dashboard is to offer an editor.
    UniformForGUI(UserUniform),
    /// The resolution that the dashboard is to show for paintings.
    UpdatePaintingResolutioninGUI(IntVector2),
}

/// What a `CanvasMessage` holds.
pub enum CanvasMessageView<B> {
    RenderPassSubmitted,
    MouseMoved(BitsVector2),
    FrameStep,
    SwapChainFrameError(SwapChainError),
    WindowResized(IntVector2),
    PaintingStarted(B, UIntVector2, u64),
    MovieFrameStarted(B, UIntVector2, u64),
    ShaderCompilationSucceeded,
    ShaderCompilationFailed(Seq<char>),
    PausePlayChanged,
    UniformForGUI(UserUniformView),
    UpdatePaintingResolutioninGUI(IntVector2),
}

impl<B> View for CanvasMessage<B> {
    type V = CanvasMessageView<B>;

    open spec fn view(&self) -> CanvasMessageView<B> {
        match *self {
            CanvasMessage::RenderPassSubmitted => CanvasMessageView::RenderPassSubmitted,
            CanvasMessage::MouseMoved(position) => CanvasMessageView::MouseMoved(position),
            CanvasMessage::FrameStep => CanvasMessageView::FrameStep,
            CanvasMessage::SwapChainFrameError(error) => CanvasMessageView::SwapChainFrameError(
                error,
            ),
            CanvasMessage::WindowResized(size) => CanvasMessageView::WindowResized(size),
            CanvasMessage::PaintingStarted(buffer, resolution, started) => {
                CanvasMessageView::PaintingStarted(buffer, resolution, started)
            },
            CanvasMessage::MovieFrameStarted(buffer, resolution, started) => {
                CanvasMessageView::MovieFrameStarted(buffer, resolution, started)
            },
            CanvasMessage::ShaderCompilationSucceeded => {
                CanvasMessageView::ShaderCompilationSucceeded
            },
            CanvasMessage::ShaderCompilationFailed(text) => {
                CanvasMessageView::ShaderCompilationFailed(text@)
            },
            CanvasMessage::PausePlayChanged => CanvasMessageView::PausePlayChanged,
            CanvasMessage::UniformForGUI(uniform) => CanvasMessageView::UniformForGUI(uniform@),
            CanvasMessage::UpdatePaintingResolutioninGUI(resolution) => {
                CanvasMessageView::UpdatePaintingResolutioninGUI(resolution)
            },
        }
    }
}

/// Something that the canvas asks its owner to do. The owner carries the
/// actions out in the order in which it is given them.
#[derive(Debug, PartialEq, Eq)]
pub enum CanvasAction<B> {
    /// Send the message to the dashboard.
    Send(CanvasMessage<B>),
    /// Render a painting of this resolution.
    CreatePainting(UIntVector2),
    /// Render a movie frame of this resolution.
    CreateMovieFrame(UIntVector2),
    /// Show or hide the title bar of the window.
    SetDecorations(bool),
    /// Make the swap chain anew for a window of this size.
    ResizeSwapChain(UIntVector2),
    /// Build the three pipelines anew from the fragment shader that the
    /// canvas now holds.
    RebuildPipelines,
    /// Make the user's uniform buffer anew, as large as the canvas now says,
    /// or let it go where the canvas says that there is none; then the bind
    /// groups, their layouts and every pipeline, of the canvas and of each
    /// stage, since the bindings and the range of the push constants may
    /// have changed.
    RebuildBindings,
    /// Write these bytes to the start of the user's uniform buffer.
    WriteUserUniforms(Vec<u8>),
    /// Stage the frame uniforms in a fresh buffer and copy them from there
    /// into the frame uniform buffer.
    CopyFrameUniforms(crate::uniforms::Uniforms),
    /// Tell the window that there is something new to draw.
    RequestRedraw,
}

/// What a `CanvasAction` holds.
pub enum CanvasActionView<B> {
    Send(CanvasMessageView<B>),
    CreatePainting(UIntVector2),
    CreateMovieFrame(UIntVector2),
    SetDecorations(bool),
    ResizeSwapChain(UIntVector2),
    RebuildPipelines,
    RebuildBindings,
    WriteUserUniforms(Seq<u8>),
    CopyFrameUniforms(crate::uniforms::Uniforms),
    RequestRedraw,
}

impl<B> View for CanvasAction<B> {
    type V = CanvasActionView<B>;

    open spec fn view(&self) -> CanvasActionView<B> {
        match *self {
            CanvasAction::Send(message) => CanvasActionView::Send(message@),
            CanvasAction::CreatePainting(resolution) => CanvasActionView::CreatePainting(
                resolution,
            ),
            CanvasAction::CreateMovieFrame(resolution) => CanvasActionView::CreateMovieFrame(
                resolution,
            ),
            CanvasAction::SetDecorations(shown) => CanvasActionView::SetDecorations(shown),
            CanvasAction::ResizeSwapChain(size) => CanvasActionView::ResizeSwapChain(size),
            CanvasAction::RebuildPipelines => CanvasActionView::RebuildPipelines,
            CanvasAction::RebuildBindings => CanvasActionView::RebuildBindings,
            CanvasAction::WriteUserUniforms(bytes) => CanvasActionView::WriteUserUniforms(bytes@),
            CanvasAction::CopyFrameUniforms(uniforms) => CanvasActionView::CopyFrameUniforms(
                uniforms,
            ),
            CanvasAction::RequestRedraw => CanvasActionView::RequestRedraw,
        }
    }
}

/// The views of a list of actions, in order.
pub open spec fn action_views<B>(actions: Seq<CanvasAction<B>>) -> Seq<CanvasActionView<B>> {
    Seq::new(actions.len(), |i: int| actions[i]@)
}

} // verus!
