//! Recording a movie: frames go, in the order in which they come, to an
//! encoder that runs as a process of its own.
//!
//! A recorder lives in the dashboard. Its worker runs on a thread of its
//! own, starts the encoder and feeds it. The two talk by signals: the
//! recorder sends frames and, once, the order to stop; the worker reports
//! when the encoder is ready for frames and when it has finished.

use vstd::prelude::*;
use vstd::string::*;
use crate::postprocessing::MOVIE_TEXTURE_FORMAT;
use crate::texture::TextureFormat;
use crate::utils::{decimal, decimal_string};
use crate::vector::UIntVector2;

verus! {

/// Number of signals that may wait for the worker before the recorder has to
/// wait too.
pub const FRAME_QUEUE_CAPACITY: usize = 64;

/// What the recorder sends to its worker. `B` is the buffer that holds a
/// frame.
#[derive(Debug, PartialEq, Eq)]
pub enum RecorderToThreadSignal<B> {
    /// No frame follows.
    Stop,
    /// A frame and its resolution.
    Frame(B, UIntVector2),
}

/// What the worker reports to the recorder.
#[derive(Debug, Copy, Clone, PartialEq, Eq, Structural)]
pub enum ThreadToRecorderSignal {
    /// The encoder runs and takes frames.
    Ready,
    /// The encoder has taken all frames and has ended.
    Finished,
}

/// The encoder that writes the movie.
#[derive(Debug, Copy, Clone, PartialEq, Eq, Structural)]
pub enum Encoder {
    /// Lossless HEVC in software.
    Libx265,
    /// HEVC on an NVIDIA GPU.
    NvencHevc,
}

/// One recording, from the start of the encoder to its end.
#[derive(Debug, PartialEq, Eq)]
pub struct Recorder {
    /// Width of a frame in pixels.
    pub width: u32,
    /// Height of a frame in pixels.
    pub height: u32,
    /// Frames per second.
    pub framerate: u32,
    /// The file that the movie is written to.
    pub filename: String,
    /// Whether the worker has reported that the encoder has finished.
    pub done: bool,
    /// Whether the worker has reported that the encoder takes frames.
    pub ready: bool,
    /// Whether the worker has been told to stop.
    pub stop_signal_received: bool,
}

/// What a `Recorder` holds.
pub struct RecorderView {
    pub width: u32,
    pub height: u32,
    pub framerate: u32,
    pub filename: Seq<char>,
    pub done: bool,
    pub ready: bool,
    pub stop_signal_received: bool,
}

impl View for Recorder {
    type V = RecorderView;

    open spec fn view(&self) -> RecorderView {
        RecorderView {
            width: self.width,
            height: self.height,
            framerate: self.framerate,
            filename: self.filename@,
            done: self.done,
            ready: self.ready,
            stop_signal_received: self.stop_signal_received,
        }
    }
}

/// The views of a list of strings, in order.
pub open spec fn string_views(strings: Seq<String>) -> Seq<Seq<char>> {
    Seq::new(strings.len(), |i: int| strings[i]@)
}

/// The arguments that open the encoder's command line: raw video comes in,
/// at this frame rate, in this size, four bytes to the pixel.
pub open spec fn input_arguments(width: u32, height: u32, framerate: u32) -> Seq<Seq<char>> {
    seq![
        "-hide_banner"@,
        "-y"@,
        "-f"@,
        "rawvideo"@,
        "-framerate"@,
        decimal(framerate as nat),
        "-video_size"@,
        decimal(width as nat) + "x"@ + decimal(height as nat),
        "-pixel_format"@,
        "rgba"@,
    ]
}

/// The arguments that close the encoder's command line: the frames come on
/// the standard input, and this is how the movie is encoded and where it
/// goes.
pub open spec fn output_arguments(framerate: u32, filename: Seq<char>, encoder: Encoder) -> Seq<
    Seq<char>,
> {
    match encoder {
        Encoder::NvencHevc => seq![
            "-hwaccel"@,
            "cuda"@,
            "-i"@,
            "-"@,
            "-c:v"@,
            "hevc_nvenc"@,
            "-preset"@,
            "2"@,
            "-pix_fmt"@,
            "yuv420p"@,
            "-r"@,
            decimal(framerate as nat),
            filename,
        ],
        Encoder::Libx265 => seq![
            "-i"@,
            "-"@,
            "-c:v"@,
            "libx265"@,
            "-pix_fmt"@,
            "yuv420p"@,
            "-x265-params"@,
            "lossless=1"@,
            "-r"@,
            decimal(framerate as nat),
            filename,
        ],
    }
}

fn push_text(arguments: &mut Vec<String>, text: &str)
    ensures
        string_views(final(arguments)@) == string_views(old(arguments)@).push(text@),
{
    arguments.push(String::from_str(text));
    assert(string_views(arguments@) =~= string_views(old(arguments)@).push(text@));
}

fn push_string(arguments: &mut Vec<String>, text: String)
    ensures
        string_views(final(arguments)@) == string_views(old(arguments)@).push(text@),
{
    arguments.push(text);
    assert(string_views(arguments@) =~= string_views(old(arguments)@).push(text@));
}

impl RecorderView {
    /// The recorder may be told to stop: it has not been told before.
    pub open spec fn can_stop(self) -> bool {
        !self.stop_signal_received
    }

    /// The recorder after it was told to stop.
    pub open spec fn stopped(self) -> RecorderView {
        RecorderView { stop_signal_received: true, ..self }
    }

    /// The recorder after the worker's report `signal`, if there is one.
    pub open spec fn polled(self, signal: Option<ThreadToRecorderSignal>) -> RecorderView {
        match signal {
            Some(ThreadToRecorderSignal::Finished) => RecorderView { done: true, ..self },
            Some(ThreadToRecorderSignal::Ready) => RecorderView { ready: true, ..self },
            None => self,
        }
    }
}

impl Recorder {
    /// A recorder for frames of `width` by `height` pixels in the format
    /// `texture_format`, played at `framerate` frames per second and written
    /// to `filename`. Its worker is yet to report that the encoder is ready.
    ///
    /// The format must be the one of movie frames; the encoder is given no
    /// other.
    pub fn new(
        width: u32,
        height: u32,
        texture_format: TextureFormat,
        framerate: u32,
        filename: String,
    ) -> (recorder: Recorder)
        requires
            texture_format == MOVIE_TEXTURE_FORMAT,
        ensures
            recorder@ == (RecorderView {
                width,
                height,
                framerate,
                filename: filename@,
                done: false,
                ready: false,
                stop_signal_received: false,
            }),
    {
        Recorder {
            width,
            height,
            framerate,
            filename,
            done: false,
            ready: false,
            stop_signal_received: false,
        }
    }

    /// Whether `texture_format` is a format that can be recorded.
    pub fn supports(texture_format: TextureFormat) -> (supported: bool)
        ensures
            supported == (texture_format == MOVIE_TEXTURE_FORMAT),
    {
        texture_format == MOVIE_TEXTURE_FORMAT
    }

    /// The arguments with which the worker starts the encoder.
    pub fn encoder_arguments(&self, encoder: Encoder) -> (arguments: Vec<String>)
        ensures
            string_views(arguments@) == input_arguments(
                self@.width,
                self@.height,
                self@.framerate,
            ) + output_arguments(self@.framerate, self@.filename, encoder),
    {
        let mut arguments: Vec<String> = Vec::new();
        assert(string_views(arguments@) =~= Seq::<Seq<char>>::empty());
        push_text(&mut arguments, "-hide_banner");
        push_text(&mut arguments, "-y");
        push_text(&mut arguments, "-f");
        push_text(&mut arguments, "rawvideo");
        push_text(&mut arguments, "-framerate");
        push_string(&mut arguments, decimal_string(self.framerate));
        push_text(&mut arguments, "-video_size");
        let mut size = decimal_string(self.width);
        size.append("x");
        size.append(decimal_string(self.height).as_str());
        push_string(&mut arguments, size);
        push_text(&mut arguments, "-pixel_format");
        push_text(&mut arguments, "rgba");
        assert(string_views(arguments@) =~= input_arguments(
            self@.width,
            self@.height,
            self@.framerate,
        ));
        let ghost input = string_views(arguments@);
        match encoder {
            Encoder::NvencHevc => {
                push_text(&mut arguments, "-hwaccel");
                push_text(&mut arguments, "cuda");
                push_text(&mut arguments, "-i");
                push_text(&mut arguments, "-");
                push_text(&mut arguments, "-c:v");
                push_text(&mut arguments, "hevc_nvenc");
                push_text(&mut arguments, "-preset");
                push_text(&mut arguments, "2");
                push_text(&mut arguments, "-pix_fmt");
                push_text(&mut arguments, "yuv420p");
                push_text(&mut arguments, "-r");
            },
            Encoder::Libx265 => {
                push_text(&mut arguments, "-i");
                push_text(&mut arguments, "-");
                push_text(&mut arguments, "-c:v");
                push_text(&mut arguments, "libx265");
                push_text(&mut arguments, "-pix_fmt");
                push_text(&mut arguments, "yuv420p");
                push_text(&mut arguments, "-x265-params");
                push_text(&mut arguments, "lossless=1");
                push_text(&mut arguments, "-r");
            },
        }
        push_string(&mut arguments, decimal_string(self.framerate));
        push_string(&mut arguments, self.filename.clone());
        assert(string_views(arguments@) =~= input + output_arguments(
            self@.framerate,
            self@.filename,
            encoder,
        ));
        arguments
    }

    /// Takes the worker's report `signal`, if one has come, and says whether
    /// the recording has finished.
    pub fn poll(&mut self, signal: Option<ThreadToRecorderSignal>) -> (done: bool)
        ensures
            final(self)@ == old(self)@.polled(signal),
            done == final(self)@.done,
    {
        match signal {
            Some(ThreadToRecorderSignal::Finished) => {
                self.done = true;
            },
            Some(ThreadToRecorderSignal::Ready) => {
                self.ready = true;
            },
            None => {},
        }
        self.done
    }

    /// Whether a frame may be handed to the worker: the worker has not been
    /// told to stop.
    pub fn takes_frames(&self) -> (takes: bool)
        ensures
            takes == self@.can_stop(),
    {
        !self.stop_signal_received
    }

    /// The signal that hands the frame in `buffer` to the worker. No frame
    /// may follow the order to stop.
    pub fn add_frame<B>(&self, buffer: B, resolution: UIntVector2, _timestamp: u64) -> (signal:
        RecorderToThreadSignal<B>)
        requires
            self@.can_stop(),
        ensures
            signal == RecorderToThreadSignal::Frame(buffer, resolution),
    {
        RecorderToThreadSignal::Frame(buffer, resolution)
    }

    /// Tells the worker to stop: gives the signal to send. A recorder can be
    /// told so once.
    pub fn stop<B>(&mut self) -> (signal: RecorderToThreadSignal<B>)
        requires
            old(self)@.can_stop(),
        ensures
            final(self)@ == old(self)@.stopped(),
            signal == RecorderToThreadSignal::<B>::Stop,
    {
        self.stop_signal_received = true;
        RecorderToThreadSignal::Stop
    }
}

/// A recorder that was told to stop cannot be told again, whatever the
/// worker reports in between: the second order is refused.
pub proof fn lemma_stop_only_once(
    recorder: RecorderView,
    reports: Seq<Option<ThreadToRecorderSignal>>,
)
    requires
        recorder.can_stop(),
    ensures
        !after_reports(recorder.stopped(), reports).can_stop(),
    decreases reports.len(),
{
    if reports.len() > 0 {
        lemma_stop_only_once(recorder, reports.drop_last());
    }
}

/// The recorder after the worker's reports `reports`, taken in order.
pub open spec fn after_reports(
    recorder: RecorderView,
    reports: Seq<Option<ThreadToRecorderSignal>>,
) -> RecorderView
    decreases reports.len(),
{
    if reports.len() == 0 {
        recorder
    } else {
        after_reports(recorder, reports.drop_last()).polled(reports.last())
    }
}

/// The worker of a recorder.
#[derive(Debug, Copy, Clone, PartialEq, Eq, Structural)]
pub struct RecorderWorker {
    /// Number of frames written to the encoder.
    pub frame_count: usize,
    /// Whether the order to stop has come.
    pub stopped: bool,
}

/// What the worker does with a signal.
#[derive(Debug, PartialEq, Eq)]
pub enum WorkerAction<B> {
    /// Read the frame from its buffer, write its bytes to the encoder's
    /// input as they are read, and put the scratch space back for the next
    /// frame.
    WriteFrame(B, UIntVector2),
    /// Leave the loop: flush and close the encoder's input, wait for the
    /// encoder to end, and report `Finished`.
    Shutdown,
    /// Nothing: the order to stop has come before.
    Ignore,
}

impl RecorderWorker {
    /// The worker after the signal `signal`.
    pub open spec fn spec_receive<B>(self, signal: RecorderToThreadSignal<B>) -> RecorderWorker {
        if self.stopped {
            self
        } else {
            match signal {
                RecorderToThreadSignal::Stop => RecorderWorker { stopped: true, ..self },
                RecorderToThreadSignal::Frame(_, _) => RecorderWorker {
                    frame_count: if self.frame_count == usize::MAX {
                        self.frame_count
                    } else {
                        (self.frame_count + 1) as usize
                    },
                    ..self
                },
            }
        }
    }

    /// What the worker does with the signal `signal`.
    pub open spec fn spec_action<B>(self, signal: RecorderToThreadSignal<B>) -> WorkerAction<B> {
        if self.stopped {
            WorkerAction::Ignore
        } else {
            match signal {
                RecorderToThreadSignal::Stop => WorkerAction::Shutdown,
                RecorderToThreadSignal::Frame(buffer, resolution) => WorkerAction::WriteFrame(
                    buffer,
                    resolution,
                ),
            }
        }
    }

    /// A worker that has written no frame. It reports `Ready` once the
    /// encoder has been started, and not before.
    pub fn new() -> (worker: RecorderWorker)
        ensures
            worker == (RecorderWorker { frame_count: 0, stopped: false }),
    {
        RecorderWorker { frame_count: 0, stopped: false }
    }

    /// Takes the next signal and says what to do with it. Frames are
    /// written in the order in which they come. The first order to stop
    /// shuts the worker down; what comes after it is ignored.
    pub fn receive<B>(&mut self, signal: RecorderToThreadSignal<B>) -> (action: WorkerAction<B>)
        ensures
            *final(self) == old(self).spec_receive(signal),
            action == old(self).spec_action(signal),
    {
        if self.stopped {
            return WorkerAction::Ignore;
        }
        match signal {
            RecorderToThreadSignal::Stop => {
                self.stopped = true;
                WorkerAction::Shutdown
            },
            RecorderToThreadSignal::Frame(buffer, resolution) => {
                if self.frame_count < usize::MAX {
                    self.frame_count += 1;
                }
                WorkerAction::WriteFrame(buffer, resolution)
            },
        }
    }
}

/// The worker after the signals `signals`, taken in order.
pub open spec fn worker_after<B>(
    worker: RecorderWorker,
    signals: Seq<RecorderToThreadSignal<B>>,
) -> RecorderWorker
    decreases signals.len(),
{
    if signals.len() == 0 {
        worker
    } else {
        worker_after(worker, signals.drop_last()).spec_receive(signals.last())
    }
}

/// A worker shuts down once. After the order to stop it stays stopped,
/// writes no further frame and counts none, whatever signals follow.
pub proof fn lemma_worker_shuts_down_once<B>(
    worker: RecorderWorker,
    signals: Seq<RecorderToThreadSignal<B>>,
    next: RecorderToThreadSignal<B>,
)
    requires
        worker.stopped,
    ensures
        worker_after(worker, signals) == worker,
        worker_after(worker, signals).spec_action(next) == WorkerAction::<B>::Ignore,
    decreases signals.len(),
{
    if signals.len() > 0 {
        lemma_worker_shuts_down_once(worker, signals.drop_last(), signals.last());
    }
}

/// A worker that has not been told to stop writes every frame it is
/// handed, and shuts down upon the order to stop.
pub proof fn lemma_worker_writes_every_frame<B>(
    worker: RecorderWorker,
    buffer: B,
    resolution: UIntVector2,
)
    requires
        !worker.stopped,
    ensures
        worker.spec_action(RecorderToThreadSignal::Frame(buffer, resolution))
            == WorkerAction::WriteFrame(buffer, resolution),
        !worker.spec_receive(RecorderToThreadSignal::Frame(buffer, resolution)).stopped,
        worker.spec_action(RecorderToThreadSignal::<B>::Stop) == WorkerAction::<B>::Shutdown,
        worker.spec_receive(RecorderToThreadSignal::<B>::Stop).stopped,
{
}

} // verus!
