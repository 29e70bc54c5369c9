//! Which GStreamer pipeline is built for a stream, and of what.

use crate::text::{
    contains, occurs_at, occurs_in, parse_number, parsed_number, same_text, slice, starts_with,
};
use crate::video::VideoError;
use vstd::prelude::*;
use vstd::string::{StrSliceExecFns, StringExecFns};

verus! {

pub const VENDOR_NVIDIA: u32 = 0x10DE;

pub const VENDOR_INTEL: u32 = 0x8086;

pub const VENDOR_AMD: u32 = 0x1002;

/// The card that frames are shown on.
#[derive(Debug, PartialEq, Eq)]
pub struct GpuInfo {
    /// Nought where it is to be found out.
    pub vendor_id: u32,
    /// Empty where it is to be found out.
    pub render_node: String,
}

impl GpuInfo {
    /// True where both the vendor and the node are to be found out.
    pub open spec fn is_unknown(self) -> bool {
        self.vendor_id == 0 && self.render_node@.len() == 0
    }

    pub fn unknown() -> (gpu: Self)
        ensures
            gpu.is_unknown(),
    {
        proof {
            reveal_strlit("");
        }
        GpuInfo { vendor_id: 0, render_node: "".to_owned() }
    }
}

/// How frames leave the pipeline.
#[derive(Debug, Clone, Copy, PartialEq, Eq, Structural)]
pub enum PipelineMode {
    /// Shared with the graphics card.
    ZeroCopy,
    CpuCopy,
}

/// Which hardware decoders a pipeline may use.
#[derive(Debug, Clone, Copy, PartialEq, Eq, Structural)]
pub enum DecoderSelectionPolicy {
    PreferVaApi,
    PreferNvidia,
    SoftwareOnly,
}

/// The decoders that use VA-API.
pub open spec fn is_va_api(factory_name: Seq<char>) -> bool {
    ||| factory_name == "vah264dec"@
    ||| factory_name == "vah265dec"@
    ||| factory_name == "vaav1dec"@
    ||| factory_name == "vavp8dec"@
    ||| factory_name == "vavp9dec"@
}

/// The decoders that use NVDEC.
pub open spec fn is_nvidia(factory_name: Seq<char>) -> bool {
    ||| factory_name == "nvh264dec"@
    ||| factory_name == "nvh265dec"@
    ||| factory_name == "nvav1dec"@
    ||| factory_name == "nvvp8dec"@
    ||| factory_name == "nvvp9dec"@
}

impl DecoderSelectionPolicy {
    pub open spec fn passes_over(self, factory_name: Seq<char>) -> bool {
        match self {
            DecoderSelectionPolicy::PreferVaApi => is_nvidia(factory_name),
            DecoderSelectionPolicy::PreferNvidia => is_va_api(factory_name),
            DecoderSelectionPolicy::SoftwareOnly => is_va_api(factory_name) || is_nvidia(
                factory_name,
            ),
        }
    }

    /// True of a decoder that the pipeline passes over.
    pub fn skips(self, factory_name: &str) -> (skipped: bool)
        ensures
            skipped == self.passes_over(factory_name@),
    {
        let va_api: bool = same_text(factory_name, "vah264dec") || same_text(
            factory_name,
            "vah265dec",
        ) || same_text(factory_name, "vaav1dec") || same_text(factory_name, "vavp8dec")
            || same_text(factory_name, "vavp9dec");
        let nvidia: bool = same_text(factory_name, "nvh264dec") || same_text(
            factory_name,
            "nvh265dec",
        ) || same_text(factory_name, "nvav1dec") || same_text(factory_name, "nvvp8dec")
            || same_text(factory_name, "nvvp9dec");
        match self {
            DecoderSelectionPolicy::PreferVaApi => nvidia,
            DecoderSelectionPolicy::PreferNvidia => va_api,
            DecoderSelectionPolicy::SoftwareOnly => va_api || nvidia,
        }
    }
}

/// What the environment asks for.
#[derive(Debug, Clone, Copy, PartialEq, Eq, Structural)]
pub struct DecoderFlags {
    pub force_cpu_copy: bool,
    pub direct_dmabuf: bool,
    pub cpu_http: bool,
    pub force_zero_copy: bool,
    pub no_audio: bool,
    pub pulse_audio: bool,
    pub pipewire_audio: bool,
    pub fake_audio: bool,
}

/// True of a file on this machine, for which nothing is buffered.
pub fn is_local_file(url: &str) -> (local: bool)
    ensures
        local == occurs_at(url@, "file://"@, 0),
{
    starts_with(url, "file://")
}

/// The pipeline that is tried.
#[derive(Debug, Clone, Copy, PartialEq, Eq, Structural)]
pub enum PipelineRoute {
    CpuCopy,
    /// Frames straight from the decoder.
    DirectDmaBuf,
    PlaybinCpu,
    /// Shared frames, or none.
    ZeroCopyOnly,
    /// Shared frames; copies where that fails.
    ZeroCopyOrCpu,
}

/// Chooses the pipeline.
#[verifier::allow_in_spec]
pub fn choose_route(flags: DecoderFlags, local_file: bool) -> PipelineRoute
    returns
        (if flags.force_cpu_copy {
            PipelineRoute::CpuCopy
        } else if flags.direct_dmabuf {
            PipelineRoute::DirectDmaBuf
        } else if flags.cpu_http && !local_file {
            PipelineRoute::PlaybinCpu
        } else if flags.force_zero_copy {
            PipelineRoute::ZeroCopyOnly
        } else {
            PipelineRoute::ZeroCopyOrCpu
        }),
{
    if flags.force_cpu_copy {
        PipelineRoute::CpuCopy
    } else if flags.direct_dmabuf {
        PipelineRoute::DirectDmaBuf
    } else if flags.cpu_http && !local_file {
        PipelineRoute::PlaybinCpu
    } else if flags.force_zero_copy {
        PipelineRoute::ZeroCopyOnly
    } else {
        PipelineRoute::ZeroCopyOrCpu
    }
}

/// The error where neither pipeline could be built.
pub fn both_failed(zero_copy: &VideoError, cpu_copy: &VideoError) -> (error: VideoError)
    ensures
        error is DecoderInit,
        error->DecoderInit_0@ == "Both pipelines failed. Zero-copy: "@ + zero_copy.prefix()
            + zero_copy.detail() + ". CPU copy: "@ + cpu_copy.prefix() + cpu_copy.detail(),
{
    let mut text: String = "Both pipelines failed. Zero-copy: ".to_owned();
    text.append(zero_copy.text().as_str());
    text.append(". CPU copy: ");
    text.append(cpu_copy.text().as_str());
    assert(text@ =~= "Both pipelines failed. Zero-copy: "@ + zero_copy.prefix() + zero_copy.detail()
        + ". CPU copy: "@ + cpu_copy.prefix() + cpu_copy.detail());
    VideoError::DecoderInit(text)
}

/// A pipeline that is built.
#[derive(Debug, Clone, Copy, PartialEq, Eq, Structural)]
pub enum PipelineTry {
    CpuCopy,
    DirectDmaBuf,
    PlaybinCpu,
    ZeroCopy,
}

/// The opening of a decoder: which pipeline is being built, and what went wrong
/// with the one before it.
#[derive(Debug, PartialEq, Eq)]
pub struct DecoderOpening {
    pub route: PipelineRoute,
    pub zero_copy_error: Option<VideoError>,
}

/// What follows from a try to build a pipeline.
#[derive(Debug, PartialEq, Eq)]
pub enum OpeningStep {
    Opened,
    TryNext(DecoderOpening, PipelineTry),
    Failed(VideoError),
}

/// The pipeline that a route begins with.
#[verifier::allow_in_spec]
pub fn first_try(route: PipelineRoute) -> PipelineTry
    returns
        (match route {
            PipelineRoute::CpuCopy => PipelineTry::CpuCopy,
            PipelineRoute::DirectDmaBuf => PipelineTry::DirectDmaBuf,
            PipelineRoute::PlaybinCpu => PipelineTry::PlaybinCpu,
            PipelineRoute::ZeroCopyOnly | PipelineRoute::ZeroCopyOrCpu => PipelineTry::ZeroCopy,
        }),
{
    match route {
        PipelineRoute::CpuCopy => PipelineTry::CpuCopy,
        PipelineRoute::DirectDmaBuf => PipelineTry::DirectDmaBuf,
        PipelineRoute::PlaybinCpu => PipelineTry::PlaybinCpu,
        PipelineRoute::ZeroCopyOnly | PipelineRoute::ZeroCopyOrCpu => PipelineTry::ZeroCopy,
    }
}

impl DecoderOpening {
    /// Begins to open a decoder for a URL.
    pub fn begin(flags: DecoderFlags, url: &str) -> (begun: (Self, PipelineTry))
        ensures
            ({
                let route = choose_route(flags, occurs_at(url@, "file://"@, 0));
                &&& begun.0 == (DecoderOpening { route, zero_copy_error: None })
                &&& begun.1 == first_try(route)
            }),
    {
        let route: PipelineRoute = choose_route(flags, is_local_file(url));
        (DecoderOpening { route, zero_copy_error: None }, first_try(route))
    }

    /// Takes in whether a pipeline could be built. Only where shared frames were
    /// the first choice are copies tried after them, once.
    pub fn tried(self, failure: Option<VideoError>) -> (step: OpeningStep)
        ensures
            match failure {
                None => step == OpeningStep::Opened,
                Some(error) => if self.route != PipelineRoute::ZeroCopyOrCpu {
                    step == OpeningStep::Failed(error)
                } else {
                    match self.zero_copy_error {
                        None => step == OpeningStep::TryNext(
                            DecoderOpening { route: self.route, zero_copy_error: Some(error) },
                            PipelineTry::CpuCopy,
                        ),
                        Some(zero_copy) => {
                            &&& step is Failed
                            &&& step->Failed_0 is DecoderInit
                            &&& step->Failed_0->DecoderInit_0@
                                == "Both pipelines failed. Zero-copy: "@ + zero_copy.prefix()
                                + zero_copy.detail() + ". CPU copy: "@ + error.prefix()
                                + error.detail()
                        },
                    }
                },
            },
    {
        match failure {
            None => OpeningStep::Opened,
            Some(error) => match self.route {
                PipelineRoute::ZeroCopyOrCpu => match self.zero_copy_error {
                    None => OpeningStep::TryNext(
                        DecoderOpening { route: self.route, zero_copy_error: Some(error) },
                        PipelineTry::CpuCopy,
                    ),
                    Some(zero_copy) => OpeningStep::Failed(both_failed(&zero_copy, &error)),
                },
                _ => OpeningStep::Failed(error),
            },
        }
    }
}

/// The element that turns decoded frames into what is wanted.
#[derive(Debug, Clone, Copy, PartialEq, Eq, Structural)]
pub enum Postproc {
    /// Frames go to the sink as they are.
    NoPostproc,
    VaPostproc,
    NvVideoConvert,
    Identity,
    VideoConvert,
}

impl Postproc {
    pub open spec fn named(self) -> Option<Seq<char>> {
        match self {
            Postproc::NoPostproc => None,
            Postproc::VaPostproc => Some("vapostproc"@),
            Postproc::NvVideoConvert => Some("nvvideoconvert"@),
            Postproc::Identity => Some("identity"@),
            Postproc::VideoConvert => Some("videoconvert"@),
        }
    }

    /// The name of the element, where there is one.
    pub fn element(self) -> (name: Option<&'static str>)
        ensures
            match name {
                Some(name) => self.named() == Some(name@),
                None => self.named() is None,
            },
    {
        match self {
            Postproc::NoPostproc => None,
            Postproc::VaPostproc => Some("vapostproc"),
            Postproc::NvVideoConvert => Some("nvvideoconvert"),
            Postproc::Identity => Some("identity"),
            Postproc::VideoConvert => Some("videoconvert"),
        }
    }
}

/// What the sink accepts.
#[derive(Debug, Clone, Copy, PartialEq, Eq, Structural)]
pub enum SinkCaps {
    DmaBuf,
    Nv12,
}

/// How audio is played.
#[derive(Debug, Clone, Copy, PartialEq, Eq, Structural)]
pub enum AudioBranch {
    Disabled,
    /// Straight to the converter.
    Direct,
    /// Through a queue, so that audio cannot hold up video.
    Queued,
}

/// Where audio goes.
#[derive(Debug, Clone, Copy, PartialEq, Eq, Structural)]
pub enum AudioSink {
    Pulse,
    PipeWire,
    /// Nowhere.
    Fake,
    Alsa,
    Auto,
}

impl AudioSink {
    pub open spec fn named(self) -> Seq<char> {
        match self {
            AudioSink::Pulse => "pulsesink"@,
            AudioSink::PipeWire => "pipewiresink"@,
            AudioSink::Fake => "fakesink"@,
            AudioSink::Alsa => "alsasink"@,
            AudioSink::Auto => "autoaudiosink"@,
        }
    }

    /// The name of the element.
    pub fn element(self) -> (name: &'static str)
        ensures
            name@ == self.named(),
    {
        match self {
            AudioSink::Pulse => "pulsesink",
            AudioSink::PipeWire => "pipewiresink",
            AudioSink::Fake => "fakesink",
            AudioSink::Alsa => "alsasink",
            AudioSink::Auto => "autoaudiosink",
        }
    }

    /// True where the sink keeps to the clock, and the pipeline waits for it to be
    /// ready. One that plays nothing does neither.
    #[verifier::allow_in_spec]
    pub fn keeps_to_clock(self) -> bool
        returns
            self != AudioSink::Fake,
    {
        self != AudioSink::Fake
    }
}

/// Chooses where audio goes. ALSA is the default, because it survives seeks.
#[verifier::allow_in_spec]
pub fn choose_audio_sink(flags: DecoderFlags, alsa_available: bool) -> AudioSink
    returns
        (if flags.pulse_audio {
            AudioSink::Pulse
        } else if flags.pipewire_audio {
            AudioSink::PipeWire
        } else if flags.fake_audio {
            AudioSink::Fake
        } else if alsa_available {
            AudioSink::Alsa
        } else {
            AudioSink::Auto
        }),
{
    if flags.pulse_audio {
        AudioSink::Pulse
    } else if flags.pipewire_audio {
        AudioSink::PipeWire
    } else if flags.fake_audio {
        AudioSink::Fake
    } else if alsa_available {
        AudioSink::Alsa
    } else {
        AudioSink::Auto
    }
}

/// A pipeline, described.
#[derive(Debug, PartialEq, Eq)]
pub struct PipelinePlan {
    /// One element that does everything but the sinks.
    pub playbin: bool,
    /// The source buffers what it reads. None where that is left to it.
    pub use_buffering: Option<bool>,
    /// None where the source chooses its decoders by itself.
    pub policy: Option<DecoderSelectionPolicy>,
    pub render_node: Option<String>,
    /// A queue before the post-processing.
    pub video_queue: bool,
    pub postproc: Postproc,
    pub caps: SinkCaps,
    pub audio: AudioBranch,
    pub mode: PipelineMode,
}

/// How much video a queue holds, in nanoseconds.
pub const VIDEO_QUEUE_NANOS: u64 = 3_000_000_000;

/// How much audio a queue holds, in nanoseconds.
pub const AUDIO_QUEUE_NANOS: u64 = 2_000_000_000;

/// How many frames the sink holds.
pub const SINK_BUFFERS: u32 = 2;

/// How much a queue holds; nought is no limit.
#[derive(Debug, Clone, Copy, PartialEq, Eq, Structural)]
pub struct QueueLimits {
    pub buffers: u32,
    pub bytes: u32,
    pub nanos: u64,
}

impl QueueLimits {
    /// A limit on the time alone.
    #[verifier::allow_in_spec]
    pub fn of_nanos(nanos: u64) -> QueueLimits
        returns
            (QueueLimits { buffers: 0, bytes: 0, nanos }),
    {
        QueueLimits { buffers: 0, bytes: 0, nanos }
    }
}

/// How much each part of a pipeline holds.
#[derive(Debug, Clone, Copy, PartialEq, Eq, Structural)]
pub struct PipelineLimits {
    /// None where there is no queue.
    pub video_queue: Option<QueueLimits>,
    pub audio_queue: Option<QueueLimits>,
    pub sink_buffers: u32,
    /// A sink that is full drops its oldest frame; else it makes the pipeline wait.
    pub sink_drops: bool,
}

impl PipelinePlan {
    /// How much each part of the pipeline holds.
    #[verifier::allow_in_spec]
    pub fn limits(&self) -> PipelineLimits
        returns
            (PipelineLimits {
                video_queue: if self.video_queue {
                    Some(QueueLimits::of_nanos(VIDEO_QUEUE_NANOS))
                } else {
                    None::<QueueLimits>
                },
                audio_queue: if self.audio == AudioBranch::Queued {
                    Some(QueueLimits::of_nanos(AUDIO_QUEUE_NANOS))
                } else {
                    None::<QueueLimits>
                },
                sink_buffers: SINK_BUFFERS,
                sink_drops: true,
            }),
    {
        PipelineLimits {
            video_queue: if self.video_queue {
                Some(QueueLimits::of_nanos(VIDEO_QUEUE_NANOS))
            } else {
                None
            },
            audio_queue: if self.audio == AudioBranch::Queued {
                Some(QueueLimits::of_nanos(AUDIO_QUEUE_NANOS))
            } else {
                None
            },
            sink_buffers: SINK_BUFFERS,
            sink_drops: true,
        }
    }

    /// Where the audio of the pipeline goes, if it plays any. One element that does
    /// everything is left to find its own way, whatever is asked for.
    #[verifier::allow_in_spec]
    pub fn audio_sink(&self, flags: DecoderFlags, alsa_available: bool) -> Option<AudioSink>
        returns
            (if self.audio == AudioBranch::Disabled {
                None::<AudioSink>
            } else if self.playbin {
                Some(AudioSink::Auto)
            } else {
                Some(choose_audio_sink(flags, alsa_available))
            }),
    {
        if self.audio == AudioBranch::Disabled {
            None
        } else if self.playbin {
            Some(AudioSink::Auto)
        } else {
            Some(choose_audio_sink(flags, alsa_available))
        }
    }

    /// True where the sink offers to read how a frame lies in memory. Without that
    /// no frame is shared.
    #[verifier::allow_in_spec]
    pub fn offers_video_meta(&self) -> bool
        returns
            self.caps == SinkCaps::DmaBuf,
    {
        self.caps == SinkCaps::DmaBuf
    }
}

/// The pipeline that copies every frame.
pub fn cpu_copy_plan(url: &str) -> (plan: PipelinePlan)
    ensures
        plan == (PipelinePlan {
            playbin: false,
            use_buffering: Some(!occurs_at(url@, "file://"@, 0)),
            policy: Some(DecoderSelectionPolicy::SoftwareOnly),
            render_node: None,
            video_queue: true,
            postproc: Postproc::VideoConvert,
            caps: SinkCaps::Nv12,
            audio: AudioBranch::Direct,
            mode: PipelineMode::CpuCopy,
        }),
        plan.limits() == (PipelineLimits {
            video_queue: Some(QueueLimits { buffers: 0, bytes: 0, nanos: VIDEO_QUEUE_NANOS }),
            audio_queue: None,
            sink_buffers: SINK_BUFFERS,
            sink_drops: true,
        }),
        forall|flags: DecoderFlags, alsa_available: bool| #[trigger]
            plan.audio_sink(flags, alsa_available) == Some(choose_audio_sink(flags, alsa_available)),
        !plan.offers_video_meta(),
{
    PipelinePlan {
        playbin: false,
        use_buffering: Some(!is_local_file(url)),
        policy: Some(DecoderSelectionPolicy::SoftwareOnly),
        render_node: None,
        video_queue: true,
        postproc: Postproc::VideoConvert,
        caps: SinkCaps::Nv12,
        audio: AudioBranch::Direct,
        mode: PipelineMode::CpuCopy,
    }
}

/// The pipeline that copies every frame of a stream from the network.
pub fn playbin_plan() -> (plan: PipelinePlan)
    ensures
        plan == (PipelinePlan {
            playbin: true,
            use_buffering: None,
            policy: None,
            render_node: None,
            video_queue: false,
            postproc: Postproc::VideoConvert,
            caps: SinkCaps::Nv12,
            audio: AudioBranch::Direct,
            mode: PipelineMode::CpuCopy,
        }),
        plan.limits() == (PipelineLimits {
            video_queue: None,
            audio_queue: None,
            sink_buffers: SINK_BUFFERS,
            sink_drops: true,
        }),
        forall|flags: DecoderFlags, alsa_available: bool| #[trigger]
            plan.audio_sink(flags, alsa_available) == Some(AudioSink::Auto),
        !plan.offers_video_meta(),
{
    PipelinePlan {
        playbin: true,
        use_buffering: None,
        policy: None,
        render_node: None,
        video_queue: false,
        postproc: Postproc::VideoConvert,
        caps: SinkCaps::Nv12,
        audio: AudioBranch::Direct,
        mode: PipelineMode::CpuCopy,
    }
}

/// The pipeline that takes frames straight from the decoder.
pub fn direct_dmabuf_plan(url: &str, render_node: Option<String>) -> (plan: PipelinePlan)
    ensures
        plan == (PipelinePlan {
            playbin: false,
            use_buffering: Some(!occurs_at(url@, "file://"@, 0)),
            policy: Some(DecoderSelectionPolicy::PreferVaApi),
            render_node,
            video_queue: false,
            postproc: Postproc::NoPostproc,
            caps: SinkCaps::DmaBuf,
            audio: AudioBranch::Direct,
            mode: PipelineMode::ZeroCopy,
        }),
        plan.limits() == (PipelineLimits {
            video_queue: None,
            audio_queue: None,
            sink_buffers: SINK_BUFFERS,
            sink_drops: true,
        }),
        forall|flags: DecoderFlags, alsa_available: bool| #[trigger]
            plan.audio_sink(flags, alsa_available) == Some(choose_audio_sink(flags, alsa_available)),
        plan.offers_video_meta(),
{
    PipelinePlan {
        playbin: false,
        use_buffering: Some(!is_local_file(url)),
        policy: Some(DecoderSelectionPolicy::PreferVaApi),
        render_node,
        video_queue: false,
        postproc: Postproc::NoPostproc,
        caps: SinkCaps::DmaBuf,
        audio: AudioBranch::Direct,
        mode: PipelineMode::ZeroCopy,
    }
}

/// The vendor that counts: the one given, else the one found.
#[verifier::allow_in_spec]
pub fn effective_vendor(given: u32, found: u32) -> u32
    returns
        (if given != 0 {
            given
        } else {
            found
        }),
{
    if given != 0 {
        given
    } else {
        found
    }
}

/// The render node that counts: the one given, else the one found.
pub fn effective_render_node(gpu: &GpuInfo, found: Option<String>) -> (node: Option<String>)
    ensures
        if gpu.render_node@.len() > 0 {
            node == Some(gpu.render_node)
        } else {
            node == found
        },
{
    if gpu.render_node.as_str().unicode_len() > 0 {
        Some(gpu.render_node.clone())
    } else {
        found
    }
}

/// Why frames cannot be shared on a card, where they cannot.
pub open spec fn zero_copy_refusal(vendor: u32, nvidia_modeset: bool) -> Option<Seq<char>> {
    if vendor == VENDOR_INTEL || vendor == VENDOR_AMD {
        Some(
            "Intel/AMD VA-API produces shared multi-plane DMABuf frames; true multi-planar Vulkan import is not available yet"@,
        )
    } else if vendor == VENDOR_NVIDIA && !nvidia_modeset {
        Some(
            "Compositor GPU is NVIDIA — zero-copy DMABuf not available. Falling back to CPU copy pipeline."@,
        )
    } else {
        None
    }
}

/// The pipeline that shares frames with the graphics card. Intel and AMD frames
/// lie in one piece of memory that cannot be imported; NVIDIA frames can be
/// shared only where the kernel sets the modes.
pub fn zero_copy_plan(
    url: &str,
    vendor: u32,
    render_node: Option<String>,
    nvidia_modeset: bool,
    has_nvvideoconvert: bool,
    flags: DecoderFlags,
) -> (planned: Result<PipelinePlan, VideoError>)
    ensures
        match planned {
            Ok(plan) => zero_copy_refusal(vendor, nvidia_modeset) is None && plan == (
            PipelinePlan {
                playbin: false,
                use_buffering: Some(!occurs_at(url@, "file://"@, 0)),
                policy: Some(
                    if vendor == VENDOR_NVIDIA {
                        DecoderSelectionPolicy::PreferNvidia
                    } else {
                        DecoderSelectionPolicy::PreferVaApi
                    },
                ),
                render_node,
                video_queue: true,
                postproc: if vendor != VENDOR_NVIDIA {
                    Postproc::VaPostproc
                } else if has_nvvideoconvert {
                    Postproc::NvVideoConvert
                } else {
                    Postproc::Identity
                },
                caps: SinkCaps::DmaBuf,
                audio: if vendor != VENDOR_NVIDIA && flags.no_audio {
                    AudioBranch::Disabled
                } else {
                    AudioBranch::Queued
                },
                mode: PipelineMode::ZeroCopy,
            }),
            Err(error) => error is DecoderInit && zero_copy_refusal(vendor, nvidia_modeset) == Some(
                error->DecoderInit_0@,
            ),
        },
        planned matches Ok(plan) ==> {
            let heard = vendor == VENDOR_NVIDIA || !flags.no_audio;
            &&& plan.limits() == (PipelineLimits {
                video_queue: Some(
                    QueueLimits { buffers: 0, bytes: 0, nanos: VIDEO_QUEUE_NANOS },
                ),
                audio_queue: if heard {
                    Some(QueueLimits { buffers: 0, bytes: 0, nanos: AUDIO_QUEUE_NANOS })
                } else {
                    None
                },
                sink_buffers: SINK_BUFFERS,
                sink_drops: true,
            })
            &&& forall|asked: DecoderFlags, alsa_available: bool| #[trigger]
                plan.audio_sink(asked, alsa_available) == (if heard {
                    Some(choose_audio_sink(asked, alsa_available))
                } else {
                    None
                })
            &&& plan.offers_video_meta()
        },
{
    if vendor == VENDOR_INTEL || vendor == VENDOR_AMD {
        return Err(
            VideoError::DecoderInit(
                "Intel/AMD VA-API produces shared multi-plane DMABuf frames; true multi-planar Vulkan import is not available yet".to_owned(),
            ),
        );
    }
    if vendor == VENDOR_NVIDIA {
        if !nvidia_modeset {
            return Err(
                VideoError::DecoderInit(
                    "Compositor GPU is NVIDIA — zero-copy DMABuf not available. Falling back to CPU copy pipeline.".to_owned(),
                ),
            );
        }
        return Ok(
            PipelinePlan {
                playbin: false,
                use_buffering: Some(!is_local_file(url)),
                policy: Some(DecoderSelectionPolicy::PreferNvidia),
                render_node,
                video_queue: true,
                postproc: if has_nvvideoconvert {
                    Postproc::NvVideoConvert
                } else {
                    Postproc::Identity
                },
                caps: SinkCaps::DmaBuf,
                audio: AudioBranch::Queued,
                mode: PipelineMode::ZeroCopy,
            },
        );
    }
    Ok(
        PipelinePlan {
            playbin: false,
            use_buffering: Some(!is_local_file(url)),
            policy: Some(DecoderSelectionPolicy::PreferVaApi),
            render_node,
            video_queue: true,
            postproc: Postproc::VaPostproc,
            caps: SinkCaps::DmaBuf,
            audio: if flags.no_audio {
                AudioBranch::Disabled
            } else {
                AudioBranch::Queued
            },
            mode: PipelineMode::ZeroCopy,
        },
    )
}

/// The property of an element that takes the path of a device.
#[derive(Debug, Clone, Copy, PartialEq, Eq, Structural)]
pub struct ElementProperty {
    pub exists: bool,
    pub is_text: bool,
    pub writable: bool,
}

impl ElementProperty {
    #[verifier::allow_in_spec]
    pub fn takes_path(self) -> bool
        returns
            self.exists && self.is_text && self.writable,
    {
        self.exists && self.is_text && self.writable
    }
}

/// Which of the names that plugins have used for the device is set: the first
/// that is there and takes a text.
pub fn render_node_property(properties: &[ElementProperty]) -> (index: Option<usize>)
    ensures
        match index {
            Some(i) => {
                &&& i < properties@.len()
                &&& properties@[i as int].takes_path()
                &&& forall|k: int| 0 <= k < i ==> !#[trigger] properties@[k].takes_path()
            },
            None => forall|k: int|
                0 <= k < properties@.len() ==> !#[trigger] properties@[k].takes_path(),
        },
{
    let mut i: usize = 0;
    while i < properties.len()
        invariant
            i <= properties@.len(),
            forall|k: int| 0 <= k < i ==> !#[trigger] properties@[k].takes_path(),
        decreases properties@.len() - i,
    {
        if properties[i].takes_path() {
            return Some(i);
        }
        i = i + 1;
    }
    None
}

/// Where a stream that the source offers goes.
#[derive(Debug, Clone, Copy, PartialEq, Eq, Structural)]
pub enum PadRoute {
    Video,
    Audio,
    Ignore,
}

/// Routes a stream by the name of its type. Each branch takes one stream only.
pub fn route_pad(
    name: &str,
    audio_enabled: bool,
    video_linked: bool,
    audio_linked: bool,
) -> (route: PadRoute)
    ensures
        route == (if occurs_at(name@, "video/"@, 0) {
            if video_linked {
                PadRoute::Ignore
            } else {
                PadRoute::Video
            }
        } else if occurs_at(name@, "audio/"@, 0) && audio_enabled && !audio_linked {
            PadRoute::Audio
        } else {
            PadRoute::Ignore
        }),
{
    if starts_with(name, "video/") {
        if video_linked {
            PadRoute::Ignore
        } else {
            PadRoute::Video
        }
    } else if starts_with(name, "audio/") && audio_enabled && !audio_linked {
        PadRoute::Audio
    } else {
        PadRoute::Ignore
    }
}

/// Routes a stream of a decoder whose frames go straight to the sink. The whole
/// description of the stream is looked at, and the first audio stream counts even
/// where it cannot be linked.
pub fn route_direct_pad(
    caps: &str,
    video_linked: bool,
    audio_seen: bool,
    audio_linked: bool,
) -> (route: PadRoute)
    ensures
        route == (if occurs_in(caps@, "video/"@) {
            if video_linked {
                PadRoute::Ignore
            } else {
                PadRoute::Video
            }
        } else if occurs_in(caps@, "audio/"@) && !audio_seen && !audio_linked {
            PadRoute::Audio
        } else {
            PadRoute::Ignore
        }),
{
    if contains(caps, "video/") {
        if video_linked {
            PadRoute::Ignore
        } else {
            PadRoute::Video
        }
    } else if contains(caps, "audio/") && !audio_seen && !audio_linked {
        PadRoute::Audio
    } else {
        PadRoute::Ignore
    }
}

/// A text without the `0x` that may stand before it, once or more often.
pub open spec fn without_hex_prefix(text: Seq<char>) -> Seq<char>
    decreases text.len(),
{
    if text.len() >= 2 && text[0] == '0' && text[1] == 'x' {
        without_hex_prefix(text.skip(2))
    } else {
        text
    }
}

/// What is left of a text from a place on loses its prefix in one step, or has none.
proof fn lemma_hex_prefix_step(text: Seq<char>, from: int)
    requires
        0 <= from <= text.len(),
    ensures
        from + 2 <= text.len() && text[from] == '0' && text[from + 1] == 'x'
            ==> without_hex_prefix(text.skip(from)) == without_hex_prefix(text.skip(from + 2)),
        !(from + 2 <= text.len() && text[from] == '0' && text[from + 1] == 'x')
            ==> without_hex_prefix(text.skip(from)) == text.skip(from),
{
    if from + 2 <= text.len() {
        assert(text.skip(from).skip(2) =~= text.skip(from + 2));
        assert(text.skip(from)[0] == text[from]);
        assert(text.skip(from)[1] == text[from + 1]);
    }
}

/// The vendor that a text names in hexadecimal; nought where it names none.
#[verifier::spinoff_prover]
pub fn parse_vendor(text: &str) -> (vendor: u32)
    ensures
        vendor == (match parsed_number(without_hex_prefix(text@), 16) {
            Some(number) if number <= u32::MAX => number as u32,
            _ => 0,
        }),
{
    let len: usize = text.unicode_len();
    let mut from: usize = 0;
    assert(text@.skip(0) =~= text@);
    while len - from >= 2 && text.get_char(from) == '0' && text.get_char(from + 1) == 'x'
        invariant
            from <= len,
            len == text@.len(),
            without_hex_prefix(text@) == without_hex_prefix(text@.skip(from as int)),
        decreases len - from,
    {
        proof {
            lemma_hex_prefix_step(text@, from as int);
        }
        from = from + 2;
    }
    proof {
        lemma_hex_prefix_step(text@, from as int);
    }
    let digits: String = slice(text, from, len);
    assert(digits@ =~= text@.skip(from as int));
    match parse_number(digits.as_str(), 16) {
        Some(number) => if number <= u32::MAX as u64 {
            number as u32
        } else {
            0
        },
        None => 0,
    }
}

/// A render node and the displays connected to its card.
#[derive(Debug, PartialEq, Eq)]
pub struct RenderNode {
    pub path: String,
    pub connected: u32,
}

/// The render node where nothing better is found.
pub open spec fn default_render_node() -> Seq<char> {
    "/dev/dri/renderD128"@
}

/// True of the first of the nodes that have the most displays.
pub open spec fn is_best_node(nodes: Seq<RenderNode>, i: int) -> bool {
    &&& 0 <= i < nodes.len()
    &&& nodes[i].connected > 0
    &&& forall|k: int| 0 <= k < i ==> (#[trigger] nodes[k]).connected < nodes[i].connected
    &&& forall|k: int|
        i <= k < nodes.len() ==> (#[trigger] nodes[k]).connected <= nodes[i].connected
}

/// Chooses the node that drives the displays.
pub fn compositor_render_node(nodes: &[RenderNode]) -> (path: String)
    ensures
        if exists|i: int| is_best_node(nodes@, i) {
            exists|i: int| #[trigger] is_best_node(nodes@, i) && path@ == nodes@[i].path@
        } else {
            path@ == default_render_node()
        },
        (forall|k: int| 0 <= k < nodes@.len() ==> (#[trigger] nodes@[k]).connected == 0)
            ==> path@ == default_render_node(),
{
    let mut best: usize = 0;
    let mut best_connected: u32 = 0;
    let mut i: usize = 0;
    while i < nodes.len()
        invariant
            i <= nodes@.len(),
            best_connected == 0 ==> forall|k: int|
                0 <= k < i ==> (#[trigger] nodes@[k]).connected == 0,
            best_connected > 0 ==> {
                &&& best < i
                &&& nodes@[best as int].connected == best_connected
                &&& forall|k: int|
                    0 <= k < best ==> (#[trigger] nodes@[k]).connected < best_connected
                &&& forall|k: int|
                    best <= k < i ==> (#[trigger] nodes@[k]).connected <= best_connected
            },
        decreases nodes@.len() - i,
    {
        if nodes[i].connected > best_connected {
            best_connected = nodes[i].connected;
            best = i;
        }
        i = i + 1;
    }
    if best_connected > 0 {
        assert(is_best_node(nodes@, best as int));
        nodes[best].path.clone()
    } else {
        "/dev/dri/renderD128".to_owned()
    }
}

/// True of the name of a connector that a display can be plugged into.
pub fn is_display_connector(name: &str) -> (found: bool)
    ensures
        found == (occurs_at(name@, "DP-"@, 0) || occurs_at(name@, "HDMI-"@, 0) || occurs_at(
            name@,
            "eDP-"@,
            0,
        ) || occurs_at(name@, "LVDS-"@, 0) || occurs_at(name@, "VGA-"@, 0) || occurs_at(
            name@,
            "DVI-"@,
            0,
        )),
{
    starts_with(name, "DP-") || starts_with(name, "HDMI-") || starts_with(name, "eDP-")
        || starts_with(name, "LVDS-") || starts_with(name, "VGA-") || starts_with(name, "DVI-")
}

/// The decoder that the name of an element belongs to.
pub open spec fn codec_of(name: Seq<char>) -> Option<Seq<char>> {
    if occurs_in(name, "vah264"@) || occurs_in(name, "vaapih264"@) {
        Some("H.264 (VA-API)"@)
    } else if occurs_in(name, "vah265"@) || occurs_in(name, "vaapih265"@) {
        Some("H.265/HEVC (VA-API)"@)
    } else if occurs_in(name, "vavp9"@) || occurs_in(name, "vaapivp9"@) {
        Some("VP9 (VA-API)"@)
    } else if occurs_in(name, "vavp8"@) || occurs_in(name, "vaapivp8"@) {
        Some("VP8 (VA-API)"@)
    } else if occurs_in(name, "vaav1"@) || occurs_in(name, "vaapiav1"@) {
        Some("AV1 (VA-API)"@)
    } else if occurs_in(name, "avdec_h264"@) {
        Some("H.264 (FFmpeg)"@)
    } else if occurs_in(name, "avdec_h265"@) || occurs_in(name, "avdec_hevc"@) {
        Some("H.265/HEVC (FFmpeg)"@)
    } else if occurs_in(name, "avdec_vp9"@) {
        Some("VP9 (FFmpeg)"@)
    } else if occurs_in(name, "avdec_vp8"@) {
        Some("VP8 (FFmpeg)"@)
    } else if occurs_in(name, "avdec_av1"@) {
        Some("AV1 (FFmpeg)"@)
    } else if occurs_in(name, "openh264"@) {
        Some("H.264 (OpenH264)"@)
    } else {
        None
    }
}

fn codec_text(name: &str) -> (codec: Option<&'static str>)
    ensures
        match codec {
            Some(codec) => codec_of(name@) == Some(codec@),
            None => codec_of(name@) is None,
        },
{
    if contains(name, "vah264") || contains(name, "vaapih264") {
        Some("H.264 (VA-API)")
    } else if contains(name, "vah265") || contains(name, "vaapih265") {
        Some("H.265/HEVC (VA-API)")
    } else if contains(name, "vavp9") || contains(name, "vaapivp9") {
        Some("VP9 (VA-API)")
    } else if contains(name, "vavp8") || contains(name, "vaapivp8") {
        Some("VP8 (VA-API)")
    } else if contains(name, "vaav1") || contains(name, "vaapiav1") {
        Some("AV1 (VA-API)")
    } else if contains(name, "avdec_h264") {
        Some("H.264 (FFmpeg)")
    } else if contains(name, "avdec_h265") || contains(name, "avdec_hevc") {
        Some("H.265/HEVC (FFmpeg)")
    } else if contains(name, "avdec_vp9") {
        Some("VP9 (FFmpeg)")
    } else if contains(name, "avdec_vp8") {
        Some("VP8 (FFmpeg)")
    } else if contains(name, "avdec_av1") {
        Some("AV1 (FFmpeg)")
    } else if contains(name, "openh264") {
        Some("H.264 (OpenH264)")
    } else {
        None
    }
}

/// True of the first element of a pipeline that is a known decoder.
pub open spec fn is_first_decoder(names: Seq<String>, i: int) -> bool {
    &&& 0 <= i < names.len()
    &&& codec_of(names[i]@) is Some
    &&& forall|k: int| 0 <= k < i ==> codec_of(#[trigger] names[k]@) is None
}

/// True of the codec of a pipeline: that of the first of its elements that tells;
/// H.264, the most common one, where none does.
pub open spec fn is_codec_name(names: Seq<String>, codec: Seq<char>) -> bool {
    ||| exists|i: int| #[trigger]
        is_first_decoder(names, i) && codec_of(names[i]@) == Some(codec)
    ||| {
        &&& forall|k: int| 0 <= k < names.len() ==> codec_of(#[trigger] names[k]@) is None
        &&& codec == "H.264"@
    }
}

/// Finds the codec of a pipeline by the names of its elements.
pub fn extract_codec_name(names: &[String]) -> (codec: String)
    ensures
        is_codec_name(names@, codec@),
{
    let mut i: usize = 0;
    while i < names.len()
        invariant
            i <= names@.len(),
            forall|k: int| 0 <= k < i ==> codec_of(#[trigger] names@[k]@) is None,
        decreases names@.len() - i,
    {
        if let Some(codec) = codec_text(names[i].as_str()) {
            assert(is_first_decoder(names@, i as int));
            return codec.to_owned();
        }
        i = i + 1;
    }
    "H.264".to_owned()
}

/// A decoder is passed over only for the hardware that it uses: a software
/// decoder never is.
pub proof fn law_policies_spare_software(policy: DecoderSelectionPolicy, name: Seq<char>)
    requires
        !is_va_api(name),
        !is_nvidia(name),
    ensures
        !policy.passes_over(name),
{
}

/// The two hardware families are kept apart: a policy that prefers one passes
/// over exactly the decoders of the other.
pub proof fn law_preferred_family_is_used(name: Seq<char>)
    ensures
        is_va_api(name) ==> !DecoderSelectionPolicy::PreferVaApi.passes_over(name)
            && DecoderSelectionPolicy::PreferNvidia.passes_over(name),
        is_nvidia(name) ==> !DecoderSelectionPolicy::PreferNvidia.passes_over(name)
            && DecoderSelectionPolicy::PreferVaApi.passes_over(name),
{
    reveal_strlit("vah264dec");
    reveal_strlit("vah265dec");
    reveal_strlit("vaav1dec");
    reveal_strlit("vavp8dec");
    reveal_strlit("vavp9dec");
    reveal_strlit("nvh264dec");
    reveal_strlit("nvh265dec");
    reveal_strlit("nvav1dec");
    reveal_strlit("nvvp8dec");
    reveal_strlit("nvvp9dec");
    assert(is_va_api(name) ==> name[0] == 'v');
    assert(is_nvidia(name) ==> name[0] == 'n');
}

/// A name is told by the decoder that it holds: those that use VA-API and those of FFmpeg
/// apart, each with its codec.
pub proof fn law_codecs_are_told_by_name(name: Seq<char>)
    ensures
        occurs_in(name, "vah264"@) ==> codec_of(name) == Some("H.264 (VA-API)"@),
        codec_of(name) == Some("AV1 (FFmpeg)"@) ==> occurs_in(name, "avdec_av1"@),
        codec_of(name) is None ==> !occurs_in(name, "avdec_h264"@) && !occurs_in(
            name,
            "avdec_hevc"@,
        ) && !occurs_in(name, "avdec_vp9"@) && !occurs_in(name, "avdec_vp8"@) && !occurs_in(
            name,
            "vah265"@,
        ) && !occurs_in(name, "vavp9"@) && !occurs_in(name, "vaav1"@) && !occurs_in(
            name,
            "openh264"@,
        ),
{
    reveal_strlit("H.264 (VA-API)");
    reveal_strlit("H.265/HEVC (VA-API)");
    reveal_strlit("VP9 (VA-API)");
    reveal_strlit("VP8 (VA-API)");
    reveal_strlit("AV1 (VA-API)");
    reveal_strlit("H.264 (FFmpeg)");
    reveal_strlit("H.265/HEVC (FFmpeg)");
    reveal_strlit("VP9 (FFmpeg)");
    reveal_strlit("VP8 (FFmpeg)");
    reveal_strlit("AV1 (FFmpeg)");
    reveal_strlit("H.264 (OpenH264)");
    let av1 = "AV1 (FFmpeg)"@;
    assert(av1[0] == 'A' && av1[5] == 'F');
    assert("AV1 (VA-API)"@[5] == 'V');
    assert("H.264 (VA-API)"@[0] == 'H');
    assert("H.265/HEVC (VA-API)"@[0] == 'H');
    assert("VP9 (VA-API)"@[0] == 'V');
    assert("VP8 (VA-API)"@[0] == 'V');
    assert("H.264 (FFmpeg)"@[0] == 'H');
    assert("H.265/HEVC (FFmpeg)"@[0] == 'H');
    assert("VP9 (FFmpeg)"@[0] == 'V');
    assert("VP8 (FFmpeg)"@[0] == 'V');
    assert("H.264 (OpenH264)"@[0] == 'H');
}

/// The codec of a pipeline is that of the first of its elements that tells, whatever comes
/// after it.
pub proof fn law_first_decoder_names_the_codec(names: Seq<String>, codec: Seq<char>, i: int)
    requires
        is_codec_name(names, codec),
        0 <= i < names.len(),
        codec_of(names[i]@) is Some,
        forall|k: int| 0 <= k < i ==> codec_of(#[trigger] names[k]@) is None,
    ensures
        codec_of(names[i]@) == Some(codec),
{
    assert(codec_of(names[i]@) is Some);
    let j = choose|j: int| #[trigger]
        is_first_decoder(names, j) && codec_of(names[j]@) == Some(codec);
    if j < i {
        assert(codec_of(names[j]@) is None);
    } else if i < j {
        assert(codec_of(names[i]@) is None);
    }
}

/// A vendor may be written with or without the `0x` before it.
pub proof fn law_hex_prefix_does_not_count(digits: Seq<char>)
    ensures
        without_hex_prefix(seq!['0', 'x'] + digits) == without_hex_prefix(digits),
        digits.len() < 2 || digits[0] != '0' || digits[1] != 'x' ==> without_hex_prefix(digits)
            == digits,
{
    assert((seq!['0', 'x'] + digits).skip(2) =~= digits);
}

/// Queues are bounded by time alone, three seconds of video and two of audio; the sink holds
/// two frames and drops the oldest.
pub proof fn law_queues_are_bounded_by_time(plan: PipelinePlan)
    ensures
        plan.limits().video_queue is Some <==> plan.video_queue,
        plan.limits().audio_queue is Some <==> plan.audio == AudioBranch::Queued,
        plan.limits().video_queue matches Some(queue) ==> queue.nanos == 3_000_000_000
            && queue.buffers == 0 && queue.bytes == 0,
        plan.limits().audio_queue matches Some(queue) ==> queue.nanos == 2_000_000_000
            && queue.buffers == 0 && queue.bytes == 0,
        plan.limits().sink_buffers == 2,
        plan.limits().sink_drops,
{
}

/// A pipeline without audio plays none; one element that does everything finds its own way;
/// any other goes where it was asked to.
pub proof fn law_audio_follows_the_plan(plan: PipelinePlan, flags: DecoderFlags, alsa: bool)
    ensures
        plan.audio_sink(flags, alsa) is None <==> plan.audio == AudioBranch::Disabled,
        plan.audio != AudioBranch::Disabled && plan.playbin ==> plan.audio_sink(flags, alsa)
            == Some(AudioSink::Auto),
        plan.audio != AudioBranch::Disabled && !plan.playbin && flags.pulse_audio
            ==> plan.audio_sink(flags, alsa) == Some(AudioSink::Pulse),
        plan.offers_video_meta() <==> plan.caps == SinkCaps::DmaBuf,
        forall|found: u32| #[trigger] effective_vendor(0, found) == found,
        forall|given: u32, found: u32|
            given != 0 ==> #[trigger] effective_vendor(given, found) == given,
{
}

} // verus!
