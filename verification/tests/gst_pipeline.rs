use lumina_video::gst_pipeline::{
    both_failed, choose_audio_sink, choose_route, compositor_render_node, cpu_copy_plan,
    direct_dmabuf_plan, effective_render_node, effective_vendor, extract_codec_name,
    is_display_connector, is_local_file, parse_vendor, playbin_plan, render_node_property,
    route_direct_pad, route_pad, zero_copy_plan, AudioBranch, AudioSink, DecoderFlags,
    DecoderOpening, DecoderSelectionPolicy, ElementProperty, GpuInfo, OpeningStep, PadRoute,
    PipelineLimits, PipelineMode, PipelineRoute, PipelineTry, Postproc, QueueLimits, RenderNode,
    SinkCaps, VENDOR_AMD, VENDOR_INTEL, VENDOR_NVIDIA,
};
use lumina_video::video::VideoError;

const FLAGS: DecoderFlags = DecoderFlags {
    force_cpu_copy: false,
    direct_dmabuf: false,
    cpu_http: false,
    force_zero_copy: false,
    no_audio: false,
    pulse_audio: false,
    pipewire_audio: false,
    fake_audio: false,
};

#[test]
fn va_policy_rejects_only_nvidia_hardware_decoders() {
    let policy = DecoderSelectionPolicy::PreferVaApi;
    assert!(policy.skips("nvh264dec"));
    assert!(policy.skips("nvav1dec"));
    assert!(!policy.skips("vah264dec"));
    assert!(!policy.skips("avdec_h264"));
}

#[test]
fn nvidia_policy_rejects_only_va_hardware_decoders() {
    let policy = DecoderSelectionPolicy::PreferNvidia;
    assert!(policy.skips("vah265dec"));
    assert!(policy.skips("vavp9dec"));
    assert!(!policy.skips("nvh265dec"));
    assert!(!policy.skips("avdec_h265"));
}

#[test]
fn software_policy_rejects_supported_hardware_decoder_families() {
    let policy = DecoderSelectionPolicy::SoftwareOnly;
    for factory in [
        "vah264dec",
        "vah265dec",
        "vaav1dec",
        "vavp8dec",
        "vavp9dec",
        "nvh264dec",
        "nvh265dec",
        "nvav1dec",
        "nvvp8dec",
        "nvvp9dec",
    ] {
        assert!(policy.skips(factory), "{} should be skipped", factory);
    }
    assert!(!policy.skips("avdec_h264"));
    assert!(!policy.skips("dav1ddec"));
}

#[test]
fn routes_follow_the_environment() {
    let all = DecoderFlags {
        force_cpu_copy: true,
        direct_dmabuf: true,
        cpu_http: true,
        force_zero_copy: true,
        ..FLAGS
    };
    assert_eq!(choose_route(all, false), PipelineRoute::CpuCopy);
    let direct = DecoderFlags { force_cpu_copy: false, ..all };
    assert_eq!(choose_route(direct, false), PipelineRoute::DirectDmaBuf);
    let http = DecoderFlags { direct_dmabuf: false, ..direct };
    assert_eq!(choose_route(http, false), PipelineRoute::PlaybinCpu);
    assert_eq!(choose_route(http, true), PipelineRoute::ZeroCopyOnly);
    assert_eq!(choose_route(FLAGS, true), PipelineRoute::ZeroCopyOrCpu);
    assert!(is_local_file("file:///a"));
    assert!(!is_local_file("https://file://"));
}

#[test]
fn both_errors_are_reported() {
    let error = both_failed(
        &VideoError::DecoderInit("no card".into()),
        &VideoError::OpenFailed("no file".into()),
    );
    assert_eq!(
        error,
        VideoError::DecoderInit(format!(
            "Both pipelines failed. Zero-copy: {}. CPU copy: {}",
            VideoError::DecoderInit("no card".into()).text(),
            VideoError::OpenFailed("no file".into()).text()
        ))
    );
}

#[test]
fn copies_are_tried_after_shared_frames() {
    let (opening, first) = DecoderOpening::begin(FLAGS, "http://a");
    assert_eq!(first, PipelineTry::ZeroCopy);
    let refused = VideoError::DecoderInit("no card".into());
    let OpeningStep::TryNext(opening, second) = opening.tried(Some(refused.clone())) else {
        panic!("no second try");
    };
    assert_eq!(second, PipelineTry::CpuCopy);
    let failed = VideoError::OpenFailed("no file".into());
    assert_eq!(
        opening.tried(Some(failed.clone())),
        OpeningStep::Failed(both_failed(&refused, &failed))
    );
    let (opening, _) = DecoderOpening::begin(FLAGS, "http://a");
    assert_eq!(opening.tried(None), OpeningStep::Opened);
    let forced = DecoderFlags { force_zero_copy: true, ..FLAGS };
    let (opening, _) = DecoderOpening::begin(forced, "http://a");
    assert_eq!(opening.tried(Some(refused.clone())), OpeningStep::Failed(refused));
}

#[test]
fn alsa_is_the_default_sink() {
    assert_eq!(choose_audio_sink(FLAGS, true), AudioSink::Alsa);
    assert_eq!(choose_audio_sink(FLAGS, false), AudioSink::Auto);
    let fake = DecoderFlags { fake_audio: true, ..FLAGS };
    assert_eq!(choose_audio_sink(fake, true), AudioSink::Fake);
    let pipewire = DecoderFlags { pipewire_audio: true, ..fake };
    assert_eq!(choose_audio_sink(pipewire, true), AudioSink::PipeWire);
    let pulse = DecoderFlags { pulse_audio: true, ..pipewire };
    assert_eq!(choose_audio_sink(pulse, true), AudioSink::Pulse);
}

#[test]
fn queues_hold_seconds_and_the_sink_two_frames() {
    let video = QueueLimits { buffers: 0, bytes: 0, nanos: 3_000_000_000 };
    let audio = QueueLimits { buffers: 0, bytes: 0, nanos: 2_000_000_000 };
    let limits = |video_queue, audio_queue| PipelineLimits {
        video_queue,
        audio_queue,
        sink_buffers: 2,
        sink_drops: true,
    };
    assert_eq!(cpu_copy_plan("http://a").limits(), limits(Some(video), None));
    assert_eq!(playbin_plan().limits(), limits(None, None));
    assert_eq!(direct_dmabuf_plan("http://a", None).limits(), limits(None, None));
    let shared = zero_copy_plan("http://a", VENDOR_NVIDIA, None, true, true, FLAGS).unwrap();
    assert_eq!(shared.limits(), limits(Some(video), Some(audio)));
    let silent = DecoderFlags { no_audio: true, ..FLAGS };
    let mute = zero_copy_plan("http://a", 1, None, false, false, silent).unwrap();
    assert_eq!(mute.limits(), limits(Some(video), None));
    assert_eq!(mute.audio_sink(FLAGS, true), None);
    assert_eq!(shared.audio_sink(FLAGS, true), Some(AudioSink::Alsa));
    assert_eq!(cpu_copy_plan("http://a").audio_sink(FLAGS, false), Some(AudioSink::Auto));
    let pulse = DecoderFlags { pulse_audio: true, ..FLAGS };
    assert_eq!(playbin_plan().audio_sink(pulse, true), Some(AudioSink::Auto));
    assert!(shared.offers_video_meta() && !playbin_plan().offers_video_meta());
}

#[test]
fn elements_have_names() {
    assert_eq!(AudioSink::Pulse.element(), "pulsesink");
    assert_eq!(AudioSink::PipeWire.element(), "pipewiresink");
    assert_eq!(AudioSink::Fake.element(), "fakesink");
    assert_eq!(AudioSink::Alsa.element(), "alsasink");
    assert_eq!(AudioSink::Auto.element(), "autoaudiosink");
    assert!(AudioSink::Alsa.keeps_to_clock() && !AudioSink::Fake.keeps_to_clock());
    assert_eq!(Postproc::NoPostproc.element(), None);
    assert_eq!(Postproc::VaPostproc.element(), Some("vapostproc"));
    assert_eq!(Postproc::NvVideoConvert.element(), Some("nvvideoconvert"));
    assert_eq!(Postproc::Identity.element(), Some("identity"));
    assert_eq!(Postproc::VideoConvert.element(), Some("videoconvert"));
}

#[test]
fn copying_pipelines_decode_in_software() {
    let plan = cpu_copy_plan("file:///a.mp4");
    assert_eq!(plan.policy, Some(DecoderSelectionPolicy::SoftwareOnly));
    assert_eq!(plan.mode, PipelineMode::CpuCopy);
    assert_eq!(plan.caps, SinkCaps::Nv12);
    assert_eq!(plan.use_buffering, Some(false));
    assert_eq!(cpu_copy_plan("http://a/b.mp4").use_buffering, Some(true));
    assert!(playbin_plan().playbin);
    assert_eq!(playbin_plan().policy, None);
    assert_eq!(playbin_plan().use_buffering, None);
}

#[test]
fn direct_frames_are_not_processed() {
    let plan = direct_dmabuf_plan("http://a", Some("/dev/dri/renderD129".into()));
    assert_eq!(plan.postproc, Postproc::NoPostproc);
    assert_eq!(plan.render_node.as_deref(), Some("/dev/dri/renderD129"));
    assert_eq!(plan.mode, PipelineMode::ZeroCopy);
}

#[test]
fn sharing_depends_on_the_card() {
    for vendor in [VENDOR_INTEL, VENDOR_AMD] {
        let refused = zero_copy_plan("http://a", vendor, None, true, true, FLAGS);
        assert!(matches!(refused, Err(VideoError::DecoderInit(message)) if message
            == "Intel/AMD VA-API produces shared multi-plane DMABuf frames; true multi-planar Vulkan import is not available yet"));
    }
    let refused = zero_copy_plan("http://a", VENDOR_NVIDIA, None, false, true, FLAGS);
    assert!(matches!(refused, Err(VideoError::DecoderInit(message))
        if message.starts_with("Compositor GPU is NVIDIA")));
    let nvidia = zero_copy_plan("http://a", VENDOR_NVIDIA, None, true, true, FLAGS).unwrap();
    assert_eq!(nvidia.postproc, Postproc::NvVideoConvert);
    assert_eq!(nvidia.policy, Some(DecoderSelectionPolicy::PreferNvidia));
    let plain = zero_copy_plan("http://a", VENDOR_NVIDIA, None, true, false, FLAGS).unwrap();
    assert_eq!(plain.postproc, Postproc::Identity);
    let silent = DecoderFlags { no_audio: true, ..FLAGS };
    let other = zero_copy_plan("file:///a", 1, None, false, false, silent).unwrap();
    assert_eq!(other.audio, AudioBranch::Disabled);
    assert_eq!(other.postproc, Postproc::VaPostproc);
    let heard = zero_copy_plan("file:///a", VENDOR_NVIDIA, None, true, false, silent).unwrap();
    assert_eq!(heard.audio, AudioBranch::Queued);
}

#[test]
fn given_facts_outrank_found_ones() {
    assert_eq!(effective_vendor(VENDOR_AMD, VENDOR_INTEL), VENDOR_AMD);
    assert_eq!(effective_vendor(0, VENDOR_INTEL), VENDOR_INTEL);
    let gpu = GpuInfo { vendor_id: 0, render_node: "/dev/a".into() };
    assert_eq!(effective_render_node(&gpu, Some("/dev/b".into())).as_deref(), Some("/dev/a"));
    let unknown = GpuInfo { vendor_id: 0, render_node: String::new() };
    assert_eq!(effective_render_node(&unknown, Some("/dev/b".into())).as_deref(), Some("/dev/b"));
    assert_eq!(effective_render_node(&unknown, None), None);
}

#[test]
fn the_first_property_that_takes_a_path_is_set() {
    let property = |exists, is_text, writable| ElementProperty { exists, is_text, writable };
    let properties = [
        property(false, true, true),
        property(true, false, true),
        property(true, true, false),
        property(true, true, true),
        property(true, true, true),
    ];
    assert_eq!(render_node_property(&properties), Some(3));
    assert_eq!(render_node_property(&properties[..3]), None);
}

#[test]
fn each_branch_takes_one_stream() {
    assert_eq!(route_pad("video/x-raw", true, false, false), PadRoute::Video);
    assert_eq!(route_pad("video/x-raw", true, true, false), PadRoute::Ignore);
    assert_eq!(route_pad("audio/x-raw", true, false, false), PadRoute::Audio);
    assert_eq!(route_pad("audio/x-raw", false, false, false), PadRoute::Ignore);
    assert_eq!(route_pad("audio/x-raw", true, false, true), PadRoute::Ignore);
    assert_eq!(route_pad("text/x-raw", true, false, false), PadRoute::Ignore);
    assert_eq!(route_direct_pad("x, video/x-raw", false, false, false), PadRoute::Video);
    assert_eq!(route_direct_pad("x, audio/x-raw", false, false, false), PadRoute::Audio);
    assert_eq!(route_direct_pad("x, audio/x-raw", false, true, false), PadRoute::Ignore);
    assert_eq!(route_direct_pad("text", false, false, false), PadRoute::Ignore);
}

#[test]
fn vendors_are_read_in_hexadecimal() {
    assert_eq!(parse_vendor("0x10de"), VENDOR_NVIDIA);
    assert_eq!(parse_vendor("8086"), VENDOR_INTEL);
    assert_eq!(parse_vendor("0x0x1002"), VENDOR_AMD);
    assert_eq!(parse_vendor("0x1ffffffff"), 0);
    assert_eq!(parse_vendor("none"), 0);
    assert_eq!(parse_vendor(""), 0);
}

#[test]
fn the_node_with_most_displays_is_chosen() {
    let node = |path: &str, connected| RenderNode { path: path.into(), connected };
    let nodes = [node("a", 1), node("b", 2), node("c", 2), node("d", 0)];
    assert_eq!(compositor_render_node(&nodes), "b");
    assert_eq!(compositor_render_node(&[node("a", 0)]), "/dev/dri/renderD128");
    assert_eq!(compositor_render_node(&[]), "/dev/dri/renderD128");
    assert!(is_display_connector("HDMI-A-1"));
    assert!(is_display_connector("eDP-1"));
    assert!(!is_display_connector("card0"));
}

#[test]
fn the_first_decoder_names_the_codec() {
    let names: Vec<String> = ["queue0", "avdec_hevc0", "vah264dec0"].map(String::from).to_vec();
    assert_eq!(extract_codec_name(&names), "H.265/HEVC (FFmpeg)");
    assert_eq!(extract_codec_name(&names[2..]), "H.264 (VA-API)");
    assert_eq!(extract_codec_name(&names[..1]), "H.264");
    for (name, codec) in [
        ("vaapih265dec", "H.265/HEVC (VA-API)"),
        ("vavp9dec", "VP9 (VA-API)"),
        ("vavp8dec", "VP8 (VA-API)"),
        ("vaav1dec", "AV1 (VA-API)"),
        ("avdec_h264", "H.264 (FFmpeg)"),
        ("avdec_vp9", "VP9 (FFmpeg)"),
        ("avdec_vp8", "VP8 (FFmpeg)"),
        ("avdec_av1", "AV1 (FFmpeg)"),
        ("openh264dec", "H.264 (OpenH264)"),
    ] {
        assert_eq!(extract_codec_name(&[name.to_string()]), codec);
    }
}
