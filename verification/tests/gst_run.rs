use lumina_video::dmabuf::{plan_share, BufferFacts, PixelFormat, PlaneLayout, ShareDecision};
use lumina_video::gst_decoder::{
    BusMessage, CapsFacts, GstAudioHandle, InitMessage, RateFact, ZeroCopyGStreamerDecoder,
    MAX_STALE_FRAMES,
};
use lumina_video::gst_pipeline::PipelineMode;
use lumina_video::gst_run::{
    DecodeReply, DecodeRun, DecodedSample, InitAction, InitReply, InitRun, MappedFrame,
    SampleAction, SampleFacts, SampleFault, SamplePhase,
};
use lumina_video::time::{Duration, Instant};
use lumina_video::video::VideoError;

const NOW: Instant = Instant { nanos: 9_000_000_000 };
const SIZED: CapsFacts = CapsFacts {
    width: Some(640),
    height: Some(360),
    rate: Some(RateFact { denominator: 1, bits: 0x41C8_0000 }),
};

/// Starts a pipeline that gives the replies one after the other.
fn start(
    mode: PipelineMode,
    replies: Vec<InitReply>,
) -> (Vec<InitAction>, Option<Result<ZeroCopyGStreamerDecoder, VideoError>>) {
    let (mut run, first) = InitRun::begin();
    let mut actions = vec![first];
    for reply in replies {
        let (next, action) =
            run.advance(reply, "https://a/b.mp4", mode);
        run = next;
        match action {
            InitAction::Done(result) => return (actions, Some(result)),
            action => actions.push(action),
        }
    }
    (actions, None)
}

fn decoder(mode: PipelineMode, preroll: bool) -> ZeroCopyGStreamerDecoder {
    let (_, made) = start(
        mode,
        vec![
            InitReply::Started(None),
            InitReply::Bus(true),
            InitReply::Heard(Some(InitMessage::Buffering(100))),
            InitReply::Heard(Some(InitMessage::AsyncDone(Some(Duration::from_secs(60))))),
            InitReply::Caps(Some(SIZED)),
            InitReply::Preroll { came: preroll, caps: None },
            InitReply::Names(
                vec!["queue0".into(), "vah264dec0".into()],
                GstAudioHandle::new(true),
            ),
        ],
    );
    made.unwrap().unwrap()
}

#[test]
fn a_pipeline_is_started_step_by_step() {
    let wait = Duration::from_secs(10);
    let (actions, made) = start(
        PipelineMode::ZeroCopy,
        vec![
            InitReply::Started(None),
            InitReply::Bus(true),
            InitReply::Heard(Some(InitMessage::Other)),
            InitReply::Heard(None),
            InitReply::Caps(None),
            InitReply::Preroll { came: true, caps: Some(SIZED) },
            InitReply::Names(vec!["vah264dec0".into()], GstAudioHandle::new(true)),
        ],
    );
    assert_eq!(
        actions,
        vec![
            InitAction::Start,
            InitAction::AskBus,
            InitAction::Listen(wait),
            InitAction::Listen(wait),
            InitAction::AskCaps,
            InitAction::PullPreroll(wait),
            InitAction::AskNames,
        ]
    );
    let made = made.unwrap().unwrap();
    assert_eq!((made.metadata.width, made.metadata.height), (640, 360));
    assert_eq!(made.metadata.frame_rate_bits, 25.0f32.to_bits());
    assert_eq!(made.metadata.codec, "H.264 (VA-API)");
    assert_eq!(made.metadata.duration, None);
    assert!(made.head.preroll);
    assert_eq!(decoder(PipelineMode::ZeroCopy, false).metadata.duration, Some(Duration::from_secs(60)));
}

#[test]
fn a_start_can_fail_in_four_ways() {
    let failure = |replies| {
        let (actions, made) = start(PipelineMode::CpuCopy, replies);
        (actions.last().is_some_and(|last| matches!(last, InitAction::Shut { .. })), made.unwrap())
    };
    let error = |text: &str| Err(VideoError::DecoderInit(text.into()));
    assert_eq!(
        failure(vec![InitReply::Started(Some("StateChangeError".into()))]),
        (false, error("Failed to start pipeline: StateChangeError"))
    );
    assert_eq!(
        failure(vec![InitReply::Started(None), InitReply::Bus(false), InitReply::Shut]),
        (true, error("Pipeline has no bus"))
    );
    assert_eq!(
        failure(vec![
            InitReply::Started(None),
            InitReply::Bus(true),
            InitReply::Heard(Some(InitMessage::Error("gone (None)".into()))),
            InitReply::Shut,
        ]),
        (true, error("Pipeline error: gone (None)"))
    );
    assert_eq!(
        failure(vec![
            InitReply::Started(None),
            InitReply::Bus(true),
            InitReply::Heard(None),
            InitReply::Caps(None),
            InitReply::Preroll { came: false, caps: Some(SIZED) },
            InitReply::Shut,
        ]),
        (true, error("Could not determine video dimensions"))
    );
}

fn buffer(is_dmabuf: bool) -> BufferFacts {
    BufferFacts {
        is_dmabuf,
        fd: 7,
        n_memory: 1,
        width: 4,
        height: 2,
        drm_format: Some("NV12:0x2".into()),
        format_name: "UNKNOWN".into(),
        meta: None,
        info: PlaneLayout { strides: vec![], offsets: vec![] },
        info_planes: 0,
    }
}

fn facts(is_dmabuf: bool, pts: Option<Duration>) -> SampleFacts {
    SampleFacts {
        pts,
        buffer: buffer(is_dmabuf),
        is_nv12: true,
        name: "NV12".into(),
        debug: "Nv12".into(),
        caps: "video/x-raw, format=NV12".into(),
    }
}

fn mapped() -> MappedFrame {
    MappedFrame {
        data: (0..12).collect(),
        width: 4,
        height: 2,
        layout: PlaneLayout { strides: vec![4, 4], offsets: vec![0, 8] },
    }
}

#[test]
fn frames_of_the_driver_are_laid_out() {
    let ShareDecision::Plan(plan) = plan_share(&buffer(true)) else { panic!() };
    assert_eq!((plan.fd, plan.format, plan.modifier, plan.single_fd), (7, PixelFormat::Nv12, 2, true));
    assert_eq!(plan.planes.len(), 2);
    assert_eq!((plan.planes[0].offset, plan.planes[0].stride, plan.planes[0].size), (0, 4, 8));
    assert_eq!((plan.planes[1].offset, plan.planes[1].stride, plan.planes[1].size), (8, 4, 4));
    assert_eq!(plan_share(&buffer(false)), ShareDecision::NotShareable);
    let mut flat = buffer(true);
    flat.meta = Some(PlaneLayout { strides: vec![4, 0], offsets: vec![0, 8] });
    assert!(matches!(plan_share(&flat), ShareDecision::Failed(VideoError::DecodeFailed(_))));
    let mut wide = buffer(true);
    wide.drm_format = Some("YUYV".into());
    wide.meta = Some(PlaneLayout { strides: vec![8], offsets: vec![0] });
    assert!(matches!(plan_share(&wide), ShareDecision::Failed(VideoError::UnsupportedFormat(_))));
}

#[test]
fn a_frame_is_shared_where_it_can_be() {
    let mut decoder = decoder(PipelineMode::ZeroCopy, false);
    let (run, action) = DecodeRun::begin(&mut decoder);
    assert_eq!(action, SampleAction::PopMessage);
    let (run, action) = run.advance(DecodeReply::Message(None), &mut decoder, NOW);
    assert_eq!(action, SampleAction::Pull(Duration::from_millis(100)));
    let pts = Duration::from_millis(40);
    let sample = DecodeReply::Sample(Ok(facts(true, Some(pts))));
    let (run, action) = run.advance(sample, &mut decoder, NOW);
    assert!(matches!(action, SampleAction::Share(_)));
    let (run, action) = run.advance(DecodeReply::Shared(true), &mut decoder, NOW);
    assert_eq!(action, SampleAction::Done(Ok(Some(DecodedSample { pts, copy: None }))));
    assert_eq!(run.phase, SamplePhase::Finished);
    assert_eq!(decoder.head.position, pts);
    assert_eq!(decoder.metrics.zero_copy_frames, 1);
}

#[test]
fn a_frame_is_copied_where_it_cannot_be_shared() {
    let mut decoder = decoder(PipelineMode::ZeroCopy, true);
    let (run, action) = DecodeRun::begin(&mut decoder);
    assert_eq!(action, SampleAction::ReadPreroll);
    let (run, _) = run.advance(DecodeReply::Sample(Ok(facts(true, None))), &mut decoder, NOW);
    let (run, action) = run.advance(DecodeReply::Shared(false), &mut decoder, NOW);
    assert_eq!(action, SampleAction::ReadBytes);
    let (_, action) = run.advance(DecodeReply::Mapped(Ok(mapped())), &mut decoder, NOW);
    let SampleAction::Done(Ok(Some(sample))) = action else { panic!() };
    let copy = sample.copy.unwrap();
    assert_eq!(sample.pts, Duration::zero());
    assert_eq!(copy.planes[0].data, (0..8).collect::<Vec<u8>>());
    assert_eq!(copy.planes[1].data, vec![8, 9, 10, 11]);
    assert_eq!(decoder.metrics.fallback_frames, 1);
    assert!(!decoder.head.preroll);
}

#[test]
fn a_decode_can_fail() {
    let pulled = |mode, reply: DecodeReply| {
        let mut decoder = decoder(mode, false);
        let (run, _) = DecodeRun::begin(&mut decoder);
        let (run, _) = run.advance(DecodeReply::Message(None), &mut decoder, NOW);
        let (run, action) = run.advance(reply, &mut decoder, NOW);
        (run, action, decoder)
    };
    for (fault, text) in [
        (SampleFault::NoBuffer, "Sample has no buffer"),
        (SampleFault::NoCaps, "Sample has no caps"),
        (SampleFault::BadCaps("x".into()), "Invalid video caps: x"),
    ] {
        let (_, action, _) = pulled(PipelineMode::CpuCopy, DecodeReply::Sample(Err(fault)));
        assert_eq!(action, SampleAction::Done(Err(VideoError::DecodeFailed(text.into()))));
    }
    let mut other = facts(false, None);
    other.is_nv12 = false;
    other.name = "I420".into();
    let (_, action, _) = pulled(PipelineMode::CpuCopy, DecodeReply::Sample(Ok(other)));
    assert!(matches!(action, SampleAction::Done(Err(VideoError::UnsupportedFormat(_)))));
    let sample = DecodeReply::Sample(Ok(facts(true, None)));
    let (run, action, mut copying) = pulled(PipelineMode::CpuCopy, sample);
    assert_eq!(action, SampleAction::ReadBytes);
    let (_, action) = run.advance(DecodeReply::Mapped(Err("busy".into())), &mut copying, NOW);
    let error = VideoError::DecodeFailed("Failed to map buffer: busy".into());
    assert_eq!(action, SampleAction::Done(Err(error)));
    let sample = DecodeReply::Sample(Ok(facts(true, None)));
    let (run, _, mut copying) = pulled(PipelineMode::CpuCopy, sample);
    let mut short = mapped();
    short.data.pop();
    let (_, action) = run.advance(DecodeReply::Mapped(Ok(short)), &mut copying, NOW);
    let error = VideoError::DecodeFailed("UV plane out of bounds".into());
    assert_eq!(action, SampleAction::Done(Err(error)));
    let (_, action, ended) = pulled(PipelineMode::CpuCopy, DecodeReply::NoSample { at_end: true });
    assert_eq!(action, SampleAction::Done(Ok(None)));
    assert!(ended.head.eof);
}

#[test]
fn messages_are_heard_before_a_frame_is_pulled() {
    let mut decoder = decoder(PipelineMode::ZeroCopy, false);
    let (run, _) = DecodeRun::begin(&mut decoder);
    let buffering = DecodeReply::Message(Some(BusMessage::Buffering(40)));
    let (run, action) = run.advance(buffering, &mut decoder, NOW);
    assert_eq!(action, SampleAction::PopMessage);
    let (run, action) = run.advance(DecodeReply::Message(None), &mut decoder, NOW);
    assert_eq!(action, SampleAction::Pull(Duration::from_millis(1000)));
    assert!(matches!(run.phase, SamplePhase::Pulling(_)));
    let (run, _) = DecodeRun::begin(&mut decoder);
    let error = DecodeReply::Message(Some(BusMessage::Error("gone".into())));
    let (_, action) = run.advance(error, &mut decoder, NOW);
    let error = VideoError::DecodeFailed("Pipeline error: gone".into());
    assert_eq!(action, SampleAction::Done(Err(error)));
    let (run, _) = DecodeRun::begin(&mut decoder);
    let end = DecodeReply::Message(Some(BusMessage::EndOfStream));
    let (_, action) = run.advance(end, &mut decoder, NOW);
    assert_eq!(action, SampleAction::Done(Ok(None)));
    assert_eq!(DecodeRun::begin(&mut decoder).1, SampleAction::Done(Ok(None)));
}

#[test]
fn frames_of_the_old_place_are_dropped_but_not_for_ever() {
    let mut decoder = decoder(PipelineMode::CpuCopy, false);
    decoder.head = decoder.head.seeking_to(Duration::from_secs(30));
    let (run, _) = DecodeRun::begin(&mut decoder);
    let (mut run, mut action) = run.advance(DecodeReply::Message(None), &mut decoder, NOW);
    let mut pulls = 0;
    let shown = loop {
        let reply = match action {
            SampleAction::Pull(_) => {
                pulls += 1;
                DecodeReply::Sample(Ok(facts(false, Some(Duration::from_secs(1)))))
            }
            SampleAction::ReadBytes => DecodeReply::Mapped(Ok(mapped())),
            SampleAction::Done(result) => break result,
            _ => unreachable!(),
        };
        (run, action) = run.advance(reply, &mut decoder, NOW);
    };
    assert_eq!(pulls, MAX_STALE_FRAMES + 1);
    assert_eq!(shown.unwrap().unwrap().pts, Duration::from_secs(1));
    assert!(!decoder.head.seeking);
}
