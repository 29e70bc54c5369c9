use drm_fourcc::DrmFourcc;
use lumina_video::dmabuf::{
    cpu_copy_frame, drm_format_info, drm_fourcc_to_pixel_format, extract_dmabuf_info,
    parse_drm_format_caps, plane_rows, BufferFacts, DmaBufInfo, PixelFormat, PlaneLayout,
};
use lumina_video::video::VideoError;

#[test]
fn formats_are_known_by_name() {
    for (name, planes, format) in [
        ("NV12", 2, DrmFourcc::Nv12),
        ("nv21", 2, DrmFourcc::Nv21),
        ("I420", 3, DrmFourcc::Yuv420),
        ("YU12", 3, DrmFourcc::Yuv420),
        ("YV12", 3, DrmFourcc::Yvu420),
        ("YUY2", 1, DrmFourcc::Yuyv),
        ("UYVY", 1, DrmFourcc::Uyvy),
        ("AR24", 1, DrmFourcc::Argb8888),
        ("ABGR", 1, DrmFourcc::Abgr8888),
        ("XR24", 1, DrmFourcc::Xrgb8888),
        ("XB24", 1, DrmFourcc::Xbgr8888),
        ("RGBA", 1, DrmFourcc::Rgba8888),
        ("BGRA", 1, DrmFourcc::Bgra8888),
        ("P010", 2, DrmFourcc::P010),
    ] {
        assert_eq!(drm_format_info(name), (planes, format as u32), "{}", name);
    }
    assert_eq!(drm_format_info("H264"), (0, 0));
}

#[test]
fn codes_tell_how_pixels_are_shown() {
    for (format, shown) in [
        (DrmFourcc::Nv12, Some(PixelFormat::Nv12)),
        (DrmFourcc::Nv21, None),
        (DrmFourcc::Yuv420, Some(PixelFormat::Yuv420p)),
        (DrmFourcc::Yvu420, Some(PixelFormat::Yuv420p)),
        (DrmFourcc::Argb8888, Some(PixelFormat::Bgra)),
        (DrmFourcc::Xrgb8888, Some(PixelFormat::Bgra)),
        (DrmFourcc::Bgra8888, Some(PixelFormat::Bgra)),
        (DrmFourcc::Abgr8888, Some(PixelFormat::Rgba)),
        (DrmFourcc::Xbgr8888, Some(PixelFormat::Rgba)),
        (DrmFourcc::Rgba8888, Some(PixelFormat::Rgba)),
        (DrmFourcc::P010, None),
        (DrmFourcc::Yuyv, None),
    ] {
        assert_eq!(drm_fourcc_to_pixel_format(format as u32), shown, "{:?}", format);
    }
}

#[test]
fn layouts_stand_behind_a_colon() {
    let parsed = |caps: &str| parse_drm_format_caps(caps);
    assert_eq!(parsed("NV12:0x0100000000000002"), ("NV12".to_string(), 0x0100000000000002));
    assert_eq!(parsed("NV12:0X10:x"), ("NV12".to_string(), 16));
    assert_eq!(parsed("NV12:12"), ("NV12".to_string(), 12));
    assert_eq!(parsed("NV12:zz"), ("NV12".to_string(), 0));
    assert_eq!(parsed("NV12"), ("NV12".to_string(), 0));
}

fn facts() -> BufferFacts {
    BufferFacts {
        is_dmabuf: true,
        fd: 7,
        n_memory: 1,
        width: 64,
        height: 36,
        drm_format: Some("NV12:0x1".into()),
        format_name: "NV12".into(),
        meta: None,
        info: PlaneLayout { strides: vec![], offsets: vec![] },
        info_planes: 0,
    }
}

#[test]
fn frames_of_the_driver_are_shared() {
    let info = extract_dmabuf_info(&facts()).unwrap();
    assert_eq!(info.fd, 7);
    assert_eq!(info.strides, vec![64, 64]);
    assert_eq!(info.offsets, vec![0, 64 * 36]);
    assert_eq!(info.modifier, 1);
    assert_eq!(info.n_planes, 2);
    assert_eq!(info.drm_format, DrmFourcc::Nv12 as u32);
    assert!(info.is_single_fd(1));
    assert!(!info.is_single_fd(2));

    let meta = PlaneLayout { strides: vec![128, 128, 1], offsets: vec![16, 5000] };
    let with_meta = BufferFacts { meta: Some(meta), ..facts() };
    let info = extract_dmabuf_info(&with_meta).unwrap();
    assert_eq!(info.strides, vec![128, 128]);
    assert_eq!(info.offsets, vec![16, 5000]);

    let layout = PlaneLayout { strides: vec![70, 70], offsets: vec![0, 9] };
    let with_info = BufferFacts { info: layout, info_planes: 2, ..facts() };
    assert_eq!(extract_dmabuf_info(&with_info).unwrap().strides, vec![70, 70]);

    let by_name = BufferFacts { drm_format: None, format_name: "nv12".into(), ..facts() };
    assert_eq!(extract_dmabuf_info(&by_name).unwrap().modifier, 0);
}

#[test]
fn other_frames_are_copied() {
    assert_eq!(extract_dmabuf_info(&BufferFacts { is_dmabuf: false, ..facts() }), None);
    assert_eq!(extract_dmabuf_info(&BufferFacts { fd: -1, ..facts() }), None);
    assert_eq!(extract_dmabuf_info(&BufferFacts { n_memory: 2, ..facts() }), None);
    let unknown = BufferFacts { drm_format: Some("H264".into()), ..facts() };
    assert_eq!(extract_dmabuf_info(&unknown), None);
    let short = PlaneLayout { strides: vec![64], offsets: vec![0, 1] };
    assert_eq!(extract_dmabuf_info(&BufferFacts { meta: Some(short), ..facts() }), None);
    let three = BufferFacts { drm_format: Some("I420".into()), ..facts() };
    assert_eq!(extract_dmabuf_info(&three), None);
}

fn info(n_planes: u32, strides: Vec<u32>, offsets: Vec<u32>, drm_format: u32) -> DmaBufInfo {
    DmaBufInfo {
        fd: 1,
        strides,
        offsets,
        modifier: 0,
        n_planes,
        width: 4,
        height: 5,
        drm_format,
    }
}

fn failure<T>(result: Result<T, VideoError>) -> VideoError {
    match result {
        Ok(_) => panic!("no failure"),
        Err(error) => error,
    }
}

#[test]
fn planes_are_laid_out() {
    let good = info(2, vec![4, 6], vec![0, 20], DrmFourcc::Nv12 as u32);
    assert_eq!(good.check_format(), Ok(PixelFormat::Nv12));
    let planes = good.plan_planes().unwrap();
    assert_eq!((planes[0].offset, planes[0].stride, planes[0].size), (0, 4, 20));
    assert_eq!((planes[1].offset, planes[1].stride, planes[1].size), (20, 6, 18));
    assert_eq!(plane_rows(0, 5), 5);
    assert_eq!(plane_rows(1, 5), 3);
}

#[test]
fn bad_planes_are_refused() {
    let nv12 = DrmFourcc::Nv12 as u32;
    assert_eq!(
        failure(info(0, vec![], vec![], nv12).check_format()),
        VideoError::DecodeFailed("DMABuf has 0 planes, cannot import".into())
    );
    assert_eq!(
        failure(info(1, vec![1], vec![0], 0x1a).check_format()),
        VideoError::UnsupportedFormat("Unsupported DRM fourcc for zero-copy: 0x0000001a".into())
    );
    assert_eq!(
        failure(info(2, vec![4], vec![0, 1], nv12).plan_planes()),
        VideoError::DecodeFailed("DMABuf has 2 planes but only 1 strides".into())
    );
    assert_eq!(
        failure(info(2, vec![4, 4], vec![0], nv12).plan_planes()),
        VideoError::DecodeFailed("DMABuf has 2 planes but only 1 offsets".into())
    );
    assert_eq!(
        failure(info(2, vec![4, 0], vec![0, 1], nv12).plan_planes()),
        VideoError::DecodeFailed("DMABuf plane 1 has zero stride".into())
    );
}

#[test]
fn frames_are_copied_plane_by_plane() {
    let data: Vec<u8> = (0..21).collect();
    let layout = PlaneLayout { strides: vec![4, 4], offsets: vec![1, 13] };
    let frame = cpu_copy_frame(&data, 4, 3, &layout).unwrap();
    assert_eq!(frame.format, PixelFormat::Nv12);
    assert_eq!((frame.width, frame.height), (4, 3));
    assert_eq!(frame.planes[0].data, (1..13).collect::<Vec<u8>>());
    assert_eq!(frame.planes[0].stride, 4);
    assert_eq!(frame.planes[1].data, (13..21).collect::<Vec<u8>>());
}

#[test]
fn frames_that_do_not_fit_are_refused() {
    let refusal = |strides: Vec<i32>, offsets: Vec<usize>, len: usize| {
        let layout = PlaneLayout { strides, offsets };
        match failure(cpu_copy_frame(&vec![0; len], 4, 3, &layout)) {
            VideoError::DecodeFailed(message) => message,
            other => panic!("{:?}", other),
        }
    };
    assert_eq!(refusal(vec![], vec![], 0), "Missing Y plane stride");
    assert_eq!(refusal(vec![4], vec![], 0), "Missing UV plane stride");
    assert_eq!(refusal(vec![4, 4], vec![], 0), "Missing Y plane offset");
    assert_eq!(refusal(vec![4, 4], vec![0], 0), "Missing UV plane offset");
    assert_eq!(refusal(vec![4, 4], vec![0, 12], 11), "Y plane out of bounds");
    assert_eq!(refusal(vec![4, 4], vec![0, 12], 19), "UV plane out of bounds");
}
