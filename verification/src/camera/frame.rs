//! Frames: their size, their pixel formats, and how a node offers them.
use vstd::prelude::*;

verus! {

pub const MAX_DIMENSION: u32 = 8192;
/// 64 MiB.
pub const MAX_FRAME_BYTES: usize = 67_108_864;
pub const CAMERA_FPS: u32 = 30;

pub const FORMAT_I420: u16 = 0;
pub const FORMAT_NV12: u16 = 1;
pub const FORMAT_NV21: u16 = 2;

/// A dimension that a frame can have: even, and within bounds.
pub open spec fn dimension_fits(d: u32) -> bool {
    0 < d <= MAX_DIMENSION && d % 2 == 0
}

/// The bytes of a frame, three for two pixels, if it is not too large.
pub open spec fn frame_bytes(width: u32, height: u32) -> Option<usize> {
    if dimension_fits(width) && dimension_fits(height) && width * height * 3 / 2
        <= MAX_FRAME_BYTES {
        Some((width * height * 3 / 2) as usize)
    } else {
        None
    }
}

/// The bytes of a frame, if there can be one of this size.
pub fn frame_size(width: u32, height: u32) -> (bytes: Option<usize>)
    ensures
        bytes == frame_bytes(width, height),
{
    if width == 0 || height == 0 || width > MAX_DIMENSION || height > MAX_DIMENSION || width % 2
        != 0 || height % 2 != 0 {
        return None;
    }
    assert(width * height <= 8192 * 8192) by (nonlinear_arith)
        requires
            width <= 8192,
            height <= 8192,
    ;
    let pixels: u32 = width * height;
    let bytes: usize = (pixels * 3 / 2) as usize;
    if bytes <= MAX_FRAME_BYTES {
        Some(bytes)
    } else {
        None
    }
}

/// A frame has at least one byte, and is never larger than allowed.
pub proof fn law_frames_are_bounded(width: u32, height: u32)
    ensures
        frame_bytes(width, height) matches Some(bytes) ==> 0 < bytes <= MAX_FRAME_BYTES && 2 * bytes
            == 3 * width * height,
{
    if let Some(bytes) = frame_bytes(width, height) {
        let (w, h) = (width as int / 2, height as int / 2);
        assert(width * height == 4 * (w * h)) by (nonlinear_arith)
            requires
                width == 2 * w,
                height == 2 * h,
        ;
        assert(w * h >= 1) by (nonlinear_arith)
            requires
                w >= 1,
                h >= 1,
        ;
        assert(3 * width * height == 3 * (width * height)) by (nonlinear_arith);
    }
}

/// A format that the camera service has.
pub open spec fn known_format(format: u16) -> bool {
    format == FORMAT_I420 || format == FORMAT_NV12 || format == FORMAT_NV21
}

/// Tells whether the camera service has this format.
pub fn is_camera_format(format: u16) -> (known: bool)
    ensures
        known == known_format(format),
{
    format == FORMAT_I420 || format == FORMAT_NV12 || format == FORMAT_NV21
}

/// A pixel format of a node.
#[derive(Debug, Clone, Copy, PartialEq, Eq, Structural)]
pub enum VideoFormat {
    I420,
    NV12,
    NV21,
    Other,
}

/// The format of a node for frames of the camera service.
pub open spec fn node_format(format: u16) -> VideoFormat {
    if format == FORMAT_NV12 {
        VideoFormat::NV12
    } else if format == FORMAT_NV21 {
        VideoFormat::NV21
    } else {
        VideoFormat::I420
    }
}

/// The format of a node for frames of the camera service. What is not known counts as I420.
pub fn video_format(format: u16) -> (r: VideoFormat)
    ensures
        r == node_format(format),
{
    if format == FORMAT_NV12 {
        VideoFormat::NV12
    } else if format == FORMAT_NV21 {
        VideoFormat::NV21
    } else {
        VideoFormat::I420
    }
}

/// The format of the camera service for a format of a node.
pub open spec fn service_format(format: VideoFormat) -> Option<u16> {
    match format {
        VideoFormat::I420 => Some(FORMAT_I420),
        VideoFormat::NV12 => Some(FORMAT_NV12),
        VideoFormat::NV21 => Some(FORMAT_NV21),
        VideoFormat::Other => None,
    }
}

/// The format of the camera service for a format of a node, if it has one.
pub fn camera_format(format: VideoFormat) -> (r: Option<u16>)
    ensures
        r == service_format(format),
{
    match format {
        VideoFormat::I420 => Some(FORMAT_I420),
        VideoFormat::NV12 => Some(FORMAT_NV12),
        VideoFormat::NV21 => Some(FORMAT_NV21),
        VideoFormat::Other => None,
    }
}

/// Formats of the camera service come through a node unchanged.
pub proof fn law_formats_round_trip(format: u16)
    requires
        known_format(format),
    ensures
        service_format(node_format(format)) == Some(format),
{
}

/// The one format that a node offers: raw video.
#[derive(Debug, Clone, Copy, PartialEq, Eq, Structural)]
pub struct FormatOffer {
    pub format: VideoFormat,
    pub width: u32,
    pub height: u32,
    /// Frames per second.
    pub rate: u32,
}

/// A node can offer frames like these.
pub open spec fn can_offer(width: u32, height: u32, format: u16) -> bool {
    frame_bytes(width, height) is Some && known_format(format)
}

/// What a node offers for frames like these.
pub open spec fn format_offer(width: u32, height: u32, format: u16) -> Option<FormatOffer> {
    if can_offer(width, height, format) {
        Some(FormatOffer { format: node_format(format), width, height, rate: CAMERA_FPS })
    } else {
        None
    }
}

/// The format that a node offers, if it can.
pub fn make_format_pod(width: u32, height: u32, format: u16) -> (offer: Option<FormatOffer>)
    ensures
        offer == format_offer(width, height, format),
{
    if frame_size(width, height).is_none() || !is_camera_format(format) {
        return None;
    }
    Some(FormatOffer { format: video_format(format), width, height, rate: CAMERA_FPS })
}

/// The buffers that a node asks for.
#[derive(Debug, Clone, Copy, PartialEq, Eq, Structural)]
pub struct BufferOffer {
    pub buffers: i32,
    pub min_buffers: i32,
    pub max_buffers: i32,
    pub blocks: i32,
    pub size: i32,
    pub stride: i32,
    /// One bit for each kind of memory.
    pub data_types: i32,
}

/// The buffers that a node asks for: for whole frames, in one block, four of them or two to
/// eight. `mem_ptr` and `mem_fd` number the two kinds of memory that will do.
pub open spec fn buffer_offer(width: u32, height: u32, mem_ptr: u32, mem_fd: u32) -> Option<
    BufferOffer,
> {
    match frame_bytes(width, height) {
        Some(bytes) => if mem_ptr < 32 && mem_fd < 32 {
            Some(
                BufferOffer {
                    buffers: 4,
                    min_buffers: 2,
                    max_buffers: 8,
                    blocks: 1,
                    size: bytes as i32,
                    stride: width as i32,
                    data_types: (1i32 << mem_ptr) | (1i32 << mem_fd),
                },
            )
        } else {
            None
        },
        None => None,
    }
}

/// The buffers that a node asks for, if it can.
pub fn make_buffer_pod(width: u32, height: u32, mem_ptr: u32, mem_fd: u32) -> (offer: Option<
    BufferOffer,
>)
    ensures
        offer == buffer_offer(width, height, mem_ptr, mem_fd),
{
    let Some(size) = frame_size(width, height) else {
        return None;
    };
    if mem_ptr >= 32 || mem_fd >= 32 {
        return None;
    }
    Some(
        BufferOffer {
            buffers: 4,
            min_buffers: 2,
            max_buffers: 8,
            blocks: 1,
            size: size as i32,
            stride: width as i32,
            data_types: (1i32 << mem_ptr) | (1i32 << mem_fd),
        },
    )
}

} // verus!
