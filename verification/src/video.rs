//! Decoder-session model for the video-decode accelerator bridge.
//!
//! The accelerator itself is an external backend: opening sessions,
//! submitting decode units and polling its event descriptor happen in the
//! embedding program. What is decided here, and verified, is the pure part
//! of the bridge: mapping stream formats to backend profiles and pixel
//! formats, translating every backend event into the device's event type by
//! a total, explicit mapping, and the one-time output-buffer-count
//! negotiation a session performs before its first output buffer.

use vstd::prelude::*;

verus! {

/// A coded or raw video format of the device.
#[derive(Clone, Copy, Debug, PartialEq, Eq, Structural)]
pub enum Format {
    /// NV12 raw frames.
    NV12,
    /// YUV 4:2:0 planar raw frames.
    YUV420,
    /// H.264 coded streams.
    H264,
    /// VP8 coded streams.
    VP8,
    /// VP9 coded streams.
    VP9,
}

/// A codec profile the accelerator backend can open a session for.
#[derive(Clone, Copy, Debug, PartialEq, Eq, Structural)]
pub enum Profile {
    /// VP8 decoding.
    VP8,
    /// VP9 profile 0 decoding.
    VP9Profile0,
    /// H.264 baseline-profile decoding.
    H264ProfileBaseline,
}

/// A raw pixel format of the accelerator backend.
#[derive(Clone, Copy, Debug, PartialEq, Eq, Structural)]
pub enum PixelFormat {
    /// NV12: one luma plane, one interleaved chroma plane.
    NV12,
    /// YV12: three planes.
    YV12,
}

/// A rectangle of a decoded picture, in pixels.
#[derive(Clone, Copy, Debug, PartialEq, Eq, Structural)]
pub struct Rect {
    /// Leftmost column.
    pub left: i32,
    /// Topmost row.
    pub top: i32,
    /// One past the rightmost column.
    pub right: i32,
    /// One past the bottommost row.
    pub bottom: i32,
}

/// One plane of a frame buffer, as the device describes it.
#[derive(Clone, Copy, Debug, PartialEq, Eq, Structural)]
pub struct FramePlane {
    /// Byte offset of the plane within the buffer.
    pub offset: i32,
    /// Bytes per row.
    pub stride: i32,
}

/// One plane of a frame buffer, as the accelerator backend takes it.
#[derive(Clone, Copy, Debug, PartialEq, Eq, Structural)]
pub struct VdaFramePlane {
    /// Byte offset of the plane within the buffer.
    pub offset: i32,
    /// Bytes per row.
    pub stride: i32,
}

/// What the accelerator backend reports of a completed operation.
#[derive(Clone, Copy, Debug, PartialEq, Eq, Structural)]
pub enum VdaResponse {
    /// The operation completed.
    Success,
    /// An argument was rejected.
    InvalidArgument,
    /// The requested codec profile is not supported.
    UnsupportedProfile,
    /// The operation was canceled by a reset.
    Canceled,
    /// The platform decoder failed.
    PlatformFailure,
}

/// What a decoder operation can fail with.
#[derive(Clone, Copy, Debug, PartialEq, Eq, Structural)]
pub enum VideoError {
    /// A parameter was outside what the backend supports.
    InvalidParameter,
    /// The operation is not possible in the current state.
    InvalidOperation,
    /// The accelerator backend reported a failure.
    VdaFailure(VdaResponse),
}

/// An event read from the accelerator backend's notification descriptor.
#[derive(Clone, Copy, Debug, PartialEq, Eq, Structural)]
pub enum VdaEvent {
    /// The backend asks for output picture buffers.
    ProvidePictureBuffers {
        /// Fewest buffers the stream needs.
        min_num_buffers: u32,
        /// Coded width in pixels.
        width: i32,
        /// Coded height in pixels.
        height: i32,
        /// Leftmost visible column.
        visible_rect_left: i32,
        /// Topmost visible row.
        visible_rect_top: i32,
        /// One past the rightmost visible column.
        visible_rect_right: i32,
        /// One past the bottommost visible row.
        visible_rect_bottom: i32,
    },
    /// A picture was decoded into a buffer.
    PictureReady {
        /// The output buffer holding the picture.
        buffer_id: i32,
        /// The bitstream unit the picture came from.
        bitstream_id: i32,
        /// Leftmost visible column.
        left: i32,
        /// Topmost visible row.
        top: i32,
        /// One past the rightmost visible column.
        right: i32,
        /// One past the bottommost visible row.
        bottom: i32,
    },
    /// A bitstream unit was fully consumed.
    NotifyEndOfBitstreamBuffer {
        /// The consumed bitstream unit.
        bitstream_id: i32,
    },
    /// The backend hit an error.
    NotifyError(VdaResponse),
    /// A reset finished with the given outcome.
    ResetResponse(VdaResponse),
    /// A flush finished with the given outcome.
    FlushResponse(VdaResponse),
}

/// An event of the device's generic decoder interface.
#[derive(Clone, Copy, Debug, PartialEq, Eq)]
pub enum DecoderEvent {
    /// The backend asks for output picture buffers.
    ProvidePictureBuffers {
        /// Fewest buffers the stream needs.
        min_num_buffers: u32,
        /// Coded width in pixels.
        width: i32,
        /// Coded height in pixels.
        height: i32,
        /// The visible part of the coded picture.
        visible_rect: Rect,
    },
    /// A picture was decoded into a buffer.
    PictureReady {
        /// The output buffer holding the picture.
        picture_buffer_id: i32,
        /// The bitstream unit the picture came from.
        bitstream_id: i32,
        /// The visible part of the decoded picture.
        visible_rect: Rect,
    },
    /// The bitstream unit with this id was fully consumed.
    NotifyEndOfBitstreamBuffer(i32),
    /// The backend hit an error.
    NotifyError(VideoError),
    /// A reset finished.
    ResetCompleted(Result<(), VideoError>),
    /// A flush finished.
    FlushCompleted(Result<(), VideoError>),
}

/// A success report becomes `Ok`; every other report is surfaced as a
/// backend failure carrying it.
pub fn vda_response_to_result(resp: VdaResponse) -> (r: Result<(), VideoError>)
    ensures
        resp == VdaResponse::Success ==> r == Ok::<(), VideoError>(()),
        resp != VdaResponse::Success ==> r == Err::<(), VideoError>(VideoError::VdaFailure(resp)),
{
    match resp {
        VdaResponse::Success => Ok(()),
        resp => Err(VideoError::VdaFailure(resp)),
    }
}

impl Profile {
    /// The backend profile for a coded format; raw formats have none and
    /// are rejected as invalid parameters.
    pub fn try_from(format: Format) -> (r: Result<Profile, VideoError>)
        ensures
            r == match format {
                Format::VP8 => Ok::<Profile, VideoError>(Profile::VP8),
                Format::VP9 => Ok::<Profile, VideoError>(Profile::VP9Profile0),
                Format::H264 => Ok::<Profile, VideoError>(Profile::H264ProfileBaseline),
                _ => Err::<Profile, VideoError>(VideoError::InvalidParameter),
            },
    {
        match format {
            Format::VP8 => Ok(Profile::VP8),
            Format::VP9 => Ok(Profile::VP9Profile0),
            Format::H264 => Ok(Profile::H264ProfileBaseline),
            _ => Err(VideoError::InvalidParameter),
        }
    }
}

impl PixelFormat {
    /// The backend pixel format for a raw format; only NV12 is supported.
    pub fn try_from(format: Format) -> (r: Result<PixelFormat, VideoError>)
        ensures
            r == match format {
                Format::NV12 => Ok::<PixelFormat, VideoError>(PixelFormat::NV12),
                _ => Err::<PixelFormat, VideoError>(VideoError::InvalidParameter),
            },
    {
        match format {
            Format::NV12 => Ok(PixelFormat::NV12),
            _ => Err(VideoError::InvalidParameter),
        }
    }
}

impl VdaFramePlane {
    /// The backend's description of one plane.
    pub fn from(plane: &FramePlane) -> (r: VdaFramePlane)
        ensures
            r.offset == plane.offset,
            r.stride == plane.stride,
    {
        VdaFramePlane { offset: plane.offset, stride: plane.stride }
    }
}

/// The plane descriptions the backend takes for a whole frame, in order.
pub fn planes_to_vda(planes: &[FramePlane]) -> (r: Vec<VdaFramePlane>)
    ensures
        r@.len() == planes@.len(),
        forall|i: int|
            0 <= i < planes@.len() ==> #[trigger] r@[i] == (VdaFramePlane {
                offset: planes@[i].offset,
                stride: planes@[i].stride,
            }),
{
    let mut ret: Vec<VdaFramePlane> = Vec::new();
    let n = planes.len();
    let mut i: usize = 0;
    while i < n
        invariant
            n == planes@.len(),
            i <= n,
            ret@.len() == i,
            forall|j: int|
                0 <= j < i ==> #[trigger] ret@[j] == (VdaFramePlane {
                    offset: planes@[j].offset,
                    stride: planes@[j].stride,
                }),
        decreases n - i,
    {
        let p = VdaFramePlane::from(&planes[i]);
        ret.push(p);
        i += 1;
    }
    ret
}

/// What each backend event becomes under the total event translation.
pub open spec fn spec_event_from(event: VdaEvent) -> DecoderEvent {
    match event {
        VdaEvent::ProvidePictureBuffers {
            min_num_buffers,
            width,
            height,
            visible_rect_left,
            visible_rect_top,
            visible_rect_right,
            visible_rect_bottom,
        } => DecoderEvent::ProvidePictureBuffers {
            min_num_buffers,
            width,
            height,
            visible_rect: Rect {
                left: visible_rect_left,
                top: visible_rect_top,
                right: visible_rect_right,
                bottom: visible_rect_bottom,
            },
        },
        VdaEvent::PictureReady { buffer_id, bitstream_id, left, top, right, bottom } => {
            DecoderEvent::PictureReady {
                picture_buffer_id: buffer_id,
                bitstream_id,
                visible_rect: Rect { left, top, right, bottom },
            }
        },
        VdaEvent::NotifyEndOfBitstreamBuffer { bitstream_id } => {
            DecoderEvent::NotifyEndOfBitstreamBuffer(bitstream_id)
        },
        VdaEvent::NotifyError(resp) => DecoderEvent::NotifyError(VideoError::VdaFailure(resp)),
        VdaEvent::ResetResponse(VdaResponse::Success) => {
            DecoderEvent::ResetCompleted(Ok::<(), VideoError>(()))
        },
        VdaEvent::ResetResponse(resp) => {
            DecoderEvent::ResetCompleted(Err::<(), VideoError>(VideoError::VdaFailure(resp)))
        },
        VdaEvent::FlushResponse(VdaResponse::Success) => {
            DecoderEvent::FlushCompleted(Ok::<(), VideoError>(()))
        },
        VdaEvent::FlushResponse(resp) => {
            DecoderEvent::FlushCompleted(Err::<(), VideoError>(VideoError::VdaFailure(resp)))
        },
    }
}

impl DecoderEvent {
    /// Translates a backend event; the mapping is total, so an event kind
    /// the backend adds fails loudly here rather than falling through.
    pub fn from(event: VdaEvent) -> (r: DecoderEvent)
        ensures
            r == spec_event_from(event),
    {
        match event {
            VdaEvent::ProvidePictureBuffers {
                min_num_buffers,
                width,
                height,
                visible_rect_left,
                visible_rect_top,
                visible_rect_right,
                visible_rect_bottom,
            } => DecoderEvent::ProvidePictureBuffers {
                min_num_buffers,
                width,
                height,
                visible_rect: Rect {
                    left: visible_rect_left,
                    top: visible_rect_top,
                    right: visible_rect_right,
                    bottom: visible_rect_bottom,
                },
            },
            VdaEvent::PictureReady { buffer_id, bitstream_id, left, top, right, bottom } => {
                DecoderEvent::PictureReady {
                    picture_buffer_id: buffer_id,
                    bitstream_id,
                    visible_rect: Rect { left, top, right, bottom },
                }
            },
            VdaEvent::NotifyEndOfBitstreamBuffer { bitstream_id } => {
                DecoderEvent::NotifyEndOfBitstreamBuffer(bitstream_id)
            },
            VdaEvent::NotifyError(resp) => DecoderEvent::NotifyError(
                VideoError::VdaFailure(resp),
            ),
            VdaEvent::ResetResponse(resp) => DecoderEvent::ResetCompleted(
                vda_response_to_result(resp),
            ),
            VdaEvent::FlushResponse(resp) => DecoderEvent::FlushCompleted(
                vda_response_to_result(resp),
            ),
        }
    }
}

/// How many output buffers a session registers with the backend when the
/// guest has no way to say how many it will provide.
pub const OUTPUT_BUFFER_COUNT: usize = 32;

/// The one-time output-buffer-count negotiation of a decoder session: the
/// count is registered with the backend once before the first output buffer
/// is used, and becomes due again whenever the backend asks for new picture
/// buffers.
#[derive(Clone, Copy, Debug, PartialEq, Eq, Structural)]
pub struct OutputBufferState {
    /// Whether the count is already registered for the current buffer set.
    pub count_registered: bool,
}

impl OutputBufferState {
    /// A fresh session: no count registered yet.
    pub fn new() -> (s: OutputBufferState)
        ensures
            !s.count_registered,
    {
        OutputBufferState { count_registered: false }
    }

    /// Decides, at each use of an output buffer, whether the session must
    /// first register the buffer count; after the call the count is
    /// registered either way.
    pub fn begin_use_output_buffer(&mut self) -> (negotiate: bool)
        ensures
            negotiate == !old(self).count_registered,
            final(self).count_registered,
    {
        let negotiate = !self.count_registered;
        self.count_registered = true;
        negotiate
    }

    /// Translates an event read from the backend and updates the session:
    /// a request for new picture buffers makes the count negotiation due
    /// again; every other event leaves it as it was.
    pub fn process_event(&mut self, event: VdaEvent) -> (r: DecoderEvent)
        ensures
            r == spec_event_from(event),
            final(self).count_registered == if event matches VdaEvent::ProvidePictureBuffers {
                ..
            } {
                false
            } else {
                old(self).count_registered
            },
    {
        if let VdaEvent::ProvidePictureBuffers { .. } = event {
            self.count_registered = false;
        }
        DecoderEvent::from(event)
    }
}

} // verus!
