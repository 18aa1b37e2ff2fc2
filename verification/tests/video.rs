use vhost::video::{
    planes_to_vda, vda_response_to_result, DecoderEvent, Format, FramePlane, OutputBufferState,
    PixelFormat, Profile, Rect, VdaEvent, VdaFramePlane, VdaResponse, VideoError,
    OUTPUT_BUFFER_COUNT,
};

#[test]
fn profile_mapping() {
    assert_eq!(Profile::try_from(Format::VP8), Ok(Profile::VP8));
    assert_eq!(Profile::try_from(Format::VP9), Ok(Profile::VP9Profile0));
    assert_eq!(
        Profile::try_from(Format::H264),
        Ok(Profile::H264ProfileBaseline)
    );
    assert_eq!(
        Profile::try_from(Format::NV12),
        Err(VideoError::InvalidParameter)
    );
    assert_eq!(
        Profile::try_from(Format::YUV420),
        Err(VideoError::InvalidParameter)
    );
}

#[test]
fn pixel_format_mapping() {
    assert_eq!(PixelFormat::try_from(Format::NV12), Ok(PixelFormat::NV12));
    assert_eq!(
        PixelFormat::try_from(Format::H264),
        Err(VideoError::InvalidParameter)
    );
}

#[test]
fn response_to_result() {
    assert_eq!(vda_response_to_result(VdaResponse::Success), Ok(()));
    assert_eq!(
        vda_response_to_result(VdaResponse::Canceled),
        Err(VideoError::VdaFailure(VdaResponse::Canceled))
    );
}

#[test]
fn plane_mapping() {
    let planes = [
        FramePlane {
            offset: 0,
            stride: 64,
        },
        FramePlane {
            offset: 4096,
            stride: 64,
        },
    ];
    let vda_planes = planes_to_vda(&planes);
    assert_eq!(
        vda_planes,
        vec![
            VdaFramePlane {
                offset: 0,
                stride: 64
            },
            VdaFramePlane {
                offset: 4096,
                stride: 64
            },
        ]
    );
}

#[test]
fn event_translation_is_total() {
    let ev = DecoderEvent::from(VdaEvent::ProvidePictureBuffers {
        min_num_buffers: 4,
        width: 640,
        height: 480,
        visible_rect_left: 0,
        visible_rect_top: 0,
        visible_rect_right: 640,
        visible_rect_bottom: 480,
    });
    assert_eq!(
        ev,
        DecoderEvent::ProvidePictureBuffers {
            min_num_buffers: 4,
            width: 640,
            height: 480,
            visible_rect: Rect {
                left: 0,
                top: 0,
                right: 640,
                bottom: 480,
            },
        }
    );

    let ev = DecoderEvent::from(VdaEvent::PictureReady {
        buffer_id: 7,
        bitstream_id: 3,
        left: 1,
        top: 2,
        right: 3,
        bottom: 4,
    });
    assert_eq!(
        ev,
        DecoderEvent::PictureReady {
            picture_buffer_id: 7,
            bitstream_id: 3,
            visible_rect: Rect {
                left: 1,
                top: 2,
                right: 3,
                bottom: 4,
            },
        }
    );

    assert_eq!(
        DecoderEvent::from(VdaEvent::NotifyEndOfBitstreamBuffer { bitstream_id: 9 }),
        DecoderEvent::NotifyEndOfBitstreamBuffer(9)
    );
    assert_eq!(
        DecoderEvent::from(VdaEvent::NotifyError(VdaResponse::PlatformFailure)),
        DecoderEvent::NotifyError(VideoError::VdaFailure(VdaResponse::PlatformFailure))
    );
    assert_eq!(
        DecoderEvent::from(VdaEvent::ResetResponse(VdaResponse::Success)),
        DecoderEvent::ResetCompleted(Ok(()))
    );
    assert_eq!(
        DecoderEvent::from(VdaEvent::ResetResponse(VdaResponse::Canceled)),
        DecoderEvent::ResetCompleted(Err(VideoError::VdaFailure(VdaResponse::Canceled)))
    );
    assert_eq!(
        DecoderEvent::from(VdaEvent::FlushResponse(VdaResponse::Success)),
        DecoderEvent::FlushCompleted(Ok(()))
    );
    assert_eq!(
        DecoderEvent::from(VdaEvent::FlushResponse(VdaResponse::InvalidArgument)),
        DecoderEvent::FlushCompleted(Err(VideoError::VdaFailure(VdaResponse::InvalidArgument)))
    );
}

#[test]
fn buffer_count_negotiated_once() {
    assert_eq!(OUTPUT_BUFFER_COUNT, 32);
    let mut state = OutputBufferState::new();
    // The first output buffer triggers the negotiation; later ones do not.
    assert!(state.begin_use_output_buffer());
    assert!(!state.begin_use_output_buffer());
    assert!(!state.begin_use_output_buffer());
}

#[test]
fn buffer_count_due_again_after_provide_picture_buffers() {
    let mut state = OutputBufferState::new();
    assert!(state.begin_use_output_buffer());

    // Events that are not buffer requests leave the negotiation settled.
    let ev = state.process_event(VdaEvent::NotifyEndOfBitstreamBuffer { bitstream_id: 1 });
    assert_eq!(ev, DecoderEvent::NotifyEndOfBitstreamBuffer(1));
    assert!(!state.begin_use_output_buffer());

    // A request for new picture buffers makes it due again.
    let ev = state.process_event(VdaEvent::ProvidePictureBuffers {
        min_num_buffers: 8,
        width: 320,
        height: 240,
        visible_rect_left: 0,
        visible_rect_top: 0,
        visible_rect_right: 320,
        visible_rect_bottom: 240,
    });
    assert!(matches!(
        ev,
        DecoderEvent::ProvidePictureBuffers { min_num_buffers: 8, .. }
    ));
    assert!(state.begin_use_output_buffer());
}
