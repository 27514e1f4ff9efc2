use pi_frame::pixel::rgb565_to_rgb888;
use pi_frame::snapshot::{SnapshotError, snapshot_png};
use pi_frame::source::{ConfigError, SourceKind, still_image_kind};

#[test]
fn rgb565_channels_widen_into_bytes() {
    // 0xFFFF: all channels full scale.
    assert_eq!(rgb565_to_rgb888(&[0xff, 0xff]), vec![248, 252, 248]);
    // 0xF800 (little endian [0x00, 0xF8]): pure red.
    assert_eq!(rgb565_to_rgb888(&[0x00, 0xf8]), vec![248, 0, 0]);
    // 0x07E0: pure green.
    assert_eq!(rgb565_to_rgb888(&[0xe0, 0x07]), vec![0, 252, 0]);
    // 0x001F: pure blue.
    assert_eq!(rgb565_to_rgb888(&[0x1f, 0x00]), vec![0, 0, 248]);
    // Black stays black, and pixels convert independently in order.
    assert_eq!(
        rgb565_to_rgb888(&[0x00, 0x00, 0xff, 0xff]),
        vec![0, 0, 0, 248, 252, 248]
    );
    assert_eq!(rgb565_to_rgb888(&[]), Vec::<u8>::new());
}

#[test]
fn snapshot_is_a_png_rendering_of_the_frame() {
    // A 2x1 frame: one red pixel, one blue pixel.
    let frame = vec![0x00u8, 0xf8, 0x1f, 0x00];
    let png = snapshot_png(&frame, 2, 1).expect("encodes");
    // The output is a PNG image, not the frame handed back.
    assert_eq!(&png[..8], &[137u8, 80, 78, 71, 13, 10, 26, 10]);
    assert_ne!(png, frame);
}

#[test]
fn snapshot_of_mismatched_dimensions_reports_the_error() {
    // One pixel of data for a claimed 10x10 image.
    let frame = vec![0x00u8, 0xf8];
    assert_eq!(snapshot_png(&frame, 10, 10), Err(SnapshotError::DimensionMismatch));
}

#[test]
fn snapshot_of_zero_size_reports_the_encoder_error() {
    // A zero-by-zero image matches an empty frame, but the encoder
    // refuses to produce a zero-sized PNG.
    assert_eq!(snapshot_png(&Vec::new(), 0, 0), Err(SnapshotError::Encode));
}

#[test]
fn image_fit_size_is_both_dimensions_or_neither() {
    let both = still_image_kind(String::from("/a.png"), Some(300), Some(200))
        .expect("complete pair accepted");
    match both {
        SourceKind::StillImage { fit, .. } => {
            let fit = fit.expect("fit present");
            assert_eq!((fit.width, fit.height), (300, 200));
        }
        other => panic!("still image expected, got {:?}", other),
    }

    let neither = still_image_kind(String::from("/a.png"), None, None)
        .expect("no fit size accepted");
    match neither {
        SourceKind::StillImage { fit, .. } => assert!(fit.is_none()),
        other => panic!("still image expected, got {:?}", other),
    }

    let one = still_image_kind(String::from("/a.png"), Some(300), None);
    assert_eq!(one.err(), Some(ConfigError::FitSizeIncomplete));
    let other_one = still_image_kind(String::from("/a.png"), None, Some(200));
    assert_eq!(other_one.err(), Some(ConfigError::FitSizeIncomplete));
}
