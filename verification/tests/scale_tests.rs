use ccdi::device::ExposureParams;
use ccdi::frame::{FrameData, RawImage};
use ccdi::geom::{ExposureArea, ImgSize};
use ccdi::messages::{ClientMessage, ConvertRawImage, StateMessage};
use ccdi::preview::convert_raw_image;
use ccdi::scale::{debayer_scale_fast, scale_lookup_table, Offset};

fn raw(width: usize, height: usize, pixels: Vec<u16>) -> RawImage {
    RawImage {
        params: ExposureParams {
            gain: 0,
            time_us: 0,
            area: ExposureArea {
                x: 0,
                y: 0,
                width,
                height,
            },
            autoexp: false,
            flipx: false,
            flipy: false,
            percentile_pix_ppm: 0,
            pixel_tgt: 0,
            pixel_tol: 0,
            save: false,
        },
        data: FrameData {
            width,
            height,
            pixels,
        },
    }
}

/// The 4x4 test mosaic, laid out as GRBG 2x2 tiles:
/// row 0:  g r g r   -> 10 11 12 13
/// row 1:  b g b g   -> 14 15 16 17
/// row 2:  g r g r   -> 18 19 20 21
/// row 3:  b g b g   -> 22 23 24 25
fn mosaic4x4() -> RawImage {
    raw(
        4,
        4,
        vec![10, 11, 12, 13, 14, 15, 16, 17, 18, 19, 20, 21, 22, 23, 24, 25],
    )
}

#[test]
fn output_dimensions_match_request_exactly() {
    for (sx, sy) in [(1usize, 1usize), (2, 2), (3, 5), (7, 1), (16, 9)] {
        let image = debayer_scale_fast(&mosaic4x4(), ImgSize { x: sx, y: sy });
        assert_eq!(image.width, sx);
        assert_eq!(image.height, sy);
        assert_eq!(image.red.len(), sx * sy);
        assert_eq!(image.green.len(), sx * sy);
        assert_eq!(image.blue.len(), sx * sy);
    }
}

#[test]
fn two_by_two_picks_the_tile_samples() {
    // At a 2x2 destination the lookup maps destination pixel (i, j) onto the
    // 2x2 tile at (2j, 2i): red from (1, 0), green from (1, 1), blue from
    // (0, 1) within each tile.
    let image = debayer_scale_fast(&mosaic4x4(), ImgSize { x: 2, y: 2 });
    assert_eq!(image.red, vec![11, 13, 19, 21]);
    assert_eq!(image.green, vec![15, 17, 23, 25]);
    assert_eq!(image.blue, vec![14, 16, 22, 24]);
}

#[test]
fn one_by_one_takes_the_first_tile() {
    let image = debayer_scale_fast(&mosaic4x4(), ImgSize { x: 1, y: 1 });
    assert_eq!(image.red, vec![11]);
    assert_eq!(image.green, vec![15]);
    assert_eq!(image.blue, vec![14]);
}

#[test]
fn upscaling_repeats_source_samples() {
    // A 4x4 mosaic blown up to 4x2: each source column of the half-resolution
    // channel grid appears twice.
    let image = debayer_scale_fast(&mosaic4x4(), ImgSize { x: 4, y: 2 });
    assert_eq!(image.red, vec![11, 11, 13, 13, 19, 19, 21, 21]);
}

#[test]
fn lookup_tables_have_requested_lengths_and_stay_in_range() {
    let table = scale_lookup_table(
        ImgSize { x: 640, y: 480 },
        ImgSize { x: 100, y: 70 },
        Offset { x: 1, y: 0 },
    );
    assert_eq!(table.x.len(), 100);
    assert_eq!(table.y.len(), 70);
    assert!(table.x.iter().all(|&v| v < 640));
    assert!(table.y.iter().all(|&v| v < 480));
    // The lookup formula: entry i maps to offset + 2 * (i * (source/2)) / destination.
    assert_eq!(table.x[0], 1);
    assert_eq!(table.x[99], 1 + 2 * ((99 * 320) / 100));
}

#[test]
fn convert_raw_image_produces_png_for_both_consumers() {
    let message = ConvertRawImage {
        image: mosaic4x4(),
        size: ImgSize { x: 2, y: 2 },
    };
    let (client, state) = convert_raw_image(&message).expect("conversion succeeds");
    let png = match client {
        ClientMessage::PngImage(bytes) => bytes,
        other => panic!("expected an encoded preview, got {:?}", other),
    };
    let shown = match state {
        StateMessage::ImageDisplayed(bytes) => bytes,
        other => panic!("expected the displayed-image record, got {:?}", other),
    };
    assert_eq!(png, shown);
    // A real PNG came back, not the raw samples.
    assert!(png.len() > 8);
    assert_eq!(&png[0..8], &[137, 80, 78, 71, 13, 10, 26, 10]);

    // Decoding the encoder's output returns exactly the resampled channels.
    let decoded = image::load_from_memory(&png).expect("the preview decodes");
    let rgb = decoded.to_rgb16();
    assert_eq!(rgb.width(), 2);
    assert_eq!(rgb.height(), 2);
    let expected_red = [11u16, 13, 19, 21];
    let expected_green = [15u16, 17, 23, 25];
    let expected_blue = [14u16, 16, 22, 24];
    for i in 0..4 {
        let pixel = rgb.get_pixel((i % 2) as u32, (i / 2) as u32);
        assert_eq!(pixel.0[0], expected_red[i]);
        assert_eq!(pixel.0[1], expected_green[i]);
        assert_eq!(pixel.0[2], expected_blue[i]);
    }
}

#[test]
fn convert_rejects_malformed_frames() {
    let mut bad = mosaic4x4();
    bad.data.pixels.pop();
    let message = ConvertRawImage {
        image: bad,
        size: ImgSize { x: 2, y: 2 },
    };
    assert!(convert_raw_image(&message).is_err());

    let message = ConvertRawImage {
        image: mosaic4x4(),
        size: ImgSize { x: 0, y: 2 },
    };
    assert!(convert_raw_image(&message).is_err());
}
