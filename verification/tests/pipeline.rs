use image::DynamicImage;
use image::GenericImageView;
use libimg::decode_image;
use libimg::render;
use libimg::resize_image;
use libimg::response_content_type;
use libimg::select_format;
use libimg::status_ok;
use libimg::to_buffer;
use libimg::Body;
use libimg::ImgError;
use libimg::ImgResizeParameters;
use libimg::OutputFormat;
use libimg::ResizeMode;
use libimg::SamplingFilter;

fn source(w: u32, h: u32) -> DynamicImage {
    DynamicImage::new_rgb8(w, h)
}

fn params(w: Option<u32>, h: Option<u32>, mode: Option<ResizeMode>, base64: bool) -> ImgResizeParameters {
    ImgResizeParameters {
        url: String::new(),
        w,
        h,
        mode,
        quality: None,
        sampling: None,
        base64,
    }
}

#[test]
fn crop_hits_the_target_box_exactly() {
    let out = resize_image(source(1000, 500), 200, 100, None, ResizeMode::Crop);
    assert_eq!(out.dimensions(), (200, 100));
    // even when the box has a very different aspect ratio
    let out = resize_image(source(1000, 500), 150, 300, None, ResizeMode::Crop);
    assert_eq!(out.dimensions(), (150, 300));
}

#[test]
fn stretch_hits_the_target_box_exactly() {
    let out = resize_image(source(1000, 500), 123, 45, None, ResizeMode::Stretch);
    assert_eq!(out.dimensions(), (123, 45));
}

#[test]
fn fit_stays_within_the_box_and_touches_it() {
    let out = resize_image(source(1000, 500), 300, 300, None, ResizeMode::Fit);
    assert_eq!(out.dimensions(), (300, 150));
    let (w, h) = out.dimensions();
    assert!(w <= 300 && h <= 300);
    assert!(w == 300 || h == 300);
}

#[test]
fn cover_covers_the_box_without_cropping() {
    // the target box is squarer than the source: the height is fixed and the
    // width overflows the box
    let out = resize_image(source(1000, 500), 200, 200, None, ResizeMode::Cover);
    assert_eq!(out.dimensions(), (400, 200));
    // the target box is wider than the source: the width is fixed
    let out = resize_image(source(500, 1000), 200, 200, None, ResizeMode::Cover);
    assert_eq!(out.dimensions(), (200, 400));
}

#[test]
fn cover_hits_the_fixed_axis_even_under_rounding() {
    // the aspect comparison fixes the width (4*2 > 3*1); the derived box is
    // (4, 2) and the result lands on it exactly
    let out = resize_image(source(3, 2), 4, 1, None, ResizeMode::Cover);
    assert_eq!(out.dimensions(), (4, 2));
}

#[test]
fn ordinary_requests_are_within_limits() {
    let img = source(1000, 500);
    assert!(libimg::render_within_limits(
        &img,
        &params(Some(200), None, None, false)
    ));
    assert!(libimg::render_within_limits(
        &img,
        &params(Some(200), Some(200), Some(ResizeMode::Cover), false)
    ));
    assert!(libimg::render_within_limits(
        &img,
        &params(Some(150), Some(300), Some(ResizeMode::Crop), false)
    ));
}

#[test]
fn an_extreme_derived_box_is_out_of_limits() {
    // fixing a 4-billion-wide box against a 1x1000 source derives a height
    // above the pixel dimension type
    let img = source(1, 1000);
    assert!(!libimg::render_within_limits(
        &img,
        &params(Some(4_000_000_000), Some(1), Some(ResizeMode::Cover), false)
    ));
    // Crop scales to cover the box before cropping, so the same limit guards it
    assert!(!libimg::render_within_limits(
        &img,
        &params(Some(4_000_000_000), Some(1), Some(ResizeMode::Crop), false)
    ));
}

#[test]
fn explicit_filter_is_accepted() {
    let out = resize_image(
        source(64, 64),
        16,
        16,
        Some(SamplingFilter::Lanczos),
        ResizeMode::Fit,
    );
    assert_eq!(out.dimensions(), (16, 16));
}

#[test]
fn decode_round_trip_keeps_dimensions() {
    let bytes = to_buffer(source(37, 11), OutputFormat::Png).unwrap();
    let back = decode_image(&bytes).unwrap();
    assert_eq!(back.dimensions(), (37, 11));
}

#[test]
fn garbage_bytes_are_a_decode_error() {
    let err = decode_image(&vec![1, 2, 3, 4]).unwrap_err();
    assert!(matches!(err, ImgError::Decode(_)));
    assert_eq!(err.status_code(), 400);
}

#[test]
fn oversized_gif_is_an_encode_error() {
    // GIF dimensions are 16-bit; this width cannot be serialized
    let err = to_buffer(source(70000, 1), OutputFormat::Gif).unwrap_err();
    assert!(matches!(err, ImgError::Encode(_)));
    assert_eq!(err.status_code(), 500);
}

#[test]
fn status_ok_accepts_exactly_2xx() {
    assert!(status_ok(200));
    assert!(status_ok(204));
    assert!(status_ok(299));
    assert!(!status_ok(199));
    assert!(!status_ok(300));
    assert!(!status_ok(404));
    assert!(!status_ok(500));
}

#[test]
fn end_to_end_bare_width_crops_to_derived_box() {
    // a 1000x500 source with w=200 and the default mode: the resolver derives
    // the height 100 and Crop makes the raster exactly 200x100
    let (format, content_type) = select_format("photo.jpg", None).unwrap();
    assert_eq!(format, OutputFormat::Jpeg(100));
    let body = render(
        source(1000, 500),
        format,
        content_type,
        &params(Some(200), None, None, false),
    )
    .unwrap();
    let bytes = match body {
        Body::Raw(b) => b,
        Body::Text(_) => panic!("raw bytes were requested"),
    };
    let out = image::load_from_memory(&bytes).unwrap();
    assert_eq!(out.dimensions(), (200, 100));
}

#[test]
fn end_to_end_base64_answers_with_data_uri_text() {
    let (format, content_type) = select_format("photo.jpg", Some(30)).unwrap();
    assert_eq!(format, OutputFormat::Jpeg(30));
    let body = render(
        source(1000, 500),
        format,
        content_type,
        &params(Some(200), None, None, true),
    )
    .unwrap();
    assert_eq!(response_content_type(&body, content_type), "text/plain");
    let text = match body {
        Body::Text(t) => t,
        Body::Raw(_) => panic!("a data URI was requested"),
    };
    assert!(text.starts_with("data:image/jpeg;base64,"));
    assert!(!text.contains('='));
}

#[test]
fn raw_reply_is_served_under_the_image_content_type() {
    let body = render(
        source(10, 10),
        OutputFormat::Png,
        "image/png",
        &params(None, None, None, false),
    )
    .unwrap();
    assert_eq!(response_content_type(&body, "image/png"), "image/png");
}

#[test]
fn render_surfaces_encode_errors() {
    // GIF dimensions are 16-bit, so this source cannot be re-encoded
    let err = render(
        source(70000, 1),
        OutputFormat::Gif,
        "image/gif",
        &params(None, None, None, false),
    )
    .unwrap_err();
    assert!(matches!(err, ImgError::Encode(_)));
    assert_eq!(err.status_code(), 500);
    assert!(err.message().starts_with("Failed to resize image: "));
}

#[test]
fn render_honors_an_explicit_mode() {
    let body = render(
        source(1000, 500),
        OutputFormat::Png,
        "image/png",
        &params(Some(200), Some(200), Some(ResizeMode::Cover), false),
    )
    .unwrap();
    let bytes = match body {
        Body::Raw(b) => b,
        Body::Text(_) => panic!("raw bytes were requested"),
    };
    let out = image::load_from_memory(&bytes).unwrap();
    assert_eq!(out.dimensions(), (400, 200));
}
