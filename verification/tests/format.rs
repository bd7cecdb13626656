use libimg::select_format;
use libimg::ImgError;
use libimg::OutputFormat;

#[test]
fn jpg_selects_jpeg_with_quality() {
    assert_eq!(
        select_format("photo.jpg", Some(30)).unwrap(),
        (OutputFormat::Jpeg(30), "image/jpeg")
    );
}

#[test]
fn quality_absent_defaults_to_100() {
    assert_eq!(
        select_format("photo.jpg", None).unwrap(),
        (OutputFormat::Jpeg(100), "image/jpeg")
    );
}

#[test]
fn quality_above_100_behaves_as_100() {
    let clamped = select_format("photo.jpg", Some(150)).unwrap();
    let full = select_format("photo.jpg", Some(100)).unwrap();
    assert_eq!(clamped, full);
    assert_eq!(clamped, (OutputFormat::Jpeg(100), "image/jpeg"));
    assert_eq!(
        select_format("photo.jpg", Some(255)).unwrap(),
        (OutputFormat::Jpeg(100), "image/jpeg")
    );
}

#[test]
fn png_and_gif_ignore_quality() {
    assert_eq!(
        select_format("img.png", Some(30)).unwrap(),
        (OutputFormat::Png, "image/png")
    );
    assert_eq!(
        select_format("img.gif", Some(30)).unwrap(),
        (OutputFormat::Gif, "image/gif")
    );
}

#[test]
fn unsupported_extension_is_rejected() {
    let err = select_format("photo.bmp", None).unwrap_err();
    assert!(matches!(err, ImgError::InvalidExtension));
    assert_eq!(err.status_code(), 400);
    assert_eq!(err.message(), "Invalid file extension");
}

#[test]
fn missing_extension_is_rejected() {
    assert!(select_format("photo", None).is_err());
    assert!(select_format("jpg", None).is_err());
    assert!(select_format("", None).is_err());
}

#[test]
fn error_statuses_and_messages() {
    let transport = ImgError::Transport(String::from("connection refused"));
    assert_eq!(transport.status_code(), 400);
    assert_eq!(transport.message(), "Failed to fetch image: connection refused");

    let decode = ImgError::Decode(String::from("bad magic"));
    assert_eq!(decode.status_code(), 400);
    assert_eq!(decode.message(), "Failed to fetch image: bad magic");

    let encode = ImgError::Encode(String::from("sink full"));
    assert_eq!(encode.status_code(), 500);
    assert_eq!(encode.message(), "Failed to resize image: sink full");
}
