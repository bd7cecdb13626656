use libimg::get_size;

#[test]
fn absent_dimensions_keep_source() {
    assert_eq!(get_size(None, None, 800, 600), (800, 600));
    assert_eq!(get_size(None, None, 1, 1), (1, 1));
}

#[test]
fn bare_width_above_source_never_upscales() {
    assert_eq!(get_size(Some(900), None, 800, 600), (800, 600));
    assert_eq!(get_size(Some(801), None, 800, 600), (800, 600));
}

#[test]
fn bare_height_above_source_never_upscales() {
    assert_eq!(get_size(None, Some(600), 1000, 500), (1000, 500));
}

#[test]
fn zero_counts_as_absent() {
    assert_eq!(get_size(Some(0), Some(0), 70, 90), (70, 90));
    assert_eq!(
        get_size(Some(0), Some(300), 1000, 500),
        get_size(None, Some(300), 1000, 500)
    );
    assert_eq!(
        get_size(Some(300), Some(0), 1000, 500),
        get_size(Some(300), None, 1000, 500)
    );
}

#[test]
fn both_dimensions_taken_verbatim() {
    assert_eq!(get_size(Some(123), Some(45), 1000, 500), (123, 45));
    // unaffected by the source aspect ratio
    assert_eq!(get_size(Some(123), Some(45), 10, 2000), (123, 45));
}

#[test]
fn bare_width_derives_height_from_aspect_ratio() {
    assert_eq!(get_size(Some(200), None, 1000, 500), (200, 100));
    // rounded to nearest, halves up
    assert_eq!(get_size(Some(3), None, 4, 2), (3, 2));
    assert_eq!(get_size(Some(1), None, 3, 2), (1, 1));
}

#[test]
fn bare_height_derives_width_from_aspect_ratio() {
    assert_eq!(get_size(None, Some(100), 1000, 500), (200, 100));
}

#[test]
fn derived_dimension_never_collapses_to_zero() {
    assert_eq!(get_size(Some(200), None, 1000, 1), (200, 1));
    assert_eq!(get_size(None, Some(1), 1, 1000), (1, 1));
}
