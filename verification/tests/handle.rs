use vips_handle::enums::VipsAccess;
use vips_handle::image::VipsImage;
use vips_handle::native::{BlobReply, LoadReply, NativeCall, NativeImage, Step, SvgLoadReply};
use vips_handle::options::{Argument, ArgumentValue, Double, FromFileOptions, FromSvgOptions};
use vips_handle::result::Error;

fn object(reference: usize) -> NativeImage {
    NativeImage { reference, width: 32, height: 16, bands: 3, n_pages: 1, has_alpha: 0 }
}

fn loaded(reference: usize) -> LoadReply {
    LoadReply { image: object(reference), diagnostic: String::new() }
}

fn done<T>(step: Step<T>) -> T {
    match step {
        Step::Done(result) => result,
        Step::Call(call) => panic!("the engine has to be asked first: {call:?}"),
    }
}

fn asked<T>(step: Step<T>) -> NativeCall {
    match step {
        Step::Call(call) => call,
        Step::Done(_) => panic!("done without a call"),
    }
}

fn handle(reference: usize) -> VipsImage {
    done(VipsImage::new_from_file("image.png", None, Some(loaded(reference)))).unwrap()
}

fn release(reference: usize) -> Vec<NativeCall> {
    vec![
        NativeCall::ImageSetKill { image: reference, kill: 1 },
        NativeCall::ObjectUnref { object: reference },
    ]
}

fn terminated(text: &str) -> Vec<u8> {
    let mut bytes = text.as_bytes().to_vec();
    bytes.push(0);
    bytes
}

fn failure(step: Step<Result<VipsImage, Error>>) -> Error {
    match done(step) {
        Ok(_) => panic!("a handle was returned"),
        Err(e) => e,
    }
}

#[test]
fn a_loaded_handle_wraps_the_reference_that_came_back() {
    let image = handle(0x1000);
    assert_eq!(image.reference(), 0x1000);
    assert_ne!(image.reference(), 0);
}

#[test]
fn a_file_load_asks_for_the_loader_with_the_options_as_arguments() {
    let options = Some(FromFileOptions { memory: false, access: VipsAccess::Sequential });
    assert_eq!(
        asked(VipsImage::new_from_file("a.tif", options, None)),
        NativeCall::ImageNewFromFile {
            filename: terminated("a.tif"),
            arguments: vec![
                Argument { name: terminated("memory"), value: ArgumentValue::Int(0) },
                Argument { name: terminated("access"), value: ArgumentValue::Int(1) },
            ],
        }
    );
    assert_eq!(
        asked(VipsImage::new_from_file("a.tif", None, None)),
        NativeCall::ImageNewFromFile { filename: terminated("a.tif"), arguments: vec![] }
    );
}

#[test]
fn a_rendering_asks_for_the_renderer() {
    assert_eq!(
        asked(VipsImage::new_from_svg("a.svg", None, None)),
        NativeCall::SvgLoad { filename: terminated("a.svg"), arguments: vec![] }
    );
    match asked(VipsImage::new_from_svg("a.svg", Some(FromSvgOptions::default()), None)) {
        NativeCall::SvgLoad { filename, arguments } => {
            assert_eq!(filename, terminated("a.svg"));
            assert_eq!(arguments.len(), 8);
            assert_eq!(arguments[0].name, terminated("dpi"));
            assert_eq!(arguments[0].value, ArgumentValue::Double(Double(72.0f64.to_bits())));
        }
        other => panic!("{other:?}"),
    }
}

#[test]
fn a_derivation_asks_with_the_source_the_values_in_order_and_their_number() {
    let source = handle(0x1000);
    let values = [Double(1.0f64.to_bits()), Double(2.0f64.to_bits()), Double(3.0f64.to_bits())];
    let expected = NativeCall::ImageNewFromImage { image: 0x1000, values: values.to_vec(), n: 3 };
    assert_eq!(asked(source.new_from_self(&values, None)), expected);
    assert_eq!(asked(VipsImage::new_from_image(&source, &values, None)), expected);
    assert_eq!(
        asked(source.new_from_self(&[], None)),
        NativeCall::ImageNewFromImage { image: 0x1000, values: vec![], n: 0 }
    );
}

#[test]
fn a_null_image_from_a_file_load_is_a_load_error() {
    let reply = LoadReply {
        image: NativeImage { reference: 0, width: 0, height: 0, bands: 0, n_pages: 0, has_alpha: 0 },
        diagnostic: "VipsForeignLoad: file \"missing.jpg\" does not exist\n".to_string(),
    };
    assert_eq!(
        failure(VipsImage::new_from_file("missing.jpg", None, Some(reply))),
        Error::ImageLoadError("VipsForeignLoad: file \"missing.jpg\" does not exist\n".to_string())
    );
}

#[test]
fn a_null_image_is_a_load_error_whatever_else_the_reply_holds() {
    let reply = LoadReply {
        image: NativeImage { reference: 0, width: 10, height: 10, bands: 3, n_pages: 1, has_alpha: 0 },
        diagnostic: String::new(),
    };
    assert_eq!(
        failure(VipsImage::new_from_file("a.jpg", None, Some(reply))),
        Error::ImageLoadError(String::new())
    );
}

#[test]
fn a_file_name_with_a_zero_byte_fails_with_or_without_a_reply() {
    let options = Some(FromFileOptions { memory: true, access: VipsAccess::Sequential });
    assert_eq!(
        failure(VipsImage::new_from_file("a\0b.jpg", options, None)),
        Error::StringConversionError(1)
    );
    assert_eq!(
        failure(VipsImage::new_from_file("a\0b.jpg", options, Some(loaded(0x1000)))),
        Error::StringConversionError(1)
    );
    let reply = SvgLoadReply { status: 0, image: object(0x1000), diagnostic: String::new() };
    assert_eq!(
        failure(VipsImage::new_from_svg("drawing\0.svg", None, Some(reply))),
        Error::StringConversionError(7)
    );
    assert_eq!(
        failure(VipsImage::new_from_svg("drawing\0.svg", None, None)),
        Error::StringConversionError(7)
    );
}

#[test]
fn a_rendering_succeeds_on_status_zero_with_an_image() {
    let reply = SvgLoadReply { status: 0, image: object(0x2000), diagnostic: String::new() };
    let image =
        done(VipsImage::new_from_svg("a.svg", Some(FromSvgOptions::default()), Some(reply))).unwrap();
    assert_eq!(image.reference(), 0x2000);
    assert_eq!(image.get_dimensions(), (32, 16));
}

#[test]
fn a_rendering_fails_on_a_status_other_than_zero_even_with_an_image() {
    let reply = SvgLoadReply {
        status: -1,
        image: object(0x2000),
        diagnostic: "svgload: SVG rendering failed\n".to_string(),
    };
    assert_eq!(
        failure(VipsImage::new_from_svg("a.svg", None, Some(reply))),
        Error::ImageLoadError("svgload: SVG rendering failed\n".to_string())
    );
    let reply = SvgLoadReply { status: 1, image: object(0x2000), diagnostic: "x".to_string() };
    assert_eq!(
        failure(VipsImage::new_from_svg("a.svg", None, Some(reply))),
        Error::ImageLoadError("x".to_string())
    );
}

#[test]
fn a_rendering_fails_on_a_null_image_even_with_status_zero() {
    let reply = SvgLoadReply { status: 0, image: object(0), diagnostic: "no image\n".to_string() };
    assert_eq!(
        failure(VipsImage::new_from_svg("a.svg", None, Some(reply))),
        Error::ImageLoadError("no image\n".to_string())
    );
}

#[test]
fn a_rendering_fails_when_both_signals_are_bad() {
    let reply = SvgLoadReply { status: -1, image: object(0), diagnostic: "both\n".to_string() };
    assert_eq!(
        failure(VipsImage::new_from_svg("a.svg", None, Some(reply))),
        Error::ImageLoadError("both\n".to_string())
    );
}

#[test]
fn a_derived_handle_owns_the_image_that_came_back() {
    let source = handle(0x1000);
    let values = [Double(255.0f64.to_bits())];
    let reply = LoadReply {
        image: NativeImage { reference: 0x3000, width: 32, height: 16, bands: 1, n_pages: 1, has_alpha: 0 },
        diagnostic: String::new(),
    };
    let derived = done(VipsImage::new_from_image(&source, &values, Some(reply))).unwrap();
    assert_eq!(derived.reference(), 0x3000);
    assert_eq!(derived.get_bands(), 1);
    assert_eq!(source.reference(), 0x1000);
    assert_eq!(source.get_bands(), 3);
}

#[test]
fn a_derivation_registers_neither_handle_with_the_other() {
    let source = handle(0x1000);
    let derived = done(source.new_from_self(&[Double(0)], Some(loaded(0x3000)))).unwrap();
    assert_eq!(derived.drop(), release(0x3000));
    assert_eq!(source.drop(), release(0x1000));
}

#[test]
fn a_derivation_without_an_image_is_a_load_error() {
    let source = handle(0x1000);
    let reply = LoadReply {
        image: object(0),
        diagnostic: "linear: vector must have 1 or 3 elements\n".to_string(),
    };
    assert_eq!(
        failure(source.new_from_self(&[Double(0), Double(0)], Some(reply))),
        Error::ImageLoadError("linear: vector must have 1 or 3 elements\n".to_string())
    );
}

#[test]
fn repeated_reads_return_the_same_values() {
    let image = handle(0x1000);
    let first = (image.get_width(), image.get_height(), image.get_bands(), image.get_page_count());
    let second = (image.get_width(), image.get_height(), image.get_bands(), image.get_page_count());
    assert_eq!(first, (32, 16, 3, 1));
    assert_eq!(first, second);
    assert_eq!(image.get_dimensions(), image.get_dimensions());
}

#[test]
fn dimensions_are_width_and_height() {
    let reply = LoadReply {
        image: NativeImage { reference: 5, width: -7, height: i32::MAX, bands: 1, n_pages: 1, has_alpha: 0 },
        diagnostic: String::new(),
    };
    let image = done(VipsImage::new_from_file("a.png", None, Some(reply))).unwrap();
    assert_eq!(image.get_dimensions(), (image.get_width(), image.get_height()));
    assert_eq!(image.get_dimensions(), (-7, i32::MAX));
}

#[test]
fn transparency_is_the_alpha_answer_being_one() {
    for (has_alpha, expected) in [(0, false), (1, true), (2, false), (-1, false)] {
        let reply = LoadReply {
            image: NativeImage { reference: 5, width: 1, height: 1, bands: 4, n_pages: 1, has_alpha },
            diagnostic: String::new(),
        };
        let image = done(VipsImage::new_from_file("a.png", None, Some(reply))).unwrap();
        assert_eq!(image.is_transparent(), expected);
    }
}

#[test]
fn a_property_query_asks_for_the_type_of_the_property() {
    let image = handle(0x1000);
    assert_eq!(
        asked(image.has_property("icc-profile-data", None)),
        NativeCall::ImageGetTypeof { image: 0x1000, name: terminated("icc-profile-data") }
    );
    assert_eq!(
        asked(image.get_blob("icc-profile-data", None)),
        NativeCall::ImageGetBlob { image: 0x1000, name: terminated("icc-profile-data") }
    );
}

#[test]
fn a_property_is_there_iff_its_type_is_not_zero() {
    let image = handle(0x1000);
    assert_eq!(done(image.has_property("icc-profile-data", Some(0))), Ok(false));
    assert_eq!(done(image.has_property("icc-profile-data", Some(1))), Ok(true));
    assert_eq!(done(image.has_property("icc-profile-data", Some(0x5581_0000_9000))), Ok(true));
    assert_eq!(done(image.has_property("", Some(u64::MAX))), Ok(true));
}

#[test]
fn a_property_name_with_a_zero_byte_is_a_conversion_error() {
    let image = handle(0x1000);
    assert_eq!(
        done(image.has_property("icc\0profile", Some(64))),
        Err(Error::StringConversionError(3))
    );
    assert_eq!(done(image.has_property("icc\0profile", None)), Err(Error::StringConversionError(3)));
    let reply = BlobReply { status: 0, data: vec![1, 2, 3], diagnostic: String::new() };
    assert_eq!(done(image.get_blob("\0", Some(reply))), Err(Error::StringConversionError(0)));
    assert_eq!(done(image.get_blob("\0", None)), Err(Error::StringConversionError(0)));
}

#[test]
fn a_blob_comes_back_whole() {
    let image = handle(0x1000);
    let profile: Vec<u8> = (0..=255u8).collect();
    let reply = BlobReply { status: 0, data: profile.clone(), diagnostic: String::new() };
    let blob = done(image.get_blob("icc-profile-data", Some(reply))).unwrap();
    assert_eq!(blob.len(), 256);
    assert_eq!(blob, profile);
}

#[test]
fn an_empty_blob_is_not_an_error() {
    let image = handle(0x1000);
    let reply = BlobReply { status: 0, data: vec![], diagnostic: "stale text\n".to_string() };
    assert_eq!(done(image.get_blob("exif-data", Some(reply))), Ok(vec![]));
}

#[test]
fn a_missing_blob_is_a_metadata_error() {
    let image = handle(0x1000);
    let reply = BlobReply {
        status: -1,
        data: vec![],
        diagnostic: "vips_image_get: field \"no-such-field\" not found\n".to_string(),
    };
    assert_eq!(
        done(image.get_blob("no-such-field", Some(reply))),
        Err(Error::ImageMetadataError(
            "vips_image_get: field \"no-such-field\" not found\n".to_string()
        ))
    );
}

#[test]
fn a_failed_query_is_an_error_even_where_bytes_came_along() {
    let image = handle(0x1000);
    let reply = BlobReply { status: 3, data: vec![9, 9], diagnostic: "bad\n".to_string() };
    assert_eq!(
        done(image.get_blob("xmp-data", Some(reply))),
        Err(Error::ImageMetadataError("bad\n".to_string()))
    );
}

#[test]
fn kill_is_the_call_that_sets_the_flag() {
    let image = handle(0x1000);
    assert_eq!(image.kill(), NativeCall::ImageSetKill { image: 0x1000, kill: 1 });
}

#[test]
fn kill_may_be_repeated_and_shared() {
    let image = handle(0x1000);
    let reader = &image;
    let first = image.kill();
    let second = reader.kill();
    let third = image.kill();
    assert_eq!(first, second);
    assert_eq!(second, third);
    assert_eq!(reader.get_width(), 32);
}

#[test]
fn a_killed_handle_still_answers() {
    let image = handle(0x1000);
    let before = image.get_dimensions();
    image.kill();
    assert_eq!(image.get_dimensions(), before);
    assert_eq!(image.reference(), 0x1000);
    assert_eq!(done(image.has_property("icc-profile-data", Some(8))), Ok(true));
}

#[test]
fn cleanup_signals_then_releases_its_own_object() {
    let (calls, kept) = handle(0x1000).cleanup();
    assert_eq!(calls, release(0x1000));
    assert!(kept.is_empty());
}

#[test]
fn cleanup_releases_once_however_often_kill_was_called() {
    let image = handle(0x1000);
    image.kill();
    image.kill();
    image.kill();
    let (calls, _) = image.cleanup();
    assert_eq!(calls, release(0x1000));
    let releases =
        calls.iter().filter(|call| matches!(call, NativeCall::ObjectUnref { .. })).count();
    assert_eq!(releases, 1);
}

#[test]
fn cleanup_leaves_the_kept_handles_alone_and_hands_them_back() {
    let mut parent = handle(0x1000);
    parent.keepalive(handle(0x2000));
    parent.keepalive(handle(0x3000));
    let (calls, kept) = parent.cleanup();
    assert_eq!(calls, release(0x1000));
    assert_eq!(kept.len(), 2);
    assert_eq!(kept[0].reference(), 0x2000);
    assert_eq!(kept[1].reference(), 0x3000);
    assert_eq!(kept[0].get_dimensions(), (32, 16));
}

#[test]
fn drop_is_cleanup_followed_by_the_drop_of_each_kept_handle() {
    let build = || {
        let mut inner = handle(0x2000);
        inner.keepalive(handle(0x2100));
        let mut parent = handle(0x1000);
        parent.keepalive(inner);
        parent.keepalive(handle(0x3000));
        parent
    };
    let (mut calls, kept) = build().cleanup();
    for child in kept {
        calls.extend(child.drop());
    }
    assert_eq!(build().drop(), calls);
}

#[test]
fn kept_handles_are_released_after_their_keeper_in_order() {
    let mut parent = handle(0x1000);
    parent.keepalive(handle(0x2000));
    parent.keepalive(handle(0x3000));
    let mut expected = release(0x1000);
    expected.extend(release(0x2000));
    expected.extend(release(0x3000));
    assert_eq!(parent.drop(), expected);
}

#[test]
fn what_a_kept_handle_keeps_goes_right_after_it() {
    let mut inner = handle(0x2000);
    inner.keepalive(handle(0x2100));
    inner.keepalive(handle(0x2200));
    let mut parent = handle(0x1000);
    parent.keepalive(inner);
    parent.keepalive(handle(0x3000));
    assert_eq!(parent.release_order(), vec![0x1000, 0x2000, 0x2100, 0x2200, 0x3000]);
    let mut expected = Vec::new();
    for reference in [0x1000, 0x2000, 0x2100, 0x2200, 0x3000] {
        expected.extend(release(reference));
    }
    assert_eq!(parent.drop(), expected);
}

#[test]
fn keepalive_is_permitted_after_kill() {
    let mut parent = handle(0x1000);
    parent.kill();
    parent.keepalive(handle(0x2000));
    assert_eq!(parent.get_dimensions(), (32, 16));
    let mut expected = release(0x1000);
    expected.extend(release(0x2000));
    assert_eq!(parent.drop(), expected);
}

#[test]
fn keepalive_leaves_the_image_of_the_keeper_alone() {
    let mut parent = handle(0x1000);
    parent.keepalive(handle(0x2000));
    assert_eq!(parent.reference(), 0x1000);
    assert_eq!(parent.get_bands(), 3);
}

#[test]
fn distinct_objects_have_one_owner_each() {
    let mut inner = handle(0x2000);
    inner.keepalive(handle(0x2100));
    let mut parent = handle(0x1000);
    assert_eq!(parent.owns_each_object_once(), true);
    parent.keepalive(inner);
    parent.keepalive(handle(0x3000));
    assert_eq!(parent.owns_each_object_once(), true);
}

#[test]
fn an_object_under_two_handles_is_found() {
    let mut parent = handle(0x1000);
    parent.keepalive(handle(0x1000));
    assert_eq!(parent.owns_each_object_once(), false);
    let mut twice = release(0x1000);
    twice.extend(release(0x1000));
    assert_eq!(parent.drop(), twice);

    let mut inner = handle(0x2000);
    inner.keepalive(handle(0x3000));
    let mut parent = handle(0x1000);
    parent.keepalive(handle(0x3000));
    parent.keepalive(inner);
    assert_eq!(parent.owns_each_object_once(), false);
}
