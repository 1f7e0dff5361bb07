use image::DynamicImage;
use image::{GrayImage, Rgb32FImage};
use image_service::naming::{
    derive_output_filename, generate_stored_name, join_path, original_or_placeholder,
    output_filename, storable_name, stored_name,
};
use image_service::operation::{flip_direction_from, rotation_from_degrees, FlipDirection, Operation, Rotation};
use image_service::picture::{Picture, MAX_BRIGHTEN};
use image_service::process::{
    open_failed, plan_after_open, refuse_unstored_name, save_failed, saved, ProcessRequest, ProcessStep, ServiceConfig,
};
use image_service::text::{join_with_underscore, read_i32, read_u32, same_text};
use image_service::upload::UploadSession;

fn texts(items: &[&str]) -> Option<Vec<String>> {
    Some(items.iter().map(|s| s.to_string()).collect())
}

fn config() -> ServiceConfig {
    ServiceConfig { upload_dir: "uploads".to_string(), processed_dir: "processed".to_string() }
}

fn request(filename: &str, operation: &str, params: Option<Vec<String>>) -> ProcessRequest {
    ProcessRequest { filename: filename.to_string(), operation: operation.to_string(), params }
}

fn picture(width: u32, height: u32) -> Picture {
    Picture::new(DynamicImage::new_rgb8(width, height))
}

#[test]
fn reads_unsigned_numbers() {
    assert_eq!(read_u32("50"), Some(50));
    assert_eq!(read_u32("+7"), Some(7));
    assert_eq!(read_u32("4294967295"), Some(u32::MAX));
    assert_eq!(read_u32("4294967296"), None);
    assert_eq!(read_u32("-1"), None);
    assert_eq!(read_u32(""), None);
    assert_eq!(read_u32("+"), None);
    assert_eq!(read_u32("12px"), None);
    assert_eq!(read_u32(" 12"), None);
}

#[test]
fn reads_signed_numbers() {
    assert_eq!(read_i32("-20"), Some(-20));
    assert_eq!(read_i32("+45"), Some(45));
    assert_eq!(read_i32("-2147483648"), Some(i32::MIN));
    assert_eq!(read_i32("2147483648"), None);
    assert_eq!(read_i32("-"), None);
    assert_eq!(read_i32("ninety"), None);
}

#[test]
fn compares_and_joins_text() {
    assert!(same_text("image", "image"));
    assert!(!same_text("image", "Image"));
    assert_eq!(join_with_underscore(&vec!["50".to_string(), "60".to_string()]), "50_60");
    assert_eq!(join_with_underscore(&vec!["a".to_string()]), "a");
    assert_eq!(join_with_underscore(&vec![]), "");
    assert_eq!(join_with_underscore(&vec!["".to_string(), "".to_string()]), "_");
}

#[test]
fn resize_reads_width_and_height_with_defaults() {
    assert_eq!(
        Operation::from_request("resize", &texts(&["50", "50"])),
        Some(Operation::Resize { width: 50, height: 50 })
    );
    assert_eq!(
        Operation::from_request("resize", &None),
        Some(Operation::Resize { width: 100, height: 100 })
    );
    assert_eq!(
        Operation::from_request("resize", &texts(&["wide", "30"])),
        Some(Operation::Resize { width: 100, height: 30 })
    );
    assert_eq!(
        Operation::from_request("resize", &texts(&["70"])),
        Some(Operation::Resize { width: 70, height: 100 })
    );
}

#[test]
fn other_operations_read_their_parameters() {
    assert_eq!(Operation::from_request("grayscale", &None), Some(Operation::Grayscale));
    assert_eq!(
        Operation::from_request("blur", &texts(&["2.5"])),
        Some(Operation::Blur { sigma_text: Some("2.5".to_string()) })
    );
    assert_eq!(Operation::from_request("blur", &None), Some(Operation::Blur { sigma_text: None }));
    assert_eq!(
        Operation::from_request("brighten", &texts(&["-20"])),
        Some(Operation::Brighten { delta: -20 })
    );
    assert_eq!(
        Operation::from_request("brighten", &texts(&["bright"])),
        Some(Operation::Brighten { delta: 10 })
    );
    assert_eq!(
        Operation::from_request("rotate", &texts(&["180"])),
        Some(Operation::Rotate { rotation: Rotation::Half })
    );
    assert_eq!(
        Operation::from_request("rotate", &texts(&["270"])),
        Some(Operation::Rotate { rotation: Rotation::ThreeQuarters })
    );
    assert_eq!(
        Operation::from_request("flip", &texts(&["vertical"])),
        Some(Operation::Flip { direction: FlipDirection::Vertical })
    );
    assert_eq!(
        Operation::from_request("flip", &None),
        Some(Operation::Flip { direction: FlipDirection::Horizontal })
    );
}

#[test]
fn unusual_rotation_is_a_quarter_turn() {
    let quarter = Operation::from_request("rotate", &texts(&["90"]));
    assert_eq!(Operation::from_request("rotate", &texts(&["45"])), quarter);
    assert_eq!(Operation::from_request("rotate", &texts(&["-90"])), quarter);
    assert_eq!(Operation::from_request("rotate", &texts(&["0"])), quarter);
    assert_eq!(rotation_from_degrees(360), Rotation::Quarter);
    assert_eq!(rotation_from_degrees(90), Rotation::Quarter);
}

#[test]
fn unknown_flip_direction_is_horizontal() {
    let horizontal = Operation::from_request("flip", &texts(&["horizontal"]));
    assert_eq!(Operation::from_request("flip", &texts(&["diagonal"])), horizontal);
    assert_eq!(Operation::from_request("flip", &texts(&["Vertical"])), horizontal);
    assert_eq!(flip_direction_from(Some("sideways")), FlipDirection::Horizontal);
    assert_eq!(flip_direction_from(Some("vertical")), FlipDirection::Vertical);
}

#[test]
fn unknown_operation_is_none() {
    assert_eq!(Operation::from_request("sharpen", &None), None);
    assert_eq!(Operation::from_request("Resize", &texts(&["50", "50"])), None);
    assert_eq!(Operation::from_request("", &None), None);
}

#[test]
fn stored_names_are_token_hyphen_clean_name() {
    assert_eq!(stored_name("abc", "cat.png"), "abc-cat.png");
    assert_eq!(original_or_placeholder(None), "unknown");
    assert_eq!(original_or_placeholder(Some("cat.png")), "cat.png");
    let name = generate_stored_name(Some("../secret/cat.png"));
    assert!(name.len() > 37);
    assert!(!name.contains('/'));
    assert_eq!(name.as_bytes()[36], b'-');
    assert!(name.ends_with("-..secretcat.png"));
    assert!(generate_stored_name(None).ends_with("-unknown"));
    assert_ne!(generate_stored_name(Some("a.png")), generate_stored_name(Some("a.png")));
}

#[test]
fn output_names_follow_the_pattern() {
    assert_eq!(
        output_filename("photo", "resize", &texts(&["50", "50"]), "png"),
        "photo_resize_50_50.png"
    );
    assert_eq!(output_filename("photo", "grayscale", &None, "jpg"), "photo_grayscale_default.jpg");
    assert_eq!(output_filename("photo", "blur", &texts(&[]), "png"), "photo_blur_.png");
    assert_eq!(join_path("uploads", "a.png"), "uploads/a.png");
    assert_eq!(config().upload_path("a.png"), "uploads/a.png");
}

#[test]
fn output_names_take_stem_and_extension_of_the_source() {
    assert_eq!(
        derive_output_filename("uploads/abc-photo.png", "rotate", &texts(&["45"])),
        "abc-photo_rotate_45.png"
    );
    assert_eq!(derive_output_filename("uploads/noext", "flip", &None), "noext_flip_default.");
    assert_eq!(
        derive_output_filename("uploads/a.tar.gz", "brighten", &texts(&["5", "x"])),
        "a.tar_brighten_5_x.gz"
    );
}

#[test]
fn same_request_gets_same_output_name() {
    let a = derive_output_filename("uploads/x.png", "resize", &texts(&["50", "50"]));
    let b = derive_output_filename("uploads/x.png", "resize", &texts(&["50", "50"]));
    assert_eq!(a, b);
}

#[test]
fn transforms_set_the_expected_size() {
    let p = picture(10, 20);
    let r = p.transform(&Operation::Resize { width: 50, height: 50 });
    assert_eq!((r.width(), r.height()), (50, 50));
    let r = p.transform(&Operation::Rotate { rotation: Rotation::Quarter });
    assert_eq!((r.width(), r.height()), (20, 10));
    let r = p.transform(&Operation::Rotate { rotation: Rotation::Half });
    assert_eq!((r.width(), r.height()), (10, 20));
    let r = p.transform(&Operation::Rotate { rotation: Rotation::ThreeQuarters });
    assert_eq!((r.width(), r.height()), (20, 10));
    let r = p.transform(&Operation::Flip { direction: FlipDirection::Vertical });
    assert_eq!((r.width(), r.height()), (10, 20));
    let r = p.transform(&Operation::Grayscale);
    assert_eq!((r.width(), r.height()), (10, 20));
    assert!(matches!(r.decoded(), DynamicImage::ImageLuma8(_)));
    let r = p.transform(&Operation::Brighten { delta: 10 });
    assert_eq!((r.width(), r.height()), (10, 20));
}

#[test]
fn resize_fifty_by_fifty_from_request() {
    for (w, h) in [(1, 1), (300, 7), (50, 50)] {
        match plan_after_open(&config(), &request("x.png", "resize", texts(&["50", "50"])), picture(w, h)) {
            ProcessStep::Save { picture, output_filename, output_path } => {
                assert_eq!((picture.width(), picture.height()), (50, 50));
                assert_eq!(output_filename, "x_resize_50_50.png");
                assert_eq!(output_path, "processed/x_resize_50_50.png");
            }
            _ => panic!("expected a save"),
        }
    }
}

#[test]
fn unknown_operation_is_a_bad_request() {
    match plan_after_open(&config(), &request("x.png", "sharpen", None), picture(4, 4)) {
        ProcessStep::Respond(reply) => {
            assert_eq!(reply.status, 400);
            assert!(!reply.body.success);
            assert_eq!(reply.body.message, "Unknown operation: sharpen");
            assert_eq!(reply.body.original_filename, "x.png");
            assert_eq!(reply.body.processed_filename, None);
        }
        _ => panic!("expected an answer"),
    }
}

#[test]
fn blur_is_left_to_the_caller() {
    match plan_after_open(&config(), &request("x.png", "blur", texts(&["2.5"])), picture(4, 4)) {
        ProcessStep::BlurThenSave { picture, sigma_text, output_filename, output_path } => {
            assert_eq!(sigma_text, Some("2.5".to_string()));
            assert_eq!((picture.width(), picture.height()), (4, 4));
            assert_eq!(output_filename, "x_blur_2.5.png");
            assert_eq!(output_path, "processed/x_blur_2.5.png");
        }
        _ => panic!("expected a blur"),
    }
}

#[test]
fn oversized_resize_is_a_server_error() {
    let step = plan_after_open(
        &config(),
        &request("x.png", "resize", texts(&["4294967295", "4294967295"])),
        picture(1, 1),
    );
    match step {
        ProcessStep::Respond(reply) => {
            assert_eq!(reply.status, 500);
            assert!(!reply.body.success);
            assert_eq!(reply.body.processed_filename, None);
        }
        _ => panic!("expected an answer"),
    }
}

#[test]
fn missing_upload_is_a_server_error() {
    let reply = open_failed(&request("never.png", "grayscale", None), "No such file or directory (os error 2)");
    assert_eq!(reply.status, 500);
    assert!(!reply.body.success);
    assert_eq!(reply.body.message, "Failed to open image: No such file or directory (os error 2)");
    assert_eq!(reply.body.original_filename, "never.png");
    assert_eq!(reply.body.processed_filename, None);
}

#[test]
fn save_outcomes() {
    let req = request("x.png", "flip", None);
    let ok = saved(&req, "x_flip_default.png".to_string());
    assert_eq!(ok.status, 200);
    assert!(ok.body.success);
    assert_eq!(ok.body.message, "Image processed with flip operation");
    assert_eq!(ok.body.original_filename, "x.png");
    assert_eq!(ok.body.processed_filename, Some("x_flip_default.png".to_string()));
    let failed = save_failed(&req, "disk full");
    assert_eq!(failed.status, 500);
    assert!(!failed.body.success);
    assert_eq!(failed.body.message, "Failed to save processed image: disk full");
    assert_eq!(failed.body.processed_filename, None);
}

#[test]
fn upload_without_image_field_fails() {
    let mut session = UploadSession::new();
    assert_eq!(session.on_field(Some("file"), Some("a.png")), None);
    assert_eq!(session.on_field(None, None), None);
    let reply = session.finish();
    assert_eq!(reply.status, 400);
    assert!(!reply.body.success);
    assert_eq!(reply.body.message, "No image uploaded");
    assert_eq!(reply.body.original_filename, "");
    assert_eq!(reply.body.processed_filename, None);
    assert_eq!(UploadSession::new().finish().status, 400);
}

#[test]
fn upload_stores_the_first_image_field() {
    let mut session = UploadSession::new();
    assert_eq!(session.on_field(Some("note"), None), None);
    let stored = session.on_field(Some("image"), Some("cat.png")).expect("stored");
    assert!(stored.ends_with("-cat.png"));
    assert_eq!(session.on_field(Some("image"), Some("dog.png")), None);
    let reply = session.finish();
    assert_eq!(reply.status, 200);
    assert!(reply.body.success);
    assert_eq!(reply.body.message, "Image uploaded successfully");
    assert_eq!(reply.body.original_filename, stored);
    assert!(!reply.body.original_filename.is_empty());
    assert_eq!(reply.body.processed_filename, None);
}

fn gray(width: u32, height: u32, pixels: Vec<u8>) -> Picture {
    Picture::new(DynamicImage::ImageLuma8(GrayImage::from_raw(width, height, pixels).unwrap()))
}

fn luma_bytes(p: &Picture) -> Vec<u8> {
    p.decoded().to_luma8().into_raw()
}

#[test]
fn turns_and_flips_move_pixels() {
    let p = gray(2, 1, vec![1, 2]);
    assert_eq!(luma_bytes(&p.transform(&Operation::Flip { direction: FlipDirection::Horizontal })), vec![2, 1]);
    assert_eq!(luma_bytes(&p.transform(&Operation::Flip { direction: FlipDirection::Vertical })), vec![1, 2]);
    assert_eq!(luma_bytes(&p.transform(&Operation::Rotate { rotation: Rotation::Quarter })), vec![1, 2]);
    assert_eq!(luma_bytes(&p.transform(&Operation::Rotate { rotation: Rotation::ThreeQuarters })), vec![2, 1]);
    assert_eq!(luma_bytes(&p.transform(&Operation::Rotate { rotation: Rotation::Half })), vec![2, 1]);
    let q = gray(2, 2, vec![1, 2, 3, 4]);
    assert_eq!(luma_bytes(&q.transform(&Operation::Rotate { rotation: Rotation::Quarter })), vec![3, 1, 4, 2]);
    assert_eq!(luma_bytes(&q.transform(&Operation::Flip { direction: FlipDirection::Vertical })), vec![3, 4, 1, 2]);
}

#[test]
fn fallback_rotation_and_flip_give_the_same_pixels() {
    let img = gray(3, 2, vec![1, 2, 3, 4, 5, 6]);
    let odd = Operation::from_request("rotate", &texts(&["45"])).unwrap();
    let ninety = Operation::from_request("rotate", &texts(&["90"])).unwrap();
    assert_eq!(luma_bytes(&img.transform(&odd)), luma_bytes(&img.transform(&ninety)));
    let diagonal = Operation::from_request("flip", &texts(&["diagonal"])).unwrap();
    let horizontal = Operation::from_request("flip", &texts(&["horizontal"])).unwrap();
    assert_eq!(luma_bytes(&img.transform(&diagonal)), luma_bytes(&img.transform(&horizontal)));
}

#[test]
fn brighten_is_clamped() {
    let p = gray(2, 1, vec![10, 250]);
    assert_eq!(luma_bytes(&p.transform(&Operation::Brighten { delta: 10 })), vec![20, 255]);
    assert_eq!(luma_bytes(&p.transform(&Operation::Brighten { delta: -20 })), vec![0, 230]);
    assert_eq!(luma_bytes(&p.transform(&Operation::Brighten { delta: i32::MAX })), vec![255, 255]);
    assert_eq!(luma_bytes(&p.transform(&Operation::Brighten { delta: i32::MIN })), vec![0, 0]);
    assert_eq!(MAX_BRIGHTEN, 65535);
    match plan_after_open(&config(), &request("x.png", "brighten", texts(&["2147483647"])), gray(1, 1, vec![3])) {
        ProcessStep::Save { picture, .. } => assert_eq!(luma_bytes(&picture), vec![255]),
        _ => panic!("expected a save"),
    }
}

#[test]
fn brighten_of_float_image_is_left_to_the_caller() {
    let p = Picture::new(DynamicImage::ImageRgb32F(Rgb32FImage::new(2, 3)));
    assert!(p.float_samples());
    assert!(!gray(1, 1, vec![0]).float_samples());
    match plan_after_open(&config(), &request("x.exr", "brighten", texts(&["2147483647"])), p) {
        ProcessStep::BrightenThenSave { picture, delta, output_filename, output_path } => {
            assert_eq!(delta, MAX_BRIGHTEN);
            assert_eq!((picture.width(), picture.height()), (2, 3));
            assert_eq!(output_filename, "x_brighten_2147483647.exr");
            assert_eq!(output_path, "processed/x_brighten_2147483647.exr");
            let out = picture.decoded().brighten(delta);
            assert_eq!((out.width(), out.height()), (2, 3));
            assert!(matches!(out, DynamicImage::ImageRgb32F(_)));
        }
        _ => panic!("expected a brightening left to the caller"),
    }
    let q = Picture::new(DynamicImage::ImageRgba32F(image::Rgba32FImage::new(1, 1)));
    match plan_after_open(&config(), &request("y.exr", "brighten", None), q) {
        ProcessStep::BrightenThenSave { delta, .. } => assert_eq!(delta, 10),
        _ => panic!("expected a brightening left to the caller"),
    }
}

#[test]
fn grayscale_keeps_one_luminance() {
    let rgb = Picture::new(DynamicImage::new_rgb8(2, 2));
    assert!(matches!(rgb.transform(&Operation::Grayscale).decoded(), DynamicImage::ImageLuma8(_)));
}

#[test]
fn stored_name_is_cleaned() {
    let name = generate_stored_name(Some("a\\b:c*?\"<>|\u{1}\u{85}d.png"));
    assert!(name.ends_with("-abcd.png"));
    assert_eq!(name.len(), 36 + 1 + 8);
    assert!(name[..36].chars().all(|c| c.is_ascii_hexdigit() && !c.is_ascii_uppercase() || c == '-'));
    assert!(generate_stored_name(Some("photo.png")).ends_with("-photo.png"));
}

#[test]
fn storable_names() {
    assert!(storable_name("abc-photo.png"));
    assert!(!storable_name(""));
    assert!(!storable_name("."));
    assert!(!storable_name(".."));
    assert!(!storable_name("../processed/x.png"));
    assert!(!storable_name("a\\b.png"));
    assert!(!storable_name("c:x.png"));
}

#[test]
fn unstored_name_is_refused() {
    let reply = refuse_unstored_name(&request("../processed/x.png", "grayscale", None)).unwrap();
    assert_eq!(reply.status, 500);
    assert!(!reply.body.success);
    assert_eq!(reply.body.message, "Failed to open image: no such upload");
    assert_eq!(reply.body.processed_filename, None);
    assert!(refuse_unstored_name(&request("abc-photo.png", "grayscale", None)).is_none());
}

#[test]
fn processed_name_from_stem_and_extension() {
    assert_eq!(derive_output_filename("uploads/photo.png", "grayscale", &None), "photo_grayscale_default.png");
    assert_eq!(derive_output_filename("uploads/.hidden", "flip", &None), ".hidden_flip_default.");
    assert_eq!(derive_output_filename("uploads/a.", "flip", &None), "a_flip_default.");
}

#[test]
fn reads_numbers_like_std() {
    for t in ["00090", "+0", "-0", "+-1", "-+1", "\u{663}", "1_000", "99999999999", "-2147483649", "2147483647", "", "-", "+"] {
        assert_eq!(read_u32(t), t.parse::<u32>().ok(), "{}", t);
        assert_eq!(read_i32(t), t.parse::<i32>().ok(), "{}", t);
    }
    assert_eq!(read_i32("00090"), Some(90));
}
