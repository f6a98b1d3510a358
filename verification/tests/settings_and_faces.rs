use cruelty_style::faces::{decode_face_frames, face_file_name, face_frame_png, is_gif_path};
use cruelty_style::settings::{settings_with, update_settings, SettingsUpdate};
use image::GenericImageView;

fn rewritten(u: SettingsUpdate) -> String {
    match u {
        SettingsUpdate::Rewritten(text) => text,
        _ => panic!("an object must be rewritten"),
    }
}

#[test]
fn settings_get_fov_and_gamma() {
    let text = rewritten(update_settings("{\"a\":1,\"FOV\":70}", Some("90.5"), Some("1.25")));
    assert_eq!(text, "{\"FOV\":90.5,\"a\":1,\"gamma\":1.25}");
}

#[test]
fn settings_exact_text() {
    let text = rewritten(update_settings("{\"FOV\":90.0,\"gamma\":1.0,\"x\":1}", Some("110.0"), None));
    assert_eq!(text, "{\"FOV\":110.0,\"gamma\":1.0,\"x\":1}");
}

#[test]
fn settings_keep_missing_values() {
    let text = rewritten(update_settings("{\"b\":true}", None, Some("2.0")));
    assert_eq!(text, "{\"b\":true,\"gamma\":2.0}");
}

#[test]
fn settings_values_read_back_and_settle() {
    let first = rewritten(update_settings("{\"z\":[1,2]}", Some("100.0"), Some("1.5")));
    let v: serde_json::Value = serde_json::from_str(&first).unwrap();
    assert_eq!(v["FOV"].as_f64(), Some(100.0));
    assert_eq!(v["gamma"].as_f64(), Some(1.5));
    let second = rewritten(update_settings(&first, Some("100.0"), Some("1.5")));
    assert_eq!(first, second);
}

#[test]
fn settings_that_are_not_an_object_are_left_alone() {
    assert!(matches!(update_settings("[1,2]", Some("1.0"), None), SettingsUpdate::Unchanged));
    assert!(matches!(update_settings("{", Some("1.0"), None), SettingsUpdate::Unchanged));
    assert!(matches!(update_settings("", None, None), SettingsUpdate::Unchanged));
    assert!(matches!(update_settings("{}", Some("nope"), None), SettingsUpdate::InvalidValue));
}

#[test]
fn settings_object_keys() {
    let m = settings_with("{\"x\":0}", Some("3.0"), None).unwrap();
    let keys: Vec<&String> = m.keys().collect();
    assert_eq!(keys, vec!["FOV", "x"]);
}

#[test]
fn gif_paths_are_recognised_in_any_case() {
    assert!(is_gif_path("/tmp/Face.GIF"));
    assert!(is_gif_path("a.gif"));
    assert!(!is_gif_path("a.gifs"));
    assert!(!is_gif_path("gif"));
    assert!(!is_gif_path("a.png"));
}

#[test]
fn face_file_names() {
    assert_eq!(face_file_name(0), b"custom_face_0.png".to_vec());
    assert_eq!(face_file_name(17), b"custom_face_17.png".to_vec());
}

fn tiny_png() -> Vec<u8> {
    let img = image::RgbaImage::from_pixel(2, 3, image::Rgba([10, 20, 30, 255]));
    let mut out = Vec::new();
    image::DynamicImage::ImageRgba8(img)
        .write_to(&mut std::io::Cursor::new(&mut out), image::ImageOutputFormat::Png)
        .unwrap();
    out
}

fn tiny_gif(frames: usize) -> Vec<u8> {
    let mut out = Vec::new();
    {
        let mut enc = image::codecs::gif::GifEncoder::new(&mut out);
        for k in 0..frames {
            let img = image::RgbaImage::from_pixel(4, 4, image::Rgba([k as u8 * 40, 0, 0, 255]));
            enc.encode_frame(image::Frame::new(img)).unwrap();
        }
    }
    out
}

#[test]
fn still_image_gives_one_scaled_frame() {
    let frames = decode_face_frames(&tiny_png(), "face.PNG").unwrap();
    assert_eq!(frames.len(), 1);
    let png = face_frame_png(&frames[0]).unwrap();
    assert_eq!(&png[..8], &[137u8, 80, 78, 71, 13, 10, 26, 10]);
    let back = image::load_from_memory(&png).unwrap();
    assert_eq!(back.dimensions(), (196, 196));
    assert_eq!(back.get_pixel(100, 100), image::Rgba([10, 20, 30, 255]));
    let expected = image::load_from_memory(&tiny_png()).unwrap().resize_exact(196, 196, image::imageops::FilterType::Nearest);
    assert_eq!(back.to_rgba8().into_raw(), expected.to_rgba8().into_raw());
}

#[test]
fn animation_gives_every_frame_in_order() {
    let frames = decode_face_frames(&tiny_gif(3), "anim.Gif").unwrap();
    assert_eq!(frames.len(), 3);
    let second = image::load_from_memory(&face_frame_png(&frames[1]).unwrap()).unwrap();
    assert_eq!(second.dimensions(), (196, 196));
    assert_eq!(second.get_pixel(5, 5), image::Rgba([40, 0, 0, 255]));
}

#[test]
fn gif_case_does_not_matter() {
    let a: Vec<Vec<u8>> = decode_face_frames(&tiny_gif(2), "a.gif").unwrap().iter().map(|f| face_frame_png(f).unwrap()).collect();
    let b: Vec<Vec<u8>> = decode_face_frames(&tiny_gif(2), "b.GIF").unwrap().iter().map(|f| face_frame_png(f).unwrap()).collect();
    assert_eq!(a, b);
}

#[test]
fn undecodable_images_fail() {
    assert!(decode_face_frames(b"not an image", "x.gif").is_none());
    assert!(decode_face_frames(b"not an image", "x.png").is_none());
    assert!(decode_face_frames(&tiny_png(), "x.unknownext").is_none());
    assert!(decode_face_frames(&tiny_png(), "noextension").is_none());
    assert!(decode_face_frames(&tiny_png(), "x.Png").is_some());
}
