use artifice::captions::{caption_media, StackOrder, MAX_LEN};
use artifice::ffmpeg_babysitter::ffbabysit;
use artifice::media_helpers::{
    auto_width, file_name_of, named_after, plan_width, resize_media, rotate_and_flip,
    temp_file_name, MediaError, MediaType, Rotation, UrlAndMediaType, MAX_SIZE, MIN_SIZE,
};
use artifice::progress::Progress;
use artifice::text::{find_first, find_last, push_decimal, same_text};

const KINDS: [MediaType; 4] =
    [MediaType::Image, MediaType::Audio, MediaType::Gif, MediaType::Video];

#[test]
fn captions_caption_test() {
    for kind in KINDS {
        println!("Running {:?}", kind);
        let caption_result = caption_media("This is a test caption.", kind, false);
        match caption_result {
            Ok(okay) => {
                println!("Got order {:?}", okay);
                assert_eq!(okay, StackOrder::CaptionFirst);
            }
            Err(e) => {
                if kind != MediaType::Audio {
                    panic!("{}", e.message())
                }
            }
        }
    }
}

#[test]
fn captions_rewrite_caption_test() {
    for kind in KINDS {
        println!("Running {:?}", kind);
        let caption_result = caption_media("This is a test caption.", kind, false);
        match caption_result {
            Ok(okay) => {
                println!("Got order {:?}", okay);
            }
            Err(e) => {
                if kind != MediaType::Audio {
                    panic!("{}", e.message())
                }
                assert_eq!(e, MediaError::CaptionAudio);
            }
        }
    }
}

#[test]
fn resize_test() {
    for kind in KINDS {
        println!("Running {:?}", kind);
        let resize_result = resize_media(kind, plan_width(128, 128), 128);
        match resize_result {
            Ok(okay) => {
                println!("Got filter {}", okay);
                assert_eq!(okay, "scale=128:128");
            }
            Err(e) => {
                if kind != MediaType::Audio {
                    panic!("{}", e.message())
                }
            }
        }
    }
}

#[test]
fn auto_resize_test() {
    for kind in [MediaType::Image, MediaType::Gif, MediaType::Video] {
        println!("Running {:?}", kind);
        let resize_result = resize_media(kind, plan_width(167, 0), 0);
        match resize_result {
            Ok(okay) => {
                println!("Got filter {}", okay);
                assert_eq!(okay, "scale=168:0");
            }
            Err(e) => {
                if kind != MediaType::Audio {
                    panic!("{}", e.message())
                }
            }
        }
    }
}

#[test]
fn content_types_name_their_kind() {
    assert_eq!(MediaType::from("video/mp4".to_string()), Some(MediaType::Video));
    assert_eq!(MediaType::from("audio/mpeg".to_string()), Some(MediaType::Audio));
    assert_eq!(MediaType::from("image/png".to_string()), Some(MediaType::Image));
    assert_eq!(MediaType::from("image/gif".to_string()), Some(MediaType::Gif));
    assert_eq!(MediaType::from("image/jpeg".to_string()), Some(MediaType::Image));
}

#[test]
fn odd_content_types() {
    assert_eq!(MediaType::from(String::new()), None);
    assert_eq!(MediaType::from("text/plain".to_string()), None);
    assert_eq!(MediaType::from("application/json".to_string()), None);
    assert_eq!(MediaType::from("gif".to_string()), None);
    assert_eq!(MediaType::from("/image".to_string()), None);
    assert_eq!(MediaType::from("Image/png".to_string()), None);
    assert_eq!(MediaType::from("image".to_string()), Some(MediaType::Image));
    assert_eq!(MediaType::from("image/".to_string()), Some(MediaType::Image));
    assert_eq!(MediaType::from("image/x/gif".to_string()), Some(MediaType::Gif));
    assert_eq!(MediaType::from("image/gif/x".to_string()), Some(MediaType::Image));
    assert_eq!(MediaType::from("image/GIF".to_string()), Some(MediaType::Image));
    assert_eq!(MediaType::from("video".to_string()), Some(MediaType::Video));
    assert_eq!(MediaType::from("video/gif".to_string()), Some(MediaType::Video));
    assert_eq!(MediaType::from("audio/ogg; codecs=opus".to_string()), Some(MediaType::Audio));
    assert_eq!(MediaType::from("vidéo/mp4".to_string()), None);
}

#[test]
fn nothing_found_by_default() {
    let none = UrlAndMediaType::default();
    assert_eq!(none.url, "");
    assert_eq!(none.media_type, MediaType::Unknown);
    let twin = UrlAndMediaType { url: "https://a/b.png".to_string(), media_type: MediaType::Image }
        .copy();
    assert_eq!(twin.url, "https://a/b.png");
    assert_eq!(twin.media_type, MediaType::Image);
}

#[test]
fn rotations_name_their_filters() {
    assert_eq!(Rotation::Cw.to_command(), "transpose=1");
    assert_eq!(Rotation::Ccw.to_command(), "transpose=0");
    assert_eq!(Rotation::Half.to_command(), "hflip, vflip");
    assert_eq!(Rotation::FlipV.to_command(), "vflip");
    assert_eq!(Rotation::FlipH.to_command(), "hflip");
}

#[test]
fn rotating_sound_is_refused() {
    assert_eq!(rotate_and_flip(MediaType::Audio, Rotation::Cw), Err(MediaError::RotateAudio));
    assert_eq!(rotate_and_flip(MediaType::Video, Rotation::Cw), Ok("transpose=1"));
    assert_eq!(rotate_and_flip(MediaType::Gif, Rotation::FlipV), Ok("vflip"));
    assert_eq!(rotate_and_flip(MediaType::Image, Rotation::Half), Ok("hflip, vflip"));
    assert_eq!(rotate_and_flip(MediaType::Unknown, Rotation::Ccw), Ok("transpose=0"));
}

#[test]
fn widths_are_made_even() {
    assert_eq!(plan_width(128, 128), 128);
    assert_eq!(plan_width(167, 0), 168);
    assert_eq!(plan_width(0, 0), 0);
    assert_eq!(plan_width(0, 100), 0);
    assert_eq!(plan_width(1, 2), 2);
    assert_eq!(plan_width(100, 101), 101);
    assert_eq!(plan_width(101, 101), 103);
    assert_eq!(plan_width(0, 101), 1);
    assert_eq!(plan_width(65535, 65535), 65537);
    assert_eq!(plan_width(65534, 8), 65534);
    assert_eq!(auto_width(0), 0);
    assert_eq!(auto_width(227), 228);
    assert_eq!(auto_width(228), 228);
    assert_eq!(auto_width(65535), 65536);
}

#[test]
fn resize_bounds() {
    assert_eq!(MIN_SIZE, 1);
    assert_eq!(MAX_SIZE, 8000);
    assert_eq!(resize_media(MediaType::Image, 8000, 8000), Ok("scale=8000:8000".to_string()));
    assert_eq!(resize_media(MediaType::Image, 1, 0), Ok("scale=1:0".to_string()));
    assert_eq!(resize_media(MediaType::Video, 640, 480), Ok("scale=640:480".to_string()));
    assert_eq!(resize_media(MediaType::Image, 8001, 10), Err(MediaError::InvalidDimensions));
    assert_eq!(resize_media(MediaType::Image, 10, 8001), Err(MediaError::InvalidDimensions));
    assert_eq!(resize_media(MediaType::Image, 0, 10), Err(MediaError::InvalidDimensions));
    assert_eq!(resize_media(MediaType::Image, 65537, 10), Err(MediaError::InvalidDimensions));
    assert_eq!(resize_media(MediaType::Audio, 10, 10), Err(MediaError::ResizeAudio));
    assert_eq!(resize_media(MediaType::Audio, 0, 10), Err(MediaError::InvalidDimensions));
}

#[test]
fn caption_rules() {
    assert_eq!(MAX_LEN, 500);
    assert_eq!(caption_media("hi", MediaType::Image, false), Ok(StackOrder::CaptionFirst));
    assert_eq!(caption_media("hi", MediaType::Video, true), Ok(StackOrder::MediaFirst));
    assert_eq!(caption_media("", MediaType::Gif, false), Ok(StackOrder::CaptionFirst));
    let longest = "a".repeat(500);
    assert_eq!(caption_media(&longest, MediaType::Image, false), Ok(StackOrder::CaptionFirst));
    let too_long = "a".repeat(501);
    assert_eq!(caption_media(&too_long, MediaType::Image, false), Err(MediaError::CaptionTooLong));
    assert_eq!(caption_media(&too_long, MediaType::Audio, false), Err(MediaError::CaptionAudio));
    assert_eq!(caption_media("hi", MediaType::Audio, true), Err(MediaError::CaptionAudio));
    let wide = "é".repeat(251);
    assert_eq!(caption_media(&wide, MediaType::Image, false), Err(MediaError::CaptionTooLong));
    let fits = "é".repeat(250);
    assert_eq!(caption_media(&fits, MediaType::Image, false), Ok(StackOrder::CaptionFirst));
}

#[test]
fn media_errors_have_their_texts() {
    assert_eq!(MediaError::CaptionAudio.message(), "Cannot caption a audio file.");
    assert_eq!(
        MediaError::CaptionTooLong.message(),
        "Caption cannot be longer than 500 characters."
    );
    assert_eq!(MediaError::ResizeAudio.message(), "Cannot resize a audio file.");
    assert_eq!(MediaError::InvalidDimensions.message(), "Invalid media dimensions!");
    assert_eq!(MediaError::RotateAudio.message(), "Cannot rotate a audio file.");
}

#[test]
fn file_names_come_from_the_end_of_the_address() {
    assert_eq!(file_name_of("https://cdn.example.com/attachments/1/2/cat.png"), "cat.png");
    assert_eq!(
        file_name_of("https://cdn.example.com/a/b/clip.mp4?ex=66&is=77&hm=abc"),
        "clip.mp4"
    );
    assert_eq!(file_name_of("cat.png"), "cat.png");
    assert_eq!(file_name_of("cat.png?x=1?y=2"), "cat.png");
    assert_eq!(file_name_of("https://example.com/"), "");
    assert_eq!(file_name_of(""), "");
    assert_eq!(file_name_of("https://example.com/a?b=/c.gif"), "c.gif");
    assert_eq!(file_name_of("https://example.com/données/été.png?x"), "été.png");
}

#[test]
fn temp_names_spell_their_bytes() {
    assert_eq!(named_after(&[0, 0, 0, 0, 0], "png"), "00000.png");
    assert_eq!(named_after(&[1, 20, 255, 7, 100], "mp4"), "1202557100.mp4");
    assert_eq!(named_after(&[255, 255, 255, 255, 255], "gif"), "255255255255255.gif");
    assert_eq!(named_after(&[9, 10, 99, 100, 0], ""), "910991000.");
}

#[test]
fn temp_names_are_digits_dot_extension() {
    for _ in 0..50 {
        let name = temp_file_name("png");
        let stem = name.strip_suffix(".png").unwrap();
        assert!(stem.len() >= 5 && stem.len() <= 15);
        assert!(stem.bytes().all(|b| b.is_ascii_digit()));
    }
    let names: Vec<String> = (0..20).map(|_| temp_file_name("gif")).collect();
    assert!(names.iter().any(|name| *name != names[0]));
}

#[test]
fn clean_run_and_failed_run() {
    assert_eq!(ffbabysit(&Vec::new()), Ok(()));
    assert_eq!(
        ffbabysit(&vec!["No such file".to_string()]),
        Err("No such file\n".to_string())
    );
    assert_eq!(
        ffbabysit(&vec!["first".to_string(), String::new(), "third line".to_string()]),
        Err("first\n\nthird line\n".to_string())
    );
}

#[test]
fn progress_texts() {
    assert_eq!(Progress::Queued(0).message(), "Queue Position: 0");
    assert_eq!(Progress::Queued(7).message(), "Queue Position: 7");
    assert_eq!(Progress::Queued(10).message(), "Queue Position: 10");
    assert_eq!(Progress::Queued(1234567890).message(), "Queue Position: 1234567890");
    assert_eq!(
        Progress::Queued(usize::MAX).message(),
        format!("Queue Position: {}", usize::MAX)
    );
    assert_eq!(Progress::Processing.message(), "Processing...");
    assert_eq!(Progress::Uploading.message(), "Uploading...");
    assert_eq!(Progress::Done.message(), "Done!");
}

#[test]
fn numbers_are_written_behind_the_text() {
    let mut out = String::from("n=");
    push_decimal(&mut out, 0);
    push_decimal(&mut out, 9);
    push_decimal(&mut out, 10);
    push_decimal(&mut out, 99);
    push_decimal(&mut out, 100);
    push_decimal(&mut out, 65535);
    assert_eq!(out, "n=09109910065535");
    for n in [0usize, 5, 42, 1000, 987654321] {
        let mut text = String::new();
        push_decimal(&mut text, n);
        assert_eq!(text, n.to_string());
    }
}

#[test]
fn cuts_are_counted_in_characters() {
    assert_eq!(find_first("image/png", '/'), 5);
    assert_eq!(find_first("image", '/'), 5);
    assert_eq!(find_first("", '/'), 0);
    assert_eq!(find_first("/a/b", '/'), 0);
    assert_eq!(find_first("été/x", '/'), 3);
    assert_eq!(find_last("a/b/c", '/'), 4);
    assert_eq!(find_last("abc", '/'), 0);
    assert_eq!(find_last("abc/", '/'), 4);
    assert_eq!(find_last("", '/'), 0);
    assert_eq!(find_last("é/é/é", '/'), 4);
    assert!(same_text("gif", "gif"));
    assert!(!same_text("gif", "gi"));
    assert!(!same_text("gif", "GIF"));
    assert!(same_text("", ""));
}
