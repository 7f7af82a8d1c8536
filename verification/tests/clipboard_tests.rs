use clipi::clipboard::{
    after_reopen, decode_png_rgba, encode_png, hash_bytes, image_capture, image_label,
    restore_command, text_capture, TextCapture, WatcherAction, WatcherCmd, MAX_IMAGE_BYTES,
};
use clipi::store::ClipBody;

#[test]
fn fingerprints_are_blake3_hex() {
    assert_eq!(
        hash_bytes(b""),
        "af1349b9f5f9a1a6a0404dea36dcc9499bcb25c9adc112b7cc9a93cae41f3262"
    );
    assert_eq!(
        hash_bytes(b"abc"),
        "6437b3ac38465133ffb63b75273a8db548c558465d79db03fd359c6cd5bd9d85"
    );
    assert_eq!(hash_bytes(b"abc"), blake3::hash(b"abc").to_hex().to_string());
}

#[test]
fn new_text_is_stored_without_trailing_nuls() {
    match text_capture("hello\0\0", "") {
        TextCapture::Store { text, hash } => {
            assert_eq!(text, "hello");
            assert_eq!(hash, hash_bytes(b"hello"));
        }
        other => panic!("unexpected {other:?}"),
    }
}

#[test]
fn text_seen_last_is_not_stored_again() {
    let h = hash_bytes("hello".as_bytes());
    assert!(matches!(text_capture("hello", &h), TextCapture::Unchanged));
    assert!(matches!(text_capture("hello\0", &h), TextCapture::Unchanged));
}

#[test]
fn empty_text_falls_through() {
    assert!(matches!(text_capture("", ""), TextCapture::Empty));
    assert!(matches!(text_capture("\0\0", ""), TextCapture::Empty));
}

#[test]
fn restored_text_is_remembered() {
    let cmd = WatcherCmd::RestoreText("restored".to_string());
    let h = cmd.restored_hash().unwrap();
    assert!(matches!(text_capture("restored", &h), TextCapture::Unchanged));
    assert!(WatcherCmd::Reopen.restored_hash().is_none());
    assert!(WatcherCmd::Shutdown.restored_hash().is_none());
}

#[test]
fn images_take_their_pixels() {
    let raw: Vec<u8> = (0..12).collect();
    let c = image_capture(2, 1, &raw, "").unwrap();
    assert_eq!(c.rgba, (0..8).collect::<Vec<u8>>());
    assert_eq!(c.hash, hash_bytes(&raw[..8]));
    assert!(image_capture(2, 1, &raw, &c.hash).is_none());
}

#[test]
fn unusable_images_are_skipped() {
    assert!(image_capture(0, 5, &[0u8; 16], "").is_none());
    assert!(image_capture(2, 2, &[0u8; 15], "").is_none());
    assert!(image_capture(4096, 4096, &[], "").is_none());
    assert!(4096 * 4096 * 4 > MAX_IMAGE_BYTES);
    let limit_side = 1024u32;
    assert_eq!((limit_side * 2048 * 4) as usize, MAX_IMAGE_BYTES);
}

#[test]
fn restored_images_are_remembered() {
    let rgba: Vec<u8> = vec![1, 2, 3, 4, 5, 6, 7, 8];
    let cmd = WatcherCmd::RestoreImage { width: 2, height: 1, rgba: rgba.clone() };
    let h = cmd.restored_hash().unwrap();
    assert!(image_capture(2, 1, &rgba, &h).is_none());
}

#[test]
fn png_round_trip() {
    let rgba: Vec<u8> = vec![255, 0, 0, 255, 0, 255, 0, 128, 0, 0, 255, 0, 10, 20, 30, 40];
    let png = encode_png(2, 2, rgba.clone()).unwrap();
    assert_eq!(&png[1..4], b"PNG");
    let (w, h, px) = decode_png_rgba(&png).unwrap();
    assert_eq!((w, h), (2, 2));
    assert_eq!(px, rgba);
}

#[test]
fn garbage_does_not_decode() {
    assert!(decode_png_rgba(b"not a png").is_err());
}

#[test]
fn image_labels() {
    assert_eq!(image_label(640, 480), "image 640x480");
    assert_eq!(image_label(0, 7), "image 0x7");
    assert_eq!(image_label(u32::MAX, 10), "image 4294967295x10");
}

#[test]
fn identical_copies_share_a_key() {
    let a = text_capture("same text\0", "");
    let b = text_capture("same text", "");
    match (a, b) {
        (TextCapture::Store { hash: ha, .. }, TextCapture::Store { hash: hb, .. }) => {
            assert_eq!(ha, hb)
        }
        _ => panic!("expected both to be stored"),
    }
}

#[test]
fn large_png_round_trip() {
    let (w, h) = (1600u32, 1600u32);
    let mut rgba = vec![0u8; (w * h * 4) as usize];
    for (i, b) in rgba.iter_mut().enumerate() {
        *b = (i % 7) as u8;
    }
    assert!(rgba.len() > MAX_IMAGE_BYTES);
    let png = encode_png(w, h, rgba.clone()).unwrap();
    let (dw, dh, px) = decode_png_rgba(&png).unwrap();
    assert_eq!((dw, dh), (w, h));
    assert_eq!(px, rgba);
}

#[test]
fn stored_clips_become_restore_commands() {
    match restore_command(ClipBody::Text("hi".to_string())) {
        Ok(WatcherCmd::RestoreText(t)) => assert_eq!(t, "hi"),
        other => panic!("unexpected {other:?}"),
    }
    let rgba: Vec<u8> = vec![1, 2, 3, 4, 5, 6, 7, 8];
    let png = encode_png(2, 1, rgba.clone()).unwrap();
    match restore_command(ClipBody::ImagePng(png)) {
        Ok(WatcherCmd::RestoreImage { width, height, rgba: px }) => {
            assert_eq!((width, height), (2, 1));
            assert_eq!(px, rgba);
        }
        other => panic!("unexpected {other:?}"),
    }
    assert!(restore_command(ClipBody::ImagePng(b"junk".to_vec())).is_err());
}

#[test]
fn watcher_steps_remember_what_they_restore() {
    let mut last = "old".to_string();
    match WatcherCmd::RestoreText("abc".to_string()).watcher_step(&mut last) {
        WatcherAction::PutText(t) => assert_eq!(t, "abc"),
        other => panic!("unexpected {other:?}"),
    }
    assert_eq!(last, hash_bytes(b"abc"));
    let rgba = vec![9u8; 4];
    match (WatcherCmd::RestoreImage { width: 1, height: 1, rgba: rgba.clone() }).watcher_step(&mut last) {
        WatcherAction::PutImage { width, height, rgba: px } => {
            assert_eq!((width, height), (1, 1));
            assert_eq!(px, rgba);
        }
        other => panic!("unexpected {other:?}"),
    }
    assert_eq!(last, hash_bytes(&rgba));
    let kept = last.clone();
    assert!(matches!(WatcherCmd::Reopen.watcher_step(&mut last), WatcherAction::Reopen));
    assert_eq!(last, kept);
    assert!(matches!(WatcherCmd::Shutdown.watcher_step(&mut last), WatcherAction::Stop));
    assert_eq!(last, kept);
    after_reopen(&mut last, false);
    assert_eq!(last, kept);
    after_reopen(&mut last, true);
    assert_eq!(last, "");
}
