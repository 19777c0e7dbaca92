use pixelvault_desktop::capture::{after_read, after_run, temp_file_name, CaptureRun, CaptureStep};
use pixelvault_desktop::desktop::AppState;
use pixelvault_desktop::text::{
    cut_before_first, is_white_space, keep_after_last, same_text, to_decimal, trim,
};
use pixelvault_desktop::tray::{build, handle_menu, recent_item_id, MenuAction, MenuEntry};
use pixelvault_desktop::watcher::{
    after_encoding, hash_image, ClipboardImage, WatchStep, Watcher,
};

fn red() -> ClipboardImage {
    ClipboardImage {
        width: 1,
        height: 1,
        bytes: vec![255, 0, 0, 255],
    }
}

fn blue() -> ClipboardImage {
    ClipboardImage {
        width: 1,
        height: 1,
        bytes: vec![0, 0, 255, 255],
    }
}

#[test]
fn an_image_that_stays_is_uploaded_once() {
    let mut w = Watcher::new();
    assert!(matches!(w.poll(true, None), WatchStep::Idle));
    let WatchStep::Upload(png) = w.poll(true, Some(red())) else {
        panic!("a new image");
    };
    assert_eq!(&png[1..4], b"PNG");
    assert!(matches!(w.poll(true, Some(red())), WatchStep::Idle));
    assert!(matches!(w.poll(true, None), WatchStep::Idle));
    assert!(matches!(w.poll(true, Some(red())), WatchStep::Idle));
    assert!(matches!(w.poll(true, Some(blue())), WatchStep::Upload(_)));
    assert!(matches!(w.poll(true, Some(red())), WatchStep::Upload(_)));
}

#[test]
fn a_paused_watcher_does_not_take_note() {
    let mut w = Watcher::new();
    assert!(matches!(w.poll(false, Some(red())), WatchStep::Idle));
    assert_eq!(w.last_hash, None);
    assert!(matches!(w.poll(true, Some(red())), WatchStep::Upload(_)));
}

#[test]
fn an_image_that_cannot_be_encoded_is_not_tried_again() {
    let short = || ClipboardImage {
        width: 2,
        height: 2,
        bytes: vec![0; 4],
    };
    assert!(short().fits());
    let mut w = Watcher::new();
    let WatchStep::EncodeFailed(m) = w.poll(true, Some(short())) else {
        panic!("a short buffer");
    };
    assert_eq!(m, "clipboard image buffer size mismatch");
    assert!(matches!(w.poll(true, Some(short())), WatchStep::Idle));
}

#[test]
fn images_are_told_apart_by_size_and_bytes() {
    assert_eq!(hash_image(&red()), hash_image(&red()));
    assert_ne!(hash_image(&red()), hash_image(&blue()));
    let row = ClipboardImage { width: 2, height: 1, bytes: vec![0; 8] };
    let column = ClipboardImage { width: 1, height: 2, bytes: vec![0; 8] };
    assert_ne!(hash_image(&row), hash_image(&column));
    let large = ClipboardImage { width: 1, height: 1, bytes: vec![0; 8] };
    assert!(!large.fits());
}

#[test]
fn an_image_is_noticed_once() {
    let mut w = Watcher::new();
    assert!(w.notice(7));
    assert!(!w.notice(7));
    assert!(w.notice(8));
    assert!(matches!(after_encoding(Ok(vec![1])), WatchStep::Upload(b) if b == vec![1]));
    assert!(matches!(after_encoding(Err("e".to_string())), WatchStep::EncodeFailed(m) if m == "e"));
}

#[test]
fn captures_are_read_after_a_success_only() {
    assert!(matches!(after_run(CaptureRun::Exited { success: true }), CaptureStep::ReadFile));
    assert!(matches!(after_run(CaptureRun::Exited { success: false }), CaptureStep::Stop));
    let CaptureStep::Notify { title, body } =
        after_run(CaptureRun::NotStarted("not found".to_string()))
    else {
        panic!("the user is told");
    };
    assert_eq!(title, "Capture failed");
    assert_eq!(body, "Could not run screencapture: not found");
    assert_eq!(after_read(Some(vec![1, 2])), Some(vec![1, 2]));
    assert_eq!(after_read(Some(vec![])), None);
    assert_eq!(after_read(None), None);
}

#[test]
fn capture_files_are_named_after_the_clock() {
    assert_eq!(
        temp_file_name(Some(1_700_000_000_123_456_789)),
        "pixelvault-capture-1700000000123456789.png"
    );
    assert_eq!(temp_file_name(None), "pixelvault-capture-0.png");
    assert_ne!(temp_file_name(Some(1)), temp_file_name(Some(10)));
}

#[test]
fn the_menu_is_laid_out() {
    let mut app = AppState::start(None, Ok(None));
    app.trial.push_recent("https://h/a.png", false);
    let shown: Vec<String> = build(&app)
        .iter()
        .map(|e| match e {
            MenuEntry::Item { id, text, enabled } => format!("{id}|{text}|{enabled}"),
            MenuEntry::Separator => "-".to_string(),
        })
        .collect();
    assert_eq!(
        shown,
        vec![
            "status|PixelVault — watching clipboard|false",
            "account|Not signed in|false",
            "counter|Free uploads left: 5/5|false",
            "-",
            "recent-0|a.png|true",
            "recent-1|—|false",
            "recent-2|—|false",
            "recent-3|—|false",
            "recent-4|—|false",
            "-",
            "toggle|Pause watching|true",
            "settings|Open Settings…|true",
            "-",
            "quit|Quit PixelVault|true",
        ]
    );
}

#[test]
fn menu_items_act() {
    assert!(matches!(handle_menu("toggle"), MenuAction::Toggle));
    assert!(matches!(handle_menu("settings"), MenuAction::OpenSettings));
    assert!(matches!(handle_menu("quit"), MenuAction::Quit));
    for i in 0..5 {
        assert!(matches!(handle_menu(&recent_item_id(i)), MenuAction::CopyRecent(j) if j == i));
    }
    for id in ["status", "account", "counter", "", "recent-", "recent-5", "recent-00"] {
        assert!(matches!(handle_menu(id), MenuAction::Nothing));
    }
}

#[test]
fn numbers_are_written_in_decimal() {
    for n in [0u128, 9, 10, 99, 100, 12_345, u64::MAX as u128, u128::MAX] {
        assert_eq!(to_decimal(n), n.to_string());
    }
}

#[test]
fn white_space_is_what_the_standard_library_says() {
    for c in '\0'..=char::MAX {
        assert_eq!(is_white_space(c), c.is_whitespace(), "{c:?}");
    }
}

#[test]
fn trimming_is_what_the_standard_library_does() {
    for s in ["", " ", "a", " a ", "\t\u{3000}a b\u{2003}\n", "\u{200b}a", "  é  "] {
        assert_eq!(trim(s), s.trim());
        assert_eq!(trim(trim(s)), trim(s));
    }
}

#[test]
fn texts_are_cut() {
    assert_eq!(cut_before_first("a?b?c", '?'), "a");
    assert_eq!(cut_before_first("abc", '?'), "abc");
    assert_eq!(cut_before_first("?", '?'), "");
    assert_eq!(keep_after_last("a/b/ü", '/'), "ü");
    assert_eq!(keep_after_last("abc", '/'), "abc");
    assert_eq!(keep_after_last("a/", '/'), "");
    assert!(same_text("é", "é"));
    assert!(!same_text("a", "b"));
}
