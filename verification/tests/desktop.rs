use pixelvault_desktop::auth::Session;
use pixelvault_desktop::desktop::{
    auth_status, begin_upload, busy_title, complete_sign_in, current_key, deliver, finish_upload,
    get_settings, human_duration, is_signed_in, recent_url, refresh_account, refresh_counter,
    refresh_recent, set_settings, short_label, sign_out, toggle_watching, AppState, Delivery,
    Effect, UploadEnd, UploadStart, UploadTicket, EPHEMERAL_SECS,
};
use pixelvault_desktop::state::Persisted;
use pixelvault_desktop::upload::{upload_request, UploadError};

fn session() -> Session {
    Session {
        api_key: "pv_live_1".to_string(),
        email: "ada@example.com".to_string(),
    }
}

fn signed_out_app() -> AppState {
    AppState::start(None, Ok(None))
}

fn signed_in_app() -> AppState {
    AppState::start(None, Ok(Some(session())))
}

/// Starts an upload and ends it with `outcome`; `None` where it was gated.
fn upload(app: &mut AppState, outcome: Result<String, UploadError>) -> Option<UploadEnd> {
    match begin_upload(app) {
        UploadStart::Upload(ticket) => Some(finish_upload(app, ticket, outcome)),
        UploadStart::Gated(_) => None,
    }
}

fn describe(effects: &[Effect]) -> Vec<String> {
    effects
        .iter()
        .map(|e| match e {
            Effect::Persist(p) => format!("persist {} {}", p.uploads, p.recent.join(",")),
            Effect::ForgetSession => "forget session".to_string(),
            Effect::RefreshCounter => "counter".to_string(),
            Effect::RefreshRecent => "recent".to_string(),
            Effect::RefreshAccount => "account".to_string(),
            Effect::Notify { title, body } => format!("notify {title}|{body}"),
            Effect::OpenSettings => "settings".to_string(),
        })
        .collect()
}

#[test]
fn short_label_strips_the_signing_token() {
    // A signed (private) URL's token must never reach the tray label.
    let signed = "https://img.pixelvault.dev/proj/cp/i/img_abc.png?token=SECRET&expires=123";
    assert_eq!(short_label(signed, true), "🔒 img_abc.png");
    assert!(!short_label(signed, true).contains("SECRET"));
}

#[test]
fn short_label_public_is_plain_filename() {
    assert_eq!(
        short_label("https://img.pixelvault.dev/proj/anon_xyz.png", false),
        "anon_xyz.png"
    );
}

#[test]
fn human_duration_reads_naturally() {
    assert_eq!(human_duration(7 * 24 * 60 * 60), "7 days");
    assert_eq!(human_duration(24 * 60 * 60), "1 day");
    assert_eq!(human_duration(3600), "1 hour");
    assert_eq!(human_duration(60), "1 minute");
}

#[test]
fn human_duration_picks_the_largest_whole_unit() {
    assert_eq!(human_duration(0), "0 days");
    assert_eq!(human_duration(1), "1 second");
    assert_eq!(human_duration(61), "61 seconds");
    assert_eq!(human_duration(120), "2 minutes");
    assert_eq!(human_duration(90_000), "25 hours");
    assert_eq!(human_duration(u64::MAX), "18446744073709551615 seconds");
}

#[test]
fn short_label_hides_a_token_that_holds_a_slash() {
    let signed = "https://img.pixelvault.dev/i/img_abc.png?token=SEC/RET";
    assert_eq!(short_label(signed, true), "🔒 img_abc.png");
    assert_eq!(short_label(signed, false), "img_abc.png");
}

#[test]
fn short_label_of_odd_urls() {
    assert_eq!(short_label("", false), "");
    assert_eq!(short_label("plain", false), "plain");
    assert_eq!(short_label("https://host/dir/", false), "");
    assert_eq!(short_label("?only=query", true), "🔒 ");
    assert_eq!(short_label("https://host/ü.png?x?y", false), "ü.png");
}

#[test]
fn the_sixth_anonymous_upload_is_gated() {
    let mut app = signed_out_app();
    for i in 0..5 {
        let url = format!("https://img.pixelvault.dev/anon_{i}.png");
        let end = upload(&mut app, Ok(url.clone())).expect("free uploads are left");
        assert_eq!(end.result, Ok(Some(url)));
        assert_eq!(app.trial.remaining(), 4 - i);
    }
    let UploadStart::Gated(effects) = begin_upload(&mut app) else {
        panic!("the trial is used up");
    };
    assert_eq!(
        describe(&effects),
        vec![
            "notify Sign in to keep uploading|You've used your 5 free uploads. Sign in (Account & Settings) for unlimited uploads + history.",
            "settings",
        ]
    );
    assert_eq!(app.trial.uploads(), 5);
}

#[test]
fn uploads_under_way_cannot_share_the_last_slot() {
    let mut app = AppState::start(
        Some(Persisted {
            uploads: 4,
            ..Persisted::default()
        }),
        Ok(None),
    );
    assert!(matches!(
        begin_upload(&mut app),
        UploadStart::Upload(UploadTicket::Anonymous)
    ));
    assert!(matches!(begin_upload(&mut app), UploadStart::Gated(_)));
}

#[test]
fn a_finished_anonymous_upload_is_announced() {
    let mut app = signed_out_app();
    let end = upload(&mut app, Ok("https://h/a.png".to_string())).unwrap();
    assert_eq!(
        describe(&end.effects),
        vec![
            "persist 1 https://h/a.png",
            "counter",
            "recent",
            "notify Image URL copied|https://h/a.png\n4 of 5 free uploads left",
        ]
    );
}

#[test]
fn a_failed_anonymous_upload_costs_no_slot() {
    let mut app = signed_out_app();
    let end = upload(&mut app, Err(UploadError::Failed("Image is too large.".to_string()))).unwrap();
    assert_eq!(end.result, Err("Image is too large.".to_string()));
    assert!(end.effects.is_empty());
    assert_eq!(app.trial.uploads(), 0);
    // Without a session there is none to clear.
    let end = upload(&mut app, Err(UploadError::Unauthorized)).unwrap();
    assert_eq!(end.result, Err("Your session has expired.".to_string()));
    assert!(end.effects.is_empty());
    assert_eq!(app.trial.uploads(), 0);
}

#[test]
fn signed_in_uploads_have_no_gate() {
    let mut app = signed_in_app();
    for i in 0..20 {
        let end = upload(&mut app, Ok(format!("https://h/{i}.png"))).expect("no gate");
        assert_eq!(end.result, Ok(Some(format!("https://h/{i}.png"))));
    }
    assert_eq!(app.trial.uploads(), 0);
    assert_eq!(app.trial.recent().len(), 5);
    assert_eq!(app.trial.recent()[0], "https://h/19.png");
}

#[test]
fn a_public_keyed_upload_is_ephemeral() {
    let mut app = signed_in_app();
    let UploadStart::Upload(ticket) = begin_upload(&mut app) else {
        panic!("signed in");
    };
    assert_eq!(ticket.api_key(), Some("pv_live_1"));
    let opts = ticket.options();
    assert_eq!(opts.expires_in, Some(EPHEMERAL_SECS));
    assert_eq!(EPHEMERAL_SECS, 2_592_000);
    assert!(!opts.private);
    assert_eq!(opts.sign_expires_in, None);
    let end = finish_upload(&mut app, ticket, Ok("https://h/a.png".to_string()));
    assert_eq!(
        describe(&end.effects),
        vec![
            "persist 0 https://h/a.png",
            "recent",
            "notify Image URL copied|https://h/a.png",
        ]
    );
}

#[test]
fn a_private_link_stays_off_the_notification_and_the_disk() {
    let mut app = signed_in_app();
    set_settings(&mut app, true, 3600);
    let UploadStart::Upload(ticket) = begin_upload(&mut app) else {
        panic!("signed in");
    };
    let opts = ticket.options();
    assert!(opts.private);
    assert_eq!(opts.sign_expires_in, Some(3600));
    let url = "https://h/i/p.png?token=SECRET".to_string();
    let end = finish_upload(&mut app, ticket, Ok(url.clone()));
    assert_eq!(end.result, Ok(Some(url.clone())));
    assert_eq!(
        describe(&end.effects),
        vec![
            "persist 0 ",
            "recent",
            "notify Private link copied|Paste to share · link expires in 1 hour",
        ]
    );
    assert_eq!(recent_url(&app, 0), Some(url));
}

#[test]
fn anonymous_tickets_have_no_key_and_no_options() {
    let ticket = UploadTicket::Anonymous;
    assert_eq!(ticket.api_key(), None);
    let opts = ticket.options();
    assert_eq!(opts.expires_in, None);
    assert!(!opts.private);
    assert_eq!(opts.sign_expires_in, None);
}

#[test]
fn a_refused_key_ends_the_session() {
    let mut app = signed_in_app();
    upload(&mut app, Ok("https://h/public.png".to_string())).unwrap();
    set_settings(&mut app, true, 60);
    upload(&mut app, Ok("https://h/private.png?token=T".to_string())).unwrap();
    let end = upload(&mut app, Err(UploadError::Unauthorized)).unwrap();
    assert_eq!(end.result, Ok(None));
    assert_eq!(
        describe(&end.effects),
        vec![
            "forget session",
            "recent",
            "account",
            "notify Session expired|Please sign in again (Account & Settings).",
            "settings",
        ]
    );
    assert!(!is_signed_in(&app));
    assert_eq!(current_key(&app), None);
    assert_eq!(app.trial.recent(), vec!["https://h/public.png".to_string()]);
}

#[test]
fn another_failure_keeps_the_session() {
    let mut app = signed_in_app();
    let end = upload(&mut app, Err(UploadError::Failed("offline".to_string()))).unwrap();
    assert_eq!(end.result, Err("offline".to_string()));
    assert!(end.effects.is_empty());
    assert!(is_signed_in(&app));
}

#[test]
fn signing_out_forgets_private_links_only() {
    let mut app = signed_in_app();
    app.trial.push_recent("https://h/1.png", false);
    app.trial.push_recent("https://h/2.png?token=T", true);
    let effects = sign_out(&mut app);
    assert_eq!(describe(&effects), vec!["recent", "account"]);
    assert!(!is_signed_in(&app));
    assert_eq!(app.trial.recent(), vec!["https://h/1.png".to_string()]);
}

#[test]
fn completing_a_sign_in_sets_the_session() {
    let mut app = signed_out_app();
    assert_eq!(refresh_account(&app), "Not signed in");
    let (email, effects) = complete_sign_in(&mut app, session());
    assert_eq!(email, "ada@example.com");
    assert_eq!(describe(&effects), vec!["account"]);
    assert_eq!(refresh_account(&app), "Signed in as ada@example.com");
    assert_eq!(current_key(&app), Some("pv_live_1".to_string()));
    let status = auth_status(&app);
    assert!(status.signed_in);
    assert_eq!(status.email, Some("ada@example.com".to_string()));
    assert_eq!(status.remaining, 5);
}

#[test]
fn a_broken_keychain_starts_signed_out() {
    let app = AppState::start(None, Err("locked".to_string()));
    assert!(!is_signed_in(&app));
    assert!(app.watching);
    let status = auth_status(&app);
    assert!(!status.signed_in);
    assert_eq!(status.email, None);
}

#[test]
fn the_counter_text_follows_the_trial() {
    let mut app = signed_out_app();
    assert_eq!(refresh_counter(&app), "Free uploads left: 5/5");
    app.trial.try_reserve();
    assert_eq!(refresh_counter(&app), "Free uploads left: 4/5");
    let app = AppState::start(
        Some(Persisted {
            uploads: 99,
            ..Persisted::default()
        }),
        Ok(None),
    );
    assert_eq!(refresh_counter(&app), "Free uploads left: 0/5");
}

#[test]
fn recent_slots_are_filled_from_the_front() {
    let mut app = signed_in_app();
    app.trial.push_recent("https://h/a.png", false);
    app.trial.push_recent("https://h/b.png?token=T", true);
    let slots = refresh_recent(&app, 3);
    let shown: Vec<(&str, bool)> = slots.iter().map(|s| (s.text.as_str(), s.enabled)).collect();
    assert_eq!(shown, vec![("🔒 b.png", true), ("a.png", true), ("—", false)]);
    assert_eq!(recent_url(&app, 1), Some("https://h/a.png".to_string()));
    assert_eq!(recent_url(&app, 2), None);
    assert!(refresh_recent(&app, 0).is_empty());
}

#[test]
fn toggling_twice_restores_the_watcher() {
    let mut app = signed_out_app();
    assert_eq!(toggle_watching(&mut app), "Resume watching");
    assert!(!app.watching);
    assert_eq!(toggle_watching(&mut app), "Pause watching");
    assert!(app.watching);
}

#[test]
fn settings_come_back_clamped() {
    let mut app = signed_in_app();
    let settings = get_settings(&app);
    assert!(!settings.private_uploads);
    assert_eq!(settings.sign_expires_secs, 604_800);
    let (stored, snapshot) = set_settings(&mut app, true, 1);
    assert!(stored.private_uploads);
    assert_eq!(stored.sign_expires_secs, 60);
    assert_eq!(snapshot.sign_expires_secs, 60);
    let (stored, _) = set_settings(&mut app, false, u64::MAX);
    assert_eq!(stored.sign_expires_secs, 2_592_000);
    assert_eq!(get_settings(&app).sign_expires_secs, 2_592_000);
}

#[test]
fn results_are_delivered() {
    assert!(matches!(deliver(Ok(Some("u".to_string()))), Delivery::Copy(u) if u == "u"));
    assert!(matches!(deliver(Ok(None)), Delivery::Nothing));
    let Delivery::Notify { title, body } = deliver(Err("no network".to_string())) else {
        panic!("a failure is announced");
    };
    assert_eq!(title, "Upload failed");
    assert_eq!(body, "no network");
    assert_eq!(busy_title(true), Some("⋯".to_string()));
    assert_eq!(busy_title(false), None);
}

#[test]
fn signed_in_requests_follow_the_preferences() {
    let mut app = signed_in_app();
    let form = |app: &mut AppState| -> Vec<String> {
        let UploadStart::Upload(ticket) = begin_upload(app) else {
            panic!("signed in");
        };
        upload_request("b", ticket.api_key(), &ticket.options())
            .fields
            .iter()
            .map(|f| format!("{}={}", f.name, f.value))
            .collect()
    };
    assert_eq!(form(&mut app), vec!["expires_in=2592000"]);
    set_settings(&mut app, true, 604_800);
    assert_eq!(
        form(&mut app),
        vec!["expires_in=2592000", "visibility=private", "sign_expires_in=604800"]
    );
}

#[test]
fn the_counter_tallies_uploads_in_any_order() {
    let mut app = signed_out_app();
    let url = |n: u32| Ok(format!("https://h/{n}.png"));
    for _ in 0..5 {
        assert!(matches!(begin_upload(&mut app), UploadStart::Upload(_)));
    }
    assert!(matches!(begin_upload(&mut app), UploadStart::Gated(_)));
    finish_upload(&mut app, UploadTicket::Anonymous, url(1));
    finish_upload(
        &mut app,
        UploadTicket::Anonymous,
        Err(UploadError::Failed("offline".to_string())),
    );
    assert_eq!(app.trial.uploads(), 4);
    complete_sign_in(&mut app, session());
    finish_upload(&mut app, UploadTicket::Anonymous, url(2));
    sign_out(&mut app);
    assert_eq!(app.trial.uploads(), 4);
    assert!(matches!(begin_upload(&mut app), UploadStart::Upload(_)));
    assert!(matches!(begin_upload(&mut app), UploadStart::Gated(_)));
}

#[test]
fn a_finished_upload_goes_to_the_clipboard_and_the_tray() {
    let mut app = signed_out_app();
    let end = upload(&mut app, Ok("https://h/anon_l4f8nipug8ic.png".to_string())).unwrap();
    let Delivery::Copy(url) = deliver(end.result) else {
        panic!("a URL");
    };
    assert_eq!(url, "https://h/anon_l4f8nipug8ic.png");
    assert_eq!(refresh_recent(&app, 1)[0].text, "anon_l4f8nipug8ic.png");
}
