use pixelvault_desktop::state::{
    clamp_sign_expires, default_sign_expires_secs, Persisted, TrialState, FREE_UPLOAD_LIMIT,
    RECENT_LIMIT,
};

#[test]
fn a_fresh_state_has_the_documented_defaults() {
    let t = TrialState::load(None);
    assert_eq!(t.uploads(), 0);
    assert_eq!(t.remaining(), FREE_UPLOAD_LIMIT);
    assert!(t.recent().is_empty());
    assert!(!t.private_uploads());
    assert_eq!(t.sign_expires_secs(), 7 * 24 * 60 * 60);
    assert_eq!(default_sign_expires_secs(), 604_800);
}

#[test]
fn a_loaded_state_is_capped_and_clamped() {
    let t = TrialState::load(Some(Persisted {
        uploads: 7,
        recent: (0..8).map(|i| format!("u{i}")).collect(),
        private_uploads: true,
        sign_expires_secs: 5,
    }));
    assert_eq!(t.uploads(), 7);
    assert_eq!(t.remaining(), 0);
    assert_eq!(t.recent(), vec!["u0", "u1", "u2", "u3", "u4"]);
    assert_eq!(t.recent().len(), RECENT_LIMIT);
    assert!(t.private_uploads());
    assert_eq!(t.sign_expires_secs(), 60);
}

#[test]
fn lifetimes_are_clamped_to_what_the_api_accepts() {
    assert_eq!(clamp_sign_expires(0), 60);
    assert_eq!(clamp_sign_expires(60), 60);
    assert_eq!(clamp_sign_expires(61), 61);
    assert_eq!(clamp_sign_expires(2_592_000), 2_592_000);
    assert_eq!(clamp_sign_expires(2_592_001), 2_592_000);
}

#[test]
fn five_slots_and_no_more() {
    let mut t = TrialState::load(None);
    for _ in 0..5 {
        assert!(t.try_reserve());
    }
    assert!(!t.try_reserve());
    assert_eq!(t.uploads(), 5);
    t.release();
    assert_eq!(t.remaining(), 1);
    assert!(t.try_reserve());
    assert!(!t.try_reserve());
}

#[test]
fn release_does_not_go_below_zero() {
    let mut t = TrialState::load(None);
    t.release();
    assert_eq!(t.uploads(), 0);
}

#[test]
fn recent_urls_are_newest_first_and_distinct() {
    let mut t = TrialState::load(None);
    for u in ["a", "b", "c"] {
        t.push_recent(u, false);
    }
    let p = t.push_recent("a", false);
    assert_eq!(t.recent(), vec!["a", "c", "b"]);
    assert_eq!(p.recent, vec!["a", "c", "b"]);
    t.push_recent("a", false);
    assert_eq!(t.recent(), vec!["a", "c", "b"]);
    for u in ["d", "e", "f"] {
        t.push_recent(u, false);
    }
    assert_eq!(t.recent(), vec!["f", "e", "d", "a", "c"]);
    assert_eq!(t.uploads(), 0);
}

#[test]
fn a_committed_upload_is_remembered_and_counted() {
    let mut t = TrialState::load(None);
    assert!(t.try_reserve());
    let p = t.commit_reserved("https://h/a.png");
    assert_eq!(p.uploads, 1);
    assert_eq!(p.recent, vec!["https://h/a.png"]);
    assert_eq!(t.recent_entries(), vec![("https://h/a.png".to_string(), false)]);
}

#[test]
fn private_links_are_not_written() {
    let mut t = TrialState::load(None);
    t.push_recent("public", false);
    let p = t.push_recent("private", true);
    assert_eq!(p.recent, vec!["public"]);
    assert_eq!(
        t.recent_entries(),
        vec![("private".to_string(), true), ("public".to_string(), false)]
    );
    t.forget_private_recent();
    assert_eq!(t.recent(), vec!["public"]);
    assert_eq!(t.snapshot().recent, vec!["public"]);
}

#[test]
fn a_public_link_that_turns_private_leaves_the_snapshot() {
    let mut t = TrialState::load(None);
    t.push_recent("x", false);
    let p = t.push_recent("x", true);
    assert!(p.recent.is_empty());
}

#[test]
fn a_snapshot_is_read_back() {
    let mut t = TrialState::load(None);
    t.try_reserve();
    t.push_recent("a", false);
    t.push_recent("s", true);
    t.push_recent("b", false);
    let p = t.set_upload_prefs(true, 3600);
    let back = TrialState::load(Some(p));
    assert_eq!(back.uploads(), 1);
    assert_eq!(back.recent(), vec!["b", "a"]);
    assert!(back.private_uploads());
    assert_eq!(back.sign_expires_secs(), 3600);
}

#[test]
fn preferences_can_be_set_one_by_one() {
    let mut t = TrialState::load(None);
    let p = t.set_private_uploads(true);
    assert!(p.private_uploads);
    assert_eq!(p.sign_expires_secs, 604_800);
    let p = t.set_sign_expires_secs(1);
    assert!(p.private_uploads);
    assert_eq!(p.sign_expires_secs, 60);
    assert_eq!(t.sign_expires_secs(), 60);
}
