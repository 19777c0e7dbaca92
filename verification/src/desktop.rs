//! The state of the running app and the upload pipeline.
//!
//! The functions here decide; what they want done outside, such as a
//! notification or a write to disk, they hand back as a list of effects, to be
//! performed in order.

use vstd::prelude::*;

use crate::auth::Session;
use crate::state::{
    Persisted, TrialState, FREE_UPLOAD_LIMIT, MAX_SIGN_EXPIRES_SECS, MIN_SIGN_EXPIRES_SECS,
};
use crate::text::{cut_before_first, keep_after_last, to_decimal};
use crate::upload::{KeyedOptions, UploadError};

verus! {

/// Ephemeral TTL applied to signed-in (keyed) uploads: 30 days.
pub const EPHEMERAL_SECS: u64 = 30 * 24 * 60 * 60;

/// Default capture hotkey.
pub const CAPTURE_SHORTCUT: &'static str = "CmdOrCtrl+Shift+2";

/// The app-wide state.
pub struct AppState {
    pub trial: TrialState,
    /// The signed-in session. It is loaded once, at startup, and changed on
    /// sign-in and sign-out, so an upload never asks the keychain for it.
    pub session: Option<Session>,
    /// Whether the passive clipboard watcher is active.
    pub watching: bool,
}

/// What an `AppState` stands for.
#[verifier::ext_equal]
pub struct AppView {
    pub trial: crate::state::TrialView,
    pub session: Option<crate::auth::SessionView>,
    pub watching: bool,
}

impl View for AppState {
    type V = AppView;

    open spec fn view(&self) -> AppView {
        AppView {
            trial: self.trial@,
            session: crate::auth::opt_session(self.session),
            watching: self.watching,
        }
    }
}

/// Something to be done outside.
pub enum Effect {
    /// Write the snapshot to disk.
    Persist(Persisted),
    /// Remove the session from the keychain.
    ForgetSession,
    /// Show the current text of the tray's counter item.
    RefreshCounter,
    /// Show the current texts of the tray's recent items.
    RefreshRecent,
    /// Show the current text of the tray's account item.
    RefreshAccount,
    /// Show a notification.
    Notify { title: String, body: String },
    /// Show and focus the settings window.
    OpenSettings,
}

/// What an `Effect` stands for.
#[verifier::ext_equal]
pub enum EffectView {
    Persist(crate::state::PersistedView),
    ForgetSession,
    RefreshCounter,
    RefreshRecent,
    RefreshAccount,
    Notify { title: Seq<char>, body: Seq<char> },
    OpenSettings,
}

impl View for Effect {
    type V = EffectView;

    open spec fn view(&self) -> EffectView {
        match self {
            Effect::Persist(p) => EffectView::Persist(p@),
            Effect::ForgetSession => EffectView::ForgetSession,
            Effect::RefreshCounter => EffectView::RefreshCounter,
            Effect::RefreshRecent => EffectView::RefreshRecent,
            Effect::RefreshAccount => EffectView::RefreshAccount,
            Effect::Notify { title, body } => EffectView::Notify { title: title@, body: body@ },
            Effect::OpenSettings => EffectView::OpenSettings,
        }
    }
}

/// The views of a list of effects.
pub open spec fn effects_view(effects: Seq<Effect>) -> Seq<EffectView> {
    effects.map_values(|e: Effect| e@)
}

fn notice(title: &str, body: &str) -> (r: Effect)
    ensures
        r@ == (EffectView::Notify { title: title@, body: body@ }),
{
    Effect::Notify { title: title.to_owned(), body: body.to_owned() }
}

impl AppState {
    /// The state at startup. `file` is the snapshot on disk, if one could be
    /// read. Where the keychain cannot be accessed the app starts signed out.
    pub fn start(file: Option<Persisted>, loaded: Result<Option<Session>, String>) -> (r: AppState)
        ensures
            r@ == (AppView {
                trial: crate::state::TrialView::loaded(
                    match file {
                        Some(p) => p@,
                        None => crate::state::PersistedView::fresh(),
                    },
                ),
                session: match crate::auth::loaded_session(loaded) {
                    Ok(s) => s,
                    Err(_) => None,
                },
                watching: true,
            }),
    {
        AppState {
            trial: TrialState::load(file),
            session: match loaded {
                Ok(s) => s,
                Err(_) => None,
            },
            watching: true,
        }
    }
}

/// The signed-in API key, if any.
pub fn current_key(app: &AppState) -> (r: Option<String>)
    ensures
        crate::auth::opt_text(r) == match app@.session {
            Some(s) => Some(s.api_key),
            None => None,
        },
{
    match &app.session {
        Some(s) => Some(s.api_key.clone()),
        None => None,
    }
}

/// Whether there is a session.
pub fn is_signed_in(app: &AppState) -> (r: bool)
    ensures
        r == (app@.session is Some),
{
    app.session.is_some()
}

/// `n` of a unit, in words.
pub open spec fn count_of(n: nat, unit: Seq<char>) -> Seq<char> {
    crate::text::decimal(n) + " "@ + unit + if n == 1 {
        ""@
    } else {
        "s"@
    }
}

/// A duration in the largest unit of which it is a whole number.
pub open spec fn duration_text(secs: nat) -> Seq<char> {
    if secs % 86_400 == 0 {
        count_of(secs / 86_400, "day"@)
    } else if secs % 3_600 == 0 {
        count_of(secs / 3_600, "hour"@)
    } else if secs % 60 == 0 {
        count_of(secs / 60, "minute"@)
    } else {
        count_of(secs, "second"@)
    }
}

fn plural(n: u64, unit: &str) -> (r: String)
    ensures
        r@ == count_of(n as nat, unit@),
{
    let ending = if n == 1 {
        ""
    } else {
        "s"
    };
    to_decimal(n as u128).concat(" ").concat(unit).concat(ending)
}

/// Renders a duration for a message.
pub fn human_duration(secs: u64) -> (r: String)
    ensures
        r@ == duration_text(secs as nat),
{
    if secs % 86_400 == 0 {
        plural(secs / 86_400, "day")
    } else if secs % 3_600 == 0 {
        plural(secs / 3_600, "hour")
    } else if secs % 60 == 0 {
        plural(secs / 60, "minute")
    } else {
        plural(secs, "second")
    }
}

/// The final path segment of a URL, without the query string.
pub open spec fn final_segment(url: Seq<char>) -> Seq<char> {
    crate::text::after_last(crate::text::before_first(url, '?'), '/')
}

/// The tray label of an upload.
pub open spec fn label(url: Seq<char>, private: bool) -> Seq<char> {
    if private {
        "🔒 "@ + final_segment(url)
    } else {
        final_segment(url)
    }
}

/// Labels a recent upload for the tray by its final path segment. The query
/// string is dropped, so a signed URL's token never appears in the menu; private
/// links get a lock marker.
pub fn short_label(url: &str, private: bool) -> (r: String)
    ensures
        r@ == label(url@, private),
{
    let name = keep_after_last(cut_before_first(url, '?'), '/');
    if private {
        "🔒 ".to_owned().concat(name)
    } else {
        name.to_owned()
    }
}

/// A label does not depend on the query string: whatever stands behind the
/// first `?` of a URL, such as a signing token, leaves no trace in it.
pub proof fn label_does_not_show_the_query(
    path: Seq<char>,
    query: Seq<char>,
    other: Seq<char>,
    private: bool,
)
    ensures
        label(path + seq!['?'] + query, private) == label(path, private),
        label(path + seq!['?'] + query, private) == label(path + seq!['?'] + other, private),
{
    crate::text::before_first_ignores_the_rest(path, '?', query);
    crate::text::before_first_ignores_the_rest(path, '?', other);
}

/// The name in a label is a single path segment: it holds neither a slash nor a
/// question mark.
pub proof fn label_is_a_single_segment(url: Seq<char>)
    ensures
        !final_segment(url).contains('/'),
        !final_segment(url).contains('?'),
{
    let path = crate::text::before_first(url, '?');
    crate::text::before_first_holds_none(url, '?');
    crate::text::after_last_holds_none(path, '/');
}

/// An upload that was let through, with what it needs until it is done.
pub enum UploadTicket {
    /// Signed in: a keyed upload, which is not part of the free trial.
    Keyed {
        key: String,
        /// Whether the upload is private (signed URL).
        private: bool,
        /// The lifetime of the signed URL.
        sign_secs: u64,
    },
    /// Signed out: an anonymous upload, for which a trial slot is reserved.
    Anonymous,
}

/// What an `UploadTicket` stands for.
#[verifier::ext_equal]
pub enum TicketView {
    Keyed { key: Seq<char>, private: bool, sign_secs: int },
    Anonymous,
}

impl View for UploadTicket {
    type V = TicketView;

    open spec fn view(&self) -> TicketView {
        match self {
            UploadTicket::Keyed { key, private, sign_secs } => TicketView::Keyed {
                key: key@,
                private: *private,
                sign_secs: *sign_secs as int,
            },
            UploadTicket::Anonymous => TicketView::Anonymous,
        }
    }
}

impl TicketView {
    /// The options to upload with.
    pub open spec fn options(self) -> KeyedOptions {
        match self {
            TicketView::Keyed { key, private, sign_secs } => KeyedOptions {
                expires_in: Some(EPHEMERAL_SECS),
                private,
                sign_expires_in: if private {
                    Some(sign_secs as u64)
                } else {
                    None
                },
            },
            TicketView::Anonymous => KeyedOptions {
                expires_in: None,
                private: false,
                sign_expires_in: None,
            },
        }
    }
}

impl UploadTicket {
    /// The key to upload with, if any.
    pub fn api_key(&self) -> (r: Option<&str>)
        ensures
            match self@ {
                TicketView::Keyed { key, .. } => r matches Some(k) && k@ == key,
                TicketView::Anonymous => r is None,
            },
    {
        match self {
            UploadTicket::Keyed { key, .. } => Some(key.as_str()),
            UploadTicket::Anonymous => None,
        }
    }

    /// The options to upload with.
    pub fn options(&self) -> (r: KeyedOptions)
        ensures
            r == self@.options(),
    {
        match self {
            UploadTicket::Keyed { private, sign_secs, .. } => KeyedOptions {
                expires_in: Some(EPHEMERAL_SECS),
                private: *private,
                sign_expires_in: if *private {
                    Some(*sign_secs)
                } else {
                    None
                },
            },
            UploadTicket::Anonymous => KeyedOptions::default(),
        }
    }
}

/// How an upload starts.
pub enum UploadStart {
    /// It is let through.
    Upload(UploadTicket),
    /// The free trial is used up: the upload is not made.
    Gated(Vec<Effect>),
}

/// What an `UploadStart` stands for.
#[verifier::ext_equal]
pub enum StartView {
    Upload(TicketView),
    Gated(Seq<EffectView>),
}

impl View for UploadStart {
    type V = StartView;

    open spec fn view(&self) -> StartView {
        match self {
            UploadStart::Upload(t) => StartView::Upload(t@),
            UploadStart::Gated(effects) => StartView::Gated(effects_view(effects@)),
        }
    }
}

/// How an upload ends.
pub struct UploadEnd {
    /// The URL for the clipboard; no URL where the user has to sign in first; or
    /// the message of the failure.
    pub result: Result<Option<String>, String>,
    pub effects: Vec<Effect>,
}

/// The view of an upload's result.
pub open spec fn result_view(r: Result<Option<String>, String>) -> Result<
    Option<Seq<char>>,
    Seq<char>,
> {
    match r {
        Ok(url) => Ok(crate::auth::opt_text(url)),
        Err(m) => Err(m@),
    }
}

/// What an `UploadEnd` stands for.
#[verifier::ext_equal]
pub struct EndView {
    pub result: Result<Option<Seq<char>>, Seq<char>>,
    pub effects: Seq<EffectView>,
}

impl View for UploadEnd {
    type V = EndView;

    open spec fn view(&self) -> EndView {
        EndView { result: result_view(self.result), effects: effects_view(self.effects@) }
    }
}

/// The effects of a refused anonymous upload.
pub open spec fn gate_effects() -> Seq<EffectView> {
    seq![
        EffectView::Notify {
            title: "Sign in to keep uploading"@,
            body:
                "You've used your 5 free uploads. Sign in (Account & Settings) for unlimited uploads + history."@,
        },
        EffectView::OpenSettings,
    ]
}

/// The effects of a session that the server no longer accepts.
pub open spec fn expiry_effects() -> Seq<EffectView> {
    seq![
        EffectView::ForgetSession,
        EffectView::RefreshRecent,
        EffectView::RefreshAccount,
        EffectView::Notify {
            title: "Session expired"@,
            body: "Please sign in again (Account & Settings)."@,
        },
        EffectView::OpenSettings,
    ]
}

/// The notification of a finished keyed upload. A signed URL opens the image for
/// whoever has it, so it is kept off the notification.
pub open spec fn keyed_notice(url: Seq<char>, private: bool, sign_secs: int) -> EffectView {
    if private {
        EffectView::Notify {
            title: "Private link copied"@,
            body: "Paste to share · link expires in "@ + duration_text(sign_secs as nat),
        }
    } else {
        EffectView::Notify { title: "Image URL copied"@, body: url }
    }
}

/// The notification of a finished anonymous upload.
pub open spec fn anonymous_notice(url: Seq<char>, remaining: nat) -> EffectView {
    EffectView::Notify {
        title: "Image URL copied"@,
        body: url + "\n"@ + crate::text::decimal(remaining) + " of "@ + crate::text::decimal(
            FREE_UPLOAD_LIMIT as nat,
        ) + " free uploads left"@,
    }
}

impl AppView {
    /// Without the session and without the signed links that it made.
    pub open spec fn signed_out(self) -> AppView {
        AppView { session: None, trial: self.trial.forgotten(), ..self }
    }

    /// How an upload starts now.
    pub open spec fn start_of_upload(self) -> StartView {
        match self.session {
            Some(s) => StartView::Upload(
                TicketView::Keyed {
                    key: s.api_key,
                    private: self.trial.private_uploads,
                    sign_secs: self.trial.sign_expires_secs,
                },
            ),
            None => if self.trial.admits() {
                StartView::Upload(TicketView::Anonymous)
            } else {
                StartView::Gated(gate_effects())
            },
        }
    }

    /// The state after an upload started.
    pub open spec fn upload_started(self) -> AppView {
        match self.session {
            Some(_) => self,
            None => AppView { trial: self.trial.reserved(), ..self },
        }
    }

    /// The state after an upload came out as `outcome`.
    pub open spec fn upload_finished(
        self,
        ticket: TicketView,
        outcome: Result<Seq<char>, crate::upload::UploadErrorView>,
    ) -> AppView {
        match (ticket, outcome) {
            (TicketView::Keyed { private, .. }, Ok(url)) => AppView {
                trial: self.trial.pushed(url, private),
                ..self
            },
            (
                TicketView::Keyed { .. },
                Err(crate::upload::UploadErrorView::Unauthorized),
            ) => self.signed_out(),
            (TicketView::Keyed { .. }, Err(_)) => self,
            (TicketView::Anonymous, Ok(url)) => AppView {
                trial: self.trial.pushed(url, false),
                ..self
            },
            (TicketView::Anonymous, Err(_)) => AppView { trial: self.trial.released(), ..self },
        }
    }

    /// How an upload that came out as `outcome` ends.
    pub open spec fn end_of_upload(
        self,
        ticket: TicketView,
        outcome: Result<Seq<char>, crate::upload::UploadErrorView>,
    ) -> EndView {
        let trial = self.upload_finished(ticket, outcome).trial;
        match (ticket, outcome) {
            (TicketView::Keyed { private, sign_secs, .. }, Ok(url)) => EndView {
                result: Ok(Some(url)),
                effects: seq![
                    EffectView::Persist(trial.snapshot()),
                    EffectView::RefreshRecent,
                    keyed_notice(url, private, sign_secs),
                ],
            },
            (
                TicketView::Keyed { .. },
                Err(crate::upload::UploadErrorView::Unauthorized),
            ) => EndView { result: Ok(None), effects: expiry_effects() },
            (TicketView::Anonymous, Ok(url)) => EndView {
                result: Ok(Some(url)),
                effects: seq![
                    EffectView::Persist(trial.snapshot()),
                    EffectView::RefreshCounter,
                    EffectView::RefreshRecent,
                    anonymous_notice(url, trial.remaining()),
                ],
            },
            (_, Err(e)) => EndView { result: Err(e.message()), effects: Seq::empty() },
        }
    }
}

/// Clears a session that the server no longer accepts and asks for a new
/// sign-in.
pub fn handle_unauthorized(app: &mut AppState) -> (r: Vec<Effect>)
    ensures
        final(app)@ == old(app)@.signed_out(),
        effects_view(r@) == expiry_effects(),
{
    app.session = None;
    app.trial.forget_private_recent();
    let mut effects: Vec<Effect> = Vec::new();
    effects.push(Effect::ForgetSession);
    effects.push(Effect::RefreshRecent);
    effects.push(Effect::RefreshAccount);
    effects.push(notice("Session expired", "Please sign in again (Account & Settings)."));
    effects.push(Effect::OpenSettings);
    assert(effects_view(effects@) =~= expiry_effects());
    effects
}

/// Starts an upload. Signed in, it is keyed and follows the upload preferences.
/// Signed out, it takes a slot of the free trial; where none is left, the upload
/// is refused and the user is asked to sign in. The slot is taken in this one
/// call: threads that share the app behind a lock cannot both take the last one.
pub fn begin_upload(app: &mut AppState) -> (r: UploadStart)
    ensures
        final(app)@ == old(app)@.upload_started(),
        r@ == old(app)@.start_of_upload(),
        r matches UploadStart::Upload(UploadTicket::Keyed { sign_secs, .. })
            ==> MIN_SIGN_EXPIRES_SECS <= sign_secs <= MAX_SIGN_EXPIRES_SECS,
{
    match current_key(app) {
        Some(key) => UploadStart::Upload(
            UploadTicket::Keyed {
                key,
                private: app.trial.private_uploads(),
                sign_secs: app.trial.sign_expires_secs(),
            },
        ),
        None => {
            if app.trial.try_reserve() {
                UploadStart::Upload(UploadTicket::Anonymous)
            } else {
                let mut effects: Vec<Effect> = Vec::new();
                effects.push(
                    notice(
                        "Sign in to keep uploading",
                        "You've used your 5 free uploads. Sign in (Account & Settings) for unlimited uploads + history.",
                    ),
                );
                effects.push(Effect::OpenSettings);
                assert(effects_view(effects@) =~= gate_effects());
                UploadStart::Gated(effects)
            }
        },
    }
}

/// Ends an upload that `begin_upload` let through and that came out as
/// `outcome`: the hosted URL, or why there is none.
pub fn finish_upload(
    app: &mut AppState,
    ticket: UploadTicket,
    outcome: Result<String, UploadError>,
) -> (r: UploadEnd)
    ensures
        final(app)@ == old(app)@.upload_finished(
            ticket@,
            crate::upload::upload_outcome(outcome),
        ),
        r@ == old(app)@.end_of_upload(ticket@, crate::upload::upload_outcome(outcome)),
{
    let ghost expected = app@.end_of_upload(ticket@, crate::upload::upload_outcome(outcome));
    match (ticket, outcome) {
        (UploadTicket::Keyed { private, sign_secs, .. }, Ok(url)) => {
            let snapshot = app.trial.push_recent(url.as_str(), private);
            let message = if private {
                let body = "Paste to share · link expires in ".to_owned().concat(
                    human_duration(sign_secs).as_str(),
                );
                notice("Private link copied", body.as_str())
            } else {
                notice("Image URL copied", url.as_str())
            };
            let mut effects: Vec<Effect> = Vec::new();
            effects.push(Effect::Persist(snapshot));
            effects.push(Effect::RefreshRecent);
            effects.push(message);
            assert(effects_view(effects@) =~= expected.effects);
            UploadEnd { result: Ok(Some(url)), effects }
        },
        (UploadTicket::Keyed { .. }, Err(UploadError::Unauthorized)) => {
            let effects = handle_unauthorized(app);
            UploadEnd { result: Ok(None), effects }
        },
        (UploadTicket::Keyed { .. }, Err(e)) => {
            let effects: Vec<Effect> = Vec::new();
            assert(effects_view(effects@) =~= expected.effects);
            UploadEnd { result: Err(e.message()), effects }
        },
        (UploadTicket::Anonymous, Ok(url)) => {
            let snapshot = app.trial.commit_reserved(url.as_str());
            let body = url.clone().concat("\n").concat(
                to_decimal(app.trial.remaining() as u128).as_str(),
            ).concat(" of ").concat(to_decimal(FREE_UPLOAD_LIMIT as u128).as_str()).concat(
                " free uploads left",
            );
            let mut effects: Vec<Effect> = Vec::new();
            effects.push(Effect::Persist(snapshot));
            effects.push(Effect::RefreshCounter);
            effects.push(Effect::RefreshRecent);
            effects.push(notice("Image URL copied", body.as_str()));
            assert(effects_view(effects@) =~= expected.effects);
            UploadEnd { result: Ok(Some(url)), effects }
        },
        (UploadTicket::Anonymous, Err(e)) => {
            app.trial.release();
            let effects: Vec<Effect> = Vec::new();
            assert(effects_view(effects@) =~= expected.effects);
            UploadEnd { result: Err(e.message()), effects }
        },
    }
}

/// What to do with the result of an upload.
pub enum Delivery {
    /// Put the URL on the clipboard.
    Copy(String),
    /// Nothing: the user has been asked to sign in.
    Nothing,
    /// Tell the user.
    Notify { title: String, body: String },
}

/// What a `Delivery` stands for.
#[verifier::ext_equal]
pub enum DeliveryView {
    Copy(Seq<char>),
    Nothing,
    Notify { title: Seq<char>, body: Seq<char> },
}

impl View for Delivery {
    type V = DeliveryView;

    open spec fn view(&self) -> DeliveryView {
        match self {
            Delivery::Copy(url) => DeliveryView::Copy(url@),
            Delivery::Nothing => DeliveryView::Nothing,
            Delivery::Notify { title, body } => DeliveryView::Notify { title: title@, body: body@ },
        }
    }
}

/// What to do with the result of an upload.
pub open spec fn delivery_of(result: Result<Option<Seq<char>>, Seq<char>>) -> DeliveryView {
    match result {
        Ok(Some(url)) => DeliveryView::Copy(url),
        Ok(None) => DeliveryView::Nothing,
        Err(m) => DeliveryView::Notify { title: "Upload failed"@, body: m },
    }
}

/// Decides what to do with the result of an upload, of the watcher and of a
/// capture alike.
pub fn deliver(result: Result<Option<String>, String>) -> (r: Delivery)
    ensures
        r@ == delivery_of(result_view(result)),
{
    match result {
        Ok(Some(url)) => Delivery::Copy(url),
        Ok(None) => Delivery::Nothing,
        Err(m) => Delivery::Notify { title: "Upload failed".to_owned(), body: m },
    }
}

/// The title next to the tray icon: a mark while an upload is in flight.
pub fn busy_title(busy: bool) -> (r: Option<String>)
    ensures
        crate::auth::opt_text(r) == if busy {
            Some("⋯"@)
        } else {
            None
        },
{
    if busy {
        Some("⋯".to_owned())
    } else {
        None
    }
}

/// The text of the tray's counter item.
pub open spec fn counter_text(remaining: nat) -> Seq<char> {
    "Free uploads left: "@ + crate::text::decimal(remaining) + "/"@ + crate::text::decimal(
        FREE_UPLOAD_LIMIT as nat,
    )
}

/// The current text of the tray's counter item.
pub fn refresh_counter(app: &AppState) -> (r: String)
    ensures
        r@ == counter_text(app@.trial.remaining()),
{
    "Free uploads left: ".to_owned().concat(
        to_decimal(app.trial.remaining() as u128).as_str(),
    ).concat("/").concat(to_decimal(FREE_UPLOAD_LIMIT as u128).as_str())
}

/// The text of the tray's account item.
pub open spec fn account_text(session: Option<crate::auth::SessionView>) -> Seq<char> {
    match session {
        Some(s) => "Signed in as "@ + s.email,
        None => "Not signed in"@,
    }
}

/// The current text of the tray's account item.
pub fn refresh_account(app: &AppState) -> (r: String)
    ensures
        r@ == account_text(app@.session),
{
    match &app.session {
        Some(s) => "Signed in as ".to_owned().concat(s.email.as_str()),
        None => "Not signed in".to_owned(),
    }
}

/// One of the tray's recent items.
pub struct RecentSlot {
    pub text: String,
    /// Whether the item can be clicked, which copies its URL.
    pub enabled: bool,
}

/// What a `RecentSlot` stands for.
#[verifier::ext_equal]
pub struct SlotView {
    pub text: Seq<char>,
    pub enabled: bool,
}

impl View for RecentSlot {
    type V = SlotView;

    open spec fn view(&self) -> SlotView {
        SlotView { text: self.text@, enabled: self.enabled }
    }
}

/// The tray's recent item at place `i`.
pub open spec fn slot(recent: Seq<crate::state::RecentView>, i: int) -> SlotView {
    if 0 <= i < recent.len() {
        SlotView { text: label(recent[i].url, recent[i].private), enabled: true }
    } else {
        SlotView { text: "—"@, enabled: false }
    }
}

/// The current texts of the tray's `count` recent items. Filled slots show the
/// file name of the image and can be clicked; empty ones show a dash and cannot.
pub fn refresh_recent(app: &AppState, count: usize) -> (r: Vec<RecentSlot>)
    ensures
        r@.len() == count,
        forall|i: int| 0 <= i < count ==> (#[trigger] r@[i])@ == slot(app@.trial.recent, i),
{
    let recent = app.trial.recent_entries();
    let mut slots: Vec<RecentSlot> = Vec::new();
    for i in 0..count
        invariant
            recent@.len() == app@.trial.recent.len(),
            forall|j: int|
                0 <= j < recent@.len() ==> (#[trigger] recent@[j]).0@ == app@.trial.recent[j].url
                    && recent@[j].1 == app@.trial.recent[j].private,
            slots@.len() == i,
            forall|j: int| 0 <= j < i ==> (#[trigger] slots@[j])@ == slot(app@.trial.recent, j),
    {
        if i < recent.len() {
            slots.push(
                RecentSlot {
                    text: short_label(recent[i].0.as_str(), recent[i].1),
                    enabled: true,
                },
            );
        } else {
            slots.push(RecentSlot { text: "—".to_owned(), enabled: false });
        }
    }
    slots
}

/// The URL that a click on the tray's recent item at place `i` copies.
pub fn recent_url(app: &AppState, i: usize) -> (r: Option<String>)
    ensures
        crate::auth::opt_text(r) == if i < app@.trial.recent.len() {
            Some(app@.trial.recent[i as int].url)
        } else {
            None
        },
{
    let recent = app.trial.recent_entries();
    if i < recent.len() {
        Some(recent[i].0.clone())
    } else {
        None
    }
}

/// The text of the tray's toggle item.
pub open spec fn toggle_text(watching: bool) -> Seq<char> {
    if watching {
        "Pause watching"@
    } else {
        "Resume watching"@
    }
}

/// The current text of the tray's toggle item.
pub fn toggle_label(watching: bool) -> (r: String)
    ensures
        r@ == toggle_text(watching),
{
    if watching {
        "Pause watching".to_owned()
    } else {
        "Resume watching".to_owned()
    }
}

impl AppView {
    /// With the passive watcher turned on or off.
    pub open spec fn toggled(self) -> AppView {
        AppView { watching: !self.watching, ..self }
    }
}

/// Turns the passive watcher on or off. Returns the new text of the tray's
/// toggle item.
pub fn toggle_watching(app: &mut AppState) -> (r: String)
    ensures
        final(app)@ == old(app)@.toggled(),
        r@ == toggle_text(final(app)@.watching),
{
    app.watching = !app.watching;
    toggle_label(app.watching)
}

/// Takes over the session of a completed sign-in. Returns the signed-in email
/// and what is to be done.
pub fn complete_sign_in(app: &mut AppState, session: Session) -> (r: (String, Vec<Effect>))
    ensures
        final(app)@ == (AppView { session: Some(session@), ..old(app)@ }),
        r.0@ == session@.email,
        effects_view(r.1@) == seq![EffectView::RefreshAccount],
{
    let email = session.email.clone();
    app.session = Some(session);
    let mut effects: Vec<Effect> = Vec::new();
    effects.push(Effect::RefreshAccount);
    assert(effects_view(effects@) =~= seq![EffectView::RefreshAccount]);
    (email, effects)
}

/// Ends the session, once it is removed from the keychain. The signed (private)
/// links are forgotten, so none of them lingers.
pub fn sign_out(app: &mut AppState) -> (r: Vec<Effect>)
    ensures
        final(app)@ == old(app)@.signed_out(),
        effects_view(r@) == seq![EffectView::RefreshRecent, EffectView::RefreshAccount],
{
    app.session = None;
    app.trial.forget_private_recent();
    let mut effects: Vec<Effect> = Vec::new();
    effects.push(Effect::RefreshRecent);
    effects.push(Effect::RefreshAccount);
    assert(effects_view(effects@) =~= seq![
        EffectView::RefreshRecent,
        EffectView::RefreshAccount,
    ]);
    effects
}

/// The account, as the settings window shows it.
pub struct AuthStatus {
    pub signed_in: bool,
    pub email: Option<String>,
    pub remaining: u32,
}

/// The account, as the settings window shows it.
pub fn auth_status(app: &AppState) -> (r: AuthStatus)
    ensures
        r.signed_in == (app@.session is Some),
        crate::auth::opt_text(r.email) == match app@.session {
            Some(s) => Some(s.email),
            None => None,
        },
        r.remaining == app@.trial.remaining(),
{
    let email = match &app.session {
        Some(s) => Some(s.email.clone()),
        None => None,
    };
    AuthStatus { signed_in: email.is_some(), email, remaining: app.trial.remaining() }
}

/// The upload preferences.
pub struct Settings {
    pub private_uploads: bool,
    pub sign_expires_secs: u64,
}

impl AppView {
    /// The upload preferences.
    pub open spec fn settings(self) -> Settings {
        Settings {
            private_uploads: self.trial.private_uploads,
            sign_expires_secs: self.trial.sign_expires_secs as u64,
        }
    }
}

/// The upload preferences.
pub fn get_settings(app: &AppState) -> (r: Settings)
    ensures
        r == app@.settings(),
        r.sign_expires_secs == app@.trial.sign_expires_secs,
{
    Settings {
        private_uploads: app.trial.private_uploads(),
        sign_expires_secs: app.trial.sign_expires_secs(),
    }
}

/// Sets the upload preferences. Returns the stored (clamped) values, so that the
/// settings window shows what was saved, and the snapshot to write.
pub fn set_settings(app: &mut AppState, private_uploads: bool, sign_expires_secs: u64) -> (r: (
    Settings,
    Persisted,
))
    ensures
        final(app)@ == (AppView {
            trial: old(app)@.trial.with_prefs(private_uploads, sign_expires_secs as int),
            ..old(app)@
        }),
        r.0.private_uploads == private_uploads,
        r.0.sign_expires_secs == crate::state::clamped(sign_expires_secs as int),
        r.0 == final(app)@.settings(),
        r.1@ == final(app)@.trial.snapshot(),
{
    let snapshot = app.trial.set_upload_prefs(private_uploads, sign_expires_secs);
    (get_settings(app), snapshot)
}

/// Signed in, an upload is always let through, and neither its start nor its end
/// touches the trial counter.
pub proof fn signed_in_uploads_are_not_gated(
    app: AppView,
    later: AppView,
    outcome: Result<Seq<char>, crate::upload::UploadErrorView>,
)
    requires
        app.session is Some,
    ensures
        app.start_of_upload() is Upload,
        app.start_of_upload()->Upload_0 is Keyed,
        app.upload_started() == app,
        later.upload_finished(app.start_of_upload()->Upload_0, outcome).trial.uploads
            == later.trial.uploads,
{
}

/// Signed out, an upload is let through exactly while free uploads are left.
/// A refused upload changes nothing but asks for a sign-in.
pub proof fn signed_out_uploads_are_gated_by_the_trial(app: AppView)
    requires
        app.session is None,
    ensures
        app.start_of_upload() is Upload <==> app.trial.remaining() > 0,
        app.start_of_upload() is Upload ==> app.start_of_upload() == StartView::Upload(
            TicketView::Anonymous,
        ) && app.upload_started().trial.remaining() == app.trial.remaining() - 1,
        app.start_of_upload() is Gated ==> app.start_of_upload() == StartView::Gated(
            gate_effects(),
        ) && app.upload_started() == app,
{
}

/// A failed anonymous upload leaves the app as it was: the slot is not used up.
/// Its message is handed on.
pub proof fn failed_anonymous_upload_costs_nothing(
    app: AppView,
    error: crate::upload::UploadErrorView,
)
    requires
        app.session is None,
        app.start_of_upload() is Upload,
    ensures
        app.upload_started().upload_finished(TicketView::Anonymous, Err(error)) == app,
        app.upload_started().end_of_upload(TicketView::Anonymous, Err(error)).result == Err::<
            Option<Seq<char>>,
            Seq<char>,
        >(error.message()),
{
}

/// The app after `n` uploads were started, none of which is done.
pub open spec fn after_starts(app: AppView, n: nat) -> AppView
    decreases n,
{
    if n == 0 {
        app
    } else {
        after_starts(app, (n - 1) as nat).upload_started()
    }
}

/// Uploads that are under way at the same time share the trial: only as many are
/// let through as free uploads are left, so no two take the last one.
pub proof fn uploads_under_way_share_the_trial(app: AppView, n: nat)
    requires
        app.session is None,
    ensures
        after_starts(app, n).session is None,
        after_starts(app, n).start_of_upload() is Upload <==> n < app.trial.remaining(),
        n >= app.trial.remaining() ==> after_starts(app, n).trial.remaining() == 0,
        n < app.trial.remaining() ==> after_starts(app, n).trial.remaining()
            == app.trial.remaining() - n,
    decreases n,
{
    if n > 0 {
        uploads_under_way_share_the_trial(app, (n - 1) as nat);
    }
}

/// The app after uploads that the server all accepts, the first one first: those
/// that are let through end with their URL.
pub open spec fn after_uploads(app: AppView, urls: Seq<Seq<char>>) -> AppView
    decreases urls.len(),
{
    if urls.len() == 0 {
        app
    } else {
        let before = after_uploads(app, urls.drop_last());
        match before.start_of_upload() {
            StartView::Upload(ticket) => before.upload_started().upload_finished(
                ticket,
                Ok(urls.last()),
            ),
            StartView::Gated(_) => before.upload_started(),
        }
    }
}

/// Without a sign-in, the uploads that are left are let through and every
/// further one is refused; a fresh app lets `FREE_UPLOAD_LIMIT` through.
pub proof fn trial_ends_after_the_free_uploads(app: AppView, urls: Seq<Seq<char>>)
    requires
        app.session is None,
    ensures
        after_uploads(app, urls).session is None,
        after_uploads(app, urls).start_of_upload() is Upload <==> urls.len()
            < app.trial.remaining(),
        after_uploads(app, urls).trial.remaining() == if urls.len() < app.trial.remaining() {
            app.trial.remaining() - urls.len()
        } else {
            0
        },
    decreases urls.len(),
{
    if urls.len() > 0 {
        trial_ends_after_the_free_uploads(app, urls.drop_last());
    }
}

/// Signed in, no number of uploads comes to an end, and the trial keeps what it
/// had left.
pub proof fn signed_in_uploads_are_unlimited(app: AppView, urls: Seq<Seq<char>>)
    requires
        app.session is Some,
    ensures
        after_uploads(app, urls).session == app.session,
        after_uploads(app, urls).start_of_upload() is Upload,
        after_uploads(app, urls).trial.remaining() == app.trial.remaining(),
    decreases urls.len(),
{
    if urls.len() > 0 {
        signed_in_uploads_are_unlimited(app, urls.drop_last());
    }
}

/// The URL of a finished upload is the one that goes on the clipboard, and it is
/// the newest in the tray.
pub proof fn finished_upload_is_delivered(
    app: AppView,
    ticket: TicketView,
    url: Seq<char>,
)
    ensures
        delivery_of(app.end_of_upload(ticket, Ok(url)).result) == DeliveryView::Copy(url),
        app.upload_finished(ticket, Ok(url)).trial.recent.len() > 0,
        app.upload_finished(ticket, Ok(url)).trial.recent[0].url == url,
{
    let private = match ticket {
        TicketView::Keyed { private, .. } => private,
        TicketView::Anonymous => false,
    };
    crate::state::pushed_url_comes_first_and_once(app.trial, url, private);
}

/// The notifications of a private upload say nothing about its URL: with any
/// other URL they would be the same.
pub proof fn notifications_do_not_show_private_links(
    app: AppView,
    key: Seq<char>,
    sign_secs: int,
    url: Seq<char>,
    other: Seq<char>,
)
    ensures
        ({
            let ticket = TicketView::Keyed { key, private: true, sign_secs };
            let effects = app.end_of_upload(ticket, Ok(url)).effects;
            let others = app.end_of_upload(ticket, Ok(other)).effects;
            &&& effects.len() == others.len()
            &&& forall|i: int|
                0 <= i < effects.len() && (effects[i] is Notify || others[i] is Notify)
                    ==> #[trigger] effects[i] == #[trigger] others[i]
        }),
{
}

/// A signed link is never part of what is written to disk after its upload.
pub proof fn disk_does_not_hold_private_links(
    app: AppView,
    key: Seq<char>,
    sign_secs: int,
    url: Seq<char>,
)
    ensures
        ({
            let ticket = TicketView::Keyed { key, private: true, sign_secs };
            let after = app.upload_finished(ticket, Ok(url));
            !after.trial.snapshot().recent.contains(url)
        }),
{
    let trial = app.trial.pushed(url, true);
    crate::state::pushed_url_comes_first_and_once(app.trial, url, true);
    let public = trial.recent.filter(crate::state::is_public());
    assert forall|i: int| 0 <= i < trial.snapshot().recent.len() implies #[trigger] trial.snapshot().recent[i]
        != url by {
        trial.recent.lemma_filter_pred(crate::state::is_public(), i);
        assert(public.contains(public[i]));
        trial.recent.lemma_filter_contains_rev(crate::state::is_public(), public[i]);
        let k = choose|k: int| 0 <= k < trial.recent.len() && trial.recent[k] == public[i];
        assert(trial.recent[k] == public[i]);
    }
}

/// Once a session ends, by a sign-out or because the server refuses its key, the
/// app is signed out and the tray holds no signed link. What it had of public
/// uploads, and of the trial, stays.
pub proof fn no_private_link_outlives_the_session(app: AppView, ticket: TicketView)
    requires
        ticket is Keyed,
    ensures
        app.upload_finished(ticket, Err(crate::upload::UploadErrorView::Unauthorized))
            == app.signed_out(),
        app.signed_out().session is None,
        forall|i: int|
            0 <= i < app.signed_out().trial.recent.len() ==> !(
            #[trigger] app.signed_out().trial.recent[i]).private,
        app.signed_out().trial.uploads == app.trial.uploads,
        app.signed_out().trial.snapshot() == app.trial.snapshot(),
{
    crate::state::forgetting_leaves_no_private_link(app.trial);
}

/// Every upload that is let through asks for a signed-URL lifetime that the API
/// accepts, if it asks for one; and it asks for one exactly when it is private.
pub proof fn requested_lifetimes_are_accepted(app: AppView)
    requires
        app.trial.wf(),
        app.start_of_upload() is Upload,
    ensures
        ({
            let opts = app.start_of_upload()->Upload_0.options();
            &&& opts.private <==> opts.sign_expires_in is Some
            &&& opts.sign_expires_in matches Some(secs) ==> MIN_SIGN_EXPIRES_SECS
                <= secs <= MAX_SIGN_EXPIRES_SECS
            &&& opts.private ==> app.session is Some && app.trial.private_uploads
        }),
{
}

/// The form of a signed-in upload always says when the image expires, and it
/// asks for a private image and a signed link exactly when the preferences do.
pub proof fn signed_in_requests_follow_the_preferences(app: AppView)
    requires
        app.trial.wf(),
        app.session is Some,
    ensures
        ({
            let opts = app.start_of_upload()->Upload_0.options();
            let expiry = crate::upload::secs_field("expires_in"@, Some(EPHEMERAL_SECS));
            let lifetime = crate::upload::FieldView {
                name: "sign_expires_in"@,
                value: crate::text::decimal(app.trial.sign_expires_secs as nat),
            };
            crate::upload::form_fields(true, opts) == if app.trial.private_uploads {
                expiry + seq![
                    crate::upload::FieldView { name: "visibility"@, value: "private"@ },
                    lifetime,
                ]
            } else {
                expiry
            }
        }),
{
    let opts = app.start_of_upload()->Upload_0.options();
    if app.trial.private_uploads {
        let expiry = crate::upload::secs_field("expires_in"@, Some(EPHEMERAL_SECS));
        let private = crate::upload::FieldView { name: "visibility"@, value: "private"@ };
        let lifetime = crate::upload::FieldView {
            name: "sign_expires_in"@,
            value: crate::text::decimal(app.trial.sign_expires_secs as nat),
        };
        assert(crate::upload::form_fields(true, opts) =~= expiry + seq![private, lifetime]);
    }
}

/// Pausing and resuming the watcher leaves the app as it was.
pub proof fn toggling_twice_changes_nothing(app: AppView)
    ensures
        app.toggled().toggled() == app,
        app.toggled() != app,
{
}

/// Something that happens to the running app.
pub enum AppEvent {
    /// An upload is started.
    Start,
    /// An upload that was let through comes to an end.
    Finish { ticket: TicketView, outcome: Result<Seq<char>, crate::upload::UploadErrorView> },
    SignIn { session: crate::auth::SessionView },
    SignOut,
    SetSettings { private_uploads: bool, secs: int },
    Toggle,
}

/// The app with a tally of its anonymous uploads.
#[verifier::ext_equal]
pub struct Tally {
    pub app: AppView,
    /// Anonymous uploads that were let through and have not ended yet.
    pub under_way: nat,
    /// Anonymous uploads that ended with a URL.
    pub done: nat,
}

impl Tally {
    /// The tally after `event`. Only an anonymous upload that is under way ends.
    pub open spec fn after(self, event: AppEvent) -> Tally {
        match event {
            AppEvent::Start => Tally {
                app: self.app.upload_started(),
                under_way: if self.app.start_of_upload() == StartView::Upload(
                    TicketView::Anonymous,
                ) {
                    self.under_way + 1
                } else {
                    self.under_way
                },
                ..self
            },
            AppEvent::Finish { ticket, outcome } => if ticket is Keyed {
                Tally { app: self.app.upload_finished(ticket, outcome), ..self }
            } else if self.under_way > 0 {
                Tally {
                    app: self.app.upload_finished(ticket, outcome),
                    under_way: (self.under_way - 1) as nat,
                    done: if outcome is Ok {
                        self.done + 1
                    } else {
                        self.done
                    },
                }
            } else {
                self
            },
            AppEvent::SignIn { session } => Tally {
                app: AppView { session: Some(session), ..self.app },
                ..self
            },
            AppEvent::SignOut => Tally { app: self.app.signed_out(), ..self },
            AppEvent::SetSettings { private_uploads, secs } => Tally {
                app: AppView { trial: self.app.trial.with_prefs(private_uploads, secs), ..self.app },
                ..self
            },
            AppEvent::Toggle => Tally { app: self.app.toggled(), ..self },
        }
    }

    /// The tally after `events`, the first one first.
    pub open spec fn after_all(self, events: Seq<AppEvent>) -> Tally
        decreases events.len(),
    {
        if events.len() == 0 {
            self
        } else {
            self.after_all(events.drop_last()).after(events.last())
        }
    }
}

/// Whatever happens, and in whatever order uploads end, the counter says exactly
/// how many anonymous uploads are done or under way, and together they never
/// exceed what the trial had left. The app's state stays well-formed.
pub proof fn free_uploads_are_never_exceeded(app: AppView, events: Seq<AppEvent>)
    requires
        app.trial.wf(),
    ensures
        ({
            let end = (Tally { app, under_way: 0, done: 0 }).after_all(events);
            &&& end.app.trial.uploads == app.trial.uploads + end.under_way + end.done
            &&& end.under_way + end.done <= app.trial.remaining()
            &&& end.app.trial.wf()
        }),
    decreases events.len(),
{
    if events.len() > 0 {
        free_uploads_are_never_exceeded(app, events.drop_last());
        let before = (Tally { app, under_way: 0, done: 0 }).after_all(events.drop_last());
        before.app.trial.recent.lemma_filter_len(crate::state::is_public());
    }
}

/// An upload that ended with a URL is written to disk: its effects hold the
/// snapshot of the state after it and no other snapshot, whatever the ticket. A
/// start from that snapshot finds the counter, the preferences and the public
/// part of the list of that state.
pub proof fn finished_uploads_are_written_to_disk(app: AppView, ticket: TicketView, url: Seq<char>)
    ensures
        ({
            let effects = app.end_of_upload(ticket, Ok(url)).effects;
            let after = app.upload_finished(ticket, Ok(url)).trial;
            let restarted = crate::state::TrialView::loaded(after.snapshot());
            &&& effects.contains(EffectView::Persist(after.snapshot()))
            &&& forall|i: int|
                0 <= i < effects.len() && (#[trigger] effects[i]) is Persist ==> effects[i]
                    == EffectView::Persist(after.snapshot())
            &&& after.uploads == app.trial.uploads
            &&& app.trial.wf() ==> {
                &&& restarted.uploads == app.trial.uploads
                &&& restarted.private_uploads == app.trial.private_uploads
                &&& restarted.sign_expires_secs == app.trial.sign_expires_secs
                &&& restarted.recent == after.recent.filter(
                    |e: crate::state::RecentView| !e.private,
                )
            }
        }),
{
    let effects = app.end_of_upload(ticket, Ok(url)).effects;
    let after = app.upload_finished(ticket, Ok(url)).trial;
    assert(effects[0] == EffectView::Persist(after.snapshot()));
    let private = match ticket {
        TicketView::Keyed { private, .. } => private,
        TicketView::Anonymous => false,
    };
    crate::state::push_keeps_what_fits(app.trial, url, private);
    if app.trial.wf() {
        crate::state::load_gives_back_the_snapshot(after);
        assert(crate::state::is_public() =~= (|e: crate::state::RecentView| !e.private));
    }
}

/// An anonymous upload that succeeded is counted on disk, and its URL is the
/// newest there: a restart brings no free upload back.
pub proof fn restarts_bring_no_free_upload_back(app: AppView, url: Seq<char>)
    requires
        app.session is None,
        app.trial.wf(),
        app.trial.remaining() > 0,
    ensures
        ({
            let after = app.upload_started().upload_finished(TicketView::Anonymous, Ok(url)).trial;
            let restarted = crate::state::TrialView::loaded(after.snapshot());
            &&& restarted.uploads == app.trial.uploads + 1
            &&& restarted.remaining() == app.trial.remaining() - 1
            &&& restarted.recent.len() > 0
            &&& restarted.recent[0].url == url
        }),
{
    let started = app.upload_started();
    finished_uploads_are_written_to_disk(started, TicketView::Anonymous, url);
    let after = started.upload_finished(TicketView::Anonymous, Ok(url)).trial;
    crate::state::push_keeps_what_fits(started.trial, url, false);
    crate::state::load_gives_back_the_snapshot(after);
    let first = seq![after.recent[0]];
    let rest = after.recent.skip(1);
    assert(after.recent =~= first + rest);
    Seq::filter_distributes_over_add(first, rest, crate::state::is_public());
    assert(first.filter(crate::state::is_public()) =~= first) by {
        reveal_with_fuel(Seq::filter, 2);
        assert(first.drop_last() =~= Seq::empty());
        assert(Seq::<crate::state::RecentView>::empty().push(first.last()) =~= first);
    }
}

/// An upload that starts signed in carries the key of the session, whatever the
/// preferences are, and the preferences as they are.
pub proof fn uploads_carry_the_key_of_the_session(app: AppView)
    requires
        app.session is Some,
    ensures
        ({
            let start = app.start_of_upload();
            &&& start is Upload
            &&& start->Upload_0 is Keyed
            &&& start->Upload_0->key == app.session->0.api_key
            &&& start->Upload_0->private == app.trial.private_uploads
            &&& start->Upload_0->sign_secs == app.trial.sign_expires_secs
        }),
{
}

/// The options of a keyed upload let the image live for thirty days and follow
/// the ticket in privacy and lifetime; those of an anonymous one are empty.
pub proof fn options_follow_the_ticket(key: Seq<char>, private: bool, sign_secs: u64)
    ensures
        ({
            let opts = (TicketView::Keyed { key, private, sign_secs: sign_secs as int }).options();
            &&& opts.expires_in == Some((30 * 24 * 3600) as u64)
            &&& opts.private == private
            &&& private ==> opts.sign_expires_in == Some(sign_secs)
            &&& !private ==> opts.sign_expires_in is None
        }),
        TicketView::Anonymous.options().expires_in is None,
        !TicketView::Anonymous.options().private,
        TicketView::Anonymous.options().sign_expires_in is None,
{
}

/// Starting an upload changes nothing but the counter, which goes up by one
/// exactly for an anonymous upload that is let through.
pub proof fn starts_count_anonymous_uploads(app: AppView)
    ensures
        ({
            let after = app.upload_started();
            &&& after.session == app.session
            &&& after.watching == app.watching
            &&& after.trial.recent == app.trial.recent
            &&& after.trial.private_uploads == app.trial.private_uploads
            &&& after.trial.sign_expires_secs == app.trial.sign_expires_secs
            &&& after.trial.uploads == app.trial.uploads + if app.session is None
                && app.trial.uploads < 5 {
                1int
            } else {
                0
            }
            &&& app.start_of_upload() is Gated <==> app.session is None && app.trial.uploads >= 5
        }),
{
}

/// An upload that ended with a URL puts it first in the list, private exactly if
/// the upload was; the session, the watcher, the counter and the preferences stay.
pub proof fn finished_uploads_are_remembered(app: AppView, ticket: TicketView, url: Seq<char>)
    ensures
        ({
            let after = app.upload_finished(ticket, Ok(url));
            let private = ticket is Keyed && ticket->private;
            let others = app.trial.recent.filter(|e: crate::state::RecentView| e.url != url);
            &&& after.session == app.session
            &&& after.watching == app.watching
            &&& after.trial.uploads == app.trial.uploads
            &&& after.trial.private_uploads == app.trial.private_uploads
            &&& after.trial.sign_expires_secs == app.trial.sign_expires_secs
            &&& after.trial.recent.len() == if others.len() < 4 {
                others.len() + 1
            } else {
                5
            }
            &&& after.trial.recent[0].url == url
            &&& after.trial.recent[0].private == private
            &&& forall|i: int|
                0 < i < after.trial.recent.len() ==> #[trigger] after.trial.recent[i] == others[i
                    - 1]
        }),
{
    let private = ticket is Keyed && ticket->private;
    crate::state::push_keeps_what_fits(app.trial, url, private);
}

/// What a finished upload leads to: its URL as the result, a fresh list in the
/// tray, a fresh counter too if it was anonymous, and one notification, at the
/// end. It neither ends the session nor opens a window.
pub proof fn finished_uploads_are_announced_once(app: AppView, ticket: TicketView, url: Seq<char>)
    ensures
        ({
            let end = app.end_of_upload(ticket, Ok(url));
            &&& end.result == Ok::<Option<Seq<char>>, Seq<char>>(Some(url))
            &&& end.effects.contains(EffectView::RefreshRecent)
            &&& ticket is Keyed ==> end.effects.len() == 3
            &&& ticket is Anonymous ==> end.effects.len() == 4
            &&& ticket is Anonymous ==> end.effects.contains(EffectView::RefreshCounter)
            &&& end.effects.last() is Notify
            &&& forall|i: int|
                0 <= i < end.effects.len() - 1 ==> (#[trigger] end.effects[i]) !is Notify
            &&& forall|i: int|
                0 <= i < end.effects.len() ==> (#[trigger] end.effects[i]) !is ForgetSession
                    && end.effects[i] !is OpenSettings
        }),
{
    let effects = app.end_of_upload(ticket, Ok(url)).effects;
    assert(effects[1] == EffectView::RefreshRecent || effects[2] == EffectView::RefreshRecent);
    if ticket is Anonymous {
        assert(effects[1] == EffectView::RefreshCounter);
    }
}

/// What the notification of a finished upload says: the URL of a public one, and
/// behind that, for an anonymous one, how many free uploads are left; of a
/// private one only how long its link lives.
pub proof fn notifications_say_what_was_copied(
    app: AppView,
    key: Seq<char>,
    sign_secs: int,
    url: Seq<char>,
)
    ensures
        ({
            let public = TicketView::Keyed { key, private: false, sign_secs };
            let said = app.end_of_upload(public, Ok(url)).effects.last();
            said->Notify_title == "Image URL copied"@ && said->Notify_body == url
        }),
        ({
            let private = TicketView::Keyed { key, private: true, sign_secs };
            let said = app.end_of_upload(private, Ok(url)).effects.last();
            let head = "Paste to share · link expires in "@;
            &&& said->Notify_title == "Private link copied"@
            &&& said->Notify_body.take(head.len() as int) == head
            &&& said->Notify_body.skip(head.len() as int) == duration_text(sign_secs as nat)
        }),
        ({
            let said = app.end_of_upload(TicketView::Anonymous, Ok(url)).effects.last();
            let left = crate::text::decimal(app.trial.remaining());
            &&& said->Notify_title == "Image URL copied"@
            &&& said->Notify_body.take(url.len() as int) == url
            &&& said->Notify_body.skip(url.len() as int) == "\n"@ + left + " of "@
                + crate::text::decimal(5) + " free uploads left"@
        }),
{
    let head = "Paste to share · link expires in "@;
    let life = duration_text(sign_secs as nat);
    assert((head + life).take(head.len() as int) =~= head);
    assert((head + life).skip(head.len() as int) =~= life);
    let left = crate::text::decimal(app.trial.remaining());
    let tail = "\n"@ + left + " of "@ + crate::text::decimal(5) + " free uploads left"@;
    let body = url + "\n"@ + left + " of "@ + crate::text::decimal(5) + " free uploads left"@;
    crate::state::push_keeps_what_fits(app.trial, url, false);
    assert(body.take(url.len() as int) =~= url);
    assert(body.skip(url.len() as int) =~= tail);
}

/// A failed upload is reported by its message and has no other effect: a keyed
/// one changes nothing, an anonymous one gives its slot back. The exception is a
/// key that the server refuses.
pub proof fn failed_uploads_are_reported(
    app: AppView,
    ticket: TicketView,
    error: crate::upload::UploadErrorView,
)
    requires
        ticket is Keyed ==> error is Failed,
    ensures
        ({
            let end = app.end_of_upload(ticket, Err(error));
            let after = app.upload_finished(ticket, Err(error));
            &&& end.effects.len() == 0
            &&& error matches crate::upload::UploadErrorView::Failed(m) ==> end.result == Err::<
                Option<Seq<char>>,
                Seq<char>,
            >(m)
            &&& error is Unauthorized ==> end.result == Err::<Option<Seq<char>>, Seq<char>>(
                "Your session has expired."@,
            )
            &&& ticket is Keyed ==> after == app
            &&& ticket is Anonymous ==> {
                &&& after.session == app.session
                &&& after.watching == app.watching
                &&& after.trial.recent == app.trial.recent
                &&& after.trial.private_uploads == app.trial.private_uploads
                &&& after.trial.sign_expires_secs == app.trial.sign_expires_secs
                &&& app.trial.uploads > 0 ==> after.trial.uploads == app.trial.uploads - 1
                &&& app.trial.uploads == 0 ==> after.trial.uploads == 0
            }
        }),
{
}

/// A refused key ends the session for good: it is removed from the keychain, the
/// tray is brought up to date, the user is told and shown the settings. No URL
/// comes of it and nothing is reported as a failure.
pub proof fn refused_keys_end_the_session(app: AppView, ticket: TicketView)
    requires
        ticket is Keyed,
    ensures
        ({
            let refused = crate::upload::UploadErrorView::Unauthorized;
            let end = app.end_of_upload(ticket, Err(refused));
            let after = app.upload_finished(ticket, Err(refused));
            &&& end.result == Ok::<Option<Seq<char>>, Seq<char>>(None)
            &&& end.effects.len() == 5
            &&& end.effects.contains(EffectView::ForgetSession)
            &&& end.effects.contains(EffectView::RefreshRecent)
            &&& end.effects.contains(EffectView::RefreshAccount)
            &&& end.effects.contains(EffectView::OpenSettings)
            &&& end.effects.contains(
                EffectView::Notify {
                    title: "Session expired"@,
                    body: "Please sign in again (Account & Settings)."@,
                },
            )
            &&& after.session is None
            &&& after.watching == app.watching
            &&& after.trial.uploads == app.trial.uploads
            &&& after.trial.recent == app.trial.recent.filter(
                |e: crate::state::RecentView| !e.private,
            )
            &&& after.trial.private_uploads == app.trial.private_uploads
            &&& after.trial.sign_expires_secs == app.trial.sign_expires_secs
        }),
{
    let refused = crate::upload::UploadErrorView::Unauthorized;
    let effects = app.end_of_upload(ticket, Err(refused)).effects;
    assert(effects[0] == EffectView::ForgetSession);
    assert(effects[1] == EffectView::RefreshRecent);
    assert(effects[2] == EffectView::RefreshAccount);
    assert(effects[3] == EffectView::Notify {
        title: "Session expired"@,
        body: "Please sign in again (Account & Settings)."@,
    });
    assert(effects[4] == EffectView::OpenSettings);
    assert(crate::state::is_public() =~= (|e: crate::state::RecentView| !e.private));
}

/// A sign-out keeps the watcher, the counter, the preferences and the public
/// uploads in their order.
pub proof fn sign_outs_keep_what_is_public(app: AppView)
    ensures
        app.signed_out().session is None,
        app.signed_out().watching == app.watching,
        app.signed_out().trial.uploads == app.trial.uploads,
        app.signed_out().trial.private_uploads == app.trial.private_uploads,
        app.signed_out().trial.sign_expires_secs == app.trial.sign_expires_secs,
        app.signed_out().trial.recent == app.trial.recent.filter(
            |e: crate::state::RecentView| !e.private,
        ),
{
    assert(crate::state::is_public() =~= (|e: crate::state::RecentView| !e.private));
}

/// A refused anonymous upload tells the user to sign in and shows the settings.
pub proof fn refused_uploads_ask_for_a_sign_in(app: AppView)
    requires
        app.start_of_upload() is Gated,
    ensures
        app.start_of_upload()->Gated_0.len() == 2,
        app.start_of_upload()->Gated_0[0] == (EffectView::Notify {
            title: "Sign in to keep uploading"@,
            body:
                "You've used your 5 free uploads. Sign in (Account & Settings) for unlimited uploads + history."@,
        }),
        app.start_of_upload()->Gated_0[1] == EffectView::OpenSettings,
{
}

/// A URL goes on the clipboard as it is, and a failure is shown in its own words.
pub proof fn results_are_delivered_as_they_are(url: Seq<char>, message: Seq<char>)
    ensures
        delivery_of(Ok(Some(url))) == DeliveryView::Copy(url),
        delivery_of(Ok(None)) == DeliveryView::Nothing,
        delivery_of(Err(message)) is Notify,
        delivery_of(Err(message))->title == "Upload failed"@,
        delivery_of(Err(message))->body == message,
{
}

/// A duration is shown in full: as a number of days, or, where it is no multiple
/// of a day, of hours, then of minutes, then of seconds; the unit is in the
/// singular for a single one only.
pub proof fn durations_are_shown_in_full(n: nat)
    ensures
        ({
            let number = crate::text::decimal(n);
            let ending = if n == 1 {
                ""@
            } else {
                "s"@
            };
            &&& duration_text(n * 86_400) == number + " "@ + "day"@ + ending
            &&& n % 24 != 0 ==> duration_text(n * 3_600) == number + " "@ + "hour"@ + ending
            &&& n % 60 != 0 ==> duration_text(n * 60) == number + " "@ + "minute"@ + ending
            &&& n % 60 != 0 ==> duration_text(n) == number + " "@ + "second"@ + ending
        }),
{
}

/// A file in a directory is labelled by its own name, with or without a query
/// behind it; so is a name alone. A private one has a lock in front.
pub proof fn labels_are_file_names(dir: Seq<char>, name: Seq<char>, query: Seq<char>)
    requires
        !dir.contains('?'),
        !name.contains('?'),
        !name.contains('/'),
    ensures
        label(dir + seq!['/'] + name, false) == name,
        label(dir + seq!['/'] + name + seq!['?'] + query, false) == name,
        label(name, false) == name,
        label(dir + seq!['/'] + name + seq!['?'] + query, true) == "🔒 "@ + name,
        label(name, true) == "🔒 "@ + name,
{
    let path = dir + seq!['/'] + name;
    assert forall|i: int| 0 <= i < path.len() implies path[i] != '?' by {
        if i < dir.len() {
            assert(dir.contains(dir[i]));
        } else if i > dir.len() {
            assert(path[i] == name[i - dir.len() - 1]);
            assert(name.contains(name[i - dir.len() - 1]));
        }
    }
    no_mark_before_the_end(path);
    crate::text::before_first_ignores_the_rest(path, '?', query);
    crate::text::after_last_starts_at_the_last(path, '/');
    let k = path.len() - crate::text::after_last(path, '/').len();
    assert(path[dir.len() as int] == '/');
    if k > dir.len() + 1 {
        assert(path[k - 1] == name[k - 1 - dir.len() - 1]);
        assert(name.contains(name[k - 1 - dir.len() - 1]));
    }
    assert(k == dir.len() + 1);
    assert(path.skip(k) =~= name);
    assert forall|i: int| 0 <= i < name.len() implies name[i] != '?' by {
        assert(name.contains(name[i]));
    }
    no_mark_before_the_end(name);
    crate::text::after_last_starts_at_the_last(name, '/');
    let j = name.len() - crate::text::after_last(name, '/').len();
    if j > 0 {
        assert(name.contains(name[j - 1]));
    }
    assert(name.skip(0) =~= name);
}

proof fn no_mark_before_the_end(s: Seq<char>)
    requires
        forall|i: int| 0 <= i < s.len() ==> s[i] != '?',
    ensures
        crate::text::before_first(s, '?') == s,
{
    crate::text::before_first_ends_at_the_first(s, '?');
    assert(s.take(s.len() as int) =~= s);
}

/// The tray shows how many uploads are left of five, and who is signed in.
pub proof fn tray_texts_show_the_state(remaining: nat, s: crate::auth::SessionView)
    ensures
        ({
            let head = "Free uploads left: "@;
            let left = crate::text::decimal(remaining);
            let text = counter_text(remaining);
            &&& text.take(head.len() as int) == head
            &&& text.skip(head.len() as int) == left + "/"@ + crate::text::decimal(5)
        }),
        ({
            let head = "Signed in as "@;
            let text = account_text(Some(s));
            &&& text.take(head.len() as int) == head
            &&& text.skip(head.len() as int) == s.email
        }),
        account_text(None) == "Not signed in"@,
        toggle_text(true) == "Pause watching"@,
        toggle_text(false) == "Resume watching"@,
{
    let head = "Free uploads left: "@;
    let left = crate::text::decimal(remaining);
    let text = counter_text(remaining);
    assert(text.take(head.len() as int) =~= head);
    assert(text.skip(head.len() as int) =~= left + "/"@ + crate::text::decimal(5));
    let who = "Signed in as "@;
    assert((who + s.email).take(who.len() as int) =~= who);
    assert((who + s.email).skip(who.len() as int) =~= s.email);
}

/// A recent item can be clicked exactly if there is an upload at its place, and
/// then shows the label of that upload; any other shows a dash.
pub proof fn recent_items_show_their_upload(recent: Seq<crate::state::RecentView>, i: int)
    requires
        0 <= i,
    ensures
        slot(recent, i).enabled <==> i < recent.len(),
        i < recent.len() ==> slot(recent, i).text == label(recent[i].url, recent[i].private),
        i >= recent.len() ==> slot(recent, i).text == "—"@,
{
}

/// Toggling flips the watcher and nothing else.
pub proof fn toggling_flips_the_watcher_only(app: AppView)
    ensures
        app.toggled().watching == !app.watching,
        app.toggled().trial == app.trial,
        app.toggled().session == app.session,
{
}

/// The settings window is given the preferences as they are.
pub proof fn settings_are_the_preferences(app: AppView)
    requires
        app.trial.wf(),
    ensures
        app.settings().private_uploads == app.trial.private_uploads,
        app.settings().sign_expires_secs == app.trial.sign_expires_secs,
        EPHEMERAL_SECS == 30 * 24 * 3600,
        CAPTURE_SHORTCUT@ == "CmdOrCtrl+Shift+2"@,
{
}

/// The views of the app, of tickets and of ends show every field.
pub proof fn app_views_show_every_field(
    app: AppState,
    key: String,
    private: bool,
    sign_secs: u64,
    ticket: UploadTicket,
    effects: Vec<Effect>,
    end: UploadEnd,
)
    ensures
        app@.trial == app.trial@,
        app@.session == crate::auth::opt_session(app.session),
        app@.watching == app.watching,
        UploadTicket::Anonymous@ == TicketView::Anonymous,
        (UploadTicket::Keyed { key, private, sign_secs })@ == (TicketView::Keyed {
            key: key@,
            private,
            sign_secs: sign_secs as int,
        }),
        UploadStart::Upload(ticket)@ == StartView::Upload(ticket@),
        UploadStart::Gated(effects)@ == StartView::Gated(effects_view(effects@)),
        end@.result == result_view(end.result),
        end@.effects == effects_view(end.effects@),
        result_view(Ok(Some(key))) == Ok::<Option<Seq<char>>, Seq<char>>(Some(key@)),
        result_view(Ok(None)) == Ok::<Option<Seq<char>>, Seq<char>>(None),
        result_view(Err(key)) == Err::<Option<Seq<char>>, Seq<char>>(key@),
{
}

/// The views of effects, deliveries and slots keep their kind and their texts.
pub proof fn effect_views_keep_their_contents(
    title: String,
    body: String,
    snapshot: Persisted,
    item: RecentSlot,
    effects: Seq<Effect>,
    i: int,
)
    ensures
        Effect::Persist(snapshot)@ == EffectView::Persist(snapshot@),
        Effect::ForgetSession@ == EffectView::ForgetSession,
        Effect::RefreshCounter@ == EffectView::RefreshCounter,
        Effect::RefreshRecent@ == EffectView::RefreshRecent,
        Effect::RefreshAccount@ == EffectView::RefreshAccount,
        Effect::OpenSettings@ == EffectView::OpenSettings,
        (Effect::Notify { title, body })@ == (EffectView::Notify { title: title@, body: body@ }),
        Delivery::Copy(title)@ == DeliveryView::Copy(title@),
        Delivery::Nothing@ == DeliveryView::Nothing,
        (Delivery::Notify { title, body })@ == (DeliveryView::Notify {
            title: title@,
            body: body@,
        }),
        item@.text == item.text@,
        item@.enabled == item.enabled,
        effects_view(effects).len() == effects.len(),
        0 <= i < effects.len() ==> effects_view(effects)[i] == effects[i]@,
{
}

/// A started upload of a signed-in user is keyed with the key of the session as
/// it is, and asks for what the preferences say.
pub proof fn started_uploads_hold_the_key(app: &mut AppState, started: UploadStart)
    requires
        call_ensures(begin_upload, (app,), started),
        old(app).session is Some,
    ensures
        final(app)@ == old(app)@,
        started is Upload,
        started->Upload_0 is Keyed,
        started->Upload_0->key@ == old(app).session->0.api_key@,
        started->Upload_0->private == old(app)@.trial.private_uploads,
        started->Upload_0->sign_secs == old(app)@.trial.sign_expires_secs,
{
}

/// The request of a signed-in upload is made with the key of the session: it is
/// the bearer token, whatever the preferences are.
pub proof fn requests_bear_the_key_of_the_session(
    app: &mut AppState,
    ticket: UploadTicket,
    key: Option<&str>,
    options: KeyedOptions,
    api_base: &str,
    request: crate::upload::UploadRequest,
)
    requires
        call_ensures(begin_upload, (app,), UploadStart::Upload(ticket)),
        call_ensures(UploadTicket::api_key, (&ticket,), key),
        call_ensures(UploadTicket::options, (&ticket,), options),
        call_ensures(crate::upload::upload_request, (api_base, key, &options), request),
    ensures
        request.url@ == api_base@ + "/v1/images"@,
        old(app).session is Some ==> request.bearer is Some && request.bearer->0@
            == old(app).session->0.api_key@,
        old(app).session is None ==> request.bearer is None && request.fields@.len() == 0,
        options.private <==> old(app).session is Some && old(app)@.trial.private_uploads,
        old(app).session is Some ==> options.expires_in == Some((30 * 24 * 3600) as u64),
        options.private ==> options.sign_expires_in is Some && options.sign_expires_in->0
            == old(app)@.trial.sign_expires_secs,
        !options.private ==> options.sign_expires_in is None,
{
    assert(crate::upload::fields_view(request.fields@).len() == request.fields@.len());
}

/// Ending an upload with a URL gives the URL back and hands out one snapshot to
/// write, which holds the counter and the preferences of the state after it.
pub proof fn ended_uploads_hand_out_their_snapshot(
    app: &mut AppState,
    ticket: UploadTicket,
    url: String,
    end: UploadEnd,
) -> (at: int)
    requires
        call_ensures(finish_upload, (app, ticket, Ok::<String, UploadError>(url)), end),
    ensures
        end.result is Ok,
        end.result->Ok_0 is Some,
        end.result->Ok_0->0@ == url@,
        0 <= at < end.effects@.len(),
        end.effects@[at] is Persist,
        end.effects@[at]->Persist_0@ == final(app)@.trial.snapshot(),
        forall|i: int|
            0 <= i < end.effects@.len() && (#[trigger] end.effects@[i]) is Persist ==> i == at,
        final(app)@.trial.uploads == old(app)@.trial.uploads,
        final(app)@.session == old(app)@.session,
        final(app)@.watching == old(app)@.watching,
{
    let effects = effects_view(end.effects@);
    assert(effects == end@.effects);
    assert(effects.len() == end.effects@.len());
    assert(effects[0] == end.effects@[0]@);
    assert forall|i: int|
        0 <= i < end.effects@.len() && (#[trigger] end.effects@[i]) is Persist implies i == 0 by {
        assert(effects[i] == end.effects@[i]@);
    }
    crate::state::push_keeps_what_fits(old(app)@.trial, url@, ticket is Keyed && ticket->private);
    0
}

/// A sign-in takes the session over as it is, and the key of the next upload is
/// its key; nothing else of the app changes.
pub proof fn sign_ins_take_the_session_over(
    app: &mut AppState,
    session: Session,
    r: (String, Vec<Effect>),
    later: &AppState,
    key: Option<String>,
    status: AuthStatus,
)
    requires
        call_ensures(complete_sign_in, (app, session), r),
        later@ == final(app)@,
        call_ensures(current_key, (later,), key),
        call_ensures(auth_status, (later,), status),
    ensures
        key is Some,
        key->0@ == session.api_key@,
        status.signed_in,
        status.email is Some,
        status.email->0@ == session.email@,
        status.remaining == old(app)@.trial.remaining(),
        r.0@ == session.email@,
        r.1@.len() == 1,
        r.1@[0] is RefreshAccount,
        final(app)@.trial == old(app)@.trial,
        final(app)@.watching == old(app)@.watching,
{
    assert(effects_view(r.1@).len() == r.1@.len());
    assert(effects_view(r.1@)[0] == r.1@[0]@);
}

/// After a sign-out there is no key, no email and no signed link, and the tray's
/// list and account are brought up to date.
pub proof fn sign_outs_leave_no_key(
    app: &mut AppState,
    effects: Vec<Effect>,
    later: &AppState,
    signed_in: bool,
    key: Option<String>,
    status: AuthStatus,
)
    requires
        call_ensures(sign_out, (app,), effects),
        later@ == final(app)@,
        call_ensures(is_signed_in, (later,), signed_in),
        call_ensures(current_key, (later,), key),
        call_ensures(auth_status, (later,), status),
    ensures
        !signed_in,
        key is None,
        !status.signed_in,
        status.email is None,
        status.remaining == old(app)@.trial.remaining(),
        effects@.len() == 2,
        effects@[0] is RefreshRecent,
        effects@[1] is RefreshAccount,
        final(app)@.watching == old(app)@.watching,
        final(app)@.trial.recent == old(app)@.trial.recent.filter(
            |e: crate::state::RecentView| !e.private,
        ),
{
    assert(effects_view(effects@).len() == effects@.len());
    assert(effects_view(effects@)[0] == effects@[0]@);
    assert(effects_view(effects@)[1] == effects@[1]@);
    sign_outs_keep_what_is_public(old(app)@);
}

/// Settings that were set are the ones that are shown, saved and followed by the
/// next upload; a lifetime within the limits is taken as it is.
pub proof fn settings_are_kept_as_set(
    app: &mut AppState,
    private_uploads: bool,
    secs: u64,
    set: (Settings, Persisted),
    later: &AppState,
    shown: Settings,
)
    requires
        call_ensures(set_settings, (app, private_uploads, secs), set),
        later@ == final(app)@,
        call_ensures(get_settings, (later,), shown),
    ensures
        shown.private_uploads == private_uploads,
        set.0.private_uploads == private_uploads,
        set.0.sign_expires_secs == shown.sign_expires_secs,
        60 <= secs <= 30 * 24 * 3600 ==> shown.sign_expires_secs == secs,
        60 <= shown.sign_expires_secs <= 30 * 24 * 3600,
        set.1@.private_uploads == private_uploads,
        set.1@.sign_expires_secs == shown.sign_expires_secs,
        set.1@.uploads == old(app)@.trial.uploads,
        final(app)@.trial.uploads == old(app)@.trial.uploads,
        final(app)@.trial.recent == old(app)@.trial.recent,
        final(app)@.session == old(app)@.session,
        final(app)@.watching == old(app)@.watching,
{
}

/// The app starts with what was stored, watching; where there is no file or no
/// session it starts without.
pub proof fn apps_start_with_what_was_stored(
    file: Option<Persisted>,
    loaded: Result<Option<Session>, String>,
    app: AppState,
)
    requires
        call_ensures(AppState::start, (file, loaded), app),
    ensures
        app.watching,
        app@.trial.uploads == if file is Some {
            file->0@.uploads
        } else {
            0
        },
        file is Some ==> app@.trial.private_uploads == file->0@.private_uploads,
        file is None ==> !app@.trial.private_uploads && app@.trial.recent.len() == 0,
        app.session is Some <==> loaded is Ok && loaded->Ok_0 is Some,
        app.session is Some ==> app.session->0.api_key@ == loaded->Ok_0->0.api_key@
            && app.session->0.email@ == loaded->Ok_0->0.email@,
{
}

/// A click on a recent item that shows an upload copies the URL of that upload;
/// one on an empty item copies nothing.
pub proof fn clicks_copy_what_is_shown(
    app: &AppState,
    count: usize,
    slots: Vec<RecentSlot>,
    i: usize,
    url: Option<String>,
)
    requires
        call_ensures(refresh_recent, (app, count), slots),
        call_ensures(recent_url, (app, i), url),
        i < count,
    ensures
        slots@.len() == count,
        slots@[i as int].enabled <==> url is Some,
        url is Some <==> i < app@.trial.recent.len(),
        url is Some ==> url->0@ == app@.trial.recent[i as int].url,
        url is Some ==> slots@[i as int].text@ == label(
            url->0@,
            app@.trial.recent[i as int].private,
        ),
{
    assert(slots@[i as int]@ == slot(app@.trial.recent, i as int));
}

/// While an upload is in flight there is a mark next to the tray icon, and
/// otherwise none; toggling shows what the toggle does next.
pub proof fn the_tray_shows_what_goes_on(
    busy: Option<String>,
    idle: Option<String>,
    app: &mut AppState,
    text: String,
)
    requires
        call_ensures(busy_title, (true,), busy),
        call_ensures(busy_title, (false,), idle),
        call_ensures(toggle_watching, (app,), text),
    ensures
        busy is Some,
        busy->0@ == "⋯"@,
        idle is None,
        final(app)@.watching != old(app)@.watching,
        final(app)@.trial == old(app)@.trial,
        final(app)@.session == old(app)@.session,
        text@ == if final(app)@.watching {
            "Pause watching"@
        } else {
            "Resume watching"@
        },
{
}

} // verus!
