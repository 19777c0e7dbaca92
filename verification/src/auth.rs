//! Sign-in by an emailed code, and the keychain entries of a session.
//!
//! `device_start_request` asks for a 6-digit code by email; the reply to
//! `device_complete_request` exchanges it for an app-scoped API key, which is
//! kept in the OS keychain.

use vstd::prelude::*;

use crate::text::trim;
use crate::upload::{status_is_success, FormField};

verus! {

/// The keychain service that the entries belong to.
pub const KEYRING_SERVICE: &'static str = "dev.pixelvault.desktop";

/// The keychain entry of the API key.
pub const API_KEY_ENTRY: &'static str = "api_key";

/// The keychain entry of the signed-in email.
pub const EMAIL_ENTRY: &'static str = "email";

/// A signed-in session.
pub struct Session {
    pub api_key: String,
    pub email: String,
}

/// What a `Session` stands for.
#[verifier::ext_equal]
pub struct SessionView {
    pub api_key: Seq<char>,
    pub email: Seq<char>,
}

impl View for Session {
    type V = SessionView;

    open spec fn view(&self) -> SessionView {
        SessionView { api_key: self.api_key@, email: self.email@ }
    }
}

/// What reading a keychain entry gave.
pub enum KeychainRead {
    Found(String),
    Missing,
    /// The keychain could not be accessed.
    Failed(String),
}

/// What a `KeychainRead` stands for.
#[verifier::ext_equal]
pub enum ReadView {
    Found(Seq<char>),
    Missing,
    Failed(Seq<char>),
}

impl View for KeychainRead {
    type V = ReadView;

    open spec fn view(&self) -> ReadView {
        match self {
            KeychainRead::Found(t) => ReadView::Found(t@),
            KeychainRead::Missing => ReadView::Missing,
            KeychainRead::Failed(m) => ReadView::Failed(m@),
        }
    }
}

impl ReadView {
    /// The text in the entry, if it could be read.
    pub open spec fn text(self) -> Option<Seq<char>> {
        match self {
            ReadView::Found(t) => Some(t),
            _ => None,
        }
    }
}

/// The view of an optional text.
pub open spec fn opt_text(t: Option<String>) -> Option<Seq<char>> {
    match t {
        Some(t) => Some(t@),
        None => None,
    }
}

/// The stored API key, if signed in, from what reading `API_KEY_ENTRY` gave.
pub fn stored_key(read: KeychainRead) -> (r: Option<String>)
    ensures
        opt_text(r) == read@.text(),
{
    match read {
        KeychainRead::Found(key) => Some(key),
        _ => None,
    }
}

/// The signed-in email, if any, from what reading `EMAIL_ENTRY` gave.
pub fn stored_email(read: KeychainRead) -> (r: Option<String>)
    ensures
        opt_text(r) == read@.text(),
{
    match read {
        KeychainRead::Found(email) => Some(email),
        _ => None,
    }
}

/// What a stored session comes to: `Err` where the keychain could not be
/// accessed, no session unless both entries are there.
pub open spec fn session_outcome(key: ReadView, email: ReadView) -> Result<
    Option<SessionView>,
    Seq<char>,
> {
    match (key, email) {
        (ReadView::Failed(m), _) => Err(m),
        (ReadView::Missing, _) => Ok(None),
        (ReadView::Found(_), ReadView::Failed(m)) => Err(m),
        (ReadView::Found(_), ReadView::Missing) => Ok(None),
        (ReadView::Found(k), ReadView::Found(e)) => Ok(Some(SessionView { api_key: k, email: e })),
    }
}

/// The view of an optional session.
pub open spec fn opt_session(s: Option<Session>) -> Option<SessionView> {
    match s {
        Some(s) => Some(s@),
        None => None,
    }
}

/// The view of what loading a session gave.
pub open spec fn loaded_session(r: Result<Option<Session>, String>) -> Result<
    Option<SessionView>,
    Seq<char>,
> {
    match r {
        Ok(s) => Ok(opt_session(s)),
        Err(m) => Err(m@),
    }
}

/// Puts the stored session together from what reading its two entries gave.
pub fn load_session(key: KeychainRead, email: KeychainRead) -> (r: Result<Option<Session>, String>)
    ensures
        loaded_session(r) == session_outcome(key@, email@),
{
    let api_key = match key {
        KeychainRead::Failed(m) => {
            return Err(m);
        },
        other => stored_key(other),
    };
    let api_key = match api_key {
        Some(k) => k,
        None => {
            return Ok(None);
        },
    };
    match email {
        KeychainRead::Failed(m) => Err(m),
        other => match stored_email(other) {
            Some(email) => Ok(Some(Session { api_key, email })),
            None => Ok(None),
        },
    }
}

/// A change to a keychain entry.
pub enum KeychainOp {
    Write { entry: String, secret: String },
    Delete { entry: String },
}

/// What a `KeychainOp` stands for.
#[verifier::ext_equal]
pub enum OpView {
    Write { entry: Seq<char>, secret: Seq<char> },
    Delete { entry: Seq<char> },
}

impl View for KeychainOp {
    type V = OpView;

    open spec fn view(&self) -> OpView {
        match self {
            KeychainOp::Write { entry, secret } => OpView::Write {
                entry: entry@,
                secret: secret@,
            },
            KeychainOp::Delete { entry } => OpView::Delete { entry: entry@ },
        }
    }
}

/// Keychain changes to perform one after the other.
pub struct KeychainJob {
    pub ops: Vec<KeychainOp>,
    /// Whether a change that fails ends the job with its error. Otherwise the
    /// job goes on.
    pub stop_on_failure: bool,
}

/// What a `KeychainJob` stands for.
#[verifier::ext_equal]
pub struct JobView {
    pub ops: Seq<OpView>,
    pub stop_on_failure: bool,
}

impl View for KeychainJob {
    type V = JobView;

    open spec fn view(&self) -> JobView {
        JobView {
            ops: self.ops@.map_values(|op: KeychainOp| op@),
            stop_on_failure: self.stop_on_failure,
        }
    }
}

/// What to do after a keychain change: perform the change at this place, or
/// stop with a result.
pub enum JobStep {
    Perform(usize),
    Done(Result<(), String>),
}

/// What a `JobStep` stands for.
#[verifier::ext_equal]
pub enum StepView {
    Perform(int),
    /// The failure that ended the job, if one did.
    Done(Option<Seq<char>>),
}

impl View for JobStep {
    type V = StepView;

    open spec fn view(&self) -> StepView {
        match self {
            JobStep::Perform(i) => StepView::Perform(*i as int),
            JobStep::Done(Ok(())) => StepView::Done(None),
            JobStep::Done(Err(m)) => StepView::Done(Some(m@)),
        }
    }
}

/// The text of a failure, if there was one.
pub open spec fn failure(r: Result<(), String>) -> Option<Seq<char>> {
    match r {
        Ok(()) => None,
        Err(m) => Some(m@),
    }
}

impl JobView {
    /// The step after the change at `i`, which failed or not.
    pub open spec fn next(self, i: int, failed: Option<Seq<char>>) -> StepView {
        if failed is Some && self.stop_on_failure {
            StepView::Done(failed)
        } else if i + 1 < self.ops.len() {
            StepView::Perform(i + 1)
        } else {
            StepView::Done(None)
        }
    }

    /// How the job ends from the change at `i` on, where the change at each
    /// place fails as `failures` says.
    pub open spec fn result_from(self, i: int, failures: Seq<Option<Seq<char>>>) -> Option<
        Seq<char>,
    >
        decreases self.ops.len() - i,
    {
        match self.next(i, failures[i]) {
            StepView::Done(failed) => failed,
            StepView::Perform(j) => if i < j <= self.ops.len() {
                self.result_from(j, failures)
            } else {
                None
            },
        }
    }

    /// Whether the job performs the change at `j`, from that at `i` on.
    pub open spec fn performs(self, i: int, j: int, failures: Seq<Option<Seq<char>>>) -> bool
        decreases self.ops.len() - i,
    {
        i == j || match self.next(i, failures[i]) {
            StepView::Done(_) => false,
            StepView::Perform(k) => i < k <= self.ops.len() && self.performs(k, j, failures),
        }
    }

    /// The changes that store a session.
    pub open spec fn storing(api_key: Seq<char>, email: Seq<char>) -> JobView {
        JobView {
            ops: seq![
                OpView::Write { entry: API_KEY_ENTRY@, secret: api_key },
                OpView::Write { entry: EMAIL_ENTRY@, secret: email },
            ],
            stop_on_failure: true,
        }
    }

    /// The changes that remove a session.
    pub open spec fn signing_out() -> JobView {
        JobView {
            ops: seq![
                OpView::Delete { entry: API_KEY_ENTRY@ },
                OpView::Delete { entry: EMAIL_ENTRY@ },
            ],
            stop_on_failure: false,
        }
    }
}

impl KeychainJob {
    /// Tells the next step, after the change at `i` came out as `outcome`. A job
    /// begins with the change at place 0.
    pub fn next(&self, i: usize, outcome: Result<(), String>) -> (r: JobStep)
        requires
            i < self.ops@.len(),
        ensures
            r@ == self@.next(i as int, failure(outcome)),
    {
        match outcome {
            Err(m) if self.stop_on_failure => JobStep::Done(Err(m)),
            _ => if i < self.ops.len() - 1 {
                JobStep::Perform(i + 1)
            } else {
                JobStep::Done(Ok(()))
            },
        }
    }
}

/// The keychain changes that store a session: the key, and if that could be
/// written the email.
pub fn store(api_key: &str, email: &str) -> (r: KeychainJob)
    ensures
        r@ == JobView::storing(api_key@, email@),
{
    let mut ops: Vec<KeychainOp> = Vec::new();
    ops.push(KeychainOp::Write { entry: API_KEY_ENTRY.to_owned(), secret: api_key.to_owned() });
    ops.push(KeychainOp::Write { entry: EMAIL_ENTRY.to_owned(), secret: email.to_owned() });
    let r = KeychainJob { ops, stop_on_failure: true };
    assert(r@.ops =~= JobView::storing(api_key@, email@).ops);
    r
}

/// The keychain changes that remove a session. An entry that cannot be deleted
/// stops nothing.
pub fn sign_out() -> (r: KeychainJob)
    ensures
        r@ == JobView::signing_out(),
{
    let mut ops: Vec<KeychainOp> = Vec::new();
    ops.push(KeychainOp::Delete { entry: API_KEY_ENTRY.to_owned() });
    ops.push(KeychainOp::Delete { entry: EMAIL_ENTRY.to_owned() });
    let r = KeychainJob { ops, stop_on_failure: false };
    assert(r@.ops =~= JobView::signing_out().ops);
    r
}

/// A request to the sign-in API: where to post it, and the fields of the JSON
/// object to post.
pub struct ApiRequest {
    pub url: String,
    pub fields: Vec<FormField>,
}

/// What an `ApiRequest` stands for.
#[verifier::ext_equal]
pub struct ApiRequestView {
    pub url: Seq<char>,
    pub fields: Seq<crate::upload::FieldView>,
}

impl View for ApiRequest {
    type V = ApiRequestView;

    open spec fn view(&self) -> ApiRequestView {
        ApiRequestView { url: self.url@, fields: crate::upload::fields_view(self.fields@) }
    }
}

impl ApiRequestView {
    /// The request for a sign-in code.
    pub open spec fn device_start(api_base: Seq<char>, email: Seq<char>) -> ApiRequestView {
        ApiRequestView {
            url: api_base + "/v1/auth/device/start"@,
            fields: seq![crate::upload::FieldView { name: "email"@, value: email }],
        }
    }

    /// The request that exchanges a code for a key.
    pub open spec fn device_complete(
        api_base: Seq<char>,
        email: Seq<char>,
        code: Seq<char>,
    ) -> ApiRequestView {
        ApiRequestView {
            url: api_base + "/v1/auth/device/complete"@,
            fields: seq![
                crate::upload::FieldView { name: "email"@, value: email },
                crate::upload::FieldView { name: "code"@, value: code },
            ],
        }
    }
}

/// The request for a sign-in code for `email`.
pub fn device_start_request(api_base: &str, email: &str) -> (r: ApiRequest)
    ensures
        r@ == ApiRequestView::device_start(api_base@, email@),
{
    let mut fields: Vec<FormField> = Vec::new();
    fields.push(FormField { name: "email".to_owned(), value: email.to_owned() });
    let r = ApiRequest { url: api_base.to_owned().concat("/v1/auth/device/start"), fields };
    assert(r@.fields =~= ApiRequestView::device_start(api_base@, email@).fields);
    r
}

/// The request that exchanges `code` for an API key.
pub fn device_complete_request(api_base: &str, email: &str, code: &str) -> (r: ApiRequest)
    ensures
        r@ == ApiRequestView::device_complete(api_base@, email@, code@),
{
    let mut fields: Vec<FormField> = Vec::new();
    fields.push(FormField { name: "email".to_owned(), value: email.to_owned() });
    fields.push(FormField { name: "code".to_owned(), value: code.to_owned() });
    let r = ApiRequest { url: api_base.to_owned().concat("/v1/auth/device/complete"), fields };
    assert(r@.fields =~= ApiRequestView::device_complete(api_base@, email@, code@).fields);
    r
}

/// The request for a sign-in code, for the email as the user typed it.
pub fn sign_in_start(api_base: &str, email: &str) -> (r: ApiRequest)
    ensures
        r@ == ApiRequestView::device_start(api_base@, crate::text::trimmed(email@)),
{
    device_start_request(api_base, trim(email))
}

/// The request that completes a sign-in, for the email and the code as the user
/// typed them.
pub fn sign_in_complete(api_base: &str, email: &str, code: &str) -> (r: ApiRequest)
    ensures
        r@ == ApiRequestView::device_complete(
            api_base@,
            crate::text::trimmed(email@),
            crate::text::trimmed(code@),
        ),
{
    device_complete_request(api_base, trim(email), trim(code))
}

/// The reason that `reqwest::StatusCode` shows behind the number of a status.
pub uninterp spec fn reason_phrase(status: u16) -> Seq<char>;

/// Shows a status by `reqwest::StatusCode`'s `Display`. Trusted: the text is the
/// number, a space and the reason for it, which depends on the number alone.
/// Only numbers from 100 to 999 are statuses.
#[verifier::external_body]
fn status_text(status: u16) -> (r: String)
    requires
        100 <= status <= 999,
    ensures
        r@ == crate::text::decimal(status as nat) + " "@ + reason_phrase(status),
{
    reqwest::StatusCode::from_u16(status).unwrap().to_string()
}

/// The message for a refused request whose reply explains nothing.
pub fn request_failed(status_text: &str) -> (r: String)
    ensures
        r@ == "Request failed ("@ + status_text@ + ")"@,
{
    "Request failed (".to_owned().concat(status_text).concat(")")
}

/// The message for a request that was refused with `status`.
pub open spec fn refusal(explained: Option<Seq<char>>, status: u16) -> Seq<char> {
    match explained {
        Some(m) => m,
        None => "Request failed ("@ + (crate::text::decimal(status as nat) + " "@ + reason_phrase(
            status,
        )) + ")"@,
    }
}

/// The API's own error message, where the reply held one, or else the status.
pub fn error_message(explained: Option<String>, status: u16) -> (r: String)
    requires
        100 <= status <= 999,
    ensures
        r@ == refusal(opt_text(explained), status),
{
    match explained {
        Some(m) => m,
        None => request_failed(status_text(status).as_str()),
    }
}

/// Tells from its status whether a sign-in request succeeded. `explained` is the
/// error message in the body of a reply that did not.
pub fn check_device_status(status: u16, explained: Option<String>) -> (r: Result<(), String>)
    requires
        100 <= status <= 999,
    ensures
        r is Ok <==> crate::upload::is_success(status as int),
        r matches Err(m) ==> m@ == refusal(opt_text(explained), status),
{
    if status_is_success(status) {
        Ok(())
    } else {
        Err(error_message(explained, status))
    }
}

/// The session out of the body of a successful reply. `received` is the session
/// that the body holds, or the text of the error that reading it gave.
pub fn device_complete(received: Result<Session, String>) -> (r: Result<Session, String>)
    ensures
        match received {
            Ok(s) => r matches Ok(t) && t@ == s@,
            Err(m) => r matches Err(n) && n@ == "bad response: "@ + m@,
        },
{
    match received {
        Ok(s) => Ok(s),
        Err(m) => Err("bad response: ".to_owned().concat(m.as_str())),
    }
}

/// Signing out always succeeds and tries to delete both entries, whichever of
/// them cannot be deleted.
pub proof fn sign_out_tries_both_and_succeeds(failures: Seq<Option<Seq<char>>>)
    ensures
        JobView::signing_out().performs(0, 0, failures),
        JobView::signing_out().performs(0, 1, failures),
        JobView::signing_out().result_from(0, failures) is None,
{
    reveal_with_fuel(JobView::performs, 3);
    reveal_with_fuel(JobView::result_from, 3);
}

/// A session is stored exactly when both entries were written; the email is
/// written only after the key was, and the first failure is the one reported.
pub proof fn store_stops_at_the_first_failure(
    api_key: Seq<char>,
    email: Seq<char>,
    failures: Seq<Option<Seq<char>>>,
)
    ensures
        ({
            let job = JobView::storing(api_key, email);
            &&& job.performs(0, 0, failures)
            &&& job.performs(0, 1, failures) <==> failures[0] is None
            &&& job.result_from(0, failures) == if failures[0] is Some {
                failures[0]
            } else {
                failures[1]
            }
        }),
{
    reveal_with_fuel(JobView::performs, 3);
    reveal_with_fuel(JobView::result_from, 3);
}

/// What a keychain holds after a change to it.
pub open spec fn keychain_after(chain: Map<Seq<char>, Seq<char>>, op: OpView) -> Map<
    Seq<char>,
    Seq<char>,
> {
    match op {
        OpView::Write { entry, secret } => chain.insert(entry, secret),
        OpView::Delete { entry } => chain.remove(entry),
    }
}

/// What a keychain holds after all changes of a job.
pub open spec fn keychain_after_all(
    chain: Map<Seq<char>, Seq<char>>,
    ops: Seq<OpView>,
) -> Map<Seq<char>, Seq<char>>
    decreases ops.len(),
{
    if ops.len() == 0 {
        chain
    } else {
        keychain_after(keychain_after_all(chain, ops.drop_last()), ops.last())
    }
}

/// What reading an entry of a keychain gives, where the keychain can be
/// accessed.
pub open spec fn read_from(chain: Map<Seq<char>, Seq<char>>, entry: Seq<char>) -> ReadView {
    if chain.contains_key(entry) {
        ReadView::Found(chain[entry])
    } else {
        ReadView::Missing
    }
}

/// The session that is stored in a keychain.
pub open spec fn session_in(chain: Map<Seq<char>, Seq<char>>) -> Result<
    Option<SessionView>,
    Seq<char>,
> {
    session_outcome(read_from(chain, API_KEY_ENTRY@), read_from(chain, EMAIL_ENTRY@))
}

/// A session that was stored is the one that is loaded, whatever the keychain
/// held before; after a sign-out none is.
pub proof fn stored_session_is_loaded_back(
    chain: Map<Seq<char>, Seq<char>>,
    api_key: Seq<char>,
    email: Seq<char>,
)
    ensures
        session_in(keychain_after_all(chain, JobView::storing(api_key, email).ops)) == Ok::<
            Option<SessionView>,
            Seq<char>,
        >(Some(SessionView { api_key, email })),
        session_in(keychain_after_all(chain, JobView::signing_out().ops)) == Ok::<
            Option<SessionView>,
            Seq<char>,
        >(None),
{
    reveal_strlit("api_key");
    reveal_strlit("email");
    assert(API_KEY_ENTRY@ != EMAIL_ENTRY@) by {
        assert(API_KEY_ENTRY@.len() == 7);
        assert(EMAIL_ENTRY@.len() == 5);
    }
    reveal_with_fuel(keychain_after_all, 3);
    let put = JobView::storing(api_key, email).ops;
    assert(put.drop_last().last() == OpView::Write { entry: API_KEY_ENTRY@, secret: api_key });
    let del = JobView::signing_out().ops;
    assert(del.drop_last().last() == OpView::Delete { entry: API_KEY_ENTRY@ });
}

/// The request that completes a sign-in goes to the completing address of the
/// API and has two fields, `email` and `code`, with the given email and the given
/// code in them, character for character.
pub proof fn completing_requests_hold_email_and_code(
    api_base: Seq<char>,
    email: Seq<char>,
    code: Seq<char>,
)
    ensures
        ({
            let request = ApiRequestView::device_complete(api_base, email, code);
            &&& request.fields.len() == 2
            &&& request.fields[0].name == "email"@
            &&& request.fields[0].value == email
            &&& request.fields[1].name == "code"@
            &&& request.fields[1].value == code
            &&& request.url.take(api_base.len() as int) == api_base
            &&& request.url.skip(api_base.len() as int) == "/v1/auth/device/complete"@
        }),
{
    let url = api_base + "/v1/auth/device/complete"@;
    assert(url.take(api_base.len() as int) =~= api_base);
    assert(url.skip(api_base.len() as int) =~= "/v1/auth/device/complete"@);
}

/// The request for a code goes to the starting address of the API and has one
/// field, `email`, with the given email in it, character for character.
pub proof fn starting_requests_hold_the_email(api_base: Seq<char>, email: Seq<char>)
    ensures
        ({
            let request = ApiRequestView::device_start(api_base, email);
            &&& request.fields.len() == 1
            &&& request.fields[0].name == "email"@
            &&& request.fields[0].value == email
            &&& request.url.take(api_base.len() as int) == api_base
            &&& request.url.skip(api_base.len() as int) == "/v1/auth/device/start"@
        }),
{
    let url = api_base + "/v1/auth/device/start"@;
    assert(url.take(api_base.len() as int) =~= api_base);
    assert(url.skip(api_base.len() as int) =~= "/v1/auth/device/start"@);
}

/// A session is loaded exactly when both entries were read, and it holds what was
/// read; loading fails exactly when an entry that is needed could not be read,
/// with the reason for it.
pub proof fn sessions_hold_what_was_read(
    key: ReadView,
    email: ReadView,
    s: SessionView,
    reason: Seq<char>,
)
    ensures
        session_outcome(key, email) == Ok::<Option<SessionView>, Seq<char>>(Some(s)) <==> key
            == ReadView::Found(s.api_key) && email == ReadView::Found(s.email),
        session_outcome(key, email) == Err::<Option<SessionView>, Seq<char>>(reason) <==> key
            == ReadView::Failed(reason) || (key is Found && email == ReadView::Failed(reason)),
        session_outcome(key, email) == Ok::<Option<SessionView>, Seq<char>>(None) <==> key
            is Missing || (key is Found && email is Missing),
{
}

/// An entry that was read gives its text; any other gives none.
pub proof fn entries_give_their_text(read: ReadView, text: Seq<char>)
    ensures
        read.text() == Some(text) <==> read == ReadView::Found(text),
        read.text() is None <==> read !is Found,
{
}

/// After each change a job goes on with the next one, and is done after the last;
/// it ends early exactly when it is to stop at a failure and there is one, which
/// it reports.
pub proof fn jobs_go_on_until_done(
    job: JobView,
    i: int,
    failed: Option<Seq<char>>,
    j: int,
    reason: Seq<char>,
)
    requires
        0 <= i < job.ops.len(),
    ensures
        job.next(i, failed) == StepView::Perform(j) <==> j == i + 1 && j < job.ops.len() && !(
        job.stop_on_failure && failed is Some),
        job.next(i, failed) == StepView::Done(Some(reason)) <==> job.stop_on_failure && failed
            == Some(reason),
        job.next(i, failed) == StepView::Done(None) <==> i + 1 == job.ops.len() && !(
        job.stop_on_failure && failed is Some),
{
}

/// Storing writes the key and then the email, as they are, and touches no other
/// entry; signing out deletes the two and touches no other entry.
pub proof fn jobs_touch_the_session_entries_only(
    chain: Map<Seq<char>, Seq<char>>,
    api_key: Seq<char>,
    email: Seq<char>,
    entry: Seq<char>,
)
    requires
        entry != "api_key"@,
        entry != "email"@,
    ensures
        JobView::storing(api_key, email).ops.len() == 2,
        JobView::storing(api_key, email).ops[0] == (OpView::Write {
            entry: "api_key"@,
            secret: api_key,
        }),
        JobView::storing(api_key, email).ops[1] == (OpView::Write {
            entry: "email"@,
            secret: email,
        }),
        JobView::storing(api_key, email).stop_on_failure,
        JobView::signing_out().ops.len() == 2,
        JobView::signing_out().ops[0] == (OpView::Delete { entry: "api_key"@ }),
        JobView::signing_out().ops[1] == (OpView::Delete { entry: "email"@ }),
        !JobView::signing_out().stop_on_failure,
        read_from(
            keychain_after_all(chain, JobView::storing(api_key, email).ops),
            entry,
        ) == read_from(chain, entry),
        read_from(keychain_after_all(chain, JobView::signing_out().ops), entry) == read_from(
            chain,
            entry,
        ),
        KEYRING_SERVICE@ == "dev.pixelvault.desktop"@,
{
    reveal_with_fuel(keychain_after_all, 3);
    let put = JobView::storing(api_key, email).ops;
    assert(put.drop_last().last() == put[0]);
    let del = JobView::signing_out().ops;
    assert(del.drop_last().last() == del[0]);
}

/// A refused request is reported in the words of the reply, whatever they are;
/// without any, by its status: the number and the reason for it.
pub proof fn refusals_are_reported(words: Seq<char>, status: u16)
    ensures
        refusal(Some(words), status) == words,
        ({
            let said = refusal(None, status);
            let head = "Request failed ("@;
            let number = crate::text::decimal(status as nat);
            &&& said.take(head.len() as int) == head
            &&& said.skip(head.len() as int).take(number.len() as int) == number
            &&& said.skip((head.len() + number.len()) as int) == " "@ + reason_phrase(status) + ")"@
        }),
{
    let said = refusal(None, status);
    let head = "Request failed ("@;
    let number = crate::text::decimal(status as nat);
    assert(said.take(head.len() as int) =~= head);
    assert(said.skip(head.len() as int).take(number.len() as int) =~= number);
    assert(said.skip((head.len() + number.len()) as int) =~= " "@ + reason_phrase(status) + ")"@);
}

/// The views of sessions, entries, jobs and requests keep every text.
pub proof fn auth_views_keep_their_contents(
    session: Session,
    text: String,
    secret: String,
    job: KeychainJob,
    request: ApiRequest,
    at: usize,
    i: int,
)
    ensures
        session@.api_key == session.api_key@,
        session@.email == session.email@,
        opt_session(Some(session)) == Some(session@),
        opt_session(None) is None,
        loaded_session(Ok(Some(session))) == Ok::<Option<SessionView>, Seq<char>>(Some(session@)),
        loaded_session(Ok(None)) == Ok::<Option<SessionView>, Seq<char>>(None),
        loaded_session(Err(text)) == Err::<Option<SessionView>, Seq<char>>(text@),
        opt_text(Some(text)) == Some(text@),
        opt_text(None) is None,
        KeychainRead::Found(text)@ == ReadView::Found(text@),
        KeychainRead::Failed(text)@ == ReadView::Failed(text@),
        KeychainRead::Missing@ == ReadView::Missing,
        (KeychainOp::Write { entry: text, secret })@ == (OpView::Write {
            entry: text@,
            secret: secret@,
        }),
        (KeychainOp::Delete { entry: text })@ == (OpView::Delete { entry: text@ }),
        failure(Err(text)) == Some(text@),
        failure(Ok(())) is None,
        JobStep::Done(Err(text))@ == StepView::Done(Some(text@)),
        JobStep::Done(Ok(()))@ == StepView::Done(None),
        (JobStep::Perform(at))@ == StepView::Perform(at as int),
        job@.stop_on_failure == job.stop_on_failure,
        job@.ops.len() == job.ops@.len(),
        0 <= i < job.ops@.len() ==> job@.ops[i] == job.ops@[i]@,
        request@.url == request.url@,
        request@.fields == crate::upload::fields_view(request.fields@),
{
}

/// A sign-in is asked for with the email and the code that the user typed,
/// without the white space around them, at the address of the given API.
pub proof fn typed_texts_are_sent_trimmed(
    api_base: &str,
    email: &str,
    code: &str,
    started: ApiRequest,
    completed: ApiRequest,
)
    requires
        call_ensures(sign_in_start, (api_base, email), started),
        call_ensures(sign_in_complete, (api_base, email, code), completed),
    ensures
        started.url@ == api_base@ + "/v1/auth/device/start"@,
        started.fields@.len() == 1,
        started.fields@[0].name@ == "email"@,
        started.fields@[0].value@ == crate::text::trimmed(email@),
        completed.url@ == api_base@ + "/v1/auth/device/complete"@,
        completed.fields@.len() == 2,
        completed.fields@[0].name@ == "email"@,
        completed.fields@[0].value@ == crate::text::trimmed(email@),
        completed.fields@[1].name@ == "code"@,
        completed.fields@[1].value@ == crate::text::trimmed(code@),
{
    assert(started@.fields.len() == started.fields@.len());
    assert(completed@.fields.len() == completed.fields@.len());
    assert(started@.fields[0] == started.fields@[0]@);
    assert(completed@.fields[0] == completed.fields@[0]@);
    assert(completed@.fields[1] == completed.fields@[1]@);
}

/// A reply with a status from 200 to 299 is a success and any other is not; a
/// refusal is reported in the words of the reply, if it has any.
pub proof fn replies_are_judged_by_their_status(
    status: u16,
    explained: Option<String>,
    r: Result<(), String>,
)
    requires
        call_ensures(check_device_status, (status, explained), r),
    ensures
        r is Ok <==> 200 <= status <= 299,
        r is Err && explained is Some ==> r->Err_0@ == explained->0@,
{
}

/// What `store` writes, `load_session` puts together again: each entry that is
/// read back as it was written gives its part of the session.
pub proof fn sessions_are_loaded_as_stored(
    api_key: &str,
    email: &str,
    job: KeychainJob,
    key_read: KeychainRead,
    email_read: KeychainRead,
    loaded: Result<Option<Session>, String>,
)
    requires
        call_ensures(store, (api_key, email), job),
        call_ensures(load_session, (key_read, email_read), loaded),
        job.ops@[0] is Write,
        job.ops@[1] is Write,
        key_read@ == ReadView::Found(job.ops@[0]->secret@),
        email_read@ == ReadView::Found(job.ops@[1]->secret@),
    ensures
        loaded is Ok,
        loaded->Ok_0 is Some,
        loaded->Ok_0->0.api_key@ == api_key@,
        loaded->Ok_0->0.email@ == email@,
{
    assert(job@.ops.len() == job.ops@.len());
    assert(job@.ops[0] == job.ops@[0]@);
    assert(job@.ops[1] == job.ops@[1]@);
}

/// The session in a reply is handed on as it is; a reply that cannot be read is
/// reported with the reason.
pub proof fn received_sessions_are_handed_on(
    received: Result<Session, String>,
    r: Result<Session, String>,
)
    requires
        call_ensures(device_complete, (received,), r),
    ensures
        r is Ok <==> received is Ok,
        r is Ok ==> r->Ok_0.api_key@ == received->Ok_0.api_key@ && r->Ok_0.email@
            == received->Ok_0.email@,
        r is Err ==> r->Err_0@ == "bad response: "@ + received->Err_0@,
{
}

} // verus!
