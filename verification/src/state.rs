//! The trial upload counter, the recent uploads and the upload preferences.
//!
//! What survives a restart is a `Persisted` snapshot. Each change that has to
//! survive hands the snapshot to write back to the caller.

use vstd::prelude::*;

use crate::text::same_text;

verus! {

/// The file, in the app's configuration directory, that holds the snapshot.
pub const STATE_FILE: &'static str = "state.json";

/// Number of anonymous uploads before the user has to sign in.
pub const FREE_UPLOAD_LIMIT: u32 = 5;

/// How many recent uploads to remember (and show in the tray).
pub const RECENT_LIMIT: usize = 5;

/// Default signed-URL lifetime for private uploads: 7 days.
pub const DEFAULT_SIGN_EXPIRES_SECS: u64 = 7 * 24 * 60 * 60;

/// The shortest signed-URL lifetime that the API accepts.
pub const MIN_SIGN_EXPIRES_SECS: u64 = 60;

/// The longest signed-URL lifetime that the API accepts: 30 days.
pub const MAX_SIGN_EXPIRES_SECS: u64 = 30 * 24 * 60 * 60;

/// The signed-URL lifetime of a snapshot that names none.
pub fn default_sign_expires_secs() -> (r: u64)
    ensures
        r == DEFAULT_SIGN_EXPIRES_SECS,
{
    DEFAULT_SIGN_EXPIRES_SECS
}

/// The lifetime in the accepted range that is nearest to `secs`.
pub open spec fn clamped(secs: int) -> int {
    if secs < MIN_SIGN_EXPIRES_SECS {
        MIN_SIGN_EXPIRES_SECS as int
    } else if secs > MAX_SIGN_EXPIRES_SECS {
        MAX_SIGN_EXPIRES_SECS as int
    } else {
        secs
    }
}

/// Clamps a signed-URL lifetime to the range the API accepts, so a stale or
/// hand-edited value never leads to a request that the server rejects.
pub fn clamp_sign_expires(secs: u64) -> (r: u64)
    ensures
        r == clamped(secs as int),
{
    if secs < MIN_SIGN_EXPIRES_SECS {
        MIN_SIGN_EXPIRES_SECS
    } else if secs > MAX_SIGN_EXPIRES_SECS {
        MAX_SIGN_EXPIRES_SECS
    } else {
        secs
    }
}

/// One remembered upload.
pub struct RecentEntry {
    /// The URL that was put on the clipboard.
    pub url: String,
    /// Whether `url` is a signed link, which opens a private image by itself.
    pub private: bool,
}

/// What a `RecentEntry` stands for.
#[verifier::ext_equal]
pub struct RecentView {
    pub url: Seq<char>,
    pub private: bool,
}

impl View for RecentEntry {
    type V = RecentView;

    open spec fn view(&self) -> RecentView {
        RecentView { url: self.url@, private: self.private }
    }
}

/// The views of a list of entries.
pub open spec fn entries_view(entries: Seq<RecentEntry>) -> Seq<RecentView> {
    entries.map_values(|e: RecentEntry| e@)
}

/// The views of a list of texts.
pub open spec fn texts_view(texts: Seq<String>) -> Seq<Seq<char>> {
    texts.map_values(|t: String| t@)
}

/// The state that is kept on disk. Signed links are not part of it.
pub struct Persisted {
    pub uploads: u32,
    /// Public upload URLs, most recent first.
    pub recent: Vec<String>,
    /// Upload signed-in images privately (signed URLs). Off by default.
    pub private_uploads: bool,
    /// Signed-URL lifetime, in seconds, for private uploads.
    pub sign_expires_secs: u64,
}

/// What a `Persisted` stands for.
#[verifier::ext_equal]
pub struct PersistedView {
    pub uploads: nat,
    pub recent: Seq<Seq<char>>,
    pub private_uploads: bool,
    pub sign_expires_secs: int,
}

impl View for Persisted {
    type V = PersistedView;

    open spec fn view(&self) -> PersistedView {
        PersistedView {
            uploads: self.uploads as nat,
            recent: texts_view(self.recent@),
            private_uploads: self.private_uploads,
            sign_expires_secs: self.sign_expires_secs as int,
        }
    }
}

impl PersistedView {
    /// The snapshot of an app that was never used.
    pub open spec fn fresh() -> PersistedView {
        PersistedView {
            uploads: 0,
            recent: Seq::empty(),
            private_uploads: false,
            sign_expires_secs: DEFAULT_SIGN_EXPIRES_SECS as int,
        }
    }
}

impl Default for Persisted {
    fn default() -> (r: Persisted)
        ensures
            r@ == PersistedView::fresh(),
    {
        let r = Persisted {
            uploads: 0,
            recent: Vec::new(),
            private_uploads: false,
            sign_expires_secs: default_sign_expires_secs(),
        };
        assert(r@.recent =~= Seq::empty());
        r
    }
}

/// What a `TrialState` stands for.
#[verifier::ext_equal]
pub struct TrialView {
    /// Anonymous uploads that are done or under way.
    pub uploads: nat,
    /// Most recent first.
    pub recent: Seq<RecentView>,
    /// Whether signed-in uploads are made private (signed URLs).
    pub private_uploads: bool,
    /// Signed-URL lifetime (seconds) for private uploads.
    pub sign_expires_secs: int,
}

/// Entries with another URL than `url`.
pub open spec fn other_than(url: Seq<char>) -> spec_fn(RecentView) -> bool {
    |e: RecentView| e.url != url
}

/// Entries whose URL is public.
pub open spec fn is_public() -> spec_fn(RecentView) -> bool {
    |e: RecentView| !e.private
}

/// The first entries of a list, as many as are remembered.
pub open spec fn capped<A>(list: Seq<A>) -> Seq<A> {
    if list.len() > RECENT_LIMIT {
        list.take(RECENT_LIMIT as int)
    } else {
        list
    }
}

impl TrialView {
    /// What every state keeps: a short recent list and an accepted lifetime.
    pub open spec fn wf(self) -> bool {
        &&& self.recent.len() <= RECENT_LIMIT
        &&& MIN_SIGN_EXPIRES_SECS <= self.sign_expires_secs <= MAX_SIGN_EXPIRES_SECS
    }

    /// The state that a snapshot is loaded to.
    pub open spec fn loaded(file: PersistedView) -> TrialView {
        TrialView {
            uploads: file.uploads,
            recent: capped(file.recent).map_values(
                |url: Seq<char>| RecentView { url, private: false },
            ),
            private_uploads: file.private_uploads,
            sign_expires_secs: clamped(file.sign_expires_secs),
        }
    }

    /// The snapshot to keep on disk.
    pub open spec fn snapshot(self) -> PersistedView {
        PersistedView {
            uploads: self.uploads,
            recent: self.recent.filter(is_public()).map_values(|e: RecentView| e.url),
            private_uploads: self.private_uploads,
            sign_expires_secs: self.sign_expires_secs,
        }
    }

    /// The anonymous uploads that are left.
    pub open spec fn remaining(self) -> nat {
        if self.uploads < FREE_UPLOAD_LIMIT {
            (FREE_UPLOAD_LIMIT - self.uploads) as nat
        } else {
            0
        }
    }

    /// Whether another anonymous upload is admitted.
    pub open spec fn admits(self) -> bool {
        self.uploads < FREE_UPLOAD_LIMIT
    }

    /// After an anonymous upload asked for a slot.
    pub open spec fn reserved(self) -> TrialView {
        if self.admits() {
            TrialView { uploads: self.uploads + 1, ..self }
        } else {
            self
        }
    }

    /// After an anonymous upload gave its slot back.
    pub open spec fn released(self) -> TrialView {
        TrialView {
            uploads: if self.uploads > 0 {
                (self.uploads - 1) as nat
            } else {
                0
            },
            ..self
        }
    }

    /// After an upload: `url` comes first, once, and the oldest entries go.
    pub open spec fn pushed(self, url: Seq<char>, private: bool) -> TrialView {
        TrialView {
            recent: capped(
                seq![RecentView { url, private }] + self.recent.filter(other_than(url)),
            ),
            ..self
        }
    }

    /// Without the signed links.
    pub open spec fn forgotten(self) -> TrialView {
        TrialView { recent: self.recent.filter(is_public()), ..self }
    }

    /// With new upload preferences.
    pub open spec fn with_prefs(self, private_uploads: bool, secs: int) -> TrialView {
        TrialView { private_uploads, sign_expires_secs: clamped(secs), ..self }
    }
}

/// Filtering one more element of a list.
proof fn filter_step(all: Seq<RecentView>, i: int, keep: spec_fn(RecentView) -> bool)
    requires
        0 <= i < all.len(),
    ensures
        all.take(i + 1).filter(keep) == if keep(all[i]) {
            all.take(i).filter(keep).push(all[i])
        } else {
            all.take(i).filter(keep)
        },
{
    reveal(Seq::filter);
    assert(all.take(i + 1).drop_last() =~= all.take(i));
}

/// Filtering no element, and filtering all of them.
proof fn filter_ends(all: Seq<RecentView>, keep: spec_fn(RecentView) -> bool)
    ensures
        all.take(0).filter(keep) == Seq::<RecentView>::empty(),
        all.take(all.len() as int).filter(keep) == all.filter(keep),
{
    reveal(Seq::filter);
    assert(all.take(0) =~= Seq::empty());
    assert(all.take(all.len() as int) =~= all);
}

/// The trial counter, the recent uploads and the upload preferences.
pub struct TrialState {
    uploads: u32,
    recent: Vec<RecentEntry>,
    private_uploads: bool,
    sign_expires_secs: u64,
}

impl View for TrialState {
    type V = TrialView;

    closed spec fn view(&self) -> TrialView {
        TrialView {
            uploads: self.uploads as nat,
            recent: entries_view(self.recent@),
            private_uploads: self.private_uploads,
            sign_expires_secs: self.sign_expires_secs as int,
        }
    }
}

impl TrialState {
    #[verifier::type_invariant]
    spec fn inv(self) -> bool {
        &&& self.recent@.len() <= RECENT_LIMIT
        &&& MIN_SIGN_EXPIRES_SECS <= self.sign_expires_secs <= MAX_SIGN_EXPIRES_SECS
    }

    /// Starts from the snapshot on disk; where there is none that can be read,
    /// from an empty state.
    pub fn load(file: Option<Persisted>) -> (r: TrialState)
        ensures
            r@ == TrialView::loaded(
                match file {
                    Some(p) => p@,
                    None => PersistedView::fresh(),
                },
            ),
            r@.wf(),
    {
        let file = match file {
            Some(p) => p,
            None => Persisted::default(),
        };
        let mut recent: Vec<RecentEntry> = Vec::new();
        let count: usize = if file.recent.len() > RECENT_LIMIT {
            RECENT_LIMIT
        } else {
            file.recent.len()
        };
        for i in 0..count
            invariant
                count <= file.recent@.len(),
                count <= RECENT_LIMIT,
                recent@.len() == i,
                forall|j: int|
                    0 <= j < i ==> #[trigger] recent@[j]@ == (RecentView {
                        url: file.recent@[j]@,
                        private: false,
                    }),
        {
            recent.push(RecentEntry { url: file.recent[i].clone(), private: false });
        }
        let r = TrialState {
            uploads: file.uploads,
            recent,
            private_uploads: file.private_uploads,
            sign_expires_secs: clamp_sign_expires(file.sign_expires_secs),
        };
        assert(r@.recent =~= TrialView::loaded(file@).recent);
        r
    }

    pub fn uploads(&self) -> (r: u32)
        ensures
            r == self@.uploads,
    {
        self.uploads
    }

    pub fn remaining(&self) -> (r: u32)
        ensures
            r == self@.remaining(),
    {
        FREE_UPLOAD_LIMIT.saturating_sub(self.uploads())
    }

    /// The remembered URLs, most recent first.
    pub fn recent(&self) -> (r: Vec<String>)
        ensures
            texts_view(r@) == self@.recent.map_values(|e: RecentView| e.url),
            r@.len() <= RECENT_LIMIT,
    {
        proof {
            use_type_invariant(self);
        }
        let mut r: Vec<String> = Vec::new();
        for i in 0..self.recent.len()
            invariant
                r@.len() == i,
                forall|j: int| 0 <= j < i ==> #[trigger] r@[j]@ == self.recent@[j].url@,
        {
            r.push(self.recent[i].url.clone());
        }
        assert(texts_view(r@) =~= self@.recent.map_values(|e: RecentView| e.url));
        r
    }

    /// The remembered URLs, most recent first, each with whether it is private.
    pub fn recent_entries(&self) -> (r: Vec<(String, bool)>)
        ensures
            r@.len() == self@.recent.len(),
            r@.len() <= RECENT_LIMIT,
            forall|i: int|
                0 <= i < r@.len() ==> (#[trigger] r@[i]).0@ == self@.recent[i].url && r@[i].1
                    == self@.recent[i].private,
    {
        proof {
            use_type_invariant(self);
        }
        let mut r: Vec<(String, bool)> = Vec::new();
        for i in 0..self.recent.len()
            invariant
                r@.len() == i,
                forall|j: int|
                    0 <= j < i ==> (#[trigger] r@[j]).0@ == self.recent@[j].url@ && r@[j].1
                        == self.recent@[j].private,
        {
            r.push((self.recent[i].url.clone(), self.recent[i].private));
        }
        r
    }

    /// Whether signed-in uploads are made private (signed URLs).
    pub fn private_uploads(&self) -> (r: bool)
        ensures
            r == self@.private_uploads,
    {
        self.private_uploads
    }

    /// Signed-URL lifetime (seconds) for private uploads.
    pub fn sign_expires_secs(&self) -> (r: u64)
        ensures
            r == self@.sign_expires_secs,
            MIN_SIGN_EXPIRES_SECS <= r <= MAX_SIGN_EXPIRES_SECS,
    {
        proof {
            use_type_invariant(self);
        }
        self.sign_expires_secs
    }

    /// The snapshot to keep on disk.
    pub fn snapshot(&self) -> (r: Persisted)
        ensures
            r@ == self@.snapshot(),
    {
        let ghost all = entries_view(self.recent@);
        let mut recent: Vec<String> = Vec::new();
        proof {
            filter_ends(all, is_public());
        }
        for i in 0..self.recent.len()
            invariant
                all == entries_view(self.recent@),
                texts_view(recent@) =~= all.take(i as int).filter(is_public()).map_values(
                    |e: RecentView| e.url,
                ),
        {
            let ghost before = recent@;
            proof {
                filter_step(all, i as int, is_public());
            }
            if !self.recent[i].private {
                recent.push(self.recent[i].url.clone());
                assert(texts_view(recent@) =~= texts_view(before).push(all[i as int].url));
            }
        }
        Persisted {
            uploads: self.uploads,
            recent,
            private_uploads: self.private_uploads,
            sign_expires_secs: self.sign_expires_secs,
        }
    }

    /// Makes signed-in uploads private or public. Returns the snapshot to write.
    pub fn set_private_uploads(&mut self, on: bool) -> (r: Persisted)
        ensures
            final(self)@ == (TrialView { private_uploads: on, ..old(self)@ }),
            r@ == final(self)@.snapshot(),
    {
        proof {
            use_type_invariant(&*self);
        }
        self.private_uploads = on;
        self.snapshot()
    }

    /// Sets the signed-URL lifetime (clamped to bounds). Returns the snapshot to
    /// write.
    pub fn set_sign_expires_secs(&mut self, secs: u64) -> (r: Persisted)
        ensures
            final(self)@ == (TrialView {
                sign_expires_secs: clamped(secs as int),
                ..old(self)@
            }),
            r@ == final(self)@.snapshot(),
    {
        proof {
            use_type_invariant(&*self);
        }
        self.sign_expires_secs = clamp_sign_expires(secs);
        self.snapshot()
    }

    /// Sets both upload preferences at once. Returns the snapshot to write.
    pub fn set_upload_prefs(&mut self, private_uploads: bool, secs: u64) -> (r: Persisted)
        ensures
            final(self)@ == old(self)@.with_prefs(private_uploads, secs as int),
            r@ == final(self)@.snapshot(),
    {
        proof {
            use_type_invariant(&*self);
        }
        self.private_uploads = private_uploads;
        self.sign_expires_secs = clamp_sign_expires(secs);
        self.snapshot()
    }

    /// Reserves one anonymous-trial slot. Returns `true` if a slot was available
    /// (the counter goes up), `false` if the free limit is reached.
    pub fn try_reserve(&mut self) -> (r: bool)
        ensures
            r == old(self)@.admits(),
            final(self)@ == old(self)@.reserved(),
    {
        proof {
            use_type_invariant(&*self);
        }
        if self.uploads >= FREE_UPLOAD_LIMIT {
            return false;
        }
        self.uploads = self.uploads + 1;
        true
    }

    /// Releases a reserved slot (the upload failed after `try_reserve`).
    pub fn release(&mut self)
        ensures
            final(self)@ == old(self)@.released(),
    {
        proof {
            use_type_invariant(&*self);
        }
        self.uploads = self.uploads.saturating_sub(1);
    }

    /// Commits a reserved anonymous upload: `url` is remembered. (The counter
    /// went up in `try_reserve`.) Returns the snapshot to write.
    pub fn commit_reserved(&mut self, url: &str) -> (r: Persisted)
        ensures
            final(self)@ == old(self)@.pushed(url@, false),
            r@ == final(self)@.snapshot(),
    {
        self.push_recent_inner(url, false);
        self.snapshot()
    }

    /// Remembers `url` without touching the trial counter: signed-in uploads are
    /// not part of the free trial. Returns the snapshot to write.
    pub fn push_recent(&mut self, url: &str, private: bool) -> (r: Persisted)
        ensures
            final(self)@ == old(self)@.pushed(url@, private),
            r@ == final(self)@.snapshot(),
    {
        self.push_recent_inner(url, private);
        self.snapshot()
    }

    fn push_recent_inner(&mut self, url: &str, private: bool)
        ensures
            final(self)@ == old(self)@.pushed(url@, private),
    {
        proof {
            use_type_invariant(&*self);
        }
        let ghost all = entries_view(self.recent@);
        let ghost first = seq![RecentView { url: url@, private }];
        let mut kept: Vec<RecentEntry> = Vec::new();
        kept.push(RecentEntry { url: url.to_owned(), private });
        proof {
            filter_ends(all, other_than(url@));
            assert(entries_view(kept@) =~= first + all.take(0).filter(other_than(url@)));
        }
        for i in 0..self.recent.len()
            invariant
                all == entries_view(self.recent@),
                entries_view(kept@) =~= first + all.take(i as int).filter(other_than(url@)),
        {
            let ghost before = kept@;
            proof {
                filter_step(all, i as int, other_than(url@));
            }
            if !same_text(self.recent[i].url.as_str(), url) {
                kept.push(
                    RecentEntry { url: self.recent[i].url.clone(), private: self.recent[i].private },
                );
                assert(entries_view(kept@) =~= entries_view(before).push(all[i as int]));
            }
        }
        let ghost full = entries_view(kept@);
        kept.truncate(RECENT_LIMIT);
        assert(entries_view(kept@) =~= capped(full));
        self.recent = kept;
    }

    /// Forgets the signed (private) links. The snapshot on disk holds none, so
    /// it stays as it is.
    pub fn forget_private_recent(&mut self)
        ensures
            final(self)@ == old(self)@.forgotten(),
    {
        proof {
            use_type_invariant(&*self);
        }
        let ghost all = entries_view(self.recent@);
        let mut kept: Vec<RecentEntry> = Vec::new();
        proof {
            filter_ends(all, is_public());
        }
        for i in 0..self.recent.len()
            invariant
                all == entries_view(self.recent@),
                kept@.len() <= i,
                entries_view(kept@) =~= all.take(i as int).filter(is_public()),
        {
            proof {
                filter_step(all, i as int, is_public());
            }
            if !self.recent[i].private {
                kept.push(
                    RecentEntry { url: self.recent[i].url.clone(), private: self.recent[i].private },
                );
            }
        }
        self.recent = kept;
    }
}

/// A change to a `TrialState`.
pub enum TrialChange {
    Reserve,
    Release,
    Push { url: Seq<char>, private: bool },
    Forget,
    SetPrivate { on: bool },
    SetLifetime { secs: int },
    SetPrefs { on: bool, secs: int },
}

impl TrialView {
    /// The state after `change`.
    pub open spec fn after(self, change: TrialChange) -> TrialView {
        match change {
            TrialChange::Reserve => self.reserved(),
            TrialChange::Release => self.released(),
            TrialChange::Push { url, private } => self.pushed(url, private),
            TrialChange::Forget => self.forgotten(),
            TrialChange::SetPrivate { on } => TrialView { private_uploads: on, ..self },
            TrialChange::SetLifetime { secs } => TrialView {
                sign_expires_secs: clamped(secs),
                ..self
            },
            TrialChange::SetPrefs { on, secs } => self.with_prefs(on, secs),
        }
    }

    /// The state after `changes`, the first one first.
    pub open spec fn after_all(self, changes: Seq<TrialChange>) -> TrialView
        decreases changes.len(),
    {
        if changes.len() == 0 {
            self
        } else {
            self.after_all(changes.drop_last()).after(changes.last())
        }
    }
}

/// A loaded state has a short recent list and an accepted lifetime, whatever
/// the file holds, and every change keeps both.
pub proof fn every_state_is_well_formed(file: PersistedView, changes: Seq<TrialChange>)
    ensures
        TrialView::loaded(file).after_all(changes).wf(),
    decreases changes.len(),
{
    if changes.len() > 0 {
        every_state_is_well_formed(file, changes.drop_last());
        let before = TrialView::loaded(file).after_all(changes.drop_last());
        before.recent.lemma_filter_len(is_public());
    }
}

/// No sequence of changes takes the counter past the free limit. (A file that
/// already holds more stays where it is.)
pub proof fn counter_stays_within_the_free_limit(v: TrialView, changes: Seq<TrialChange>)
    ensures
        v.after_all(changes).uploads <= v.uploads || v.after_all(changes).uploads
            <= FREE_UPLOAD_LIMIT,
    decreases changes.len(),
{
    if changes.len() > 0 {
        counter_stays_within_the_free_limit(v, changes.drop_last());
    }
}

/// Of `n` uploads in a row that ask for a slot, a fresh trial admits the first
/// `FREE_UPLOAD_LIMIT` and refuses all others.
pub proof fn fresh_trial_admits_the_free_uploads(file: PersistedView, n: nat)
    requires
        file.uploads == 0,
    ensures
        ({
            let v = TrialView::loaded(file).after_all(
                Seq::new(n, |i: int| TrialChange::Reserve),
            );
            &&& v.admits() <==> n < FREE_UPLOAD_LIMIT
            &&& v.uploads == if n < FREE_UPLOAD_LIMIT {
                n
            } else {
                FREE_UPLOAD_LIMIT as nat
            }
        }),
    decreases n,
{
    if n > 0 {
        let asks = Seq::new(n, |i: int| TrialChange::Reserve);
        let fewer = Seq::new((n - 1) as nat, |i: int| TrialChange::Reserve);
        fresh_trial_admits_the_free_uploads(file, (n - 1) as nat);
        assert(asks.drop_last() =~= fewer);
        assert(asks.last() == TrialChange::Reserve);
    }
}

/// A slot that is reserved and released leaves the state as it was: a failed
/// upload is not counted.
pub proof fn release_undoes_reserve(v: TrialView)
    requires
        v.admits(),
    ensures
        v.reserved().released() == v,
{
}

/// Reserving a slot takes one upload from what is left.
pub proof fn reserve_takes_one_of_the_remaining(v: TrialView)
    ensures
        v.admits() <==> v.remaining() > 0,
        v.admits() ==> v.reserved().remaining() == v.remaining() - 1,
        v.remaining() <= FREE_UPLOAD_LIMIT,
        v.uploads <= FREE_UPLOAD_LIMIT ==> v.remaining() + v.uploads == FREE_UPLOAD_LIMIT,
{
}

/// Only reserving and releasing touch the counter.
pub proof fn other_changes_keep_the_counter(v: TrialView, change: TrialChange)
    requires
        change !is Reserve,
        change !is Release,
    ensures
        v.after(change).uploads == v.uploads,
{
}

/// A pushed URL comes first and stands in the list once. What follows is what
/// the list held before, in its order, as far as it fits.
pub proof fn pushed_url_comes_first_and_once(v: TrialView, url: Seq<char>, private: bool)
    ensures
        ({
            let list = v.pushed(url, private).recent;
            &&& 0 < list.len() <= RECENT_LIMIT
            &&& list[0] == (RecentView { url, private })
            &&& forall|i: int| 0 < i < list.len() ==> (#[trigger] list[i]).url != url
            &&& list.skip(1).is_prefix_of(v.recent.filter(other_than(url)))
        }),
{
    let kept = v.recent.filter(other_than(url));
    let full = seq![RecentView { url, private }] + kept;
    let list = v.pushed(url, private).recent;
    assert(list == capped(full));
    assert forall|i: int| 0 < i < list.len() implies (#[trigger] list[i]).url != url by {
        assert(list[i] == kept[i - 1]);
        v.recent.lemma_filter_pred(other_than(url), i - 1);
    }
    assert(list.skip(1) =~= kept.take(list.len() - 1));
}

/// No two entries have the same URL.
pub open spec fn urls_are_distinct(list: Seq<RecentView>) -> bool {
    forall|i: int, j: int|
        0 <= i < j < list.len() ==> (#[trigger] list[i]).url != (#[trigger] list[j]).url
}

proof fn filter_keeps_distinct(list: Seq<RecentView>, keep: spec_fn(RecentView) -> bool)
    requires
        urls_are_distinct(list),
    ensures
        urls_are_distinct(list.filter(keep)),
        forall|i: int| 0 <= i < list.filter(keep).len() ==> list.contains(list.filter(keep)[i]),
    decreases list.len(),
{
    reveal(Seq::filter);
    if list.len() > 0 {
        let head = list.drop_last();
        let sub = head.filter(keep);
        assert(urls_are_distinct(head)) by {
            assert forall|i: int, j: int| 0 <= i < j < head.len() implies (#[trigger] head[i]).url
                != (#[trigger] head[j]).url by {
                assert(head[i] == list[i] && head[j] == list[j]);
            }
        }
        filter_keeps_distinct(head, keep);
        let out = list.filter(keep);
        assert forall|i: int| 0 <= i < sub.len() implies list.contains(#[trigger] sub[i])
            && sub[i].url != list.last().url by {
            let k = choose|k: int| 0 <= k < head.len() && head[k] == sub[i];
            assert(head.contains(sub[i]));
            assert(list[k] == sub[i]);
            assert(list[list.len() - 1] == list.last());
        }
        assert forall|i: int| 0 <= i < out.len() implies list.contains(#[trigger] out[i]) by {
            if i < sub.len() {
                assert(out[i] == sub[i]);
            } else {
                assert(out[i] == list.last());
                assert(list[list.len() - 1] == out[i]);
            }
        }
        assert forall|i: int, j: int| 0 <= i < j < out.len() implies (#[trigger] out[i]).url != (
        #[trigger] out[j]).url by {
            assert(out[i] == sub[i]);
            if j < sub.len() {
                assert(out[j] == sub[j]);
            } else {
                assert(out[j] == list.last());
            }
        }
    }
}

/// A list without repeated URLs stays one under every change.
pub proof fn changes_keep_urls_distinct(v: TrialView, change: TrialChange)
    requires
        urls_are_distinct(v.recent),
    ensures
        urls_are_distinct(v.after(change).recent),
{
    match change {
        TrialChange::Push { url, private } => {
            filter_keeps_distinct(v.recent, other_than(url));
            pushed_url_comes_first_and_once(v, url, private);
            let kept = v.recent.filter(other_than(url));
            let list = v.pushed(url, private).recent;
            assert(forall|i: int| 0 < i < list.len() ==> #[trigger] list[i] == kept[i - 1]);
        },
        TrialChange::Forget => {
            filter_keeps_distinct(v.recent, is_public());
        },
        _ => {},
    }
}

proof fn filter_all(list: Seq<RecentView>, keep: spec_fn(RecentView) -> bool)
    requires
        forall|i: int| 0 <= i < list.len() ==> keep(#[trigger] list[i]),
    ensures
        list.filter(keep) == list,
    decreases list.len(),
{
    reveal(Seq::filter);
    if list.len() > 0 {
        filter_all(list.drop_last(), keep);
        assert(list.drop_last().push(list.last()) =~= list);
    }
}

/// Pushing the same upload again changes nothing.
pub proof fn push_is_idempotent(v: TrialView, url: Seq<char>, private: bool)
    ensures
        v.pushed(url, private).pushed(url, private) == v.pushed(url, private),
{
    pushed_url_comes_first_and_once(v, url, private);
    let list = v.pushed(url, private).recent;
    let first = seq![RecentView { url, private }];
    let rest = list.skip(1);
    assert(list =~= first + rest);
    Seq::filter_distributes_over_add(first, rest, other_than(url));
    assert forall|i: int| 0 <= i < rest.len() implies other_than(url)(#[trigger] rest[i]) by {
        assert(rest[i] == list[i + 1]);
    }
    filter_all(rest, other_than(url));
    assert(first.filter(other_than(url)) =~= Seq::empty()) by {
        reveal_with_fuel(Seq::filter, 2);
        assert(first.drop_last() =~= Seq::empty());
    }
    assert(list.filter(other_than(url)) =~= rest);
}

/// What was written to disk is read back as it was, but for the signed links,
/// which are never written.
pub proof fn load_gives_back_the_snapshot(v: TrialView)
    requires
        v.wf(),
    ensures
        TrialView::loaded(v.snapshot()) == v.forgotten(),
{
    let public = v.recent.filter(is_public());
    v.recent.lemma_filter_len(is_public());
    assert forall|i: int| 0 <= i < public.len() implies !(#[trigger] public[i]).private by {
        v.recent.lemma_filter_pred(is_public(), i);
    }
    assert(TrialView::loaded(v.snapshot()).recent =~= public);
}

/// After forgetting, no signed link is left; every public one is, in its order,
/// and the snapshot on disk is as it was.
pub proof fn forgetting_leaves_no_private_link(v: TrialView)
    ensures
        forall|i: int|
            0 <= i < v.forgotten().recent.len() ==> !(#[trigger] v.forgotten().recent[i]).private,
        forall|i: int|
            0 <= i < v.recent.len() && !v.recent[i].private ==> v.forgotten().recent.contains(
                #[trigger] v.recent[i],
            ),
        v.forgotten().snapshot() == v.snapshot(),
        v.forgotten().forgotten() == v.forgotten(),
{
    let public = v.recent.filter(is_public());
    assert forall|i: int| 0 <= i < public.len() implies !(#[trigger] public[i]).private by {
        v.recent.lemma_filter_pred(is_public(), i);
    }
    assert forall|i: int| 0 <= i < v.recent.len() && !v.recent[i].private implies public.contains(
        #[trigger] v.recent[i],
    ) by {
        v.recent.lemma_filter_contains(is_public(), i);
    }
    filter_all(public, is_public());
}

/// A clamped lifetime is one that the API accepts; one that it accepts already
/// is not changed.
pub proof fn clamped_lifetime_is_accepted(secs: int)
    ensures
        MIN_SIGN_EXPIRES_SECS <= clamped(secs) <= MAX_SIGN_EXPIRES_SECS,
        MIN_SIGN_EXPIRES_SECS <= secs <= MAX_SIGN_EXPIRES_SECS ==> clamped(secs) == secs,
        clamped(clamped(secs)) == clamped(secs),
{
}

/// A clamped lifetime is the accepted one that is nearest to what was asked for:
/// no accepted lifetime is nearer.
pub proof fn clamped_lifetime_is_the_nearest(secs: int, accepted: int)
    requires
        MIN_SIGN_EXPIRES_SECS <= accepted <= MAX_SIGN_EXPIRES_SECS,
    ensures
        MIN_SIGN_EXPIRES_SECS <= clamped(secs) <= MAX_SIGN_EXPIRES_SECS,
        secs <= clamped(secs) ==> clamped(secs) - secs <= if accepted <= secs {
            secs - accepted
        } else {
            accepted - secs
        },
        secs >= clamped(secs) ==> secs - clamped(secs) <= if accepted <= secs {
            secs - accepted
        } else {
            accepted - secs
        },
{
}

/// Lifetimes from a minute to thirty days are accepted, and the default, a week,
/// is one of them.
pub proof fn lifetimes_from_a_minute_to_thirty_days_are_kept(secs: int)
    requires
        60 <= secs <= 30 * 24 * 3600,
    ensures
        clamped(secs) == secs,
        DEFAULT_SIGN_EXPIRES_SECS == 7 * 24 * 3600,
{
}

/// The views show a state, a snapshot and an entry field by field.
pub proof fn state_views_show_every_field(e: RecentEntry, p: Persisted)
    ensures
        e@.url == e.url@,
        e@.private == e.private,
        p@.uploads == p.uploads,
        p@.private_uploads == p.private_uploads,
        p@.sign_expires_secs == p.sign_expires_secs,
        p@.recent.len() == p.recent@.len(),
        forall|i: int| 0 <= i < p.recent@.len() ==> #[trigger] p@.recent[i] == p.recent@[i]@,
{
}

/// A list of texts, or of entries, is shown element by element.
pub proof fn list_views_show_every_element(texts: Seq<String>, entries: Seq<RecentEntry>, i: int)
    ensures
        texts_view(texts).len() == texts.len(),
        0 <= i < texts.len() ==> texts_view(texts)[i] == texts[i]@,
        entries_view(entries).len() == entries.len(),
        0 <= i < entries.len() ==> entries_view(entries)[i] == entries[i]@,
{
}

/// Loading takes the counter and the preferences over as the file has them, but
/// for a lifetime out of bounds. The URLs come in the order of the file, all of
/// them public, up to the number that is remembered.
pub proof fn loading_takes_the_file_over(file: PersistedView, i: int)
    ensures
        ({
            let v = TrialView::loaded(file);
            &&& v.uploads == file.uploads
            &&& v.private_uploads == file.private_uploads
            &&& 60 <= file.sign_expires_secs <= 30 * 24 * 3600 ==> v.sign_expires_secs
                == file.sign_expires_secs
            &&& v.recent.len() <= file.recent.len()
            &&& v.recent.len() == file.recent.len() || v.recent.len() == RECENT_LIMIT
            &&& v.recent.len() <= RECENT_LIMIT
            &&& 0 <= i < v.recent.len() ==> v.recent[i].url == file.recent[i]
                && !v.recent[i].private
        }),
{
}

/// The snapshot has the counter and the preferences of the state. Of the recent
/// list it has the public URLs in their order: one more public entry adds its
/// URL at the end, one more private entry adds nothing.
pub proof fn snapshot_takes_public_entries_one_by_one(v: TrialView, e: RecentView)
    ensures
        v.snapshot().uploads == v.uploads,
        v.snapshot().private_uploads == v.private_uploads,
        v.snapshot().sign_expires_secs == v.sign_expires_secs,
        v.recent.len() == 0 ==> v.snapshot().recent.len() == 0,
        ({
            let more = TrialView { recent: v.recent.push(e), ..v };
            more.snapshot().recent == if e.private {
                v.snapshot().recent
            } else {
                v.snapshot().recent.push(e.url)
            }
        }),
{
    reveal(Seq::filter);
    assert(v.recent.push(e).drop_last() =~= v.recent);
    let more = TrialView { recent: v.recent.push(e), ..v };
    assert(more.snapshot().recent =~= if e.private {
        v.snapshot().recent
    } else {
        v.snapshot().recent.push(e.url)
    });
}

/// Forgetting goes entry by entry too: a public entry stays where it is, a
/// private one goes. Nothing but the list changes.
pub proof fn forgetting_goes_entry_by_entry(v: TrialView, e: RecentView)
    ensures
        v.forgotten().uploads == v.uploads,
        v.forgotten().private_uploads == v.private_uploads,
        v.forgotten().sign_expires_secs == v.sign_expires_secs,
        v.recent.len() == 0 ==> v.forgotten().recent.len() == 0,
        ({
            let more = TrialView { recent: v.recent.push(e), ..v };
            more.forgotten().recent == if e.private {
                v.forgotten().recent
            } else {
                v.forgotten().recent.push(e)
            }
        }),
{
    reveal(Seq::filter);
    assert(v.recent.push(e).drop_last() =~= v.recent);
}

/// With uploads used up or more, none is left; before that, each one counts.
pub proof fn remaining_counts_down_to_zero(v: TrialView)
    ensures
        v.uploads >= FREE_UPLOAD_LIMIT ==> v.remaining() == 0 && !v.admits(),
        v.uploads < FREE_UPLOAD_LIMIT ==> v.remaining() + v.uploads == FREE_UPLOAD_LIMIT
            && v.admits(),
        FREE_UPLOAD_LIMIT == 5,
{
}

/// Reserving and releasing move the counter by one, where it can move, and leave
/// the list and the preferences alone.
pub proof fn slots_are_counted_one_by_one(v: TrialView)
    ensures
        v.uploads < FREE_UPLOAD_LIMIT ==> v.reserved().uploads == v.uploads + 1,
        v.uploads >= FREE_UPLOAD_LIMIT ==> v.reserved().uploads == v.uploads,
        v.uploads > 0 ==> v.released().uploads == v.uploads - 1,
        v.uploads == 0 ==> v.released().uploads == 0,
        v.reserved().recent == v.recent,
        v.reserved().private_uploads == v.private_uploads,
        v.reserved().sign_expires_secs == v.sign_expires_secs,
        v.released().recent == v.recent,
        v.released().private_uploads == v.private_uploads,
        v.released().sign_expires_secs == v.sign_expires_secs,
{
}

/// Which entries a push keeps, and which forgetting keeps.
pub proof fn entries_are_chosen_by_url_and_by_privacy(url: Seq<char>, e: RecentView)
    ensures
        other_than(url)(e) <==> e.url != url,
        is_public()(e) <==> !e.private,
{
}

/// A push on a list that has room and does not hold the URL shifts every entry
/// by one place and loses none.
pub proof fn push_shifts_the_list(v: TrialView, url: Seq<char>, private: bool, i: int)
    requires
        forall|j: int| 0 <= j < v.recent.len() ==> (#[trigger] v.recent[j]).url != url,
    ensures
        ({
            let list = v.pushed(url, private).recent;
            &&& v.recent.len() < RECENT_LIMIT ==> list.len() == v.recent.len() + 1
            &&& v.recent.len() >= RECENT_LIMIT ==> list.len() == RECENT_LIMIT
            &&& list[0].url == url && list[0].private == private
            &&& 0 <= i && i + 1 < list.len() ==> list[i + 1] == v.recent[i]
        }),
{
    filter_all(v.recent, other_than(url));
    assert(v.recent.filter(other_than(url)) == v.recent);
}

/// A push changes the list alone. It drops no more than the entries with the
/// same URL and those that no longer fit.
pub proof fn push_drops_no_more_than_it_must(v: TrialView, url: Seq<char>, private: bool, i: int)
    requires
        v.recent.len() < RECENT_LIMIT,
        0 <= i < v.recent.len(),
        v.recent[i].url != url,
    ensures
        v.pushed(url, private).recent.contains(v.recent[i]),
        v.pushed(url, private).uploads == v.uploads,
        v.pushed(url, private).private_uploads == v.private_uploads,
        v.pushed(url, private).sign_expires_secs == v.sign_expires_secs,
        RECENT_LIMIT == 5,
{
    let kept = v.recent.filter(other_than(url));
    v.recent.lemma_filter_len(other_than(url));
    v.recent.lemma_filter_contains(other_than(url), i);
    let k = choose|k: int| 0 <= k < kept.len() && kept[k] == v.recent[i];
    assert(v.pushed(url, private).recent[k + 1] == v.recent[i]);
}

/// Pushing a URL first and the list's own entries one by one: what a push keeps
/// of a list is what it keeps of the list without its last entry, and that entry
/// behind it unless it has the same URL. (Stated where all of it fits.)
pub proof fn push_keeps_entries_one_by_one(
    v: TrialView,
    e: RecentView,
    url: Seq<char>,
    private: bool,
)
    requires
        v.recent.len() + 1 < RECENT_LIMIT,
    ensures
        ({
            let more = TrialView { recent: v.recent.push(e), ..v };
            more.pushed(url, private).recent == if e.url == url {
                v.pushed(url, private).recent
            } else {
                v.pushed(url, private).recent.push(e)
            }
        }),
{
    v.recent.lemma_filter_len(other_than(url));
    v.recent.push(e).lemma_filter_len(other_than(url));
    reveal(Seq::filter);
    assert(v.recent.push(e).drop_last() =~= v.recent);
    let more = TrialView { recent: v.recent.push(e), ..v };
    assert(more.pushed(url, private).recent =~= if e.url == url {
        v.pushed(url, private).recent
    } else {
        v.pushed(url, private).recent.push(e)
    });
}

/// Setting the preferences sets both, the lifetime within bounds, and nothing
/// else.
pub proof fn preferences_are_set_as_asked(v: TrialView, on: bool, secs: int)
    ensures
        v.with_prefs(on, secs).private_uploads == on,
        60 <= secs <= 30 * 24 * 3600 ==> v.with_prefs(on, secs).sign_expires_secs == secs,
        secs < 60 ==> v.with_prefs(on, secs).sign_expires_secs == 60,
        secs > 30 * 24 * 3600 ==> v.with_prefs(on, secs).sign_expires_secs == 30 * 24 * 3600,
        v.with_prefs(on, secs).uploads == v.uploads,
        v.with_prefs(on, secs).recent == v.recent,
{
}

/// Behind the pushed URL stand the entries with other URLs, in their order, as
/// many as there is room for, whatever the list was.
pub proof fn push_keeps_what_fits(v: TrialView, url: Seq<char>, private: bool)
    ensures
        ({
            let others = v.recent.filter(|e: RecentView| e.url != url);
            let list = v.pushed(url, private).recent;
            &&& list.len() == if others.len() < 4 {
                others.len() + 1
            } else {
                5
            }
            &&& list[0].url == url && list[0].private == private
            &&& forall|i: int| 0 < i < list.len() ==> #[trigger] list[i] == others[i - 1]
            &&& v.pushed(url, private).uploads == v.uploads
            &&& v.pushed(url, private).private_uploads == v.private_uploads
            &&& v.pushed(url, private).sign_expires_secs == v.sign_expires_secs
        }),
{
    assert(other_than(url) =~= (|e: RecentView| e.url != url));
}

/// Without a file the app begins with all its free uploads, an empty list and
/// public uploads.
pub proof fn first_runs_begin_with_all_free_uploads()
    ensures
        PersistedView::fresh().uploads == 0,
        PersistedView::fresh().recent.len() == 0,
        !PersistedView::fresh().private_uploads,
        PersistedView::fresh().sign_expires_secs == DEFAULT_SIGN_EXPIRES_SECS,
        TrialView::loaded(PersistedView::fresh()).remaining() == 5,
        TrialView::loaded(PersistedView::fresh()).recent.len() == 0,
        STATE_FILE@ == "state.json"@,
{
}

/// A trial that is loaded from a snapshot of another has its counter, its
/// preferences and its public uploads.
pub proof fn snapshots_are_loaded_back(trial: &TrialState, file: Persisted, loaded: TrialState)
    requires
        trial@.wf(),
        call_ensures(TrialState::snapshot, (trial,), file),
        call_ensures(TrialState::load, (Some(file),), loaded),
    ensures
        loaded@.uploads == trial@.uploads,
        loaded@.private_uploads == trial@.private_uploads,
        loaded@.sign_expires_secs == trial@.sign_expires_secs,
        loaded@.recent == trial@.recent.filter(|e: RecentView| !e.private),
{
    load_gives_back_the_snapshot(trial@);
    assert(is_public() =~= (|e: RecentView| !e.private));
}

/// Every change to the preferences hands out the snapshot of the state after it
/// and changes nothing but what was asked for.
pub proof fn changed_preferences_are_handed_out(
    a: &mut TrialState,
    on: bool,
    first: Persisted,
    b: &mut TrialState,
    secs: u64,
    second: Persisted,
    c: &mut TrialState,
    third: Persisted,
)
    requires
        call_ensures(TrialState::set_private_uploads, (a, on), first),
        call_ensures(TrialState::set_sign_expires_secs, (b, secs), second),
        call_ensures(TrialState::set_upload_prefs, (c, on, secs), third),
    ensures
        final(a)@.private_uploads == on,
        final(a)@.sign_expires_secs == old(a)@.sign_expires_secs,
        final(a)@.uploads == old(a)@.uploads,
        final(a)@.recent == old(a)@.recent,
        first@ == final(a)@.snapshot(),
        first.private_uploads == on,
        first.uploads == old(a)@.uploads,
        60 <= secs <= 30 * 24 * 3600 ==> final(b)@.sign_expires_secs == secs,
        final(b)@.private_uploads == old(b)@.private_uploads,
        final(b)@.uploads == old(b)@.uploads,
        final(b)@.recent == old(b)@.recent,
        second@ == final(b)@.snapshot(),
        60 <= secs <= 30 * 24 * 3600 ==> second.sign_expires_secs == secs,
        second.uploads == old(b)@.uploads,
        final(c)@.private_uploads == on,
        60 <= secs <= 30 * 24 * 3600 ==> final(c)@.sign_expires_secs == secs,
        final(c)@.uploads == old(c)@.uploads,
        final(c)@.recent == old(c)@.recent,
        third@ == final(c)@.snapshot(),
        third.private_uploads == on,
        60 <= secs <= 30 * 24 * 3600 ==> third.sign_expires_secs == secs,
        third.uploads == old(c)@.uploads,
{
}

/// Every upload that is added comes first in the list, and the snapshot that is
/// handed out is that of the state after it.
pub proof fn added_uploads_are_handed_out(
    a: &mut TrialState,
    url: &str,
    private: bool,
    first: Persisted,
    b: &mut TrialState,
    second: Persisted,
)
    requires
        call_ensures(TrialState::push_recent, (a, url, private), first),
        call_ensures(TrialState::commit_reserved, (b, url), second),
    ensures
        first@ == final(a)@.snapshot(),
        first.uploads == old(a)@.uploads,
        final(a)@.recent.len() > 0,
        final(a)@.recent[0] == (RecentView { url: url@, private }),
        second@ == final(b)@.snapshot(),
        second.uploads == old(b)@.uploads,
        final(b)@.recent.len() > 0,
        final(b)@.recent[0] == (RecentView { url: url@, private: false }),
{
}

/// A slot is taken exactly while one is left, and comes back when it is released.
pub proof fn slots_are_taken_and_given_back(
    a: &mut TrialState,
    taken: bool,
    b: &mut TrialState,
)
    requires
        call_ensures(TrialState::try_reserve, (a,), taken),
        old(b)@ == final(a)@,
        call_ensures(TrialState::release, (b,), ()),
    ensures
        taken <==> old(a)@.uploads < 5,
        taken ==> final(a)@.uploads == old(a)@.uploads + 1,
        !taken ==> final(a)@ == old(a)@,
        taken ==> final(b)@ == old(a)@,
{
}

/// What is shown of a trial is what it holds.
pub proof fn trials_are_shown_as_they_are(
    trial: &TrialState,
    uploads: u32,
    remaining: u32,
    urls: Vec<String>,
    entries: Vec<(String, bool)>,
    private_uploads: bool,
    secs: u64,
    i: int,
)
    requires
        call_ensures(TrialState::uploads, (trial,), uploads),
        call_ensures(TrialState::remaining, (trial,), remaining),
        call_ensures(TrialState::recent, (trial,), urls),
        call_ensures(TrialState::recent_entries, (trial,), entries),
        call_ensures(TrialState::private_uploads, (trial,), private_uploads),
        call_ensures(TrialState::sign_expires_secs, (trial,), secs),
        0 <= i < trial@.recent.len(),
    ensures
        uploads == trial@.uploads,
        remaining + uploads == 5 || (uploads > 5 && remaining == 0),
        private_uploads == trial@.private_uploads,
        secs == trial@.sign_expires_secs,
        urls@.len() == trial@.recent.len(),
        entries@.len() == trial@.recent.len(),
        urls@[i]@ == trial@.recent[i].url,
        entries@[i].0@ == trial@.recent[i].url,
        entries@[i].1 == trial@.recent[i].private,
{
    assert(texts_view(urls@).len() == urls@.len());
    assert(texts_view(urls@)[i] == urls@[i]@);
}

} // verus!
