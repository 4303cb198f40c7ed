//! The orchestrator: one decrypt call as a step-by-step session.
//!
//! A [`Session`] makes every decision of a decrypt call — which identity file
//! to read next, tolerating unreadable or unparsable ones; whether the cache
//! answers; what to decrypt; what to persist — while the embedding program
//! performs the file-system work it is asked for in each [`Step`] and reports
//! the outcome. On a cache hit the session finishes at once with the cached
//! plaintext: no ciphertext is requested and no decryption happens. On a miss
//! it decrypts and, for the directory cache, hands back the store plan before
//! finishing, so the next session over the same entry hits.

use vstd::prelude::*;

use crate::cache::entry_path_spec;
use crate::cache::plan_model;
use crate::cache::CacheSel;
use crate::cache::FsOp;
use crate::cache::FsOpModel;
use crate::cache::TempCache;
use crate::errors::SecretError;
use crate::identity::decrypt_bytes;
use crate::identity::decrypt_result;
use crate::identity::file_ids;
use crate::identity::ids_of;
use crate::identity::parse_identity_text;
use crate::identity::IdentitySet;
use crate::paths::base_name_spec;

verus! {

/// Where a session stands.
#[derive(PartialEq, Eq, Structural, Clone, Copy, Debug)]
pub enum Phase {
    /// Waiting for the contents of the identity file the last step named.
    Identities,
    /// Waiting for the state of the cache entry the last step named.
    Probing,
    /// Waiting for the ciphertext bytes.
    Decrypting,
    /// Waiting for the outcome of the store plan the last step handed out.
    Storing,
    /// Done; the result was in the final step.
    Finished,
}

/// What the session asks of the embedding program next.
pub enum Step {
    /// Read this identity file; answer with its contents, or `None` when it
    /// cannot be read.
    NeedIdentity { path: String },
    /// Look for a cache entry at this path; answer with an [`EntryState`].
    NeedProbe { path: String },
    /// Read the ciphertext file; answer with its bytes, or the error message.
    NeedCiphertext { path: String },
    /// Perform these operations in order; answer with the first failure's
    /// message, or success.
    NeedStore { ops: Vec<FsOp> },
    /// The call is finished.
    Done { result: Result<String, SecretError> },
}

/// What a probe found at the entry path.
pub enum EntryState {
    /// The entry exists and holds this content.
    Present { content: String },
    /// No entry exists: the expected first-run state, not an error.
    Absent,
    /// The probe or the read itself failed.
    Failed { message: String },
}

/// One decrypt call in progress.
pub struct Session {
    /// The identity file paths, in order.
    pub identity_paths: Vec<String>,
    /// The ciphertext file path, which is also the cache key's preimage.
    pub filename: String,
    /// The selected cache variant.
    pub cache: CacheSel,
    /// The identities loaded so far.
    pub ids: IdentitySet,
    /// How many identity files were skipped as unreadable or unparsable.
    pub skipped: usize,
    /// How many identity files have been consumed.
    pub idx: usize,
    /// The plaintext awaiting a store confirmation.
    pub pending: Option<String>,
    /// Where the session stands.
    pub phase: Phase,
}

/// What finishing the identity-loading stage looks like: the null cache goes
/// straight to decryption; the directory cache probes its entry path, or fails
/// at once when the ciphertext path has no file name to derive a key from.
pub open spec fn finish_identities_spec(pre: Session, post: Session, st: Step) -> bool {
    match pre.cache {
        CacheSel::Null => post.phase is Decrypting && (st matches Step::NeedCiphertext { path }
            && path@ == pre.filename@),
        CacheSel::Temp(tc) => match entry_path_spec(tc, pre.filename@) {
            None => post.phase is Finished && (st matches Step::Done { result } && (
            result matches Err(e) && e is Path)),
            Some(p) => post.phase is Probing && (st matches Step::NeedProbe { path } && path@
                == p),
        },
    }
}

impl Session {
    /// The session's structural invariant: every constructor establishes it
    /// and every step preserves it.
    pub open spec fn wf(self) -> bool {
        &&& self.idx <= self.identity_paths.len()
        &&& self.skipped <= self.idx
        &&& (self.phase is Identities ==> self.idx < self.identity_paths.len())
        &&& (self.phase is Probing ==> self.cache is Temp && base_name_spec(self.filename@)
            is Some)
        &&& (self.phase is Storing ==> self.cache is Temp && base_name_spec(self.filename@)
            is Some && self.pending is Some)
        &&& (self.phase is Decrypting && self.cache is Temp ==> base_name_spec(self.filename@)
            is Some)
    }

    /// The phase, for callers that want to check what the session expects.
    pub fn phase(&self) -> (p: Phase)
        ensures
            p == self.phase,
    {
        self.phase
    }

    /// How many identity files were skipped as unreadable or unparsable.
    pub fn skipped_count(&self) -> (n: usize)
        ensures
            n == self.skipped,
    {
        self.skipped
    }

    /// Begins a decrypt call: the identity files to load, the ciphertext path,
    /// and the cache to work against. The returned step is the first request.
    pub fn start(identity_paths: Vec<String>, filename: String, cache: CacheSel) -> (r: (
        Session,
        Step,
    ))
        ensures
            r.0.wf(),
            r.0.identity_paths@ == identity_paths@,
            r.0.filename@ == filename@,
            r.0.cache == cache,
            ids_of(r.0.ids) == Seq::<Seq<char>>::empty(),
            r.0.skipped == 0,
            r.0.idx == 0,
            r.0.pending is None,
            identity_paths@.len() > 0 ==> r.0.phase is Identities && (
            r.1 matches Step::NeedIdentity { path } && path@ == identity_paths@[0]@),
            identity_paths@.len() == 0 ==> finish_identities_spec(r.0, r.0, r.1),
    {
        let mut s = Session {
            identity_paths,
            filename,
            cache,
            ids: IdentitySet::new(),
            skipped: 0,
            idx: 0,
            pending: None,
            phase: Phase::Identities,
        };
        let st = if s.idx < s.identity_paths.len() {
            let path = s.identity_paths[s.idx].clone();
            Step::NeedIdentity { path }
        } else {
            s.finish_identities()
        };
        (s, st)
    }

    /// Leaves the identity-loading stage once every identity file has been
    /// consumed.
    fn finish_identities(&mut self) -> (st: Step)
        requires
            old(self).idx == old(self).identity_paths@.len(),
            old(self).skipped <= old(self).idx,
        ensures
            final(self).wf(),
            finish_identities_spec(*old(self), *final(self), st),
            final(self).identity_paths == old(self).identity_paths,
            final(self).filename == old(self).filename,
            final(self).cache == old(self).cache,
            final(self).ids == old(self).ids,
            final(self).skipped == old(self).skipped,
            final(self).idx == old(self).idx,
            final(self).pending == old(self).pending,
    {
        match self.cache.probe_target(&self.filename) {
            Ok(None) => {
                self.phase = Phase::Decrypting;
                Step::NeedCiphertext { path: self.filename.clone() }
            },
            Ok(Some(entry)) => {
                self.phase = Phase::Probing;
                Step::NeedProbe { path: entry }
            },
            Err(e) => {
                self.phase = Phase::Finished;
                Step::Done { result: Err(e) }
            },
        }
    }

    /// Consumes one identity file's contents (`None`: it could not be read).
    /// A file that parses has its identities appended in file order, so the
    /// collection handed to decryption is the order-preserving flat
    /// concatenation of the per-file identities. A file that does not parse
    /// contributes no identities and is only counted in `skipped`; loading
    /// goes on with the next file, or leaves the identity stage when this was
    /// the last one.
    pub fn give_identity(&mut self, content: Option<String>) -> (st: Step)
        requires
            old(self).wf(),
            old(self).phase is Identities,
        ensures
            final(self).wf(),
            ({
                let parsed = match content {
                    Some(c) => file_ids(c@),
                    None => None,
                };
                &&& ids_of(final(self).ids) == (match parsed {
                    Some(m) => ids_of(old(self).ids) + m,
                    None => ids_of(old(self).ids),
                })
                &&& final(self).skipped == (if parsed is None {
                    old(self).skipped + 1
                } else {
                    old(self).skipped as int
                })
            }),
            final(self).idx == old(self).idx + 1,
            final(self).identity_paths == old(self).identity_paths,
            final(self).filename == old(self).filename,
            final(self).cache == old(self).cache,
            old(self).idx + 1 < old(self).identity_paths@.len() ==> final(self).phase is Identities && (
            st matches Step::NeedIdentity { path } && path@ == old(self).identity_paths@[old(
                self,
            ).idx + 1]@),
            old(self).idx + 1 == old(self).identity_paths@.len() ==> finish_identities_spec(
                *old(self),
                *final(self),
                st,
            ),
    {
        let parsed = match content {
            Some(c) => parse_identity_text(c.as_str()),
            None => None,
        };
        match parsed {
            Some(set) => {
                self.ids.absorb(set);
            },
            None => {
                self.skipped = self.skipped + 1;
            },
        }
        self.idx = self.idx + 1;
        if self.idx < self.identity_paths.len() {
            let path = self.identity_paths[self.idx].clone();
            Step::NeedIdentity { path }
        } else {
            self.finish_identities()
        }
    }

    /// Consumes the probe's outcome. A present entry finishes the call with
    /// the cached plaintext at once — nothing further is requested, so no
    /// decryption work happens on a hit. An absent entry is not an error: the
    /// call goes on to decrypt. A failed probe surfaces as a cache I/O error.
    pub fn give_entry_state(&mut self, found: EntryState) -> (st: Step)
        requires
            old(self).wf(),
            old(self).phase is Probing,
        ensures
            final(self).wf(),
            final(self).identity_paths == old(self).identity_paths,
            final(self).filename == old(self).filename,
            final(self).cache == old(self).cache,
            final(self).ids == old(self).ids,
            final(self).skipped == old(self).skipped,
            match found {
                EntryState::Present { content } => final(self).phase is Finished && (
                st matches Step::Done { result } && (result matches Ok(c) && c@ == content@)),
                EntryState::Absent => final(self).phase is Decrypting && (
                st matches Step::NeedCiphertext { path } && path@ == old(self).filename@),
                EntryState::Failed { message } => final(self).phase is Finished && (
                st matches Step::Done { result } && (result matches Err(e) && (
                e matches SecretError::CacheIo(m) && m@ == message@))),
            },
    {
        match found {
            EntryState::Present { content } => {
                self.phase = Phase::Finished;
                Step::Done { result: Ok(content) }
            },
            EntryState::Absent => {
                self.phase = Phase::Decrypting;
                Step::NeedCiphertext { path: self.filename.clone() }
            },
            EntryState::Failed { message } => {
                self.phase = Phase::Finished;
                Step::Done { result: Err(SecretError::CacheIo(message)) }
            },
        }
    }

    /// Consumes the ciphertext bytes (or the reason they could not be read)
    /// and decrypts with the loaded identities, tried in order. When the scan
    /// yields no plaintext — in particular when no identities were loaded at
    /// all — the call fails with a decryption error and nothing is ever
    /// stored. With the null cache a successful decryption finishes the call
    /// at once; with the directory cache the store plan is handed out first.
    pub fn give_ciphertext(&mut self, ct: Result<Vec<u8>, String>) -> (st: Step)
        requires
            old(self).wf(),
            old(self).phase is Decrypting,
        ensures
            final(self).wf(),
            final(self).identity_paths == old(self).identity_paths,
            final(self).filename == old(self).filename,
            final(self).cache == old(self).cache,
            final(self).ids == old(self).ids,
            final(self).skipped == old(self).skipped,
            ct is Ok && ids_of(old(self).ids).len() == 0 ==> (final(self).phase is Finished && (
            st matches Step::Done { result } && (result matches Err(e) && e is Decryption))),
            match ct {
                Err(m) => final(self).phase is Finished && (st matches Step::Done { result } && (
                result matches Err(e) && (e matches SecretError::Decryption(msg) && msg@ == m@))),
                Ok(bytes) => match decrypt_result(bytes@, ids_of(old(self).ids)) {
                    None => final(self).phase is Finished && (st matches Step::Done { result } && (
                    result matches Err(e) && e is Decryption)),
                    Some(pt) => match old(self).cache {
                        CacheSel::Null => final(self).phase is Finished && (
                        st matches Step::Done { result } && (result matches Ok(s) && s@ == pt)),
                        CacheSel::Temp(tc) => final(self).phase is Storing && (
                        final(self).pending matches Some(s) && s@ == pt) && (
                        st matches Step::NeedStore { ops } && ops@.map_values(
                            |op: FsOp| op.model(),
                        ) == plan_model(tc, old(self).filename@, pt)),
                    },
                },
            },
    {
        let bytes = match ct {
            Ok(b) => b,
            Err(m) => {
                self.phase = Phase::Finished;
                return Step::Done { result: Err(SecretError::Decryption(m)) };
            },
        };
        match decrypt_bytes(bytes.as_slice(), &self.ids) {
            Err(m) => {
                self.phase = Phase::Finished;
                Step::Done { result: Err(SecretError::Decryption(m)) }
            },
            Ok(plaintext) => match &self.cache {
                CacheSel::Null => {
                    self.phase = Phase::Finished;
                    Step::Done { result: Ok(plaintext) }
                },
                CacheSel::Temp(tc) => match tc.create_plan(&self.filename, plaintext.as_str()) {
                    Ok(ops) => {
                        self.pending = Some(plaintext);
                        self.phase = Phase::Storing;
                        Step::NeedStore { ops }
                    },
                    Err(_) => unreached(),
                },
            },
        }
    }

    /// Consumes the store plan's outcome: success finishes the call with the
    /// plaintext that was just persisted; a failure surfaces as a cache I/O
    /// error (never silently as a miss).
    pub fn give_store_result(&mut self, outcome: Result<(), String>) -> (st: Step)
        requires
            old(self).wf(),
            old(self).phase is Storing,
        ensures
            final(self).wf(),
            final(self).phase is Finished,
            final(self).identity_paths == old(self).identity_paths,
            final(self).filename == old(self).filename,
            final(self).cache == old(self).cache,
            final(self).ids == old(self).ids,
            final(self).skipped == old(self).skipped,
            match outcome {
                Ok(_) => st matches Step::Done { result } && (result matches Ok(s) && (old(
                    self,
                ).pending matches Some(p) && s@ == p@)),
                Err(m) => st matches Step::Done { result } && (result matches Err(e) && (
                e matches SecretError::CacheIo(msg) && msg@ == m@)),
            },
    {
        self.phase = Phase::Finished;
        match outcome {
            Err(m) => Step::Done { result: Err(SecretError::CacheIo(m)) },
            Ok(_) => {
                let p = self.pending.take();
                match p {
                    Some(plaintext) => Step::Done { result: Ok(plaintext) },
                    None => unreached(),
                }
            },
        }
    }
}

/// The null cache has zero file-system footprint: a session over it never
/// reaches the storing phase — the only phase that hands out file-system
/// operations — and the store plan it would be asked for is empty anyway
/// (see `CacheSel::store_plan`).
pub proof fn lemma_null_cache_never_stores(s: Session)
    requires
        s.wf(),
        s.cache is Null,
    ensures
        !(s.phase is Storing),
        !(s.phase is Probing),
{
}

/// Idempotent round trip: a caching run's store plan writes the decrypted
/// plaintext exactly at the entry path every later run over the same cache and
/// ciphertext path probes, with owner-only mode — so a later run finds it,
/// and by `give_entry_state`'s contract finishes at once with that identical
/// plaintext, performing no decryption work.
pub proof fn lemma_idempotent_round_trip(tc: TempCache, path: Seq<char>, plaintext: Seq<char>)
    requires
        base_name_spec(path) is Some,
    ensures
        entry_path_spec(tc, path) is Some,
        plan_model(tc, path, plaintext)[2] matches FsOpModel::WriteFile { path: wp, mode, content }
            && Some(wp) == entry_path_spec(tc, path) && mode == 0o700 && content == plaintext,
{
}

} // verus!
