//! The secret cache: a no-op variant with zero file-system footprint, and a
//! per-user directory cache under a shared root.
//!
//! Everything that decides is verified here: how an entry path is derived from
//! a ciphertext path (digest of the whole path, then the file name, so a
//! directory listing does not reveal the source name without the preimage),
//! which directories are brought up in which order, and with which permission
//! modes. The cache speaks in terms of [`FsOp`] plans; the embedding program
//! performs them, tolerating already-existing directories.

use vstd::prelude::*;
use vstd::string::StrSliceExecFns;
use vstd::string::StringExecFns;

use crate::errors::SecretError;
use crate::paths::base_name;
use crate::paths::base_name_spec;
use crate::paths::dec_seq;
use crate::paths::lemma_concat_cancel_left;
use crate::paths::lemma_dec_seq_injective;
use crate::paths::lemma_dec_seq_no_slash;
use crate::paths::lemma_split_at_sep;
use crate::paths::u32_to_dec;

verus! {

broadcast use vstd::string::group_string_axioms;

/// The SHA-256 digest of a text, in hexadecimal. What it is on given
/// characters only the hash itself determines; the library relies on it being
/// a function of the text alone.
pub uninterp spec fn sha256_hex(s: Seq<char>) -> Seq<char>;

/// A lowercase hexadecimal digit, the alphabet a digest is rendered in.
pub open spec fn hex_digit(c: char) -> bool {
    ('0' <= c && c <= '9') || ('a' <= c && c <= 'f')
}

/// Relies on sha256::digest: the hexadecimal SHA-256 digest of the input text,
/// a function of the text alone, always 64 lowercase hexadecimal characters (a
/// digest is 32 bytes, hex-encoded).
#[verifier::external_body]
fn sha256_hex_digest(s: &str) -> (r: String)
    ensures
        r@ == sha256_hex(s@),
        r@.len() == 64,
        forall|i: int| 0 <= i < r@.len() ==> hex_digit(#[trigger] r@[i]),
{
    sha256::digest(s)
}

/// Relies on users::get_effective_uid: the effective user id of the running
/// process. Nothing is assumed of the value.
#[verifier::external_body]
fn current_uid() -> (r: u32)
{
    users::get_effective_uid()
}

/// Relies on tempfile::env::temp_dir: the platform's temporary-directory
/// convention. None when that path is not valid text. Nothing is assumed of
/// the value.
#[verifier::external_body]
fn default_temp_dir() -> (r: Option<String>)
{
    tempfile::env::temp_dir().to_str().map(|s| s.to_string())
}

/// One file-system operation of a store plan. `mode` is a Unix permission
/// word; creating a directory that already exists counts as success.
pub enum FsOp {
    MakeDir { path: String, mode: u32 },
    WriteFile { path: String, mode: u32, content: String },
}

/// The mathematical shape of an [`FsOp`], over character sequences.
pub enum FsOpModel {
    MakeDir { path: Seq<char>, mode: u32 },
    WriteFile { path: Seq<char>, mode: u32, content: Seq<char> },
}

impl FsOp {
    pub open spec fn model(self) -> FsOpModel {
        match self {
            FsOp::MakeDir { path, mode } => FsOpModel::MakeDir { path: path@, mode },
            FsOp::WriteFile { path, mode, content } => FsOpModel::WriteFile {
                path: path@,
                mode,
                content: content@,
            },
        }
    }
}

/// The per-user temporary-directory cache. `dir` is the temporary directory
/// the cache root lives under; `root_override` replaces the whole cache root
/// when supplied; `uid` names the per-user subdirectory.
pub struct TempCache {
    pub dir: String,
    pub root_override: Option<String>,
    pub uid: u32,
}

/// The shared cache root: a fixed name under the temporary directory, or the
/// supplied override.
pub open spec fn base_path_spec(tc: TempCache) -> Seq<char> {
    match tc.root_override {
        Some(r) => r@,
        None => tc.dir@ + "/nix-rage-cache"@,
    }
}

/// The per-user subdirectory: the cache root, then the user id in decimal.
pub open spec fn user_path_spec(tc: TempCache) -> Seq<char> {
    base_path_spec(tc) + "/"@ + dec_seq(tc.uid as nat)
}

/// The cache key for a ciphertext path: the digest of the whole path, a dash,
/// then the path's file name. None when the path has no file name.
pub open spec fn cache_key_spec(path: Seq<char>) -> Option<Seq<char>> {
    match base_name_spec(path) {
        Some(n) => Some(sha256_hex(path) + "-"@ + n),
        None => None,
    }
}

/// Where the entry for a ciphertext path lives: the per-user subdirectory,
/// then the cache key.
pub open spec fn entry_path_spec(tc: TempCache, path: Seq<char>) -> Option<Seq<char>> {
    match cache_key_spec(path) {
        Some(k) => Some(user_path_spec(tc) + "/"@ + k),
        None => None,
    }
}

/// The operations that persist `content` for `path`: bring up the shared root
/// (anyone may create their own subdirectory under it), bring up the per-user
/// directory owner-only, then write the entry owner-only.
pub open spec fn plan_model(tc: TempCache, path: Seq<char>, content: Seq<char>) -> Seq<FsOpModel>
    recommends
        base_name_spec(path) is Some,
{
    seq![
        FsOpModel::MakeDir { path: base_path_spec(tc), mode: 0o222 },
        FsOpModel::MakeDir { path: user_path_spec(tc), mode: 0o700 },
        FsOpModel::WriteFile {
            path: match entry_path_spec(tc, path) {
                Some(p) => p,
                None => Seq::empty(),
            },
            mode: 0o700,
            content: content,
        },
    ]
}

impl TempCache {
    /// A cache under the given temporary directory, for the given user id.
    pub fn new(dir: String, uid: u32) -> (r: TempCache)
        ensures
            r.dir@ == dir@,
            r.root_override is None,
            r.uid == uid,
    {
        TempCache { dir, root_override: None, uid }
    }

    /// A cache whose root is exactly `root`, for the given user id.
    pub fn with_root(root: String, uid: u32) -> (r: TempCache)
        ensures
            base_path_spec(r) == root@,
            r.uid == uid,
    {
        TempCache { dir: String::new(), root_override: Some(root), uid }
    }

    /// The shared cache root directory.
    pub fn get_base_cache_path(&self) -> (r: String)
        ensures
            r@ == base_path_spec(*self),
    {
        match &self.root_override {
            Some(root) => root.clone(),
            None => {
                let mut p = self.dir.clone();
                p.append("/nix-rage-cache");
                p
            },
        }
    }

    /// The per-user cache directory.
    pub fn get_user_cache_path(&self) -> (r: String)
        ensures
            r@ == user_path_spec(*self),
    {
        let mut p = self.get_base_cache_path();
        p.append("/");
        let u = u32_to_dec(self.uid);
        p.append(u.as_str());
        p
    }

    /// The entry path for a ciphertext path, or `SecretError::Path` when the
    /// path has no file name to derive a key from.
    pub fn gen_cache_path(&self, path: &str) -> (r: Result<String, SecretError>)
        ensures
            r is Ok <==> base_name_spec(path@) is Some,
            r matches Ok(p) ==> entry_path_spec(*self, path@) == Some(p@),
            r matches Err(e) ==> e is Path,
    {
        let digest = sha256_hex_digest(path);
        match base_name(path) {
            None => Err(SecretError::Path),
            Some(n) => {
                let mut p = self.get_user_cache_path();
                p.append("/");
                p.append(digest.as_str());
                p.append("-");
                p.append(n.as_str());
                proof {
                    assert(p@ =~= user_path_spec(*self) + "/"@ + (sha256_hex(path@) + "-"@
                        + n@));
                }
                Ok(p)
            },
        }
    }

    /// The operations that persist `content` for `path`, or
    /// `SecretError::Path` when no key can be derived.
    pub fn create_plan(&self, path: &str, content: &str) -> (r: Result<Vec<FsOp>, SecretError>)
        ensures
            r is Ok <==> base_name_spec(path@) is Some,
            r matches Ok(ops) ==> ops@.map_values(|op: FsOp| op.model()) == plan_model(
                *self,
                path@,
                content@,
            ),
            r matches Err(e) ==> e is Path,
    {
        match self.gen_cache_path(path) {
            Err(e) => Err(e),
            Ok(entry) => {
                let mut ops: Vec<FsOp> = Vec::new();
                ops.push(FsOp::MakeDir { path: self.get_base_cache_path(), mode: 0o222 });
                ops.push(FsOp::MakeDir { path: self.get_user_cache_path(), mode: 0o700 });
                ops.push(
                    FsOp::WriteFile {
                        path: entry,
                        mode: 0o700,
                        content: String::from_str(content),
                    },
                );
                proof {
                    assert(ops@.map_values(|op: FsOp| op.model()) =~= plan_model(
                        *self,
                        path@,
                        content@,
                    ));
                }
                Ok(ops)
            },
        }
    }
}

impl Default for TempCache {
    /// The cache a caller gets by default: rooted under the platform's
    /// temporary directory (falling back to `/tmp` when that path is not
    /// text), for the current user.
    fn default() -> (r: TempCache)
        ensures
            r.root_override is None,
    {
        let dir = match default_temp_dir() {
            Some(d) => d,
            None => String::from_str("/tmp"),
        };
        TempCache { dir, root_override: None, uid: current_uid() }
    }
}

/// The cache capability the orchestrator works against: disabled, or the
/// per-user directory cache.
pub enum CacheSel {
    Null,
    Temp(TempCache),
}

impl CacheSel {
    /// Where a previously cached entry would be found. The null cache has no
    /// entries and nothing to probe; the directory cache names its entry path.
    pub fn probe_target(&self, path: &str) -> (r: Result<Option<String>, SecretError>)
        ensures
            self is Null ==> (r matches Ok(t) && t is None),
            self matches CacheSel::Temp(tc) ==> {
                &&& r is Ok <==> base_name_spec(path@) is Some
                &&& (r matches Ok(t) ==> t matches Some(p) && entry_path_spec(*tc, path@) == Some(
                    p@,
                ))
                &&& (r matches Err(e) ==> e is Path)
            },
    {
        match self {
            CacheSel::Null => Ok(None),
            CacheSel::Temp(tc) => match tc.gen_cache_path(path) {
                Ok(p) => Ok(Some(p)),
                Err(e) => Err(e),
            },
        }
    }

    /// The operations that persist `content` for `path`. The null cache
    /// persists nothing: its plan is empty.
    pub fn store_plan(&self, path: &str, content: &str) -> (r: Result<Vec<FsOp>, SecretError>)
        ensures
            self is Null ==> (r matches Ok(ops) && ops@.len() == 0),
            self matches CacheSel::Temp(tc) ==> {
                &&& r is Ok <==> base_name_spec(path@) is Some
                &&& (r matches Ok(ops) ==> ops@.map_values(|op: FsOp| op.model()) == plan_model(
                    *tc,
                    path@,
                    content@,
                ))
                &&& (r matches Err(e) ==> e is Path)
            },
    {
        match self {
            CacheSel::Null => Ok(Vec::new()),
            CacheSel::Temp(tc) => tc.create_plan(path, content),
        }
    }
}

/// Selects the cache variant: the per-user directory cache when caching is
/// enabled (rooted at `root` when one is supplied), the null cache otherwise.
pub fn select_cache(enabled: bool, root: Option<String>) -> (c: CacheSel)
    ensures
        !enabled ==> c is Null,
        enabled ==> c is Temp,
        enabled ==> (root matches Some(r) ==> c matches CacheSel::Temp(tc) && base_path_spec(tc)
            == r@),
        enabled && root is None ==> (c matches CacheSel::Temp(tc) && tc.root_override is None),
{
    if enabled {
        match root {
            Some(r) => CacheSel::Temp(TempCache::with_root(r, current_uid())),
            None => CacheSel::Temp(TempCache::default()),
        }
    } else {
        CacheSel::Null
    }
}

/// Cache isolation: under one shared root, two distinct user ids get distinct
/// per-user directories and distinct entry paths — whatever the ciphertext
/// paths — and the store plan creates the per-user directory and the entry
/// itself with owner-only mode.
pub proof fn lemma_cache_isolation(
    tc1: TempCache,
    tc2: TempCache,
    p1: Seq<char>,
    p2: Seq<char>,
    c1: Seq<char>,
)
    requires
        tc1.uid != tc2.uid,
        base_path_spec(tc1) == base_path_spec(tc2),
        base_name_spec(p1) is Some,
        base_name_spec(p2) is Some,
    ensures
        user_path_spec(tc1) != user_path_spec(tc2),
        entry_path_spec(tc1, p1) != entry_path_spec(tc2, p2),
        plan_model(tc1, p1, c1).len() == 3,
        plan_model(tc1, p1, c1)[0] == (FsOpModel::MakeDir { path: base_path_spec(tc1), mode: 0o222 }),
        plan_model(tc1, p1, c1)[1] == (FsOpModel::MakeDir { path: user_path_spec(tc1), mode: 0o700 }),
        plan_model(tc1, p1, c1)[2] matches FsOpModel::WriteFile { path, mode, content } && mode
            == 0o700 && content == c1,
{
    reveal_strlit("/");
    let base = base_path_spec(tc1);
    let d1 = dec_seq(tc1.uid as nat);
    let d2 = dec_seq(tc2.uid as nat);
    lemma_dec_seq_no_slash(tc1.uid as nat);
    lemma_dec_seq_no_slash(tc2.uid as nat);
    assert("/"@ =~= seq!['/']);
    if user_path_spec(tc1) == user_path_spec(tc2) {
        lemma_concat_cancel_left(base + "/"@, d1, d2);
        lemma_dec_seq_injective(tc1.uid as nat, tc2.uid as nat);
    }
    let k1 = match cache_key_spec(p1) {
        Some(k) => k,
        None => Seq::empty(),
    };
    let k2 = match cache_key_spec(p2) {
        Some(k) => k,
        None => Seq::empty(),
    };
    if entry_path_spec(tc1, p1) == entry_path_spec(tc2, p2) {
        let e1 = user_path_spec(tc1) + "/"@ + k1;
        let e2 = user_path_spec(tc2) + "/"@ + k2;
        assert(e1 == e2);
        assert(e1 =~= (base + "/"@) + (d1 + seq!['/'] + k1));
        assert(e2 =~= (base + "/"@) + (d2 + seq!['/'] + k2));
        lemma_concat_cancel_left(base + "/"@, d1 + seq!['/'] + k1, d2 + seq!['/'] + k2);
        lemma_split_at_sep(d1, k1, d2, k2, '/');
        lemma_dec_seq_injective(tc1.uid as nat, tc2.uid as nat);
    }
}

/// Practical key-derivation injectivity: two paths can only share a cache key
/// by sharing their digest (and their file name). Since the digests have one
/// length, a key collision is a SHA-256 collision.
pub proof fn lemma_key_collision_needs_digest_collision(p1: Seq<char>, p2: Seq<char>)
    requires
        base_name_spec(p1) is Some,
        base_name_spec(p2) is Some,
        cache_key_spec(p1) == cache_key_spec(p2),
        sha256_hex(p1).len() == sha256_hex(p2).len(),
    ensures
        sha256_hex(p1) == sha256_hex(p2),
        base_name_spec(p1) == base_name_spec(p2),
{
    let h1 = sha256_hex(p1);
    let h2 = sha256_hex(p2);
    let n1 = match base_name_spec(p1) {
        Some(n) => n,
        None => Seq::empty(),
    };
    let n2 = match base_name_spec(p2) {
        Some(n) => n,
        None => Seq::empty(),
    };
    let k1 = h1 + "-"@ + n1;
    let k2 = h2 + "-"@ + n2;
    assert(k1 == k2);
    assert(h1 =~= h2) by {
        assert(forall|i: int| 0 <= i < h1.len() ==> h1[i] == k1[i]);
        assert(forall|i: int| 0 <= i < h2.len() ==> h2[i] == k2[i]);
    }
    lemma_concat_cancel_left(h1 + "-"@, n1, n2);
}

} // verus!
