//! The cache of OCA files already built: it maps the hash of an OCA file's
//! text to the SAID of the bundle built from it, kept in a `kv` store so that
//! it outlives the process.

use vstd::prelude::*;
use crate::hashing::{compute_hash, content_hash};
use crate::said_param::{said_failure, said_failure_reason, said_text_valid};

verus! {

#[verifier::external_type_specification]
#[verifier::external_body]
pub struct ExKvStore(kv::Store);

#[verifier::external_type_specification]
#[verifier::external_body]
pub struct ExKvError(kv::Error);

/// The bucket of a `kv` store in which the cache keeps its entries: keys are
/// content hashes, values are SAIDs stored as JSON strings.
#[verifier::external_body]
pub struct SaidBucket {
    inner: kv::Bucket<'static, String, kv::Json<String>>,
}

/// The entries of the bucket as seen through this handle: each key with the
/// text that its stored JSON string holds.
pub uninterp spec fn bucket_entries(bucket: SaidBucket) -> Map<Seq<char>, Seq<char>>;

/// The entries of the bucket that its last flush wrote to disk.
pub uninterp spec fn bucket_persisted(bucket: SaidBucket) -> Map<Seq<char>, Seq<char>>;

/// The name the bucket was opened with.
pub uninterp spec fn bucket_name(bucket: SaidBucket) -> Seq<char>;

/// The path of the directory that holds the store (what `kv::Store::path`
/// gives).
pub uninterp spec fn store_path(store: kv::Store) -> Seq<char>;

/// Calls `kv::Store::new` on `kv::Config::new(path)`, which opens or creates
/// the store in that directory. Trusted: an opened store is the one at
/// `path` (`Config::new` keeps the path, `Store::path` gives it back);
/// whether opening succeeds depends on the disk and is not claimed.
#[verifier::external_body]
fn open_store(path: &str) -> (res: Result<kv::Store, kv::Error>)
    ensures
        res matches Ok(store) ==> store_path(store) == path@,
{
    kv::Store::new(kv::Config::new(path))
}

/// Calls `kv::Store::bucket` with the given bucket name. Trusted: an opened
/// bucket has that name; nothing is claimed of its entries, which are
/// whatever the disk holds.
#[verifier::external_body]
fn open_said_bucket(store: &kv::Store, name: &str) -> (res: Result<SaidBucket, kv::Error>)
    ensures
        res matches Ok(bucket) ==> bucket_name(bucket) == name@,
{
    match store.bucket::<String, kv::Json<String>>(Some(name)) {
        Ok(inner) => Ok(SaidBucket { inner }),
        Err(e) => Err(e),
    }
}

/// Calls `kv::Bucket::get`. Trusted: a value that comes back is the entry of
/// the key, and `None` comes back only for a key without an entry. An error
/// (I/O, or a stored value that is no JSON string) says nothing.
#[verifier::external_body]
fn bucket_get(bucket: &SaidBucket, key: &String) -> (res: Result<Option<String>, kv::Error>)
    ensures
        res matches Ok(Some(v)) ==> bucket_entries(*bucket).contains_key(key@)
            && bucket_entries(*bucket)[key@] == v@,
        res matches Ok(None) ==> !bucket_entries(*bucket).contains_key(key@),
{
    match bucket.inner.get(key) {
        Ok(found) => Ok(found.map(|json| json.0)),
        Err(e) => Err(e),
    }
}

/// Calls `kv::Bucket::set` with the value wrapped in `kv::Json`. Trusted:
/// when it succeeds, the key's entry is the value and no other entry changed.
/// `set` writes through a shared handle; the claim holds for the bucket as
/// long as no other handle writes to the same tree. On an error nothing is
/// claimed of the entries: the write may or may not have happened. The
/// bucket keeps its name; what is on disk is not claimed.
#[verifier::external_body]
fn bucket_set(bucket: &mut SaidBucket, key: &String, value: &String) -> (res: Result<(), kv::Error>)
    ensures
        bucket_name(*final(bucket)) == bucket_name(*old(bucket)),
        res is Ok ==> bucket_entries(*final(bucket)) == bucket_entries(*old(bucket)).insert(
            key@,
            value@,
        ),
{
    match bucket.inner.set(key, &kv::Json(value.clone())) {
        Ok(_) => Ok(()),
        Err(e) => Err(e),
    }
}

/// Calls `kv::Bucket::flush`, which writes pending changes to disk and syncs
/// it. Trusted: the entries and the name stay; when it succeeds, what is on
/// disk is the entries.
#[verifier::external_body]
fn bucket_flush(bucket: &mut SaidBucket) -> (res: Result<(), kv::Error>)
    ensures
        bucket_entries(*final(bucket)) == bucket_entries(*old(bucket)),
        bucket_name(*final(bucket)) == bucket_name(*old(bucket)),
        res is Ok ==> bucket_persisted(*final(bucket)) == bucket_entries(*final(bucket)),
{
    match bucket.inner.flush() {
        Ok(_) => Ok(()),
        Err(e) => Err(e),
    }
}

/// Renders a `kv::Error` with its `Display`. Trusted: nothing is claimed of
/// the text.
#[verifier::external_body]
fn kv_error_text(error: &kv::Error) -> String {
    error.to_string()
}

/// The name of the bucket that holds the cache.
pub const BUILT_BUCKET: &'static str = "already_built";

/// A failure of the cache, with its message: the store failed (and its
/// error is kept), or a filed value is no SAID.
#[derive(Debug)]
pub struct CacheError {
    pub message: String,
    pub store_error: Option<kv::Error>,
}

impl CacheError {
    /// Whether the failure is one the store reported.
    pub open spec fn from_store(&self) -> bool {
        self.store_error is Some
    }
}

/// The cache failure for an error of the store, which it keeps.
fn cache_error(error: kv::Error) -> (failure: CacheError)
    ensures
        failure.from_store(),
{
    let message = kv_error_text(&error);
    CacheError { message, store_error: Some(error) }
}

/// Remembers, for each OCA file already built, the SAID of its bundle.
pub struct OCAFilesCache {
    store: kv::Store,
    bucket: SaidBucket,
    filing_failed: Ghost<bool>,
}

impl View for OCAFilesCache {
    type V = Map<Seq<char>, Seq<char>>;

    /// The entries: content hash to SAID.
    closed spec fn view(&self) -> Map<Seq<char>, Seq<char>> {
        bucket_entries(self.bucket)
    }
}

/// The SAID filed under the hash of `ocafile` in `entries`, if any.
pub open spec fn cached_said(entries: Map<Seq<char>, Seq<char>>, ocafile: Seq<char>) -> Option<
    Seq<char>,
> {
    if entries.contains_key(content_hash(ocafile)) {
        Some(entries[content_hash(ocafile)])
    } else {
        None
    }
}

/// The message for a filed value that is no SAID, as the store's JSON
/// decoding of a SAID reports it.
pub open spec fn stored_said_message(reason: Seq<char>) -> Seq<char> {
    "JSON error: "@ + reason
}

/// The answer of a lookup, given what the bucket gave back: a filed SAID is
/// the answer; a filed value that is no SAID is an error that says why; no
/// entry is no answer; a failing store is an error.
pub fn lookup_answer(found: Result<Option<String>, kv::Error>) -> (res: Result<
    Option<String>,
    CacheError,
>)
    ensures
        match found {
            Ok(Some(s)) => if said_text_valid(s@) {
                res matches Ok(Some(r)) && r@ == s@
            } else {
                res matches Err(e) && e.message@ == stored_said_message(
                    said_failure_reason(s@)->0,
                ) && !e.from_store()
            },
            Ok(None) => res matches Ok(None),
            Err(_) => res matches Err(e) && e.from_store(),
        },
{
    match found {
        Ok(Some(said)) => match said_failure(said.as_str()) {
            None => Ok(Some(said)),
            Some(reason) => {
                let message = String::from_str("JSON error: ");
                Err(CacheError { message: message.concat(reason.as_str()), store_error: None })
            },
        },
        Ok(None) => Ok(None),
        Err(e) => Err(cache_error(e)),
    }
}

/// What `get` may answer for `file` on the entries `entries`.
pub open spec fn get_outcome(
    entries: Map<Seq<char>, Seq<char>>,
    file: Seq<char>,
    res: Result<Option<String>, CacheError>,
) -> bool {
    &&& res matches Ok(found) ==> match found {
        Some(said) => cached_said(entries, file) == Some(said@) && said_text_valid(said@),
        None => cached_said(entries, file) is None,
    }
    &&& (cached_said(entries, file) matches Some(text) && !said_text_valid(text) ==> res is Err)
    &&& (res matches Err(e) ==> e.from_store() || (cached_said(entries, file) matches Some(text)
        && !said_text_valid(text)))
}

impl OCAFilesCache {
    /// The directory that holds the store.
    pub closed spec fn path(&self) -> Seq<char> {
        store_path(self.store)
    }

    /// The name of the bucket that holds the entries.
    pub closed spec fn bucket_name(&self) -> Seq<char> {
        bucket_name(self.bucket)
    }

    /// Whether the last filing (`insert`) failed in the store.
    pub closed spec fn last_filing_failed(&self) -> bool {
        self.filing_failed@
    }

    /// The entries as last written to disk.
    pub closed spec fn persisted(&self) -> Map<Seq<char>, Seq<char>> {
        bucket_persisted(self.bucket)
    }

    /// Opens (or creates) the cache stored at `path`, in its
    /// `already_built` bucket. What it already holds is whatever an earlier
    /// run left there.
    pub fn new(path: &str) -> (res: Result<Self, CacheError>)
        ensures
            res matches Ok(cache) ==> cache.path() == path@ && cache.bucket_name()
                == "already_built"@ && !cache.last_filing_failed(),
            res matches Err(e) ==> e.from_store(),
    {
        let store = match open_store(path) {
            Ok(store) => store,
            Err(e) => return Err(cache_error(e)),
        };
        let bucket = match open_said_bucket(&store, BUILT_BUCKET) {
            Ok(bucket) => bucket,
            Err(e) => return Err(cache_error(e)),
        };
        Ok(OCAFilesCache { store, bucket, filing_failed: Ghost(false) })
    }

    /// Files `said` under the hash of `oca_file` and flushes the store.
    /// On success the entry is there, no other entry changed, and the
    /// entries are on disk. It fails only when the store fails.
    pub fn insert(&mut self, oca_file: &str, said: &str) -> (res: Result<(), CacheError>)
        ensures
            final(self).path() == old(self).path(),
            final(self).bucket_name() == old(self).bucket_name(),
            final(self).last_filing_failed() == res is Err,
            res is Ok ==> final(self)@ == old(self)@.insert(content_hash(oca_file@), said@),
            res is Ok ==> final(self).persisted() == final(self)@,
            res matches Err(e) ==> e.from_store(),
    {
        let hash = compute_hash(oca_file);
        let value = String::from_str(said);
        match bucket_set(&mut self.bucket, &hash, &value) {
            Ok(()) => {},
            Err(e) => {
                self.filing_failed = Ghost(true);
                return Err(cache_error(e));
            },
        }
        match bucket_flush(&mut self.bucket) {
            Ok(()) => {
                self.filing_failed = Ghost(false);
                Ok(())
            },
            Err(e) => {
                self.filing_failed = Ghost(true);
                Err(cache_error(e))
            },
        }
    }

    /// The SAID filed for `oca_file`, if any. A filed value that is no SAID
    /// is an error.
    pub fn get(&self, oca_file: &str) -> (res: Result<Option<String>, CacheError>)
        ensures
            res matches Ok(found) ==> match found {
                Some(said) => cached_said(self@, oca_file@) == Some(said@) && said_text_valid(
                    said@,
                ),
                None => cached_said(self@, oca_file@) is None,
            },
            cached_said(self@, oca_file@) matches Some(text) && !said_text_valid(text) ==> res is Err,
            res matches Err(e) ==> e.from_store() || (cached_said(self@, oca_file@) matches Some(
                text,
            ) && !said_text_valid(text)),
            get_outcome(self@, oca_file@, res),
    {
        let hash = compute_hash(oca_file);
        lookup_answer(bucket_get(&self.bucket, &hash))
    }
}

/// A lookup fails only when the store fails: when the store answers, a
/// filed SAID is returned as it is, and a file without an entry has no
/// answer. (`get`'s contract is the relation between the entries and the
/// result that this lemma reads off.)
pub proof fn lemma_lookup_fails_only_in_store(
    entries: Map<Seq<char>, Seq<char>>,
    file: Seq<char>,
    res: Result<Option<String>, CacheError>,
)
    requires
        get_outcome(entries, file, res),
        res matches Err(e) ==> !e.from_store(),
    ensures
        forall|t: Seq<char>|
            cached_said(entries, file) == Some(t) && said_text_valid(t) ==> (res matches Ok(
                Some(r),
            ) && r@ == t),
        cached_said(entries, file) is None ==> res matches Ok(None),
{
}

/// What a read gives back of a write: once `said` is filed for `file`, the
/// cache answers `said` for that file, and for every file of another hash
/// it answers what it answered before.
pub proof fn lemma_get_returns_inserted(
    before: Map<Seq<char>, Seq<char>>,
    after: Map<Seq<char>, Seq<char>>,
    file: Seq<char>,
    said: Seq<char>,
    other: Seq<char>,
)
    requires
        after == before.insert(content_hash(file), said),
    ensures
        cached_said(after, file) == Some(said),
        content_hash(other) != content_hash(file) ==> cached_said(after, other) == cached_said(
            before,
            other,
        ),
{
}

} // verus!
