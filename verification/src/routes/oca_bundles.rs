//! Adding OCA files, searching bundles, and the parameters of the bundle
//! routes.

use vstd::prelude::*;
use vstd::utf8::*;
use crate::cache::{cached_said, CacheError, OCAFilesCache};
use crate::hashing::content_hash;
use crate::language::{iso_language_code, language_of_tag};
use crate::text::{before_dash, opt_text, texts};

verus! {

/// The message of the `FromUtf8Error` that `String::from_utf8` gives for
/// the bytes, as its `Display` renders it.
pub uninterp spec fn utf8_error_text(bytes: Seq<u8>) -> Seq<char>;

/// Calls std's `String::from_utf8`, rendering a refusal with its `Display`.
/// Trusted: it succeeds exactly on valid UTF-8 (vstd's `valid_utf8`), gives
/// the decoded characters, and a refusal carries the named message.
#[verifier::external_body]
fn string_from_utf8(bytes: &[u8]) -> (res: Result<String, String>)
    ensures
        res is Ok <==> valid_utf8(bytes@),
        res matches Ok(s) ==> s@ == decode_utf8(bytes@),
        res matches Err(m) ==> m@ == utf8_error_text(bytes@),
{
    match String::from_utf8(bytes.to_vec()) {
        Ok(s) => Ok(s),
        Err(e) => Err(e.to_string()),
    }
}

/// What the route that adds an OCA file answers.
pub enum AddOcaFileReply {
    /// 422: the body is no OCA file; the messages say why.
    Unprocessable { errors: Vec<String> },
    /// 200: the SAID of the bundle built from the file, now or earlier.
    Accepted { said: String },
    /// 200: the bundle could not be built; the builder's errors.
    Rejected { errors: Vec<String> },
    /// 500: the store under the cache failed; its message.
    StorageFailure { message: String },
}

impl AddOcaFileReply {
    /// The HTTP status of the reply.
    pub fn status(&self) -> (code: u16)
        ensures
            code == match self {
                AddOcaFileReply::Unprocessable { .. } => 422u16,
                AddOcaFileReply::Accepted { .. } => 200u16,
                AddOcaFileReply::Rejected { .. } => 200u16,
                AddOcaFileReply::StorageFailure { .. } => 500u16,
            },
    {
        match self {
            AddOcaFileReply::Unprocessable { .. } => 422,
            AddOcaFileReply::Accepted { .. } => 200,
            AddOcaFileReply::Rejected { .. } => 200,
            AddOcaFileReply::StorageFailure { .. } => 500,
        }
    }
}

/// Where adding an OCA file stands after its body has been checked and the
/// cache consulted: answered already, or waiting for the bundle to be built.
pub enum AddOcaFileStep {
    Reply(AddOcaFileReply),
    Build { ocafile: String },
}

/// The message for an empty OCA file.
pub open spec fn empty_ocafile_message() -> Seq<char> {
    "OCA File can't be empty"@
}

/// What checking the body `body` against the cache entries `entries` may
/// lead to.
pub open spec fn add_oca_file_step(
    entries: Map<Seq<char>, Seq<char>>,
    body: Seq<u8>,
    step: AddOcaFileStep,
) -> bool {
    if !valid_utf8(body) {
        step matches AddOcaFileStep::Reply(AddOcaFileReply::Unprocessable { errors })
            && texts(errors@) == seq![utf8_error_text(body)]
    } else if decode_utf8(body).len() == 0 {
        step matches AddOcaFileStep::Reply(AddOcaFileReply::Unprocessable { errors })
            && texts(errors@) == seq![empty_ocafile_message()]
    } else {
        let ocafile = decode_utf8(body);
        match step {
            AddOcaFileStep::Reply(AddOcaFileReply::Accepted { said }) => cached_said(
                entries,
                ocafile,
            ) == Some(said@),
            AddOcaFileStep::Build { ocafile: text } => text@ == ocafile && cached_said(
                entries,
                ocafile,
            ) is None,
            AddOcaFileStep::Reply(AddOcaFileReply::StorageFailure { .. }) => true,
            _ => false,
        }
    }
}

fn single_message(message: String) -> (messages: Vec<String>)
    ensures
        texts(messages@) == seq![message@],
{
    let mut messages: Vec<String> = Vec::new();
    messages.push(message);
    assert(texts(messages@) =~= seq![message@]);
    messages
}

/// Checks the body of a request that adds an OCA file: it must be UTF-8
/// text, and not empty. Gives the text, or the refusal.
pub fn check_ocafile_body(body: &[u8]) -> (res: Result<String, AddOcaFileReply>)
    ensures
        !valid_utf8(body@) ==> (res matches Err(AddOcaFileReply::Unprocessable { errors })
            && texts(errors@) == seq![utf8_error_text(body@)]),
        valid_utf8(body@) && decode_utf8(body@).len() == 0 ==> (res matches Err(
            AddOcaFileReply::Unprocessable { errors },
        ) && texts(errors@) == seq![empty_ocafile_message()]),
        valid_utf8(body@) && decode_utf8(body@).len() > 0 ==> (res matches Ok(text) && text@
            == decode_utf8(body@)),
{
    let ocafile = match string_from_utf8(body) {
        Ok(text) => text,
        Err(message) => {
            return Err(AddOcaFileReply::Unprocessable { errors: single_message(message) });
        },
    };
    if ocafile.as_str().is_empty() {
        let message = String::from_str("OCA File can't be empty");
        return Err(AddOcaFileReply::Unprocessable { errors: single_message(message) });
    }
    Ok(ocafile)
}

/// What follows the cache lookup of a checked OCA file: its cached SAID is
/// the answer; a file not in the cache goes on to be built; a failing store
/// is a storage failure with the store's message.
pub fn step_after_lookup(ocafile: String, lookup: Result<Option<String>, CacheError>) -> (step:
    AddOcaFileStep)
    ensures
        lookup matches Ok(Some(said)) ==> (step matches AddOcaFileStep::Reply(
            AddOcaFileReply::Accepted { said: s },
        ) && s@ == said@),
        lookup matches Ok(None) ==> (step matches AddOcaFileStep::Build { ocafile: text }
            && text@ == ocafile@),
        lookup matches Err(e) ==> (step matches AddOcaFileStep::Reply(
            AddOcaFileReply::StorageFailure { message },
        ) && message@ == e.message@),
{
    match lookup {
        Ok(Some(said)) => AddOcaFileStep::Reply(AddOcaFileReply::Accepted { said }),
        Ok(None) => AddOcaFileStep::Build { ocafile },
        Err(e) => AddOcaFileStep::Reply(AddOcaFileReply::StorageFailure { message: e.message }),
    }
}

/// Checks the body of a request that adds an OCA file and consults the
/// cache: a body that is no UTF-8 text or is empty is refused; a file built
/// before is answered with its SAID; any other file goes on to be built.
pub fn begin_add_oca_file(cache: &OCAFilesCache, body: &[u8]) -> (step: AddOcaFileStep)
    ensures
        add_oca_file_step(cache@, body@, step),
{
    match check_ocafile_body(body) {
        Err(reply) => AddOcaFileStep::Reply(reply),
        Ok(ocafile) => {
            let lookup = cache.get(ocafile.as_str());
            step_after_lookup(ocafile, lookup)
        },
    }
}

/// What follows filing a freshly built SAID: the SAID is the answer once it
/// is filed; a failing store is a storage failure with the store's message.
pub fn reply_after_filing(said: String, filed: Result<(), CacheError>) -> (reply: AddOcaFileReply)
    ensures
        filed is Ok ==> (reply matches AddOcaFileReply::Accepted { said: s } && s@ == said@),
        filed matches Err(e) ==> (reply matches AddOcaFileReply::StorageFailure { message }
            && message@ == e.message@),
{
    match filed {
        Ok(()) => AddOcaFileReply::Accepted { said },
        Err(e) => AddOcaFileReply::StorageFailure { message: e.message },
    }
}

/// Completes adding an OCA file once the builder has answered: a built
/// bundle's SAID is filed in the cache and returned; the builder's errors
/// are returned as they are, and the cache is left alone.
pub fn finish_add_oca_file(
    cache: &mut OCAFilesCache,
    ocafile: &str,
    built: Result<String, Vec<String>>,
) -> (reply: AddOcaFileReply)
    ensures
        finish_outcome(*old(cache), *final(cache), ocafile@, built, reply),
{
    match built {
        Ok(said) => {
            let filed = cache.insert(ocafile, said.as_str());
            reply_after_filing(said, filed)
        },
        Err(errors) => AddOcaFileReply::Rejected { errors },
    }
}

/// What completing an OCA file may lead to, from the cache `before` to the
/// cache `after`: the builder's errors are returned and the cache is left
/// alone; a built SAID is filed and returned, and the answer is a storage
/// failure only when filing it failed in the store.
pub open spec fn finish_outcome(
    before: OCAFilesCache,
    after: OCAFilesCache,
    ocafile: Seq<char>,
    built: Result<String, Vec<String>>,
    reply: AddOcaFileReply,
) -> bool {
    &&& built matches Err(errors) ==> (reply matches AddOcaFileReply::Rejected { errors: e }
        && e@ == errors@ && after@ == before@)
    &&& built matches Ok(said) ==> match reply {
        AddOcaFileReply::Accepted { said: s } => s@ == said@ && !after.last_filing_failed()
            && after@ == before@.insert(content_hash(ocafile), said@) && after.persisted()
            == after@,
        AddOcaFileReply::StorageFailure { .. } => after.last_filing_failed(),
        _ => false,
    }
}

/// A built bundle is filed and answered: when the builder gives a SAID and
/// the store takes the filing, the answer is that SAID, the cache then
/// answers it for the file, every other file keeps its answer, and the
/// entries are on disk.
pub proof fn lemma_built_bundle_is_filed_and_accepted(
    before: OCAFilesCache,
    after: OCAFilesCache,
    ocafile: Seq<char>,
    said: String,
    reply: AddOcaFileReply,
    other: Seq<char>,
)
    requires
        finish_outcome(before, after, ocafile, Ok(said), reply),
        !after.last_filing_failed(),
    ensures
        reply matches AddOcaFileReply::Accepted { said: s } && s@ == said@,
        cached_said(after@, ocafile) == Some(said@),
        content_hash(other) != content_hash(ocafile) ==> cached_said(after@, other)
            == cached_said(before@, other),
        after.persisted() == after@,
{
}

/// A file is built once: after its SAID has been filed, sending the same
/// body again is answered with that SAID from the cache (or, should the
/// store fail, with a storage failure), never with another build.
pub proof fn lemma_built_file_is_answered_from_cache(
    before: Map<Seq<char>, Seq<char>>,
    after: Map<Seq<char>, Seq<char>>,
    body: Seq<u8>,
    said: Seq<char>,
    step: AddOcaFileStep,
)
    requires
        valid_utf8(body),
        after == before.insert(content_hash(decode_utf8(body)), said),
        add_oca_file_step(after, body, step),
    ensures
        !(step is Build),
        step matches AddOcaFileStep::Reply(AddOcaFileReply::Accepted { said: s }) ==> s@ == said,
        step matches AddOcaFileStep::Reply(AddOcaFileReply::Accepted { .. })
            || step matches AddOcaFileStep::Reply(AddOcaFileReply::StorageFailure { .. })
            || step matches AddOcaFileStep::Reply(AddOcaFileReply::Unprocessable { .. }),
{
}

/// The page size of a search.
pub const SEARCH_LIMIT: usize = 10;

/// Query of the search route. The language is named by its ISO 639-3 code.
pub struct SearchParams {
    pub q: Option<String>,
    pub lang: Option<String>,
    pub page: Option<usize>,
}

/// What a search asks of the store.
pub struct SearchRequest {
    pub language: Option<String>,
    pub query: String,
    pub limit: usize,
    pub page: usize,
}

impl SearchParams {
    /// The search to run: the requested language, else the one of the
    /// preferred tag of the `Accept-Language` header; the query text, else
    /// the empty text; ten results a page; the requested page, else the
    /// first.
    pub fn request(&self, preferred_tag: &str) -> (request: SearchRequest)
        ensures
            opt_text(request.language) == (match self.lang {
                Some(code) => Some(code@),
                None => iso_language_code(before_dash(preferred_tag@)),
            }),
            request.query@ == (match self.q {
                Some(q) => q@,
                None => Seq::<char>::empty(),
            }),
            request.limit == SEARCH_LIMIT,
            request.page == (match self.page {
                Some(p) => p,
                None => 1,
            }),
    {
        let language = match &self.lang {
            Some(code) => Some(code.clone()),
            None => language_of_tag(preferred_tag),
        };
        let query = match &self.q {
            Some(q) => q.clone(),
            None => String::new(),
        };
        let page = match self.page {
            Some(p) => p,
            None => 1,
        };
        SearchRequest { language, query, limit: SEARCH_LIMIT, page }
    }
}

/// Query of the route that gets one bundle: `w` asks for its dependencies.
pub struct OCABundleQueryParams {
    pub w: Option<bool>,
}

impl OCABundleQueryParams {
    /// Whether the dependencies are wanted; by default they are not.
    pub fn with_dependencies(&self) -> (wanted: bool)
        ensures
            wanted == (self.w == Some(true)),
    {
        match self.w {
            Some(w) => w,
            None => false,
        }
    }
}

/// Query of the route that lists the steps of a bundle.
pub struct OCAFileHistoryQueryParams {
    pub extend: Option<bool>,
}

impl OCAFileHistoryQueryParams {
    /// Whether each step shows the bundle it produced; by default it does not.
    pub fn extend(&self) -> (extend: bool)
        ensures
            extend == (self.extend == Some(true)),
    {
        match self.extend {
            Some(e) => e,
            None => false,
        }
    }
}

/// Query of the data-entry route.
pub struct DataEntryQuery {
    pub format: Option<String>,
    pub labels: Option<String>,
    pub metadata: Option<String>,
}

/// The file formats of a data-entry sheet.
#[derive(PartialEq, Eq, Structural)]
pub enum DataEntryFormat {
    Csv,
    Xlsx,
}

/// How to write a data-entry sheet.
pub struct DataEntryPlan {
    pub format: DataEntryFormat,
    pub include_metadata_row: bool,
    pub label_lang: Option<String>,
    pub metadata_lang: Option<String>,
}

/// The message for a format other than `csv` and `xlsx`.
pub open spec fn unknown_format_message() -> Seq<char> {
    "format must be csv or xlsx"@
}

/// The format asked for: the requested one, else `xlsx`.
pub open spec fn requested_format(format: Option<String>) -> Seq<char> {
    match format {
        Some(f) => f@,
        None => "xlsx"@,
    }
}

impl DataEntryQuery {
    /// The sheet to write: `csv` or `xlsx` (the default), with a metadata
    /// row exactly when a metadata language is given; any other format is
    /// refused.
    pub fn plan(&self) -> (res: Result<DataEntryPlan, String>)
        ensures
            requested_format(self.format) == "csv"@ ==> (res matches Ok(plan) && plan.format
                == DataEntryFormat::Csv),
            requested_format(self.format) == "xlsx"@ ==> (res matches Ok(plan) && plan.format
                == DataEntryFormat::Xlsx),
            requested_format(self.format) != "csv"@ && requested_format(self.format) != "xlsx"@
                ==> (res matches Err(m) && m@ == unknown_format_message()),
            res matches Ok(plan) ==> {
                &&& plan.include_metadata_row == self.metadata is Some
                &&& opt_text(plan.label_lang) == opt_text(self.labels)
                &&& opt_text(plan.metadata_lang) == opt_text(self.metadata)
            },
    {
        proof {
            reveal_strlit("csv");
            reveal_strlit("xlsx");
            assert("csv"@.len() != "xlsx"@.len());
        }
        let format = match &self.format {
            Some(f) => f.clone(),
            None => String::from_str("xlsx"),
        };
        let csv = String::from_str("csv");
        let xlsx = String::from_str("xlsx");
        let chosen = if format == csv {
            DataEntryFormat::Csv
        } else if format == xlsx {
            DataEntryFormat::Xlsx
        } else {
            return Err(String::from_str("format must be csv or xlsx"));
        };
        Ok(
            DataEntryPlan {
                format: chosen,
                include_metadata_row: self.metadata.is_some(),
                label_lang: self.labels.clone(),
                metadata_lang: self.metadata.clone(),
            },
        )
    }
}

/// The file name of the spreadsheet written for the bundle `said`.
pub fn xlsx_file_name(said: &str) -> (name: String)
    ensures
        name@ == said@ + ".xlsx"@,
{
    let name = String::from_str(said);
    name.concat(".xlsx")
}

/// Why the data-entry route fails, in the order its steps run: reading the
/// settings, the SAID in the path, the store's answers, building the entry
/// schema, the requested format, writing the sheet.
pub enum DataEntryFailure {
    Configuration { message: String },
    InvalidSaid { message: String },
    Store { message: String },
    Schema { message: String },
    UnknownFormat { message: String },
    Write { message: String },
}

impl DataEntryFailure {
    /// The HTTP status of the failure: 422 for a bad SAID, 400 for an
    /// unknown format, 500 for the rest.
    pub fn status(&self) -> (code: u16)
        ensures
            code == match self {
                DataEntryFailure::InvalidSaid { .. } => 422u16,
                DataEntryFailure::UnknownFormat { .. } => 400u16,
                _ => 500u16,
            },
    {
        match self {
            DataEntryFailure::InvalidSaid { .. } => 422,
            DataEntryFailure::UnknownFormat { .. } => 400,
            _ => 500,
        }
    }

    /// The body of the failure: its message.
    pub fn message(&self) -> (message: &String)
        ensures
            *message == match self {
                DataEntryFailure::Configuration { message } => *message,
                DataEntryFailure::InvalidSaid { message } => *message,
                DataEntryFailure::Store { message } => *message,
                DataEntryFailure::Schema { message } => *message,
                DataEntryFailure::UnknownFormat { message } => *message,
                DataEntryFailure::Write { message } => *message,
            },
    {
        match self {
            DataEntryFailure::Configuration { message } => message,
            DataEntryFailure::InvalidSaid { message } => message,
            DataEntryFailure::Store { message } => message,
            DataEntryFailure::Schema { message } => message,
            DataEntryFailure::UnknownFormat { message } => message,
            DataEntryFailure::Write { message } => message,
        }
    }
}

/// The failure for the store's errors about a bundle: the first of them.
pub fn store_failure(errors: &Vec<String>) -> (failure: DataEntryFailure)
    requires
        errors@.len() > 0,
    ensures
        failure matches DataEntryFailure::Store { message } && message@ == errors@[0]@,
{
    DataEntryFailure::Store { message: errors[0].clone() }
}

} // verus!
