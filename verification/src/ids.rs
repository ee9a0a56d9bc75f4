//! Typed application-level identifiers.
//!
//! Identifiers are UUIDv7 strings behind a readable prefix
//! (`file_0190…`); external interfaces expose opaque strings rather than
//! database row ids. One type per entity keeps a `FileId` from being
//! passed where a `SourceId` is expected.
use vstd::prelude::*;
use crate::text::{chars_of, push_all, string_of};

verus! {

/// A lowercase hexadecimal digit.
pub open spec fn is_lower_hex(c: char) -> bool {
    ('0' <= c && c <= '9') || ('a' <= c && c <= 'f')
}

/// The hyphenated text form of a version-7 UUID: 8-4-4-4-12 lowercase
/// hex digits, the version digit `7` first in the third group.
pub open spec fn is_uuid_v7_text(s: Seq<char>) -> bool {
    &&& s.len() == 36
    &&& s[8] == '-' && s[13] == '-' && s[18] == '-' && s[23] == '-'
    &&& s[14] == '7'
    &&& forall|i: int|
        0 <= i < 36 && i != 8 && i != 13 && i != 18 && i != 23 ==> is_lower_hex(#[trigger] s[i])
}

/// A fresh identifier text: `prefix`, an underscore, a UUIDv7.
pub open spec fn is_fresh_id(s: Seq<char>, prefix: Seq<char>) -> bool {
    &&& s.len() == prefix.len() + 37
    &&& s.take(prefix.len() as int) == prefix
    &&& s[prefix.len() as int] == '_'
    &&& is_uuid_v7_text(s.skip(prefix.len() + 1int))
}

/// `uuid::Uuid::now_v7()` in its `Display` form: a version-7 UUID from
/// the current time and random bits, printed hyphenated in lowercase.
/// Which UUID comes back is left open: it depends on the clock and on
/// chance.
#[verifier::external_body]
fn uuid_v7_text() -> (r: String)
    ensures
        is_uuid_v7_text(r@),
{
    uuid::Uuid::now_v7().to_string()
}

/// The identifier text for `uuid` behind `prefix`: `prefix`, `_`,
/// `uuid`.
pub fn id_text(prefix: &str, uuid: &str) -> (r: String)
    ensures
        r@ == prefix@ + seq!['_'] + uuid@,
{
    let mut v = chars_of(prefix);
    v.push('_');
    let tail = chars_of(uuid);
    push_all(&mut v, &tail);
    assert(v@ =~= prefix@ + seq!['_'] + uuid@);
    string_of(&v)
}

/// `prefix`, `_` and a fresh UUIDv7.
fn fresh_id(prefix: &str) -> (r: String)
    ensures
        is_fresh_id(r@, prefix@),
{
    let u = uuid_v7_text();
    let r = id_text(prefix, u.as_str());
    let ghost p = prefix@;
    assert(r@.take(p.len() as int) =~= p);
    assert(r@.skip(p.len() + 1int) =~= u@);
    r
}

/// Identifier of a registered source.
#[derive(Debug, Clone, PartialEq, Eq, Hash)]
pub struct SourceId(pub String);

impl View for SourceId {
    type V = Seq<char>;

    open spec fn view(&self) -> Seq<char> {
        self.0@
    }
}

impl SourceId {
    /// Generate a fresh identifier (UUIDv7, time-ordered) behind the
    /// prefix `src_`.
    pub fn generate() -> (id: Self)
        ensures
            is_fresh_id(id@, "src"@),
    {
        SourceId(fresh_id("src"))
    }

    /// Wrap an existing identifier string (e.g. read from the catalog).
    pub fn from_string(s: String) -> (id: Self)
        ensures
            id@ == s@,
    {
        SourceId(s)
    }

    /// Borrow the identifier as a string slice.
    pub fn as_str(&self) -> (r: &str)
        ensures
            r@ == self@,
    {
        self.0.as_str()
    }

    /// An equal copy of the identifier.
    pub fn duplicate(&self) -> (r: Self)
        ensures
            r == *self,
    {
        SourceId(self.0.clone())
    }
}

impl From<SourceId> for String {
    fn from(id: SourceId) -> (r: String) {
        id.0
    }
}

impl vstd::std_specs::convert::FromSpecImpl<SourceId> for String {
    open spec fn obeys_from_spec() -> bool {
        true
    }

    open spec fn from_spec(id: SourceId) -> String {
        id.0
    }
}

/// Identifier of a cataloged file.
#[derive(Debug, Clone, PartialEq, Eq, Hash)]
pub struct FileId(pub String);

impl View for FileId {
    type V = Seq<char>;

    open spec fn view(&self) -> Seq<char> {
        self.0@
    }
}

impl FileId {
    /// Generate a fresh identifier (UUIDv7, time-ordered) behind the
    /// prefix `file_`.
    pub fn generate() -> (id: Self)
        ensures
            is_fresh_id(id@, "file"@),
    {
        FileId(fresh_id("file"))
    }

    /// Wrap an existing identifier string (e.g. read from the catalog).
    pub fn from_string(s: String) -> (id: Self)
        ensures
            id@ == s@,
    {
        FileId(s)
    }

    /// Borrow the identifier as a string slice.
    pub fn as_str(&self) -> (r: &str)
        ensures
            r@ == self@,
    {
        self.0.as_str()
    }

    /// An equal copy of the identifier.
    pub fn duplicate(&self) -> (r: Self)
        ensures
            r == *self,
    {
        FileId(self.0.clone())
    }
}

impl From<FileId> for String {
    fn from(id: FileId) -> (r: String) {
        id.0
    }
}

impl vstd::std_specs::convert::FromSpecImpl<FileId> for String {
    open spec fn obeys_from_spec() -> bool {
        true
    }

    open spec fn from_spec(id: FileId) -> String {
        id.0
    }
}

/// Identifier of an extraction record.
#[derive(Debug, Clone, PartialEq, Eq, Hash)]
pub struct ExtractionId(pub String);

impl View for ExtractionId {
    type V = Seq<char>;

    open spec fn view(&self) -> Seq<char> {
        self.0@
    }
}

impl ExtractionId {
    /// Generate a fresh identifier (UUIDv7, time-ordered) behind the
    /// prefix `ext_`.
    pub fn generate() -> (id: Self)
        ensures
            is_fresh_id(id@, "ext"@),
    {
        ExtractionId(fresh_id("ext"))
    }

    /// Wrap an existing identifier string (e.g. read from the catalog).
    pub fn from_string(s: String) -> (id: Self)
        ensures
            id@ == s@,
    {
        ExtractionId(s)
    }

    /// Borrow the identifier as a string slice.
    pub fn as_str(&self) -> (r: &str)
        ensures
            r@ == self@,
    {
        self.0.as_str()
    }

    /// An equal copy of the identifier.
    pub fn duplicate(&self) -> (r: Self)
        ensures
            r == *self,
    {
        ExtractionId(self.0.clone())
    }
}

impl From<ExtractionId> for String {
    fn from(id: ExtractionId) -> (r: String) {
        id.0
    }
}

impl vstd::std_specs::convert::FromSpecImpl<ExtractionId> for String {
    open spec fn obeys_from_spec() -> bool {
        true
    }

    open spec fn from_spec(id: ExtractionId) -> String {
        id.0
    }
}

/// Identifier of a chunk.
#[derive(Debug, Clone, PartialEq, Eq, Hash)]
pub struct ChunkId(pub String);

impl View for ChunkId {
    type V = Seq<char>;

    open spec fn view(&self) -> Seq<char> {
        self.0@
    }
}

impl ChunkId {
    /// Generate a fresh identifier (UUIDv7, time-ordered) behind the
    /// prefix `chunk_`.
    pub fn generate() -> (id: Self)
        ensures
            is_fresh_id(id@, "chunk"@),
    {
        ChunkId(fresh_id("chunk"))
    }

    /// Wrap an existing identifier string (e.g. read from the catalog).
    pub fn from_string(s: String) -> (id: Self)
        ensures
            id@ == s@,
    {
        ChunkId(s)
    }

    /// Borrow the identifier as a string slice.
    pub fn as_str(&self) -> (r: &str)
        ensures
            r@ == self@,
    {
        self.0.as_str()
    }

    /// An equal copy of the identifier.
    pub fn duplicate(&self) -> (r: Self)
        ensures
            r == *self,
    {
        ChunkId(self.0.clone())
    }
}

impl From<ChunkId> for String {
    fn from(id: ChunkId) -> (r: String) {
        id.0
    }
}

impl vstd::std_specs::convert::FromSpecImpl<ChunkId> for String {
    open spec fn obeys_from_spec() -> bool {
        true
    }

    open spec fn from_spec(id: ChunkId) -> String {
        id.0
    }
}

/// Identifier of an index job.
#[derive(Debug, Clone, PartialEq, Eq, Hash)]
pub struct JobId(pub String);

impl View for JobId {
    type V = Seq<char>;

    open spec fn view(&self) -> Seq<char> {
        self.0@
    }
}

impl JobId {
    /// Generate a fresh identifier (UUIDv7, time-ordered) behind the
    /// prefix `job_`.
    pub fn generate() -> (id: Self)
        ensures
            is_fresh_id(id@, "job"@),
    {
        JobId(fresh_id("job"))
    }

    /// Wrap an existing identifier string (e.g. read from the catalog).
    pub fn from_string(s: String) -> (id: Self)
        ensures
            id@ == s@,
    {
        JobId(s)
    }

    /// Borrow the identifier as a string slice.
    pub fn as_str(&self) -> (r: &str)
        ensures
            r@ == self@,
    {
        self.0.as_str()
    }

    /// An equal copy of the identifier.
    pub fn duplicate(&self) -> (r: Self)
        ensures
            r == *self,
    {
        JobId(self.0.clone())
    }
}

impl From<JobId> for String {
    fn from(id: JobId) -> (r: String) {
        id.0
    }
}

impl vstd::std_specs::convert::FromSpecImpl<JobId> for String {
    open spec fn obeys_from_spec() -> bool {
        true
    }

    open spec fn from_spec(id: JobId) -> String {
        id.0
    }
}

/// Identifier of a registered local model.
#[derive(Debug, Clone, PartialEq, Eq, Hash)]
pub struct ModelId(pub String);

impl View for ModelId {
    type V = Seq<char>;

    open spec fn view(&self) -> Seq<char> {
        self.0@
    }
}

impl ModelId {
    /// Generate a fresh identifier (UUIDv7, time-ordered) behind the
    /// prefix `model_`.
    pub fn generate() -> (id: Self)
        ensures
            is_fresh_id(id@, "model"@),
    {
        ModelId(fresh_id("model"))
    }

    /// Wrap an existing identifier string (e.g. read from the catalog).
    pub fn from_string(s: String) -> (id: Self)
        ensures
            id@ == s@,
    {
        ModelId(s)
    }

    /// Borrow the identifier as a string slice.
    pub fn as_str(&self) -> (r: &str)
        ensures
            r@ == self@,
    {
        self.0.as_str()
    }

    /// An equal copy of the identifier.
    pub fn duplicate(&self) -> (r: Self)
        ensures
            r == *self,
    {
        ModelId(self.0.clone())
    }
}

impl From<ModelId> for String {
    fn from(id: ModelId) -> (r: String) {
        id.0
    }
}

impl vstd::std_specs::convert::FromSpecImpl<ModelId> for String {
    open spec fn obeys_from_spec() -> bool {
        true
    }

    open spec fn from_spec(id: ModelId) -> String {
        id.0
    }
}

/// Identifier of a search query record.
#[derive(Debug, Clone, PartialEq, Eq, Hash)]
pub struct QueryId(pub String);

impl View for QueryId {
    type V = Seq<char>;

    open spec fn view(&self) -> Seq<char> {
        self.0@
    }
}

impl QueryId {
    /// Generate a fresh identifier (UUIDv7, time-ordered) behind the
    /// prefix `query_`.
    pub fn generate() -> (id: Self)
        ensures
            is_fresh_id(id@, "query"@),
    {
        QueryId(fresh_id("query"))
    }

    /// Wrap an existing identifier string (e.g. read from the catalog).
    pub fn from_string(s: String) -> (id: Self)
        ensures
            id@ == s@,
    {
        QueryId(s)
    }

    /// Borrow the identifier as a string slice.
    pub fn as_str(&self) -> (r: &str)
        ensures
            r@ == self@,
    {
        self.0.as_str()
    }

    /// An equal copy of the identifier.
    pub fn duplicate(&self) -> (r: Self)
        ensures
            r == *self,
    {
        QueryId(self.0.clone())
    }
}

impl From<QueryId> for String {
    fn from(id: QueryId) -> (r: String) {
        id.0
    }
}

impl vstd::std_specs::convert::FromSpecImpl<QueryId> for String {
    open spec fn obeys_from_spec() -> bool {
        true
    }

    open spec fn from_spec(id: QueryId) -> String {
        id.0
    }
}

/// Identifier of an application event.
#[derive(Debug, Clone, PartialEq, Eq, Hash)]
pub struct EventId(pub String);

impl View for EventId {
    type V = Seq<char>;

    open spec fn view(&self) -> Seq<char> {
        self.0@
    }
}

impl EventId {
    /// Generate a fresh identifier (UUIDv7, time-ordered) behind the
    /// prefix `evt_`.
    pub fn generate() -> (id: Self)
        ensures
            is_fresh_id(id@, "evt"@),
    {
        EventId(fresh_id("evt"))
    }

    /// Wrap an existing identifier string (e.g. read from the catalog).
    pub fn from_string(s: String) -> (id: Self)
        ensures
            id@ == s@,
    {
        EventId(s)
    }

    /// Borrow the identifier as a string slice.
    pub fn as_str(&self) -> (r: &str)
        ensures
            r@ == self@,
    {
        self.0.as_str()
    }

    /// An equal copy of the identifier.
    pub fn duplicate(&self) -> (r: Self)
        ensures
            r == *self,
    {
        EventId(self.0.clone())
    }
}

impl From<EventId> for String {
    fn from(id: EventId) -> (r: String) {
        id.0
    }
}

impl vstd::std_specs::convert::FromSpecImpl<EventId> for String {
    open spec fn obeys_from_spec() -> bool {
        true
    }

    open spec fn from_spec(id: EventId) -> String {
        id.0
    }
}

} // verus!
