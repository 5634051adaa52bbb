use vstd::prelude::*;

use crate::record::{SMap, SMapError, SMapView};
use crate::registry::Registry;

verus! {

/// The directory under which uploaded files are stored.
pub open spec fn blob_dir() -> Seq<char> {
    seq!['/', 't', 'm', 'p', '/']
}

/// The name of the multipart field that carries the title.
pub open spec fn title_field() -> Seq<char> {
    seq!['t', 'i', 't', 'l', 'e']
}

/// Whether `c` may stand in a stored file name as it is.
pub open spec fn is_safe_char(c: char) -> bool {
    ('a' <= c && c <= 'z') || ('A' <= c && c <= 'Z') || ('0' <= c && c <= '9') || c == '.' || c
        == '-' || c == '_'
}

/// `c` itself where it is safe, an underscore otherwise.
pub open spec fn safe_char(c: char) -> char {
    if is_safe_char(c) {
        c
    } else {
        '_'
    }
}

/// A client-supplied file name with every unsafe character (a path
/// separator among them) replaced by an underscore.
pub open spec fn sanitized(name: Seq<char>) -> Seq<char> {
    name.map_values(|c: char| safe_char(c))
}

/// Where the file of the upload with identifier `uuid` is stored: one file
/// directly under the blob directory, named after the identifier and the
/// sanitized client file name, so that no two uploads share a location and
/// no name reaches outside the directory.
pub open spec fn location_of(uuid: Seq<char>, name: Seq<char>) -> Seq<char> {
    blob_dir() + uuid + seq!['-'] + sanitized(name)
}

/// The view of an optional string.
pub open spec fn opt_view(o: Option<String>) -> Option<Seq<char>> {
    match o {
        Some(s) => Some(s@),
        None => None,
    }
}

/// Whether no two records of `s` share an identifier.
pub open spec fn ids_distinct(s: Seq<SMapView>) -> bool {
    forall|i: int, j: int| 0 <= i < j < s.len() ==> #[trigger] s[i].uuid != #[trigger] s[j].uuid
}

/// Whether no record of `s` carries the identifier `uuid`.
pub open spec fn id_is_fresh(s: Seq<SMapView>, uuid: Seq<char>) -> bool {
    forall|k: int| 0 <= k < s.len() ==> #[trigger] s[k].uuid != uuid
}

/// What the ingestion of one upload does with a multipart field.
#[derive(Debug)]
pub enum FieldAction {
    /// Read the field as text: it is the title.
    ReadTitle,
    /// Store the field's bytes at this location: it is the file.
    StoreFile(String),
    /// Ignore the field.
    Skip,
}

/// The state of the ingestion of one upload: the identifier generated for
/// it, what has been received so far, and the first failure met, if any.
pub struct Upload {
    pub uuid: String,
    pub title: Option<String>,
    pub path: Option<String>,
    pub failure: Option<SMapError>,
}

/// Relies on uuid's `Uuid::new_v4` and its `Display`: a random UUID in the
/// hyphenated form, 36 characters with hyphens at 8, 13, 18 and 23.
#[verifier::external_body]
fn fresh_id() -> (r: String)
    ensures
        r@.len() == 36,
        r@[8] == '-' && r@[13] == '-' && r@[18] == '-' && r@[23] == '-',
{
    uuid::Uuid::new_v4().to_string()
}

/// Relies on `String::push`: `c` is added at the end.
#[verifier::external_body]
fn push_char(s: &mut String, c: char)
    ensures
        final(s)@ == old(s)@.push(c),
{
    s.push(c)
}

/// The location at which the file of the upload `uuid` is stored, for the
/// client file name `file_name`.
pub fn blob_location(uuid: &String, file_name: &String) -> (r: String)
    ensures
        r@ == location_of(uuid@, file_name@),
{
    let mut out = String::from_str("/tmp/");
    proof {
        reveal_strlit("/tmp/");
    }
    out.append(uuid.as_str());
    push_char(&mut out, '-');
    let ghost head = out@;
    assert(head == blob_dir() + uuid@ + seq!['-']);
    for c in it: file_name.as_str().chars()
        invariant
            it.seq() == file_name@,
            out@ == head + sanitized(it.seq().take(it.index() as int)),
    {
        let ghost before = it.index() as int;
        if ('a' <= c && c <= 'z') || ('A' <= c && c <= 'Z') || ('0' <= c && c <= '9') || c == '.'
            || c == '-' || c == '_' {
            push_char(&mut out, c);
        } else {
            push_char(&mut out, '_');
        }
        assert(it.seq().take(before + 1) =~= it.seq().take(before).push(c));
        assert(sanitized(it.seq().take(before + 1)) =~= sanitized(it.seq().take(before)).push(
            safe_char(c),
        ));
    }
    assert(file_name@.take(file_name@.len() as int) =~= file_name@);
    out
}

impl Upload {
    /// Whether the upload holds everything a record needs: no failure, a
    /// non-empty title and a stored file.
    pub open spec fn is_complete(&self) -> bool {
        &&& self.failure is None
        &&& self.title is Some
        &&& self.title->Some_0@.len() > 0
        &&& self.path is Some
    }

    /// The record that a complete upload becomes.
    pub open spec fn record_view(&self) -> SMapView {
        SMapView { uuid: self.uuid@, title: self.title->Some_0@, path: self.path->Some_0@ }
    }

    /// Starts the ingestion of an upload under a freshly generated identifier.
    pub fn start() -> (r: Upload)
        ensures
            r.uuid@.len() == 36,
            r.title is None,
            r.path is None,
            r.failure is None,
    {
        Upload::with_id(fresh_id())
    }

    /// Starts the ingestion of an upload under the identifier `uuid`.
    pub fn with_id(uuid: String) -> (r: Upload)
        ensures
            r.uuid@ == uuid@,
            r.title is None,
            r.path is None,
            r.failure is None,
    {
        Upload { uuid, title: None, path: None, failure: None }
    }

    /// What to do with the next field of the body, given its name and the
    /// file name attached to it: the field named `title` is the title; any
    /// other field that carries a file name is the file, stored at the
    /// location that the identifier and that name give; the rest is ignored.
    pub fn on_field(&self, name: Option<&String>, file_name: Option<&String>) -> (r: FieldAction)
        ensures
            (name is Some && name->Some_0@ == title_field()) ==> r is ReadTitle,
            !(name is Some && name->Some_0@ == title_field()) ==> match file_name {
                Some(f) => r is StoreFile && r->StoreFile_0@ == location_of(self.uuid@, f@),
                None => r is Skip,
            },
    {
        let key = String::from_str("title");
        proof {
            reveal_strlit("title");
        }
        assert(key@ == title_field());
        let is_title = match name {
            Some(n) => *n == key,
            None => false,
        };
        if is_title {
            FieldAction::ReadTitle
        } else {
            match file_name {
                Some(f) => FieldAction::StoreFile(blob_location(&self.uuid, f)),
                None => FieldAction::Skip,
            }
        }
    }

    /// Records the text of a title field; a later title replaces an earlier one.
    pub fn title_received(&mut self, text: String)
        ensures
            final(self).uuid == old(self).uuid,
            opt_view(final(self).title) == Some(text@),
            final(self).path == old(self).path,
            final(self).failure == old(self).failure,
    {
        self.title = Some(text);
    }

    /// Records the outcome of storing the file: its location, or the
    /// detail of the write failure.
    pub fn file_stored(&mut self, outcome: Result<String, String>)
        ensures
            final(self).uuid == old(self).uuid,
            final(self).title == old(self).title,
            match outcome {
                Ok(loc) => opt_view(final(self).path) == Some(loc@) && final(self).failure
                    == old(self).failure,
                Err(detail) => final(self).path == old(self).path && if old(self).failure is Some {
                    final(self).failure == old(self).failure
                } else {
                    final(self).failure == Some(SMapError::WriteFailed(detail))
                },
            },
    {
        match outcome {
            Ok(loc) => {
                self.path = Some(loc);
            },
            Err(detail) => {
                if self.failure.is_none() {
                    self.failure = Some(SMapError::WriteFailed(detail));
                }
            },
        }
    }

    /// Records that the body could not be read or decoded.
    pub fn body_failed(&mut self, detail: String)
        ensures
            final(self).uuid == old(self).uuid,
            final(self).title == old(self).title,
            final(self).path == old(self).path,
            if old(self).failure is Some {
                final(self).failure == old(self).failure
            } else {
                final(self).failure == Some(SMapError::MalformedUpload(detail))
            },
    {
        if self.failure.is_none() {
            self.failure = Some(SMapError::MalformedUpload(detail));
        }
    }

    /// Ends the body: the record if the upload is complete; else the
    /// recorded failure, or `MalformedUpload` where the title or the file
    /// is missing.
    pub fn finish(self) -> (r: Result<SMap, SMapError>)
        ensures
            r is Ok <==> self.is_complete(),
            r matches Ok(rec) ==> rec@ == self.record_view(),
            self.failure matches Some(e) ==> r == Err::<SMap, SMapError>(e),
            (self.failure is None && !self.is_complete()) ==> r matches Err(
                SMapError::MalformedUpload(_),
            ),
    {
        match self.failure {
            Some(e) => Err(e),
            None => match (self.title, self.path) {
                (Some(title), Some(path)) => {
                    if title.as_str().is_empty() {
                        Err(SMapError::MalformedUpload(String::from_str("the title is empty")))
                    } else {
                        Ok(SMap::new(self.uuid, title, path))
                    }
                },
                (None, _) => Err(SMapError::MalformedUpload(String::from_str("no title field"))),
                (_, None) => Err(SMapError::MalformedUpload(String::from_str("no file field"))),
            },
        }
    }
}

/// Ends the ingestion of `upload` and registers its record. Nothing is
/// appended unless the upload is complete and its identifier is new to the
/// registry; a clash of identifiers is a `Conflict`.
pub fn commit(registry: &mut Registry, upload: Upload) -> (r: Result<SMap, SMapError>)
    ensures
        r is Ok <==> (upload.is_complete() && id_is_fresh(old(registry)@, upload.uuid@)),
        r matches Ok(rec) ==> rec@ == upload.record_view() && final(registry)@ == old(
            registry,
        )@.push(rec@),
        r is Err ==> final(registry)@ == old(registry)@,
        upload.failure matches Some(e) ==> r == Err::<SMap, SMapError>(e),
        (upload.failure is None && !upload.is_complete()) ==> r matches Err(
            SMapError::MalformedUpload(_),
        ),
        (upload.is_complete() && !id_is_fresh(old(registry)@, upload.uuid@)) ==> r matches Err(
            SMapError::Conflict(_),
        ),
        ids_distinct(old(registry)@) ==> ids_distinct(final(registry)@),
{
    match upload.finish() {
        Err(e) => Err(e),
        Ok(rec) => {
            if registry.contains_id(&rec.uuid) {
                Err(SMapError::Conflict(String::from_str("a record with this identifier exists")))
            } else {
                proof {
                    lemma_fresh_id_keeps_ids_distinct(registry@, rec@);
                }
                registry.append(rec.clone());
                Ok(rec)
            }
        },
    }
}

/// Adding a record whose identifier no registered record carries keeps the
/// identifiers of the registry pairwise distinct.
pub proof fn lemma_fresh_id_keeps_ids_distinct(s: Seq<SMapView>, rec: SMapView)
    requires
        id_is_fresh(s, rec.uuid),
    ensures
        ids_distinct(s) ==> ids_distinct(s.push(rec)),
{
    if ids_distinct(s) {
        let t = s.push(rec);
        assert forall|i: int, j: int| 0 <= i < j < t.len() implies #[trigger] t[i].uuid
            != #[trigger] t[j].uuid by {
            if j == s.len() {
                assert(t[i] == s[i]);
            } else {
                assert(t[i] == s[i] && t[j] == s[j]);
            }
        }
    }
}

} // verus!
