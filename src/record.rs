use vstd::prelude::*;

verus! {

/// What a record is, as a value: its identifier, its title and the
/// location of its stored file.
pub struct SMapView {
    pub uuid: Seq<char>,
    pub title: Seq<char>,
    pub path: Seq<char>,
}

/// A registered static map: an identifier, a title and the location of
/// the persisted file. Records are never changed once built.
#[derive(Debug)]
pub struct SMap {
    pub uuid: String,
    pub title: String,
    pub path: String,
}

impl View for SMap {
    type V = SMapView;

    open spec fn view(&self) -> SMapView {
        SMapView { uuid: self.uuid@, title: self.title@, path: self.path@ }
    }
}

impl SMap {
    pub fn new(uuid: String, title: String, path: String) -> (r: SMap)
        ensures
            r@ == (SMapView { uuid: uuid@, title: title@, path: path@ }),
    {
        SMap { uuid, title, path }
    }
}

impl Clone for SMap {
    fn clone(&self) -> (r: SMap)
        ensures
            r@ == self@,
    {
        SMap { uuid: self.uuid.clone(), title: self.title.clone(), path: self.path.clone() }
    }
}

/// Why an operation on the registry failed. Each kind carries a
/// human-readable detail.
#[derive(Debug)]
pub enum SMapError {
    /// A registration collides with an existing record.
    Conflict(String),
    /// A referenced record does not exist.
    NotFound(String),
    /// A credential is missing or invalid.
    Unauthorized(String),
    /// The upload lacks a title or a file, or its body could not be read.
    MalformedUpload(String),
    /// The file could not be persisted.
    WriteFailed(String),
}

} // verus!
