//! Snapshot of a file that is offered for transfer.
use vstd::prelude::*;

verus! {

/// Mathematical value of a [`FileInfo`].
pub struct FileInfoView {
    pub name: Seq<char>,
    pub size: u64,
    pub mime_type: Seq<char>,
    pub last_modified: u64,
}

/// Name, size, type and modification time of one file, as they were when
/// the transfer was set up.
#[derive(Debug)]
pub struct FileInfo {
    name: String,
    size: u64,
    mime_type: String,
    last_modified: u64,
}

impl View for FileInfo {
    type V = FileInfoView;

    closed spec fn view(&self) -> FileInfoView {
        FileInfoView {
            name: self.name@,
            size: self.size,
            mime_type: self.mime_type@,
            last_modified: self.last_modified,
        }
    }
}

impl Clone for FileInfo {
    fn clone(&self) -> (copy: Self)
        ensures
            copy@ == self@,
    {
        FileInfo {
            name: self.name.clone(),
            size: self.size,
            mime_type: self.mime_type.clone(),
            last_modified: self.last_modified,
        }
    }
}

impl FileInfo {
    pub fn new(name: String, size: u64, mime_type: String, last_modified: u64) -> (file: Self)
        ensures
            file@ == (FileInfoView { name: name@, size, mime_type: mime_type@, last_modified }),
    {
        Self { name, size, mime_type, last_modified }
    }

    pub fn name(&self) -> (name: &str)
        ensures
            name@ == self@.name,
    {
        self.name.as_str()
    }

    pub fn size(&self) -> (size: u64)
        ensures
            size == self@.size,
    {
        self.size
    }

    pub fn mime_type(&self) -> (mime_type: &str)
        ensures
            mime_type@ == self@.mime_type,
    {
        self.mime_type.as_str()
    }

    pub fn last_modified(&self) -> (last_modified: u64)
        ensures
            last_modified == self@.last_modified,
    {
        self.last_modified
    }
}

} // verus!
