//! The upload directory as a mathematical value. The library never touches
//! the disk itself; this model says what the caller's file operations are
//! taken to do, so that the upload protocol can be stated over it.

use vstd::prelude::*;

verus! {

/// The files of the upload directory: from file name to content.
pub type FileStore = Map<Seq<char>, Seq<u8>>;

/// The directory in which uploads are kept, with its trailing separator.
pub open spec fn upload_root() -> Seq<char> {
    "./uploads/"@
}

/// The path of the stored file `file_name`.
pub open spec fn storage_path_of(file_name: Seq<char>) -> Seq<char> {
    upload_root() + file_name
}

/// The store after `name` was created, or emptied if it was there.
pub open spec fn created(store: FileStore, name: Seq<char>) -> FileStore {
    store.insert(name, Seq::<u8>::empty())
}

/// The store after `bytes` were written to the end of `name`.
pub open spec fn appended(store: FileStore, name: Seq<char>, bytes: Seq<u8>) -> FileStore {
    store.insert(name, store[name] + bytes)
}

/// The store after `name` was deleted.
pub open spec fn removed(store: FileStore, name: Seq<char>) -> FileStore {
    store.remove(name)
}

/// Whether a file is stored under `name`.
pub open spec fn is_stored(store: FileStore, name: Seq<char>) -> bool {
    store.dom().contains(name)
}

/// The content that a download of `name` delivers, if the file is there.
pub open spec fn served(store: FileStore, name: Seq<char>) -> Option<Seq<u8>> {
    if is_stored(store, name) {
        Some(store[name])
    } else {
        None
    }
}

/// The path of a stored file.
pub fn storage_path(file_name: &str) -> (path: String)
    ensures
        path@ == storage_path_of(file_name@),
{
    crate::text::join("./uploads/", file_name)
}

} // verus!
