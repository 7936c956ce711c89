use vstd::prelude::*;

verus! {

/// Name of the document that holds the saved library, inside the application's data directory.
pub const LIBRARY_FILE_NAME: &'static str = "library.json";

/// The document of a library that was never saved: no entries and no folders.
pub const EMPTY_LIBRARY: &'static str = "{\"entries\":{},\"folders\":{}}";

/// Where the library is stored: the application's data directory, set once at startup.
pub struct LibraryStorage {
    app_data_dir: Option<String>,
}

impl View for LibraryStorage {
    type V = Option<Seq<char>>;

    closed spec fn view(&self) -> Option<Seq<char>> {
        match self.app_data_dir {
            Some(d) => Some(d@),
            None => None,
        }
    }
}

impl LibraryStorage {
    /// Storage that has not been given a directory yet.
    pub fn new() -> (r: LibraryStorage)
        ensures
            r@ is None,
    {
        LibraryStorage { app_data_dir: None }
    }
}

/// Sets the data directory of `storage`. The first directory set stays: later calls change nothing.
pub fn init_library_storage(storage: &mut LibraryStorage, app_data_dir: String)
    ensures
        old(storage)@ is None ==> final(storage)@ == Some(app_data_dir@),
        old(storage)@ is Some ==> final(storage)@ == old(storage)@,
{
    if storage.app_data_dir.is_none() {
        storage.app_data_dir = Some(app_data_dir);
    }
}

/// The message of the error returned before the directory is set.
pub open spec fn not_initialized_message() -> Seq<char> {
    "Library storage not initialized"@
}

/// The data directory in which the library document lives, or an error while none is set.
pub fn library_dir(storage: &LibraryStorage) -> (r: Result<String, String>)
    ensures
        storage@ matches Some(d) ==> (r matches Ok(s) && s@ == d),
        storage@ is None ==> (r matches Err(m) && m@ == not_initialized_message()),
{
    match &storage.app_data_dir {
        Some(d) => Ok(d.clone()),
        None => Err(String::from_str("Library storage not initialized")),
    }
}

/// The library document to hand out: the stored text where a file exists, else the empty library.
pub fn library_document(stored: Option<String>) -> (r: String)
    ensures
        stored matches Some(s) ==> r@ == s@,
        stored is None ==> r@ == EMPTY_LIBRARY@,
{
    match stored {
        Some(s) => s,
        None => String::from_str(EMPTY_LIBRARY),
    }
}

} // verus!
