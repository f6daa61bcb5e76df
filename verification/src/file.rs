use vstd::prelude::*;

use crate::paths::{join_path, path_join};

verus! {

/// A file below one of the program's folders: the cache folder or the data
/// folder.
#[derive(Debug)]
pub enum Directory {
    Cache(String),
    Data(String),
}

/// Knows the program's cache and data folders and where files below them
/// live.
#[derive(Debug)]
pub struct FileService {
    cache_dir: String,
    data_dir: String,
}

impl FileService {
    /// The cache folder.
    pub closed spec fn cache(self) -> Seq<char> {
        self.cache_dir@
    }

    /// The data folder.
    pub closed spec fn data(self) -> Seq<char> {
        self.data_dir@
    }

    /// A service for the given cache and data folders.
    pub fn new(cache_dir: String, data_dir: String) -> (r: FileService)
        ensures
            r.cache() == cache_dir@,
            r.data() == data_dir@,
    {
        FileService { cache_dir, data_dir }
    }

    /// The cache folder.
    pub fn cache_dir(&self) -> (r: &String)
        ensures
            r@ == self.cache(),
    {
        &self.cache_dir
    }

    /// The data folder.
    pub fn data_dir(&self) -> (r: &String)
        ensures
            r@ == self.data(),
    {
        &self.data_dir
    }

    /// The full path of a file below one of the folders; `windows` selects
    /// Windows path rules.
    pub fn path_of(&self, directory: &Directory, windows: bool) -> (r: String)
        ensures
            match *directory {
                Directory::Cache(s) => r@ == join_path(self.cache(), s@, windows),
                Directory::Data(s) => r@ == join_path(self.data(), s@, windows),
            },
    {
        match directory {
            Directory::Cache(s) => path_join(self.cache_dir.as_str(), s.as_str(), windows),
            Directory::Data(s) => path_join(self.data_dir.as_str(), s.as_str(), windows),
        }
    }
}

}
