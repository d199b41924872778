use crate::download::{image_file_path, image_path};
use vstd::prelude::*;

verus! {

/// What reading the persisted directory file gave.
#[derive(Debug)]
pub enum DiskRead {
    /// The file exists and holds this text.
    Found(String),
    /// There is no such file: no directory was ever set.
    Missing,
    /// The file exists but could not be read.
    Failed,
}

/// Why no download directory can be given.
#[derive(Debug, Clone, Copy, PartialEq, Eq, Structural)]
pub enum DirectoryError {
    /// No directory was ever set.
    NotConfigured,
    /// The persisted directory could not be read.
    Io,
}

/// The configured download directory of one process. It is read from disk at
/// most once: after a set or a successful load every lookup is answered from
/// memory.
pub struct DirectoryStore {
    pub cached: Option<String>,
}

impl View for DirectoryStore {
    type V = Option<Seq<char>>;

    /// The directory held in memory, if any.
    open spec fn view(&self) -> Option<Seq<char>> {
        match self.cached {
            Some(d) => Some(d@),
            None => None,
        }
    }
}

impl DirectoryStore {
    /// A store that has not read or been given a directory yet.
    pub fn new() -> (r: DirectoryStore)
        ensures
            r@ is None,
    {
        DirectoryStore { cached: None }
    }

    /// Makes `directory` the configured directory. The caller persists the
    /// same text.
    pub fn set_directory(&mut self, directory: String)
        ensures
            final(self)@ == Some(directory@),
    {
        self.cached = Some(directory);
    }

    /// The directory held in memory; `None` means the persisted file must be
    /// read and handed to `load_directory`.
    pub fn get_directory(&self) -> (r: Option<String>)
        ensures
            match r {
                Some(d) => self@ == Some(d@),
                None => self@ is None,
            },
    {
        match &self.cached {
            Some(d) => Some(d.clone()),
            None => None,
        }
    }

    /// Takes in what reading the persisted file gave: a found directory is
    /// kept in memory and returned; otherwise the store is unchanged and the
    /// error says why.
    pub fn load_directory(&mut self, read: DiskRead) -> (r: Result<String, DirectoryError>)
        ensures
            match read {
                DiskRead::Found(d) => r matches Ok(s) && s@ == d@ && final(self)@ == Some(d@),
                DiskRead::Missing => r == Err::<String, DirectoryError>(DirectoryError::NotConfigured)
                    && final(self)@ == old(self)@,
                DiskRead::Failed => r == Err::<String, DirectoryError>(DirectoryError::Io)
                    && final(self)@ == old(self)@,
            },
    {
        match read {
            DiskRead::Found(d) => {
                self.cached = Some(d.clone());
                Ok(d)
            },
            DiskRead::Missing => Err(DirectoryError::NotConfigured),
            DiskRead::Failed => Err(DirectoryError::Io),
        }
    }
}

/// The directory downloads go to: the configured one, or the empty text
/// while none is held.
pub open spec fn target_dir(store: Option<Seq<char>>) -> Seq<char> {
    match store {
        Some(d) => d,
        None => Seq::empty(),
    }
}

impl DirectoryStore {
    /// Where the image at `image_url` is saved: its file name inside the
    /// directory held in memory.
    pub fn download_path(&self, image_url: &str) -> (r: String)
        ensures
            r@ == image_path(target_dir(self@), image_url@),
    {
        match &self.cached {
            Some(d) => image_file_path(d.as_str(), image_url),
            None => {
                proof {
                    reveal_strlit("");
                }
                image_file_path("", image_url)
            },
        }
    }
}

/// A directory that was set is what the next lookup returns, from memory:
/// a store whose view `set_directory` made `Some(d)` holds `d` in its cache,
/// so `get_directory` answers `Some` with the same text and no file is read.
pub proof fn lemma_set_then_get(store: DirectoryStore, directory: Seq<char>)
    requires
        store@ == Some(directory),
    ensures
        store.cached is Some,
        store.cached->Some_0@ == directory,
{
}

} // verus!
