//! How a database is opened.

use std::path::PathBuf;
use vstd::prelude::*;

verus! {

/// `std::path::PathBuf`, carried through as an opaque value.
#[verifier::external_type_specification]
#[verifier::external_body]
pub struct ExPathBuf(PathBuf);

/// The settings of a database.
#[derive(Debug)]
pub struct RocksDbConfig {
    /// The file of the database, or a directory to put it in.
    pub path: PathBuf,
    /// The size of the engine's cache, in bytes.
    pub cache_size: usize,
    /// How many files the engine may hold open. Both engines here keep a database in a fixed
    /// number of files and do not look at it.
    pub max_open_files: i32,
}

/// The file that a database lives in.
#[derive(Debug)]
pub enum DatabaseFile {
    /// The file at this path.
    Given(PathBuf),
    /// The file of this name in the directory at this path.
    Inside(PathBuf, &'static str),
}

/// What a [`DatabaseFile`] says, with the file name as its characters.
pub enum DatabaseFileView {
    Given(PathBuf),
    Inside(PathBuf, Seq<char>),
}

impl View for DatabaseFile {
    type V = DatabaseFileView;

    open spec fn view(&self) -> DatabaseFileView {
        match *self {
            DatabaseFile::Given(path) => DatabaseFileView::Given(path),
            DatabaseFile::Inside(path, name) => DatabaseFileView::Inside(path, name@),
        }
    }
}

/// The file for the configured `path`: that path, or, where it is a directory, the file
/// `default_name` in it.
pub open spec fn database_file(
    path: PathBuf,
    path_is_dir: bool,
    default_name: Seq<char>,
) -> DatabaseFileView {
    if path_is_dir {
        DatabaseFileView::Inside(path, default_name)
    } else {
        DatabaseFileView::Given(path)
    }
}

impl DatabaseFile {
    /// Selects the file for the configured `path`. An engine that keeps its database in one file
    /// puts it under `default_name` where `path` is a directory.
    pub fn select(path: PathBuf, path_is_dir: bool, default_name: &'static str) -> (r: Self)
        ensures
            r@ == database_file(path, path_is_dir, default_name@),
            path_is_dir ==> r == DatabaseFile::Inside(path, default_name),
            !path_is_dir ==> r == DatabaseFile::Given(path),
    {
        if path_is_dir {
            DatabaseFile::Inside(path, default_name)
        } else {
            DatabaseFile::Given(path)
        }
    }
}

/// A path that is not a directory is the file itself; a directory holds the file under its default
/// name.
pub proof fn law_database_file(path: PathBuf, default_name: Seq<char>)
    ensures
        database_file(path, false, default_name) == DatabaseFileView::Given(path),
        database_file(path, true, default_name) == DatabaseFileView::Inside(path, default_name),
{
}

/// What a file says is its path and, in a directory, its name.
pub proof fn law_database_file_says_its_path(file: DatabaseFile)
    ensures
        match file {
            DatabaseFile::Given(path) => file@ == DatabaseFileView::Given(path),
            DatabaseFile::Inside(path, name) => file@ == DatabaseFileView::Inside(path, name@),
        },
{
}

/// The file that is selected is the path itself, or the default name in the directory at the path.
pub proof fn law_select_outcome(
    path: PathBuf,
    path_is_dir: bool,
    default_name: &'static str,
    r: DatabaseFile,
)
    requires
        call_ensures(DatabaseFile::select, (path, path_is_dir, default_name), r),
    ensures
        r == (if path_is_dir {
            DatabaseFile::Inside(path, default_name)
        } else {
            DatabaseFile::Given(path)
        }),
{
}

} // verus!
