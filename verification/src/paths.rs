//! Where a reth node keeps its files: the `db` and `static_files`
//! directories inside the node's data directory, or beside the database.

use vstd::prelude::*;
use crate::text::concat_str;

verus! {

/// `base` extended by the relative path `name`, as `Path::join` does on Unix:
/// a separator goes between them unless `base` is empty or already ends in one.
pub open spec fn spec_join(base: Seq<char>, name: Seq<char>) -> Seq<char> {
    if base.len() == 0 {
        name
    } else if base.last() == '/' {
        base + name
    } else {
        base + "/"@ + name
    }
}

/// Appends the relative path `name` to `base`.
pub fn join_relative(base: &str, name: &str) -> (r: String)
    ensures
        r@ == spec_join(base@, name@),
{
    let n = base.unicode_len();
    if n == 0 {
        String::from_str(name)
    } else if base.get_char(n - 1) == '/' {
        concat_str(base, name)
    } else {
        let mut r = String::from_str(base);
        r.append("/");
        r.append(name);
        r
    }
}

/// The text that `{:?}` gives for `std::path::Path::new(p)`: `p` in double
/// quotes, with special characters escaped.
pub uninterp spec fn path_debug_text(p: Seq<char>) -> Seq<char>;

/// Formats `std::path::Path::new(p)` with `{:?}`. Claims only that the result
/// is `path_debug_text(p)`.
#[verifier::external_body]
fn path_debug(p: &str) -> (r: String)
    ensures
        r@ == path_debug_text(p@),
{
    format!("{:?}", std::path::Path::new(p))
}

/// The parent that `std::path::Path::parent` gives for `p`: `p` without its
/// final component, or `None` for the empty path and for a path that ends in
/// a root.
pub uninterp spec fn path_parent(p: Seq<char>) -> Option<Seq<char>>;

/// Calls `std::path::Path::parent` on `p`. Claims only that the result is
/// `path_parent(p)`.
#[verifier::external_body]
fn parent_of(p: &str) -> (r: Option<String>)
    ensures
        r matches Some(q) ==> path_parent(p@) == Some(q@),
        r is None ==> path_parent(p@) is None,
{
    std::path::Path::new(p).parent().map(|q| q.to_string_lossy().into_owned())
}

/// Why a node data directory cannot be used.
#[derive(Debug, Clone, PartialEq, Eq)]
pub enum DbPathError {
    /// The directory has no `db` subdirectory.
    MissingDb(String),
    /// The directory has no `static_files` subdirectory.
    MissingStaticFiles(String),
}

/// The message of each error, naming the directory as `{:?}` shows it.
pub open spec fn spec_db_path_error_message(e: DbPathError) -> Seq<char> {
    match e {
        DbPathError::MissingDb(dir) => "no 'db' subdirectory found in directory '"@
            + path_debug_text(dir@) + "'"@,
        DbPathError::MissingStaticFiles(dir) => "no 'static_files' subdirectory found in directory '"@
            + path_debug_text(dir@) + "'"@,
    }
}

impl DbPathError {
    pub fn message(&self) -> (r: String)
        ensures
            r@ == spec_db_path_error_message(*self),
    {
        match self {
            DbPathError::MissingDb(dir) => {
                let mut r = String::from_str("no 'db' subdirectory found in directory '");
                let shown = path_debug(dir.as_str());
                r.append(shown.as_str());
                r.append("'");
                r
            },
            DbPathError::MissingStaticFiles(dir) => {
                let mut r = String::from_str(
                    "no 'static_files' subdirectory found in directory '",
                );
                let shown = path_debug(dir.as_str());
                r.append(shown.as_str());
                r.append("'");
                r
            },
        }
    }
}

/// The database directory inside a node data directory.
pub open spec fn spec_db_dir(data_dir: Seq<char>) -> Seq<char> {
    spec_join(data_dir, "db"@)
}

/// The static-files directory inside a node data directory.
pub open spec fn spec_static_files_dir(data_dir: Seq<char>) -> Seq<char> {
    spec_join(data_dir, "static_files"@)
}

/// The `db` and `static_files` directories inside `data_dir`.
pub fn node_subdirectories(data_dir: &str) -> (r: (String, String))
    ensures
        r.0@ == spec_db_dir(data_dir@),
        r.1@ == spec_static_files_dir(data_dir@),
{
    (join_relative(data_dir, "db"), join_relative(data_dir, "static_files"))
}

/// Checks the two subdirectories of `data_dir`, given whether each exists:
/// the database directory is checked first.
pub fn check_node_subdirectories(data_dir: &str, db_exists: bool, static_files_exists: bool) -> (r:
    Result<(String, String), DbPathError>)
    ensures
        if !db_exists {
            r matches Err(DbPathError::MissingDb(d)) && d@ == data_dir@
        } else if !static_files_exists {
            r matches Err(DbPathError::MissingStaticFiles(d)) && d@ == data_dir@
        } else {
            r matches Ok((a, b)) && a@ == spec_db_dir(data_dir@) && b@ == spec_static_files_dir(
                data_dir@,
            )
        },
{
    let (db, static_files) = node_subdirectories(data_dir);
    if !db_exists {
        return Err(DbPathError::MissingDb(String::from_str(data_dir)));
    }
    if !static_files_exists {
        return Err(DbPathError::MissingStaticFiles(String::from_str(data_dir)));
    }
    Ok((db, static_files))
}

/// The `static_files` directory beside a database at `db_path`: the database
/// path is cut back to its parent (when it has one), then `static_files` is
/// appended.
pub open spec fn spec_static_files_beside(db_path: Seq<char>) -> Seq<char> {
    let dir = match path_parent(db_path) {
        Some(parent) => parent,
        None => db_path,
    };
    spec_join(dir, "static_files"@)
}

/// The `static_files` directory beside the database at `db_path`.
pub fn static_files_beside(db_path: &str) -> (r: String)
    ensures
        r@ == spec_static_files_beside(db_path@),
        match path_parent(db_path@) {
            Some(parent) => r@ == spec_join(parent, "static_files"@),
            None => r@ == spec_join(db_path@, "static_files"@),
        },
{
    match parent_of(db_path) {
        Some(parent) => join_relative(parent.as_str(), "static_files"),
        None => join_relative(db_path, "static_files"),
    }
}

/// Joining keeps the base as the leading part and the name as the trailing
/// part, with exactly one separator between them when the base is non-empty
/// and does not already end in one.
pub proof fn lemma_join_shape(base: Seq<char>, name: Seq<char>)
    ensures
        base.len() == 0 ==> spec_join(base, name) == name,
        base.len() > 0 && base.last() == '/' ==> spec_join(base, name) == base + name,
        base.len() > 0 && base.last() != '/' ==> spec_join(base, name) == base + seq!['/'] + name,
{
    reveal_strlit("/");
}

/// For every database path that has a parent, relative or absolute, the
/// static files lie in `static_files` inside that parent; a path without a
/// parent gets `static_files` appended to it.
pub proof fn lemma_static_files_in_parent(db_path: Seq<char>)
    ensures
        path_parent(db_path) matches Some(parent) ==> spec_static_files_beside(db_path) == spec_join(
            parent,
            "static_files"@,
        ),
        path_parent(db_path) is None ==> spec_static_files_beside(db_path) == spec_join(
            db_path,
            "static_files"@,
        ),
        path_parent(db_path) matches Some(parent) ==> (parent.len() == 0
            ==> spec_static_files_beside(db_path) == "static_files"@) && (parent.len() > 0
            && parent.last() != '/' ==> spec_static_files_beside(db_path) == parent + seq!['/']
            + "static_files"@),
{
    reveal_strlit("/");
}

/// The database directory is `db` and the static-files directory is
/// `static_files` inside the data directory: the data directory, a separator
/// unless it is empty or already ends in one, then the name.
pub proof fn lemma_data_dir_layout(data_dir: Seq<char>)
    ensures
        data_dir.len() == 0 ==> spec_db_dir(data_dir) == "db"@ && spec_static_files_dir(data_dir)
            == "static_files"@,
        data_dir.len() > 0 && data_dir.last() == '/' ==> spec_db_dir(data_dir) == data_dir + "db"@
            && spec_static_files_dir(data_dir) == data_dir + "static_files"@,
        data_dir.len() > 0 && data_dir.last() != '/' ==> spec_db_dir(data_dir) == data_dir + seq![
            '/',
        ] + "db"@ && spec_static_files_dir(data_dir) == data_dir + seq!['/'] + "static_files"@,
{
    reveal_strlit("/");
}

/// The database and static-files directories of a data directory are
/// different paths, and both lie inside the data directory.
pub proof fn lemma_subdirectories_distinct(data_dir: Seq<char>)
    ensures
        spec_db_dir(data_dir) != spec_static_files_dir(data_dir),
        spec_db_dir(data_dir).subrange(0, data_dir.len() as int) == data_dir,
        spec_static_files_dir(data_dir).subrange(0, data_dir.len() as int) == data_dir,
{
    reveal_strlit("db");
    reveal_strlit("static_files");
    reveal_strlit("/");
    let a = spec_db_dir(data_dir);
    let b = spec_static_files_dir(data_dir);
    if data_dir.len() == 0 {
        assert(a.len() != b.len());
    } else if data_dir.last() == '/' {
        assert(a.len() != b.len());
        assert(a.subrange(0, data_dir.len() as int) =~= data_dir);
        assert(b.subrange(0, data_dir.len() as int) =~= data_dir);
    } else {
        assert(a.len() != b.len());
        assert(a.subrange(0, data_dir.len() as int) =~= data_dir);
        assert(b.subrange(0, data_dir.len() as int) =~= data_dir);
    }
}

} // verus!
