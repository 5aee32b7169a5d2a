//! Builders that gather what is needed to open a node's database read-only
//! and build its handlers: where the database and static files lie, with
//! which arguments to open it, and how many tracing tasks may run at once.

use vstd::prelude::*;
use std::sync::Arc;
use crate::node_client::NodeClientSpec;
use crate::paths::{
    DbPathError, check_node_subdirectories, node_subdirectories, spec_db_dir,
    spec_static_files_dir, spec_static_files_beside, static_files_beside,
};

verus! {

/// Gathers the settings of a client over a node data directory that holds a
/// `db` and a `static_files` subdirectory. `A` is the type of the database
/// arguments.
pub struct RethNodeClientBuilder<N: NodeClientSpec, A> {
    db_path: String,
    max_tasks: usize,
    db_args: Option<A>,
    chain: Arc<N::NodeChainSpec>,
    ipc_path_or_rpc_url: Option<String>,
}

/// Everything needed to open a node's database and build its client.
pub struct NodeBuildPlan<N: NodeClientSpec, A> {
    /// The database directory to open read-only.
    pub db_path: String,
    /// The static-files directory.
    pub static_files_path: String,
    /// The database arguments, if any were given (else the defaults apply).
    pub db_args: Option<A>,
    /// How many tracing calls may run at once.
    pub max_tasks: usize,
    pub chain: Arc<N::NodeChainSpec>,
    pub ipc_path_or_rpc_url: Option<String>,
}

impl<N: NodeClientSpec, A> RethNodeClientBuilder<N, A> {
    pub closed spec fn spec_db_path(&self) -> Seq<char> {
        self.db_path@
    }

    pub closed spec fn spec_max_tasks(&self) -> usize {
        self.max_tasks
    }

    pub closed spec fn spec_db_args(&self) -> Option<A> {
        self.db_args
    }

    pub closed spec fn spec_chain(&self) -> Arc<N::NodeChainSpec> {
        self.chain
    }

    pub closed spec fn spec_connection_url(&self) -> Option<String> {
        self.ipc_path_or_rpc_url
    }

    /// A builder for the node data directory `db_path`, with no database
    /// arguments yet.
    pub fn new(
        db_path: &str,
        max_tasks: usize,
        chain: Arc<N::NodeChainSpec>,
        ipc_path_or_rpc_url: Option<String>,
    ) -> (r: Self)
        ensures
            r.spec_db_path() == db_path@,
            r.spec_max_tasks() == max_tasks,
            r.spec_db_args() is None,
            r.spec_chain() == chain,
            r.spec_connection_url() == ipc_path_or_rpc_url,
    {
        RethNodeClientBuilder {
            db_path: String::from_str(db_path),
            max_tasks,
            db_args: None,
            chain,
            ipc_path_or_rpc_url,
        }
    }

    /// The same builder, opening the database with `db_args`.
    pub fn with_db_args(self, db_args: A) -> (r: Self)
        ensures
            r.spec_db_args() == Some(db_args),
            r.spec_db_path() == self.spec_db_path(),
            r.spec_max_tasks() == self.spec_max_tasks(),
            r.spec_chain() == self.spec_chain(),
            r.spec_connection_url() == self.spec_connection_url(),
    {
        let mut this = self;
        this.db_args = Some(db_args);
        this
    }

    /// The database and static-files directories that the data directory
    /// must hold, before their existence is checked.
    pub fn candidate_db_paths(&self) -> (r: (String, String))
        ensures
            r.0@ == spec_db_dir(self.spec_db_path()),
            r.1@ == spec_static_files_dir(self.spec_db_path()),
    {
        node_subdirectories(self.db_path.as_str())
    }

    /// The database and static-files directories, given whether each of
    /// the candidates exists: a missing database is reported before missing
    /// static files.
    pub fn db_paths(&self, db_exists: bool, static_files_exists: bool) -> (r: Result<
        (String, String),
        DbPathError,
    >)
        ensures
            if !db_exists {
                r matches Err(DbPathError::MissingDb(d)) && d@ == self.spec_db_path()
            } else if !static_files_exists {
                r matches Err(DbPathError::MissingStaticFiles(d)) && d@ == self.spec_db_path()
            } else {
                r matches Ok((a, b)) && a@ == spec_db_dir(self.spec_db_path()) && b@
                    == spec_static_files_dir(self.spec_db_path())
            },
    {
        check_node_subdirectories(self.db_path.as_str(), db_exists, static_files_exists)
    }

    /// What building the client needs, given whether the candidate
    /// directories exist; fails as `db_paths` does.
    pub fn build_plan(self, db_exists: bool, static_files_exists: bool) -> (r: Result<
        NodeBuildPlan<N, A>,
        DbPathError,
    >)
        ensures
            if !db_exists {
                r matches Err(DbPathError::MissingDb(d)) && d@ == self.spec_db_path()
            } else if !static_files_exists {
                r matches Err(DbPathError::MissingStaticFiles(d)) && d@ == self.spec_db_path()
            } else {
                r matches Ok(p) && {
                    &&& p.db_path@ == spec_db_dir(self.spec_db_path())
                    &&& p.static_files_path@ == spec_static_files_dir(self.spec_db_path())
                    &&& p.db_args == self.spec_db_args()
                    &&& p.max_tasks == self.spec_max_tasks()
                    &&& p.chain == self.spec_chain()
                    &&& p.ipc_path_or_rpc_url == self.spec_connection_url()
                }
            },
    {
        match self.db_paths(db_exists, static_files_exists) {
            Err(e) => Err(e),
            Ok((db_path, static_files_path)) => Ok(
                NodeBuildPlan {
                    db_path,
                    static_files_path,
                    db_args: self.db_args,
                    max_tasks: self.max_tasks,
                    chain: self.chain,
                    ipc_path_or_rpc_url: self.ipc_path_or_rpc_url,
                },
            ),
        }
    }
}

/// Gathers the settings of a client over a database directory whose static
/// files lie beside it, in a `static_files` directory of the same parent.
pub struct RethLibmdbxClientBuilder<A> {
    db_path: String,
    max_tasks: usize,
    db_args: Option<A>,
}

/// Everything needed to open a database and build its client.
pub struct LibmdbxBuildPlan<A> {
    pub db_path: String,
    pub static_files_path: String,
    pub db_args: Option<A>,
    pub max_tasks: usize,
}

impl<A> RethLibmdbxClientBuilder<A> {
    pub closed spec fn spec_db_path(&self) -> Seq<char> {
        self.db_path@
    }

    pub closed spec fn spec_max_tasks(&self) -> usize {
        self.max_tasks
    }

    pub closed spec fn spec_db_args(&self) -> Option<A> {
        self.db_args
    }

    pub fn new(db_path: &str, max_tasks: usize) -> (r: Self)
        ensures
            r.spec_db_path() == db_path@,
            r.spec_max_tasks() == max_tasks,
            r.spec_db_args() is None,
    {
        RethLibmdbxClientBuilder { db_path: String::from_str(db_path), max_tasks, db_args: None }
    }

    pub fn with_db_args(self, db_args: A) -> (r: Self)
        ensures
            r.spec_db_args() == Some(db_args),
            r.spec_db_path() == self.spec_db_path(),
            r.spec_max_tasks() == self.spec_max_tasks(),
    {
        let mut this = self;
        this.db_args = Some(db_args);
        this
    }

    /// The static-files directory beside the database.
    pub fn static_files_path(&self) -> (r: String)
        ensures
            r@ == spec_static_files_beside(self.spec_db_path()),
    {
        static_files_beside(self.db_path.as_str())
    }

    /// What building the client needs: the database path as given, and the
    /// static-files directory beside it.
    pub fn build_plan(self) -> (r: LibmdbxBuildPlan<A>)
        ensures
            r.db_path@ == self.spec_db_path(),
            r.static_files_path@ == spec_static_files_beside(self.spec_db_path()),
            r.db_args == self.spec_db_args(),
            r.max_tasks == self.spec_max_tasks(),
    {
        let static_files_path = self.static_files_path();
        LibmdbxBuildPlan {
            db_path: self.db_path,
            static_files_path,
            db_args: self.db_args,
            max_tasks: self.max_tasks,
        }
    }
}

} // verus!
