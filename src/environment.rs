use vstd::prelude::*;
use crate::paths::{database_path, database_path_of, ResolvedPaths};

verus! {

pub const DATABASE_PATH_VAR: &'static str = "DATABASE_PATH";

pub const UPLOADS_DIR_VAR: &'static str = "UPLOADS_DIR";

pub const PORT_VAR: &'static str = "PORT";

pub const NODE_ENV_VAR: &'static str = "NODE_ENV";

/// The port the backend listens on; fixed.
pub const BACKEND_PORT: &'static str = "3001";

/// The runtime mode marker handed to the backend.
pub const PRODUCTION_MARKER: &'static str = "production";

/// An environment as a sequence of (name, value) pairs.
pub open spec fn env_view(vars: Seq<(String, String)>) -> Seq<(Seq<char>, Seq<char>)> {
    vars.map_values(|p: (String, String)| (p.0@, p.1@))
}

/// The environment handed to the backend for the given directories.
pub open spec fn backend_env_spec(data_dir: Seq<char>, uploads_dir: Seq<char>) -> Seq<(Seq<char>, Seq<char>)> {
    seq![
        (DATABASE_PATH_VAR@, database_path_of(data_dir)),
        (UPLOADS_DIR_VAR@, uploads_dir),
        (PORT_VAR@, BACKEND_PORT@),
        (NODE_ENV_VAR@, PRODUCTION_MARKER@),
    ]
}

/// Builds the backend's environment: database file, uploads directory,
/// listening port and the production marker.
pub fn backend_environment(paths: &ResolvedPaths) -> (r: Vec<(String, String)>)
    ensures
        env_view(r@) == backend_env_spec(paths.data_dir@, paths.uploads_dir@),
{
    let r = vec![
        (String::from_str(DATABASE_PATH_VAR), database_path(paths.data_dir.as_str())),
        (String::from_str(UPLOADS_DIR_VAR), paths.uploads_dir.clone()),
        (String::from_str(PORT_VAR), String::from_str(BACKEND_PORT)),
        (String::from_str(NODE_ENV_VAR), String::from_str(PRODUCTION_MARKER)),
    ];
    assert(env_view(r@) =~= backend_env_spec(paths.data_dir@, paths.uploads_dir@));
    r
}

} // verus!
