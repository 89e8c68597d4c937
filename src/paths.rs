use vstd::prelude::*;

verus! {

/// Path of the backend entry script, relative to the resource directory.
pub const BACKEND_ENTRY: &'static str = "resources/backend/backend.cjs";

/// Name of the persistent-data directory inside the application data directory.
pub const DATA_DIR_NAME: &'static str = "data";

/// Name of the uploads directory inside the application data directory.
pub const UPLOADS_DIR_NAME: &'static str = "uploads";

/// Name of the backend's database file inside the data directory.
pub const DATABASE_FILE: &'static str = "scheduler.db";

/// Appending the relative path `seg` to `base`: a separator is put between
/// them unless `base` is empty or already ends with one.
pub open spec fn join_spec(base: Seq<char>, seg: Seq<char>) -> Seq<char> {
    if base.len() == 0 {
        seg
    } else if base.last() == '/' {
        base + seg
    } else {
        base + seq!['/'] + seg
    }
}

/// `p` names `dir` itself or something below it.
pub open spec fn within(p: Seq<char>, dir: Seq<char>) -> bool {
    p == dir || (dir + seq!['/']).is_prefix_of(p)
}

/// Joins the relative path `seg` onto `base`.
pub fn join_path(base: &str, seg: &str) -> (r: String)
    ensures
        r@ == join_spec(base@, seg@),
{
    let n = base.unicode_len();
    if n == 0 {
        return String::from_str(seg);
    }
    let mut r = String::from_str(base);
    if base.get_char(n - 1) != '/' {
        proof {
            reveal_strlit("/");
        }
        r.append("/");
    }
    r.append(seg);
    proof {
        assert(base@.last() == base@[n - 1]);
    }
    r
}

/// Where the backend entry script lies for a given resource directory.
pub open spec fn backend_entry_of(resource_dir: Seq<char>) -> Seq<char> {
    join_spec(resource_dir, BACKEND_ENTRY@)
}

/// The persistent-data directory for a given application data directory.
pub open spec fn data_dir_of(app_data_dir: Seq<char>) -> Seq<char> {
    join_spec(app_data_dir, DATA_DIR_NAME@)
}

/// The uploads directory for a given application data directory.
pub open spec fn uploads_dir_of(app_data_dir: Seq<char>) -> Seq<char> {
    join_spec(app_data_dir, UPLOADS_DIR_NAME@)
}

/// The database file for a given data directory.
pub open spec fn database_path_of(data_dir: Seq<char>) -> Seq<char> {
    join_spec(data_dir, DATABASE_FILE@)
}

/// The locations the backend needs: its entry script and its two
/// writable directories.
#[derive(Debug)]
pub struct ResolvedPaths {
    pub backend_entry: String,
    pub data_dir: String,
    pub uploads_dir: String,
}

impl ResolvedPaths {
    /// These paths were laid out from `resource_dir` and `app_data_dir`.
    pub open spec fn laid_out_from(&self, resource_dir: Seq<char>, app_data_dir: Seq<char>) -> bool {
        &&& self.backend_entry@ == backend_entry_of(resource_dir)
        &&& self.data_dir@ == data_dir_of(app_data_dir)
        &&& self.uploads_dir@ == uploads_dir_of(app_data_dir)
    }
}

/// The backend entry script below the resource directory.
pub fn backend_entry_path(resource_dir: &str) -> (r: String)
    ensures
        r@ == backend_entry_of(resource_dir@),
{
    join_path(resource_dir, BACKEND_ENTRY)
}

/// Completes the layout once the application data directory is known.
pub fn resolve_paths(backend_entry: String, app_data_dir: &str) -> (r: ResolvedPaths)
    ensures
        r.backend_entry == backend_entry,
        r.data_dir@ == data_dir_of(app_data_dir@),
        r.uploads_dir@ == uploads_dir_of(app_data_dir@),
{
    let data_dir = join_path(app_data_dir, DATA_DIR_NAME);
    let uploads_dir = join_path(app_data_dir, UPLOADS_DIR_NAME);
    ResolvedPaths { backend_entry, data_dir, uploads_dir }
}

/// The database file inside `data_dir`.
pub fn database_path(data_dir: &str) -> (r: String)
    ensures
        r@ == database_path_of(data_dir@),
{
    join_path(data_dir, DATABASE_FILE)
}

/// The database file lies in the data directory, a sibling of the uploads
/// directory under the application data directory, and never inside the
/// uploads directory.
pub proof fn lemma_database_beside_uploads(app_data_dir: Seq<char>)
    ensures
        within(database_path_of(data_dir_of(app_data_dir)), data_dir_of(app_data_dir)),
        !within(database_path_of(data_dir_of(app_data_dir)), uploads_dir_of(app_data_dir)),
{
    reveal_strlit("data");
    reveal_strlit("uploads");
    reveal_strlit("scheduler.db");
    let a = app_data_dir;
    let d = data_dir_of(a);
    let u = uploads_dir_of(a);
    let db = database_path_of(d);
    assert(d.last() == 'a');
    assert(db =~= d + seq!['/'] + DATABASE_FILE@);
    assert((d + seq!['/']).is_prefix_of(db));
    // the first character after the shared prefix tells the two apart
    let k: int = if a.len() == 0 {
        0
    } else if a.last() == '/' {
        a.len() as int
    } else {
        a.len() + 1int
    };
    assert(db[k] == 'd');
    assert(u[k] == 'u');
    assert(u.len() > k);
    if (u + seq!['/']).is_prefix_of(db) {
        assert(db[k] == (u + seq!['/'])[k]);
    }
}

} // verus!
