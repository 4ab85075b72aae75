//! The local store: resolves the per-user application directory, decides
//! the outcome of a whole-file save or load, and models the stored
//! documents as a map from filename to content. The host performs the
//! actual directory creation, write and read, and feeds the results back
//! into the decision functions here.

use vstd::prelude::*;
use vstd::string::StringExecFns;
use crate::BackendError;

verus! {

/// The fixed application directory name under the user configuration
/// directory.
pub open spec fn app_dir_name() -> Seq<char> {
    "ProjectManagerPro"@
}

/// Relies on `dirs::config_dir`: the platform user-configuration
/// directory, if the operating system reports one. The result depends
/// on the environment, so nothing is promised of it.
#[verifier::external_body]
fn config_dir_path() -> (r: Option<String>) {
    dirs::config_dir().map(|p| p.to_string_lossy().into_owned())
}

/// `dir` and `name` joined into one path.
pub open spec fn joined_path(dir: Seq<char>, name: Seq<char>) -> Seq<char> {
    dir + "/"@ + name
}

/// Joins a directory and an entry name with a path separator.
pub fn join_path(dir: &str, name: &str) -> (r: String)
    ensures
        r@ == joined_path(dir@, name@),
{
    let mut r = String::from_str(dir);
    r.append("/");
    r.append(name);
    r
}

/// The application directory derived from a reported configuration
/// directory: the fixed subdirectory name joined onto it, or
/// [`BackendError::ConfigDirUnavailable`] when the OS reported none.
pub fn app_dir_from(config: Option<String>) -> (r: Result<String, BackendError>)
    ensures
        match config {
            Option::Some(d) => r matches Result::Ok(p) && p@ == joined_path(d@, app_dir_name()),
            Option::None => r == Result::<String, BackendError>::Err(
                BackendError::ConfigDirUnavailable,
            ),
        },
{
    match config {
        Option::Some(d) => Result::Ok(join_path(d.as_str(), "ProjectManagerPro")),
        Option::None => Result::Err(BackendError::ConfigDirUnavailable),
    }
}

/// Resolves the application data directory from the OS user-config
/// convention; recomputed on every call, never cached.
pub fn resolve_app_directory() -> (r: Result<String, BackendError>)
    ensures
        r matches Result::Ok(p) ==> exists|base: Seq<char>|
            p@ == #[trigger] joined_path(base, app_dir_name()),
        r matches Result::Err(e) ==> e == BackendError::ConfigDirUnavailable,
{
    app_dir_from(config_dir_path())
}

/// What the host reports back after trying to persist a document:
/// directory creation failed, the write itself failed, or the write
/// went through.
pub enum WriteAttempt {
    DirFailed(String),
    WriteFailed(String),
    Written,
}

/// Decides the outcome of a save: a created-or-present directory and a
/// successful write yield the confirmation naming the path written;
/// either failure yields an [`BackendError::IoError`] carrying the OS
/// reason.
pub fn save_outcome(path: &str, attempt: WriteAttempt) -> (r: Result<String, BackendError>)
    ensures
        match attempt {
            WriteAttempt::DirFailed(e) => r matches Result::Err(BackendError::IoError(m)) && m@
                == "Failed to create app directory: "@ + e@,
            WriteAttempt::WriteFailed(e) => r matches Result::Err(BackendError::IoError(m)) && m@
                == "Failed to write file: "@ + e@,
            WriteAttempt::Written => r matches Result::Ok(m) && m@ == "Data saved to: "@ + path@,
        },
{
    match attempt {
        WriteAttempt::DirFailed(e) => {
            let mut m = String::from_str("Failed to create app directory: ");
            m.append(e.as_str());
            Result::Err(BackendError::IoError(m))
        },
        WriteAttempt::WriteFailed(e) => {
            let mut m = String::from_str("Failed to write file: ");
            m.append(e.as_str());
            Result::Err(BackendError::IoError(m))
        },
        WriteAttempt::Written => {
            let mut m = String::from_str("Data saved to: ");
            m.append(path);
            Result::Ok(m)
        },
    }
}

/// The sentinel a load returns when no document exists yet: the literal
/// empty JSON object.
pub open spec fn empty_sentinel() -> Seq<char> {
    "{}"@
}

/// Decides the outcome of a load from what the host read: a missing
/// file yields the sentinel `{}` rather than an error, a read file
/// yields its contents verbatim, and a failed read yields an
/// [`BackendError::IoError`] carrying the OS reason.
pub fn load_outcome(read: Option<Result<String, String>>) -> (r: Result<String, BackendError>)
    ensures
        match read {
            Option::None => r matches Result::Ok(c) && c@ == empty_sentinel(),
            Option::Some(Result::Ok(content)) => r matches Result::Ok(c) && c@ == content@,
            Option::Some(Result::Err(e)) => r matches Result::Err(BackendError::IoError(m)) && m@
                == "Failed to read file: "@ + e@,
        },
{
    match read {
        Option::None => Result::Ok(String::from_str("{}")),
        Option::Some(Result::Ok(content)) => Result::Ok(content),
        Option::Some(Result::Err(e)) => {
            let mut m = String::from_str("Failed to read file: ");
            m.append(e.as_str());
            Result::Err(BackendError::IoError(m))
        },
    }
}

// ---------------------------------------------------------------------
// The store model
// ---------------------------------------------------------------------

/// What a sequence of saved documents denotes: the map from filename to
/// the content written last.
pub open spec fn entries_map(entries: Seq<(String, String)>) -> Map<Seq<char>, Seq<char>>
    decreases entries.len(),
{
    if entries.len() == 0 {
        Map::empty()
    } else {
        entries_map(entries.drop_last()).insert(entries.last().0@, entries.last().1@)
    }
}

/// What a load returns from the documents `m`: the stored content, or
/// the sentinel `{}` for a filename never written.
pub open spec fn loaded_content(m: Map<Seq<char>, Seq<char>>, filename: Seq<char>) -> Seq<char> {
    if m.dom().contains(filename) {
        m[filename]
    } else {
        empty_sentinel()
    }
}

/// The store's documents, modelled in memory: a journal of saves whose
/// meaning is the map of [`entries_map`]. The host keeps the same
/// documents as whole files in the application directory.
pub struct StoreModel {
    entries: Vec<(String, String)>,
}

impl StoreModel {
    /// The map from filename to current content.
    pub closed spec fn view(&self) -> Map<Seq<char>, Seq<char>> {
        entries_map(self.entries@)
    }

    /// A store with no documents.
    pub fn new() -> (r: StoreModel)
        ensures
            r@ == Map::<Seq<char>, Seq<char>>::empty(),
    {
        StoreModel { entries: Vec::new() }
    }

    /// Saves `content` as the complete contents of `filename`:
    /// overwrites, never appends.
    pub fn save(&mut self, filename: &str, content: &str)
        ensures
            final(self)@ == old(self)@.insert(filename@, content@),
    {
        let entry = (String::from_str(filename), String::from_str(content));
        self.entries.push(entry);
        proof {
            assert(self.entries@.drop_last() =~= old(self).entries@);
        }
    }

    /// Loads the current content of `filename`, or the sentinel `{}`
    /// when it was never saved.
    pub fn load(&self, filename: &str) -> (r: String)
        ensures
            r@ == loaded_content(self@, filename@),
    {
        let key = String::from_str(filename);
        let n = self.entries.len();
        proof {
            assert(self.entries@.subrange(0, n as int) =~= self.entries@);
        }
        let mut i: usize = n;
        while i > 0
            invariant
                i <= n,
                n == self.entries@.len(),
                key@ == filename@,
                loaded_content(entries_map(self.entries@), filename@) == loaded_content(
                    entries_map(self.entries@.subrange(0, i as int)),
                    filename@,
                ),
            decreases i,
        {
            proof {
                let cur = self.entries@.subrange(0, i as int);
                assert(cur.drop_last() =~= self.entries@.subrange(0, i - 1 as int));
                assert(cur.last() == self.entries@[i - 1 as int]);
            }
            let hit = self.entries[i - 1].0 == key;
            if hit {
                return self.entries[i - 1].1.clone();
            }
            i = i - 1;
        }
        proof {
            assert(self.entries@.subrange(0, 0) =~= Seq::<(String, String)>::empty());
        }
        String::from_str("{}")
    }
}

// ---------------------------------------------------------------------
// Laws of the store
// ---------------------------------------------------------------------

/// Law: a load immediately after a save returns exactly the content
/// saved, for every prior state of the store.
pub proof fn lemma_store_round_trip(
    m: Map<Seq<char>, Seq<char>>,
    filename: Seq<char>,
    content: Seq<char>,
)
    ensures
        loaded_content(m.insert(filename, content), filename) == content,
{
}

/// Law: a load of a filename never written returns the literal sentinel
/// `{}`, not an error.
pub proof fn lemma_load_unwritten(m: Map<Seq<char>, Seq<char>>, filename: Seq<char>)
    requires
        !m.dom().contains(filename),
    ensures
        loaded_content(m, filename) == empty_sentinel(),
{
}

/// Law: a save is idempotent — repeating an identical save leaves the
/// store unchanged, and a load still returns the content saved.
pub proof fn lemma_save_idempotent(
    m: Map<Seq<char>, Seq<char>>,
    filename: Seq<char>,
    content: Seq<char>,
)
    ensures
        m.insert(filename, content).insert(filename, content) == m.insert(filename, content),
        loaded_content(m.insert(filename, content).insert(filename, content), filename) == content,
{
    assert(m.insert(filename, content).insert(filename, content) =~= m.insert(filename, content));
}

} // verus!
