//! Where an agent works: the workspace directory that its settings name,
//! or the one that its configuration file lives in.
use vstd::prelude::*;
use vstd::string::StringExecFns;

verus! {

/// The parent of a path, as `std::path::Path::parent` computes it on the
/// platform the crate is built for, as text.
pub uninterp spec fn path_parent(path: Seq<char>) -> Option<Seq<char>>;

/// The last component of a path, as `std::path::Path::file_name` computes
/// it on the platform the crate is built for, as text.
pub uninterp spec fn path_file_name(path: Seq<char>) -> Option<Seq<char>>;

/// Calls `std::path::Path::parent` on `path`, which its documentation
/// describes as the path without its final component. Trusted to return the
/// text of the parent that `path_parent` names, which is a prefix of `path`
/// itself, shorter than it by that final component, so the conversion back
/// to text loses nothing.
#[verifier::external_body]
fn parent_of(path: &str) -> (r: Option<String>)
    ensures
        r.deep_view() == path_parent(path@),
        r matches Some(p) ==> p@.is_prefix_of(path@) && p@.len() < path@.len(),
{
    match std::path::Path::new(path).parent() {
        Some(p) => Some(p.to_string_lossy().into_owned()),
        None => None,
    }
}

/// Calls `std::path::Path::file_name` on `path`. Trusted to return the text
/// of the last component that `path_file_name` names.
#[verifier::external_body]
fn file_name_of(path: &str) -> (r: Option<String>)
    ensures
        r.deep_view() == path_file_name(path@),
{
    match std::path::Path::new(path).file_name() {
        Some(name) => Some(name.to_string_lossy().into_owned()),
        None => None,
    }
}

/// A prefix of a prefix of a text is a prefix of the text.
proof fn lemma_prefix_transitive(a: Seq<char>, b: Seq<char>, c: Seq<char>)
    requires
        a.is_prefix_of(b),
        b.is_prefix_of(c),
    ensures
        a.is_prefix_of(c),
{
    assert(a =~= c.subrange(0, a.len() as int)) by {
        assert forall|i: int| 0 <= i < a.len() implies a[i] == c[i] by {
            assert(a[i] == b[i]);
            assert(b[i] == c[i]);
        }
    }
}

/// The first step of finding the workspace.
#[derive(Debug, Clone, PartialEq, Eq)]
pub enum WorkspaceHint {
    /// The workspace is known: the given one, or none at all.
    Resolved(Option<String>),
    /// The workspace follows from this configuration file, once it is known
    /// whether the file exists and is a file.
    CheckConfigFile(String),
}

/// What the file system says of a configuration file.
#[derive(Debug, Clone, PartialEq, Eq)]
pub enum ConfigFileStatus {
    /// It is a file.
    IsFile,
    /// It exists but is not a file.
    NotAFile,
    /// Its metadata could not be read; the reason.
    Unreadable(String),
}

/// Why no workspace could be found.
#[derive(Debug, Clone, PartialEq, Eq)]
pub enum WorkspaceError {
    /// The configuration file could not be read.
    ConfigUnreadable { path: String, reason: String },
    /// The configuration file is not a file.
    ConfigNotAFile { path: String },
    /// The configuration file has no parent directory.
    NoParentDirectory,
    /// The configuration file's directory `.codex` has no parent directory.
    NotUnderCodexDirectory,
}

/// The text of a workspace error.
pub open spec fn workspace_error_message(e: WorkspaceError) -> Seq<char> {
    match e {
        WorkspaceError::ConfigUnreadable { path, reason } => "Failed to read config file "@
            + path@,
        WorkspaceError::ConfigNotAFile { path } => "Config file "@ + path@ + " is not a file"@,
        WorkspaceError::NoParentDirectory => "Config file must have a parent directory"@,
        WorkspaceError::NotUnderCodexDirectory => "Config file must live under a .codex directory"@,
    }
}

impl WorkspaceError {
    /// The text of the error.
    pub fn message(&self) -> (r: String)
        ensures
            r@ == workspace_error_message(*self),
    {
        match self {
            WorkspaceError::ConfigUnreadable { path, .. } => String::from_str(
                "Failed to read config file ",
            ).concat(path.as_str()),
            WorkspaceError::ConfigNotAFile { path } => String::from_str("Config file ").concat(
                path.as_str(),
            ).concat(" is not a file"),
            WorkspaceError::NoParentDirectory => String::from_str(
                "Config file must have a parent directory",
            ),
            WorkspaceError::NotUnderCodexDirectory => String::from_str(
                "Config file must live under a .codex directory",
            ),
        }
    }
}

/// `r` is the first step of finding the workspace from the workspace
/// `explicit` and the configuration file `config_file` of the settings.
pub open spec fn workspace_hint_result(
    explicit: Option<Seq<char>>,
    config_file: Option<Seq<char>>,
    r: WorkspaceHint,
) -> bool {
    match explicit {
        Some(w) => r matches WorkspaceHint::Resolved(Some(x)) && x@ == w,
        None => match config_file {
            Some(c) => r matches WorkspaceHint::CheckConfigFile(x) && x@ == c,
            None => r matches WorkspaceHint::Resolved(None),
        },
    }
}

/// The first step of finding the workspace: a workspace that the settings
/// name wins; without one, the configuration file decides, once the file
/// system has been asked about it; without either, there is none.
pub fn resolve_workspace_hint(explicit_workspace: Option<&str>, config_file: Option<&str>) -> (r:
    WorkspaceHint)
    ensures
        workspace_hint_result(explicit_workspace.deep_view(), config_file.deep_view(), r),
{
    match explicit_workspace {
        Some(w) => WorkspaceHint::Resolved(Some(String::from_str(w))),
        None => match config_file {
            Some(c) => WorkspaceHint::CheckConfigFile(String::from_str(c)),
            None => WorkspaceHint::Resolved(None),
        },
    }
}

/// `r` is the workspace that follows from a configuration file whose parent
/// directory is `parent`, where that directory's name is `parent_name` and
/// its own parent is `grandparent`.
pub open spec fn config_dir_workspace_result(
    parent: Option<Seq<char>>,
    parent_name: Option<Seq<char>>,
    grandparent: Option<Seq<char>>,
    r: Result<Option<String>, WorkspaceError>,
) -> bool {
    match parent {
        None => r matches Err(WorkspaceError::NoParentDirectory),
        Some(p) => if parent_name == Some(".codex"@) {
            match grandparent {
                Some(g) => r matches Ok(Some(w)) && w@ == g,
                None => r matches Err(WorkspaceError::NotUnderCodexDirectory),
            }
        } else {
            r matches Ok(Some(w)) && w@ == p
        },
    }
}

/// The workspace that follows from a configuration file whose parent
/// directory is `parent`, where that directory's name is `parent_name` and
/// its own parent is `grandparent`: the directory itself, or its parent
/// where the directory is named `.codex`.
pub fn workspace_from_config_dir(
    parent: Option<String>,
    parent_name: Option<String>,
    grandparent: Option<String>,
) -> (r: Result<Option<String>, WorkspaceError>)
    ensures
        config_dir_workspace_result(
            parent.deep_view(),
            parent_name.deep_view(),
            grandparent.deep_view(),
            r,
        ),
{
    match parent {
        None => Err(WorkspaceError::NoParentDirectory),
        Some(p) => {
            let is_codex_dir = match parent_name {
                Some(name) => name == String::from_str(".codex"),
                None => false,
            };
            if is_codex_dir {
                match grandparent {
                    Some(g) => Ok(Some(g)),
                    None => Err(WorkspaceError::NotUnderCodexDirectory),
                }
            } else {
                Ok(Some(p))
            }
        },
    }
}

/// `r` is the workspace that follows from the configuration file
/// `config_file`, of which the file system says `status`.
pub open spec fn config_workspace_result(
    config_file: Seq<char>,
    status: ConfigFileStatus,
    r: Result<Option<String>, WorkspaceError>,
) -> bool {
    match status {
        ConfigFileStatus::Unreadable(reason) => r matches Err(
            WorkspaceError::ConfigUnreadable { path, reason: why },
        ) && path@ == config_file && why@ == reason@,
        ConfigFileStatus::NotAFile => r matches Err(WorkspaceError::ConfigNotAFile { path })
            && path@ == config_file,
        ConfigFileStatus::IsFile => {
            let parent = path_parent(config_file);
            let parent_name = match parent {
                Some(p) => path_file_name(p),
                None => None,
            };
            let grandparent = match parent {
                Some(p) => path_parent(p),
                None => None,
            };
            config_dir_workspace_result(parent, parent_name, grandparent, r)
        },
    }
}

/// The second step of finding the workspace: the configuration file must
/// be a file, and the workspace is the directory it lives in, or the
/// parent of that directory where it is named `.codex`.
pub fn resolve_config_workspace(config_file: &str, status: ConfigFileStatus) -> (r: Result<
    Option<String>,
    WorkspaceError,
>)
    ensures
        config_workspace_result(config_file@, status, r),
        r matches Ok(Some(w)) ==> w@.is_prefix_of(config_file@) && w@.len()
            < config_file@.len(),
{
    match status {
        ConfigFileStatus::Unreadable(reason) => Err(
            WorkspaceError::ConfigUnreadable { path: String::from_str(config_file), reason },
        ),
        ConfigFileStatus::NotAFile => Err(
            WorkspaceError::ConfigNotAFile { path: String::from_str(config_file) },
        ),
        ConfigFileStatus::IsFile => {
            let parent = parent_of(config_file);
            let (parent_name, grandparent) = match &parent {
                Some(p) => (file_name_of(p.as_str()), parent_of(p.as_str())),
                None => (None, None),
            };
            proof {
                if grandparent is Some {
                    lemma_prefix_transitive(
                        grandparent->0@,
                        parent->0@,
                        config_file@,
                    );
                }
            }
            workspace_from_config_dir(parent, parent_name, grandparent)
        },
    }
}

} // verus!
