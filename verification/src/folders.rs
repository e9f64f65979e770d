//! Folders the agent may work in, and the check that a path lies inside one of them.
use vstd::prelude::*;
use vstd::string::*;
use crate::paths::{components, is_absolute, join_path, path_starts_with, is_absolute_path, join_paths, starts_with_path};
use crate::text::{owned, concat3};
use crate::ids::{new_uuid_string, now_timestamp, uuid_text};

verus! {

broadcast use vstd::string::group_string_axioms;

/// A folder that the user allowed; at most one is meant to be the base folder.
pub struct AllowedFolder {
    pub id: String,
    pub path: String,
    pub name: String,
    pub is_base: bool,
    pub created_at: i64,
}

/// The folders the user allowed.
pub struct FolderSettings {
    pub folder_configs: Vec<AllowedFolder>,
}

/// A folder as the settings page sends it.
pub struct AllowedFolderRequest {
    pub id: String,
    pub path: String,
    pub name: String,
    pub is_base: bool,
}

/// The folder list as the settings page sends it.
pub struct UpdateFolderSettingsRequest {
    pub folder_configs: Vec<AllowedFolderRequest>,
}

/// The index of the first base folder.
pub open spec fn first_base(s: Seq<AllowedFolder>) -> Option<int>
    decreases s.len(),
{
    if s.len() == 0 {
        None
    } else if s[0].is_base {
        Some(0)
    } else {
        match first_base(s.drop_first()) {
            Some(i) => Some(i + 1),
            None => None,
        }
    }
}

/// The first index at which `p` holds, walking `s` from the start.
pub proof fn lemma_first_base_skip(s: Seq<AllowedFolder>, i: int)
    requires
        0 <= i <= s.len(),
        forall|j: int| 0 <= j < i ==> !s[j].is_base,
    ensures
        first_base(s) == match first_base(s.subrange(i, s.len() as int)) {
            Some(k) => Some(k + i),
            None => None::<int>,
        },
    decreases i,
{
    if i > 0 {
        lemma_first_base_skip(s.drop_first(), i - 1);
        assert(s.drop_first().subrange(i - 1, s.drop_first().len() as int) == s.subrange(
            i,
            s.len() as int,
        ));
    } else {
        assert(s.subrange(0, s.len() as int) == s);
    }
}

/// A copy of a folder.
pub fn copy_folder(f: &AllowedFolder) -> (r: AllowedFolder)
    ensures
        r.id@ == f.id@,
        r.path@ == f.path@,
        r.name@ == f.name@,
        r.is_base == f.is_base,
        r.created_at == f.created_at,
{
    AllowedFolder {
        id: f.id.clone(),
        path: f.path.clone(),
        name: f.name.clone(),
        is_base: f.is_base,
        created_at: f.created_at,
    }
}

impl AllowedFolder {
    /// A new allowed folder, with a fresh random id and the current time; `None` when the
    /// operating system's random source or the clock cannot be read.
    pub fn new(path: String, name: String, is_base: bool) -> (r: Option<Self>)
        ensures
            r matches Some(f) ==> {
                &&& uuid_text(f.id@)
                &&& f.path == path
                &&& f.name == name
                &&& f.is_base == is_base
                &&& f.created_at >= 0
            },
    {
        let id = match new_uuid_string() {
            Some(u) => u,
            None => return None,
        };
        let created_at = match now_timestamp() {
            Some(t) => t,
            None => return None,
        };
        Some(AllowedFolder { id, path, name, is_base, created_at })
    }
}

/// Where the default workspace goes: `fae-workspace` in the current directory, or
/// `./fae-workspace` when the current directory cannot be read.
pub open spec fn default_workspace(current_dir: Option<Seq<char>>) -> Seq<char> {
    match current_dir {
        Some(d) => join_path(d, "fae-workspace"@),
        None => "./fae-workspace"@,
    }
}

/// Where the default workspace goes, given the current directory if it could be read.
pub fn default_workspace_path(current_dir: Option<String>) -> (r: String)
    ensures
        r@ == default_workspace(match current_dir {
            Some(d) => Some(d@),
            None => None,
        }),
{
    match current_dir {
        Some(d) => join_paths(d.as_str(), "fae-workspace"),
        None => owned("./fae-workspace"),
    }
}

/// The base folder made when none is set: the default workspace, named `Default Workspace`;
/// `None` when the operating system's random source or the clock cannot be read.
pub fn default_base_folder(current_dir: Option<String>) -> (r: Option<AllowedFolder>)
    ensures
        r matches Some(f) ==> {
            &&& uuid_text(f.id@)
            &&& f.path@ == default_workspace(match current_dir {
                Some(d) => Some(d@),
                None => None,
            })
            &&& f.name@ == "Default Workspace"@
            &&& f.is_base
        },
{
    let path = default_workspace_path(current_dir);
    AllowedFolder::new(path, owned("Default Workspace"), true)
}

impl FolderSettings {
    /// No folder at all.
    pub fn empty() -> (r: Self)
        ensures
            r.folder_configs@ == Seq::<AllowedFolder>::empty(),
    {
        FolderSettings { folder_configs: Vec::new() }
    }

    /// The first folder marked as base.
    pub fn get_base_folder(&self) -> (r: Option<&AllowedFolder>)
        ensures
            r is Some == first_base(self.folder_configs@) is Some,
            r matches Some(f) ==> *f == self.folder_configs@[first_base(self.folder_configs@)->0],
    {
        let mut i: usize = 0;
        while i < self.folder_configs.len()
            invariant
                i <= self.folder_configs@.len(),
                forall|j: int| 0 <= j < i ==> !self.folder_configs@[j].is_base,
            decreases self.folder_configs.len() - i,
        {
            if self.folder_configs[i].is_base {
                proof {
                    lemma_first_base_skip(self.folder_configs@, i as int);
                }
                return Some(&self.folder_configs[i]);
            }
            i = i + 1;
        }
        proof {
            lemma_first_base_skip(self.folder_configs@, i as int);
        }
        None
    }
}

/// The plain form of a path check's outcome.
pub open spec fn outcome_view(r: Result<String, String>) -> Result<Seq<char>, Seq<char>> {
    match r {
        Ok(s) => Ok(s@),
        Err(e) => Err(e@),
    }
}

/// The error when a relative path is given and no base folder is set.
pub open spec fn no_base_message() -> Seq<char> {
    "No base folder configured. Please set up a base folder in settings."@
}

/// The error when a path lies outside every allowed folder.
pub open spec fn not_allowed_message(path: Seq<char>) -> Seq<char> {
    "Path '"@ + path
        + "' is not in any allowed folder. Please add it to your allowed folders list in settings."@
}

/// Whether some allowed folder contains `canonical`, by whole components.
pub open spec fn in_some_folder(folders: Seq<AllowedFolder>, canonical: Seq<char>) -> bool {
    exists|i: int| 0 <= i < folders.len() && path_starts_with(canonical, #[trigger] folders[i].path@)
}

/// The outcome of a path check, given how the resolved path canonicalized.
pub open spec fn folder_check(
    folders: Seq<AllowedFolder>,
    path: Seq<char>,
    canonical: Result<Seq<char>, Seq<char>>,
) -> Result<Seq<char>, Seq<char>> {
    match canonical {
        Err(e) => Err("Invalid path: "@ + e),
        Ok(c) => if in_some_folder(folders, c) {
            Ok(c)
        } else {
            Err(not_allowed_message(path))
        },
    }
}

/// Checks paths against the allowed folders.
pub struct FolderValidator {
    allowed_folders: Vec<AllowedFolder>,
    base_folder: Option<AllowedFolder>,
}

impl FolderValidator {
    /// The allowed folders.
    pub closed spec fn folders(&self) -> Seq<AllowedFolder> {
        self.allowed_folders@
    }

    /// The base folder, against which relative paths are resolved.
    pub closed spec fn base(&self) -> Option<AllowedFolder> {
        self.base_folder
    }

    /// Where a path resolves to: itself when absolute, else below the base folder (`None`
    /// when there is none).
    pub open spec fn resolved(&self, path: Seq<char>) -> Option<Seq<char>> {
        if is_absolute(path) {
            Some(path)
        } else {
            match self.base() {
                Some(b) => Some(join_path(b.path@, path)),
                None => None,
            }
        }
    }

    /// Whether `r` is what checking `path` gives, when `canonicalize` stands for the file
    /// system: the error for a missing base folder when a relative path has none to resolve
    /// against, else the folder check of what the resolved path canonicalized to.
    pub open spec fn validates<F: Fn(&str) -> Result<String, String>>(
        &self,
        canonicalize: F,
        path: Seq<char>,
        r: Result<Seq<char>, Seq<char>>,
    ) -> bool {
        match self.resolved(path) {
            None => r == Err::<Seq<char>, Seq<char>>(no_base_message()),
            Some(res) => exists|s: &str, o: Result<String, String>|
                s@ == res && #[trigger] canonicalize.ensures((s,), o) && r == folder_check(
                    self.folders(),
                    path,
                    outcome_view(o),
                ),
        }
    }

    /// A validator for the given settings; its base folder is the first one marked as base.
    pub fn from_settings(settings: FolderSettings) -> (r: Self)
        ensures
            r.folders() == settings.folder_configs@,
            r.base() is Some == first_base(settings.folder_configs@) is Some,
            r.base() matches Some(b) ==> ({
                let f = settings.folder_configs@[first_base(settings.folder_configs@)->0];
                b.id@ == f.id@ && b.path@ == f.path@ && b.name@ == f.name@ && b.is_base
                    == f.is_base && b.created_at == f.created_at
            }),
    {
        let base_folder = match settings.get_base_folder() {
            Some(f) => Some(copy_folder(f)),
            None => None,
        };
        FolderValidator { allowed_folders: settings.folder_configs, base_folder }
    }

    /// A validator for the given allowed folders and base folder, found apart.
    pub fn from_parts(settings: FolderSettings, base_folder: Option<AllowedFolder>) -> (r: Self)
        ensures
            r.folders() == settings.folder_configs@,
            r.base() == base_folder,
    {
        FolderValidator { allowed_folders: settings.folder_configs, base_folder }
    }

    /// Resolves `path` (relative paths against the base folder), canonicalizes it with
    /// `canonicalize`, and accepts it when it lies inside an allowed folder.
    /// `canonicalize` stands for the file system: it returns the canonical form of the
    /// path it is given, or the text of the error.
    pub fn validate_path<F: Fn(&str) -> Result<String, String>>(
        &self,
        path: &str,
        canonicalize: F,
    ) -> (r: Result<String, String>)
        requires
            forall|s: &str| canonicalize.requires((s,)),
        ensures
            self.validates(canonicalize, path@, outcome_view(r)),
    {
        let resolved = if is_absolute_path(path) {
            owned(path)
        } else {
            match &self.base_folder {
                Some(base) => join_paths(base.path.as_str(), path),
                None => {
                    return Err(owned("No base folder configured. Please set up a base folder in settings."));
                },
            }
        };
        let o = canonicalize(resolved.as_str());
        let r = self.check_canonical(path, &o);
        assert(outcome_view(r) == folder_check(self.folders(), path@, outcome_view(o)));
        r
    }

    /// The outcome of a path check, given how the resolved path canonicalized.
    fn check_canonical(&self, path: &str, canonical: &Result<String, String>) -> (r: Result<String, String>)
        ensures
            outcome_view(r) == folder_check(self.folders(), path@, outcome_view(*canonical)),
    {
        match canonical {
            Err(e) => {
                let mut m = owned("Invalid path: ");
                m.append(e.as_str());
                Err(m)
            },
            Ok(c) => {
                let mut i: usize = 0;
                while i < self.allowed_folders.len()
                    invariant
                        i <= self.allowed_folders@.len(),
                        outcome_view(*canonical) == Ok::<Seq<char>, Seq<char>>(c@),
                        forall|j: int|
                            0 <= j < i ==> !path_starts_with(c@, #[trigger] self.allowed_folders@[j].path@),
                    decreases self.allowed_folders.len() - i,
                {
                    if starts_with_path(c.as_str(), self.allowed_folders[i].path.as_str()) {
                        assert(path_starts_with(c@, self.folders()[i as int].path@));
                        assert(in_some_folder(self.folders(), c@));
                        return Ok(c.clone());
                    }
                    i = i + 1;
                }
                Err(concat3(
                    "Path '",
                    path,
                    "' is not in any allowed folder. Please add it to your allowed folders list in settings.",
                ))
            },
        }
    }

    /// The base folder, if any.
    pub fn get_base_folder(&self) -> (r: Option<&AllowedFolder>)
        ensures
            r is Some == self.base() is Some,
            r matches Some(f) ==> *f == self.base()->0,
    {
        self.base_folder.as_ref()
    }

    /// The directory tools work in: the base folder's path, else `current_dir` (the
    /// process's current directory, which the caller reads).
    pub fn get_working_directory(&self, current_dir: String) -> (r: String)
        ensures
            r@ == match self.base() {
                Some(b) => b.path@,
                None => current_dir@,
            },
    {
        match &self.base_folder {
            Some(f) => f.path.clone(),
            None => current_dir,
        }
    }
}

/// A path that passes the check lies inside one of the allowed folders, by whole
/// components, whatever the file system answered.
pub proof fn lemma_accepted_path_is_allowed<F: Fn(&str) -> Result<String, String>>(
    v: FolderValidator,
    canonicalize: F,
    path: Seq<char>,
    accepted: Seq<char>,
)
    requires
        v.validates(canonicalize, path, Ok(accepted)),
    ensures
        in_some_folder(v.folders(), accepted),
{
    if let Some(res) = v.resolved(path) {
        let (s, o) = choose|s: &str, o: Result<String, String>|
            s@ == res && #[trigger] canonicalize.ensures((s,), o) && Ok::<Seq<char>, Seq<char>>(
                accepted,
            ) == folder_check(v.folders(), path, outcome_view(o));
        assert(outcome_view(o) is Ok);
    }
}

/// A relative path is refused when no base folder is set, whatever the file system holds.
pub proof fn lemma_relative_needs_base<F: Fn(&str) -> Result<String, String>>(
    v: FolderValidator,
    canonicalize: F,
    path: Seq<char>,
    r: Result<Seq<char>, Seq<char>>,
)
    requires
        v.validates(canonicalize, path, r),
        !is_absolute(path),
        v.base() is None,
    ensures
        r == Err::<Seq<char>, Seq<char>>(no_base_message()),
{
}

/// A path lies inside itself, by whole components.
pub proof fn lemma_path_inside_itself(p: Seq<char>)
    ensures
        path_starts_with(p, p),
{
    assert(components(p).subrange(0, components(p).len() as int) =~= components(p));
}

/// The folder check accepts a canonical path, unchanged, exactly when some allowed
/// folder's path is a whole-component prefix of it; in particular every allowed folder
/// itself is accepted. Anything else is refused with the message naming the path asked for.
pub proof fn lemma_folder_check_accepts_inside(
    folders: Seq<AllowedFolder>,
    path: Seq<char>,
    c: Seq<char>,
)
    ensures
        (folder_check(folders, path, Ok(c)) == Ok::<Seq<char>, Seq<char>>(c)) <==> exists|i: int|
            0 <= i < folders.len() && path_starts_with(c, #[trigger] folders[i].path@),
        !(exists|i: int| 0 <= i < folders.len() && path_starts_with(c, #[trigger] folders[i].path@))
            ==> folder_check(folders, path, Ok(c)) == Err::<Seq<char>, Seq<char>>(not_allowed_message(path)),
        forall|i: int|
            0 <= i < folders.len() ==> folder_check(folders, path, Ok(#[trigger] folders[i].path@))
                == Ok::<Seq<char>, Seq<char>>(folders[i].path@),
{
    assert forall|i: int| 0 <= i < folders.len() implies folder_check(
        folders,
        path,
        Ok(#[trigger] folders[i].path@),
    ) == Ok::<Seq<char>, Seq<char>>(folders[i].path@) by {
        lemma_path_inside_itself(folders[i].path@);
        assert(in_some_folder(folders, folders[i].path@));
    }
}

} // verus!
