//! The registry of tools an agent may call, and the checks made before one runs: paths
//! in the arguments are confined to the allowed folders, and unknown tools are refused.
use vstd::prelude::*;
use vstd::string::*;
use crate::folders::{FolderValidator, outcome_view, in_some_folder, lemma_accepted_path_is_allowed};
use crate::schema::{ToolDefinition, ParamsView};
use crate::text::{
    trim, has_prefix, chars_of, starts_with_chars, sub_chars, trim_chars, string_from_chars,
    str_eq, owned, concat2,
};
use crate::tools::{
    Tool, ToolResult, BashTool, ReadFileTool, WriteFileTool, ListDirectoryTool, SkillTool,
    default_commands, failed_with,
};

verus! {

broadcast use vstd::string::group_string_axioms;

/// A tool the executor can run.
pub enum RegisteredTool {
    Bash(BashTool),
    ReadFile(ReadFileTool),
    WriteFile(WriteFileTool),
    ListDirectory(ListDirectoryTool),
    Skill(SkillTool),
}

impl RegisteredTool {
    /// The tool's name.
    pub open spec fn named(&self) -> Seq<char> {
        match self {
            RegisteredTool::Bash(t) => t.tool_name(),
            RegisteredTool::ReadFile(t) => t.tool_name(),
            RegisteredTool::WriteFile(t) => t.tool_name(),
            RegisteredTool::ListDirectory(t) => t.tool_name(),
            RegisteredTool::Skill(t) => t.tool_name(),
        }
    }

    /// The tool's description.
    pub open spec fn described(&self) -> Seq<char> {
        match self {
            RegisteredTool::Bash(t) => t.tool_description(),
            RegisteredTool::ReadFile(t) => t.tool_description(),
            RegisteredTool::WriteFile(t) => t.tool_description(),
            RegisteredTool::ListDirectory(t) => t.tool_description(),
            RegisteredTool::Skill(t) => t.tool_description(),
        }
    }

    /// The tool's parameters.
    pub open spec fn params(&self) -> ParamsView {
        match self {
            RegisteredTool::Bash(t) => t.tool_parameters(),
            RegisteredTool::ReadFile(t) => t.tool_parameters(),
            RegisteredTool::WriteFile(t) => t.tool_parameters(),
            RegisteredTool::ListDirectory(t) => t.tool_parameters(),
            RegisteredTool::Skill(t) => t.tool_parameters(),
        }
    }

    /// The tool's name.
    pub fn name(&self) -> (r: &str)
        ensures
            r@ == self.named(),
    {
        match self {
            RegisteredTool::Bash(t) => t.name(),
            RegisteredTool::ReadFile(t) => t.name(),
            RegisteredTool::WriteFile(t) => t.name(),
            RegisteredTool::ListDirectory(t) => t.name(),
            RegisteredTool::Skill(t) => t.name(),
        }
    }

    /// The tool as a function definition for a model.
    pub fn to_tool_definition(&self) -> (r: ToolDefinition)
        ensures
            defines(r, *self),
    {
        match self {
            RegisteredTool::Bash(t) => t.to_tool_definition(),
            RegisteredTool::ReadFile(t) => t.to_tool_definition(),
            RegisteredTool::WriteFile(t) => t.to_tool_definition(),
            RegisteredTool::ListDirectory(t) => t.to_tool_definition(),
            RegisteredTool::Skill(t) => t.to_tool_definition(),
        }
    }
}

/// Whether `d` is the function definition of `t`.
pub open spec fn defines(d: ToolDefinition, t: RegisteredTool) -> bool {
    &&& d.tool_type@ == "function"@
    &&& d.function matches Some(f) && f.name@ == t.named() && f.description@ == t.described()
        && f.parameters@ == t.params()
}

/// The names of some tools.
pub open spec fn tool_names(s: Seq<RegisteredTool>) -> Seq<Seq<char>> {
    s.map_values(|t: RegisteredTool| t.named())
}

/// Whether no two tools share a name.
pub open spec fn unique_names(s: Seq<RegisteredTool>) -> bool {
    forall|i: int, j: int| 0 <= i < j < s.len() ==> s[i].named() != s[j].named()
}

/// Whether some tool is called `name`.
pub open spec fn has_tool(s: Seq<RegisteredTool>, name: Seq<char>) -> bool {
    exists|i: int| 0 <= i < s.len() && s[i].named() == name
}

/// The tool called `name`, if any.
pub open spec fn find_tool(s: Seq<RegisteredTool>, name: Seq<char>) -> Option<RegisteredTool> {
    if has_tool(s, name) {
        Some(s[choose|i: int| 0 <= i < s.len() && s[i].named() == name])
    } else {
        None
    }
}

/// The tools after registering `t`: it takes the place of the tool with its name, or is
/// added at the end.
pub open spec fn registered(s: Seq<RegisteredTool>, t: RegisteredTool) -> Seq<RegisteredTool> {
    if has_tool(s, t.named()) {
        s.update(choose|i: int| 0 <= i < s.len() && s[i].named() == t.named(), t)
    } else {
        s.push(t)
    }
}

/// The default tools, in the order they are registered: the shell in `directory`, and the
/// file tools in `resolved`, the directory's canonical form.
pub open spec fn default_tools(s: Seq<RegisteredTool>, directory: Seq<char>, resolved: Seq<char>) -> bool {
    &&& s.len() == 4
    &&& s[0] matches RegisteredTool::Bash(t) && t.directory() == directory && t.allowed()
        == default_commands()
    &&& s[1] matches RegisteredTool::ReadFile(t) && t.directory() == resolved
    &&& s[2] matches RegisteredTool::WriteFile(t) && t.directory() == resolved
    &&& s[3] matches RegisteredTool::ListDirectory(t) && t.directory() == resolved
}

/// The commands whose argument is a path, each with the space after it.
pub open spec fn path_commands() -> Seq<Seq<char>> {
    seq![
        "cd "@,
        "ls "@,
        "cat "@,
        "mkdir "@,
        "touch "@,
        "rm "@,
        "cp "@,
        "mv "@,
        "grep "@,
        "find "@,
        "head "@,
        "tail "@,
    ]
}

/// The first of `cmds` that `args` begins with.
pub open spec fn first_prefix(cmds: Seq<Seq<char>>, args: Seq<char>) -> Option<int>
    decreases cmds.len(),
{
    if cmds.len() == 0 {
        None
    } else {
        match first_prefix(cmds.drop_last(), args) {
            Some(i) => Some(i),
            None => if has_prefix(args, cmds.last()) {
                Some(cmds.len() - 1)
            } else {
                None
            },
        }
    }
}

/// Whether `r` is what checking shell arguments gives: when they begin with a command
/// that takes a path and a path follows, that path is checked and put back behind the
/// command; any other arguments stay as they are.
pub open spec fn bash_args_check<F: Fn(&str) -> Result<String, String>>(
    validator: FolderValidator,
    canonicalize: F,
    args: Seq<char>,
    r: Result<Seq<char>, Seq<char>>,
) -> bool {
    match first_prefix(path_commands(), args) {
        None => r == Ok::<Seq<char>, Seq<char>>(args),
        Some(i) => {
            let cmd = path_commands()[i];
            let path = trim(args.skip(cmd.len() as int));
            if path.len() == 0 {
                r == Ok::<Seq<char>, Seq<char>>(args)
            } else {
                exists|v: Result<Seq<char>, Seq<char>>|
                    #[trigger] validator.validates(canonicalize, path, v) && r == match v {
                        Ok(p) => Ok(cmd + p),
                        Err(e) => Err(e),
                    }
            }
        },
    }
}

/// The commands whose argument is a path.
fn path_command_list() -> (r: Vec<&'static str>)
    ensures
        r@.map_values(|s: &str| s@) == path_commands(),
{
    let mut r: Vec<&'static str> = Vec::new();
    r.push("cd ");
    r.push("ls ");
    r.push("cat ");
    r.push("mkdir ");
    r.push("touch ");
    r.push("rm ");
    r.push("cp ");
    r.push("mv ");
    r.push("grep ");
    r.push("find ");
    r.push("head ");
    r.push("tail ");
    assert(r@.map_values(|s: &str| s@) =~= path_commands());
    r
}

/// The first match does not change when later commands are added.
proof fn lemma_first_prefix_grow(cmds: Seq<Seq<char>>, args: Seq<char>, n: int)
    requires
        0 <= n <= cmds.len(),
        first_prefix(cmds.take(n), args) is Some,
    ensures
        first_prefix(cmds, args) == first_prefix(cmds.take(n), args),
    decreases cmds.len() - n,
{
    if n < cmds.len() {
        assert(cmds.take(n + 1).drop_last() == cmds.take(n));
        lemma_first_prefix_grow(cmds, args, n + 1);
    } else {
        assert(cmds.take(n) == cmds);
    }
}

/// The plain form of an optional text.
pub open spec fn opt_chars(o: Option<&str>) -> Option<Seq<char>> {
    match o {
        Some(s) => Some(s@),
        None => None,
    }
}

/// The plain form of the outcome of an argument check.
pub open spec fn rewrite_view(r: Result<(Option<String>, Option<String>), String>) -> Result<
    (Option<Seq<char>>, Option<Seq<char>>),
    Seq<char>,
> {
    match r {
        Ok((p, a)) => Ok(
            (
                match p {
                    Some(x) => Some(x@),
                    None => None,
                },
                match a {
                    Some(x) => Some(x@),
                    None => None,
                },
            ),
        ),
        Err(e) => Err(e@),
    }
}

/// The shell part of an argument check, once the path has become `new_path`: the `args` of
/// the shell tool are checked as shell arguments; other tools keep theirs.
pub open spec fn shell_args_part<F: Fn(&str) -> Result<String, String>>(
    validator: FolderValidator,
    canonicalize: F,
    tool_name: Seq<char>,
    args: Option<Seq<char>>,
    new_path: Option<Seq<char>>,
    r: Result<(Option<Seq<char>>, Option<Seq<char>>), Seq<char>>,
) -> bool {
    if tool_name == "bash"@ && args is Some {
        shell_part(validator, canonicalize, args->0, new_path, r)
    } else {
        r == Ok::<(Option<Seq<char>>, Option<Seq<char>>), Seq<char>>((new_path, None))
    }
}

/// The shell arguments `args` checked, the outcome carrying them beside `new_path`.
pub open spec fn shell_part<F: Fn(&str) -> Result<String, String>>(
    validator: FolderValidator,
    canonicalize: F,
    args: Seq<char>,
    new_path: Option<Seq<char>>,
    r: Result<(Option<Seq<char>>, Option<Seq<char>>), Seq<char>>,
) -> bool {
    exists|av: Result<Seq<char>, Seq<char>>|
        #[trigger] bash_args_check(validator, canonicalize, args, av) && r == match av {
            Ok(na) => Ok((new_path, Some(na))),
            Err(e) => Err(e),
        }
}

/// Whether `r` is what checking a tool's `path` and `args` arguments gives: without a
/// validator nothing changes (both `None`); with one, the path is checked first, then the
/// shell arguments, and the first error is the outcome. `Some` stands for a new value.
pub open spec fn tool_args_check<F: Fn(&str) -> Result<String, String>>(
    validator: Option<FolderValidator>,
    canonicalize: F,
    tool_name: Seq<char>,
    path: Option<Seq<char>>,
    args: Option<Seq<char>>,
    r: Result<(Option<Seq<char>>, Option<Seq<char>>), Seq<char>>,
) -> bool {
    match validator {
        None => r == Ok::<(Option<Seq<char>>, Option<Seq<char>>), Seq<char>>((None, None)),
        Some(v) => match path {
            Some(p) => path_part(v, canonicalize, tool_name, p, args, r),
            None => shell_args_part(v, canonicalize, tool_name, args, None, r),
        },
    }
}

/// The path part of an argument check: the path is checked, and on success the shell part
/// follows with the new path.
pub open spec fn path_part<F: Fn(&str) -> Result<String, String>>(
    validator: FolderValidator,
    canonicalize: F,
    tool_name: Seq<char>,
    path: Seq<char>,
    args: Option<Seq<char>>,
    r: Result<(Option<Seq<char>>, Option<Seq<char>>), Seq<char>>,
) -> bool {
    exists|pv: Result<Seq<char>, Seq<char>>|
        #[trigger] validator.validates(canonicalize, path, pv) && match pv {
            Err(e) => r == Err::<(Option<Seq<char>>, Option<Seq<char>>), Seq<char>>(e),
            Ok(np) => shell_args_part(validator, canonicalize, tool_name, args, Some(np), r),
        }
}

/// The error text for a tool that is not registered.
pub open spec fn unknown_tool_message(name: Seq<char>) -> Seq<char> {
    "Unknown tool: "@ + name
}

/// The tool to run and its rewritten arguments, or the failed result to answer with.
pub open spec fn preparation(
    registry: Seq<RegisteredTool>,
    tool_name: Seq<char>,
    checked: Result<(Option<Seq<char>>, Option<Seq<char>>), Seq<char>>,
    r: Result<(&RegisteredTool, Option<String>, Option<String>), ToolResult>,
) -> bool {
    match checked {
        Err(e) => r matches Err(t) && failed_with(t, e),
        Ok((np, na)) => match find_tool(registry, tool_name) {
            None => r matches Err(t) && failed_with(t, unknown_tool_message(tool_name)),
            Some(tool) => r matches Ok((x, p, a)) && *x == tool && match p {
                Some(y) => np == Some(y@),
                None => np is None,
            } && match a {
                Some(y) => na == Some(y@),
                None => na is None,
            },
        },
    }
}

/// The tools an agent may call, by name.
pub struct ToolExecutor {
    tools: Vec<RegisteredTool>,
    working_directory: String,
    folder_validator: Option<FolderValidator>,
}

impl ToolExecutor {
    /// The registered tools, in the order of registration.
    pub closed spec fn registry(&self) -> Seq<RegisteredTool> {
        self.tools@
    }

    /// The directory the tools work in.
    pub closed spec fn directory(&self) -> Seq<char> {
        self.working_directory@
    }

    /// The validator that confines paths, if any.
    pub closed spec fn validator(&self) -> Option<FolderValidator> {
        self.folder_validator
    }

    /// Whether no two registered tools share a name.
    pub open spec fn wf(&self) -> bool {
        unique_names(self.registry())
    }

    /// The default tools for `working_directory`; `canonicalize` stands for the file system
    /// and gives the canonical form of a path, or nothing when there is none.
    fn default_registry<F: Fn(&str) -> Option<String>>(
        working_directory: &String,
        canonicalize: F,
    ) -> (r: Vec<RegisteredTool>)
        requires
            forall|s: &str| canonicalize.requires((s,)),
        ensures
            unique_names(r@),
            exists|s: &str, o: Option<String>|
                s@ == working_directory@ && #[trigger] canonicalize.ensures((s,), o) && default_tools(
                    r@,
                    working_directory@,
                    match o {
                        Some(c) => c@,
                        None => working_directory@,
                    },
                ),
    {
        let o = canonicalize(working_directory.as_str());
        let resolved = match o {
            Some(c) => c,
            None => working_directory.clone(),
        };
        let mut r: Vec<RegisteredTool> = Vec::new();
        r.push(RegisteredTool::Bash(BashTool::new(working_directory.clone())));
        r.push(RegisteredTool::ReadFile(ReadFileTool::new(resolved.clone())));
        r.push(RegisteredTool::WriteFile(WriteFileTool::new(resolved.clone())));
        r.push(RegisteredTool::ListDirectory(ListDirectoryTool::new(resolved)));
        proof {
            reveal_strlit("bash");
            reveal_strlit("read_file");
            reveal_strlit("write_file");
            reveal_strlit("list_directory");
            assert(r@[0].named() == "bash"@);
            assert(r@[1].named() == "read_file"@);
            assert(r@[2].named() == "write_file"@);
            assert(r@[3].named() == "list_directory"@);
            assert("bash"@.len() != "read_file"@.len());
            assert("bash"@.len() != "write_file"@.len());
            assert("bash"@.len() != "list_directory"@.len());
            assert("read_file"@.len() != "list_directory"@.len());
            assert("write_file"@.len() != "list_directory"@.len());
            assert("read_file"@[0] != "write_file"@[0]);
        }
        r
    }

    /// An executor with the default tools in `working_directory` and no folder validation;
    /// `canonicalize` stands for the file system.
    pub fn new<F: Fn(&str) -> Option<String>>(working_directory: String, canonicalize: F) -> (r: Self)
        requires
            forall|s: &str| canonicalize.requires((s,)),
        ensures
            r.wf(),
            r.directory() == working_directory@,
            r.validator() is None,
            exists|s: &str, o: Option<String>|
                s@ == working_directory@ && #[trigger] canonicalize.ensures((s,), o) && default_tools(
                    r.registry(),
                    working_directory@,
                    match o {
                        Some(c) => c@,
                        None => working_directory@,
                    },
                ),
    {
        let tools = Self::default_registry(&working_directory, canonicalize);
        ToolExecutor { tools, working_directory, folder_validator: None }
    }

    /// An executor whose paths are confined by `validator`, working in its base folder, or
    /// in `current_dir` when it has none; `canonicalize` stands for the file system.
    pub fn with_folder_validation<F: Fn(&str) -> Option<String>>(
        validator: FolderValidator,
        current_dir: String,
        canonicalize: F,
    ) -> (r: Self)
        requires
            forall|s: &str| canonicalize.requires((s,)),
        ensures
            r.wf(),
            r.directory() == match validator.base() {
                Some(b) => b.path@,
                None => current_dir@,
            },
            r.validator() == Some(validator),
            exists|s: &str, o: Option<String>|
                s@ == r.directory() && #[trigger] canonicalize.ensures((s,), o) && default_tools(
                    r.registry(),
                    r.directory(),
                    match o {
                        Some(c) => c@,
                        None => r.directory(),
                    },
                ),
    {
        let working_directory = validator.get_working_directory(current_dir);
        let tools = Self::default_registry(&working_directory, canonicalize);
        ToolExecutor { tools, working_directory, folder_validator: Some(validator) }
    }

    /// Registers a tool under its name, replacing the tool of that name if there is one.
    pub fn register_tool(&mut self, tool: RegisteredTool)
        requires
            old(self).wf(),
        ensures
            final(self).wf(),
            final(self).registry() == registered(old(self).registry(), tool),
            final(self).directory() == old(self).directory(),
            final(self).validator() == old(self).validator(),
    {
        let ghost s = self.tools@;
        let mut i: usize = 0;
        while i < self.tools.len()
            invariant
                s == self.tools@,
                s == old(self).tools@,
                unique_names(s),
                self.working_directory == old(self).working_directory,
                self.folder_validator == old(self).folder_validator,
                i <= self.tools@.len(),
                forall|j: int| 0 <= j < i ==> s[j].named() != tool.named(),
            decreases self.tools.len() - i,
        {
            if str_eq(self.tools[i].name(), tool.name()) {
                proof {
                    let q = choose|q: int| 0 <= q < s.len() && s[q].named() == tool.named();
                    if q != i {
                        assert(q > i);
                    }
                }
                self.tools.set(i, tool);
                return;
            }
            i = i + 1;
        }
        self.tools.push(tool);
    }

    /// Registers a skill as a tool under its name.
    pub fn register_skill(&mut self, skill_name: String, skill_description: String, skill_path: String)
        requires
            old(self).wf(),
        ensures
            final(self).wf(),
            exists|t: SkillTool|
                t.skill() == skill_name@ && t.about() == skill_description@ && t.location()
                    == skill_path@ && final(self).registry() == registered(
                    old(self).registry(),
                    RegisteredTool::Skill(t),
                ),
            final(self).directory() == old(self).directory(),
            final(self).validator() == old(self).validator(),
    {
        let t = SkillTool::new(skill_name, skill_description, skill_path);
        self.register_tool(RegisteredTool::Skill(t));
    }

    /// The tool called `name`, if any.
    pub fn get_tool(&self, name: &str) -> (r: Option<&RegisteredTool>)
        requires
            self.wf(),
        ensures
            match find_tool(self.registry(), name@) {
                Some(t) => r matches Some(x) && *x == t,
                None => r is None,
            },
    {
        let mut i: usize = 0;
        while i < self.tools.len()
            invariant
                self.wf(),
                i <= self.tools@.len(),
                forall|j: int| 0 <= j < i ==> self.tools@[j].named() != name@,
            decreases self.tools.len() - i,
        {
            if str_eq(self.tools[i].name(), name) {
                proof {
                    let q = choose|q: int|
                        0 <= q < self.tools@.len() && self.tools@[q].named() == name@;
                    if q != i {
                        assert(q > i);
                    }
                }
                return Some(&self.tools[i]);
            }
            i = i + 1;
        }
        None
    }

    /// The names of the registered tools.
    pub fn list_tools(&self) -> (r: Vec<&str>)
        ensures
            r@.map_values(|s: &str| s@) == tool_names(self.registry()),
    {
        let mut r: Vec<&str> = Vec::new();
        let mut i: usize = 0;
        while i < self.tools.len()
            invariant
                i <= self.tools@.len(),
                r@.map_values(|s: &str| s@) == tool_names(self.tools@.take(i as int)),
            decreases self.tools.len() - i,
        {
            let ghost before = r@;
            let n = self.tools[i].name();
            r.push(n);
            assert(r@.map_values(|s: &str| s@) =~= before.map_values(|s: &str| s@).push(n@));
            assert(tool_names(self.tools@.take(i + 1)) =~= tool_names(self.tools@.take(i as int)).push(
                self.tools@[i as int].named(),
            ));
            assert(r@.map_values(|s: &str| s@) =~= tool_names(self.tools@.take(i + 1)));
            i = i + 1;
        }
        assert(self.tools@.take(self.tools@.len() as int) == self.tools@);
        r
    }

    /// The function definitions of the registered tools, in the order of registration.
    pub fn get_tool_definitions(&self) -> (r: Vec<ToolDefinition>)
        ensures
            r@.len() == self.registry().len(),
            forall|i: int| 0 <= i < r@.len() ==> defines(#[trigger] r@[i], self.registry()[i]),
    {
        let mut r: Vec<ToolDefinition> = Vec::new();
        let mut i: usize = 0;
        while i < self.tools.len()
            invariant
                i <= self.tools@.len(),
                r@.len() == i,
                forall|j: int| 0 <= j < i ==> defines(#[trigger] r@[j], self.tools@[j]),
            decreases self.tools.len() - i,
        {
            r.push(self.tools[i].to_tool_definition());
            i = i + 1;
        }
        r
    }

    /// Checks shell arguments that begin with a command taking a path: the path is checked by
    /// `validator` and put back behind the command; other arguments stay as they are.
    pub fn validate_bash_args<F: Fn(&str) -> Result<String, String> + Copy>(
        &self,
        args: &str,
        validator: &FolderValidator,
        canonicalize: F,
    ) -> (r: Result<String, String>)
        requires
            forall|s: &str| canonicalize.requires((s,)),
        ensures
            bash_args_check(*validator, canonicalize, args@, outcome_view(r)),
    {
        let cmds = path_command_list();
        let ghost cv = cmds@.map_values(|s: &str| s@);
        let v = chars_of(args);
        let mut i: usize = 0;
        while i < cmds.len()
            invariant
                i <= cmds@.len(),
                cv == cmds@.map_values(|s: &str| s@),
                cv == path_commands(),
                v@ == args@,
                forall|s: &str| canonicalize.requires((s,)),
                first_prefix(cv.take(i as int), args@) is None,
            decreases cmds.len() - i,
        {
            let cmd = chars_of(cmds[i]);
            assert(cv[i as int] == cmds@[i as int]@);
            assert(cv.take(i + 1).drop_last() == cv.take(i as int));
            assert(cv.take(i + 1).last() == cv[i as int]);
            if starts_with_chars(v.as_slice(), cmd.as_slice()) {
                proof {
                    lemma_first_prefix_grow(cv, args@, i + 1);
                }
                let rest = sub_chars(v.as_slice(), cmd.len(), v.len());
                assert(v@.skip(cmd@.len() as int) == v@.subrange(cmd@.len() as int, v@.len() as int));
                let path = trim_chars(rest.as_slice());
                if path.len() == 0 {
                    return Ok(owned(args));
                }
                let p = string_from_chars(path.as_slice());
                let checked = validator.validate_path(p.as_str(), canonicalize);
                return match checked {
                    Ok(c) => Ok(concat2(cmds[i], c.as_str())),
                    Err(e) => Err(e),
                };
            }
            i = i + 1;
        }
        assert(cv.take(cv.len() as int) == cv);
        Ok(owned(args))
    }

    /// Checks a tool's `path` and `args` arguments against the folder validator, if there is
    /// one; `Some` in the outcome stands for a new value to put in place of the argument.
    pub fn validate_path_for_tool<F: Fn(&str) -> Result<String, String> + Copy>(
        &self,
        tool_name: &str,
        path: Option<&str>,
        args: Option<&str>,
        canonicalize: F,
    ) -> (r: Result<(Option<String>, Option<String>), String>)
        requires
            forall|s: &str| canonicalize.requires((s,)),
        ensures
            tool_args_check(
                self.validator(),
                canonicalize,
                tool_name@,
                opt_chars(path),
                opt_chars(args),
                rewrite_view(r),
            ),
    {
        let validator = match &self.folder_validator {
            None => {
                return Ok((None, None));
            },
            Some(v) => v,
        };
        let new_path = match path {
            Some(p) => {
                let res = validator.validate_path(p, canonicalize);
                match res {
                    Ok(np) => Some(np),
                    Err(e) => {
                        let r = Err(e);
                        assert(path_part(
                            *validator,
                            canonicalize,
                            tool_name@,
                            p@,
                            opt_chars(args),
                            rewrite_view(r),
                        ));
                        return r;
                    },
                }
            },
            None => None,
        };
        let ghost np = match &new_path {
            Some(x) => Some(x@),
            None => None::<Seq<char>>,
        };
        if str_eq(tool_name, "bash") {
            match args {
                Some(a) => {
                    let checked = self.validate_bash_args(a, validator, canonicalize);
                    let r = match checked {
                        Ok(na) => Ok((new_path, Some(na))),
                        Err(e) => Err(e),
                    };
                    assert(shell_part(*validator, canonicalize, a@, np, rewrite_view(r)));
                    return r;
                },
                None => {},
            }
        }
        Ok((new_path, None))
    }

    /// What a call of `tool_name` needs before it runs: its arguments checked, then the tool
    /// looked up; the failed result to answer with when either fails.
    pub fn prepare_tool<F: Fn(&str) -> Result<String, String> + Copy>(
        &self,
        tool_name: &str,
        path: Option<&str>,
        args: Option<&str>,
        canonicalize: F,
    ) -> (r: Result<(&RegisteredTool, Option<String>, Option<String>), ToolResult>)
        requires
            self.wf(),
            forall|s: &str| canonicalize.requires((s,)),
        ensures
            exists|c: Result<(Option<Seq<char>>, Option<Seq<char>>), Seq<char>>|
                #[trigger] tool_args_check(
                    self.validator(),
                    canonicalize,
                    tool_name@,
                    opt_chars(path),
                    opt_chars(args),
                    c,
                ) && preparation(self.registry(), tool_name@, c, r),
    {
        let checked = self.validate_path_for_tool(tool_name, path, args, canonicalize);
        let ghost c = rewrite_view(checked);
        match checked {
            Err(e) => Err(ToolResult::error(e)),
            Ok((np, na)) => match self.get_tool(tool_name) {
                Some(t) => Ok((t, np, na)),
                None => Err(ToolResult::error(concat2("Unknown tool: ", tool_name))),
            },
        }
    }
}

/// After a tool is registered, looking up its name gives it, other names give what they
/// gave before, and no two tools share a name.
pub proof fn lemma_registered_read_back(s: Seq<RegisteredTool>, t: RegisteredTool, other: Seq<char>)
    requires
        unique_names(s),
        other != t.named(),
    ensures
        unique_names(registered(s, t)),
        find_tool(registered(s, t), t.named()) == Some(t),
        find_tool(registered(s, t), other) == find_tool(s, other),
{
    let r = registered(s, t);
    if has_tool(s, t.named()) {
        let p = choose|i: int| 0 <= i < s.len() && s[i].named() == t.named();
        assert(r[p] == t);
        assert(has_tool(r, t.named()));
        let q = choose|i: int| 0 <= i < r.len() && r[i].named() == t.named();
        assert(q == p);
        if has_tool(s, other) {
            let a = choose|i: int| 0 <= i < s.len() && s[i].named() == other;
            assert(r[a] == s[a]);
            let b = choose|i: int| 0 <= i < r.len() && r[i].named() == other;
            assert(b == a);
        } else {
            assert(!has_tool(r, other)) by {
                if has_tool(r, other) {
                    let b = choose|i: int| 0 <= i < r.len() && r[i].named() == other;
                    assert(s[b].named() == other);
                }
            }
        }
    } else {
        let n = s.len() as int;
        assert(r[n] == t);
        assert(has_tool(r, t.named()));
        let q = choose|i: int| 0 <= i < r.len() && r[i].named() == t.named();
        assert(q == n);
        if has_tool(s, other) {
            let a = choose|i: int| 0 <= i < s.len() && s[i].named() == other;
            assert(r[a] == s[a]);
            let b = choose|i: int| 0 <= i < r.len() && r[i].named() == other;
            assert(b == a);
        } else {
            assert(!has_tool(r, other)) by {
                if has_tool(r, other) {
                    let b = choose|i: int| 0 <= i < r.len() && r[i].named() == other;
                    assert(s[b].named() == other);
                }
            }
        }
    }
}

/// Shell arguments that begin with a command taking a path, and that pass the check, carry
/// behind that command a path inside one of the allowed folders.
pub proof fn lemma_shell_path_is_allowed<F: Fn(&str) -> Result<String, String>>(
    validator: FolderValidator,
    canonicalize: F,
    args: Seq<char>,
    accepted: Seq<char>,
    i: int,
)
    requires
        bash_args_check(validator, canonicalize, args, Ok(accepted)),
        first_prefix(path_commands(), args) == Some(i),
        trim(args.skip(path_commands()[i].len() as int)).len() > 0,
    ensures
        exists|c: Seq<char>|
            accepted == path_commands()[i] + c && #[trigger] in_some_folder(validator.folders(), c),
{
    let cmd = path_commands()[i];
    let path = trim(args.skip(cmd.len() as int));
    let v = choose|v: Result<Seq<char>, Seq<char>>|
        #[trigger] validator.validates(canonicalize, path, v) && Ok::<Seq<char>, Seq<char>>(accepted)
            == match v {
            Ok(p) => Ok(cmd + p),
            Err(e) => Err(e),
        };
    if let Ok(p) = v {
        lemma_accepted_path_is_allowed(validator, canonicalize, path, p);
        assert(accepted == cmd + p);
    }
}

} // verus!
