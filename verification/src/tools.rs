//! The tools an agent can call: a restricted shell, file reading and writing, directory
//! listing, and skills. Here stands what the tools decide; running a process or touching
//! the file system is left to the caller, who hands the outcome back.
use vstd::prelude::*;
use vstd::string::*;
use crate::paths::{join_path, path_starts_with, join_paths, starts_with_path};
use crate::schema::{ToolDefinition, ToolFunction, ToolParameters, ParamsView};
use crate::text::{
    is_ws, ws_pred, trim_start_with, is_whitespace, chars_of, sub_chars, string_from_chars,
    str_eq, owned, concat2, concat3, views, join, join_strings,
};
use crate::folders::outcome_view;

verus! {

broadcast use vstd::string::group_string_axioms;

/// The outcome of a tool call.
pub struct ToolResult {
    pub success: bool,
    pub output: String,
    pub error: Option<String>,
}

impl ToolResult {
    /// A successful outcome with the given output.
    pub fn success(output: String) -> (r: Self)
        ensures
            r.success,
            r.output == output,
            r.error is None,
    {
        ToolResult { success: true, output, error: None }
    }

    /// A failed outcome with the given error and no output.
    pub fn error(error: String) -> (r: Self)
        ensures
            !r.success,
            r.output@ == Seq::<char>::empty(),
            r.error == Some(error),
    {
        ToolResult { success: false, output: String::new(), error: Some(error) }
    }
}

/// What a tool exposes to a model.
pub trait Tool {
    /// The tool's name.
    spec fn tool_name(&self) -> Seq<char>;

    /// The tool's description.
    spec fn tool_description(&self) -> Seq<char>;

    /// The tool's parameters.
    spec fn tool_parameters(&self) -> ParamsView;

    fn name(&self) -> (r: &str)
        ensures
            r@ == self.tool_name(),
    ;

    fn description(&self) -> (r: &str)
        ensures
            r@ == self.tool_description(),
    ;

    fn parameters(&self) -> (r: ToolParameters)
        ensures
            r@ == self.tool_parameters(),
    ;

    /// The tool as a function definition for a model.
    fn to_tool_definition(&self) -> (r: ToolDefinition)
        ensures
            r.tool_type@ == "function"@,
            r.function matches Some(f) && f.name@ == self.tool_name() && f.description@
                == self.tool_description() && f.parameters@ == self.tool_parameters(),
    {
        ToolDefinition::function_tool(owned(self.name()), owned(self.description()), self.parameters())
    }
}

/// The characters of `t` up to its first whitespace.
pub open spec fn word_prefix(t: Seq<char>) -> Seq<char>
    decreases t.len(),
{
    if t.len() == 0 || is_ws(t[0]) {
        Seq::empty()
    } else {
        seq![t[0]] + word_prefix(t.drop_first())
    }
}

/// The first whitespace-separated word of `s`, or nothing when there is none
/// (`s.split_whitespace().next().unwrap_or("")`).
pub open spec fn first_word(s: Seq<char>) -> Seq<char> {
    word_prefix(trim_start_with(s, ws_pred()))
}

/// The first whitespace-separated word of `v`.
pub fn first_word_chars(v: &[char]) -> (r: Vec<char>)
    ensures
        r@ == first_word(v@),
{
    let ghost p = ws_pred();
    assert(v@.subrange(0, v@.len() as int) == v@);
    let mut i: usize = 0;
    while i < v.len() && is_whitespace(v[i])
        invariant
            p == ws_pred(),
            i <= v@.len(),
            trim_start_with(v@, p) == trim_start_with(v@.subrange(i as int, v@.len() as int), p),
        decreases v.len() - i,
    {
        assert(p(v@[i as int]));
        assert(v@.subrange(i as int, v@.len() as int).drop_first() == v@.subrange(
            i + 1,
            v@.len() as int,
        ));
        i = i + 1;
    }
    let ghost rest = v@.subrange(i as int, v@.len() as int);
    assert(trim_start_with(rest, p) == rest);
    let mut j: usize = i;
    assert(v@.subrange(i as int, j as int) =~= Seq::<char>::empty());
    while j < v.len() && !is_whitespace(v[j])
        invariant
            i <= j <= v@.len(),
            rest == v@.subrange(i as int, v@.len() as int),
            word_prefix(rest) == v@.subrange(i as int, j as int) + word_prefix(
                v@.subrange(j as int, v@.len() as int),
            ),
        decreases v.len() - j,
    {
        let ghost tail = v@.subrange(j as int, v@.len() as int);
        assert(tail.drop_first() == v@.subrange(j + 1, v@.len() as int));
        assert(v@.subrange(i as int, j + 1) == v@.subrange(i as int, j as int) + seq![v@[j as int]]);
        j = j + 1;
    }
    let ghost tail = v@.subrange(j as int, v@.len() as int);
    assert(word_prefix(tail) == Seq::<char>::empty());
    assert(v@.subrange(i as int, j as int) + Seq::<char>::empty() == v@.subrange(i as int, j as int));
    sub_chars(v, i, j)
}

/// The outcome of a path check made inside a working directory, given how the resolved
/// path canonicalized.
pub open spec fn confined_check(
    working_directory: Seq<char>,
    canonical: Result<Seq<char>, Seq<char>>,
) -> Result<Seq<char>, Seq<char>> {
    match canonical {
        Err(e) => Err("Invalid path: "@ + e),
        Ok(c) => if path_starts_with(c, working_directory) {
            Ok(c)
        } else {
            Err("Path traversal not allowed"@)
        },
    }
}

/// Resolves `path` against `working_directory`, canonicalizes it and accepts it only inside
/// that directory.
fn confined_path<F: Fn(&str) -> Result<String, String>>(
    working_directory: &str,
    path: &str,
    canonicalize: F,
) -> (r: Result<String, String>)
    requires
        forall|s: &str| canonicalize.requires((s,)),
    ensures
        exists|s: &str, o: Result<String, String>|
            s@ == join_path(working_directory@, path@) && canonicalize.ensures((s,), o)
                && outcome_view(r) == confined_check(working_directory@, outcome_view(o)),
{
    let resolved = join_paths(working_directory, path);
    let o = canonicalize(resolved.as_str());
    match &o {
        Err(e) => {
            let mut m = owned("Invalid path: ");
            m.append(e.as_str());
            Err(m)
        },
        Ok(c) => {
            if starts_with_path(c.as_str(), working_directory) {
                Ok(c.clone())
            } else {
                Err(owned("Path traversal not allowed"))
            }
        },
    }
}

/// The default commands that the shell tool accepts.
pub open spec fn default_commands() -> Seq<Seq<char>> {
    seq![
        "ls"@,
        "cat"@,
        "pwd"@,
        "echo"@,
        "mkdir"@,
        "touch"@,
        "rm"@,
        "cp"@,
        "mv"@,
        "grep"@,
        "find"@,
        "head"@,
        "tail"@,
        "wc"@,
    ]
}

/// The `Debug` text of a list of strings, as `format!("{:?}", list)` writes it.
pub uninterp spec fn debug_list_text(items: Seq<Seq<char>>) -> Seq<char>;

/// `format!("{:?}", items)`: the `Debug` text of a list of strings.
#[verifier::external_body]
fn debug_list(items: &Vec<String>) -> (r: String)
    ensures
        r@ == debug_list_text(views(items@)),
{
    format!("{:?}", items)
}

/// A tool that runs a few shell commands inside a working directory.
pub struct BashTool {
    allowed_commands: Vec<String>,
    working_directory: String,
}

impl BashTool {
    /// The commands accepted.
    pub closed spec fn allowed(&self) -> Seq<Seq<char>> {
        views(self.allowed_commands@)
    }

    /// The directory the commands run in.
    pub closed spec fn directory(&self) -> Seq<char> {
        self.working_directory@
    }

    /// A shell tool for `working_directory` with the default commands.
    pub fn new(working_directory: String) -> (r: Self)
        ensures
            r.allowed() == default_commands(),
            r.directory() == working_directory@,
    {
        let mut c: Vec<String> = Vec::new();
        c.push(owned("ls"));
        c.push(owned("cat"));
        c.push(owned("pwd"));
        c.push(owned("echo"));
        c.push(owned("mkdir"));
        c.push(owned("touch"));
        c.push(owned("rm"));
        c.push(owned("cp"));
        c.push(owned("mv"));
        c.push(owned("grep"));
        c.push(owned("find"));
        c.push(owned("head"));
        c.push(owned("tail"));
        c.push(owned("wc"));
        let r = BashTool { allowed_commands: c, working_directory };
        assert(r.allowed() =~= default_commands());
        r
    }

    /// The same tool accepting exactly `commands`.
    pub fn with_allowed_commands(self, commands: Vec<String>) -> (r: Self)
        ensures
            r.allowed() == views(commands@),
            r.directory() == self.directory(),
    {
        BashTool { allowed_commands: commands, working_directory: self.working_directory }
    }

    /// The directory the commands run in.
    pub fn working_directory(&self) -> (r: &str)
        ensures
            r@ == self.directory(),
    {
        self.working_directory.as_str()
    }

    /// Whether the first word of `command` is one of the accepted commands.
    pub fn is_command_allowed(&self, command: &str) -> (r: bool)
        ensures
            r == self.allowed().contains(first_word(command@)),
    {
        let word = string_from_chars(first_word_chars(chars_of(command).as_slice()).as_slice());
        let mut i: usize = 0;
        while i < self.allowed_commands.len()
            invariant
                i <= self.allowed_commands@.len(),
                word@ == first_word(command@),
                forall|j: int| 0 <= j < i ==> self.allowed_commands@[j]@ != word@,
            decreases self.allowed_commands.len() - i,
        {
            if str_eq(self.allowed_commands[i].as_str(), word.as_str()) {
                assert(self.allowed()[i as int] == first_word(command@));
                return true;
            }
            i = i + 1;
        }
        assert(!self.allowed().contains(first_word(command@)));
        false
    }

    /// Resolves `path` in the working directory and accepts it only inside it;
    /// `canonicalize` stands for the file system.
    pub fn validate_path<F: Fn(&str) -> Result<String, String>>(
        &self,
        path: &str,
        canonicalize: F,
    ) -> (r: Result<String, String>)
        requires
            forall|s: &str| canonicalize.requires((s,)),
        ensures
            exists|s: &str, o: Result<String, String>|
                s@ == join_path(self.directory(), path@) && canonicalize.ensures((s,), o)
                    && outcome_view(r) == confined_check(self.directory(), outcome_view(o)),
    {
        confined_path(self.working_directory.as_str(), path, canonicalize)
    }

    /// The command line to run for `command` with `args`, or the error when the command is
    /// not accepted.
    pub fn prepare_command(&self, command: &str, args: &str) -> (r: Result<String, String>)
        ensures
            self.allowed().contains(first_word(command@)) ==> outcome_view(r) == Ok::<
                Seq<char>,
                Seq<char>,
            >(if args@.len() == 0 {
                command@
            } else {
                command@ + " "@ + args@
            }),
            !self.allowed().contains(first_word(command@)) ==> outcome_view(r) == Err::<
                Seq<char>,
                Seq<char>,
            >("Command '"@ + command@ + "' is not allowed. Allowed commands: "@ + debug_list_text(
                self.allowed(),
            )),
    {
        if !self.is_command_allowed(command) {
            let mut m = concat3("Command '", command, "' is not allowed. Allowed commands: ");
            m.append(debug_list(&self.allowed_commands).as_str());
            return Err(m);
        }
        if args.is_empty() {
            Ok(owned(command))
        } else {
            Ok(concat3(command, " ", args))
        }
    }

    /// The outcome of running a command: `Ok((succeeded, stdout, stderr))` once it ran,
    /// `Err(text)` when it could not be started.
    pub fn command_result(run: Result<(bool, String, String), String>) -> (r: ToolResult)
        ensures
            run matches Ok((true, out, _)) ==> r.success && r.output@ == out@ && r.error is None,
            run matches Ok((false, _, err)) ==> !r.success && r.output@.len() == 0 && r.error
                is Some && r.error->0@ == "Command failed: "@ + err@,
            run matches Err(e) ==> !r.success && r.output@.len() == 0 && r.error is Some
                && r.error->0@ == "Failed to execute command: "@ + e@,
    {
        match run {
            Ok((ok, stdout, stderr)) => if ok {
                ToolResult::success(stdout)
            } else {
                ToolResult::error(concat2("Command failed: ", stderr.as_str()))
            },
            Err(e) => ToolResult::error(concat2("Failed to execute command: ", e.as_str())),
        }
    }
}

/// The parameters of the shell tool.
pub open spec fn bash_parameters() -> ParamsView {
    ParamsView {
        properties: seq![
            ("command"@, "The bash command to execute"@),
            ("args"@, "Arguments for the command"@),
        ],
        required: seq!["command"@],
    }
}

impl Tool for BashTool {
    open spec fn tool_name(&self) -> Seq<char> {
        "bash"@
    }

    open spec fn tool_description(&self) -> Seq<char> {
        "Execute bash commands for file operations. Supported commands: ls, cat, pwd, echo, mkdir, touch, rm, cp, mv, grep, find, head, tail, wc. All operations are restricted to the working directory."@
    }

    open spec fn tool_parameters(&self) -> ParamsView {
        bash_parameters()
    }

    fn name(&self) -> (r: &str) {
        "bash"
    }

    fn description(&self) -> (r: &str) {
        "Execute bash commands for file operations. Supported commands: ls, cat, pwd, echo, mkdir, touch, rm, cp, mv, grep, find, head, tail, wc. All operations are restricted to the working directory."
    }

    fn parameters(&self) -> (r: ToolParameters) {
        let r = ToolParameters::new().with_property(
            "command",
            owned("The bash command to execute"),
            true,
        ).with_property("args", owned("Arguments for the command"), false);
        assert(r@.properties =~= bash_parameters().properties);
        assert(r@.required =~= bash_parameters().required);
        r
    }
}

/// The outcome of a tool's argument check: the value to go on with, or the tool's answer.
pub open spec fn checked(r: Result<String, ToolResult>, ok: Seq<char>) -> bool {
    r matches Ok(v) && v@ == ok
}

/// An argument check that ended with a failed answer carrying the given error text.
pub open spec fn refused(r: Result<String, ToolResult>, e: Seq<char>) -> bool {
    r matches Err(t) && failed_with(t, e)
}

/// A failed tool answer with the given error text.
pub open spec fn failed_with(r: ToolResult, e: Seq<char>) -> bool {
    !r.success && r.output@.len() == 0 && r.error is Some && r.error->0@ == e
}

/// The outcome of an operation that yields a text, as a tool answer.
pub open spec fn text_result(
    r: ToolResult,
    outcome: Result<String, String>,
    failure_prefix: Seq<char>,
) -> bool {
    match outcome {
        Ok(t) => r.success && r.output@ == t@ && r.error is None,
        Err(e) => failed_with(r, failure_prefix + e@),
    }
}

/// A tool that reads files inside a working directory.
pub struct ReadFileTool {
    working_directory: String,
}

impl ReadFileTool {
    /// The directory files are read in.
    pub closed spec fn directory(&self) -> Seq<char> {
        self.working_directory@
    }

    /// A reading tool for `working_directory`, which the caller gives in canonical form.
    pub fn new(working_directory: String) -> (r: Self)
        ensures
            r.directory() == working_directory@,
    {
        ReadFileTool { working_directory }
    }

    /// Resolves `path` in the working directory and accepts it only inside it.
    pub fn validate_path<F: Fn(&str) -> Result<String, String>>(
        &self,
        path: &str,
        canonicalize: F,
    ) -> (r: Result<String, String>)
        requires
            forall|s: &str| canonicalize.requires((s,)),
        ensures
            exists|s: &str, o: Result<String, String>|
                s@ == join_path(self.directory(), path@) && canonicalize.ensures((s,), o)
                    && outcome_view(r) == confined_check(self.directory(), outcome_view(o)),
    {
        confined_path(self.working_directory.as_str(), path, canonicalize)
    }

    /// Checks the `path` argument: the file to read, or the tool's answer.
    pub fn check_arguments<F: Fn(&str) -> Result<String, String>>(
        &self,
        path: Option<&str>,
        canonicalize: F,
    ) -> (r: Result<String, ToolResult>)
        requires
            forall|s: &str| canonicalize.requires((s,)),
        ensures
            path is None ==> refused(r, "Missing 'path' parameter"@),
            path matches Some(p) ==> exists|s: &str, o: Result<String, String>|
                s@ == join_path(self.directory(), p@) && canonicalize.ensures((s,), o) && match confined_check(
                    self.directory(),
                    outcome_view(o),
                ) {
                    Ok(c) => checked(r, c),
                    Err(e) => refused(r, e),
                },
    {
        match path {
            None => Err(ToolResult::error(owned("Missing 'path' parameter"))),
            Some(p) => match self.validate_path(p, canonicalize) {
                Ok(c) => Ok(c),
                Err(e) => Err(ToolResult::error(e)),
            },
        }
    }

    /// The answer once the file was read: its content, or the read error.
    pub fn read_result(read: Result<String, String>) -> (r: ToolResult)
        ensures
            text_result(r, read, "Failed to read file: "@),
    {
        match read {
            Ok(content) => ToolResult::success(content),
            Err(e) => ToolResult::error(concat2("Failed to read file: ", e.as_str())),
        }
    }
}

/// The outcome of checking where a file may be written, given how the parent of the resolved
/// path canonicalized (`None` when it could not be).
pub open spec fn write_check(
    working_directory: Seq<char>,
    resolved: Seq<char>,
    canonical_parent: Option<Seq<char>>,
) -> Result<Seq<char>, Seq<char>> {
    match canonical_parent {
        Some(c) => if path_starts_with(c, working_directory) {
            Ok(resolved)
        } else {
            Err("Path traversal not allowed"@)
        },
        None => Ok(resolved),
    }
}

/// The plain form of an optional string.
pub open spec fn opt_view(o: Option<String>) -> Option<Seq<char>> {
    match o {
        Some(s) => Some(s@),
        None => None,
    }
}

/// A tool that writes files inside a working directory.
pub struct WriteFileTool {
    working_directory: String,
}

impl WriteFileTool {
    /// The directory files are written in.
    pub closed spec fn directory(&self) -> Seq<char> {
        self.working_directory@
    }

    /// A writing tool for `working_directory`, which the caller gives in canonical form when
    /// it exists.
    pub fn new(working_directory: String) -> (r: Self)
        ensures
            r.directory() == working_directory@,
    {
        WriteFileTool { working_directory }
    }

    /// Resolves `path` in the working directory; refuses it when its parent exists outside
    /// that directory. `canonicalize_parent` stands for the file system: it gives the
    /// canonical form of the parent of the path it is given, or `None`.
    pub fn validate_path<F: Fn(&str) -> Option<String>>(
        &self,
        path: &str,
        canonicalize_parent: F,
    ) -> (r: Result<String, String>)
        requires
            forall|s: &str| canonicalize_parent.requires((s,)),
        ensures
            exists|s: &str, o: Option<String>|
                s@ == join_path(self.directory(), path@) && canonicalize_parent.ensures((s,), o)
                    && outcome_view(r) == write_check(self.directory(), s@, opt_view(o)),
    {
        let resolved = join_paths(self.working_directory.as_str(), path);
        let rs = resolved.as_str();
        let o = canonicalize_parent(rs);
        let ghost w = write_check(self.directory(), rs@, opt_view(o));
        match &o {
            Some(c) => {
                if !starts_with_path(c.as_str(), self.working_directory.as_str()) {
                    let r = Err(owned("Path traversal not allowed"));
                    assert(outcome_view(r) == w);
                    assert(canonicalize_parent.ensures((rs,), o));
                    return r;
                }
            },
            None => {},
        }
        let r = Ok(resolved);
        assert(outcome_view(r) == w);
        assert(canonicalize_parent.ensures((rs,), o));
        r
    }

    /// Checks the `path` and `content` arguments: the file to write, or the tool's answer.
    pub fn check_arguments<F: Fn(&str) -> Option<String>>(
        &self,
        path: Option<&str>,
        content: Option<&str>,
        canonicalize_parent: F,
    ) -> (r: Result<String, ToolResult>)
        requires
            forall|s: &str| canonicalize_parent.requires((s,)),
        ensures
            path is None ==> refused(r, "Missing 'path' parameter"@),
            path is Some && content is None ==> refused(r, "Missing 'content' parameter"@),
            path matches Some(p) ==> content is Some ==> exists|s: &str, o: Option<String>|
                s@ == join_path(self.directory(), p@) && canonicalize_parent.ensures((s,), o)
                    && match write_check(self.directory(), s@, opt_view(o)) {
                    Ok(c) => checked(r, c),
                    Err(e) => refused(r, e),
                },
    {
        let p = match path {
            None => {
                return Err(ToolResult::error(owned("Missing 'path' parameter")));
            },
            Some(p) => p,
        };
        if content.is_none() {
            return Err(ToolResult::error(owned("Missing 'content' parameter")));
        }
        match self.validate_path(p, canonicalize_parent) {
            Ok(c) => Ok(c),
            Err(e) => Err(ToolResult::error(e)),
        }
    }

    /// The answer when the parent directories could not be created.
    pub fn create_dirs_failed(error: String) -> (r: ToolResult)
        ensures
            failed_with(r, "Failed to create parent directories: "@ + error@),
    {
        ToolResult::error(concat2("Failed to create parent directories: ", error.as_str()))
    }

    /// The answer once the file was written (or not); `path` is the path argument as given.
    pub fn write_result(path: &str, write: Result<(), String>) -> (r: ToolResult)
        ensures
            write is Ok ==> r.success && r.output@ == "Successfully wrote to "@ + path@ && r.error
                is None,
            write matches Err(e) ==> failed_with(r, "Failed to write file: "@ + e@),
    {
        match write {
            Ok(()) => ToolResult::success(concat2("Successfully wrote to ", path)),
            Err(e) => ToolResult::error(concat2("Failed to write file: ", e.as_str())),
        }
    }
}

/// One line of a directory listing.
pub open spec fn listing_line(name: Seq<char>, is_dir: bool) -> Seq<char> {
    if is_dir {
        "DIR: "@ + name
    } else {
        "FILE: "@ + name
    }
}

/// The lines of a directory listing.
pub open spec fn listing_lines(entries: Seq<(String, bool)>) -> Seq<Seq<char>> {
    entries.map_values(|e: (String, bool)| listing_line(e.0@, e.1))
}

/// A tool that lists directories inside a working directory.
pub struct ListDirectoryTool {
    working_directory: String,
}

impl ListDirectoryTool {
    /// The directory listings are confined to.
    pub closed spec fn directory(&self) -> Seq<char> {
        self.working_directory@
    }

    /// A listing tool for `working_directory`, which the caller gives in canonical form.
    pub fn new(working_directory: String) -> (r: Self)
        ensures
            r.directory() == working_directory@,
    {
        ListDirectoryTool { working_directory }
    }

    /// Resolves `path` in the working directory and accepts it only inside it.
    pub fn validate_path<F: Fn(&str) -> Result<String, String>>(
        &self,
        path: &str,
        canonicalize: F,
    ) -> (r: Result<String, String>)
        requires
            forall|s: &str| canonicalize.requires((s,)),
        ensures
            exists|s: &str, o: Result<String, String>|
                s@ == join_path(self.directory(), path@) && canonicalize.ensures((s,), o)
                    && outcome_view(r) == confined_check(self.directory(), outcome_view(o)),
    {
        confined_path(self.working_directory.as_str(), path, canonicalize)
    }

    /// Checks the optional `path` argument (the working directory when absent): the
    /// directory to list, or the tool's answer.
    pub fn check_arguments<F: Fn(&str) -> Result<String, String>>(
        &self,
        path: Option<&str>,
        canonicalize: F,
    ) -> (r: Result<String, ToolResult>)
        requires
            forall|s: &str| canonicalize.requires((s,)),
        ensures
            exists|s: &str, o: Result<String, String>|
                s@ == join_path(
                    self.directory(),
                    match path {
                        Some(p) => p@,
                        None => self.directory(),
                    },
                ) && canonicalize.ensures((s,), o) && match confined_check(
                    self.directory(),
                    outcome_view(o),
                ) {
                    Ok(c) => checked(r, c),
                    Err(e) => refused(r, e),
                },
    {
        let p = match path {
            Some(p) => p,
            None => self.working_directory.as_str(),
        };
        match self.validate_path(p, canonicalize) {
            Ok(c) => Ok(c),
            Err(e) => Err(ToolResult::error(e)),
        }
    }

    /// The answer once the directory was read: one line per entry, `DIR: name` or
    /// `FILE: name`, or the read error.
    pub fn listing_result(read: Result<Vec<(String, bool)>, String>) -> (r: ToolResult)
        ensures
            read matches Ok(entries) ==> r.success && r.output@ == join(
                listing_lines(entries@),
                "\n"@,
            ) && r.error is None,
            read matches Err(e) ==> failed_with(r, "Failed to read directory: "@ + e@),
    {
        match read {
            Ok(entries) => {
                let mut lines: Vec<String> = Vec::new();
                let mut i: usize = 0;
                while i < entries.len()
                    invariant
                        i <= entries@.len(),
                        views(lines@) == listing_lines(entries@.take(i as int)),
                    decreases entries.len() - i,
                {
                    let line = if entries[i].1 {
                        concat2("DIR: ", entries[i].0.as_str())
                    } else {
                        concat2("FILE: ", entries[i].0.as_str())
                    };
                    let ghost before = lines@;
                    lines.push(line);
                    assert(entries@.take(i + 1) == entries@.take(i as int).push(entries@[i as int]));
                    assert(views(lines@) =~= views(before).push(line@));
                    assert(listing_lines(entries@.take(i + 1)) =~= listing_lines(entries@.take(i as int)).push(
                        listing_line(entries@[i as int].0@, entries@[i as int].1),
                    ));
                    i = i + 1;
                }
                assert(entries@.take(entries@.len() as int) == entries@);
                ToolResult::success(join_strings(lines.as_slice(), "\n"))
            },
            Err(e) => ToolResult::error(concat2("Failed to read directory: ", e.as_str())),
        }
    }
}

/// A skill run as a Node.js script.
pub struct SkillTool {
    skill_name: String,
    skill_description: String,
    skill_path: String,
}

impl SkillTool {
    /// The skill's name.
    pub closed spec fn skill(&self) -> Seq<char> {
        self.skill_name@
    }

    /// The skill's description.
    pub closed spec fn about(&self) -> Seq<char> {
        self.skill_description@
    }

    /// Where the skill's script is: a directory or the script itself.
    pub closed spec fn location(&self) -> Seq<char> {
        self.skill_path@
    }

    /// A skill tool.
    pub fn new(skill_name: String, skill_description: String, skill_path: String) -> (r: Self)
        ensures
            r.skill() == skill_name@,
            r.about() == skill_description@,
            r.location() == skill_path@,
    {
        SkillTool { skill_name, skill_description, skill_path }
    }

    /// Where the skill's script is.
    pub fn skill_path(&self) -> (r: &str)
        ensures
            r@ == self.location(),
    {
        self.skill_path.as_str()
    }

    /// The script to run: `<name>.js` inside the skill's path when that path is a directory
    /// (`is_dir`, which the caller reads from the file system), else the path itself.
    pub fn script_file(&self, is_dir: bool) -> (r: String)
        ensures
            r@ == if is_dir {
                join_path(self.location(), self.skill() + ".js"@)
            } else {
                self.location()
            },
    {
        if is_dir {
            let file = concat2(self.skill_name.as_str(), ".js");
            join_paths(self.skill_path.as_str(), file.as_str())
        } else {
            self.skill_path.clone()
        }
    }

    /// The answer when the script does not exist.
    pub fn missing_script(script: &str) -> (r: ToolResult)
        ensures
            failed_with(r, "Skill script not found: "@ + script@),
    {
        ToolResult::error(concat2("Skill script not found: ", script))
    }

    /// The outcome of running the script: `Ok((succeeded, stdout, stderr))` once it ran,
    /// `Err(text)` when it could not be started.
    pub fn skill_result(run: Result<(bool, String, String), String>) -> (r: ToolResult)
        ensures
            run matches Ok((true, out, _)) ==> r.success && r.output@ == out@ && r.error is None,
            run matches Ok((false, _, err)) ==> failed_with(r, "Skill execution failed: "@ + err@),
            run matches Err(e) ==> failed_with(r, "Failed to execute skill: "@ + e@),
    {
        match run {
            Ok((ok, stdout, stderr)) => if ok {
                ToolResult::success(stdout)
            } else {
                ToolResult::error(concat2("Skill execution failed: ", stderr.as_str()))
            },
            Err(e) => ToolResult::error(concat2("Failed to execute skill: ", e.as_str())),
        }
    }
}

/// The parameters of the file reading tool.
pub open spec fn read_file_parameters() -> ParamsView {
    ParamsView {
        properties: seq![("path"@, "The path to the file to read"@)],
        required: seq!["path"@],
    }
}

/// The parameters of the file writing tool.
pub open spec fn write_file_parameters() -> ParamsView {
    ParamsView {
        properties: seq![
            ("path"@, "The path to the file to write"@),
            ("content"@, "The content to write to the file"@),
        ],
        required: seq!["path"@, "content"@],
    }
}

/// The parameters of the directory listing tool.
pub open spec fn list_directory_parameters() -> ParamsView {
    ParamsView {
        properties: seq![
            ("path"@, "The path to the directory to list (defaults to working directory)"@),
        ],
        required: Seq::empty(),
    }
}

/// The parameters of a skill tool.
pub open spec fn skill_parameters(name: Seq<char>) -> ParamsView {
    ParamsView {
        properties: seq![("input"@, "Input for the "@ + name + " skill"@)],
        required: seq!["input"@],
    }
}

impl Tool for ReadFileTool {
    open spec fn tool_name(&self) -> Seq<char> {
        "read_file"@
    }

    open spec fn tool_description(&self) -> Seq<char> {
        "Read the contents of a file. The file path must be within the working directory."@
    }

    open spec fn tool_parameters(&self) -> ParamsView {
        read_file_parameters()
    }

    fn name(&self) -> (r: &str) {
        "read_file"
    }

    fn description(&self) -> (r: &str) {
        "Read the contents of a file. The file path must be within the working directory."
    }

    fn parameters(&self) -> (r: ToolParameters) {
        let r = ToolParameters::new().with_property(
            "path",
            owned("The path to the file to read"),
            true,
        );
        assert(r@.properties =~= read_file_parameters().properties);
        assert(r@.required =~= read_file_parameters().required);
        r
    }
}

impl Tool for WriteFileTool {
    open spec fn tool_name(&self) -> Seq<char> {
        "write_file"@
    }

    open spec fn tool_description(&self) -> Seq<char> {
        "Write content to a file. The file path must be within the working directory. Creates parent directories if they don't exist."@
    }

    open spec fn tool_parameters(&self) -> ParamsView {
        write_file_parameters()
    }

    fn name(&self) -> (r: &str) {
        "write_file"
    }

    fn description(&self) -> (r: &str) {
        "Write content to a file. The file path must be within the working directory. Creates parent directories if they don't exist."
    }

    fn parameters(&self) -> (r: ToolParameters) {
        let r = ToolParameters::new().with_property(
            "path",
            owned("The path to the file to write"),
            true,
        ).with_property("content", owned("The content to write to the file"), true);
        assert(r@.properties =~= write_file_parameters().properties);
        assert(r@.required =~= write_file_parameters().required);
        r
    }
}

impl Tool for ListDirectoryTool {
    open spec fn tool_name(&self) -> Seq<char> {
        "list_directory"@
    }

    open spec fn tool_description(&self) -> Seq<char> {
        "List the contents of a directory. Returns a list of files and directories."@
    }

    open spec fn tool_parameters(&self) -> ParamsView {
        list_directory_parameters()
    }

    fn name(&self) -> (r: &str) {
        "list_directory"
    }

    fn description(&self) -> (r: &str) {
        "List the contents of a directory. Returns a list of files and directories."
    }

    fn parameters(&self) -> (r: ToolParameters) {
        let r = ToolParameters::new().with_property(
            "path",
            owned("The path to the directory to list (defaults to working directory)"),
            false,
        );
        assert(r@.properties =~= list_directory_parameters().properties);
        assert(r@.required =~= list_directory_parameters().required);
        r
    }
}

impl Tool for SkillTool {
    open spec fn tool_name(&self) -> Seq<char> {
        self.skill()
    }

    open spec fn tool_description(&self) -> Seq<char> {
        self.about()
    }

    open spec fn tool_parameters(&self) -> ParamsView {
        skill_parameters(self.skill())
    }

    fn name(&self) -> (r: &str) {
        self.skill_name.as_str()
    }

    fn description(&self) -> (r: &str) {
        self.skill_description.as_str()
    }

    fn parameters(&self) -> (r: ToolParameters) {
        let r = ToolParameters::new().with_property(
            "input",
            concat3("Input for the ", self.skill_name.as_str(), " skill"),
            true,
        );
        assert(r@.properties =~= skill_parameters(self.skill()).properties);
        assert(r@.required =~= skill_parameters(self.skill()).required);
        r
    }
}

/// A path that a tool accepts lies inside its working directory, by whole components.
pub proof fn lemma_confined_path_inside(
    working_directory: Seq<char>,
    canonical: Result<Seq<char>, Seq<char>>,
    accepted: Seq<char>,
)
    requires
        confined_check(working_directory, canonical) == Ok::<Seq<char>, Seq<char>>(accepted),
    ensures
        path_starts_with(accepted, working_directory),
{
}

} // verus!
