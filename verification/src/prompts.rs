//! The system prompt and tool list an agent sends to a model.
use vstd::prelude::*;
use vstd::string::*;
use crate::context::{AgentContext, SkillInfo, enabled_skills};
use crate::maps::StringMap;
use crate::schema::{ToolDefinition, ToolParameters, ParamsView};
use crate::text::{owned, concat2, concat3, join, join_strings, views};

verus! {

broadcast use vstd::string::group_string_axioms;

/// The prompt for an agent without skills.
pub open spec fn plain_prompt() -> Seq<char> {
    "You are a helpful assistant."@
}

/// The prompt for an agent with the given skills.
pub open spec fn tools_prompt(skills: Seq<Seq<char>>) -> Seq<char> {
    "You are a helpful assistant with access to tools. You should use tools when they would help answer the user's question. Available tools: "@
        + join(skills, ", "@)
        + ". Think step by step about whether you need to use any tools to answer the user's question. If you use a tool, explain what you're doing and why."@
}

/// The system prompt for an agent with the given skill names.
pub fn build_system_prompt(skills: &[String]) -> (r: String)
    ensures
        r@ == if skills@.len() == 0 {
            plain_prompt()
        } else {
            tools_prompt(views(skills@))
        },
{
    if skills.is_empty() {
        return owned("You are a helpful assistant.");
    }
    let mut r = owned(
        "You are a helpful assistant with access to tools. You should use tools when they would help answer the user's question. Available tools: ",
    );
    r.append(join_strings(skills, ", ").as_str());
    r.append(
        ". Think step by step about whether you need to use any tools to answer the user's question. If you use a tool, explain what you're doing and why.",
    );
    r
}

/// The parameters of a skill offered as a tool by name only.
pub open spec fn skill_input_parameters() -> ParamsView {
    ParamsView { properties: seq![("input"@, "Input for the skill"@)], required: seq!["input"@] }
}

/// Whether `d` offers the skill `name` with the given description and the generic input.
pub open spec fn is_skill_tool(d: ToolDefinition, name: Seq<char>, description: Seq<char>) -> bool {
    &&& d.tool_type@ == "function"@
    &&& d.function is Some
    &&& d.function->0.name@ == name
    &&& d.function->0.description@ == description
    &&& d.function->0.parameters@ == skill_input_parameters()
}

/// The description of a skill: its definition, else a generic one.
pub open spec fn skill_description(definitions: Map<Seq<char>, Seq<char>>, name: Seq<char>) -> Seq<char> {
    if definitions.contains_key(name) {
        definitions[name]
    } else {
        "Execute the "@ + name + " skill"@
    }
}

/// One tool per skill, described by its definition when there is one.
pub fn skills_to_tools(skills: &[String], skill_definitions: &StringMap) -> (r: Vec<ToolDefinition>)
    ensures
        r@.len() == skills@.len(),
        forall|i: int|
            0 <= i < r@.len() ==> is_skill_tool(
                #[trigger] r@[i],
                skills@[i]@,
                skill_description(skill_definitions@, skills@[i]@),
            ),
{
    let mut r: Vec<ToolDefinition> = Vec::new();
    let mut i: usize = 0;
    while i < skills.len()
        invariant
            i <= skills@.len(),
            r@.len() == i,
            forall|j: int|
                0 <= j < i ==> is_skill_tool(
                    #[trigger] r@[j],
                    skills@[j]@,
                    skill_description(skill_definitions@, skills@[j]@),
                ),
        decreases skills.len() - i,
    {
        let name = &skills[i];
        let description = match skill_definitions.get(name.as_str()) {
            Some(d) => d.clone(),
            None => concat3("Execute the ", name.as_str(), " skill"),
        };
        let params = ToolParameters::new().with_property("input", owned("Input for the skill"), true);
        assert(params@.properties =~= skill_input_parameters().properties);
        assert(params@.required =~= skill_input_parameters().required);
        r.push(ToolDefinition::function_tool(name.clone(), description, params));
        i = i + 1;
    }
    r
}

/// The sentence that introduces an agent.
pub open spec fn agent_info(ctx: AgentContext) -> Seq<char> {
    "You are "@ + ctx.name@ + " (ID: "@ + ctx.id@ + "), an AI assistant powered by "@ + ctx.provider@
        + " running on "@ + ctx.model@ + " model."@
}

/// How a skill is listed: its id, then its description, or its name when it has none.
pub open spec fn skill_line(s: SkillInfo) -> Seq<char> {
    "- "@ + s.id@ + ": "@ + if s.description@.len() == 0 {
        s.name@
    } else {
        s.description@
    }
}

/// The list of enabled skills in the prompt; empty when no skill is enabled.
pub open spec fn skill_section(skills: Seq<SkillInfo>) -> Seq<char> {
    let enabled = enabled_skills(skills);
    if enabled.len() == 0 {
        Seq::empty()
    } else {
        "You have access to the following tools/skills:\n"@ + join(
            enabled.map_values(|s: SkillInfo| skill_line(s)),
            "\n"@,
        )
            + "\n\nYou should use tools when they would help answer the user's question. Think step by step about whether you need to use any tools. If you use a tool, explain what you're doing and why."@
    }
}

/// The parameters of a skill tool built from an agent's context.
pub open spec fn named_skill_parameters(name: Seq<char>) -> ParamsView {
    ParamsView {
        properties: seq![("input"@, "Input for the "@ + name + " skill"@)],
        required: seq!["input"@],
    }
}

/// Whether `d` offers the enabled skill `s` as a tool.
pub open spec fn is_context_tool(d: ToolDefinition, s: SkillInfo) -> bool {
    &&& d.tool_type@ == "function"@
    &&& d.function is Some
    &&& d.function->0.name@ == s.id@
    &&& d.function->0.description@ == if s.description@.len() == 0 {
        "Execute the "@ + s.name@ + " skill"@
    } else {
        s.description@
    }
    &&& d.function->0.parameters@ == named_skill_parameters(s.name@)
}

/// The plain content of a `PromptBuilder`.
pub struct BuilderView {
    pub base_prompt: Seq<char>,
    pub include_agent_info: bool,
    pub include_skill_list: bool,
    pub include_system_context: bool,
    pub custom_instructions: Seq<Seq<char>>,
    pub system_context: Option<Seq<char>>,
}

/// The parts of a prompt, in order.
pub open spec fn prompt_parts(b: BuilderView, ctx: AgentContext) -> Seq<Seq<char>> {
    let p1: Seq<Seq<char>> = if b.include_system_context && b.system_context is Some {
        seq![b.system_context->0]
    } else {
        Seq::empty()
    };
    let p2: Seq<Seq<char>> = if b.include_agent_info {
        p1.push(agent_info(ctx))
    } else {
        p1
    };
    let p3: Seq<Seq<char>> = match ctx.system_prompt {
        Some(p) => p2.push(p@),
        None => if b.base_prompt.len() > 0 {
            p2.push(b.base_prompt)
        } else {
            p2
        },
    };
    let p4: Seq<Seq<char>> = if b.include_skill_list && ctx.skills@.len() > 0 {
        p3.push(skill_section(ctx.skills@))
    } else {
        p3
    };
    p4 + b.custom_instructions
}

/// The settings of a new prompt builder: everything included, the plain base prompt, no
/// custom instructions and no system context yet.
pub open spec fn default_builder() -> BuilderView {
    BuilderView {
        base_prompt: plain_prompt(),
        include_agent_info: true,
        include_skill_list: true,
        include_system_context: true,
        custom_instructions: Seq::empty(),
        system_context: None,
    }
}

/// Assembles the system prompt of an agent.
pub struct PromptBuilder {
    base_prompt: String,
    include_agent_info: bool,
    include_skill_list: bool,
    include_system_context: bool,
    custom_instructions: Vec<String>,
    system_context: Option<String>,
}

impl View for PromptBuilder {
    type V = BuilderView;

    closed spec fn view(&self) -> BuilderView {
        BuilderView {
            base_prompt: self.base_prompt@,
            include_agent_info: self.include_agent_info,
            include_skill_list: self.include_skill_list,
            include_system_context: self.include_system_context,
            custom_instructions: views(self.custom_instructions@),
            system_context: match self.system_context {
                Some(s) => Some(s@),
                None => None,
            },
        }
    }
}

impl PromptBuilder {
    /// A builder that includes everything, with the base prompt "You are a helpful assistant."
    pub fn new() -> (r: Self)
        ensures
            r@ == default_builder(),
    {
        let r = PromptBuilder {
            base_prompt: owned("You are a helpful assistant."),
            include_agent_info: true,
            include_skill_list: true,
            include_system_context: true,
            custom_instructions: Vec::new(),
            system_context: None,
        };
        assert(r@.custom_instructions =~= Seq::<Seq<char>>::empty());
        r
    }

    /// The same builder with another base prompt.
    pub fn with_base_prompt(self, prompt: String) -> (r: Self)
        ensures
            r@ == (BuilderView { base_prompt: prompt@, ..self@ }),
    {
        let mut r = self;
        r.base_prompt = prompt;
        r
    }

    /// The same builder, with or without the agent's introduction.
    pub fn with_agent_info(self, on: bool) -> (r: Self)
        ensures
            r@ == (BuilderView { include_agent_info: on, ..self@ }),
    {
        let mut r = self;
        r.include_agent_info = on;
        r
    }

    /// The same builder, with or without the list of skills.
    pub fn with_skill_list(self, on: bool) -> (r: Self)
        ensures
            r@ == (BuilderView { include_skill_list: on, ..self@ }),
    {
        let mut r = self;
        r.include_skill_list = on;
        r
    }

    /// The same builder, with or without the system context.
    pub fn with_system_context(self, on: bool) -> (r: Self)
        ensures
            r@ == (BuilderView { include_system_context: on, ..self@ }),
    {
        let mut r = self;
        r.include_system_context = on;
        r
    }

    /// The same builder with a system context section (its rendered text).
    pub fn set_system_context(self, section: String) -> (r: Self)
        ensures
            r@ == (BuilderView { system_context: Some(section@), ..self@ }),
    {
        let mut r = self;
        r.system_context = Some(section);
        r
    }

    /// The same builder with one more instruction at the end.
    pub fn add_custom_instruction(self, instruction: String) -> (r: Self)
        ensures
            r@ == (BuilderView {
                custom_instructions: self@.custom_instructions.push(instruction@),
                ..self@
            }),
    {
        let mut r = self;
        let ghost before = r.custom_instructions@;
        r.custom_instructions.push(instruction);
        assert(views(r.custom_instructions@) =~= views(before).push(instruction@));
        r
    }

    /// The system prompt for `context`: its parts, separated by blank lines.
    pub fn build(&self, context: &AgentContext) -> (r: String)
        ensures
            r@ == join(prompt_parts(self@, *context), "\n\n"@),
    {
        let mut parts: Vec<String> = Vec::new();
        let ghost b = self@;
        if self.include_system_context {
            if let Some(sys) = &self.system_context {
                parts.push(sys.clone());
            }
        }
        let ghost p1: Seq<Seq<char>> = if b.include_system_context && b.system_context is Some {
            seq![b.system_context->0]
        } else {
            Seq::empty()
        };
        assert(views(parts@) =~= p1);
        if self.include_agent_info {
            let ghost before = parts@;
            parts.push(Self::build_agent_info(context));
            assert(views(parts@) =~= views(before).push(agent_info(*context)));
        }
        match &context.system_prompt {
            Some(p) => {
                let ghost before = parts@;
                parts.push(p.clone());
                assert(views(parts@) =~= views(before).push(p@));
            },
            None => {
                if !self.base_prompt.as_str().is_empty() {
                    let ghost before = parts@;
                    parts.push(self.base_prompt.clone());
                    assert(views(parts@) =~= views(before).push(b.base_prompt));
                }
            },
        }
        if self.include_skill_list && context.has_skills() {
            let ghost before = parts@;
            parts.push(Self::build_skill_section(context));
            assert(views(parts@) =~= views(before).push(skill_section(context.skills@)));
        }
        let ghost head = views(parts@);
        let mut i: usize = 0;
        while i < self.custom_instructions.len()
            invariant
                i <= self.custom_instructions@.len(),
                b == self@,
                views(parts@) == head + b.custom_instructions.take(i as int),
            decreases self.custom_instructions.len() - i,
        {
            let ghost before = parts@;
            parts.push(self.custom_instructions[i].clone());
            assert(views(parts@) =~= views(before).push(b.custom_instructions[i as int]));
            assert(b.custom_instructions.take(i + 1) =~= b.custom_instructions.take(i as int).push(
                b.custom_instructions[i as int],
            ));
            i = i + 1;
        }
        assert(b.custom_instructions.take(b.custom_instructions.len() as int) == b.custom_instructions);
        assert(views(parts@) == prompt_parts(b, *context));
        join_strings(parts.as_slice(), "\n\n")
    }

    /// The sentence that introduces the agent.
    fn build_agent_info(context: &AgentContext) -> (r: String)
        ensures
            r@ == agent_info(*context),
    {
        let mut r = owned("You are ");
        r.append(context.name.as_str());
        r.append(" (ID: ");
        r.append(context.id.as_str());
        r.append("), an AI assistant powered by ");
        r.append(context.provider.as_str());
        r.append(" running on ");
        r.append(context.model.as_str());
        r.append(" model.");
        r
    }

    /// The list of enabled skills; empty when none is enabled.
    fn build_skill_section(context: &AgentContext) -> (r: String)
        ensures
            r@ == skill_section(context.skills@),
    {
        let enabled = context.get_enabled_skills();
        let ghost es = enabled_skills(context.skills@);
        if enabled.len() == 0 {
            assert(enabled@.map_values(|s: &SkillInfo| *s).len() == 0);
            return String::new();
        }
        let mut lines: Vec<String> = Vec::new();
        let mut i: usize = 0;
        while i < enabled.len()
            invariant
                i <= enabled@.len(),
                enabled@.map_values(|s: &SkillInfo| *s) == es,
                views(lines@) == es.take(i as int).map_values(|s: SkillInfo| skill_line(s)),
            decreases enabled.len() - i,
        {
            let s = enabled[i];
            assert(*s == es[i as int]);
            let text = if s.description.as_str().is_empty() {
                s.name.as_str()
            } else {
                s.description.as_str()
            };
            let mut line = owned("- ");
            line.append(s.id.as_str());
            line.append(": ");
            line.append(text);
            let ghost before = lines@;
            lines.push(line);
            assert(views(lines@) =~= views(before).push(skill_line(es[i as int])));
            assert(es.take(i + 1) == es.take(i as int).push(es[i as int]));
            assert(es.take(i + 1).map_values(|s: SkillInfo| skill_line(s)) =~= es.take(
                i as int,
            ).map_values(|s: SkillInfo| skill_line(s)).push(skill_line(es[i as int])));
            i = i + 1;
        }
        assert(es.take(es.len() as int) == es);
        let mut r = owned("You have access to the following tools/skills:\n");
        r.append(join_strings(lines.as_slice(), "\n").as_str());
        r.append(
            "\n\nYou should use tools when they would help answer the user's question. Think step by step about whether you need to use any tools. If you use a tool, explain what you're doing and why.",
        );
        r
    }

    /// One tool per enabled skill of the agent.
    pub fn build_tools(&self, context: &AgentContext) -> (r: Vec<ToolDefinition>)
        ensures
            r@.len() == enabled_skills(context.skills@).len(),
            forall|i: int|
                0 <= i < r@.len() ==> is_context_tool(
                    #[trigger] r@[i],
                    enabled_skills(context.skills@)[i],
                ),
    {
        let enabled = context.get_enabled_skills();
        let ghost es = enabled_skills(context.skills@);
        let mut r: Vec<ToolDefinition> = Vec::new();
        let mut i: usize = 0;
        while i < enabled.len()
            invariant
                i <= enabled@.len(),
                enabled@.map_values(|s: &SkillInfo| *s) == es,
                r@.len() == i,
                forall|j: int| 0 <= j < i ==> is_context_tool(#[trigger] r@[j], es[j]),
            decreases enabled.len() - i,
        {
            let s = enabled[i];
            assert(*s == es[i as int]);
            let description = if s.description.as_str().is_empty() {
                concat3("Execute the ", s.name.as_str(), " skill")
            } else {
                s.description.clone()
            };
            let params = ToolParameters::new().with_property(
                "input",
                concat3("Input for the ", s.name.as_str(), " skill"),
                true,
            );
            assert(params@.properties =~= named_skill_parameters(s.name@).properties);
            assert(params@.required =~= named_skill_parameters(s.name@).required);
            r.push(ToolDefinition::function_tool(s.id.clone(), description, params));
            i = i + 1;
        }
        r
    }
}

impl Default for PromptBuilder {
    fn default() -> (r: Self)
        ensures
            r@ == (BuilderView {
                base_prompt: plain_prompt(),
                include_agent_info: true,
                include_skill_list: true,
                include_system_context: true,
                custom_instructions: Seq::empty(),
                system_context: None,
            }),
    {
        Self::new()
    }
}

/// The system context section of a prompt.
pub open spec fn system_context_text(
    time: Seq<char>,
    location: Option<Seq<char>>,
    timezone: Seq<char>,
) -> Seq<char> {
    let first = seq!["Current date and time: "@ + time];
    let lines = match location {
        Some(l) => first.push("User location: "@ + l),
        None => first,
    }.push("Timezone: "@ + timezone);
    "## System Context\n\n"@ + join(lines, "\n"@) + "\n"@
}

/// Whether `chrono-tz` knows a time zone by this name.
pub uninterp spec fn zone_known(name: Seq<char>) -> bool;

/// `str::parse::<chrono_tz::Tz>` succeeding: whether the name is one of the zones in the
/// crate's compiled-in table.
#[verifier::external_body]
fn is_known_zone(name: &str) -> (r: bool)
    ensures
        r == zone_known(name@),
{
    name.parse::<chrono_tz::Tz>().is_ok()
}

/// The text `chrono` writes with the format `%Y-%m-%d %H:%M:%S %:z` for the moment `secs`
/// seconds and `nanos` nanoseconds after 1970, in the zone of that name.
pub uninterp spec fn zone_time_text(secs: int, nanos: int, zone: Seq<char>) -> Seq<char>;

/// `chrono::DateTime::with_timezone` into the `chrono-tz` zone named `zone`, written with
/// `format("%Y-%m-%d %H:%M:%S %:z")`: the local date, time and offset of the moment
/// `secs` seconds and `nanos` nanoseconds after 1970; `None` when `from_timestamp` finds
/// the moment out of range or the zone name is unknown.
#[verifier::external_body]
fn time_in_zone(secs: i64, nanos: u32, zone: &str) -> (r: Option<String>)
    ensures
        r matches Some(t) ==> t@ == zone_time_text(secs as int, nanos as int, zone@),
{
    match (chrono::DateTime::<chrono::Utc>::from_timestamp(secs, nanos), zone.parse::<chrono_tz::Tz>()) {
        (Some(t), Ok(tz)) => Some(t.with_timezone(&tz).format("%Y-%m-%d %H:%M:%S %:z").to_string()),
        _ => None,
    }
}

/// The zone a prompt's local time is written in: the user's zone when `chrono-tz` knows
/// it, else UTC.
pub open spec fn prompt_zone(timezone: Seq<char>) -> Seq<char> {
    if zone_known(timezone) {
        timezone
    } else {
        "UTC"@
    }
}

/// The local date, time and offset of a moment (seconds and nanoseconds after 1970) in the
/// user's time zone, or in UTC when the zone is unknown; `None` only when the moment or
/// the zone cannot be handled by `chrono`.
pub fn local_time_text(secs: i64, nanos: u32, timezone: &str) -> (r: Option<String>)
    ensures
        r matches Some(t) ==> t@ == zone_time_text(secs as int, nanos as int, prompt_zone(timezone@)),
{
    if is_known_zone(timezone) {
        time_in_zone(secs, nanos, timezone)
    } else {
        time_in_zone(secs, nanos, "UTC")
    }
}

/// The system context section of a prompt, from the local time, the user's location and the
/// timezone, each already written out.
pub fn render_system_context(time: &str, location: Option<&str>, timezone: &str) -> (r: String)
    ensures
        r@ == system_context_text(
            time@,
            match location {
                Some(l) => Some(l@),
                None => None,
            },
            timezone@,
        ),
{
    let mut lines: Vec<String> = Vec::new();
    lines.push(concat2("Current date and time: ", time));
    if let Some(l) = location {
        lines.push(concat2("User location: ", l));
    }
    lines.push(concat2("Timezone: ", timezone));
    let ghost expected = {
        let first = seq!["Current date and time: "@ + time@];
        match location {
            Some(l) => first.push("User location: "@ + l@),
            None => first,
        }.push("Timezone: "@ + timezone@)
    };
    assert(views(lines@) =~= expected);
    let mut r = owned("## System Context\n\n");
    r.append(join_strings(lines.as_slice(), "\n").as_str());
    r.append("\n");
    r
}

/// An enabled skill is listed as `- {id}: ` followed by its description, or by its name
/// when its description is empty.
pub proof fn lemma_skill_listed_by_description(s: SkillInfo)
    ensures
        s.description@.len() > 0 ==> skill_line(s) == "- "@ + s.id@ + ": "@ + s.description@,
        s.description@.len() == 0 ==> skill_line(s) == "- "@ + s.id@ + ": "@ + s.name@,
{
}

/// The skill section lists each enabled skill, in order, on a line of its own that is
/// `- {id}: ` and its description (its name when the description is empty).
pub proof fn lemma_skill_section_lines(skills: Seq<SkillInfo>)
    ensures
        enabled_skills(skills).len() > 0 ==> skill_section(skills) == "You have access to the following tools/skills:\n"@
            + join(
            Seq::new(
                enabled_skills(skills).len(),
                |i: int|
                    "- "@ + enabled_skills(skills)[i].id@ + ": "@ + if enabled_skills(skills)[i].description@.len() > 0 {
                        enabled_skills(skills)[i].description@
                    } else {
                        enabled_skills(skills)[i].name@
                    },
            ),
            "\n"@,
        )
            + "\n\nYou should use tools when they would help answer the user's question. Think step by step about whether you need to use any tools. If you use a tool, explain what you're doing and why."@,
{
    let e = enabled_skills(skills);
    assert(e.map_values(|s: SkillInfo| skill_line(s)) =~= Seq::new(
        e.len(),
        |i: int|
            "- "@ + e[i].id@ + ": "@ + if e[i].description@.len() > 0 {
                e[i].description@
            } else {
                e[i].name@
            },
    ));
}

} // verus!
