//! What an agent is: its identity, model, prompt, skills and metadata.
use vstd::prelude::*;
use crate::maps::StringMap;

verus! {

/// A skill that an agent may call as a tool.
pub struct SkillInfo {
    pub id: String,
    pub name: String,
    pub description: String,
    pub enabled: bool,
}

/// An agent as stored: its skills are skill ids; times are Unix timestamps in seconds.
pub struct Agent {
    pub id: String,
    pub name: String,
    pub provider: String,
    pub provider_config_id: Option<String>,
    pub model: String,
    pub system_prompt: Option<String>,
    pub avatar_url: Option<String>,
    pub skills: Vec<String>,
    pub created_at: i64,
    pub updated_at: i64,
}

/// The context in which an agent answers.
pub struct AgentContext {
    pub id: String,
    pub name: String,
    pub provider: String,
    pub model: String,
    pub system_prompt: Option<String>,
    pub avatar_url: Option<String>,
    pub skills: Vec<SkillInfo>,
    pub metadata: StringMap,
}

/// The enabled skills of `s`, in order.
pub open spec fn enabled_skills(s: Seq<SkillInfo>) -> Seq<SkillInfo>
    decreases s.len(),
{
    if s.len() == 0 {
        Seq::empty()
    } else if s.last().enabled {
        enabled_skills(s.drop_last()).push(s.last())
    } else {
        enabled_skills(s.drop_last())
    }
}

/// The skill an agent gets for a stored skill id: named by its id, with no description, enabled.
pub open spec fn skill_for_id(id: Seq<char>, s: SkillInfo) -> bool {
    s.id@ == id && s.name@ == id && s.description@ == Seq::<char>::empty() && s.enabled
}

impl AgentContext {
    /// A context with no prompt, avatar, skills or metadata.
    pub fn new(id: String, name: String, provider: String, model: String) -> (r: Self)
        ensures
            r.id == id,
            r.name == name,
            r.provider == provider,
            r.model == model,
            r.system_prompt is None,
            r.avatar_url is None,
            r.skills@ == Seq::<SkillInfo>::empty(),
            r.metadata@ == Map::<Seq<char>, Seq<char>>::empty(),
    {
        AgentContext {
            id,
            name,
            provider,
            model,
            system_prompt: None,
            avatar_url: None,
            skills: Vec::new(),
            metadata: StringMap::new(),
        }
    }

    /// The same context with the given system prompt.
    pub fn with_system_prompt(self, prompt: String) -> (r: Self)
        ensures
            r.system_prompt == Some(prompt),
            r.id == self.id,
            r.name == self.name,
            r.provider == self.provider,
            r.model == self.model,
            r.avatar_url == self.avatar_url,
            r.skills == self.skills,
            r.metadata == self.metadata,
    {
        let mut r = self;
        r.system_prompt = Some(prompt);
        r
    }

    /// The same context with the given avatar URL.
    pub fn with_avatar_url(self, url: String) -> (r: Self)
        ensures
            r.avatar_url == Some(url),
            r.id == self.id,
            r.name == self.name,
            r.provider == self.provider,
            r.model == self.model,
            r.system_prompt == self.system_prompt,
            r.skills == self.skills,
            r.metadata == self.metadata,
    {
        let mut r = self;
        r.avatar_url = Some(url);
        r
    }

    /// The same context with its skills replaced.
    pub fn with_skills(self, skills: Vec<SkillInfo>) -> (r: Self)
        ensures
            r.skills == skills,
            r.id == self.id,
            r.name == self.name,
            r.provider == self.provider,
            r.model == self.model,
            r.system_prompt == self.system_prompt,
            r.avatar_url == self.avatar_url,
            r.metadata == self.metadata,
    {
        let mut r = self;
        r.skills = skills;
        r
    }

    /// The same context with `key` set to `value` in its metadata.
    pub fn with_metadata(self, key: String, value: String) -> (r: Self)
        ensures
            r.metadata@ == self.metadata@.insert(key@, value@),
            r.id == self.id,
            r.name == self.name,
            r.provider == self.provider,
            r.model == self.model,
            r.system_prompt == self.system_prompt,
            r.avatar_url == self.avatar_url,
            r.skills == self.skills,
    {
        let mut r = self;
        r.metadata.insert(key, value);
        r
    }

    /// The enabled skills, in order.
    pub fn get_enabled_skills(&self) -> (r: Vec<&SkillInfo>)
        ensures
            r@.map_values(|s: &SkillInfo| *s) == enabled_skills(self.skills@),
    {
        let mut r: Vec<&SkillInfo> = Vec::new();
        let mut i: usize = 0;
        while i < self.skills.len()
            invariant
                i <= self.skills@.len(),
                r@.map_values(|s: &SkillInfo| *s) == enabled_skills(self.skills@.take(i as int)),
            decreases self.skills.len() - i,
        {
            assert(self.skills@.take(i + 1).drop_last() == self.skills@.take(i as int));
            let ghost before = r@;
            if self.skills[i].enabled {
                r.push(&self.skills[i]);
                assert(r@.map_values(|s: &SkillInfo| *s) =~= before.map_values(
                    |s: &SkillInfo| *s,
                ).push(self.skills@[i as int]));
            }
            i = i + 1;
        }
        assert(self.skills@.take(self.skills@.len() as int) == self.skills@);
        r
    }

    /// Whether the agent has any skill, enabled or not.
    pub fn has_skills(&self) -> (r: bool)
        ensures
            r == (self.skills@.len() > 0),
    {
        !self.skills.is_empty()
    }

    /// The ids of all skills, in order.
    pub fn get_skill_names(&self) -> (r: Vec<&str>)
        ensures
            r@.len() == self.skills@.len(),
            forall|i: int| 0 <= i < r@.len() ==> (#[trigger] r@[i])@ == self.skills@[i].id@,
    {
        let mut r: Vec<&str> = Vec::new();
        let mut i: usize = 0;
        while i < self.skills.len()
            invariant
                i <= self.skills@.len(),
                r@.len() == i,
                forall|j: int| 0 <= j < i ==> (#[trigger] r@[j])@ == self.skills@[j].id@,
            decreases self.skills.len() - i,
        {
            r.push(self.skills[i].id.as_str());
            i = i + 1;
        }
        r
    }

    /// The context of a stored agent: each skill id becomes an enabled skill named by its id,
    /// with no description; the metadata is empty.
    pub fn from_agent(agent: Agent) -> (r: Self)
        ensures
            r.id == agent.id,
            r.name == agent.name,
            r.provider == agent.provider,
            r.model == agent.model,
            r.system_prompt == agent.system_prompt,
            r.avatar_url == agent.avatar_url,
            r.skills@.len() == agent.skills@.len(),
            forall|i: int|
                0 <= i < r.skills@.len() ==> skill_for_id(agent.skills@[i]@, #[trigger] r.skills@[i]),
            r.metadata@ == Map::<Seq<char>, Seq<char>>::empty(),
    {
        let mut skills: Vec<SkillInfo> = Vec::new();
        let mut i: usize = 0;
        while i < agent.skills.len()
            invariant
                i <= agent.skills@.len(),
                skills@.len() == i,
                forall|j: int|
                    0 <= j < i ==> skill_for_id(agent.skills@[j]@, #[trigger] skills@[j]),
            decreases agent.skills.len() - i,
        {
            let id = &agent.skills[i];
            skills.push(SkillInfo { id: id.clone(), name: id.clone(), description: String::new(), enabled: true });
            i = i + 1;
        }
        AgentContext {
            id: agent.id,
            name: agent.name,
            provider: agent.provider,
            model: agent.model,
            system_prompt: agent.system_prompt,
            avatar_url: agent.avatar_url,
            skills,
            metadata: StringMap::new(),
        }
    }
}

} // verus!
