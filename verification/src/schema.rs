//! Tool definitions as offered to a model: a name, a description and the parameters,
//! all of which are strings.
use vstd::prelude::*;
use crate::text::owned;

verus! {

/// One string parameter of a tool.
pub struct ToolProperty {
    pub name: String,
    pub description: String,
}

/// The parameters of a tool: an object whose properties are all strings.
pub struct ToolParameters {
    pub properties: Vec<ToolProperty>,
    pub required: Vec<String>,
}

/// A function that a model may call.
pub struct ToolFunction {
    pub name: String,
    pub description: String,
    pub parameters: ToolParameters,
}

/// A tool offered to a model: a function, or a built-in tool of the provider named by its type.
pub struct ToolDefinition {
    pub tool_type: String,
    pub function: Option<ToolFunction>,
}

/// The plain content of `ToolParameters`: (name, description) of each property, and the
/// names of the required ones.
pub struct ParamsView {
    pub properties: Seq<(Seq<char>, Seq<char>)>,
    pub required: Seq<Seq<char>>,
}

impl View for ToolParameters {
    type V = ParamsView;

    open spec fn view(&self) -> ParamsView {
        ParamsView {
            properties: self.properties@.map_values(|p: ToolProperty| (p.name@, p.description@)),
            required: self.required@.map_values(|s: String| s@),
        }
    }
}

impl ToolParameters {
    /// No parameters.
    pub fn new() -> (r: Self)
        ensures
            r@.properties == Seq::<(Seq<char>, Seq<char>)>::empty(),
            r@.required == Seq::<Seq<char>>::empty(),
    {
        let r = ToolParameters { properties: Vec::new(), required: Vec::new() };
        assert(r@.properties =~= Seq::<(Seq<char>, Seq<char>)>::empty());
        assert(r@.required =~= Seq::<Seq<char>>::empty());
        r
    }

    /// The same parameters with one more string property, required or not.
    pub fn with_property(self, name: &str, description: String, required: bool) -> (r: Self)
        ensures
            r@.properties == self@.properties.push((name@, description@)),
            r@.required == if required {
                self@.required.push(name@)
            } else {
                self@.required
            },
    {
        let mut r = self;
        let ghost before = r@;
        r.properties.push(ToolProperty { name: owned(name), description });
        if required {
            r.required.push(owned(name));
        }
        assert(r@.properties =~= before.properties.push((name@, description@)));
        if required {
            assert(r@.required =~= before.required.push(name@));
        } else {
            assert(r@.required =~= before.required);
        }
        r
    }
}

impl ToolDefinition {
    /// A function tool.
    pub fn function_tool(name: String, description: String, parameters: ToolParameters) -> (r: Self)
        ensures
            r.tool_type@ == "function"@,
            r.function matches Some(f) && f.name == name && f.description == description
                && f.parameters == parameters,
    {
        ToolDefinition {
            tool_type: owned("function"),
            function: Some(ToolFunction { name, description, parameters }),
        }
    }

    /// A built-in tool of the provider, named by its type.
    pub fn builtin_tool(tool_type: &str) -> (r: Self)
        ensures
            r.tool_type@ == tool_type@,
            r.function is None,
    {
        ToolDefinition { tool_type: owned(tool_type), function: None }
    }
}

} // verus!
