//! Prompt templates and the template manager: named templates whose
//! `{key}` placeholders are substituted from caller-supplied
//! variables, in order.

use vstd::prelude::*;
use crate::strings::{spec_replace, replace_all, str_eq};

verus! {

/// A stored prompt template of the assistant surface.
#[derive(Clone, Debug, PartialEq)]
pub struct PromptTemplate {
    pub id: String,
    pub name: String,
    pub template: String,
    pub required_context: Vec<String>,
    pub optional_context: Vec<String>,
    pub category: PromptCategory,
}

/// What a prompt template is for.
#[derive(Clone, Copy, Debug, PartialEq, Eq, Structural)]
pub enum PromptCategory {
    TaskManagement,
    Planning,
    Analysis,
    Motivation,
    General,
}

/// A rendered prompt together with what context it used and missed.
#[derive(Clone, Debug, PartialEq)]
pub struct GeneratedPrompt {
    pub template_id: String,
    pub final_prompt: String,
    pub used_context: Vec<String>,
    pub missing_context: Vec<String>,
}

/// Why a prompt could not be generated.
#[derive(Clone, Debug, PartialEq)]
pub enum PromptError {
    TemplateNotFound(String),
    ContextError(String),
    ProcessingError(String),
}

/// Why the assistant surface failed.
#[derive(Clone, Debug, PartialEq)]
pub enum AgentError {
    OllamaError(String),
    DatabaseError(String),
    ParseError(String),
    NotInitialized,
    InvalidPrompt(String),
    ContextError(String),
    PromptError(String),
}

/// The body of the first template stored under the name.
pub open spec fn spec_lookup(ts: Seq<(String, String)>, name: Seq<char>) -> Option<Seq<char>>
    decreases ts.len(),
{
    if ts.len() == 0 {
        None
    } else if ts[0].0@ == name {
        Some(ts[0].1@)
    } else {
        spec_lookup(ts.skip(1), name)
    }
}

/// The variable pairs as plain text pairs.
pub open spec fn spec_pairs_view(vars: Seq<(String, String)>) -> Seq<(Seq<char>, Seq<char>)> {
    vars.map_values(|p: (String, String)| (p.0@, p.1@))
}

/// The template text after substituting each variable in turn:
/// every occurrence of `{key}` becomes the value.
pub open spec fn spec_apply_vars(t: Seq<char>, vars: Seq<(Seq<char>, Seq<char>)>) -> Seq<char>
    decreases vars.len(),
{
    if vars.len() == 0 {
        t
    } else {
        spec_apply_vars(
            spec_replace(t, seq!['{'] + vars[0].0 + seq!['}'], vars[0].1),
            vars.skip(1),
        )
    }
}

/// Named prompt templates with `{key}` placeholder substitution.
pub struct PromptManager {
    templates: Vec<(String, String)>,
}

impl PromptManager {
    /// The stored templates.
    pub closed spec fn spec_templates(self) -> Seq<(String, String)> {
        self.templates@
    }

    /// The manager with its built-in templates: task analysis, project
    /// planning, and natural-language task capture.
    pub fn new() -> (r: PromptManager)
        ensures
            spec_lookup(r.spec_templates(), "task_analysis"@) is Some,
            spec_lookup(r.spec_templates(), "project_planning"@) is Some,
            spec_lookup(r.spec_templates(), "natural_language_task"@) is Some,
    {
        let mut templates: Vec<(String, String)> = Vec::new();
        templates.push(
            (
                String::from_str("task_analysis"),
                String::from_str(
                    "You are a task-management expert. Analyze the following task and reply with improvement suggestions as JSON.\n\nTask: {description}\n\nReply with JSON of this shape:\n{\n  \"improved_title\": \"a clear, action-oriented title\",\n  \"improved_description\": \"a detailed description with a clear goal\",\n  \"suggested_tags\": [\"related tags, at most five\"],\n  \"complexity\": \"simple, medium or complex\",\n  \"estimated_hours\": hours as a number,\n  \"subtasks\": [\n    {\"title\": \"subtask title\", \"description\": \"detail\", \"order\": 1}\n  ],\n  \"priority_reasoning\": \"why this priority\"\n}\n\nFocus on making the task actionable and measurable.",
                ),
            ),
        );
        templates.push(
            (
                String::from_str("project_planning"),
                String::from_str(
                    "You are a project-planning expert. Draw up a detailed project plan for the following request.\n\nProject outline: {description}\n\nReply with JSON of this shape:\n{\n  \"phases\": [\n    {\n      \"name\": \"phase name\",\n      \"description\": \"what the phase covers\",\n      \"tasks\": [{\"title\": \"task\", \"description\": \"detail\", \"order\": 1}],\n      \"estimated_days\": days as a number,\n      \"order\": position\n    }\n  ],\n  \"total_estimated_days\": total days,\n  \"dependencies\": [\n    {\"from_task\": \"prerequisite\", \"to_task\": \"dependent\", \"dependency_type\": \"blocks\"}\n  ],\n  \"milestones\": [\n    {\"name\": \"milestone\", \"description\": \"detail\", \"target_date\": \"YYYY-MM-DD\"}\n  ]\n}\n\nBreak the project into logical phases with clear deliverables and realistic estimates.",
                ),
            ),
        );
        templates.push(
            (
                String::from_str("natural_language_task"),
                String::from_str(
                    "Turn the following natural-language request into structured task data.\n\nRequest: {request}\n\nReply with JSON of this shape:\n{\n  \"title\": \"a concise task title\",\n  \"description\": \"a detailed description\",\n  \"suggested_status\": \"todo, in_progress or in_review\",\n  \"due_date_suggestion\": \"YYYY-MM-DD when mentioned\",\n  \"tags\": [\"related category tags\"],\n  \"notification_needed\": true or false by urgency\n}\n\nExtract every relevant piece of information from the request.",
                ),
            ),
        );
        proof {
            reveal_with_fuel(spec_lookup, 4);
            reveal_strlit("task_analysis");
            reveal_strlit("project_planning");
            reveal_strlit("natural_language_task");
            assert("task_analysis"@.len() == 13);
            assert("project_planning"@.len() == 16);
            assert("natural_language_task"@.len() == 21);
            assert(templates@.skip(1)[0] == templates@[1]);
            assert(templates@.skip(1).skip(1) =~= templates@.skip(2));
            assert(templates@.skip(2)[0] == templates@[2]);
        }
        PromptManager { templates }
    }

    /// Render the named template: each variable's `{key}` placeholder
    /// is substituted in turn; an unknown template name is the only
    /// error.
    pub fn build_prompt(&self, template_name: &str, variables: &Vec<(String, String)>) -> (r:
        Result<String, AgentError>)
        ensures
            r matches Ok(p) ==> (match spec_lookup(self.spec_templates(), template_name@) {
                Some(t) => p@ == spec_apply_vars(t, spec_pairs_view(variables@)),
                None => false,
            }),
            r is Err <==> spec_lookup(self.spec_templates(), template_name@) is None,
    {
        let template = match self.lookup_template(template_name) {
            Some(t) => t,
            None => {
                return Err(AgentError::InvalidPrompt(String::from_str("template not found")));
            },
        };
        let ghost t0 = template@;
        let mut prompt = template;
        let m = variables.len();
        let mut j: usize = 0;
        proof {
            assert(spec_pairs_view(variables@).skip(0) =~= spec_pairs_view(variables@));
        }
        while j < m
            invariant
                j <= m,
                m == variables@.len(),
                spec_apply_vars(prompt@, spec_pairs_view(variables@).skip(j as int))
                    == spec_apply_vars(t0, spec_pairs_view(variables@)),
            decreases m - j,
        {
            let key = &variables[j].0;
            let value = &variables[j].1;
            let placeholder = String::from_str("{").concat(key.as_str()).concat("}");
            proof {
                reveal_strlit("{");
                reveal_strlit("}");
                assert(placeholder@ =~= seq!['{'] + key@ + seq!['}']);
                let pv = spec_pairs_view(variables@);
                assert(pv.skip(j as int)[0] == pv[j as int]);
                assert(pv[j as int] == (variables@[j as int].0@, variables@[j as int].1@));
                assert(pv.skip(j as int).skip(1) =~= pv.skip(j + 1));
            }
            prompt = replace_all(prompt.as_str(), placeholder.as_str(), value.as_str());
            j = j + 1;
        }
        proof {
            assert(spec_pairs_view(variables@).skip(m as int) =~= Seq::<(
                Seq<char>,
                Seq<char>,
            )>::empty());
        }
        Ok(prompt)
    }

    /// The first stored template under the name, if any.
    fn lookup_template(&self, name: &str) -> (r: Option<String>)
        ensures
            match r {
                Some(t) => spec_lookup(self.spec_templates(), name@) == Some(t@),
                None => spec_lookup(self.spec_templates(), name@) is None,
            },
    {
        let n = self.templates.len();
        let mut i: usize = 0;
        proof {
            assert(self.templates@.skip(0) =~= self.templates@);
        }
        while i < n
            invariant
                i <= n,
                n == self.templates@.len(),
                spec_lookup(self.spec_templates(), name@) == spec_lookup(
                    self.templates@.skip(i as int),
                    name@,
                ),
            decreases n - i,
        {
            proof {
                assert(self.templates@.skip(i as int)[0] == self.templates@[i as int]);
                assert(self.templates@.skip(i as int).skip(1) =~= self.templates@.skip(i + 1));
            }
            if str_eq(self.templates[i].0.as_str(), name) {
                return Some(self.templates[i].1.clone());
            }
            i = i + 1;
        }
        None
    }
}

impl Default for PromptManager {
    /// The default manager carries the built-in templates.
    fn default() -> (r: PromptManager) {
        PromptManager::new()
    }
}

} // verus!
