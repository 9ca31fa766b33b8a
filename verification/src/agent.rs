//! Data shapes of the assistant surface around the engine: task
//! analysis suggestions, project plans, model metadata and
//! personality descriptions.  The engine only stores and returns
//! these; the assistant itself is an external collaborator.

use vstd::prelude::*;

verus! {

/// A suggested subtask of an analyzed task.
#[derive(Clone, Debug, PartialEq)]
pub struct SubtaskSuggestion {
    pub title: String,
    pub description: String,
    pub order: i32,
}

/// A phase of a suggested project plan.
#[derive(Clone, Debug, PartialEq)]
pub struct ProjectPhase {
    pub name: String,
    pub description: String,
    pub tasks: Vec<SubtaskSuggestion>,
    pub estimated_days: i32,
    pub order: i32,
}

/// A dependency between two suggested tasks.
#[derive(Clone, Debug, PartialEq)]
pub struct TaskDependency {
    pub from_task: String,
    pub to_task: String,
    /// `blocks`, `requires` or `relates_to`.
    pub dependency_type: String,
}

/// A milestone of a suggested project plan.
#[derive(Clone, Debug, PartialEq)]
pub struct Milestone {
    pub name: String,
    pub description: String,
    pub target_date: Option<String>,
}

/// A whole suggested project plan.
#[derive(Clone, Debug, PartialEq)]
pub struct ProjectPlan {
    pub phases: Vec<ProjectPhase>,
    pub total_estimated_days: i32,
    pub dependencies: Vec<TaskDependency>,
    pub milestones: Vec<Milestone>,
}

/// Speed/quality tier of a language model.
#[derive(Clone, Copy, Debug, PartialEq, Eq, Structural)]
pub enum ModelPerformanceTier {
    Fast,
    Balanced,
    Quality,
}

/// Displayable metadata of one language model.
#[derive(Clone, Debug, PartialEq)]
pub struct ModelPreference {
    pub display_name: String,
    pub description: String,
    pub recommended_for: Vec<String>,
    pub performance_tier: ModelPerformanceTier,
}

/// Configuration of the assistant surface: which model server to talk
/// to and what is known about the models.
#[derive(Clone, Debug, PartialEq)]
pub struct AgentConfig {
    pub default_model: String,
    pub base_url: String,
    pub timeout_seconds: u64,
    pub available_models: Vec<String>,
    pub model_preferences: Vec<(String, ModelPreference)>,
}

impl Default for AgentConfig {
    /// The built-in configuration: a local model server and the three
    /// known model preferences.
    fn default() -> (r: AgentConfig)
        ensures
            r.default_model@ == "gemma3:12b"@,
            r.base_url@ == "http://localhost:11434"@,
            r.timeout_seconds == 60,
            r.available_models@.len() == 0,
            r.model_preferences@.len() == 3,
    {
        let mut model_preferences: Vec<(String, ModelPreference)> = Vec::new();
        model_preferences.push(
            (
                String::from_str("gemma3:12b"),
                ModelPreference {
                    display_name: String::from_str("Gemma3 12B"),
                    description: String::from_str(
                        "A high-quality model, well suited to task analysis",
                    ),
                    recommended_for: vec![
                        String::from_str("task analysis"),
                        String::from_str("project planning"),
                    ],
                    performance_tier: ModelPerformanceTier::Quality,
                },
            ),
        );
        model_preferences.push(
            (
                String::from_str("llama3:latest"),
                ModelPreference {
                    display_name: String::from_str("Llama3 Latest"),
                    description: String::from_str("A balanced general-purpose model"),
                    recommended_for: vec![
                        String::from_str("general chat"),
                        String::from_str("task creation"),
                    ],
                    performance_tier: ModelPerformanceTier::Balanced,
                },
            ),
        );
        model_preferences.push(
            (
                String::from_str("llama3:8b"),
                ModelPreference {
                    display_name: String::from_str("Llama3 8B"),
                    description: String::from_str("A light and fast model"),
                    recommended_for: vec![
                        String::from_str("simple tasks"),
                        String::from_str("quick chat"),
                    ],
                    performance_tier: ModelPerformanceTier::Fast,
                },
            ),
        );
        AgentConfig {
            default_model: String::from_str("gemma3:12b"),
            base_url: String::from_str("http://localhost:11434"),
            timeout_seconds: 60,
            available_models: Vec::new(),
            model_preferences,
        }
    }
}

/// One generation response of the model server.
#[derive(Clone, Debug, PartialEq)]
pub struct GenerateResponse {
    pub response: String,
    pub done: bool,
    pub thinking: Option<String>,
    pub context: Option<Vec<i32>>,
    pub total_duration: Option<u64>,
    pub load_duration: Option<u64>,
    pub prompt_eval_count: Option<i32>,
    pub eval_count: Option<i32>,
    pub eval_duration: Option<u64>,
}

/// One installed model as the model server lists it.
#[derive(Clone, Debug, PartialEq)]
pub struct ModelInfo {
    pub name: String,
    pub modified_at: String,
    pub size: u64,
}

/// The model server's list of installed models.
#[derive(Clone, Debug, PartialEq)]
pub struct ListModelsResponse {
    pub models: Vec<ModelInfo>,
}

/// How freely a personality uses emoji.
#[derive(Clone, Copy, Debug, PartialEq, Eq, Structural)]
pub enum EmojiStyle {
    NoEmoji,
    Minimal,
    Moderate,
    Frequent,
}

/// A tone-of-voice the assistant can adopt.
#[derive(Clone, Debug, PartialEq)]
pub struct AIPersonality {
    pub id: String,
    pub name: String,
    pub description: String,
    pub tone_description: String,
    pub prompt_prefix: String,
    pub sample_phrases: Vec<String>,
    pub emoji_style: EmojiStyle,
}

} // verus!
