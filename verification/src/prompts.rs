//! The prompt texts the library fills in and sends to the language model.
use vstd::prelude::*;

verus! {

/// System prompt for generating an ontology.
pub const ONTOLOGY_SYSTEM_PROMPT: &'static str = "You are an expert knowledge graph designer. Analyze the provided documents and create an ontology (entity types and relation types) that captures the key concepts and their relationships for building a simulation knowledge graph.\n\nOutput valid JSON with:\n- entity_types: array of {name, description, attributes: [{name, description, data_type}]}\n- edge_types: array of {name, description, source_types: [...], target_types: [...]}\n- analysis_summary: brief summary of the document content";

/// User prompt template for generating an ontology.
pub const ONTOLOGY_USER_PROMPT_TEMPLATE: &'static str = "Documents to analyze:\n\n{document_texts}\n\nSimulation requirement: {simulation_requirement}\n\n{additional_context}\n\nCreate an ontology that will support simulating the described scenario.";

/// System prompt for generating an agent profile.
pub const PROFILE_SYSTEM_PROMPT: &'static str = "You are an expert at creating realistic agent personas for social simulations.";

/// User prompt template for generating an agent profile.
pub const PROFILE_USER_PROMPT_TEMPLATE: &'static str = "Generate a detailed agent profile based on:\n\nEntity: {entity_name}\nEntity Type: {entity_type}\nDescription: {entity_description}\nAttributes: {entity_attributes}\nRelations: {entity_relations}\n\nSimulation requirement: {simulation_requirement}\n\nCreate a complete profile with:\n- name, username, bio\n- personality traits\n- demographics\n- activity patterns\n- stance on the topic";

/// System prompt for generating a simulation configuration.
pub const SIM_CONFIG_SYSTEM_PROMPT: &'static str = "You are an expert simulation designer. Analyze the simulation requirements and generate optimal configuration for multi-agent social simulation.";

/// User prompt template for generating a simulation configuration.
pub const SIM_CONFIG_USER_PROMPT_TEMPLATE: &'static str = "Simulation requirement: {simulation_requirement}\n\nDocument context: {document_text}\n\nNumber of agents: {entities_count}\nAgent types: {entity_types}\n\nGenerate a complete simulation configuration with:\n- Time settings (total hours, minutes per round)\n- Activity patterns for each agent\n- Initial posts and hot topics\n- Platform-specific settings";

/// System prompt for planning a report.
pub const REPORT_PLAN_SYSTEM_PROMPT: &'static str = "You are an expert report writer with a \"God's-eye view\" of a simulated world. You can see everything that happened in the simulation. Plan a report that answers: what happened when we injected specific variables into this simulated world?";

/// User prompt template for planning a report.
pub const REPORT_PLAN_USER_PROMPT_TEMPLATE: &'static str = "Simulation requirement: {simulation_requirement}\nWorld scale: {total_nodes} nodes, {total_edges} edges\nEntity types: {entity_types}\nActive agents: {total_entities}\n\nSample facts from simulation:\n{related_facts_json}\n\nDesign a report outline (2-5 chapters) that reveals the key predictions and insights from this simulation.";

/// System prompt template for writing a report section.
pub const REPORT_SECTION_SYSTEM_PROMPT_TEMPLATE: &'static str = "You are writing a section of a future prediction report. Report title: {report_title}. Summary: {report_summary}. Prediction scenario: {simulation_requirement}. Current section: {section_title}.\n\nYou MUST use the available tools to gather data from the simulation. Every claim must be backed by simulation evidence.";

/// System prompt for interviews with agents.
pub const INTERVIEW_SYSTEM_PROMPT: &'static str = "You are conducting an interview with a simulated agent. Respond in character based on the agent's persona, memories, and past actions.";

} // verus!
