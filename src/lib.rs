pub mod config;
pub mod gateway;
pub mod laws;
pub mod llm;
pub mod machine;
pub mod orchestrator;
pub mod role;
pub mod text;
pub mod types;
