//! The control loop of a task-execution agent: it classifies what a text
//! completion service replies, plans a task as a list of steps, resolves each
//! step to a tool, and bounds the rounds of code generation.
//!
//! The library decides; it does not talk to anyone. The caller asks the
//! completion service, fetches pages, searches and runs code, and hands each
//! answer to the library, which says what to do next.
//!
//! - [`nous_structs`] classifies a reply as plain text or a tool invocation.
//! - [`utils`] pulls single fields out of replies that are nearly JSON.
//! - [`immutable_agent`] holds the agent, the dispatcher of tools, the
//!   planner's part and the stepper.
//! - [`code_iteration`] is the bounded loop of code generation.
//! - [`exec_python`] finds code in a reply and reads what the sandbox
//!   reports.
//! - [`webscraper_hook`] writes the requests of the web collaborators and
//!   digests what a search returns.
//! - [`prompts`] holds the fixed texts.
//! - [`laws`] proves what holds of these parts together.
//! - [`text`], [`arguments`] and [`console`] are the groundwork.
//!
//! Everything is verified but the calls into other crates, whose contracts
//! are taken on trust: regular expressions are matched by `regex`
//! ([`pattern`]), JSON is read by `serde_json` ([`json`]), queries are
//! percent-encoded by `urlencoding` ([`webscraper_hook`]), and strings are
//! quoted and appended to by the standard library ([`text`]).

pub mod arguments;
pub mod code_iteration;
pub mod console;
pub mod exec_python;
pub mod immutable_agent;
pub mod json;
pub mod laws;
pub mod llama_structs;
pub mod llm_llama_local;
pub mod nous_structs;
pub mod pattern;
pub mod prompts;
pub mod text;
pub mod utils;
pub mod webscraper_hook;
