pub mod assistant;
pub mod chat;
pub mod client;
pub mod clock;
pub mod commands;
pub mod confidence;
pub mod common;
pub mod core_state;
pub mod decision_engine;
pub mod elevation;
pub mod hits;
pub mod encryption;
pub mod function_calling;
pub mod ingest;
pub mod intent_engine;
pub mod live_state;
pub mod memory;
pub mod microsoft_search;
pub mod models;
pub mod prompt;
pub mod query_analyzer;
pub mod records;
pub mod retrieval;
pub mod router;
pub mod settings;
pub mod rules;
pub mod scoring;
pub mod specialty_agent;
pub mod sse;
pub mod specialty_router;
pub mod storage;
pub mod text;
pub mod trace;
pub mod tickets;
pub mod tool_catalog;
pub mod tool_loop;
pub mod verification;
