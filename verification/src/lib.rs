pub mod classify;
pub mod config_types;
pub mod digest;
pub mod json_fields;
pub mod mcp;
pub mod memories;
pub mod models;
pub mod path_sample;
pub mod protocol_events;
pub mod protocol_types;
pub mod reasoning;
pub mod replacement;
pub mod response_items;
pub mod review_anchor;
pub mod runtime_ports;
pub mod scout;
pub mod scout_index;
pub mod scout_packet;
pub mod scout_run;
pub mod self_review;
pub mod session;
pub mod session_policy;
pub mod session_source;
pub mod session_state;
pub mod shell_words;
pub mod task_memory;
pub mod test_binary;
pub mod text;
