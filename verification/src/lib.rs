//! Verified core of the native query bridge: memory circuit breaking, the registry of in-flight
//! queries, the stream that crosses runtimes, and the decisions behind each bridge call.

pub mod active_queries;
pub mod breaker_call_laws;
pub mod breaker_laws;
pub mod bridge_call;
pub mod bridge_laws;
pub mod call_params;
pub mod circuit_breaker;
pub mod cross_rt_stream;
pub mod double;
pub mod human_size;
pub mod native_mem_stats;
pub mod query_call_laws;
pub mod query_laws;
pub mod shard_view;
pub mod stream_call_laws;
pub mod stream_laws;
pub mod task;
pub mod text;
pub mod text_laws;
