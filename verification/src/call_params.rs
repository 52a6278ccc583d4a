//! The plain parameters of bridge calls, as they come from the other side, made ready for use.

use vstd::prelude::*;

use crate::text::prefixed;

verus! {

/// A signed number taken as a machine word: a negative one wraps around to the top of the range.
pub open spec fn as_word(n: int) -> int {
    if n >= 0 {
        n
    } else {
        n + usize::MAX + 1
    }
}

/// How the bits of an index and of a filter are combined.
#[derive(Debug, Clone, Copy, PartialEq, Eq, Structural)]
pub enum BitsetMode {
    /// A row counts if both have it.
    And,
    /// A row counts if either has it.
    Or,
}

/// Parameters of a query.
#[derive(Debug, Clone, Copy, PartialEq, Eq, Structural)]
pub struct QueryPhaseParams {
    /// The plan is explained.
    pub explain: bool,
    /// How many partitions the plan aims at.
    pub target_partitions: usize,
    /// The query can be cancelled.
    pub cancellable: bool,
}

/// Parameters of a query against an index.
#[derive(Debug, Clone, Copy, PartialEq, Eq, Structural)]
pub struct IndexedQueryParams {
    /// How many partitions the query is run in; at least one.
    pub num_partitions: usize,
    /// How bits are combined.
    pub mode: BitsetMode,
    /// The plan is explained.
    pub explain: bool,
}

/// Where the caches of a runtime come from.
#[derive(Debug, Clone, Copy, PartialEq, Eq, Structural)]
pub enum CacheSource {
    /// The engine's own.
    Default,
    /// The cache manager at this address, which the runtime takes over.
    Custom(i64),
}

/// What a runtime is built from.
#[derive(Debug, Clone, Copy, PartialEq, Eq, Structural)]
pub struct RuntimePlan {
    /// Bytes that the memory pool hands out at most.
    pub memory_pool_limit: usize,
    /// How many of the largest consumers the pool names when it runs out.
    pub tracked_consumers: usize,
    /// Bytes that may be spilled to disk.
    pub spill_limit: u64,
    /// Where the caches come from.
    pub caches: CacheSource,
}

/// How many of the largest consumers a memory pool names.
pub const TRACKED_CONSUMERS: usize = 5;

/// How many values the array has that slices are tried on.
pub const SLICE_SOURCE_LEN: usize = 5;

fn word_of(n: i32) -> (r: usize)
    ensures
        r == as_word(n as int),
{
    if n >= 0 {
        n as usize
    } else {
        let below: i64 = -(n as i64) - 1;
        usize::MAX - below as usize
    }
}

/// Reads the parameters of a query.
pub fn query_phase_params(explain: u8, target_partitions: i32, cancellable: u8) -> (r:
    QueryPhaseParams)
    ensures
        r.explain == (explain != 0),
        r.target_partitions == as_word(target_partitions as int),
        r.cancellable == (cancellable != 0),
{
    QueryPhaseParams {
        explain: explain != 0,
        target_partitions: word_of(target_partitions),
        cancellable: cancellable != 0,
    }
}

/// Reads the parameters of a query against an index: it runs in at least one partition, and bits
/// are combined by `and` unless the mode is one.
pub fn indexed_query_params(num_partitions: i32, bitset_mode: i32, explain: u8) -> (r:
    IndexedQueryParams)
    ensures
        r.num_partitions == (if num_partitions == 0 {
            1
        } else {
            as_word(num_partitions as int)
        }),
        r.num_partitions >= 1,
        r.mode == (if bitset_mode == 1 {
            BitsetMode::Or
        } else {
            BitsetMode::And
        }),
        r.explain == (explain != 0),
{
    let word: usize = word_of(num_partitions);
    let num_partitions: usize = if word < 1 {
        1
    } else {
        word
    };
    let mode = match bitset_mode {
        1 => BitsetMode::Or,
        _ => BitsetMode::And,
    };
    IndexedQueryParams { num_partitions, mode, explain: explain != 0 }
}

/// Reads what a runtime is built from. A null cache manager means the engine's own caches.
pub fn runtime_plan(memory_pool_limit: i64, cache_manager: i64, spill_limit: i64) -> (r:
    RuntimePlan)
    ensures
        r.memory_pool_limit == memory_pool_limit as usize,
        r.tracked_consumers == TRACKED_CONSUMERS,
        r.spill_limit == (if spill_limit >= 0 {
            spill_limit as int
        } else {
            spill_limit + u64::MAX + 1
        }),
        r.caches == (if cache_manager == 0 {
            CacheSource::Default
        } else {
            CacheSource::Custom(cache_manager)
        }),
{
    let caches = match cache_manager {
        0 => CacheSource::Default,
        _ => CacheSource::Custom(cache_manager),
    };
    let spill: u64 = #[verifier::truncate]
    (spill_limit as u64);
    proof {
        if spill_limit < 0 {
            assert(spill == spill_limit + 0x1_0000_0000_0000_0000) by (bit_vector)
                requires
                    spill_limit < 0,
                    spill == spill_limit as u64,
            ;
        }
    }
    RuntimePlan {
        memory_pool_limit: #[verifier::truncate]
        (memory_pool_limit as usize),
        tracked_consumers: TRACKED_CONSUMERS,
        spill_limit: spill,
        caches,
    }
}

/// How many threads the compute executor gets.
pub fn cpu_thread_count(cpu_threads: i32) -> (r: usize)
    ensures
        r == as_word(cpu_threads as int),
{
    word_of(cpu_threads)
}

/// Offset and length of a slice of the array that slices are tried on, if the array has it.
pub fn slice_bounds(offset: i32, length: i32) -> (r: Option<(usize, usize)>)
    ensures
        r == (if 0 <= offset && 0 <= length && offset + length <= SLICE_SOURCE_LEN {
            Some((offset as usize, length as usize))
        } else {
            None
        }),
{
    if offset < 0 || length < 0 {
        return None;
    }
    let offset: usize = offset as usize;
    let length: usize = length as usize;
    if offset <= SLICE_SOURCE_LEN && length <= SLICE_SOURCE_LEN - offset {
        Some((offset, length))
    } else {
        None
    }
}

/// The text that describes the library to the other side, for an engine of the given version.
pub open spec fn version_text(version: Seq<char>) -> Seq<char> {
    "{\"version\": \""@ + version + "\", \"codecs\": [\"CsvDataSourceCodec\"]}"@
}

/// `datafusion::DATAFUSION_VERSION`: the version of the engine's package, which is 50.3.0.
#[verifier::external_body]
fn engine_version() -> (r: &'static str)
    ensures
        r@ == "50.3.0"@,
{
    datafusion::DATAFUSION_VERSION
}

/// Describes the library to the other side, for an engine of the given version.
pub fn version_info_of(version: &str) -> (r: String)
    ensures
        r@ == version_text(version@),
{
    prefixed("{\"version\": \"", version).concat("\", \"codecs\": [\"CsvDataSourceCodec\"]}")
}

/// Describes the library to the other side.
pub fn version_info() -> (r: String)
    ensures
        r@ == version_text("50.3.0"@),
{
    version_info_of(engine_version())
}

/// Whether an address from the other side points to anything. Closing a null address does nothing,
/// and nothing can be made from one.
pub fn is_live(address: i64) -> (r: bool)
    ensures
        r == (address != 0),
{
    address != 0
}

} // verus!
