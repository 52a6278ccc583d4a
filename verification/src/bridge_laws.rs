//! What the calls that prepare the work of the bridge give: the steps of a setup, the answers to a
//! failed one, the parameters that are read, and the files of a shard.
//!
//! A law that speaks of a call holds for every call with these arguments and this result.

use std::sync::Arc;
use vstd::prelude::*;

use crate::bridge_call::{
    failure_of, step_at, BridgeCall, BridgeSetup, Failure, FailureChannel, SetupProgress,
    SetupStep, StepReply,
};
use crate::call_params::{
    cpu_thread_count, indexed_query_params, is_live, query_phase_params, runtime_plan,
    slice_bounds, version_info, version_info_of, BitsetMode, CacheSource, IndexedQueryParams,
    QueryPhaseParams, RuntimePlan,
};
use crate::shard_view::{
    ordered_files, text_le, text_order, texts, CustomFileMeta, FileStats, ObjectMeta, ShardView,
    TableAddress,
};

verus! {

/// A count that Java gives is taken as it is, and a negative one as the machine word with its bits; a
/// flag is on unless it is zero.
pub proof fn law_query_phase_params(
    explain: u8,
    target_partitions: i32,
    cancellable: u8,
    r: QueryPhaseParams,
)
    requires
        call_ensures(query_phase_params, (explain, target_partitions, cancellable), r),
    ensures
        target_partitions >= 0 ==> r.target_partitions == target_partitions,
        target_partitions < 0 ==> r.target_partitions == target_partitions + usize::MAX + 1,
        r.explain <==> explain != 0,
        r.cancellable <==> cancellable != 0,
{
}

/// Different counts are read as different words, so nothing that Java asks for is cut.
pub proof fn law_counts_are_kept_apart(
    a: i32,
    b: i32,
    x: QueryPhaseParams,
    y: QueryPhaseParams,
    m: usize,
    n: usize,
)
    requires
        call_ensures(query_phase_params, (0u8, a, 0u8), x),
        call_ensures(query_phase_params, (0u8, b, 0u8), y),
        call_ensures(cpu_thread_count, (a,), m),
        call_ensures(cpu_thread_count, (b,), n),
    ensures
        x.target_partitions == y.target_partitions <==> a == b,
        m == n <==> a == b,
        0 <= a < b ==> x.target_partitions < y.target_partitions && m < n,
        x.target_partitions == m,
{
}

/// A query against an index runs in as many partitions as Java asks for, and in one if it asks for
/// none; bits are combined by `or` only for the mode one.
pub proof fn law_indexed_query_params(
    num_partitions: i32,
    bitset_mode: i32,
    explain: u8,
    r: IndexedQueryParams,
)
    requires
        call_ensures(indexed_query_params, (num_partitions, bitset_mode, explain), r),
    ensures
        num_partitions >= 1 ==> r.num_partitions == num_partitions,
        num_partitions == 0 ==> r.num_partitions == 1,
        num_partitions < 0 ==> r.num_partitions == num_partitions + usize::MAX + 1,
        r.mode == BitsetMode::Or <==> bitset_mode == 1,
        r.mode == BitsetMode::And <==> bitset_mode != 1,
        r.explain <==> explain != 0,
{
}

/// The compute executor gets as many threads as Java asks for.
pub proof fn law_cpu_thread_count(cpu_threads: i32, r: usize)
    requires
        call_ensures(cpu_thread_count, (cpu_threads,), r),
    ensures
        cpu_threads >= 0 ==> r == cpu_threads,
        cpu_threads < 0 ==> r == cpu_threads + usize::MAX + 1,
{
}

/// A runtime is built with the limits that Java gives, names the five largest consumers, and takes
/// over the cache manager whose address is not null.
pub proof fn law_runtime_plan(
    memory_pool_limit: i64,
    cache_manager: i64,
    spill_limit: i64,
    r: RuntimePlan,
)
    requires
        call_ensures(runtime_plan, (memory_pool_limit, cache_manager, spill_limit), r),
    ensures
        0 <= memory_pool_limit <= usize::MAX ==> r.memory_pool_limit == memory_pool_limit,
        r.memory_pool_limit == memory_pool_limit as usize,
        r.tracked_consumers == 5,
        spill_limit >= 0 ==> r.spill_limit == spill_limit,
        spill_limit < 0 ==> r.spill_limit == spill_limit + u64::MAX + 1,
        cache_manager == 0 <==> r.caches == CacheSource::Default,
        cache_manager != 0 ==> r.caches == CacheSource::Custom(cache_manager),
{
}

/// A slice of the five values is taken exactly where it lies within them.
pub proof fn law_slice_bounds(offset: i32, length: i32, r: Option<(usize, usize)>)
    requires
        call_ensures(slice_bounds, (offset, length), r),
    ensures
        r is Some <==> 0 <= offset && 0 <= length && offset + length <= 5,
        r matches Some(bounds) ==> bounds.0 == offset && bounds.1 == length,
{
}

/// An address points to something unless it is zero.
pub proof fn law_is_live(address: i64, r: bool)
    requires
        call_ensures(is_live, (address,), r),
    ensures
        r <==> address != 0,
{
}

/// The description holds the version of the engine between its quotes.
pub proof fn law_version_info(version: &str, of: String, own: String)
    requires
        call_ensures(version_info_of, (version,), of),
        call_ensures(version_info, (), own),
    ensures
        of@ == "{\"version\": \""@ + version@ + "\", \"codecs\": [\"CsvDataSourceCodec\"]}"@,
        version@ == "50.3.0"@ ==> own@ == of@,
{
}

/// The steps of each setup, by their places.
pub proof fn law_step_at(call: BridgeCall, index: usize, r: Option<SetupStep>)
    requires
        call_ensures(step_at, (call, index), r),
    ensures
        call is CreateGlobalRuntime ==> {
            &&& r is Some <==> index < 1
            &&& index == 0 ==> r == Some(SetupStep::SpillDir)
        },
        call is CreateDatafusionReader ==> {
            &&& r is Some <==> index < 4
            &&& index == 0 ==> r == Some(SetupStep::TablePath)
            &&& index == 1 ==> r == Some(SetupStep::FileList)
            &&& index == 2 ==> r == Some(SetupStep::FileMetadata)
            &&& index == 3 ==> r == Some(SetupStep::TableUrl)
        },
        call is ExecuteQueryPhase ==> {
            &&& r is Some <==> index < 4
            &&& index == 0 ==> r == Some(SetupStep::RuntimeManager)
            &&& index == 1 ==> r == Some(SetupStep::TableName)
            &&& index == 2 ==> r == Some(SetupStep::PlanBytes)
            &&& index == 3 ==> r == Some(SetupStep::ListenerRef)
        },
        call is FetchSegmentStats || call is StreamNext ==> {
            &&& r is Some <==> index < 2
            &&& index == 0 ==> r == Some(SetupStep::RuntimeManager)
            &&& index == 1 ==> r == Some(SetupStep::ListenerRef)
        },
        call is StreamGetSchema ==> {
            &&& r is Some <==> index < 2
            &&& index == 0 ==> r == Some(SetupStep::StreamPointer)
            &&& index == 1 ==> r == Some(SetupStep::SchemaExport)
        },
        call is ExecuteFetchPhase ==> {
            &&& r is Some <==> index < 8
            &&& index == 0 ==> r == Some(SetupStep::NotCancelled)
            &&& index == 1 ==> r == Some(SetupStep::IncludeFields)
            &&& index == 2 ==> r == Some(SetupStep::ExcludeFields)
            &&& index == 3 ==> r == Some(SetupStep::RowIdsPresent)
            &&& index == 4 ==> r == Some(SetupStep::RowIdsLength)
            &&& index == 5 ==> r == Some(SetupStep::RowIdsCopy)
            &&& index == 6 ==> r == Some(SetupStep::RuntimeManager)
            &&& index == 7 ==> r == Some(SetupStep::FetchPhase)
        },
        call is ExecuteIndexedQuery ==> {
            &&& r is Some <==> index < 10
            &&& index == 0 ==> r == Some(SetupStep::RuntimeManager)
            &&& index == 1 ==> r == Some(SetupStep::SegmentDocsLength)
            &&& index == 2 ==> r == Some(SetupStep::SegmentDocsCopy)
            &&& index == 3 ==> r == Some(SetupStep::ParquetPaths)
            &&& index == 4 ==> r == Some(SetupStep::TableName)
            &&& index == 5 ==> r == Some(SetupStep::PlanBytes)
            &&& index == 6 ==> r == Some(SetupStep::JavaVm)
            &&& index == 7 ==> r == Some(SetupStep::ListenerRef)
            &&& index == 8 ==> r == Some(SetupStep::SearcherClass)
            &&& index == 9 ==> r == Some(SetupStep::SearcherClassRef)
        },
{
}

/// How the caller hears of a failed step: what is wrong with its own arguments is thrown as such, a
/// null array as a null pointer, a skipped fetch as the engine's exception, what fails underneath as
/// a runtime exception, a field list that cannot be read is a panic, and the rest goes to the
/// listener.
pub proof fn law_failure_channel(step: SetupStep, detail: &str, r: Failure)
    requires
        call_ensures(failure_of, (step, detail), r),
    ensures
        r.channel == FailureChannel::IllegalArgument <==> step is SpillDir || step is TablePath
            || step is FileList,
        r.channel == FailureChannel::NullPointer <==> step is RowIdsPresent,
        r.channel == FailureChannel::DataFusion <==> step is NotCancelled,
        r.channel == FailureChannel::Panic <==> step is IncludeFields || step is ExcludeFields,
        r.channel == FailureChannel::Runtime <==> step is FileMetadata || step is TableUrl
            || step is RowIdsLength || step is RowIdsCopy || step is FetchPhase,
        r.channel == FailureChannel::Listener <==> step is RuntimeManager || step is TableName
            || step is PlanBytes || step is ListenerRef || step is StreamPointer
            || step is SchemaExport || step is SegmentDocsLength || step is SegmentDocsCopy
            || step is ParquetPaths || step is JavaVm || step is SearcherClass
            || step is SearcherClassRef,
{
}

/// What the caller hears of a failed step: a text of its own, with the detail at its end unless there
/// is none to give.
pub proof fn law_failure_message(step: SetupStep, detail: &str, r: Failure)
    requires
        call_ensures(failure_of, (step, detail), r),
    ensures
        step is RuntimeManager ==> r.message@ == "Runtime manager not initialized"@,
        step is StreamPointer ==> r.message@ == "Invalid stream pointer"@,
        step is RowIdsPresent ==> r.message@ == "values array is null"@,
        step is JavaVm ==> r.message@ == "JavaVM not initialized"@,
        step is NotCancelled ==> r.message@ == detail@,
        step is SpillDir || step is TablePath || step is TableUrl ==> r.message@
            == "Invalid table path: "@ + detail@,
        step is FileList ==> r.message@ == "Invalid file list: "@ + detail@,
        step is FileMetadata ==> r.message@ == "Failed to create metadata: "@ + detail@,
        step is TableName ==> r.message@ == "Failed to get table name: "@ + detail@,
        step is PlanBytes ==> r.message@ == "Failed to convert plan bytes: "@ + detail@,
        step is ListenerRef ==> r.message@ == "Failed to create global ref: "@ + detail@,
        step is SchemaExport ==> r.message@ == "Schema conversion failed: "@ + detail@,
        step is IncludeFields || step is ExcludeFields ==> r.message@
            == "Expected list of files: "@ + detail@,
        step is RowIdsLength ==> r.message@ == "Failed to get array length: "@ + detail@,
        step is RowIdsCopy ==> r.message@ == "Failed to get array data: "@ + detail@,
        step is FetchPhase ==> r.message@ == "Failed to execute fetch phase: "@ + detail@,
        step is SegmentDocsLength ==> r.message@ == "get_array_length: "@ + detail@,
        step is SegmentDocsCopy ==> r.message@ == "get_long_array_region: "@ + detail@,
        step is ParquetPaths ==> r.message@ == "parse parquet paths: "@ + detail@,
        step is SearcherClass ==> r.message@ == "Failed to find LuceneIndexSearcher class: "@
            + detail@,
        step is SearcherClassRef ==> r.message@
            == "Failed to create global ref for LuceneIndexSearcher: "@ + detail@,
{
}

/// A new setup waits for the first step of its call; the step that it waits for is the one at the
/// place that it has come to.
pub proof fn law_setup_waits_for_its_step(
    call: BridgeCall,
    fresh: BridgeSetup,
    first: Option<SetupStep>,
    at_start: Option<SetupStep>,
    setup: BridgeSetup,
    place: usize,
    next: Option<SetupStep>,
    at_place: Option<SetupStep>,
)
    requires
        call_ensures(BridgeSetup::new, (call,), fresh),
        call_ensures(BridgeSetup::next_step, (&fresh,), first),
        call_ensures(step_at, (call, 0usize), at_start),
        place == setup.done(),
        call_ensures(BridgeSetup::next_step, (&setup,), next),
        call_ensures(step_at, (setup.call(), place), at_place),
    ensures
        first == at_start,
        first is Some,
        next == at_place,
{
}

/// A step that succeeded leads to the one at the next place, or to the end of the setup if there is
/// none; a step that failed ends it with the failure of that step and its detail.
pub proof fn law_setup_reply(
    setup: &mut BridgeSetup,
    reply: StepReply,
    r: SetupProgress,
    current: Option<SetupStep>,
    next: Option<SetupStep>,
    detail: &str,
    failure: Failure,
)
    requires
        call_ensures(BridgeSetup::next_step, (&*old(setup),), current),
        current is Some,
        call_ensures(BridgeSetup::reply, (setup, reply), r),
        call_ensures(BridgeSetup::next_step, (&*final(setup),), next),
        reply matches StepReply::Failed(text) ==> text@ == detail@ && call_ensures(
            failure_of,
            (current->0, detail),
            failure,
        ),
    ensures
        final(setup).call() == old(setup).call(),
        reply is Done ==> final(setup).done() == old(setup).done() + 1,
        reply is Done ==> (next matches Some(step) ==> r == SetupProgress::Take(step)),
        reply is Done ==> (next is None ==> r is Ready),
        reply is Failed ==> next == current,
        reply is Failed ==> (r matches SetupProgress::Failed(told) && told.channel
            == failure.channel && told.message@ == failure.message@),
{
}

/// A file gives back what it was described with.
pub proof fn law_file_keeps_its_description(
    row_group_row_counts: Vec<i64>,
    row_base: i64,
    object_meta: ObjectMeta,
    file: CustomFileMeta,
    counts: Arc<Vec<i64>>,
    base: Arc<i64>,
    object: Arc<ObjectMeta>,
)
    requires
        call_ensures(CustomFileMeta::new, (row_group_row_counts, row_base, object_meta), file),
        call_ensures(CustomFileMeta::row_group_row_counts, (&file,), counts),
        call_ensures(CustomFileMeta::row_base, (&file,), base),
        call_ensures(CustomFileMeta::object_meta, (&file,), object),
    ensures
        counts@ == row_group_row_counts@,
        *base == row_base,
        *object == object_meta,
{
}

/// A shard gives back the table address, with its pattern, and the files that it was made of.
pub proof fn law_shard_keeps_its_parts(
    table_path: TableAddress,
    files_metadata: Vec<CustomFileMeta>,
    shard: ShardView,
    path: TableAddress,
    files: Arc<Vec<CustomFileMeta>>,
)
    requires
        call_ensures(ShardView::new, (table_path, files_metadata), shard),
        call_ensures(ShardView::table_path, (&shard,), path),
        call_ensures(ShardView::files_metadata, (&shard,), files),
    ensures
        path.url@ == table_path.url@,
        path.glob is Some <==> table_path.glob is Some,
        path.glob is Some ==> path.glob->0@ == table_path.glob->0@,
        files@ == files_metadata@,
{
}

/// A copy of a table address has its texts.
pub proof fn law_table_address_copies(address: TableAddress, r: TableAddress)
    requires
        call_ensures(TableAddress::clone, (&address,), r),
    ensures
        r.url@ == address.url@,
        r.glob is Some <==> address.glob is Some,
        r.glob is Some ==> r.glob->0@ == address.glob->0@,
{
}

/// Statistics give back what they were made of.
pub proof fn law_file_stats(size: u64, num_rows: i64, stats: FileStats, s: u64, n: i64)
    requires
        call_ensures(FileStats::new, (size, num_rows), stats),
        call_ensures(FileStats::size, (&stats,), s),
        call_ensures(FileStats::num_rows, (&stats,), n),
    ensures
        stats.size == size,
        stats.num_rows == num_rows,
        s == size,
        n == num_rows,
{
}

/// One text comes before another exactly if it is a front part of it, or has the smaller character at
/// the first place where they differ.
pub proof fn law_text_order(a: Seq<char>, b: Seq<char>)
    ensures
        text_le(a, b) <==> (a.len() <= b.len() && a == b.take(a.len() as int)) || exists|k: int|
            0 <= k < a.len() && k < b.len() && a.take(k) == b.take(k) && #[trigger] a[k] < b[k],
    decreases a.len(),
{
    if a.len() == 0 {
        assert(a =~= b.take(0));
    } else if b.len() == 0 {
    } else if a[0] == b[0] {
        let x = a.drop_first();
        let y = b.drop_first();
        law_text_order(x, y);
        if x.len() <= y.len() && x == y.take(x.len() as int) {
            assert forall|i: int| 0 <= i < a.len() implies a[i] == b[i] by {
                if i > 0 {
                    assert(a[i] == x[i - 1]);
                    assert(b[i] == y.take(x.len() as int)[i - 1]);
                }
            }
            assert(a =~= b.take(a.len() as int));
        }
        if a.len() <= b.len() && a == b.take(a.len() as int) {
            assert(x =~= y.take(x.len() as int)) by {
                assert forall|i: int| 0 <= i < x.len() implies x[i] == y[i] by {
                    assert(a[i + 1] == b.take(a.len() as int)[i + 1]);
                }
            }
        }
        if exists|k: int|
            0 <= k < x.len() && k < y.len() && x.take(k) == y.take(k) && #[trigger] x[k] < y[k] {
            let k = choose|k: int|
                0 <= k < x.len() && k < y.len() && x.take(k) == y.take(k) && #[trigger] x[k]
                    < y[k];
            assert(a[k + 1] < b[k + 1]);
            assert forall|i: int| 0 <= i < k + 1 implies a[i] == b[i] by {
                if i > 0 {
                    assert(x.take(k)[i - 1] == y.take(k)[i - 1]);
                }
            }
            assert(a.take(k + 1) =~= b.take(k + 1));
        }
        if exists|k: int|
            0 <= k < a.len() && k < b.len() && a.take(k) == b.take(k) && #[trigger] a[k] < b[k] {
            let k = choose|k: int|
                0 <= k < a.len() && k < b.len() && a.take(k) == b.take(k) && #[trigger] a[k]
                    < b[k];
            assert(k > 0);
            assert(x[k - 1] < y[k - 1]);
            assert forall|i: int| 0 <= i < k - 1 implies x[i] == y[i] by {
                assert(a.take(k)[i + 1] == b.take(k)[i + 1]);
            }
            assert(x.take(k - 1) =~= y.take(k - 1));
        }
    } else {
        if a[0] < b[0] {
            assert(a.take(0) =~= b.take(0));
        }
        if a.len() <= b.len() && a == b.take(a.len() as int) {
            assert(a[0] == b.take(a.len() as int)[0]);
        }
        if exists|k: int|
            0 <= k < a.len() && k < b.len() && a.take(k) == b.take(k) && #[trigger] a[k] < b[k] {
            let k = choose|k: int|
                0 <= k < a.len() && k < b.len() && a.take(k) == b.take(k) && #[trigger] a[k]
                    < b[k];
            if k > 0 {
                assert(a.take(k)[0] == b.take(k)[0]);
            }
        }
    }
}

/// The files of a shard come out with the same names, each as often as it went in, and no name comes
/// before one that it is behind in the order of texts.
pub proof fn law_ordered_files(files: Vec<String>, r: Vec<String>, i: int, j: int)
    requires
        call_ensures(ordered_files, (files,), r),
        0 <= i < j < r@.len(),
    ensures
        r@.len() == files@.len(),
        r@.map_values(|s: String| s@).to_multiset() == files@.map_values(
            |s: String| s@,
        ).to_multiset(),
        text_le(r@[i]@, r@[j]@),
{
    broadcast use vstd::seq_lib::group_to_multiset_ensures;

    assert(r@.map_values(|s: String| s@) =~= texts(r@));
    assert(files@.map_values(|s: String| s@) =~= texts(files@));
    assert(texts(r@).len() == texts(r@).to_multiset().len());
    assert(texts(files@).len() == texts(files@).to_multiset().len());
    assert(text_order()(texts(r@)[i], texts(r@)[j]));
}

} // verus!
