use datafusion_bridge::bridge_call::{
    failure_of, step_at, BridgeCall, BridgeSetup, FailureChannel, SetupProgress, SetupStep,
    StepReply,
};
use datafusion_bridge::call_params::{
    cpu_thread_count, indexed_query_params, is_live, query_phase_params, runtime_plan,
    slice_bounds, version_info, version_info_of, BitsetMode, CacheSource,
};
use datafusion_bridge::task::{
    notification, panic_message, received, PanicPayload, TaskEnd, TaskError,
};

fn steps(call: BridgeCall) -> Vec<SetupStep> {
    let mut setup = BridgeSetup::new(call);
    let mut taken = Vec::new();
    while let Some(step) = setup.next_step() {
        taken.push(step);
        match setup.reply(StepReply::Done) {
            SetupProgress::Take(next) => assert_eq!(setup.next_step(), Some(next)),
            SetupProgress::Ready => assert_eq!(setup.next_step(), None),
            SetupProgress::Failed(_) => panic!("no step failed"),
        }
    }
    assert_eq!(step_at(call, taken.len()), None);
    taken
}

#[test]
fn calls_take_their_steps_in_order() {
    assert_eq!(steps(BridgeCall::CreateGlobalRuntime), vec![SetupStep::SpillDir]);
    assert_eq!(
        steps(BridgeCall::CreateDatafusionReader),
        vec![
            SetupStep::TablePath,
            SetupStep::FileList,
            SetupStep::FileMetadata,
            SetupStep::TableUrl
        ]
    );
    assert_eq!(
        steps(BridgeCall::ExecuteQueryPhase),
        vec![
            SetupStep::RuntimeManager,
            SetupStep::TableName,
            SetupStep::PlanBytes,
            SetupStep::ListenerRef
        ]
    );
    assert_eq!(
        steps(BridgeCall::FetchSegmentStats),
        vec![SetupStep::RuntimeManager, SetupStep::ListenerRef]
    );
    assert_eq!(
        steps(BridgeCall::StreamNext),
        vec![SetupStep::RuntimeManager, SetupStep::ListenerRef]
    );
    assert_eq!(
        steps(BridgeCall::StreamGetSchema),
        vec![SetupStep::StreamPointer, SetupStep::SchemaExport]
    );
    assert_eq!(
        steps(BridgeCall::ExecuteFetchPhase),
        vec![
            SetupStep::NotCancelled,
            SetupStep::IncludeFields,
            SetupStep::ExcludeFields,
            SetupStep::RowIdsPresent,
            SetupStep::RowIdsLength,
            SetupStep::RowIdsCopy,
            SetupStep::RuntimeManager,
            SetupStep::FetchPhase
        ]
    );
    assert_eq!(
        steps(BridgeCall::ExecuteIndexedQuery),
        vec![
            SetupStep::RuntimeManager,
            SetupStep::SegmentDocsLength,
            SetupStep::SegmentDocsCopy,
            SetupStep::ParquetPaths,
            SetupStep::TableName,
            SetupStep::PlanBytes,
            SetupStep::JavaVm,
            SetupStep::ListenerRef,
            SetupStep::SearcherClass,
            SetupStep::SearcherClassRef
        ]
    );
}

#[test]
fn the_first_failure_ends_a_setup() {
    let mut setup = BridgeSetup::new(BridgeCall::ExecuteQueryPhase);
    assert!(matches!(
        setup.reply(StepReply::Done),
        SetupProgress::Take(SetupStep::TableName)
    ));
    match setup.reply(StepReply::Failed("null".to_string())) {
        SetupProgress::Failed(failure) => {
            assert_eq!(failure.channel, FailureChannel::Listener);
            assert_eq!(failure.message, "Failed to get table name: null");
        }
        _ => panic!("the step failed"),
    }
}

#[test]
fn failures_have_their_texts() {
    let cases = [
        (SetupStep::RuntimeManager, FailureChannel::Listener, "Runtime manager not initialized"),
        (SetupStep::SpillDir, FailureChannel::IllegalArgument, "Invalid table path: d"),
        (SetupStep::TablePath, FailureChannel::IllegalArgument, "Invalid table path: d"),
        (SetupStep::FileList, FailureChannel::IllegalArgument, "Invalid file list: d"),
        (SetupStep::FileMetadata, FailureChannel::Runtime, "Failed to create metadata: d"),
        (SetupStep::TableUrl, FailureChannel::Runtime, "Invalid table path: d"),
        (SetupStep::TableName, FailureChannel::Listener, "Failed to get table name: d"),
        (SetupStep::PlanBytes, FailureChannel::Listener, "Failed to convert plan bytes: d"),
        (SetupStep::ListenerRef, FailureChannel::Listener, "Failed to create global ref: d"),
        (SetupStep::StreamPointer, FailureChannel::Listener, "Invalid stream pointer"),
        (SetupStep::SchemaExport, FailureChannel::Listener, "Schema conversion failed: d"),
        (SetupStep::NotCancelled, FailureChannel::DataFusion, "d"),
        (SetupStep::IncludeFields, FailureChannel::Panic, "Expected list of files: d"),
        (SetupStep::ExcludeFields, FailureChannel::Panic, "Expected list of files: d"),
        (SetupStep::RowIdsPresent, FailureChannel::NullPointer, "values array is null"),
        (SetupStep::RowIdsLength, FailureChannel::Runtime, "Failed to get array length: d"),
        (SetupStep::RowIdsCopy, FailureChannel::Runtime, "Failed to get array data: d"),
        (SetupStep::FetchPhase, FailureChannel::Runtime, "Failed to execute fetch phase: d"),
        (SetupStep::SegmentDocsLength, FailureChannel::Listener, "get_array_length: d"),
        (SetupStep::SegmentDocsCopy, FailureChannel::Listener, "get_long_array_region: d"),
        (SetupStep::ParquetPaths, FailureChannel::Listener, "parse parquet paths: d"),
        (SetupStep::JavaVm, FailureChannel::Listener, "JavaVM not initialized"),
        (
            SetupStep::SearcherClass,
            FailureChannel::Listener,
            "Failed to find LuceneIndexSearcher class: d",
        ),
        (
            SetupStep::SearcherClassRef,
            FailureChannel::Listener,
            "Failed to create global ref for LuceneIndexSearcher: d",
        ),
    ];
    for (step, channel, text) in cases {
        let failure = failure_of(step, "d");
        assert_eq!(failure.channel, channel);
        assert_eq!(failure.message, text);
    }
}

#[test]
fn query_parameters_are_read() {
    let p = query_phase_params(0, 4, 0);
    assert!(!p.explain);
    assert_eq!(p.target_partitions, 4);
    assert!(!p.cancellable);
    let p = query_phase_params(1, -1, 1);
    assert!(p.explain);
    assert!(p.cancellable);
    assert_eq!(p.target_partitions, -1i32 as usize);
    assert_eq!(query_phase_params(0, i32::MIN, 0).target_partitions, i32::MIN as usize);
}

#[test]
fn indexed_query_parameters_are_read() {
    let p = indexed_query_params(0, 1, 2);
    assert_eq!(p.num_partitions, 1);
    assert_eq!(p.mode, BitsetMode::Or);
    assert!(p.explain);
    let p = indexed_query_params(8, 0, 0);
    assert_eq!(p.num_partitions, 8);
    assert_eq!(p.mode, BitsetMode::And);
    assert!(!p.explain);
    assert_eq!(indexed_query_params(-2, 7, 0).num_partitions, -2i32 as usize);
    assert_eq!(indexed_query_params(-2, 7, 0).mode, BitsetMode::And);
}

#[test]
fn runtime_parameters_are_read() {
    let plan = runtime_plan(1 << 30, 0, 1 << 20);
    assert_eq!(plan.memory_pool_limit, 1 << 30);
    assert_eq!(plan.tracked_consumers, 5);
    assert_eq!(plan.spill_limit, 1 << 20);
    assert_eq!(plan.caches, CacheSource::Default);
    let plan = runtime_plan(-1, 0x10, -1);
    assert_eq!(plan.memory_pool_limit, -1i64 as usize);
    assert_eq!(plan.spill_limit, u64::MAX);
    assert_eq!(plan.caches, CacheSource::Custom(0x10));
    assert_eq!(cpu_thread_count(3), 3);
    assert!(is_live(1) && is_live(-1) && !is_live(0));
}

#[test]
fn slices_stay_in_the_array() {
    assert_eq!(slice_bounds(0, 5), Some((0, 5)));
    assert_eq!(slice_bounds(5, 0), Some((5, 0)));
    assert_eq!(slice_bounds(2, 3), Some((2, 3)));
    assert_eq!(slice_bounds(2, 4), None);
    assert_eq!(slice_bounds(6, 0), None);
    assert_eq!(slice_bounds(-1, 1), None);
    assert_eq!(slice_bounds(1, -1), None);
    assert_eq!(slice_bounds(i32::MAX, i32::MAX), None);
}

#[test]
fn the_library_describes_itself() {
    assert_eq!(
        version_info(),
        r#"{"version": "50.3.0", "codecs": ["CsvDataSourceCodec"]}"#
    );
    assert_eq!(
        version_info_of("1.2"),
        r#"{"version": "1.2", "codecs": ["CsvDataSourceCodec"]}"#
    );
    assert_eq!(version_info(), version_info_of(datafusion::DATAFUSION_VERSION));
}

#[test]
fn a_listener_is_told_one_thing() {
    let fine: TaskEnd<i64, ()> = TaskEnd::Returned(Ok(5));
    assert!(matches!(notification("t", fine), Ok(5)));
    let failed: TaskEnd<i64, u8> = TaskEnd::Returned(Err(TaskError::Engine(3)));
    assert!(matches!(notification("t", failed), Err(TaskError::Engine(3))));
    let panicked: TaskEnd<i64, ()> = TaskEnd::Panicked(PanicPayload::Slice("boom".to_string()));
    match notification("streamNext", panicked) {
        Err(TaskError::Execution(text)) => assert_eq!(text, "streamNext panicked: boom"),
        _ => panic!("a panic is an error"),
    }
}

#[test]
fn panics_have_a_text() {
    assert_eq!(panic_message(&PanicPayload::Slice("a".to_string())), "a");
    assert_eq!(panic_message(&PanicPayload::Owned("b".to_string())), "b");
    assert_eq!(panic_message(&PanicPayload::Opaque), "unknown panic payload");
}

#[test]
fn a_lost_worker_is_an_error() {
    assert!(matches!(received::<i64, ()>(Some(Ok(1))), Ok(1)));
    assert!(matches!(received::<i64, u8>(Some(Err(2))), Err(TaskError::Engine(2))));
    match received::<i64, ()>(None) {
        Err(TaskError::Execution(text)) => assert_eq!(text, "Channel closed"),
        _ => panic!("no answer is an error"),
    }
}
