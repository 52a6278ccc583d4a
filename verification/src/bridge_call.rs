//! The setup of a call over the bridge.
//!
//! Before it does its work a call gathers what it needs, one outside step after the other, and
//! the first step that fails ends it with that step's error. Which steps a call takes, in which
//! order, and what a failure is answered with, is settled here; the steps themselves are taken by
//! the caller, which hands their results in.

use vstd::prelude::*;

use crate::text::prefixed;

verus! {

/// A call over the bridge that can fail before its work begins.
#[derive(Debug, Clone, Copy, PartialEq, Eq, Structural)]
pub enum BridgeCall {
    /// Sets up the runtime environment that all queries share.
    CreateGlobalRuntime,
    /// Opens the files of a shard.
    CreateDatafusionReader,
    /// Runs a query and answers with its stream.
    ExecuteQueryPhase,
    /// Reads the statistics of a shard's files.
    FetchSegmentStats,
    /// Reads the next batch of a stream.
    StreamNext,
    /// Exports the schema of a stream.
    StreamGetSchema,
    /// Fetches rows by number and answers with their stream.
    ExecuteFetchPhase,
    /// Runs a query against an index and answers with its stream.
    ExecuteIndexedQuery,
}

/// One outside step of a setup.
#[derive(Debug, Clone, Copy, PartialEq, Eq, Structural)]
pub enum SetupStep {
    /// The runtime manager is there.
    RuntimeManager,
    /// The spill directory is read.
    SpillDir,
    /// The table path is read.
    TablePath,
    /// The file names are read.
    FileList,
    /// The metadata of the files is read.
    FileMetadata,
    /// The table path makes a table address.
    TableUrl,
    /// The table name is read.
    TableName,
    /// The query plan is read.
    PlanBytes,
    /// The listener is pinned.
    ListenerRef,
    /// The stream's address is not null.
    StreamPointer,
    /// The schema is exported.
    SchemaExport,
    /// The query was not cancelled.
    NotCancelled,
    /// The names of the fields to include are read.
    IncludeFields,
    /// The names of the fields to exclude are read.
    ExcludeFields,
    /// The array of row numbers is there.
    RowIdsPresent,
    /// The length of the array of row numbers is read.
    RowIdsLength,
    /// The row numbers are copied.
    RowIdsCopy,
    /// The fetch phase is run.
    FetchPhase,
    /// The length of the array of segment sizes is read.
    SegmentDocsLength,
    /// The segment sizes are copied.
    SegmentDocsCopy,
    /// The paths of the index's files are read.
    ParquetPaths,
    /// The Java virtual machine is known.
    JavaVm,
    /// The class of the index searcher is found.
    SearcherClass,
    /// The class of the index searcher is pinned.
    SearcherClassRef,
}

/// How a step went.
#[derive(Debug)]
pub enum StepReply {
    /// It succeeded.
    Done,
    /// It failed, with this detail.
    Failed(String),
}

/// How the caller hears of a failure.
#[derive(Debug, Clone, Copy, PartialEq, Eq, Structural)]
pub enum FailureChannel {
    /// Through its listener.
    Listener,
    /// As a thrown `IllegalArgumentException`; the call returns zero.
    IllegalArgument,
    /// As a thrown `RuntimeException`; the call returns zero.
    Runtime,
    /// As a thrown `DataFusionException`; the call returns zero.
    DataFusion,
    /// As a thrown `NullPointerException`; the call returns zero.
    NullPointer,
    /// Not at all: the call panics.
    Panic,
}

/// The answer to a call whose setup failed.
#[derive(Debug)]
pub struct Failure {
    /// How the caller hears of it.
    pub channel: FailureChannel,
    /// What it hears.
    pub message: String,
}

/// How far a setup has come.
#[derive(Debug)]
pub enum SetupProgress {
    /// This step is next.
    Take(SetupStep),
    /// Every step succeeded.
    Ready,
    /// A step failed.
    Failed(Failure),
}

/// The steps of a call's setup, in order.
pub open spec fn steps_of(call: BridgeCall) -> Seq<SetupStep> {
    match call {
        BridgeCall::CreateGlobalRuntime => seq![SetupStep::SpillDir],
        BridgeCall::CreateDatafusionReader => seq![
            SetupStep::TablePath,
            SetupStep::FileList,
            SetupStep::FileMetadata,
            SetupStep::TableUrl,
        ],
        BridgeCall::ExecuteQueryPhase => seq![
            SetupStep::RuntimeManager,
            SetupStep::TableName,
            SetupStep::PlanBytes,
            SetupStep::ListenerRef,
        ],
        BridgeCall::FetchSegmentStats => seq![SetupStep::RuntimeManager, SetupStep::ListenerRef],
        BridgeCall::StreamNext => seq![SetupStep::RuntimeManager, SetupStep::ListenerRef],
        BridgeCall::StreamGetSchema => seq![SetupStep::StreamPointer, SetupStep::SchemaExport],
        BridgeCall::ExecuteFetchPhase => seq![
            SetupStep::NotCancelled,
            SetupStep::IncludeFields,
            SetupStep::ExcludeFields,
            SetupStep::RowIdsPresent,
            SetupStep::RowIdsLength,
            SetupStep::RowIdsCopy,
            SetupStep::RuntimeManager,
            SetupStep::FetchPhase,
        ],
        BridgeCall::ExecuteIndexedQuery => seq![
            SetupStep::RuntimeManager,
            SetupStep::SegmentDocsLength,
            SetupStep::SegmentDocsCopy,
            SetupStep::ParquetPaths,
            SetupStep::TableName,
            SetupStep::PlanBytes,
            SetupStep::JavaVm,
            SetupStep::ListenerRef,
            SetupStep::SearcherClass,
            SetupStep::SearcherClassRef,
        ],
    }
}

/// How the caller hears that `step` failed.
pub open spec fn failure_channel(step: SetupStep) -> FailureChannel {
    match step {
        SetupStep::SpillDir => FailureChannel::IllegalArgument,
        SetupStep::TablePath => FailureChannel::IllegalArgument,
        SetupStep::FileList => FailureChannel::IllegalArgument,
        SetupStep::FileMetadata => FailureChannel::Runtime,
        SetupStep::TableUrl => FailureChannel::Runtime,
        SetupStep::NotCancelled => FailureChannel::DataFusion,
        SetupStep::IncludeFields => FailureChannel::Panic,
        SetupStep::ExcludeFields => FailureChannel::Panic,
        SetupStep::RowIdsPresent => FailureChannel::NullPointer,
        SetupStep::RowIdsLength => FailureChannel::Runtime,
        SetupStep::RowIdsCopy => FailureChannel::Runtime,
        SetupStep::FetchPhase => FailureChannel::Runtime,
        _ => FailureChannel::Listener,
    }
}

/// What the caller hears when `step` failed with `detail`.
pub open spec fn failure_text(step: SetupStep, detail: Seq<char>) -> Seq<char> {
    match step {
        SetupStep::RuntimeManager => "Runtime manager not initialized"@,
        SetupStep::SpillDir => "Invalid table path: "@ + detail,
        SetupStep::TablePath => "Invalid table path: "@ + detail,
        SetupStep::FileList => "Invalid file list: "@ + detail,
        SetupStep::FileMetadata => "Failed to create metadata: "@ + detail,
        SetupStep::TableUrl => "Invalid table path: "@ + detail,
        SetupStep::TableName => "Failed to get table name: "@ + detail,
        SetupStep::PlanBytes => "Failed to convert plan bytes: "@ + detail,
        SetupStep::ListenerRef => "Failed to create global ref: "@ + detail,
        SetupStep::StreamPointer => "Invalid stream pointer"@,
        SetupStep::SchemaExport => "Schema conversion failed: "@ + detail,
        SetupStep::NotCancelled => detail,
        SetupStep::IncludeFields => "Expected list of files: "@ + detail,
        SetupStep::ExcludeFields => "Expected list of files: "@ + detail,
        SetupStep::RowIdsPresent => "values array is null"@,
        SetupStep::RowIdsLength => "Failed to get array length: "@ + detail,
        SetupStep::RowIdsCopy => "Failed to get array data: "@ + detail,
        SetupStep::FetchPhase => "Failed to execute fetch phase: "@ + detail,
        SetupStep::SegmentDocsLength => "get_array_length: "@ + detail,
        SetupStep::SegmentDocsCopy => "get_long_array_region: "@ + detail,
        SetupStep::ParquetPaths => "parse parquet paths: "@ + detail,
        SetupStep::JavaVm => "JavaVM not initialized"@,
        SetupStep::SearcherClass => "Failed to find LuceneIndexSearcher class: "@ + detail,
        SetupStep::SearcherClassRef => "Failed to create global ref for LuceneIndexSearcher: "@
            + detail,
    }
}

/// The step at `index` of a call's setup.
pub fn step_at(call: BridgeCall, index: usize) -> (r: Option<SetupStep>)
    ensures
        r == (if index < steps_of(call).len() {
            Some(steps_of(call)[index as int])
        } else {
            None
        }),
{
    match call {
        BridgeCall::CreateGlobalRuntime => match index {
            0 => Some(SetupStep::SpillDir),
            _ => None,
        },
        BridgeCall::CreateDatafusionReader => match index {
            0 => Some(SetupStep::TablePath),
            1 => Some(SetupStep::FileList),
            2 => Some(SetupStep::FileMetadata),
            3 => Some(SetupStep::TableUrl),
            _ => None,
        },
        BridgeCall::ExecuteQueryPhase => match index {
            0 => Some(SetupStep::RuntimeManager),
            1 => Some(SetupStep::TableName),
            2 => Some(SetupStep::PlanBytes),
            3 => Some(SetupStep::ListenerRef),
            _ => None,
        },
        BridgeCall::FetchSegmentStats | BridgeCall::StreamNext => match index {
            0 => Some(SetupStep::RuntimeManager),
            1 => Some(SetupStep::ListenerRef),
            _ => None,
        },
        BridgeCall::StreamGetSchema => match index {
            0 => Some(SetupStep::StreamPointer),
            1 => Some(SetupStep::SchemaExport),
            _ => None,
        },
        BridgeCall::ExecuteFetchPhase => match index {
            0 => Some(SetupStep::NotCancelled),
            1 => Some(SetupStep::IncludeFields),
            2 => Some(SetupStep::ExcludeFields),
            3 => Some(SetupStep::RowIdsPresent),
            4 => Some(SetupStep::RowIdsLength),
            5 => Some(SetupStep::RowIdsCopy),
            6 => Some(SetupStep::RuntimeManager),
            7 => Some(SetupStep::FetchPhase),
            _ => None,
        },
        BridgeCall::ExecuteIndexedQuery => match index {
            0 => Some(SetupStep::RuntimeManager),
            1 => Some(SetupStep::SegmentDocsLength),
            2 => Some(SetupStep::SegmentDocsCopy),
            3 => Some(SetupStep::ParquetPaths),
            4 => Some(SetupStep::TableName),
            5 => Some(SetupStep::PlanBytes),
            6 => Some(SetupStep::JavaVm),
            7 => Some(SetupStep::ListenerRef),
            8 => Some(SetupStep::SearcherClass),
            9 => Some(SetupStep::SearcherClassRef),
            _ => None,
        },
    }
}

/// The answer to a call of which `step` failed with `detail`.
pub fn failure_of(step: SetupStep, detail: &str) -> (r: Failure)
    ensures
        r.channel == failure_channel(step),
        r.message@ == failure_text(step, detail@),
{
    let channel = match step {
        SetupStep::SpillDir | SetupStep::TablePath | SetupStep::FileList => {
            FailureChannel::IllegalArgument
        },
        SetupStep::FileMetadata
        | SetupStep::TableUrl
        | SetupStep::RowIdsLength
        | SetupStep::RowIdsCopy
        | SetupStep::FetchPhase => FailureChannel::Runtime,
        SetupStep::IncludeFields | SetupStep::ExcludeFields => FailureChannel::Panic,
        SetupStep::NotCancelled => FailureChannel::DataFusion,
        SetupStep::RowIdsPresent => FailureChannel::NullPointer,
        _ => FailureChannel::Listener,
    };
    let message = match step {
        SetupStep::RuntimeManager => "Runtime manager not initialized".to_owned(),
        SetupStep::SpillDir | SetupStep::TablePath | SetupStep::TableUrl => {
            prefixed("Invalid table path: ", detail)
        },
        SetupStep::FileList => prefixed("Invalid file list: ", detail),
        SetupStep::FileMetadata => prefixed("Failed to create metadata: ", detail),
        SetupStep::TableName => prefixed("Failed to get table name: ", detail),
        SetupStep::PlanBytes => prefixed("Failed to convert plan bytes: ", detail),
        SetupStep::ListenerRef => prefixed("Failed to create global ref: ", detail),
        SetupStep::StreamPointer => "Invalid stream pointer".to_owned(),
        SetupStep::SchemaExport => prefixed("Schema conversion failed: ", detail),
        SetupStep::NotCancelled => detail.to_owned(),
        SetupStep::IncludeFields | SetupStep::ExcludeFields => {
            prefixed("Expected list of files: ", detail)
        },
        SetupStep::RowIdsPresent => "values array is null".to_owned(),
        SetupStep::RowIdsLength => prefixed("Failed to get array length: ", detail),
        SetupStep::RowIdsCopy => prefixed("Failed to get array data: ", detail),
        SetupStep::FetchPhase => prefixed("Failed to execute fetch phase: ", detail),
        SetupStep::SegmentDocsLength => prefixed("get_array_length: ", detail),
        SetupStep::SegmentDocsCopy => prefixed("get_long_array_region: ", detail),
        SetupStep::ParquetPaths => prefixed("parse parquet paths: ", detail),
        SetupStep::JavaVm => "JavaVM not initialized".to_owned(),
        SetupStep::SearcherClass => {
            prefixed("Failed to find LuceneIndexSearcher class: ", detail)
        },
        SetupStep::SearcherClassRef => {
            prefixed("Failed to create global ref for LuceneIndexSearcher: ", detail)
        },
    };
    Failure { channel, message }
}

/// A setup under way.
#[derive(Debug)]
pub struct BridgeSetup {
    call: BridgeCall,
    done: usize,
}

impl BridgeSetup {
    /// The call that is set up.
    pub closed spec fn call(self) -> BridgeCall {
        self.call
    }

    /// How many steps have succeeded.
    pub closed spec fn done(self) -> nat {
        self.done as nat
    }

    /// Some step is still to be taken.
    pub open spec fn open(self) -> bool {
        self.done() < steps_of(self.call()).len()
    }

    /// The setup of `call`, with no step taken.
    pub fn new(call: BridgeCall) -> (r: Self)
        ensures
            r.call() == call,
            r.done() == 0,
            r.open(),
    {
        BridgeSetup { call, done: 0 }
    }

    /// The step to take next.
    pub fn next_step(&self) -> (r: Option<SetupStep>)
        ensures
            r == (if self.open() {
                Some(steps_of(self.call())[self.done() as int])
            } else {
                None
            }),
    {
        step_at(self.call, self.done)
    }

    /// Takes note of how the current step went and says what is next.
    pub fn reply(&mut self, reply: StepReply) -> (r: SetupProgress)
        requires
            old(self).open(),
        ensures
            final(self).call() == old(self).call(),
            match reply {
                StepReply::Done => {
                    &&& final(self).done() == old(self).done() + 1
                    &&& r == (if final(self).open() {
                        SetupProgress::Take(steps_of(old(self).call())[final(self).done() as int])
                    } else {
                        SetupProgress::Ready
                    })
                },
                StepReply::Failed(detail) => {
                    let step = steps_of(old(self).call())[old(self).done() as int];
                    &&& final(self).done() == old(self).done()
                    &&& r matches SetupProgress::Failed(failure)
                    &&& failure.channel == failure_channel(step)
                    &&& failure.message@ == failure_text(step, detail@)
                },
            },
            end_of(r, final(self).done()) == after_reply(
                old(self).call(),
                SetupEnd::Waiting(old(self).done()),
                reply,
            ),
    {
        match reply {
            StepReply::Done => {
                self.done = self.done + 1;
                match self.next_step() {
                    Some(step) => SetupProgress::Take(step),
                    None => SetupProgress::Ready,
                }
            },
            StepReply::Failed(detail) => match self.next_step() {
                Some(step) => SetupProgress::Failed(failure_of(step, detail.as_str())),
                None => SetupProgress::Ready,
            },
        }
    }
}

/// Where a run of replies leaves a setup.
pub enum SetupEnd {
    /// So many steps succeeded and the next is awaited.
    Waiting(nat),
    /// Every step succeeded.
    Ready,
    /// A step failed, and the caller hears this text in this way.
    Failed(FailureChannel, Seq<char>),
}

/// Where a setup is of which `done` steps have succeeded and which goes on with `progress`.
pub open spec fn end_of(progress: SetupProgress, done: nat) -> SetupEnd {
    match progress {
        SetupProgress::Take(_) => SetupEnd::Waiting(done),
        SetupProgress::Ready => SetupEnd::Ready,
        SetupProgress::Failed(failure) => SetupEnd::Failed(failure.channel, failure.message@),
    }
}

/// Where the setup of `call` is after one reply.
pub open spec fn after_reply(call: BridgeCall, end: SetupEnd, reply: StepReply) -> SetupEnd {
    match end {
        SetupEnd::Waiting(done) => match reply {
            StepReply::Done => if done + 1 < steps_of(call).len() {
                SetupEnd::Waiting(done + 1)
            } else {
                SetupEnd::Ready
            },
            StepReply::Failed(detail) => {
                let step = steps_of(call)[done as int];
                SetupEnd::Failed(failure_channel(step), failure_text(step, detail@))
            },
        },
        _ => end,
    }
}

/// Where the setup of `call` is after a run of replies, those after its end not being looked at.
pub open spec fn after_replies(call: BridgeCall, replies: Seq<StepReply>) -> SetupEnd
    decreases replies.len(),
{
    if replies.len() == 0 {
        SetupEnd::Waiting(0)
    } else {
        after_reply(call, after_replies(call, replies.drop_last()), replies.last())
    }
}

proof fn lemma_all_done(call: BridgeCall, replies: Seq<StepReply>)
    requires
        replies.len() <= steps_of(call).len(),
        forall|i: int| 0 <= i < replies.len() ==> #[trigger] replies[i] is Done,
    ensures
        after_replies(call, replies) == (if replies.len() < steps_of(call).len() {
            SetupEnd::Waiting(replies.len())
        } else {
            SetupEnd::Ready
        }),
    decreases replies.len(),
{
    if replies.len() > 0 {
        let rest = replies.drop_last();
        assert forall|i: int| 0 <= i < rest.len() implies #[trigger] rest[i] is Done by {
            assert(rest[i] == replies[i]);
        }
        lemma_all_done(call, rest);
        assert(replies.last() == replies[replies.len() - 1]);
    }
}

/// A setup is ready once as many steps have succeeded as the call has, and not before.
pub proof fn law_ready_after_all_steps(call: BridgeCall, replies: Seq<StepReply>)
    requires
        replies.len() <= steps_of(call).len(),
        forall|i: int| 0 <= i < replies.len() ==> #[trigger] replies[i] is Done,
    ensures
        after_replies(call, replies) is Ready <==> replies.len() == steps_of(call).len(),
        after_replies(call, replies) !is Failed,
{
    lemma_all_done(call, replies);
}

/// The first step that fails decides the answer, whatever would have come after it.
pub proof fn law_first_failure_decides(
    call: BridgeCall,
    replies: Seq<StepReply>,
    first: int,
    detail: String,
)
    requires
        0 <= first < replies.len(),
        first < steps_of(call).len(),
        forall|i: int| 0 <= i < first ==> #[trigger] replies[i] is Done,
        replies[first] == StepReply::Failed(detail),
    ensures
        after_replies(call, replies) == SetupEnd::Failed(
            failure_channel(steps_of(call)[first]),
            failure_text(steps_of(call)[first], detail@),
        ),
    decreases replies.len(),
{
    let rest = replies.drop_last();
    assert(replies.last() == replies[replies.len() - 1]);
    assert forall|i: int| 0 <= i < rest.len() && i < first implies #[trigger] rest[i] is Done by {
        assert(rest[i] == replies[i]);
    }
    if first == replies.len() - 1 {
        lemma_all_done(call, rest);
    } else {
        assert(rest[first] == replies[first]);
        law_first_failure_decides(call, rest, first, detail);
    }
}

/// No call takes the same step twice.
pub proof fn law_steps_are_distinct(call: BridgeCall, i: int, j: int)
    requires
        0 <= i < j < steps_of(call).len(),
    ensures
        steps_of(call)[i] != steps_of(call)[j],
{
}

} // verus!
