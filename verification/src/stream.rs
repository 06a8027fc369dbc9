//! The stream of one partition: the files of one file group, read one after
//! the other, under a row limit and a corrupted-file policy.
//!
//! The stream decides, the caller acts: the caller opens files and decodes
//! batches, reports each event to [`PartitionStream::advance`], and does what
//! the returned action says.

use vstd::prelude::*;

verus! {

/// What to do when a file of the partition turns out to be unreadable.
#[derive(Clone, Copy, PartialEq, Eq, Debug, Structural)]
pub enum OnError {
    /// The error ends the partition and fails the scan.
    Fail,
    /// The rest of the file is skipped and the scan goes on.
    Skip,
}

/// Where a partition's execution stands.
#[derive(Clone, Copy, PartialEq, Eq, Debug, Structural)]
pub enum StreamStatus {
    Executing,
    Completed,
    Failed,
    Cancelled,
}

/// What the caller reports to the stream.
#[derive(Clone, Copy, PartialEq, Eq, Debug, Structural)]
pub enum StreamEvent {
    /// The current file gave a decoded batch of `rows` rows.
    Batch { rows: usize },
    /// The current file has no more batches.
    EndOfFile,
    /// Opening or reading the current file failed.
    FileError,
    /// The consumer went away.
    Cancelled,
}

/// What the stream tells the caller to do next.
#[derive(Clone, Copy, PartialEq, Eq, Debug, Structural)]
pub enum StreamAction {
    /// Open the file at this position of the group and read from it.
    Open { file: usize },
    /// Hand the first `rows` rows of the batch on and keep reading.
    Emit { rows: usize },
    /// Hand the first `rows` rows of the batch on and end the stream: the row
    /// limit is reached, nothing more is to be read.
    EmitLast { rows: usize },
    /// End the stream without an error.
    Finish,
    /// End the stream with the error that was reported.
    Fail,
    /// The stream has ended before: drop the event, read nothing.
    Stop,
}

impl StreamAction {
    /// Number of rows that the action hands downstream.
    pub open spec fn rows(self) -> nat {
        match self {
            StreamAction::Emit { rows } => rows as nat,
            StreamAction::EmitLast { rows } => rows as nat,
            _ => 0,
        }
    }

    /// The action asks the caller to go on reading from storage.
    pub open spec fn reads_on(self) -> bool {
        self is Open || self is Emit
    }
}

/// Mathematical model of a [`PartitionStream`].
pub struct StreamState {
    /// Number of files in the group.
    pub files: nat,
    /// Position of the file being read; `files` once all are done.
    pub current: nat,
    /// Rows that may still be emitted, where a limit is set.
    pub remaining: Option<nat>,
    pub on_error: OnError,
    pub status: StreamStatus,
    /// The "rows produced" counter, which stops at the largest `usize`.
    pub rows_produced: nat,
}

impl StreamState {
    /// An executing stream has a file to read and room under its limit.
    pub open spec fn wf(self) -> bool {
        &&& self.current <= self.files
        &&& self.rows_produced <= usize::MAX
        &&& self.status == StreamStatus::Executing ==> self.current < self.files && self.remaining
            != Some(0nat)
    }

    /// The stream over a group of `files` files, before any event.
    pub open spec fn start(files: nat, limit: Option<nat>, on_error: OnError) -> StreamState {
        StreamState {
            files,
            current: 0,
            remaining: limit,
            on_error,
            status: if files == 0 || limit == Some(0nat) {
                StreamStatus::Completed
            } else {
                StreamStatus::Executing
            },
            rows_produced: 0,
        }
    }

    /// What the stream asks for before any event.
    pub open spec fn first_action(self) -> StreamAction {
        if self.status == StreamStatus::Executing {
            StreamAction::Open { file: self.current as usize }
        } else {
            StreamAction::Finish
        }
    }

    /// The counter after `rows` more rows.
    pub open spec fn counted(self, rows: nat) -> nat {
        if self.rows_produced + rows > usize::MAX {
            usize::MAX as nat
        } else {
            self.rows_produced + rows
        }
    }

    /// State and action once the current file is done with.
    pub open spec fn next_file(self) -> (StreamState, StreamAction) {
        if self.current + 1 < self.files {
            (
                StreamState { current: self.current + 1, ..self },
                StreamAction::Open { file: (self.current + 1) as usize },
            )
        } else {
            (
                StreamState { current: self.files, status: StreamStatus::Completed, ..self },
                StreamAction::Finish,
            )
        }
    }

    /// State and action after one event.
    pub open spec fn step(self, event: StreamEvent) -> (StreamState, StreamAction) {
        if self.status != StreamStatus::Executing {
            (self, StreamAction::Stop)
        } else {
            match event {
                StreamEvent::Batch { rows } => match self.remaining {
                    None => (
                        StreamState { rows_produced: self.counted(rows as nat), ..self },
                        StreamAction::Emit { rows },
                    ),
                    Some(left) => if rows < left {
                        (
                            StreamState {
                                remaining: Some((left - rows) as nat),
                                rows_produced: self.counted(rows as nat),
                                ..self
                            },
                            StreamAction::Emit { rows },
                        )
                    } else {
                        (
                            StreamState {
                                remaining: Some(0nat),
                                status: StreamStatus::Completed,
                                rows_produced: self.counted(left),
                                ..self
                            },
                            StreamAction::EmitLast { rows: left as usize },
                        )
                    },
                },
                StreamEvent::EndOfFile => self.next_file(),
                StreamEvent::FileError => match self.on_error {
                    OnError::Skip => self.next_file(),
                    OnError::Fail => (
                        StreamState { status: StreamStatus::Failed, ..self },
                        StreamAction::Fail,
                    ),
                },
                StreamEvent::Cancelled => (
                    StreamState { status: StreamStatus::Cancelled, ..self },
                    StreamAction::Stop,
                ),
            }
        }
    }

    /// State after the events `events`, one after the other.
    pub open spec fn run(self, events: Seq<StreamEvent>) -> StreamState
        decreases events.len(),
    {
        if events.len() == 0 {
            self
        } else {
            self.run(events.drop_last()).step(events.last()).0
        }
    }

    /// Number of rows handed downstream over the events `events`.
    pub open spec fn emitted(self, events: Seq<StreamEvent>) -> nat
        decreases events.len(),
    {
        if events.len() == 0 {
            0
        } else {
            self.emitted(events.drop_last()) + self.run(events.drop_last()).step(
                events.last(),
            ).1.rows()
        }
    }
}

/// The stream of one partition.
pub struct PartitionStream {
    files: usize,
    current: usize,
    remaining: Option<usize>,
    on_error: OnError,
    status: StreamStatus,
    rows_produced: usize,
}

impl View for PartitionStream {
    type V = StreamState;

    closed spec fn view(&self) -> StreamState {
        StreamState {
            files: self.files as nat,
            current: self.current as nat,
            remaining: match self.remaining {
                Some(left) => Some(left as nat),
                None => None,
            },
            on_error: self.on_error,
            status: self.status,
            rows_produced: self.rows_produced as nat,
        }
    }
}

/// A limit as contracts see it.
pub open spec fn limit_view(limit: Option<usize>) -> Option<nat> {
    match limit {
        Some(rows) => Some(rows as nat),
        None => None,
    }
}

impl PartitionStream {
    #[verifier::type_invariant]
    spec fn inv(self) -> bool {
        self@.wf()
    }

    /// The stream over a group of `files` files. With no file, or with a
    /// limit of zero rows, it is complete from the start.
    pub fn new(files: usize, limit: Option<usize>, on_error: OnError) -> (stream: Self)
        ensures
            stream@ == StreamState::start(files as nat, limit_view(limit), on_error),
            stream@.wf(),
    {
        let status = if files == 0 || is_zero(limit) {
            StreamStatus::Completed
        } else {
            StreamStatus::Executing
        };
        PartitionStream { files, current: 0, remaining: limit, on_error, status, rows_produced: 0 }
    }

    /// What to do before any event: open the first file, or finish at once.
    pub fn first_action(&self) -> (action: StreamAction)
        ensures
            action == self@.first_action(),
            self@.wf(),
    {
        proof {
            use_type_invariant(self);
        }
        match self.status {
            StreamStatus::Executing => StreamAction::Open { file: self.current },
            _ => StreamAction::Finish,
        }
    }

    pub fn status(&self) -> (status: StreamStatus)
        ensures
            status == self@.status,
    {
        self.status
    }

    /// Rows that may still be emitted, where a limit is set.
    pub fn remaining(&self) -> (remaining: Option<usize>)
        ensures
            limit_view(remaining) == self@.remaining,
    {
        self.remaining
    }

    /// The "rows produced" counter.
    pub fn rows_produced(&self) -> (rows: usize)
        ensures
            rows == self@.rows_produced,
    {
        self.rows_produced
    }

    /// Takes one event and says what to do next.
    ///
    /// A batch is passed on, cut to what the limit leaves; the batch that
    /// reaches the limit ends the stream. At the end of a file the next one is
    /// opened, and after the last one the stream finishes. A file error fails
    /// the stream, or under [`OnError::Skip`] counts as the end of the file.
    /// Once the stream has ended, every event is dropped.
    pub fn advance(&mut self, event: StreamEvent) -> (action: StreamAction)
        ensures
            final(self)@ == old(self)@.step(event).0,
            action == old(self)@.step(event).1,
            final(self)@.wf(),
    {
        proof {
            use_type_invariant(&*self);
        }
        match self.status {
            StreamStatus::Executing => {},
            _ => {
                return StreamAction::Stop;
            },
        }
        match event {
            StreamEvent::Batch { rows } => match self.remaining {
                None => {
                    self.rows_produced = self.rows_produced.saturating_add(rows);
                    StreamAction::Emit { rows }
                },
                Some(left) => {
                    if rows < left {
                        let counted = self.rows_produced.saturating_add(rows);
                        *self = PartitionStream {
                            files: self.files,
                            current: self.current,
                            remaining: Some(left - rows),
                            on_error: self.on_error,
                            status: self.status,
                            rows_produced: counted,
                        };
                        StreamAction::Emit { rows }
                    } else {
                        let counted = self.rows_produced.saturating_add(left);
                        *self = PartitionStream {
                            files: self.files,
                            current: self.current,
                            remaining: Some(0),
                            on_error: self.on_error,
                            status: StreamStatus::Completed,
                            rows_produced: counted,
                        };
                        StreamAction::EmitLast { rows: left }
                    }
                },
            },
            StreamEvent::EndOfFile => self.to_next_file(),
            StreamEvent::FileError => match self.on_error {
                OnError::Skip => self.to_next_file(),
                OnError::Fail => {
                    self.status = StreamStatus::Failed;
                    StreamAction::Fail
                },
            },
            StreamEvent::Cancelled => {
                self.status = StreamStatus::Cancelled;
                StreamAction::Stop
            },
        }
    }

    fn to_next_file(&mut self) -> (action: StreamAction)
        requires
            old(self)@.status == StreamStatus::Executing,
        ensures
            final(self)@ == old(self)@.next_file().0,
            action == old(self)@.next_file().1,
            final(self)@.wf(),
    {
        proof {
            use_type_invariant(&*self);
        }
        if self.files - self.current > 1 {
            self.current = self.current + 1;
            StreamAction::Open { file: self.current }
        } else {
            *self = PartitionStream {
                files: self.files,
                current: self.files,
                remaining: self.remaining,
                on_error: self.on_error,
                status: StreamStatus::Completed,
                rows_produced: self.rows_produced,
            };
            StreamAction::Finish
        }
    }
}

fn is_zero(limit: Option<usize>) -> (zero: bool)
    ensures
        zero == (limit_view(limit) == Some(0nat)),
{
    match limit {
        Some(rows) => rows == 0,
        None => false,
    }
}

/// Number of rows in the batches among `events`.
pub open spec fn batch_rows(events: Seq<StreamEvent>) -> nat
    decreases events.len(),
{
    if events.len() == 0 {
        0
    } else {
        batch_rows(events.drop_last()) + match events.last() {
            StreamEvent::Batch { rows } => rows as nat,
            _ => 0,
        }
    }
}

/// Number of files that `events` report as done with, by their end or by an
/// error.
pub open spec fn files_done(events: Seq<StreamEvent>) -> nat
    decreases events.len(),
{
    if events.len() == 0 {
        0
    } else {
        files_done(events.drop_last()) + match events.last() {
            StreamEvent::EndOfFile => 1nat,
            StreamEvent::FileError => 1nat,
            _ => 0nat,
        }
    }
}

/// Nobody cancels, and a file error is only reported where it is skipped.
pub open spec fn undisturbed(events: Seq<StreamEvent>, on_error: OnError) -> bool {
    forall|i: int|
        0 <= i < events.len() ==> events[i] != StreamEvent::Cancelled && (events[i]
            == StreamEvent::FileError ==> on_error == OnError::Skip)
}

/// What a limit leaves of `rows` rows.
pub open spec fn capped(limit: Option<nat>, rows: nat) -> nat {
    match limit {
        Some(most) => if rows >= most {
            most
        } else {
            rows
        },
        None => rows,
    }
}

/// Whatever is reported, a stream stays well formed.
pub proof fn lemma_run_keeps_wf(start: StreamState, events: Seq<StreamEvent>)
    requires
        start.wf(),
    ensures
        start.run(events).wf(),
    decreases events.len(),
{
    if events.len() > 0 {
        lemma_run_keeps_wf(start, events.drop_last());
    }
}

/// Row limit: over the files of a partition, with batches and ends of file
/// in any order, the partition emits every row of its batches up to the
/// limit and not one more. Once the limit is reached it is complete, so
/// nothing more is read; until then it goes on, at the file that the events
/// have brought it to.
pub proof fn lemma_row_limit(
    files: nat,
    limit: Option<nat>,
    on_error: OnError,
    events: Seq<StreamEvent>,
)
    requires
        undisturbed(events, on_error),
        files_done(events) < files,
    ensures
        ({
            let start = StreamState::start(files, limit, on_error);
            let end = start.run(events);
            let rows = batch_rows(events);
            &&& start.emitted(events) == capped(limit, rows)
            &&& end.files == files
            &&& end.on_error == on_error
            &&& (limit matches Some(most) && rows >= most) ==> end.status
                == StreamStatus::Completed
            &&& !(limit matches Some(most) && rows >= most) ==> end.status
                == StreamStatus::Executing && end.current == files_done(events) && end.remaining
                == (match limit {
                Some(most) => Some((most - rows) as nat),
                None => None,
            })
        }),
    decreases events.len(),
{
    if events.len() > 0 {
        let init = events.drop_last();
        assert(undisturbed(init, on_error)) by {
            assert forall|i: int| 0 <= i < init.len() implies init[i] != StreamEvent::Cancelled
                && (init[i] == StreamEvent::FileError ==> on_error == OnError::Skip) by {
                assert(init[i] == events[i]);
            }
        }
        lemma_row_limit(files, limit, on_error, init);
        assert(events[events.len() - 1] == events.last());
    }
}

/// The limit is never exceeded, whatever is reported and in whatever order:
/// the rows emitted and the rows still allowed always add up to the limit.
pub proof fn lemma_limit_is_never_exceeded(start: StreamState, events: Seq<StreamEvent>)
    requires
        start.wf(),
        start.remaining.is_some(),
    ensures
        start.run(events).remaining.is_some(),
        start.emitted(events) + start.run(events).remaining.unwrap() == start.remaining.unwrap(),
    decreases events.len(),
{
    if events.len() > 0 {
        lemma_limit_is_never_exceeded(start, events.drop_last());
        lemma_run_keeps_wf(start, events.drop_last());
    }
}

/// A stream that has ended stays as it is and asks for no further read.
pub proof fn lemma_ended_stream_reads_nothing(state: StreamState, event: StreamEvent)
    requires
        state.status != StreamStatus::Executing,
    ensures
        state.step(event) == (state, StreamAction::Stop),
        !state.step(event).1.reads_on(),
{
}

/// The stream asks for a further read only while rows may still be emitted.
pub proof fn lemma_reads_only_under_limit(state: StreamState, event: StreamEvent)
    requires
        state.wf(),
        state.step(event).1.reads_on(),
    ensures
        state.step(event).0.status == StreamStatus::Executing,
        state.step(event).0.remaining != Some(0nat),
{
}

/// Files are opened in the order of the group, each once: the stream only
/// ever asks for the file right after the one it has been reading.
pub proof fn lemma_files_open_in_order(state: StreamState, event: StreamEvent)
    requires
        state.wf(),
        state.step(event).1 is Open,
    ensures
        state.step(event).1 == (StreamAction::Open { file: (state.current + 1) as usize }),
        state.step(event).0.current == state.current + 1,
        state.current + 1 < state.files,
{
}

/// Under the skip policy no report of a broken file fails the stream.
pub proof fn lemma_skip_never_fails(start: StreamState, events: Seq<StreamEvent>)
    requires
        start.on_error == OnError::Skip,
        start.status != StreamStatus::Failed,
    ensures
        start.run(events).on_error == OnError::Skip,
        start.run(events).status != StreamStatus::Failed,
    decreases events.len(),
{
    if events.len() > 0 {
        lemma_skip_never_fails(start, events.drop_last());
    }
}

/// The "rows produced" counter never goes down.
pub proof fn lemma_rows_produced_never_decreases(start: StreamState, events: Seq<StreamEvent>)
    requires
        start.wf(),
    ensures
        start.run(events).rows_produced >= start.rows_produced,
    decreases events.len(),
{
    if events.len() > 0 {
        lemma_rows_produced_never_decreases(start, events.drop_last());
        lemma_run_keeps_wf(start, events.drop_last());
    }
}


} // verus!
