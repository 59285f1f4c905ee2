//! Progress events of a long-running tool, and the verdict on a sync.
//!
//! A run emits the marker `start`, then one event for each line that the tool
//! writes, in the order of the lines, then the marker `end`. A sync has
//! failed when any of its lines holds `errors:`, in whatever case.

use crate::text::{has_pattern, lowercase, to_chars, to_lowercase};
use vstd::prelude::*;

verus! {

/// What a run is for.
#[derive(Clone, Copy, PartialEq, Eq, Structural, Debug)]
pub enum Operation {
    /// A directory sync: lines are sent on after a carriage return, and decide
    /// the verdict.
    Sync,
    /// Packing or unpacking an archive: lines are sent on as they are.
    Archive,
}

/// How far a run has come.
#[derive(Clone, Copy, PartialEq, Eq, Structural, Debug)]
pub enum Stage {
    /// Nothing was emitted yet.
    Ready,
    /// `start` was emitted; lines are passed on.
    Streaming,
    /// `end` was emitted.
    Finished,
}

/// The payload of the first event.
pub open spec fn start_marker() -> Seq<char> {
    "start"@
}

/// The payload of the last event.
pub open spec fn end_marker() -> Seq<char> {
    "end"@
}

/// The text that tells a failed sync, in lower case.
pub open spec fn error_marker() -> Seq<char> {
    "errors:"@
}

/// The payload that passes `line` on.
pub open spec fn line_payload(operation: Operation, line: Seq<char>) -> Seq<char> {
    match operation {
        Operation::Sync => seq!['\r'] + line,
        Operation::Archive => line,
    }
}

/// A text in lower case holds the error marker.
pub open spec fn holds_error_marker(lowered: Seq<char>) -> bool {
    crate::text::contains(lowered, error_marker())
}

/// `line` tells of errors: its lower-case form holds the error marker.
pub open spec fn reports_errors(line: Seq<char>) -> bool {
    holds_error_marker(lowercase(line))
}

/// None of `lines` tells of errors.
pub open spec fn all_clean(lines: Seq<Seq<char>>) -> bool {
    forall|i: int| 0 <= i < lines.len() ==> !reports_errors(#[trigger] lines[i])
}

/// The verdict on a run that wrote `lines`: an archive run always succeeds, a
/// sync succeeds when no line tells of errors.
pub open spec fn verdict(operation: Operation, lines: Seq<Seq<char>>) -> bool {
    operation == Operation::Archive || all_clean(lines)
}

/// The payloads of all events of a run that wrote `lines`.
pub open spec fn transcript(operation: Operation, lines: Seq<Seq<char>>) -> Seq<Seq<char>> {
    seq![start_marker()] + Seq::new(lines.len(), |i: int| line_payload(operation, lines[i]))
        + seq![end_marker()]
}

/// Name of the event that carries the progress of the sync that the listener
/// `listener_id` waits for.
pub fn sync_event_name(listener_id: &str) -> (name: String)
    ensures
        name@ == "rclone_"@ + listener_id@,
{
    let mut name = String::from_str("rclone_");
    name.append(listener_id);
    name
}

/// Whether a text in lower case holds the error marker.
pub fn has_error_marker(lowered: &str) -> (found: bool)
    ensures
        found == holds_error_marker(lowered@),
{
    let text = to_chars(lowered);
    let marker = to_chars("errors:");
    has_pattern(text.as_slice(), marker.as_slice())
}

/// Whether `line` tells of errors.
pub fn line_reports_errors(line: &str) -> (found: bool)
    ensures
        found == reports_errors(line@),
{
    let lowered = to_lowercase(line);
    has_error_marker(lowered.as_str())
}

/// The events of one run, emitted one by one as the tool's lines arrive.
pub struct ProgressEmitter {
    operation: Operation,
    stage: Stage,
    clean: bool,
    lines: Ghost<Seq<Seq<char>>>,
}

impl ProgressEmitter {
    /// What the run is for.
    pub closed spec fn operation(&self) -> Operation {
        self.operation
    }

    /// How far the run has come.
    pub closed spec fn stage(&self) -> Stage {
        self.stage
    }

    /// The lines passed on so far, in order.
    pub closed spec fn lines(&self) -> Seq<Seq<char>> {
        self.lines@
    }

    /// The emitter keeps account of its lines: it is clean exactly when none
    /// of them tells of errors, and has no lines before it starts.
    #[verifier::type_invariant]
    spec fn wf(&self) -> bool {
        &&& self.clean == all_clean(self.lines@)
        &&& self.stage == Stage::Ready ==> self.lines@.len() == 0
    }

    /// The payloads emitted so far.
    pub open spec fn emitted(&self) -> Seq<Seq<char>> {
        let passed = Seq::new(
            self.lines().len(),
            |i: int| line_payload(self.operation(), self.lines()[i]),
        );
        match self.stage() {
            Stage::Ready => Seq::<Seq<char>>::empty(),
            Stage::Streaming => seq![start_marker()] + passed,
            Stage::Finished => transcript(self.operation(), self.lines()),
        }
    }

    /// An emitter for a run that has not started.
    pub fn new(operation: Operation) -> (emitter: Self)
        ensures
            emitter.operation() == operation,
            emitter.stage() == Stage::Ready,
            emitter.lines() == Seq::<Seq<char>>::empty(),
    {
        ProgressEmitter {
            operation,
            stage: Stage::Ready,
            clean: true,
            lines: Ghost(Seq::<Seq<char>>::empty()),
        }
    }

    /// Starts the run: yields the marker `start`. Yields nothing, and changes
    /// nothing, where the run has started before.
    pub fn start(&mut self) -> (payload: Option<String>)
        ensures
            final(self).operation() == old(self).operation(),
            final(self).lines() == old(self).lines(),
            match payload {
                Some(text) => {
                    &&& old(self).stage() == Stage::Ready
                    &&& final(self).stage() == Stage::Streaming
                    &&& text@ == start_marker()
                    &&& final(self).emitted() == old(self).emitted().push(text@)
                },
                None => {
                    &&& old(self).stage() != Stage::Ready
                    &&& final(self).stage() == old(self).stage()
                },
            },
    {
        match self.stage {
            Stage::Ready => {
                proof {
                    use_type_invariant(&*self);
                }
                self.stage = Stage::Streaming;
                Some(String::from_str("start"))
            },
            _ => None,
        }
    }

    /// Passes one line on: yields its payload. Yields nothing, and changes
    /// nothing, where the run is not streaming.
    pub fn line(&mut self, line: &str) -> (payload: Option<String>)
        ensures
            final(self).operation() == old(self).operation(),
            final(self).stage() == old(self).stage(),
            match payload {
                Some(text) => {
                    &&& old(self).stage() == Stage::Streaming
                    &&& final(self).lines() == old(self).lines().push(line@)
                    &&& text@ == line_payload(old(self).operation(), line@)
                    &&& final(self).emitted() == old(self).emitted().push(text@)
                },
                None => {
                    &&& old(self).stage() != Stage::Streaming
                    &&& final(self).lines() == old(self).lines()
                },
            },
    {
        match self.stage {
            Stage::Streaming => {
                let failed = line_reports_errors(line);
                let ghost before = self.lines@;
                proof {
                    use_type_invariant(&*self);
                    let after = before.push(line@);
                    if all_clean(after) {
                        assert forall|i: int| 0 <= i < before.len() implies !reports_errors(
                            #[trigger] before[i],
                        ) by {
                            assert(after[i] == before[i]);
                        }
                        assert(after[before.len() as int] == line@);
                    }
                    if all_clean(before) && !failed {
                        assert forall|i: int| 0 <= i < after.len() implies !reports_errors(
                            #[trigger] after[i],
                        ) by {
                            if i < before.len() {
                                assert(after[i] == before[i]);
                            }
                        }
                    }
                }
                *self = ProgressEmitter {
                    operation: self.operation,
                    stage: Stage::Streaming,
                    clean: self.clean && !failed,
                    lines: Ghost(before.push(line@)),
                };
                let payload = match self.operation {
                    Operation::Sync => {
                        let mut text = String::new();
                        text.push('\r');
                        text.append(line);
                        assert(text@ =~= seq!['\r'] + line@);
                        text
                    },
                    Operation::Archive => String::from_str(line),
                };
                Some(payload)
            },
            _ => None,
        }
    }

    /// Ends the run: yields the marker `end`. Yields nothing, and changes
    /// nothing, where the run is not streaming.
    pub fn end(&mut self) -> (payload: Option<String>)
        ensures
            final(self).operation() == old(self).operation(),
            final(self).lines() == old(self).lines(),
            match payload {
                Some(text) => {
                    &&& old(self).stage() == Stage::Streaming
                    &&& final(self).stage() == Stage::Finished
                    &&& text@ == end_marker()
                    &&& final(self).emitted() == old(self).emitted().push(text@)
                },
                None => {
                    &&& old(self).stage() != Stage::Streaming
                    &&& final(self).stage() == old(self).stage()
                },
            },
    {
        match self.stage {
            Stage::Streaming => {
                proof {
                    use_type_invariant(&*self);
                }
                self.stage = Stage::Finished;
                Some(String::from_str("end"))
            },
            _ => None,
        }
    }

    /// Whether the run has ended.
    pub fn is_finished(&self) -> (finished: bool)
        ensures
            finished == (self.stage() == Stage::Finished),
    {
        match self.stage {
            Stage::Finished => true,
            _ => false,
        }
    }

    /// The verdict on the lines passed on so far.
    pub fn success(&self) -> (success: bool)
        ensures
            success == verdict(self.operation(), self.lines()),
    {
        proof {
            use_type_invariant(self);
        }
        match self.operation {
            Operation::Archive => true,
            Operation::Sync => self.clean,
        }
    }
}

/// What a whole run emitted, and its verdict.
pub struct RunReport {
    pub payloads: Vec<String>,
    pub success: bool,
}

/// Runs an emitter over all `lines` of a tool's output.
pub fn emit_all(operation: Operation, lines: &Vec<String>) -> (report: RunReport)
    ensures
        report.payloads.deep_view() == transcript(operation, lines.deep_view()),
        report.success == verdict(operation, lines.deep_view()),
{
    let mut emitter = ProgressEmitter::new(operation);
    let mut payloads: Vec<String> = Vec::new();
    let ghost all = lines.deep_view();
    match emitter.start() {
        Some(text) => payloads.push(text),
        None => {},
    }
    assert(payloads.deep_view() =~= seq![start_marker()]);
    let mut i: usize = 0;
    while i < lines.len()
        invariant
            i <= lines.len(),
            all == lines.deep_view(),
            emitter.operation() == operation,
            emitter.stage() == Stage::Streaming,
            emitter.lines() == all.take(i as int),
            payloads.deep_view() == seq![start_marker()] + Seq::new(
                i as nat,
                |k: int| line_payload(operation, all[k]),
            ),
        decreases lines.len() - i,
    {
        let ghost before = payloads.deep_view();
        match emitter.line(lines[i].as_str()) {
            Some(text) => {
                payloads.push(text);
                assert(payloads.deep_view() =~= before.push(
                    line_payload(operation, all[i as int]),
                ));
            },
            None => {},
        }
        assert(all.take(i as int).push(all[i as int]) =~= all.take(i + 1));
        assert(payloads.deep_view() =~= seq![start_marker()] + Seq::new(
            (i + 1) as nat,
            |k: int| line_payload(operation, all[k]),
        ));
        i += 1;
    }
    assert(all.take(i as int) =~= all);
    let ghost before = payloads.deep_view();
    match emitter.end() {
        Some(text) => {
            payloads.push(text);
            assert(payloads.deep_view() =~= before.push(end_marker()));
        },
        None => {},
    }
    assert(payloads.deep_view() =~= transcript(operation, all));
    let success = emitter.success();
    RunReport { payloads, success }
}

/// A run that wrote N lines emits N + 2 events: `start`, one for each line in
/// the order of the lines, and `end`; and so for no lines at all.
pub proof fn lemma_transcript_shape(operation: Operation, lines: Seq<Seq<char>>)
    ensures
        transcript(operation, lines).len() == lines.len() + 2,
        transcript(operation, lines)[0] == start_marker(),
        transcript(operation, lines)[lines.len() as int + 1] == end_marker(),
        forall|i: int|
            0 <= i < lines.len() ==> #[trigger] transcript(operation, lines)[i + 1] == line_payload(
                operation,
                lines[i],
            ),
{
}

/// A sync succeeds exactly when none of its lines tells of errors; a single
/// line that does makes it fail, wherever it stands.
pub proof fn lemma_sync_verdict(lines: Seq<Seq<char>>, at: int)
    requires
        0 <= at < lines.len(),
        reports_errors(lines[at]),
    ensures
        !verdict(Operation::Sync, lines),
{
}

/// A sync without lines, or with clean lines only, succeeds.
pub proof fn lemma_clean_sync_succeeds(lines: Seq<Seq<char>>)
    requires
        forall|i: int| 0 <= i < lines.len() ==> !reports_errors(#[trigger] lines[i]),
    ensures
        verdict(Operation::Sync, lines),
{
}

} // verus!
