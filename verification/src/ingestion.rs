//! Ingesting a document chunk by chunk.
//!
//! Embedding a chunk, extracting knowledge from it and storing both are the
//! work of other parts of a system. What is decided here is the order of that
//! work and what a failure means. An [`IngestionService`] hands out one
//! [`IngestAction`] at a time and is told by [`IngestionService::advance`] how
//! the action ended; it answers with the progress to report and the next
//! action.
//!
//! The chunks of a document are taken strictly one after the other. A chunk
//! whose embedding fails is skipped with a warning, and so is the extraction
//! of a chunk that fails after the chunk itself was stored; neither stops the
//! document. A failure of the store does.

use vstd::prelude::*;
use crate::chunker::{chunks_of, split_text_into_chunks};
use crate::errors::AppError;
use crate::text::{decimal_digits, push_decimal};

verus! {

/// `uuid::Uuid`, an identifier of 128 bits.
#[verifier::external_type_specification]
#[verifier::external_body]
pub struct ExUuid(uuid::Uuid);

/// Calls `Uuid::new_v4`, which draws an identifier at random. Nothing is
/// known of the identifier that comes back.
#[verifier::external_body]
pub(crate) fn fresh_id() -> (id: uuid::Uuid) {
    uuid::Uuid::new_v4()
}

/// One notice of how far an ingestion has come.
#[derive(Debug, Clone, PartialEq, Eq)]
pub enum ProgressEvent {
    /// The document was split into `total` chunks.
    Split { total: usize },
    /// The embedding of the chunk at `position` is being requested.
    Embedding { position: usize, total: usize },
    /// The embedding of the chunk at `position` failed; the chunk is skipped.
    EmbeddingSkipped { position: usize, total: usize, reason: AppError },
    /// Knowledge is being extracted from the chunk at `position`.
    Extracting { position: usize, total: usize },
    /// The `entities` found in the chunk at `position` are being stored.
    Linking { position: usize, total: usize, entities: usize },
    /// The extraction failed for the chunk at `position`; the chunk stays
    /// stored without what the extraction would have added.
    ExtractionSkipped { position: usize, total: usize, reason: AppError },
    /// Every chunk was attempted.
    Completed,
}

/// `[position/total]`, the way a notice names a chunk.
pub open spec fn position_tag(position: nat, total: nat) -> Seq<char> {
    "["@ + decimal_digits(position) + "/"@ + decimal_digits(total) + "]"@
}

/// `position/total`, the way a warning names a chunk.
pub open spec fn position_of(position: nat, total: nat) -> Seq<char> {
    decimal_digits(position) + "/"@ + decimal_digits(total)
}

fn push_position(s: &mut String, position: usize, total: usize)
    ensures
        final(s)@ == old(s)@ + position_of(position as nat, total as nat),
{
    push_decimal(s, position);
    s.append("/");
    push_decimal(s, total);
}

fn push_position_tag(s: &mut String, position: usize, total: usize)
    ensures
        final(s)@ == old(s)@ + position_tag(position as nat, total as nat),
{
    s.append("[");
    push_position(s, position, total);
    s.append("]");
}

impl ProgressEvent {
    /// Whether the notice tells of a failure that was passed over.
    pub open spec fn warns(self) -> bool {
        self is EmbeddingSkipped || self is ExtractionSkipped
    }

    /// The notice in words.
    pub open spec fn text(self) -> Seq<char> {
        match self {
            ProgressEvent::Split { total } => "🔪 Documento largo detectado. Dividido en "@
                + decimal_digits(total as nat) + " fragmentos."@,
            ProgressEvent::Embedding { position, total } => "🧠 "@ + position_tag(
                position as nat,
                total as nat,
            ) + " Generando Embeddings..."@,
            ProgressEvent::EmbeddingSkipped { position, total, reason } =>
                "⚠️ Error embedding chunk "@ + position_of(position as nat, total as nat) + ": "@
                + reason.display() + ". Saltando..."@,
            ProgressEvent::Extracting { position, total } => "🕵️ "@ + position_tag(
                position as nat,
                total as nat,
            ) + " Extrayendo conocimiento..."@,
            ProgressEvent::Linking { position, total, entities } => "🕸️ "@ + position_tag(
                position as nat,
                total as nat,
            ) + " Conectando "@ + decimal_digits(entities as nat) + " entidades al grafo..."@,
            ProgressEvent::ExtractionSkipped { position, total, reason } =>
                "⚠️ Error extrayendo entidades en parte "@ + position_of(
                    position as nat,
                    total as nat,
                ) + ": "@ + reason.display(),
            ProgressEvent::Completed => "✅ ¡Todo el documento ha sido procesado!"@,
        }
    }

    /// Whether the notice tells of a failure that was passed over.
    pub fn is_warning(&self) -> (b: bool)
        ensures
            b == self.warns(),
    {
        match self {
            ProgressEvent::EmbeddingSkipped { .. } => true,
            ProgressEvent::ExtractionSkipped { .. } => true,
            _ => false,
        }
    }

    /// The notice in words, as one line without a line break of its own.
    pub fn message(&self) -> (line: String)
        ensures
            line@ == self.text(),
    {
        match self {
            ProgressEvent::Split { total } => {
                let mut s = String::from_str("🔪 Documento largo detectado. Dividido en ");
                push_decimal(&mut s, *total);
                s.append(" fragmentos.");
                s
            },
            ProgressEvent::Embedding { position, total } => {
                let mut s = String::from_str("🧠 ");
                push_position_tag(&mut s, *position, *total);
                s.append(" Generando Embeddings...");
                s
            },
            ProgressEvent::EmbeddingSkipped { position, total, reason } => {
                let mut s = String::from_str("⚠️ Error embedding chunk ");
                push_position(&mut s, *position, *total);
                s.append(": ");
                s.append(reason.to_string().as_str());
                s.append(". Saltando...");
                s
            },
            ProgressEvent::Extracting { position, total } => {
                let mut s = String::from_str("🕵️ ");
                push_position_tag(&mut s, *position, *total);
                s.append(" Extrayendo conocimiento...");
                s
            },
            ProgressEvent::Linking { position, total, entities } => {
                let mut s = String::from_str("🕸️ ");
                push_position_tag(&mut s, *position, *total);
                s.append(" Conectando ");
                push_decimal(&mut s, *entities);
                s.append(" entidades al grafo...");
                s
            },
            ProgressEvent::ExtractionSkipped { position, total, reason } => {
                let mut s = String::from_str("⚠️ Error extrayendo entidades en parte ");
                push_position(&mut s, *position, *total);
                s.append(": ");
                s.append(reason.to_string().as_str());
                s
            },
            ProgressEvent::Completed => String::from_str(
                "✅ ¡Todo el documento ha sido procesado!",
            ),
        }
    }
}

/// How many of `events` are warnings.
pub open spec fn warnings_in(events: Seq<ProgressEvent>) -> nat
    decreases events.len(),
{
    if events.len() == 0 {
        0
    } else {
        warnings_in(events.drop_last()) + if events.last().warns() {
            1nat
        } else {
            0nat
        }
    }
}

/// How many of `events` announce the end.
pub open spec fn completions_in(events: Seq<ProgressEvent>) -> nat
    decreases events.len(),
{
    if events.len() == 0 {
        0
    } else {
        completions_in(events.drop_last()) + if events.last() is Completed {
            1nat
        } else {
            0nat
        }
    }
}

/// What an ingestion is waiting for.
#[derive(Debug, Clone, Copy, PartialEq, Eq, Structural)]
pub enum Phase {
    /// The embedding of the current chunk.
    Embedding,
    /// The store, which was handed the current chunk.
    SavingChunk,
    /// What is extracted from the current chunk.
    Extracting,
    /// The store, which was handed what was extracted.
    SavingGraph,
    /// Nothing: every chunk was attempted.
    Finished,
    /// Nothing: the store failed and the ingestion was given up.
    Failed,
}

/// What is to be done next, outside.
#[derive(Debug)]
pub enum IngestAction {
    /// Request the embedding of `text`.
    Embed { text: String },
    /// Store `text` under `chunk_id`, with the embedding just received.
    SaveChunk { chunk_id: uuid::Uuid, text: String },
    /// Extract knowledge from `text`.
    Extract { text: String },
    /// Store what was just extracted, under the chunk's identifier.
    SaveGraph { chunk_id: uuid::Uuid },
    /// Report success: the document is known by `group_id`.
    Done { group_id: uuid::Uuid },
    /// Report `error`: the ingestion was given up.
    Abort { error: AppError },
    /// Nothing: the ingestion had ended before.
    Idle,
}

/// What one move of an ingestion brings: the notices to pass on, in order,
/// and then the action to take.
#[derive(Debug)]
pub struct Step {
    pub events: Vec<ProgressEvent>,
    pub action: IngestAction,
}

/// The ingestion of one document.
pub struct IngestionService {
    chunks: Vec<String>,
    group_id: uuid::Uuid,
    chunk_id: uuid::Uuid,
    cursor: usize,
    phase: Phase,
}

impl IngestionService {
    #[verifier::type_invariant]
    spec fn well_formed(&self) -> bool {
        &&& self.cursor <= self.chunks.len()
        &&& (self.phase is Finished || self.phase is Failed || self.cursor < self.chunks.len())
    }

    /// What holds of every ingestion: it has left behind no more chunks than
    /// there are, and while it waits for anything a chunk is left.
    pub closed spec fn valid(&self) -> bool {
        self.well_formed()
    }

    /// The chunks of the document.
    pub closed spec fn chunks(&self) -> Seq<String> {
        self.chunks@
    }

    /// The identifier under which the document as a whole is known.
    pub closed spec fn group_id(&self) -> uuid::Uuid {
        self.group_id
    }

    /// The identifier of the current chunk.
    pub closed spec fn chunk_id(&self) -> uuid::Uuid {
        self.chunk_id
    }

    /// How many chunks were left behind, attempted or skipped.
    pub closed spec fn cursor(&self) -> nat {
        self.cursor as nat
    }

    /// What the ingestion is waiting for.
    pub closed spec fn phase(&self) -> Phase {
        self.phase
    }

    /// The number of chunks.
    pub open spec fn total(&self) -> nat {
        self.chunks().len()
    }

    /// What turning to the chunk after `done` chunks brings: the request for
    /// its embedding, or the end where no chunk is left.
    pub open spec fn turned_to(
        &self,
        done: nat,
        events: Seq<ProgressEvent>,
        action: IngestAction,
    ) -> bool {
        if done < self.total() {
            &&& self.cursor() == done
            &&& self.phase() == Phase::Embedding
            &&& events == seq![
                ProgressEvent::Embedding {
                    position: (done + 1) as usize,
                    total: self.total() as usize,
                },
            ]
            &&& action == (IngestAction::Embed { text: self.chunks()[done as int] })
        } else {
            &&& self.cursor() == self.total()
            &&& self.phase() == Phase::Finished
            &&& events == seq![ProgressEvent::Completed]
            &&& action == (IngestAction::Done { group_id: self.group_id() })
        }
    }

    /// How `step` and the state `after` follow from the state `self` and the
    /// outcome of the action that was handed out last.
    pub open spec fn moves_to(
        &self,
        outcome: Result<usize, AppError>,
        after: &Self,
        step: Step,
    ) -> bool {
        let position = (self.cursor() + 1) as usize;
        let total = self.total() as usize;
        &&& after.chunks() == self.chunks()
        &&& after.group_id() == self.group_id()
        &&& match self.phase() {
            Phase::Embedding => match outcome {
                Ok(_) => {
                    &&& after.phase() == Phase::SavingChunk
                    &&& after.cursor() == self.cursor()
                    &&& after.chunk_id() == self.chunk_id()
                    &&& step.events@ == Seq::<ProgressEvent>::empty()
                    &&& step.action == (IngestAction::SaveChunk {
                        chunk_id: after.chunk_id(),
                        text: self.chunks()[self.cursor() as int],
                    })
                },
                Err(reason) => {
                    &&& step.events@.len() > 0
                    &&& step.events@[0] == (ProgressEvent::EmbeddingSkipped {
                        position,
                        total,
                        reason,
                    })
                    &&& after.turned_to(self.cursor() + 1, step.events@.skip(1), step.action)
                },
            },
            Phase::SavingChunk => match outcome {
                Ok(_) => {
                    &&& after.phase() == Phase::Extracting
                    &&& after.cursor() == self.cursor()
                    &&& after.chunk_id() == self.chunk_id()
                    &&& step.events@ == seq![ProgressEvent::Extracting { position, total }]
                    &&& step.action == (IngestAction::Extract {
                        text: self.chunks()[self.cursor() as int],
                    })
                },
                Err(error) => {
                    &&& after.phase() == Phase::Failed
                    &&& after.cursor() == self.cursor()
                    &&& step.events@ == Seq::<ProgressEvent>::empty()
                    &&& step.action == (IngestAction::Abort { error })
                },
            },
            Phase::Extracting => match outcome {
                Ok(entities) => {
                    &&& after.phase() == Phase::SavingGraph
                    &&& after.cursor() == self.cursor()
                    &&& after.chunk_id() == self.chunk_id()
                    &&& step.events@ == seq![ProgressEvent::Linking { position, total, entities }]
                    &&& step.action == (IngestAction::SaveGraph { chunk_id: self.chunk_id() })
                },
                Err(reason) => {
                    &&& step.events@.len() > 0
                    &&& step.events@[0] == (ProgressEvent::ExtractionSkipped {
                        position,
                        total,
                        reason,
                    })
                    &&& after.turned_to(self.cursor() + 1, step.events@.skip(1), step.action)
                },
            },
            Phase::SavingGraph => match outcome {
                Ok(_) => after.turned_to(self.cursor() + 1, step.events@, step.action),
                Err(error) => {
                    &&& after.phase() == Phase::Failed
                    &&& after.cursor() == self.cursor()
                    &&& step.events@ == Seq::<ProgressEvent>::empty()
                    &&& step.action == (IngestAction::Abort { error })
                },
            },
            Phase::Finished | Phase::Failed => {
                &&& after.phase() == self.phase()
                &&& after.cursor() == self.cursor()
                &&& step.events@ == Seq::<ProgressEvent>::empty()
                &&& step.action == IngestAction::Idle
            },
        }
    }

    /// Splits `content` into chunks and turns to the first of them. The
    /// notices begin with the number of chunks.
    pub fn new(content: &str) -> (started: (IngestionService, Step))
        ensures
            started.0.chunks().len() == chunks_of(content@).len(),
            forall|i: int|
                0 <= i < started.0.chunks().len() ==> (#[trigger] started.0.chunks()[i])@
                    == chunks_of(content@)[i],
            started.0.valid(),
            started.1.events@.len() > 0,
            started.1.events@[0] == (ProgressEvent::Split { total: started.0.total() as usize }),
            started.0.turned_to(0, started.1.events@.skip(1), started.1.action),
    {
        let chunks = split_text_into_chunks(content);
        let total = chunks.len();
        let mut service = IngestionService {
            chunks,
            group_id: fresh_id(),
            chunk_id: fresh_id(),
            cursor: 0,
            phase: Phase::Finished,
        };
        let mut events: Vec<ProgressEvent> = Vec::new();
        events.push(ProgressEvent::Split { total });
        let action = service.turn_to(0, &mut events);
        proof {
            assert(events@[0] == events@.take(1)[0]);
        }
        (service, Step { events, action })
    }

    /// Turns to the chunk after `done` chunks, or ends where none is left.
    fn turn_to(&mut self, done: usize, events: &mut Vec<ProgressEvent>) -> (action: IngestAction)
        requires
            done <= old(self).chunks.len(),
        ensures
            final(self).chunks() == old(self).chunks(),
            final(self).group_id() == old(self).group_id(),
            final(events)@.len() == old(events)@.len() + 1,
            final(events)@.take(old(events)@.len() as int) == old(events)@,
            final(self).turned_to(
                done as nat,
                final(events)@.skip(old(events)@.len() as int),
                action,
            ),
    {
        proof {
            use_type_invariant(&*self);
        }
        let total = self.chunks.len();
        let ghost before = events@;
        if done < total {
            // the invariant of the type holds after each single assignment
            self.phase = Phase::Finished;
            self.cursor = done;
            self.phase = Phase::Embedding;
            self.chunk_id = fresh_id();
            events.push(ProgressEvent::Embedding { position: done + 1, total });
            proof {
                assert(events@.skip(before.len() as int) =~= seq![
                    ProgressEvent::Embedding { position: (done + 1) as usize, total },
                ]);
            }
            IngestAction::Embed { text: self.chunks[done].clone() }
        } else {
            self.phase = Phase::Finished;
            self.cursor = total;
            events.push(ProgressEvent::Completed);
            proof {
                assert(events@.skip(before.len() as int) =~= seq![ProgressEvent::Completed]);
            }
            IngestAction::Done { group_id: self.group_id }
        }
    }

    /// Takes the outcome of the action that was handed out last: `Ok` where
    /// it succeeded, with the number of entities found where the action was
    /// to extract (the number is not read after another action). Answers with
    /// the notices to pass on and the next action.
    pub fn advance(&mut self, outcome: Result<usize, AppError>) -> (step: Step)
        ensures
            final(self).valid(),
            old(self).moves_to(outcome, final(self), step),
    {
        proof {
            use_type_invariant(&*self);
        }
        let mut events: Vec<ProgressEvent> = Vec::new();
        let total = self.chunks.len();
        let cursor = self.cursor;
        let action = match self.phase {
            Phase::Embedding => match outcome {
                Ok(_) => {
                    self.phase = Phase::SavingChunk;
                    IngestAction::SaveChunk {
                        chunk_id: self.chunk_id,
                        text: self.chunks[cursor].clone(),
                    }
                },
                Err(reason) => {
                    events.push(
                        ProgressEvent::EmbeddingSkipped { position: cursor + 1, total, reason },
                    );
                    let next = self.turn_to(cursor + 1, &mut events);
                    proof {
                        assert(events@[0] == events@.take(1)[0]);
                    }
                    next
                },
            },
            Phase::SavingChunk => match outcome {
                Ok(_) => {
                    self.phase = Phase::Extracting;
                    events.push(ProgressEvent::Extracting { position: cursor + 1, total });
                    IngestAction::Extract { text: self.chunks[cursor].clone() }
                },
                Err(error) => {
                    self.phase = Phase::Failed;
                    IngestAction::Abort { error }
                },
            },
            Phase::Extracting => match outcome {
                Ok(entities) => {
                    self.phase = Phase::SavingGraph;
                    events.push(ProgressEvent::Linking { position: cursor + 1, total, entities });
                    IngestAction::SaveGraph { chunk_id: self.chunk_id }
                },
                Err(reason) => {
                    events.push(
                        ProgressEvent::ExtractionSkipped { position: cursor + 1, total, reason },
                    );
                    let next = self.turn_to(cursor + 1, &mut events);
                    proof {
                        assert(events@[0] == events@.take(1)[0]);
                    }
                    next
                },
            },
            Phase::SavingGraph => match outcome {
                Ok(_) => {
                    let next = self.turn_to(cursor + 1, &mut events);
                    proof {
                        assert(events@.skip(0) =~= events@);
                    }
                    next
                },
                Err(error) => {
                    self.phase = Phase::Failed;
                    IngestAction::Abort { error }
                },
            },
            Phase::Finished => IngestAction::Idle,
            Phase::Failed => IngestAction::Idle,
        };
        Step { events, action }
    }

    /// No failure of the provider stops a document, and every failure of the
    /// store does. A chunk goes to the store only when its own embedding has
    /// succeeded. A chunk whose embedding or extraction fails is passed over
    /// with one warning, which names its position, and the ingestion turns to
    /// the chunk after it. The chunks are taken one by one, in order.
    pub proof fn lemma_failure_policy(
        before: &Self,
        outcome: Result<usize, AppError>,
        after: &Self,
        step: Step,
    )
        requires
            before.valid(),
            before.moves_to(outcome, after, step),
        ensures
            step.action is SaveChunk <==> before.phase() == Phase::Embedding && outcome is Ok,
            step.action is SaveChunk ==> step.action->SaveChunk_text
                == before.chunks()[before.cursor() as int],
            step.action is SaveGraph <==> before.phase() == Phase::Extracting && outcome is Ok,
            step.action is SaveGraph ==> step.action->SaveGraph_chunk_id == before.chunk_id(),
            step.action is Abort <==> (before.phase() == Phase::SavingChunk || before.phase()
                == Phase::SavingGraph) && outcome is Err,
            step.action is Abort ==> outcome == Err::<usize, AppError>(step.action->error),
            after.phase() == Phase::Failed <==> step.action is Abort || before.phase()
                == Phase::Failed,
            (before.phase() == Phase::Embedding || before.phase() == Phase::Extracting)
                && outcome is Err ==> {
                &&& step.events@.len() == 2
                &&& step.events@[0].warns()
                &&& step.events@[0] is EmbeddingSkipped <==> before.phase() == Phase::Embedding
                &&& step.events@[0] is EmbeddingSkipped
                    ==> step.events@[0]->EmbeddingSkipped_position == before.cursor() + 1
                    && step.events@[0]->EmbeddingSkipped_total == before.total()
                &&& step.events@[0] is ExtractionSkipped
                    ==> step.events@[0]->ExtractionSkipped_position == before.cursor() + 1
                    && step.events@[0]->ExtractionSkipped_total == before.total()
                &&& !step.events@[1].warns()
                &&& after.cursor() == before.cursor() + 1
            },
            !(outcome is Err) ==> forall|i: int|
                0 <= i < step.events@.len() ==> !(#[trigger] step.events@[i]).warns(),
            after.cursor() == before.cursor() || after.cursor() == before.cursor() + 1,
    {
        if (before.phase() == Phase::Embedding || before.phase() == Phase::Extracting)
            && outcome is Err {
            assert(step.events@.skip(1).len() == 1);
            assert(step.events@.skip(1)[0] == step.events@[1]);
        }
    }

    /// How far the ingestion has come: a number that grows with every move
    /// until the ingestion ends.
    pub open spec fn progress(&self) -> int {
        4 * self.cursor() + match self.phase() {
            Phase::Embedding => 0int,
            Phase::SavingChunk => 1int,
            Phase::Extracting => 2int,
            Phase::SavingGraph => 3int,
            Phase::Finished => 0int,
            Phase::Failed => 4int,
        }
    }

    /// Whether `states`, `outcomes` and `steps` tell of one ingestion from
    /// move to move: each state but the last was moved by the outcome at its
    /// place to the state after it, and brought the step at its place.
    pub open spec fn is_run(
        states: Seq<IngestionService>,
        outcomes: Seq<Result<usize, AppError>>,
        steps: Seq<Step>,
    ) -> bool {
        &&& states.len() == outcomes.len() + 1
        &&& steps.len() == outcomes.len()
        &&& forall|k: int|
            0 <= k < outcomes.len() ==> states[k].valid() && states[k].moves_to(
                #[trigger] outcomes[k],
                &states[k + 1],
                steps[k],
            )
    }

    /// Over the first `n` moves of a run: how often a chunk went to the store.
    pub open spec fn stored(steps: Seq<Step>, n: nat) -> nat
        decreases n,
    {
        if n == 0 {
            0
        } else {
            Self::stored(steps, (n - 1) as nat) + if steps[n - 1].action is SaveChunk {
                1nat
            } else {
                0nat
            }
        }
    }

    /// Over the first `n` moves of a run: how many warnings were given.
    pub open spec fn warned(steps: Seq<Step>, n: nat) -> nat
        decreases n,
    {
        if n == 0 {
            0
        } else {
            Self::warned(steps, (n - 1) as nat) + warnings_in(steps[n - 1].events@)
        }
    }

    /// Over the first `n` moves of a run: how often the end was announced.
    pub open spec fn completed(steps: Seq<Step>, n: nat) -> nat
        decreases n,
    {
        if n == 0 {
            0
        } else {
            Self::completed(steps, (n - 1) as nat) + completions_in(steps[n - 1].events@)
        }
    }

    /// Over the first `n` moves of a run: how many embeddings succeeded.
    pub open spec fn embedded(
        states: Seq<IngestionService>,
        outcomes: Seq<Result<usize, AppError>>,
        n: nat,
    ) -> nat
        decreases n,
    {
        if n == 0 {
            0
        } else {
            Self::embedded(states, outcomes, (n - 1) as nat) + if states[n - 1].phase()
                == Phase::Embedding && outcomes[n - 1] is Ok {
                1nat
            } else {
                0nat
            }
        }
    }

    /// Over the first `n` moves of a run: how many embeddings and
    /// extractions failed.
    pub open spec fn passed_over(
        states: Seq<IngestionService>,
        outcomes: Seq<Result<usize, AppError>>,
        n: nat,
    ) -> nat
        decreases n,
    {
        if n == 0 {
            0
        } else {
            Self::passed_over(states, outcomes, (n - 1) as nat) + if (states[n - 1].phase()
                == Phase::Embedding || states[n - 1].phase() == Phase::Extracting) && outcomes[n
                - 1] is Err {
                1nat
            } else {
                0nat
            }
        }
    }

    /// Whether the ingestion has ended, well or not.
    pub open spec fn ended(&self) -> bool {
        self.phase() == Phase::Finished || self.phase() == Phase::Failed
    }

    proof fn lemma_step_counts(
        before: &Self,
        outcome: Result<usize, AppError>,
        after: &Self,
        step: Step,
    )
        requires
            before.valid(),
            before.moves_to(outcome, after, step),
        ensures
            warnings_in(step.events@) == if (before.phase() == Phase::Embedding || before.phase()
                == Phase::Extracting) && outcome is Err {
                1nat
            } else {
                0nat
            },
            completions_in(step.events@) == if !before.ended() && after.phase()
                == Phase::Finished {
                1nat
            } else {
                0nat
            },
            !before.ended() && after.phase() == Phase::Finished ==> step.events@.len() > 0
                && step.events@.last() == ProgressEvent::Completed,
            before.ended() ==> step.events@.len() == 0 && after.phase() == before.phase(),
    {
        reveal_with_fuel(warnings_in, 3);
        reveal_with_fuel(completions_in, 3);
        let events = step.events@;
        if (before.phase() == Phase::Embedding || before.phase() == Phase::Extracting)
            && outcome is Err {
            assert(events.skip(1).len() == 1);
            assert(events.skip(1)[0] == events[1]);
            assert(events.drop_last() =~= seq![events[0]]);
            assert(events.drop_last().drop_last() =~= Seq::<ProgressEvent>::empty());
        } else if events.len() == 1 {
            assert(events.drop_last() =~= Seq::<ProgressEvent>::empty());
        }
    }

    /// What each move of a run adds to the counts.
    spec fn tallied(
        states: Seq<IngestionService>,
        outcomes: Seq<Result<usize, AppError>>,
        steps: Seq<Step>,
        k: int,
    ) -> bool {
        &&& steps[k].action is SaveChunk <==> states[k].phase() == Phase::Embedding
            && outcomes[k] is Ok
        &&& warnings_in(steps[k].events@) == if (states[k].phase() == Phase::Embedding
            || states[k].phase() == Phase::Extracting) && outcomes[k] is Err {
            1nat
        } else {
            0nat
        }
        &&& completions_in(steps[k].events@) == if !states[k].ended() && states[k + 1].phase()
            == Phase::Finished {
            1nat
        } else {
            0nat
        }
        &&& !states[k].ended() && states[k + 1].phase() == Phase::Finished
            ==> steps[k].events@.len() > 0 && steps[k].events@.last()
            == ProgressEvent::Completed
        &&& states[k].ended() ==> steps[k].events@.len() == 0 && states[k + 1].phase()
            == states[k].phase()
    }

    proof fn lemma_move_tallied(
        states: Seq<IngestionService>,
        outcomes: Seq<Result<usize, AppError>>,
        steps: Seq<Step>,
        k: int,
    )
        requires
            Self::is_run(states, outcomes, steps),
            0 <= k < outcomes.len(),
        ensures
            Self::tallied(states, outcomes, steps, k),
    {
        assert(states[k].valid());
        Self::lemma_step_counts(&states[k], outcomes[k], &states[k + 1], steps[k]);
        Self::lemma_failure_policy(&states[k], outcomes[k], &states[k + 1], steps[k]);
    }

    proof fn lemma_tally(
        states: Seq<IngestionService>,
        outcomes: Seq<Result<usize, AppError>>,
        steps: Seq<Step>,
        n: nat,
    )
        requires
            forall|k: int| 0 <= k < n ==> Self::tallied(states, outcomes, steps, k),
        ensures
            Self::stored(steps, n) == Self::embedded(states, outcomes, n),
            Self::warned(steps, n) == Self::passed_over(states, outcomes, n),
            Self::completed(steps, n) == if !states[0].ended() && states[n as int].phase()
                == Phase::Finished {
                1nat
            } else {
                0nat
            },
            states[0].ended() ==> states[n as int].phase() == states[0].phase(),
        decreases n,
    {
        if n > 0 {
            Self::lemma_tally(states, outcomes, steps, (n - 1) as nat);
            assert(Self::tallied(states, outcomes, steps, n - 1));
        }
    }

    /// Over a run of any length the counts agree. As many chunks went to the
    /// store as embeddings succeeded. As many warnings were given as
    /// embeddings and extractions failed. The end was announced once if the
    /// run reached it, and not at all if it did not; the announcement is the
    /// last notice of the move that reached the end, and no later move
    /// brings a notice.
    pub proof fn lemma_run_counts(
        states: Seq<IngestionService>,
        outcomes: Seq<Result<usize, AppError>>,
        steps: Seq<Step>,
        n: nat,
    )
        requires
            Self::is_run(states, outcomes, steps),
            n <= outcomes.len(),
        ensures
            Self::stored(steps, n) == Self::embedded(states, outcomes, n),
            Self::warned(steps, n) == Self::passed_over(states, outcomes, n),
            Self::completed(steps, n) == if !states[0].ended() && states[n as int].phase()
                == Phase::Finished {
                1nat
            } else {
                0nat
            },
            states[0].ended() ==> states[n as int].phase() == states[0].phase(),
            forall|k: int|
                0 <= k < n && !(#[trigger] states[k]).ended() && states[k + 1].phase()
                    == Phase::Finished ==> steps[k].events@.len() > 0 && steps[k].events@.last()
                    == ProgressEvent::Completed,
            forall|k: int|
                0 <= k < n && (#[trigger] states[k]).ended() ==> steps[k].events@.len() == 0,
    {
        assert forall|k: int| 0 <= k < n implies Self::tallied(states, outcomes, steps, k) by {
            Self::lemma_move_tallied(states, outcomes, steps, k);
        }
        Self::lemma_tally(states, outcomes, steps, n);
        assert forall|k: int|
            0 <= k < n && !(#[trigger] states[k]).ended() && states[k + 1].phase()
                == Phase::Finished implies steps[k].events@.len() > 0 && steps[k].events@.last()
            == ProgressEvent::Completed by {
            assert(Self::tallied(states, outcomes, steps, k));
        }
        assert forall|k: int|
            0 <= k < n && (#[trigger] states[k]).ended() implies steps[k].events@.len() == 0 by {
            assert(Self::tallied(states, outcomes, steps, k));
        }
    }

    /// Every move of an ingestion that has not ended takes it further.
    pub proof fn lemma_moves_forward(
        before: &Self,
        outcome: Result<usize, AppError>,
        after: &Self,
        step: Step,
    )
        requires
            before.valid(),
            before.moves_to(outcome, after, step),
        ensures
            before.progress() <= after.progress(),
            before.phase() != Phase::Finished && before.phase() != Phase::Failed
                ==> before.progress() < after.progress(),
    {
    }

    proof fn lemma_run_moves_forward(
        states: Seq<IngestionService>,
        outcomes: Seq<Result<usize, AppError>>,
        steps: Seq<Step>,
        j: int,
        k: int,
    )
        requires
            Self::is_run(states, outcomes, steps),
            0 <= j < k < outcomes.len(),
            states[j].phase() != Phase::Finished,
            states[j].phase() != Phase::Failed,
        ensures
            states[j].progress() < states[k].progress(),
        decreases k - j,
    {
        Self::lemma_moves_forward(&states[k - 1], outcomes[k - 1], &states[k], steps[k - 1]);
        if j < k - 1 {
            Self::lemma_run_moves_forward(states, outcomes, steps, j, k - 1);
        }
    }

    /// In the course of one ingestion no chunk goes to the store twice, and a
    /// chunk goes there only in answer to its own embedding: a chunk whose
    /// embedding failed never does.
    pub proof fn lemma_chunk_stored_once(
        states: Seq<IngestionService>,
        outcomes: Seq<Result<usize, AppError>>,
        steps: Seq<Step>,
        j: int,
        k: int,
    )
        requires
            Self::is_run(states, outcomes, steps),
            0 <= j < k < outcomes.len(),
        ensures
            steps[k].action is SaveChunk <==> states[k].phase() == Phase::Embedding
                && outcomes[k] is Ok,
            steps[k].action is SaveChunk ==> steps[k].action->SaveChunk_text
                == states[k].chunks()[states[k].cursor() as int],
            steps[j].action is SaveChunk && steps[k].action is SaveChunk ==> states[j].cursor()
                < states[k].cursor(),
            states[j].phase() == Phase::Embedding && outcomes[j] is Err ==> !(
            steps[k].action is SaveChunk && states[k].cursor() == states[j].cursor()),
    {
        if states[j].phase() == Phase::Embedding {
            Self::lemma_run_moves_forward(states, outcomes, steps, j, k);
        }
    }

    /// What the ingestion is waiting for.
    pub fn current_phase(&self) -> (phase: Phase)
        ensures
            phase == self.phase(),
    {
        self.phase
    }

    /// The number of chunks.
    pub fn total_chunks(&self) -> (n: usize)
        ensures
            n == self.total(),
    {
        self.chunks.len()
    }

    /// How many chunks were left behind, attempted or skipped.
    pub fn chunks_done(&self) -> (n: usize)
        ensures
            n == self.cursor(),
    {
        self.cursor
    }
}

/// The ingestion of one short text, which is taken whole. Here a failure of
/// the provider is not passed over: a failed embedding ends the ingestion,
/// and so does an extraction that fails twice. It is tried twice, not more.
pub struct DirectIngestion {
    text: String,
    chunk_id: uuid::Uuid,
    phase: Phase,
    retried: bool,
}

impl DirectIngestion {
    /// The text.
    pub closed spec fn text(&self) -> String {
        self.text
    }

    /// The identifier under which the text is stored.
    pub closed spec fn chunk_id(&self) -> uuid::Uuid {
        self.chunk_id
    }

    /// What the ingestion is waiting for.
    pub closed spec fn phase(&self) -> Phase {
        self.phase
    }

    /// Whether the extraction has failed once.
    pub closed spec fn retried(&self) -> bool {
        self.retried
    }

    /// How `action` and the state `after` follow from the state `self` and
    /// the outcome of the action that was handed out last.
    pub open spec fn moves_to(
        &self,
        outcome: Result<usize, AppError>,
        after: &Self,
        action: IngestAction,
    ) -> bool {
        &&& after.text() == self.text()
        &&& after.chunk_id() == self.chunk_id()
        &&& match (self.phase(), outcome) {
            (Phase::Embedding, Ok(_)) => {
                &&& after.phase() == Phase::SavingChunk
                &&& after.retried() == self.retried()
                &&& action == (IngestAction::SaveChunk {
                    chunk_id: self.chunk_id(),
                    text: self.text(),
                })
            },
            (Phase::SavingChunk, Ok(_)) => {
                &&& after.phase() == Phase::Extracting
                &&& after.retried() == self.retried()
                &&& action == (IngestAction::Extract { text: self.text() })
            },
            (Phase::Extracting, Ok(_)) => {
                &&& after.phase() == Phase::SavingGraph
                &&& after.retried() == self.retried()
                &&& action == (IngestAction::SaveGraph { chunk_id: self.chunk_id() })
            },
            (Phase::Extracting, Err(error)) => if self.retried() {
                after.phase() == Phase::Failed && after.retried() && action == (
                IngestAction::Abort { error })
            } else {
                after.phase() == Phase::Extracting && after.retried() && action == (
                IngestAction::Extract { text: self.text() })
            },
            (Phase::SavingGraph, Ok(_)) => {
                &&& after.phase() == Phase::Finished
                &&& after.retried() == self.retried()
                &&& action == (IngestAction::Done { group_id: self.chunk_id() })
            },
            (Phase::Finished, _) | (Phase::Failed, _) => {
                &&& after.phase() == self.phase()
                &&& after.retried() == self.retried()
                &&& action == IngestAction::Idle
            },
            (_, Err(error)) => {
                &&& after.phase() == Phase::Failed
                &&& after.retried() == self.retried()
                &&& action == (IngestAction::Abort { error })
            },
        }
    }

    /// Takes `content` whole and asks for its embedding first.
    pub fn new(content: &str) -> (started: (DirectIngestion, IngestAction))
        ensures
            started.0.text()@ == content@,
            started.0.phase() == Phase::Embedding,
            !started.0.retried(),
            started.1 == (IngestAction::Embed { text: started.0.text() }),
    {
        let ingestion = DirectIngestion {
            text: String::from_str(content),
            chunk_id: fresh_id(),
            phase: Phase::Embedding,
            retried: false,
        };
        let action = IngestAction::Embed { text: ingestion.text.clone() };
        (ingestion, action)
    }

    /// Takes the outcome of the action that was handed out last and answers
    /// with the next one.
    pub fn advance(&mut self, outcome: Result<usize, AppError>) -> (action: IngestAction)
        ensures
            old(self).moves_to(outcome, final(self), action),
    {
        match self.phase {
            Phase::Finished => IngestAction::Idle,
            Phase::Failed => IngestAction::Idle,
            Phase::Embedding => match outcome {
                Ok(_) => {
                    self.phase = Phase::SavingChunk;
                    IngestAction::SaveChunk { chunk_id: self.chunk_id, text: self.text.clone() }
                },
                Err(error) => {
                    self.phase = Phase::Failed;
                    IngestAction::Abort { error }
                },
            },
            Phase::SavingChunk => match outcome {
                Ok(_) => {
                    self.phase = Phase::Extracting;
                    IngestAction::Extract { text: self.text.clone() }
                },
                Err(error) => {
                    self.phase = Phase::Failed;
                    IngestAction::Abort { error }
                },
            },
            Phase::Extracting => match outcome {
                Ok(_) => {
                    self.phase = Phase::SavingGraph;
                    IngestAction::SaveGraph { chunk_id: self.chunk_id }
                },
                Err(error) => {
                    if self.retried {
                        self.phase = Phase::Failed;
                        IngestAction::Abort { error }
                    } else {
                        self.retried = true;
                        IngestAction::Extract { text: self.text.clone() }
                    }
                },
            },
            Phase::SavingGraph => match outcome {
                Ok(_) => {
                    self.phase = Phase::Finished;
                    IngestAction::Done { group_id: self.chunk_id }
                },
                Err(error) => {
                    self.phase = Phase::Failed;
                    IngestAction::Abort { error }
                },
            },
        }
    }

    /// What the ingestion is waiting for.
    pub fn current_phase(&self) -> (phase: Phase)
        ensures
            phase == self.phase(),
    {
        self.phase
    }

    /// An extraction that fails is tried once more, and only once: the
    /// second failure ends the ingestion with its error, though the text is
    /// stored by then. Every other failure ends the ingestion at once.
    pub proof fn lemma_one_retry(
        before: &Self,
        first: AppError,
        between: &Self,
        again: IngestAction,
        second: AppError,
        after: &Self,
        last: IngestAction,
    )
        requires
            before.phase() == Phase::Extracting,
            !before.retried(),
            before.moves_to(Err(first), between, again),
            between.moves_to(Err(second), after, last),
        ensures
            again == (IngestAction::Extract { text: before.text() }),
            between.phase() == Phase::Extracting,
            last == (IngestAction::Abort { error: second }),
            after.phase() == Phase::Failed,
    {
    }

    /// A failure ends the ingestion, but for the first failure of the
    /// extraction.
    pub proof fn lemma_failures_are_fatal(
        before: &Self,
        error: AppError,
        after: &Self,
        action: IngestAction,
    )
        requires
            before.moves_to(Err(error), after, action),
            before.phase() != Phase::Finished,
            before.phase() != Phase::Failed,
            before.phase() != Phase::Extracting || before.retried(),
        ensures
            action == (IngestAction::Abort { error }),
            after.phase() == Phase::Failed,
    {
    }
}

} // verus!
