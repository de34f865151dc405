//! Replacing the configuration, which destroys what is stored.
//!
//! Vectors made with one embedding model are of no use to another, so a new
//! configuration is accepted only together with a reset of the store, and
//! only when the request says so itself. The guard is stable until such a
//! request arrives, resetting while the store is cleared, the index made anew
//! and the configuration put in place, and stable again afterwards. Nothing
//! is rolled back: when a step fails the guard stops, the old configuration
//! stays in effect and the store stays as the failure left it.

use vstd::prelude::*;
use crate::errors::AppError;
use crate::models::{AIConfig, AdminConfigPayload};
use crate::provider::RigAIService;

verus! {

/// The two states of the guard.
#[derive(Debug, Clone, Copy, PartialEq, Eq, Structural)]
pub enum GuardState {
    Stable,
    Resetting,
}

/// How far a reset has come.
#[derive(Debug, Clone, Copy, PartialEq, Eq, Structural)]
pub enum ResetStage {
    /// The store is being cleared.
    Clearing,
    /// The index is being made for the new dimension.
    Indexing,
    /// The new configuration is being put in place.
    Applying,
    /// The reset has ended, well or not.
    Ended,
}

/// What is to be done next, outside.
#[derive(Debug)]
pub enum ResetAction {
    /// Clear the store of all chunks and of the graph.
    ClearStore,
    /// Make the vector index for embeddings of `dim` numbers.
    CreateIndexes { dim: usize },
    /// Put `config` in place of the live configuration, with no reader
    /// holding the old one meanwhile.
    Apply { config: AIConfig },
    /// Report success.
    Done,
    /// Report `error`. The live configuration is the one from before.
    Abort { error: AppError },
    /// Nothing: the reset had ended before.
    Idle,
}

/// The answer to a reset that went through.
pub open spec fn reset_message() -> Seq<char> {
    "System reset and reconfigured successfully"@
}

enum Progress {
    Clearing(AIConfig),
    Indexing(AIConfig),
    Applying,
    Ended,
}

/// The guard of one request for a new configuration.
pub struct AdminResetGuard {
    progress: Progress,
}

impl AdminResetGuard {
    /// How far the reset has come.
    pub closed spec fn stage(&self) -> ResetStage {
        match self.progress {
            Progress::Clearing(_) => ResetStage::Clearing,
            Progress::Indexing(_) => ResetStage::Indexing,
            Progress::Applying => ResetStage::Applying,
            Progress::Ended => ResetStage::Ended,
        }
    }

    /// The configuration that was asked for, while the guard keeps it: until
    /// it is handed out for its place, or the reset fails.
    pub closed spec fn candidate(&self) -> Option<AIConfig> {
        match self.progress {
            Progress::Clearing(config) => Some(config),
            Progress::Indexing(config) => Some(config),
            Progress::Applying => None,
            Progress::Ended => None,
        }
    }

    /// What holds of every guard: while the store is cleared and the index
    /// made, the guard keeps the configuration that was asked for.
    pub open spec fn valid(&self) -> bool {
        (self.stage() == ResetStage::Clearing || self.stage() == ResetStage::Indexing)
            <==> self.candidate() is Some
    }

    /// The state of the guard.
    pub open spec fn state(&self) -> GuardState {
        if self.stage() == ResetStage::Ended {
            GuardState::Stable
        } else {
            GuardState::Resetting
        }
    }

    /// What a request is answered with at once, if it is refused.
    pub open spec fn refusal(payload: AdminConfigPayload) -> Option<AppError> {
        if payload.force_reset {
            None
        } else {
            Some(AppError::SafetyGuardError)
        }
    }

    /// How `action` and the guard `after` follow from the guard `self` and
    /// the outcome of the action that was handed out last.
    pub open spec fn moves_to(
        &self,
        outcome: Result<(), AppError>,
        after: &Self,
        action: ResetAction,
    ) -> bool {
        match self.stage() {
            ResetStage::Clearing => match outcome {
                Ok(_) => {
                    &&& after.stage() == ResetStage::Indexing
                    &&& after.candidate() == self.candidate()
                    &&& action == (ResetAction::CreateIndexes {
                        dim: self.candidate()->0.embedding_dim,
                    })
                },
                Err(error) => after.stage() == ResetStage::Ended && action == (ResetAction::Abort {
                    error,
                }),
            },
            ResetStage::Indexing => match outcome {
                Ok(_) => {
                    &&& after.stage() == ResetStage::Applying
                    &&& action == (ResetAction::Apply { config: self.candidate()->0 })
                },
                Err(error) => after.stage() == ResetStage::Ended && action == (ResetAction::Abort {
                    error,
                }),
            },
            ResetStage::Applying => match outcome {
                Ok(_) => after.stage() == ResetStage::Ended && action == ResetAction::Done,
                Err(error) => after.stage() == ResetStage::Ended && action == (ResetAction::Abort {
                    error,
                }),
            },
            ResetStage::Ended => after.stage() == ResetStage::Ended && action == ResetAction::Idle,
        }
    }

    /// Takes a request. Without the flag it is refused, whatever
    /// configuration it asks for. With the flag the guard starts to reset,
    /// keeps the configuration that was asked for and has the store cleared
    /// first.
    pub fn request(payload: AdminConfigPayload) -> (answer: Result<
        (AdminResetGuard, ResetAction),
        AppError,
    >)
        ensures
            answer is Err <==> !payload.force_reset,
            answer is Err ==> answer == Err::<(AdminResetGuard, ResetAction), AppError>(
                AppError::SafetyGuardError,
            ) && Self::refusal(payload) == Some(AppError::SafetyGuardError),
            answer matches Ok(begun) ==> {
                &&& begun.0.valid()
                &&& begun.0.stage() == ResetStage::Clearing
                &&& begun.0.candidate() == Some(payload.config)
                &&& begun.1 == ResetAction::ClearStore
            },
    {
        if payload.force_reset {
            let guard = AdminResetGuard { progress: Progress::Clearing(payload.config) };
            Ok((guard, ResetAction::ClearStore))
        } else {
            Err(AppError::SafetyGuardError)
        }
    }

    /// Takes the outcome of the action that was handed out last and answers
    /// with the next one.
    pub fn advance(&mut self, outcome: Result<(), AppError>) -> (action: ResetAction)
        ensures
            final(self).valid(),
            old(self).moves_to(outcome, final(self), action),
    {
        let mut progress = Progress::Ended;
        core::mem::swap(&mut self.progress, &mut progress);
        match progress {
            Progress::Clearing(config) => match outcome {
                Ok(_) => {
                    let dim = config.embedding_dim;
                    self.progress = Progress::Indexing(config);
                    ResetAction::CreateIndexes { dim }
                },
                Err(error) => ResetAction::Abort { error },
            },
            Progress::Indexing(config) => match outcome {
                Ok(_) => {
                    self.progress = Progress::Applying;
                    ResetAction::Apply { config }
                },
                Err(error) => ResetAction::Abort { error },
            },
            Progress::Applying => match outcome {
                Ok(_) => ResetAction::Done,
                Err(error) => ResetAction::Abort { error },
            },
            Progress::Ended => ResetAction::Idle,
        }
    }

    /// The state of the guard.
    pub fn current_state(&self) -> (state: GuardState)
        ensures
            state == self.state(),
    {
        match self.progress {
            Progress::Ended => GuardState::Stable,
            _ => GuardState::Resetting,
        }
    }

    /// The answer to a reset that went through.
    pub fn success_message() -> (message: String)
        ensures
            message@ == reset_message(),
    {
        String::from_str("System reset and reconfigured successfully")
    }

    /// A request without the flag is forbidden, whatever it asks for.
    pub proof fn lemma_unforced_request_is_forbidden(payload: AdminConfigPayload)
        requires
            !payload.force_reset,
        ensures
            Self::refusal(payload) == Some(AppError::SafetyGuardError),
            Self::refusal(payload)->0.status() == 403,
    {
    }

    /// A reset clears the store, then makes the index for the dimension that
    /// was asked for, then hands out the configuration that was asked for,
    /// and ends well when that is in place.
    pub proof fn lemma_reset_in_order(
        payload: AdminConfigPayload,
        begun: &Self,
        indexing: &Self,
        applying: &Self,
        ended: &Self,
        second: ResetAction,
        third: ResetAction,
        last: ResetAction,
    )
        requires
            begun.stage() == ResetStage::Clearing,
            begun.candidate() == Some(payload.config),
            begun.moves_to(Ok(()), indexing, second),
            indexing.moves_to(Ok(()), applying, third),
            applying.moves_to(Ok(()), ended, last),
        ensures
            begun.state() == GuardState::Resetting,
            second == (ResetAction::CreateIndexes { dim: payload.config.embedding_dim }),
            indexing.state() == GuardState::Resetting,
            third == (ResetAction::Apply { config: payload.config }),
            applying.state() == GuardState::Resetting,
            last == ResetAction::Done,
            ended.state() == GuardState::Stable,
    {
    }

    /// After a reset that went through, the service reads back the
    /// configuration that was asked for, its dimension included.
    pub proof fn lemma_reset_replaces_configuration(
        payload: AdminConfigPayload,
        begun: &Self,
        indexing: &Self,
        applying: &Self,
        second: ResetAction,
        third: ResetAction,
        service: &RigAIService,
        updated: &RigAIService,
        answer: Result<(), AppError>,
    )
        requires
            begun.stage() == ResetStage::Clearing,
            begun.candidate() == Some(payload.config),
            begun.moves_to(Ok(()), indexing, second),
            indexing.moves_to(Ok(()), applying, third),
            third is Apply ==> service.updates_to(third->config, updated, answer),
        ensures
            answer is Ok,
            updated.config() == payload.config,
            updated.config().embedding_dim == payload.config.embedding_dim,
    {
    }

    /// The configuration that was asked for is handed out only when the
    /// store was cleared and the index made: a step that fails ends the reset
    /// with the failure, and no later step hands the configuration out.
    pub proof fn lemma_failure_keeps_configuration(
        before: &Self,
        outcome: Result<(), AppError>,
        after: &Self,
        action: ResetAction,
    )
        requires
            before.moves_to(outcome, after, action),
        ensures
            action is Apply <==> before.stage() == ResetStage::Indexing && outcome is Ok,
            outcome is Err && before.stage() != ResetStage::Ended ==> action == (
            ResetAction::Abort { error: outcome->Err_0 }) && after.state() == GuardState::Stable,
            before.stage() == ResetStage::Ended ==> action == ResetAction::Idle && after.stage()
                == ResetStage::Ended,
    {
    }
}

} // verus!
