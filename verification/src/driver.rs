//! The driver's sequencing, error taxonomy and exit-code policy.
//!
//! The driver decides in what order the run proceeds: the argument is
//! parsed before anything else, the models are loaded before the file
//! system is touched, the root is resolved before any directory is walked,
//! and any fatal error ends the run at once with a non-zero exit. Per-file
//! errors never reach here — the walker absorbs them.

use crate::config::Config;
use vstd::prelude::*;

verus! {

/// The errors that abort the entire run.
#[derive(Clone, Copy, Debug, PartialEq, Eq, Structural)]
pub enum FatalError {
    /// The single required positional argument (the root folder) is absent.
    MissingArgument,
    /// A model artifact is missing, unreadable or unparsable; nothing on the
    /// file-system target is touched.
    ModelLoad,
    /// The root path cannot be resolved, or a directory cannot be
    /// enumerated.
    PathResolution,
}

/// The process exit code for a run's outcome: zero exactly on normal
/// completion — even when individual files failed — and one on any fatal
/// error.
pub fn exit_code(outcome: &Result<(), FatalError>) -> (c: i32)
    ensures
        outcome is Ok <==> c == 0,
        outcome is Err <==> c == 1,
{
    match outcome {
        Ok(()) => 0,
        Err(_) => 1,
    }
}

/// Where a run stands. Each phase is entered only from the one before it,
/// so reaching a phase proves every earlier stage succeeded.
pub enum DriverPhase {
    /// Nothing has happened but reading the argument list.
    Parsing,
    /// The argument was accepted; the models load next. The file system
    /// target has not been touched.
    LoadingModels,
    /// The models are loaded; the root path resolves next. No directory has
    /// been walked.
    ResolvingRoot,
    /// The root resolved; the walk is running.
    Walking,
    /// The run is over, with this outcome.
    Finished(Result<(), FatalError>),
}

/// The run's controller: it hands out the next stage and takes each stage's
/// outcome back. A fatal outcome finishes the run on the spot, so a later
/// stage can never be asked for after an earlier one failed.
pub struct Driver {
    phase: DriverPhase,
}

impl View for Driver {
    type V = DriverPhase;

    closed spec fn view(&self) -> DriverPhase {
        self.phase
    }
}

impl Driver {
    /// A fresh run: nothing has been attempted.
    pub fn new() -> (d: Self)
        ensures
            d@ is Parsing,
    {
        Driver { phase: DriverPhase::Parsing }
    }

    /// Parses the argument list. Without the folder argument the run is
    /// over at once — no model is loaded and the file system is never
    /// touched; with it, model loading is the next stage.
    pub fn parse(&mut self, args: &[String]) -> (r: Option<Config>)
        requires
            old(self)@ is Parsing,
        ensures
            args@.len() < 2 ==> final(self)@ == DriverPhase::Finished(
                Err(FatalError::MissingArgument),
            ) && r is None,
            args@.len() >= 2 ==> final(self)@ is LoadingModels && (r matches Some(c)
                && c.foldername@ == args@[1]@),
    {
        match Config::new(args) {
            Ok(config) => {
                self.phase = DriverPhase::LoadingModels;
                Some(config)
            },
            Err(_) => {
                self.phase = DriverPhase::Finished(Err(FatalError::MissingArgument));
                None
            },
        }
    }

    /// Takes the model-loading outcome. A failure is fatal before any
    /// directory traversal begins; success moves on to resolving the root.
    pub fn models_loaded(&mut self, ok: bool)
        requires
            old(self)@ is LoadingModels,
        ensures
            ok ==> final(self)@ is ResolvingRoot,
            !ok ==> final(self)@ == DriverPhase::Finished(Err(FatalError::ModelLoad)),
    {
        if ok {
            self.phase = DriverPhase::ResolvingRoot;
        } else {
            self.phase = DriverPhase::Finished(Err(FatalError::ModelLoad));
        }
    }

    /// Takes the root-resolution outcome. A failure is fatal before any
    /// entry is visited; success starts the walk.
    pub fn root_resolved(&mut self, ok: bool)
        requires
            old(self)@ is ResolvingRoot,
        ensures
            ok ==> final(self)@ is Walking,
            !ok ==> final(self)@ == DriverPhase::Finished(Err(FatalError::PathResolution)),
    {
        if ok {
            self.phase = DriverPhase::Walking;
        } else {
            self.phase = DriverPhase::Finished(Err(FatalError::PathResolution));
        }
    }

    /// Takes the walk's outcome: normal completion exits zero even when
    /// individual files failed; a directory that would not enumerate is
    /// fatal.
    pub fn walk_finished(&mut self, enumeration_failed: bool)
        requires
            old(self)@ is Walking,
        ensures
            !enumeration_failed ==> final(self)@ == DriverPhase::Finished(Ok(())),
            enumeration_failed ==> final(self)@ == DriverPhase::Finished(
                Err(FatalError::PathResolution),
            ),
    {
        if enumeration_failed {
            self.phase = DriverPhase::Finished(Err(FatalError::PathResolution));
        } else {
            self.phase = DriverPhase::Finished(Ok(()));
        }
    }

    /// The finished run's outcome, for the exit code.
    pub fn outcome(&self) -> (r: Result<(), FatalError>)
        requires
            self@ is Finished,
        ensures
            self@ == DriverPhase::Finished(r),
    {
        match &self.phase {
            DriverPhase::Finished(outcome) => *outcome,
            _ => {
                proof {
                    assert(false);
                }
                Err(FatalError::PathResolution)
            },
        }
    }
}

} // verus!
