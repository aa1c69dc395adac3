//! Bootstrap of the embedded store: the decisions between the steps of
//! opening a store file and applying its schema. The caller performs each
//! action on the file system and the store, and reports back what happened.
use vstd::prelude::*;

verus! {

/// The schema, written to be safe to apply to a store that already has it.
pub const INIT_SCRIPT: &'static str = "CREATE TABLE IF NOT EXISTS users (username TEXT NOT NULL UNIQUE, password_hash TEXT NOT NULL, salt TEXT NOT NULL, permissions INTEGER NOT NULL)";

/// Why a store could not be opened, by the step that failed.
#[derive(Debug, Clone, Copy, PartialEq, Eq, Structural)]
pub enum StoreError {
    /// The path is empty: rejected before anything is touched.
    EmptyPath,
    /// The missing store file could not be created.
    CreateFile,
    /// No connection to the store could be opened.
    Open,
    /// The schema script failed.
    Init,
}

/// Where a bootstrap stands.
#[derive(Debug, Clone, Copy, PartialEq, Eq, Structural)]
pub enum BootPhase {
    /// Waiting to learn whether the store file exists.
    Probing,
    /// Waiting for the empty store file to be created.
    Creating,
    /// Waiting for a connection to be opened.
    Opening,
    /// Waiting for the schema script to run.
    Initializing,
    /// The store is open and its schema applied.
    Ready,
    /// The bootstrap has failed, for good.
    Failed(StoreError),
}

/// What the caller is to do next.
#[derive(Debug, Clone, Copy, PartialEq, Eq, Structural)]
pub enum BootAction {
    /// Find out whether a file exists at the path.
    CheckFile,
    /// Create an empty file at the path.
    CreateFile,
    /// Open a connection to the store at the path.
    OpenConnection,
    /// Run `INIT_SCRIPT` on the connection.
    RunScript,
    /// Hand the open connection out.
    Finish,
    /// Give up with this error.
    Abort(StoreError),
}

/// What the caller reports after performing an action.
#[derive(Debug, Clone, Copy, PartialEq, Eq, Structural)]
pub enum BootEvent {
    FileChecked { exists: bool },
    FileCreated { ok: bool },
    ConnectionOpened { ok: bool },
    ScriptRan { ok: bool },
}

/// The action that a phase waits on.
pub open spec fn pending_action(p: BootPhase) -> BootAction {
    match p {
        BootPhase::Probing => BootAction::CheckFile,
        BootPhase::Creating => BootAction::CreateFile,
        BootPhase::Opening => BootAction::OpenConnection,
        BootPhase::Initializing => BootAction::RunScript,
        BootPhase::Ready => BootAction::Finish,
        BootPhase::Failed(e) => BootAction::Abort(e),
    }
}

/// The phase that an event leads to. An event that does not answer the
/// phase's pending action changes nothing.
pub open spec fn next_phase(p: BootPhase, e: BootEvent) -> BootPhase {
    match (p, e) {
        (BootPhase::Probing, BootEvent::FileChecked { exists }) => if exists {
            BootPhase::Opening
        } else {
            BootPhase::Creating
        },
        (BootPhase::Creating, BootEvent::FileCreated { ok }) => if ok {
            BootPhase::Opening
        } else {
            BootPhase::Failed(StoreError::CreateFile)
        },
        (BootPhase::Opening, BootEvent::ConnectionOpened { ok }) => if ok {
            BootPhase::Initializing
        } else {
            BootPhase::Failed(StoreError::Open)
        },
        (BootPhase::Initializing, BootEvent::ScriptRan { ok }) => if ok {
            BootPhase::Ready
        } else {
            BootPhase::Failed(StoreError::Init)
        },
        _ => p,
    }
}

/// One bootstrap of a store at one path.
pub struct Bootstrap {
    pub phase: BootPhase,
}

impl Bootstrap {
    /// Starts a bootstrap. An empty path fails at once, before any action on
    /// the file system; any other path begins by checking for the file.
    pub fn start(path: &str) -> (r: (Bootstrap, BootAction))
        ensures
            path@.len() == 0 ==> r.0.phase == BootPhase::Failed(StoreError::EmptyPath),
            path@.len() != 0 ==> r.0.phase == BootPhase::Probing,
            r.1 == pending_action(r.0.phase),
    {
        if path.is_empty() {
            (
                Bootstrap { phase: BootPhase::Failed(StoreError::EmptyPath) },
                BootAction::Abort(StoreError::EmptyPath),
            )
        } else {
            (Bootstrap { phase: BootPhase::Probing }, BootAction::CheckFile)
        }
    }

    /// Takes in what came of the last action and returns the next one.
    pub fn step(&mut self, event: BootEvent) -> (r: BootAction)
        ensures
            final(self).phase == next_phase(old(self).phase, event),
            r == pending_action(final(self).phase),
    {
        let next = match (self.phase, event) {
            (BootPhase::Probing, BootEvent::FileChecked { exists }) => if exists {
                BootPhase::Opening
            } else {
                BootPhase::Creating
            },
            (BootPhase::Creating, BootEvent::FileCreated { ok }) => if ok {
                BootPhase::Opening
            } else {
                BootPhase::Failed(StoreError::CreateFile)
            },
            (BootPhase::Opening, BootEvent::ConnectionOpened { ok }) => if ok {
                BootPhase::Initializing
            } else {
                BootPhase::Failed(StoreError::Open)
            },
            (BootPhase::Initializing, BootEvent::ScriptRan { ok }) => if ok {
                BootPhase::Ready
            } else {
                BootPhase::Failed(StoreError::Init)
            },
            (p, _) => p,
        };
        self.phase = next;
        match next {
            BootPhase::Probing => BootAction::CheckFile,
            BootPhase::Creating => BootAction::CreateFile,
            BootPhase::Opening => BootAction::OpenConnection,
            BootPhase::Initializing => BootAction::RunScript,
            BootPhase::Ready => BootAction::Finish,
            BootPhase::Failed(e) => BootAction::Abort(e),
        }
    }
}

/// The phase reached after a sequence of events, in order.
pub open spec fn run(p: BootPhase, events: Seq<BootEvent>) -> BootPhase
    decreases events.len(),
{
    if events.len() == 0 {
        p
    } else {
        run(next_phase(p, events[0]), events.drop_first())
    }
}

/// The phases at or past opening the connection.
pub open spec fn past_creation(p: BootPhase) -> bool {
    match p {
        BootPhase::Probing | BootPhase::Creating => false,
        _ => true,
    }
}

proof fn lemma_past_creation_kept(p: BootPhase, events: Seq<BootEvent>)
    requires
        past_creation(p),
    ensures
        past_creation(run(p, events)),
    decreases events.len(),
{
    if events.len() > 0 {
        lemma_past_creation_kept(next_phase(p, events[0]), events.drop_first());
    }
}

/// A bootstrap that was refused for an empty path stays refused whatever is
/// reported to it, and never asks for any action but giving up.
pub proof fn lemma_empty_path_touches_nothing(events: Seq<BootEvent>)
    ensures
        run(BootPhase::Failed(StoreError::EmptyPath), events) == BootPhase::Failed(
            StoreError::EmptyPath,
        ),
        pending_action(run(BootPhase::Failed(StoreError::EmptyPath), events)) == BootAction::Abort(
            StoreError::EmptyPath,
        ),
    decreases events.len(),
{
    if events.len() > 0 {
        lemma_empty_path_touches_nothing(events.drop_first());
    }
}

/// Once the store file has been found, no later report leads the bootstrap
/// to ask for the file to be created: an existing store is opened as it is.
pub proof fn lemma_existing_file_not_recreated(events: Seq<BootEvent>)
    ensures
        pending_action(
            run(BootPhase::Probing, seq![BootEvent::FileChecked { exists: true }] + events),
        ) != BootAction::CreateFile,
{
    let all = seq![BootEvent::FileChecked { exists: true }] + events;
    assert(all.drop_first() =~= events);
    lemma_past_creation_kept(BootPhase::Opening, events);
}

} // verus!
