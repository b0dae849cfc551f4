//! The cross-store transaction coordinator.
//!
//! One transaction per store, held open for the whole run. There is no real
//! two-phase commit: the commands are issued target first, then source, and
//! a fault between the two can leave one store committed and the other not —
//! an accepted, documented gap. In dry-run mode no transaction is ever
//! opened, committed or rolled back: every command list is empty.

use vstd::prelude::*;

verus! {

/// Which of the two stores a command addresses.
#[derive(Debug, Clone, Copy, PartialEq, Eq, Structural)]
pub enum StoreRole {
    Target,
    Source,
}

/// A transaction-demarcation command for one store.
#[derive(Debug, Clone, Copy, PartialEq, Eq, Structural)]
pub enum TxnAction {
    Begin,
    Commit,
    Rollback,
}

/// One command to issue against one store, in list order.
#[derive(Debug, Clone, Copy, PartialEq, Eq, Structural)]
pub struct StoreCommand {
    pub store: StoreRole,
    pub action: TxnAction,
}

/// Where the coordinated session stands.
#[derive(Debug, Clone, Copy, PartialEq, Eq, Structural)]
pub enum TxnState {
    NotStarted,
    Open,
    Committed,
    RolledBack,
}

/// The commands that opening the session issues: one `Begin` per store,
/// target first; none in dry-run.
pub open spec fn begin_commands(dry_run: bool) -> Seq<StoreCommand> {
    if dry_run {
        Seq::empty()
    } else {
        seq![
            StoreCommand { store: StoreRole::Target, action: TxnAction::Begin },
            StoreCommand { store: StoreRole::Source, action: TxnAction::Begin },
        ]
    }
}

/// The commands that committing issues: target first, then source; none in
/// dry-run.
pub open spec fn commit_commands(dry_run: bool) -> Seq<StoreCommand> {
    if dry_run {
        Seq::empty()
    } else {
        seq![
            StoreCommand { store: StoreRole::Target, action: TxnAction::Commit },
            StoreCommand { store: StoreRole::Source, action: TxnAction::Commit },
        ]
    }
}

/// The commands that rolling back issues: target first, then source; none in
/// dry-run.
pub open spec fn rollback_commands(dry_run: bool) -> Seq<StoreCommand> {
    if dry_run {
        Seq::empty()
    } else {
        seq![
            StoreCommand { store: StoreRole::Target, action: TxnAction::Rollback },
            StoreCommand { store: StoreRole::Source, action: TxnAction::Rollback },
        ]
    }
}

/// Coordinates one transaction per store across the run, without real
/// atomicity. The caller issues the returned commands in order.
pub struct TxnCoordinator {
    state: TxnState,
    dry_run: bool,
}

impl TxnCoordinator {
    /// Where the session stands.
    pub closed spec fn state(self) -> TxnState {
        self.state
    }

    /// Whether the session is a dry run.
    pub closed spec fn is_dry_run(self) -> bool {
        self.dry_run
    }

    /// A session that has not started.
    pub fn new(dry_run: bool) -> (r: Self)
        ensures
            r.state() is NotStarted,
            r.is_dry_run() == dry_run,
    {
        TxnCoordinator { state: TxnState::NotStarted, dry_run }
    }

    /// Opens the session: one transaction per store, or none in dry-run.
    pub fn begin(&mut self) -> (cmds: Vec<StoreCommand>)
        requires
            old(self).state() is NotStarted,
        ensures
            final(self).state() is Open,
            final(self).is_dry_run() == old(self).is_dry_run(),
            cmds@ == begin_commands(old(self).is_dry_run()),
    {
        self.state = TxnState::Open;
        let mut cmds: Vec<StoreCommand> = Vec::new();
        if !self.dry_run {
            cmds.push(StoreCommand { store: StoreRole::Target, action: TxnAction::Begin });
            cmds.push(StoreCommand { store: StoreRole::Source, action: TxnAction::Begin });
        }
        proof {
            assert(cmds@ =~= begin_commands(self.dry_run));
        }
        cmds
    }

    /// Commits the target store's transaction, then the source store's; the
    /// order matters only for error reporting, not atomicity.
    pub fn commit(&mut self) -> (cmds: Vec<StoreCommand>)
        requires
            old(self).state() is Open,
        ensures
            final(self).state() is Committed,
            final(self).is_dry_run() == old(self).is_dry_run(),
            cmds@ == commit_commands(old(self).is_dry_run()),
    {
        self.state = TxnState::Committed;
        let mut cmds: Vec<StoreCommand> = Vec::new();
        if !self.dry_run {
            cmds.push(StoreCommand { store: StoreRole::Target, action: TxnAction::Commit });
            cmds.push(StoreCommand { store: StoreRole::Source, action: TxnAction::Commit });
        }
        proof {
            assert(cmds@ =~= commit_commands(self.dry_run));
        }
        cmds
    }

    /// Rolls back both stores' transactions, target first.
    pub fn rollback(&mut self) -> (cmds: Vec<StoreCommand>)
        requires
            old(self).state() is Open,
        ensures
            final(self).state() is RolledBack,
            final(self).is_dry_run() == old(self).is_dry_run(),
            cmds@ == rollback_commands(old(self).is_dry_run()),
    {
        self.state = TxnState::RolledBack;
        let mut cmds: Vec<StoreCommand> = Vec::new();
        if !self.dry_run {
            cmds.push(StoreCommand { store: StoreRole::Target, action: TxnAction::Rollback });
            cmds.push(StoreCommand { store: StoreRole::Source, action: TxnAction::Rollback });
        }
        proof {
            assert(cmds@ =~= rollback_commands(self.dry_run));
        }
        cmds
    }
}

/// Law: a dry run never opens a transaction that could be committed — no
/// command at all is issued at any stage of a dry session.
pub proof fn lemma_dry_run_issues_nothing()
    ensures
        begin_commands(true) == Seq::<StoreCommand>::empty(),
        commit_commands(true) == Seq::<StoreCommand>::empty(),
        rollback_commands(true) == Seq::<StoreCommand>::empty(),
{
}

} // verus!
