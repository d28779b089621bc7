//! The settings migration that adds the paste-on-select columns. The schema
//! manager runs the changes, one column per ALTER TABLE since SQLite supports
//! only one, stopping at the first that fails.
use vstd::prelude::*;
use crate::enums::{PasteOnSelect, spec_from_setting};

verus! {

/// The settings table and the columns this migration touches.
#[derive(Clone, Copy, Debug, PartialEq, Eq, Structural)]
pub enum Settings {
    Table,
    PasteOnSelect,
    PasteRestoreToken,
}

impl Settings {
    /// The identifier in the schema.
    pub open spec fn spec_name(self) -> Seq<char> {
        match self {
            Settings::Table => "settings"@,
            Settings::PasteOnSelect => "paste_on_select"@,
            Settings::PasteRestoreToken => "paste_restore_token"@,
        }
    }

    /// The identifier in the schema.
    pub fn to_string(&self) -> (s: String)
        ensures
            s@ == self.spec_name(),
    {
        match self {
            Settings::Table => String::from_str("settings"),
            Settings::PasteOnSelect => String::from_str("paste_on_select"),
            Settings::PasteRestoreToken => String::from_str("paste_restore_token"),
        }
    }
}

/// The default of the paste-on-select column: "off" keeps the pre-existing
/// copy-only behaviour for anyone upgrading.
pub fn paste_on_select_default() -> (s: String)
    ensures
        s@ == PasteOnSelect::Off.spec_name(),
{
    PasteOnSelect::Off.to_string()
}

/// One change to the schema.
pub enum SchemaChange {
    /// Add a string column to a table; a column that is not nullable may
    /// carry a default.
    AddColumn { table: Settings, column: Settings, nullable: bool, default: Option<String> },
    /// Drop a column from a table.
    DropColumn { table: Settings, column: Settings },
}

/// A schema change with its default as characters.
pub enum SchemaChangeView {
    AddColumn { table: Settings, column: Settings, nullable: bool, default: Option<Seq<char>> },
    DropColumn { table: Settings, column: Settings },
}

impl View for SchemaChange {
    type V = SchemaChangeView;

    open spec fn view(&self) -> SchemaChangeView {
        match *self {
            SchemaChange::AddColumn { table, column, nullable, default } => SchemaChangeView::AddColumn {
                table,
                column,
                nullable,
                default: match default {
                    Some(d) => Some(d@),
                    None => None,
                },
            },
            SchemaChange::DropColumn { table, column } => SchemaChangeView::DropColumn { table, column },
        }
    }
}

/// The views of a list of changes.
pub open spec fn spec_changes(v: Seq<SchemaChange>) -> Seq<SchemaChangeView> {
    v.map_values(|c: SchemaChange| c@)
}

/// Applying the migration: add the paste-on-select column (not null, default
/// "off"), then the nullable column for the token that the RemoteDesktop
/// portal hands back so Wayland users approve input simulation once instead
/// of on every paste.
pub open spec fn spec_up() -> Seq<SchemaChangeView> {
    seq![
        SchemaChangeView::AddColumn {
            table: Settings::Table,
            column: Settings::PasteOnSelect,
            nullable: false,
            default: Some(PasteOnSelect::Off.spec_name()),
        },
        SchemaChangeView::AddColumn {
            table: Settings::Table,
            column: Settings::PasteRestoreToken,
            nullable: true,
            default: None,
        },
    ]
}

/// Reverting the migration: drop both columns, in the order they were added.
pub open spec fn spec_down() -> Seq<SchemaChangeView> {
    seq![
        SchemaChangeView::DropColumn { table: Settings::Table, column: Settings::PasteOnSelect },
        SchemaChangeView::DropColumn { table: Settings::Table, column: Settings::PasteRestoreToken },
    ]
}

/// The migration that adds the paste-on-select settings.
#[derive(Clone, Copy, Debug, PartialEq, Eq, Structural)]
pub struct Migration;

impl Migration {
    /// The changes that apply the migration, in order.
    pub fn up(&self) -> (changes: Vec<SchemaChange>)
        ensures
            spec_changes(changes@) == spec_up(),
    {
        let changes = vec![
            SchemaChange::AddColumn {
                table: Settings::Table,
                column: Settings::PasteOnSelect,
                nullable: false,
                default: Some(paste_on_select_default()),
            },
            SchemaChange::AddColumn {
                table: Settings::Table,
                column: Settings::PasteRestoreToken,
                nullable: true,
                default: None,
            },
        ];
        assert(spec_changes(changes@) =~= spec_up());
        changes
    }

    /// The changes that revert the migration, in order.
    pub fn down(&self) -> (changes: Vec<SchemaChange>)
        ensures
            spec_changes(changes@) == spec_down(),
    {
        let changes = vec![
            SchemaChange::DropColumn { table: Settings::Table, column: Settings::PasteOnSelect },
            SchemaChange::DropColumn { table: Settings::Table, column: Settings::PasteRestoreToken },
        ];
        assert(spec_changes(changes@) =~= spec_down());
        changes
    }
}

/// Running a list of changes in order, one ALTER TABLE each.
#[derive(Clone, Copy, Debug, PartialEq, Eq, Structural)]
pub struct MigrationRun {
    /// The index of the change being run.
    pub current: usize,
    /// How many changes there are.
    pub count: usize,
}

/// What the caller is asked to do next.
#[derive(Clone, Copy, Debug, PartialEq, Eq, Structural)]
pub enum MigrationAction {
    /// Run the change with this index and report whether it succeeded.
    Run(usize),
    /// Stop: every change succeeded.
    Done,
    /// Stop: the change with this index failed, and its error is what the
    /// migration gives back.
    Failed(usize),
}

/// The transition of a migration run, given whether the current change succeeded.
pub open spec fn spec_migration_step(run: MigrationRun, succeeded: bool) -> (MigrationRun, MigrationAction) {
    if !succeeded {
        (run, MigrationAction::Failed(run.current))
    } else if run.current + 1 < run.count {
        (
            MigrationRun { current: (run.current + 1) as usize, count: run.count },
            MigrationAction::Run((run.current + 1) as usize),
        )
    } else {
        (run, MigrationAction::Done)
    }
}

impl MigrationRun {
    /// Begins running `count` changes, first to last.
    pub fn start(count: usize) -> (r: (MigrationRun, MigrationAction))
        ensures
            r.0 == (MigrationRun { current: 0, count }),
            r.1 == (if count == 0 {
                MigrationAction::Done
            } else {
                MigrationAction::Run(0)
            }),
    {
        let run = MigrationRun { current: 0, count };
        if count == 0 {
            (run, MigrationAction::Done)
        } else {
            (run, MigrationAction::Run(0))
        }
    }

    /// One step, given whether the current change succeeded: a failure ends
    /// the run with that change's error and nothing after it is run; a
    /// success goes on to the next change, or ends the run once every change
    /// succeeded.
    pub fn step(self, succeeded: bool) -> (r: (MigrationRun, MigrationAction))
        ensures
            r == spec_migration_step(self, succeeded),
    {
        if !succeeded {
            (self, MigrationAction::Failed(self.current))
        } else if self.current < self.count && self.current + 1 < self.count {
            let next = self.current + 1;
            (MigrationRun { current: next, count: self.count }, MigrationAction::Run(next))
        } else {
            (self, MigrationAction::Done)
        }
    }
}

/// The actions a sequence of reports leads to, one per report, from `run` on.
pub open spec fn spec_migration_trace(run: MigrationRun, reports: Seq<bool>) -> Seq<MigrationAction>
    decreases reports.len(),
{
    if reports.len() == 0 {
        Seq::empty()
    } else {
        let (next, action) = spec_migration_step(run, reports[0]);
        seq![action] + spec_migration_trace(next, reports.drop_first())
    }
}

/// Changes run in order and stop at the first failure: the change asked for
/// after a success is the next one; a failure ends the run with the error of
/// the change that failed; success is reported only after the last change succeeded.
pub proof fn lemma_migration_stops_at_failure(run: MigrationRun, succeeded: bool)
    requires
        run.current < run.count,
    ensures
        !succeeded ==> spec_migration_step(run, succeeded).1 == MigrationAction::Failed(run.current as usize),
        spec_migration_step(run, succeeded).1 matches MigrationAction::Run(i) ==> succeeded && i
            == run.current + 1 && i < run.count && spec_migration_step(run, succeeded).0.current == i,
        spec_migration_step(run, succeeded).1 == MigrationAction::Done ==> succeeded
            && run.current + 1 == run.count,
        succeeded && run.current + 1 < run.count ==> spec_migration_step(run, succeeded) == (
            MigrationRun { current: (run.current + 1) as usize, count: run.count },
            MigrationAction::Run((run.current + 1) as usize),
        ),
        succeeded && run.current + 1 == run.count ==> spec_migration_step(run, succeeded).1
            == MigrationAction::Done,
{
}

/// Over the reports of a whole run from the start: after a failure at step
/// `k`, nothing more is run, since the run has ended with that change's error.
pub proof fn lemma_nothing_after_failure(count: usize, reports: Seq<bool>, k: int)
    requires
        0 <= k < reports.len(),
        !reports[k],
        forall|j: int| 0 <= j < k ==> reports[j],
        k < count,
    ensures
        spec_migration_trace(MigrationRun { current: 0, count }, reports)[k]
            == MigrationAction::Failed(k as usize),
{
    lemma_trace_from(MigrationRun { current: 0, count }, reports, k);
}

proof fn lemma_trace_from(run: MigrationRun, reports: Seq<bool>, k: int)
    requires
        0 <= k < reports.len(),
        !reports[k],
        forall|j: int| 0 <= j < k ==> reports[j],
        run.current + k < run.count,
    ensures
        spec_migration_trace(run, reports)[k] == MigrationAction::Failed((run.current + k) as usize),
    decreases k,
{
    let (next, action) = spec_migration_step(run, reports[0]);
    if k > 0 {
        let rest = reports.drop_first();
        assert forall|j: int| 0 <= j < k - 1 implies rest[j] by {
            assert(rest[j] == reports[j + 1]);
        }
        lemma_trace_from(next, rest, k - 1);
        lemma_migration_trace_len(next, rest);
        assert(spec_migration_trace(run, reports) == seq![action] + spec_migration_trace(next, rest));
        assert(spec_migration_trace(run, reports)[k] == spec_migration_trace(next, rest)[k - 1]);
    } else {
        assert(spec_migration_trace(run, reports)[0] == action);
    }
}

proof fn lemma_migration_trace_len(run: MigrationRun, reports: Seq<bool>)
    ensures
        spec_migration_trace(run, reports).len() == reports.len(),
    decreases reports.len(),
{
    if reports.len() > 0 {
        let (next, action) = spec_migration_step(run, reports[0]);
        lemma_migration_trace_len(next, reports.drop_first());
    }
}

/// The table and column a change adds, if it adds one.
pub open spec fn spec_added(c: SchemaChangeView) -> Option<(Settings, Settings)> {
    match c {
        SchemaChangeView::AddColumn { table, column, .. } => Some((table, column)),
        _ => None,
    }
}

/// The table and column a change drops, if it drops one.
pub open spec fn spec_dropped(c: SchemaChangeView) -> Option<(Settings, Settings)> {
    match c {
        SchemaChangeView::DropColumn { table, column } => Some((table, column)),
        _ => None,
    }
}

/// Reverting undoes applying: the migration down drops exactly the columns
/// the migration up adds, each once, and touches nothing else; every step
/// changes a single column; and the added paste-on-select default reads back
/// as the mode Off.
pub proof fn lemma_down_undoes_up()
    ensures
        spec_up().len() == spec_down().len(),
        forall|i: int|
            0 <= i < spec_up().len() ==> spec_added(#[trigger] spec_up()[i]) is Some && spec_added(
                spec_up()[i],
            ) == spec_dropped(spec_down()[i]),
        forall|i: int, j: int|
            0 <= i < j < spec_up().len() ==> spec_added(spec_up()[i]) != spec_added(spec_up()[j]),
        spec_up()[0] matches SchemaChangeView::AddColumn { default: Some(d), .. }
            && spec_from_setting(d) == PasteOnSelect::Off,
{
    reveal_strlit("off");
    reveal_strlit("paste");
    reveal_strlit("type");
    assert("off"@.len() == 3 && "paste"@.len() == 5 && "type"@.len() == 4);
    assert(spec_added(spec_up()[0]) != spec_added(spec_up()[1]));
}

} // verus!
