use clippy_core::input_tools::{
    command_args, is_wayland, paste_chord_fallback_tools, type_text_tools, InputTool, RunAction,
    ToolRun,
};
use clippy_core::migration::{paste_on_select_default, Migration, SchemaChange, Settings};
use clippy_core::enums::PasteOnSelect;

fn describe(tools: &[InputTool]) -> Vec<(String, Vec<String>)> {
    tools.iter().map(|t| (t.program.clone(), t.args.clone())).collect()
}

fn owned(program: &str, args: &[&str]) -> (String, Vec<String>) {
    (program.to_string(), args.iter().map(|a| a.to_string()).collect())
}

#[test]
fn wayland_detection() {
    assert!(is_wayland(true, None));
    assert!(is_wayland(true, Some("x11")));
    assert!(is_wayland(false, Some("wayland")));
    assert!(is_wayland(false, Some("Wayland")));
    assert!(is_wayland(false, Some("WAYLAND")));
    assert!(!is_wayland(false, Some("x11")));
    assert!(!is_wayland(false, Some("wayland2")));
    assert!(!is_wayland(false, None));
}

#[test]
fn paste_fallback_tools() {
    assert_eq!(
        describe(&paste_chord_fallback_tools(true)),
        vec![
            owned("wtype", &["-M", "ctrl", "v", "-m", "ctrl"]),
            owned("ydotool", &["key", "29:1", "47:1", "47:0", "29:0"]),
        ]
    );
    assert_eq!(
        describe(&paste_chord_fallback_tools(false)),
        vec![
            owned("xdotool", &["key", "--clearmodifiers", "ctrl+v"]),
            owned("wtype", &["-M", "ctrl", "v", "-m", "ctrl"]),
        ]
    );
}

#[test]
fn typing_tools() {
    assert_eq!(
        describe(&type_text_tools(true)),
        vec![owned("wtype", &["--"]), owned("ydotool", &["type", "--"])]
    );
    assert_eq!(
        describe(&type_text_tools(false)),
        vec![owned("xdotool", &["type", "--clearmodifiers", "--"]), owned("wtype", &["--"])]
    );
}

#[test]
fn trailing_argument_is_appended() {
    let tools = type_text_tools(false);
    assert_eq!(
        command_args(&tools[0], Some("-n hi")),
        vec!["type", "--clearmodifiers", "--", "-n hi"]
    );
    let tools = paste_chord_fallback_tools(false);
    assert_eq!(command_args(&tools[0], None), vec!["key", "--clearmodifiers", "ctrl+v"]);
}

#[test]
fn tools_tried_in_order_until_success() {
    let (run, action) = ToolRun::start(2);
    assert_eq!(action, RunAction::Run(0));
    let (run, action) = run.step(false);
    assert_eq!(action, RunAction::Run(1));
    let (_, action) = run.step(true);
    assert_eq!(action, RunAction::Finish(true));
}

#[test]
fn all_tools_failing_reports_failure() {
    let (run, _) = ToolRun::start(2);
    let (run, _) = run.step(false);
    let (_, action) = run.step(false);
    assert_eq!(action, RunAction::Finish(false));
    let (_, action) = ToolRun::start(0);
    assert_eq!(action, RunAction::Finish(false));
    let (run, _) = ToolRun::start(3);
    let (_, action) = run.step(true);
    assert_eq!(action, RunAction::Finish(true));
}

#[test]
fn migration_up_adds_two_columns() {
    let changes = Migration.up();
    assert_eq!(changes.len(), 2);
    match &changes[0] {
        SchemaChange::AddColumn { table, column, nullable, default } => {
            assert_eq!(*table, Settings::Table);
            assert_eq!(*column, Settings::PasteOnSelect);
            assert!(!nullable);
            assert_eq!(default.as_deref(), Some("off"));
        }
        _ => panic!("expected an added column"),
    }
    match &changes[1] {
        SchemaChange::AddColumn { table, column, nullable, default } => {
            assert_eq!(*table, Settings::Table);
            assert_eq!(*column, Settings::PasteRestoreToken);
            assert!(*nullable);
            assert!(default.is_none());
        }
        _ => panic!("expected an added column"),
    }
}

#[test]
fn migration_down_drops_what_up_added() {
    let up = Migration.up();
    let down = Migration.down();
    assert_eq!(up.len(), down.len());
    for (a, d) in up.iter().zip(down.iter()) {
        match (a, d) {
            (
                SchemaChange::AddColumn { table: t1, column: c1, .. },
                SchemaChange::DropColumn { table: t2, column: c2 },
            ) => {
                assert_eq!(t1, t2);
                assert_eq!(c1, c2);
            }
            _ => panic!("expected add then drop"),
        }
    }
}

#[test]
fn migration_identifiers() {
    assert_eq!(Settings::Table.to_string(), "settings");
    assert_eq!(Settings::PasteOnSelect.to_string(), "paste_on_select");
    assert_eq!(Settings::PasteRestoreToken.to_string(), "paste_restore_token");
    assert_eq!(paste_on_select_default(), "off");
    assert_eq!(PasteOnSelect::from_setting(&paste_on_select_default()), PasteOnSelect::Off);
}

use clippy_core::migration::{MigrationAction, MigrationRun};

#[test]
fn migration_run_stops_at_first_failure() {
    let (run, action) = MigrationRun::start(2);
    assert_eq!(action, MigrationAction::Run(0));
    let (_, action) = run.step(false);
    assert_eq!(action, MigrationAction::Failed(0));
    let (run, _) = MigrationRun::start(2);
    let (run, action) = run.step(true);
    assert_eq!(action, MigrationAction::Run(1));
    let (_, action) = run.step(false);
    assert_eq!(action, MigrationAction::Failed(1));
}

#[test]
fn migration_run_succeeds_when_all_succeed() {
    let (run, _) = MigrationRun::start(2);
    let (run, _) = run.step(true);
    let (_, action) = run.step(true);
    assert_eq!(action, MigrationAction::Done);
    let (_, action) = MigrationRun::start(0);
    assert_eq!(action, MigrationAction::Done);
}
