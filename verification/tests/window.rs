use luau_format_gui::app::{Action, Event, MyApp, SaveResult};
use luau_format_gui::cell::HandoffCell;
use luau_format_gui::options::{Argument, FormatFlag, FormatOptions, Invocation};
use luau_format_gui::outcome::{FormatOutcome, ProcessResult};
use std::path::PathBuf;

fn run_of(program: &str, path: &str, flags: &[FormatFlag]) -> Action {
    let mut args = vec![Argument::Path(PathBuf::from(path))];
    for flag in flags {
        args.push(Argument::Flag(*flag));
    }
    Action::RunFormatter(Invocation { program: program.to_string(), args })
}

fn exited(success: bool, stdout: &str, stderr: &str) -> Event {
    Event::FormatterFinished(ProcessResult::Exited {
        success,
        stdout: stdout.as_bytes().to_vec(),
        stderr: stderr.as_bytes().to_vec(),
    })
}

fn with_file(path: &str) -> MyApp {
    let mut app = MyApp::new("luau-format".to_string());
    assert_eq!(app.update(Event::OpenClicked), Action::OpenDialog);
    app.update(Event::OpenDialogClosed(Some(PathBuf::from(path))));
    app
}

#[test]
fn fresh_state_is_empty() {
    let app = MyApp::new("luau-format".to_string());
    assert_eq!(app.binary_path(), "luau-format");
    assert_eq!(app.error(), &None);
    assert_eq!(app.input_file(), &None);
    assert!(!app.is_opening_input());
    assert!(!app.is_opening_output());
    assert_eq!(app.formatted_code(), "");
    assert_eq!(app.editor_code(), "");
    assert_eq!(app.options(), FormatOptions::new());
    assert_eq!(app.visible_error(), None);
    assert_eq!(app.run_binary(), Action::Nothing);
}

#[test]
fn selecting_a_file_runs_the_formatter_and_fills_the_editor() {
    let mut app = MyApp::new("luau-format".to_string());
    assert_eq!(app.update(Event::OpenClicked), Action::OpenDialog);
    assert!(app.is_opening_input());
    let action = app.update(Event::OpenDialogClosed(Some(PathBuf::from("test.lua"))));
    assert_eq!(action, run_of("luau-format", "test.lua", &[]));
    assert!(!app.is_opening_input());
    assert_eq!(app.input_file(), &Some(PathBuf::from("test.lua")));
    assert_eq!(app.update(exited(true, "local x = 1", "")), Action::Nothing);
    assert_eq!(app.editor_code(), "local x = 1");
    assert_eq!(app.formatted_code(), "local x = 1");
    assert_eq!(app.visible_error(), None);
}

#[test]
fn toggling_minify_runs_again_with_the_switch() {
    let mut app = with_file("test.lua");
    app.update(exited(true, "local x = 1", ""));
    let action = app.update(Event::OptionClicked(FormatFlag::Minify));
    assert_eq!(action, run_of("luau-format", "test.lua", &[FormatFlag::Minify]));
    assert!(app.options().minify);
    let action = app.update(Event::OptionClicked(FormatFlag::Minify));
    assert_eq!(action, run_of("luau-format", "test.lua", &[]));
    assert!(!app.options().minify);
}

#[test]
fn toggling_without_a_file_runs_nothing() {
    let mut app = MyApp::new("luau-format".to_string());
    assert_eq!(app.update(Event::OptionClicked(FormatFlag::NoSimplify)), Action::Nothing);
    assert!(app.options().no_simplify);
}

#[test]
fn failed_run_shows_the_error_and_keeps_the_editor() {
    let mut app = with_file("test.lua");
    app.update(exited(true, "local x = 1", ""));
    app.update(Event::EditorChanged("local x = 2".to_string()));
    assert_eq!(app.update(exited(false, "", "parse error")), Action::Nothing);
    assert_eq!(app.visible_error(), Some("An error occured: parse error".to_string()));
    assert_eq!(app.error(), &Some("parse error".to_string()));
    assert_eq!(app.editor_code(), "local x = 2");
    assert_eq!(app.formatted_code(), "local x = 1");
}

#[test]
fn launch_failure_shows_its_description() {
    let mut app = with_file("test.lua");
    app.update(Event::FormatterFinished(ProcessResult::LaunchFailed("permission denied".to_string())));
    assert_eq!(app.visible_error(), Some("An error occured: permission denied".to_string()));
    assert_eq!(app.editor_code(), "");
}

#[test]
fn success_clears_an_earlier_error() {
    let mut app = with_file("test.lua");
    app.update(exited(false, "", "parse error"));
    assert!(app.visible_error().is_some());
    app.update(exited(true, "ok()", ""));
    assert_eq!(app.visible_error(), None);
    assert_eq!(app.editor_code(), "ok()");
}

#[test]
fn apply_outcome_takes_a_decoded_outcome() {
    let mut app = MyApp::new("luau-format".to_string());
    app.apply_outcome(FormatOutcome::Success("a = 1".to_string()));
    assert_eq!(app.editor_code(), "a = 1");
    assert_eq!(app.formatted_code(), "a = 1");
    app.apply_outcome(FormatOutcome::Error("bad".to_string()));
    assert_eq!(app.error(), &Some("bad".to_string()));
    assert_eq!(app.editor_code(), "a = 1");
}

#[test]
fn second_open_request_is_ignored_while_one_is_in_flight() {
    let mut app = MyApp::new("luau-format".to_string());
    assert_eq!(app.update(Event::OpenClicked), Action::OpenDialog);
    assert_eq!(app.update(Event::OpenClicked), Action::Nothing);
    assert_eq!(app.update(Event::OpenClicked), Action::Nothing);
    assert!(app.is_opening_input());
    app.update(Event::OpenDialogClosed(None));
    assert!(!app.is_opening_input());
    assert_eq!(app.update(Event::OpenClicked), Action::OpenDialog);
}

#[test]
fn second_save_request_is_ignored_while_one_is_in_flight() {
    let mut app = MyApp::new("luau-format".to_string());
    app.update(Event::EditorChanged("text".to_string()));
    assert_eq!(
        app.update(Event::SaveClicked),
        Action::SaveDialog { suggested_name: "formatted.lua".to_string(), contents: "text".to_string() }
    );
    assert!(app.is_opening_output());
    assert_eq!(app.update(Event::SaveClicked), Action::Nothing);
    assert_eq!(app.update(Event::SaveDialogClosed(SaveResult::Written)), Action::Nothing);
    assert!(!app.is_opening_output());
    assert!(matches!(app.update(Event::SaveClicked), Action::SaveDialog { .. }));
}

#[test]
fn the_two_dialog_kinds_do_not_block_each_other() {
    let mut app = MyApp::new("luau-format".to_string());
    assert_eq!(app.update(Event::OpenClicked), Action::OpenDialog);
    assert!(matches!(app.update(Event::SaveClicked), Action::SaveDialog { .. }));
    assert!(app.is_opening_input() && app.is_opening_output());
}

#[test]
fn opening_a_dialog_clears_the_error() {
    let mut app = with_file("test.lua");
    app.update(exited(false, "", "parse error"));
    app.update(Event::OpenClicked);
    assert_eq!(app.visible_error(), None);
    app.update(exited(false, "", "again"));
    app.update(Event::SaveClicked);
    assert_eq!(app.visible_error(), None);
}

#[test]
fn an_ignored_request_leaves_the_error() {
    let mut app = with_file("test.lua");
    app.update(Event::OpenClicked);
    app.update(exited(false, "", "parse error"));
    assert_eq!(app.update(Event::OpenClicked), Action::Nothing);
    assert_eq!(app.error(), &Some("parse error".to_string()));
}

#[test]
fn cancelled_open_dialog_changes_nothing_but_the_flag() {
    let mut app = with_file("test.lua");
    app.update(exited(true, "local x = 1", ""));
    app.update(Event::OpenClicked);
    assert_eq!(app.update(Event::OpenDialogClosed(None)), Action::Nothing);
    assert!(!app.is_opening_input());
    assert_eq!(app.input_file(), &Some(PathBuf::from("test.lua")));
    assert_eq!(app.editor_code(), "local x = 1");
    assert_eq!(app.visible_error(), None);
}

#[test]
fn failed_save_shows_the_write_error() {
    let mut app = MyApp::new("luau-format".to_string());
    app.update(Event::SaveClicked);
    app.update(Event::SaveDialogClosed(SaveResult::Failed("disk full".to_string())));
    assert!(!app.is_opening_output());
    assert_eq!(app.visible_error(), Some("An error occured: disk full".to_string()));
}

#[test]
fn cancelled_save_shows_nothing() {
    let mut app = MyApp::new("luau-format".to_string());
    app.update(Event::SaveClicked);
    app.update(Event::SaveDialogClosed(SaveResult::Cancelled));
    assert!(!app.is_opening_output());
    assert_eq!(app.visible_error(), None);
}

#[test]
fn reset_restores_the_formatted_text() {
    let mut app = with_file("test.lua");
    app.update(exited(true, "local x = 1", ""));
    assert_eq!(app.editor_code(), app.formatted_code());
    app.update(Event::EditorChanged("something else".to_string()));
    assert_eq!(app.editor_code(), "something else");
    assert_eq!(app.formatted_code(), "local x = 1");
    assert_eq!(app.update(Event::ResetClicked), Action::Nothing);
    assert_eq!(app.editor_code(), "local x = 1");
}

#[test]
fn edits_do_not_reach_the_formatted_text() {
    let mut app = MyApp::new("luau-format".to_string());
    app.update(Event::EditorChanged("typed".to_string()));
    assert_eq!(app.formatted_code(), "");
    app.update(Event::ResetClicked);
    assert_eq!(app.editor_code(), "");
}

#[test]
fn the_tool_path_never_changes() {
    let mut app = with_file("test.lua");
    app.update(exited(true, "x", ""));
    app.update(Event::OptionClicked(FormatFlag::SolveListTable));
    app.update(Event::SaveClicked);
    app.update(Event::ResetClicked);
    assert_eq!(app.binary_path(), "luau-format");
}

#[test]
fn cell_hands_a_value_over_once() {
    let mut cell: HandoffCell<Option<PathBuf>> = HandoffCell::new();
    assert_eq!(cell.read_and_clear(), None);
    cell.write(Some(PathBuf::from("test.lua")));
    assert_eq!(cell.read_and_clear(), Some(Some(PathBuf::from("test.lua"))));
    assert_eq!(cell.read_and_clear(), None);
}

#[test]
fn cell_keeps_the_last_write() {
    let mut cell: HandoffCell<u32> = HandoffCell::new();
    cell.write(1);
    cell.write(2);
    assert_eq!(cell.read_and_clear(), Some(2));
}

#[test]
fn polling_an_empty_cell_changes_nothing() {
    let mut app = with_file("test.lua");
    app.update(Event::OpenClicked);
    let mut cell: HandoffCell<Option<PathBuf>> = HandoffCell::new();
    assert_eq!(app.poll_open_dialog(&mut cell), Action::Nothing);
    assert!(app.is_opening_input());
    assert_eq!(app.input_file(), &Some(PathBuf::from("test.lua")));
}

#[test]
fn polling_a_filled_cell_consumes_the_choice_once() {
    let mut app = MyApp::new("luau-format".to_string());
    app.update(Event::OpenClicked);
    let mut cell: HandoffCell<Option<PathBuf>> = HandoffCell::new();
    cell.write(Some(PathBuf::from("test.lua")));
    assert_eq!(app.poll_open_dialog(&mut cell), run_of("luau-format", "test.lua", &[]));
    assert!(!app.is_opening_input());
    assert_eq!(app.poll_open_dialog(&mut cell), Action::Nothing);
}

#[test]
fn polling_the_save_cell_takes_the_write_error() {
    let mut app = MyApp::new("luau-format".to_string());
    app.update(Event::SaveClicked);
    let mut cell: HandoffCell<SaveResult> = HandoffCell::new();
    app.poll_save_dialog(&mut cell);
    assert!(app.is_opening_output());
    cell.write(SaveResult::Failed("read-only file system".to_string()));
    app.poll_save_dialog(&mut cell);
    assert!(!app.is_opening_output());
    assert_eq!(app.error(), &Some("read-only file system".to_string()));
}
