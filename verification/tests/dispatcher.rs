use keytui::app::{App, EngineConfig, HelpEntry};
use keytui::color::ColorValue;
use keytui::command::{Action, Command, CopyKind, KeyKind, Mode, OutputKind, ScrollDirection, Tab};
use keytui::records::{DetailLevel, Record};

fn record(id: &str) -> Record {
    Record {
        id: id.to_string(),
        fingerprint: format!("{}fpr", id),
        user_id: format!("{}@example.org", id),
        primary: vec![format!("[sc--] rsa3072/{}", id)],
        secondary: vec![format!("{}@example.org", id)],
        detail: DetailLevel::Minimum,
    }
}

fn config() -> EngineConfig {
    EngineConfig {
        armor: false,
        output_dir: "/tmp".to_string(),
        default_key: None,
    }
}

fn help() -> Vec<HelpEntry> {
    vec![HelpEntry {
        name: "?".to_string(),
        description: "show help".to_string(),
    }]
}

fn app_with(publics: Vec<Record>, clipboard: bool) -> App {
    App::new(
        publics,
        vec![record("sec1")],
        help(),
        clipboard,
        config(),
        false,
        0,
        true,
        ColorValue::Reset,
    )
}

#[test]
fn set_then_get_armor_reports_the_new_value() {
    let mut app = app_with(vec![record("aa11")], true);
    let a = app.run_command(
        Command::SetOption("armor".to_string(), "true".to_string()),
        0,
    );
    assert!(a.is_none());
    assert_eq!(app.prompt.text, "armor: true");
    assert_eq!(app.prompt.output_kind, OutputKind::Success);
    app.run_command(Command::GetOption("armor".to_string()), 1);
    assert_eq!(app.prompt.text, "armor: true");
    assert_eq!(app.prompt.output_kind, OutputKind::Success);
}

#[test]
fn an_invalid_armor_value_changes_nothing_and_hints_usage() {
    let mut app = app_with(vec![record("aa11")], true);
    app.run_command(
        Command::SetOption("armor".to_string(), "true".to_string()),
        0,
    );
    app.run_command(
        Command::SetOption("armor".to_string(), "notabool".to_string()),
        1,
    );
    assert_eq!(app.prompt.text, "usage: set armor <true/false>");
    assert_eq!(app.prompt.output_kind, OutputKind::Failure);
    app.run_command(Command::GetOption("armor".to_string()), 2);
    assert_eq!(app.prompt.text, "armor: true");
}

#[test]
fn unknown_and_empty_option_names_fail_clearly() {
    let mut app = app_with(vec![record("aa11")], true);
    app.run_command(
        Command::SetOption("nonsense".to_string(), "1".to_string()),
        0,
    );
    assert_eq!(app.prompt.text, "unknown option: nonsense");
    assert_eq!(app.prompt.output_kind, OutputKind::Failure);
    app.run_command(Command::SetOption(String::new(), "1".to_string()), 1);
    assert_eq!(app.prompt.text, "usage: set <option> <value>");
    app.run_command(Command::GetOption(String::new()), 2);
    assert_eq!(app.prompt.text, "usage: get <option>");
    app.run_command(
        Command::SetOption("mode".to_string(), "upside-down".to_string()),
        3,
    );
    assert_eq!(app.prompt.text, "invalid mode");
}

#[test]
fn a_confirmed_delete_is_cancelled_by_any_other_command() {
    let mut app = app_with(vec![record("aa11")], true);
    let a = app.run_command(
        Command::Confirm(Box::new(Command::DeleteKey(
            KeyKind::Public,
            "aa11".to_string(),
        ))),
        0,
    );
    // the wrapper never reaches the engine
    assert!(a.is_none());
    assert!(app.prompt.pending.is_some());
    assert_eq!(app.prompt.text, "confirm delete key");
    // any navigation command dismisses the pending confirmation
    let b = app.run_command(Command::Scroll(ScrollDirection::Down(1), false), 1);
    assert!(b.is_none());
    assert!(app.prompt.pending.is_none());
    // only re-issuing the plain command deletes
    let c = app.run_command(
        Command::DeleteKey(KeyKind::Public, "aa11".to_string()),
        2,
    );
    match c {
        Some(Action::DeleteRecord(KeyKind::Public, id)) => assert_eq!(id, "aa11"),
        _ => panic!("expected the delete to reach the engine"),
    }
}

#[test]
fn show_options_twice_keeps_the_list_and_the_cursor() {
    let mut app = app_with(vec![record("aa11"), record("bb22")], true);
    app.run_command(Command::ShowOptions, 0);
    let first: Vec<String> = app.options.items.iter().map(|c| c.label()).collect();
    assert!(app.state.show_options);
    // move the overlay cursor somewhere
    app.run_command(Command::Scroll(ScrollDirection::Down(1), false), 1);
    app.run_command(Command::Scroll(ScrollDirection::Down(1), false), 2);
    let cursor = app.options.cursor;
    app.run_command(Command::ShowOptions, 3);
    let second: Vec<String> = app.options.items.iter().map(|c| c.label()).collect();
    assert_eq!(first, second);
    assert_eq!(app.options.cursor, cursor);
}

#[test]
fn show_options_resets_the_cursor_when_the_list_changes_length() {
    let mut app = app_with(vec![record("aa11")], true);
    app.run_command(Command::ShowOptions, 0);
    let with_selection = app.options.items.len();
    app.run_command(Command::Scroll(ScrollDirection::Down(1), false), 1);
    app.run_command(Command::Scroll(ScrollDirection::Down(1), false), 2);
    // a search that matches nothing empties the table and drops the selection
    app.run_command(Command::SearchRecords(Some("zzz".to_string())), 3);
    app.refresh_filter();
    assert_eq!(app.records.items.len(), 0);
    app.run_command(Command::ShowOptions, 4);
    assert_ne!(app.options.items.len(), with_selection);
    assert_eq!(app.options.cursor, Some(0));
}

#[test]
fn an_empty_category_never_crashes_selection_dependent_commands() {
    let mut app = app_with(Vec::new(), true);
    assert_eq!(app.records.items.len(), 0);
    assert!(app.records.selected().is_none());
    let a = app.run_command(Command::CopyText(CopyKind::KeyId), 0);
    assert!(a.is_none());
    assert_eq!(app.prompt.text, "invalid selection");
    assert_eq!(app.prompt.output_kind, OutputKind::Failure);
    let b = app.run_command(Command::ToggleDetail(false), 1);
    assert!(b.is_none());
    // switching into the copy mode is refused while the table is empty
    app.run_command(Command::SwitchMode(Mode::Copying), 2);
    assert_eq!(app.mode, Mode::Normal);
}

#[test]
fn copy_reaches_the_clipboard_or_reports_its_absence() {
    let mut app = app_with(vec![record("aa11")], true);
    let a = app.run_command(Command::CopyText(CopyKind::KeyId), 0);
    match a {
        Some(Action::ClipboardSet(content)) => assert_eq!(content, "aa11"),
        _ => panic!("expected a clipboard write"),
    }
    app.apply_clipboard_set_result(true, 1);
    assert_eq!(app.prompt.text, "key id copied to clipboard");
    let mut bare = app_with(vec![record("aa11")], false);
    let b = bare.run_command(Command::CopyText(CopyKind::KeyId), 0);
    assert!(b.is_none());
    assert_eq!(bare.prompt.text, "clipboard not available");
    let c = bare.run_command(Command::Paste, 1);
    assert!(c.is_none());
    assert_eq!(bare.prompt.text, "clipboard not available");
}

#[test]
fn copying_a_table_row_joins_the_projected_lines() {
    let mut app = app_with(vec![record("aa11")], true);
    let a = app.run_command(Command::CopyText(CopyKind::TableRow(1)), 0);
    match a {
        Some(Action::ClipboardSet(content)) => {
            assert_eq!(content, "[sc--] rsa3072/aa11")
        },
        _ => panic!("expected a clipboard write"),
    }
    let b = app.run_command(Command::CopyText(CopyKind::TableRow(9)), 1);
    assert!(b.is_none());
    assert_eq!(app.prompt.text, "copy error: invalid row number");
}

#[test]
fn import_with_no_files_fails_without_reaching_the_engine() {
    let mut app = app_with(vec![record("aa11")], true);
    let a = app.run_command(Command::ImportKeys(Vec::new(), false), 0);
    assert!(a.is_none());
    assert_eq!(app.prompt.text, "no files given");
    let b = app.run_command(
        Command::ImportKeys(vec!["key.asc".to_string()], false),
        1,
    );
    assert!(matches!(b, Some(Action::ImportRecords(_))));
}

#[test]
fn import_success_refreshes_and_reports_the_count() {
    let mut app = app_with(vec![record("aa11")], true);
    let a = app.apply_import_result(Ok(2), 0);
    assert!(matches!(a, Some(Action::FetchAllRecords)));
    app.apply_record_listing(vec![record("aa11"), record("bb22")], vec![record("sec1")], 1);
    assert_eq!(app.prompt.text, "2 keys imported");
    assert_eq!(app.records.items.len(), 2);
    assert_eq!(app.detail_level, DetailLevel::Minimum);
    let b = app.apply_import_result(Err("bad packet".to_string()), 2);
    assert!(b.is_none());
    assert_eq!(app.prompt.text, "import error: bad packet");
}

#[test]
fn engine_failures_leave_state_untouched_and_are_reported() {
    let mut app = app_with(vec![record("aa11")], true);
    app.apply_export_result(Err("no permission".to_string()), 0);
    assert_eq!(app.prompt.text, "export error: no permission");
    assert_eq!(app.records.items.len(), 1);
    app.apply_export_result(Ok("/tmp/out.asc".to_string()), 1);
    assert_eq!(app.prompt.text, "export: /tmp/out.asc");
    let a = app.apply_delete_result(Err("not found".to_string()), 2);
    assert!(a.is_none());
    assert_eq!(app.prompt.text, "delete error: not found");
    app.apply_send_result(Ok("aa11".to_string()), 3);
    assert_eq!(app.prompt.text, "key sent to the keyserver: 0xaa11");
    app.apply_send_result(Err("offline".to_string()), 4);
    assert_eq!(app.prompt.text, "send error: offline");
    let b = app.apply_program_result(Err("not installed".to_string()), 5);
    assert!(b.is_none());
    assert_eq!(app.prompt.text, "execution error: not installed");
    let c = app.apply_program_result(Ok(()), 6);
    assert!(matches!(c, Some(Action::FetchAllRecords)));
}

#[test]
fn toggling_detail_raises_one_record_or_all() {
    let mut app = app_with(vec![record("aa11"), record("bb22")], true);
    app.run_command(Command::ToggleDetail(false), 0);
    assert_eq!(app.records.items[0].detail, DetailLevel::Standard);
    assert_eq!(app.records.items[1].detail, DetailLevel::Minimum);
    app.run_command(Command::ToggleDetail(true), 1);
    assert_eq!(app.detail_level, DetailLevel::Standard);
    assert_eq!(app.records.items[0].detail, DetailLevel::Standard);
    assert_eq!(app.records.items[1].detail, DetailLevel::Standard);
    // saturation: three more global toggles stay at the maximum
    app.run_command(Command::ToggleDetail(true), 2);
    app.run_command(Command::ToggleDetail(true), 3);
    app.run_command(Command::ToggleDetail(true), 4);
    assert_eq!(app.detail_level, DetailLevel::Full);
    assert_eq!(app.records.items[1].detail, DetailLevel::Full);
}

#[test]
fn closing_the_search_prompt_restores_the_table() {
    let mut app = app_with(vec![record("aa11"), record("bb22")], true);
    app.run_command(Command::SearchRecords(Some("zzz".to_string())), 0);
    app.refresh_filter();
    assert_eq!(app.records.items.len(), 0);
    app.close_input();
    assert_eq!(app.prompt.text, "");
    assert_eq!(app.records.items.len(), 2);
    assert_eq!(app.records.items[0].id, "aa11");
    assert_eq!(app.records.items[1].id, "bb22");
}

#[test]
fn a_failed_listing_is_reported_and_changes_nothing() {
    let mut app = app_with(vec![record("aa11")], true);
    app.run_command(Command::Scroll(ScrollDirection::Down(1), false), 0);
    let cursor = app.records.cursor;
    app.apply_listing_failure("engine not installed".to_string(), 1);
    assert_eq!(app.prompt.text, "refresh error: engine not installed");
    assert_eq!(app.prompt.output_kind, OutputKind::Failure);
    assert_eq!(app.records.items.len(), 1);
    assert_eq!(app.records.cursor, cursor);
    assert_eq!(app.tab, Tab::Records(KeyKind::Public));
}

#[test]
fn every_engine_command_yields_exactly_its_action() {
    let mut app = app_with(vec![record("aa11")], true);
    let a = app.run_command(
        Command::ExportKeys(KeyKind::Secret, vec!["aa11".to_string()]),
        0,
    );
    match a {
        Some(Action::ExportRecords(KeyKind::Secret, ps)) => assert_eq!(ps, vec!["aa11"]),
        _ => panic!("expected the export to reach the engine"),
    }
    let b = app.run_command(Command::SendKey("aa11".to_string()), 1);
    assert!(matches!(b, Some(Action::SendRecord(_))));
    let c = app.run_command(Command::Refresh, 2);
    assert!(matches!(c, Some(Action::FetchAllRecords)));
    let d = app.run_command(Command::EditKey("aa11".to_string()), 3);
    assert!(matches!(d, Some(Action::RunProgram(_))));
}

#[test]
fn quit_is_the_only_way_to_stop_running() {
    let mut app = app_with(vec![record("aa11")], true);
    app.run_command(Command::Refresh, 0);
    app.run_command(Command::ShowHelp, 1);
    assert!(app.state.running);
    let a = app.run_command(Command::Quit, 2);
    assert!(a.is_none());
    assert!(!app.state.running);
}

#[test]
fn tab_cycling_moves_between_categories_and_help() {
    let mut app = app_with(vec![record("aa11")], true);
    assert_eq!(app.tab, Tab::Records(KeyKind::Public));
    app.run_command(Command::NextTab, 0);
    assert_eq!(app.tab, Tab::Records(KeyKind::Secret));
    assert_eq!(app.records.items[0].id, "sec1");
    app.run_command(Command::NextTab, 1);
    assert_eq!(app.tab, Tab::Help);
    app.run_command(Command::NextTab, 2);
    assert_eq!(app.tab, Tab::Records(KeyKind::Public));
    app.run_command(Command::PreviousTab, 3);
    assert_eq!(app.tab, Tab::Help);
}

#[test]
fn category_switch_restores_the_saved_cursor() {
    let mut app = app_with(vec![record("aa11"), record("bb22")], true);
    app.run_command(Command::Scroll(ScrollDirection::Down(1), false), 0);
    assert_eq!(app.records.cursor, Some(1));
    app.run_command(Command::ListKeys(KeyKind::Secret), 1);
    assert_eq!(app.records.cursor, Some(0));
    app.run_command(Command::ListKeys(KeyKind::Public), 2);
    assert_eq!(app.records.cursor, Some(1));
}

#[test]
fn the_status_line_shows_the_tab_and_the_position() {
    let mut app = app_with(vec![record("aa11"), record("bb22")], true);
    assert_eq!(app.status_text(), "list pub (1/2)");
    app.run_command(Command::Scroll(ScrollDirection::Down(1), false), 0);
    assert_eq!(app.status_text(), "list pub (2/2)");
    app.run_command(Command::ShowHelp, 1);
    assert_eq!(app.status_text(), "help");
    let empty = app_with(Vec::new(), true);
    assert_eq!(empty.status_text(), "list pub");
}

#[test]
fn the_prompt_message_expires_unless_a_confirmation_is_pending() {
    let mut app = app_with(vec![record("aa11")], true);
    app.run_command(
        Command::ShowOutput(OutputKind::Success, "done".to_string()),
        1000,
    );
    app.tick(2000);
    assert_eq!(app.prompt.text, "done");
    app.tick(2751);
    assert_eq!(app.prompt.text, "");
    app.run_command(
        Command::Confirm(Box::new(Command::SendKey("aa11".to_string()))),
        3000,
    );
    app.tick(999999);
    assert!(app.prompt.pending.is_some());
    assert_eq!(app.prompt.text, "confirm send key");
}

#[test]
fn the_prompt_option_seeds_the_buffer_directly() {
    let mut app = app_with(vec![record("aa11")], true);
    app.run_command(
        Command::SetOption("prompt".to_string(), ":import ".to_string()),
        0,
    );
    assert_eq!(app.prompt.text, ":import ");
    app.apply_clipboard_text(Ok("export aa11".to_string()), 1);
    assert_eq!(app.prompt.text, ":export aa11");
}

#[test]
fn the_output_directory_is_only_applied_when_it_exists() {
    let mut app = app_with(vec![record("aa11")], true);
    let a = app.run_command(
        Command::SetOption("output".to_string(), "/tmp/exports".to_string()),
        0,
    );
    match a {
        Some(Action::CheckOutputDir(p)) => assert_eq!(p, "/tmp/exports"),
        _ => panic!("expected the directory check"),
    }
    app.apply_output_dir("/tmp/exports".to_string(), false, 1);
    assert_eq!(app.prompt.text, "path does not exist");
    assert_eq!(app.config.output_dir, "/tmp");
    app.apply_output_dir("/tmp/exports".to_string(), true, 2);
    assert_eq!(app.config.output_dir, "/tmp/exports");
    assert_eq!(app.prompt.text, "output directory: /tmp/exports");
}
