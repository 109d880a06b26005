use backend_supervisor::notify::{
    build_apple_script, build_power_shell_script, dispatch_result, escape_applescript,
    notification_command, quote_powershell, NotifyError, Platform,
};

#[test]
fn escape_guards_quotes_and_backslashes() {
    assert_eq!(escape_applescript("plain"), "plain");
    assert_eq!(escape_applescript("say \"hi\""), "say \\\"hi\\\"");
    assert_eq!(escape_applescript("a\\b"), "a\\\\b");
    assert_eq!(escape_applescript("\\\""), "\\\\\\\"");
    assert_eq!(escape_applescript(""), "");
    assert_eq!(escape_applescript("caf\u{e9} \"\u{1f600}\""), "caf\u{e9} \\\"\u{1f600}\\\"");
}

#[test]
fn quote_doubles_single_quotes() {
    assert_eq!(quote_powershell("it's"), "it''s");
    assert_eq!(quote_powershell("''"), "''''");
    assert_eq!(quote_powershell("say \"hi\""), "say \"hi\"");
}

#[test]
fn apple_script_with_quote_in_title() {
    assert_eq!(
        build_apple_script("He said \"go\"", "body\\text"),
        "display notification \"body\\\\text\" with title \"He said \\\"go\\\"\""
    );
}

#[test]
fn power_shell_script_assigns_title_and_body() {
    let script = build_power_shell_script("T'1", "B");
    assert!(script.starts_with("$t='T''1';$b='B';[Windows.UI.Notifications.ToastNotificationManager,"));
    assert!(script.ends_with("CreateToastNotifier('SEFS').Show($n);"));
    assert!(script.contains("<text>$t</text><text>$b</text>"));
}

#[test]
fn macos_command_runs_script_host() {
    let command = notification_command(Platform::MacOs, "Done \"now\"", "All good").ok().unwrap();
    assert_eq!(command.program, "osascript");
    assert_eq!(
        command.args,
        vec!["-e", "display notification \"All good\" with title \"Done \\\"now\\\"\""]
    );
}

#[test]
fn linux_command_passes_title_and_body() {
    let command = notification_command(Platform::Linux, "Done \"now\"", "it's").ok().unwrap();
    assert_eq!(command.program, "notify-send");
    assert_eq!(command.args, vec!["Done \"now\"", "it's"]);
}

#[test]
fn windows_command_runs_power_shell() {
    let command = notification_command(Platform::Windows, "T", "it's").ok().unwrap();
    assert_eq!(command.program, "powershell");
    assert_eq!(command.args.len(), 3);
    assert_eq!(command.args[0], "-NoProfile");
    assert_eq!(command.args[1], "-Command");
    assert_eq!(command.args[2], build_power_shell_script("T", "it's"));
    assert!(command.args[2].starts_with("$t='T';$b='it''s';"));
}

#[test]
fn other_platform_is_unsupported() {
    match notification_command(Platform::Other, "t", "b") {
        Err(e) => {
            assert!(matches!(e, NotifyError::UnsupportedPlatform));
            assert_eq!(e.message(), "Unsupported platform");
        }
        Ok(_) => panic!("a command for an unknown platform"),
    }
}

#[test]
fn dispatch_failure_carries_reason() {
    assert!(dispatch_result(None).is_ok());
    match dispatch_result(Some("No such file or directory".to_string())) {
        Err(e) => {
            assert!(matches!(e, NotifyError::Dispatch { .. }));
            assert_eq!(e.message(), "No such file or directory");
        }
        Ok(()) => panic!("a failure reported as success"),
    }
}
