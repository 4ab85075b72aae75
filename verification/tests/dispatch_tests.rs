use pm_backend::dispatch::{
    call_plan, chat_plan, email_plan, exhausted_error, folder_picker_command,
    folder_picker_outcome, open_folder_plan, reveal_plan, FailurePolicy, Platform,
};
use pm_backend::BackendError;

#[test]
fn email_plan_macos_opens_mailto() {
    let plan = email_plan("a@b.com", None, None, Platform::MacOs);
    assert_eq!(plan.attempts.len(), 1);
    assert_eq!(plan.attempts[0].program, "open");
    assert_eq!(plan.attempts[0].args, vec!["mailto:a@b.com".to_string()]);
    assert_eq!(plan.attempts[0].success_message, "Email client opened successfully");
}

#[test]
fn email_plan_windows_uses_cmd_start() {
    let plan = email_plan("a@b.com", None, None, Platform::Windows);
    assert_eq!(plan.attempts[0].program, "cmd");
    assert_eq!(
        plan.attempts[0].args,
        vec!["/c".to_string(), "start".to_string(), "".to_string(), "mailto:a@b.com".to_string()]
    );
}

#[test]
fn mailto_with_subject_only_has_no_trailing_ampersand() {
    let plan = email_plan("a@b.com", Some("Hi"), None, Platform::Linux);
    assert_eq!(plan.attempts[0].program, "xdg-open");
    assert_eq!(plan.attempts[0].args, vec!["mailto:a@b.com?subject=Hi".to_string()]);
}

#[test]
fn mailto_with_body_only() {
    let plan = email_plan("a@b.com", None, Some("See attached"), Platform::Linux);
    assert_eq!(plan.attempts[0].args, vec!["mailto:a@b.com?body=See%20attached".to_string()]);
}

#[test]
fn mailto_with_subject_and_body_joins_with_single_ampersand() {
    let plan = email_plan("a@b.com", Some("Hello World"), Some("Hi & bye"), Platform::MacOs);
    assert_eq!(
        plan.attempts[0].args,
        vec!["mailto:a@b.com?subject=Hello%20World&body=Hi%20%26%20bye".to_string()]
    );
}

#[test]
fn email_spawn_failure_carries_os_reason() {
    let plan = email_plan("a@b.com", None, None, Platform::Linux);
    let errors = vec!["No such file or directory (os error 2)".to_string()];
    let e = exhausted_error(&plan.on_exhausted, &errors);
    match e {
        BackendError::SpawnError(m) => {
            assert_eq!(m, "Failed to open email client: No such file or directory (os error 2)");
        }
        _ => panic!("expected SpawnError"),
    }
}

#[test]
fn reveal_plan_linux_probes_the_four_file_managers() {
    let plan = reveal_plan("/tmp/report.pdf", Platform::Linux);
    let programs: Vec<&str> = plan.attempts.iter().map(|a| a.program.as_str()).collect();
    assert_eq!(programs, vec!["nautilus", "dolphin", "thunar", "nemo"]);
    for a in &plan.attempts {
        assert_eq!(a.args, vec!["--select".to_string(), "/tmp/report.pdf".to_string()]);
        assert_eq!(a.success_message, "Success");
    }
    assert!(matches!(plan.on_exhausted, FailurePolicy::NoManager));
}

#[test]
fn reveal_exhausted_on_linux_is_no_file_manager_found() {
    let plan = reveal_plan("/tmp/report.pdf", Platform::Linux);
    let errors = vec![
        "probe 1 failed".to_string(),
        "probe 2 failed".to_string(),
        "probe 3 failed".to_string(),
        "probe 4 failed".to_string(),
    ];
    let e = exhausted_error(&plan.on_exhausted, &errors);
    match e {
        BackendError::NoFileManagerFound => {}
        _ => panic!("expected NoFileManagerFound"),
    }
    assert_eq!(
        BackendError::NoFileManagerFound.message(),
        "No supported file manager found"
    );
}

#[test]
fn reveal_plan_cleans_scheme_and_whitespace() {
    let plan = reveal_plan("  file:///tmp/report.pdf ", Platform::MacOs);
    assert_eq!(plan.attempts[0].args, vec!["-R".to_string(), "/tmp/report.pdf".to_string()]);
    let plan = reveal_plan(" /tmp/report.pdf\n", Platform::Linux);
    for a in &plan.attempts {
        assert_eq!(a.args, vec!["--select".to_string(), "/tmp/report.pdf".to_string()]);
    }
}

#[test]
fn reveal_plan_windows_selects_in_explorer() {
    let plan = reveal_plan("C:\\docs\\f.txt", Platform::Windows);
    assert_eq!(plan.attempts.len(), 1);
    assert_eq!(plan.attempts[0].program, "explorer");
    assert_eq!(plan.attempts[0].args, vec!["/select,".to_string(), "C:\\docs\\f.txt".to_string()]);
}

#[test]
fn reveal_spawn_failure_on_macos_is_the_bare_os_reason() {
    let plan = reveal_plan("/Users/u/f.txt", Platform::MacOs);
    let errors = vec!["launch refused (os error 13)".to_string()];
    let e = exhausted_error(&plan.on_exhausted, &errors);
    match e {
        BackendError::SpawnError(m) => assert_eq!(m, "launch refused (os error 13)"),
        _ => panic!("expected SpawnError"),
    }
}

#[test]
fn open_folder_cleans_scheme_and_whitespace() {
    let plan = open_folder_plan("  file:///Users/u/Projects  ", Platform::Linux);
    assert_eq!(plan.attempts[0].program, "xdg-open");
    assert_eq!(plan.attempts[0].args, vec!["/Users/u/Projects".to_string()]);
    assert_eq!(plan.attempts[0].success_message, "Folder opened: /Users/u/Projects");
}

#[test]
fn open_folder_windows_quotes_the_path() {
    let plan = open_folder_plan("C:\\My Documents", Platform::Windows);
    assert_eq!(plan.attempts[0].program, "explorer");
    assert_eq!(plan.attempts[0].args, vec!["\"C:\\My Documents\"".to_string()]);
}

#[test]
fn open_folder_macos_retries_with_reveal() {
    let plan = open_folder_plan("/Users/u/Projects", Platform::MacOs);
    assert_eq!(plan.attempts.len(), 2);
    assert_eq!(plan.attempts[0].program, "open");
    assert_eq!(plan.attempts[0].args, vec!["/Users/u/Projects".to_string()]);
    assert_eq!(plan.attempts[1].args, vec!["-R".to_string(), "/Users/u/Projects".to_string()]);
}

#[test]
fn open_folder_macos_failure_joins_both_reasons() {
    let plan = open_folder_plan("/Users/u/Projects", Platform::MacOs);
    let errors = vec!["first reason".to_string(), "second reason".to_string()];
    let e = exhausted_error(&plan.on_exhausted, &errors);
    match e {
        BackendError::SpawnError(m) => {
            assert_eq!(m, "Failed to open folder: first reason and second reason");
        }
        _ => panic!("expected SpawnError"),
    }
}

#[test]
fn call_plan_keeps_only_digits() {
    let plan = call_plan("050-123-4567", Platform::MacOs);
    assert_eq!(plan.attempts.len(), 1);
    assert_eq!(plan.attempts[0].program, "open");
    assert_eq!(plan.attempts[0].args, vec!["tel:0501234567".to_string()]);
    assert_eq!(plan.attempts[0].success_message, "Phone call initiated successfully");
}

#[test]
fn call_plan_windows_start_has_no_title_placeholder() {
    let plan = call_plan("0501234567", Platform::Windows);
    assert_eq!(plan.attempts[0].program, "cmd");
    assert_eq!(
        plan.attempts[0].args,
        vec!["/c".to_string(), "start".to_string(), "tel:0501234567".to_string()]
    );
}

#[test]
fn call_spawn_failure_carries_os_reason() {
    let plan = call_plan("0501234567", Platform::Linux);
    let errors = vec!["exec format error (os error 8)".to_string()];
    let e = exhausted_error(&plan.on_exhausted, &errors);
    match e {
        BackendError::SpawnError(m) => {
            assert_eq!(m, "Failed to initiate phone call: exec format error (os error 8)");
        }
        _ => panic!("expected SpawnError"),
    }
}

#[test]
fn chat_plan_normalizes_leading_zero_to_country_prefix() {
    let plan = chat_plan("050-123-4567", Platform::MacOs).unwrap();
    assert_eq!(plan.attempts.len(), 3);
    assert_eq!(plan.attempts[0].program, "open");
    assert_eq!(plan.attempts[0].args, vec!["whatsapp://send?phone=972501234567".to_string()]);
    assert_eq!(plan.attempts[0].success_message, "WhatsApp opened with phone number");
    assert_eq!(plan.attempts[1].args, vec!["-a".to_string(), "WhatsApp".to_string()]);
    assert_eq!(
        plan.attempts[2].args,
        vec!["https://web.whatsapp.com/send?phone=972501234567".to_string()]
    );
}

#[test]
fn chat_plan_passes_prefixed_number_through() {
    let plan = chat_plan("972501234567", Platform::Linux).unwrap();
    assert_eq!(plan.attempts[0].args, vec!["whatsapp://send?phone=972501234567".to_string()]);
}

#[test]
fn chat_plan_prepends_prefix_to_other_numbers() {
    let plan = chat_plan("15551234567", Platform::Linux).unwrap();
    assert_eq!(plan.attempts[0].args, vec!["whatsapp://send?phone=97215551234567".to_string()]);
}

#[test]
fn chat_plan_linux_cascade() {
    let plan = chat_plan("0501234567", Platform::Linux).unwrap();
    assert_eq!(plan.attempts[0].program, "xdg-open");
    assert_eq!(plan.attempts[1].program, "whatsapp-desktop");
    assert!(plan.attempts[1].args.is_empty());
    assert_eq!(plan.attempts[2].program, "xdg-open");
}

#[test]
fn short_phone_is_rejected_without_any_attempt() {
    match chat_plan("12345", Platform::MacOs) {
        Err(BackendError::InvalidPhoneNumber) => {}
        _ => panic!("expected InvalidPhoneNumber"),
    }
    assert_eq!(
        BackendError::InvalidPhoneNumber.message(),
        "Invalid phone number: fewer than 9 digits"
    );
}

#[test]
fn eight_digits_rejected_nine_accepted() {
    assert!(matches!(
        chat_plan("12-34-56-78", Platform::Linux),
        Err(BackendError::InvalidPhoneNumber)
    ));
    assert!(chat_plan("123456789", Platform::Linux).is_ok());
}

#[test]
fn chat_exhausted_reports_last_reason() {
    let plan = chat_plan("0501234567", Platform::Windows).unwrap();
    let errors = vec![
        "first failed".to_string(),
        "second failed".to_string(),
        "browser missing (os error 2)".to_string(),
    ];
    let e = exhausted_error(&plan.on_exhausted, &errors);
    match e {
        BackendError::SpawnError(m) => {
            assert_eq!(m, "Failed to open WhatsApp: browser missing (os error 2)");
        }
        _ => panic!("expected SpawnError"),
    }
}

#[test]
fn picker_command_per_platform() {
    let (prog, args) = folder_picker_command(Platform::Linux);
    assert_eq!(prog, "zenity");
    assert_eq!(args, vec!["--file-selection".to_string(), "--directory".to_string()]);
    let (prog, args) = folder_picker_command(Platform::MacOs);
    assert_eq!(prog, "osascript");
    assert_eq!(args[0], "-e");
    let (prog, _) = folder_picker_command(Platform::Windows);
    assert_eq!(prog, "powershell");
}

#[test]
fn picker_output_line_is_the_chosen_path() {
    let r = folder_picker_outcome(true, "/home/u/Projects\n");
    assert_eq!(r.unwrap(), "/home/u/Projects");
}

#[test]
fn picker_nonzero_exit_is_cancelation() {
    match folder_picker_outcome(false, "/home/u/Projects\n") {
        Err(BackendError::UserCanceled) => {}
        _ => panic!("expected UserCanceled"),
    }
}

#[test]
fn picker_blank_output_is_cancelation() {
    match folder_picker_outcome(true, "  \n") {
        Err(BackendError::UserCanceled) => {}
        _ => panic!("expected UserCanceled"),
    }
    assert_eq!(BackendError::UserCanceled.message(), "Folder selection was canceled");
}
