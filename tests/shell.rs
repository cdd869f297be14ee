use bill_tracker::shell::{Prompt, Reply, Shell};

fn listing(shell: &Shell<f64>) -> Vec<(String, f64)> {
    let mut all: Vec<(String, f64)> =
        shell.bills.get_all().into_iter().map(|b| (b.name.clone(), b.amount)).collect();
    all.sort_by(|a, b| a.0.cmp(&b.0));
    all
}

fn line(s: &str) -> String {
    s.to_string()
}

#[test]
fn add_flow_stores_the_bill() {
    let mut shell: Shell<f64> = Shell::new();
    assert_eq!(shell.step(line("dollar"), None), Reply::AskNewName);
    assert_eq!(shell.step(line("rent"), None), Reply::AskAmount);
    assert!(shell.wants_amount());
    assert_eq!(shell.step(line("abc"), None), Reply::NotANumber);
    assert!(shell.wants_amount());
    assert_eq!(shell.step(line("1200"), Some(1200.0)), Reply::Added);
    assert!(matches!(shell.prompt, Prompt::Selection));
    assert_eq!(listing(&shell), vec![("rent".to_string(), 1200.0)]);
}

#[test]
fn view_returns_to_menu() {
    let mut shell: Shell<f64> = Shell::new();
    assert_eq!(shell.step(line("rupee"), None), Reply::ShowBills);
    assert!(matches!(shell.prompt, Prompt::Selection));
}

#[test]
fn remove_and_update_flows() {
    let mut shell: Shell<f64> = Shell::new();
    shell.step(line("dollar"), None);
    shell.step(line("utilities"), None);
    shell.step(line("80"), Some(80.0));
    assert_eq!(shell.step(line("yen"), None), Reply::AskUpdateName);
    assert_eq!(shell.step(line("utilities"), None), Reply::AskAmount);
    assert_eq!(shell.step(line("95.5"), Some(95.5)), Reply::Updated);
    assert_eq!(listing(&shell), vec![("utilities".to_string(), 95.5)]);
    assert_eq!(shell.step(line("yen"), None), Reply::AskUpdateName);
    assert_eq!(shell.step(line("phone"), None), Reply::AskAmount);
    assert_eq!(shell.step(line("3"), Some(3.0)), Reply::NotFound);
    assert_eq!(shell.step(line("rupiah"), None), Reply::AskRemoveName);
    assert_eq!(shell.step(line("phone"), None), Reply::NotFound);
    assert_eq!(shell.step(line("rupiah"), None), Reply::AskRemoveName);
    assert_eq!(shell.step(line("utilities"), None), Reply::Removed);
    assert!(listing(&shell).is_empty());
}

#[test]
fn blank_line_aborts_operation_only() {
    let mut shell: Shell<f64> = Shell::new();
    shell.step(line("dollar"), None);
    shell.step(line("rent"), None);
    shell.step(line("10"), Some(10.0));
    let before = listing(&shell);
    for word in ["dollar", "rupiah", "yen"] {
        shell.step(line(word), None);
        assert_eq!(shell.step(String::new(), None), Reply::Aborted);
        assert!(matches!(shell.prompt, Prompt::Selection));
        assert_eq!(listing(&shell), before);
    }
    shell.step(line("dollar"), None);
    shell.step(line("water"), None);
    assert_eq!(shell.step(String::new(), None), Reply::Aborted);
    assert!(matches!(shell.prompt, Prompt::Selection));
    assert_eq!(listing(&shell), before);
    assert!(!shell.is_finished());
}

#[test]
fn blank_or_unknown_selection_ends_program() {
    let mut shell: Shell<f64> = Shell::new();
    assert_eq!(shell.step(String::new(), None), Reply::Quit);
    assert!(shell.is_finished());
    assert_eq!(shell.step(line("dollar"), None), Reply::Quit);
    let mut other: Shell<f64> = Shell::new();
    assert_eq!(other.step(line("euro"), None), Reply::Quit);
    assert!(other.is_finished());
}

#[test]
fn blank_after_several_bad_amounts_aborts() {
    let mut shell: Shell<f64> = Shell::new();
    shell.step(line("dollar"), None);
    shell.step(line("rent"), None);
    for bad in ["abc", "1,2", "x"] {
        assert_eq!(shell.step(line(bad), None), Reply::NotANumber);
        assert!(shell.wants_amount());
    }
    assert_eq!(shell.step(String::new(), None), Reply::Aborted);
    assert!(matches!(shell.prompt, Prompt::Selection));
    assert!(listing(&shell).is_empty());
}
