use autogamejournal::classifier::{
    check_fullscreen, classify, process_name_from_pid, resolve_identity, CaptureTarget,
    ClassificationFailure, ProcessEntry, WindowFacts,
};
use autogamejournal::geometry::Rect;
use autogamejournal::rules::{Config, RuleEntry};

const SCREEN: Rect = Rect { left: 0, top: 0, right: 1920, bottom: 1080 };
const SMALL: Rect = Rect { left: 100, top: 100, right: 900, bottom: 700 };

fn process(pid: u32, exe_file: &str) -> ProcessEntry {
    ProcessEntry { pid, exe_file: exe_file.to_string() }
}

fn snapshot() -> Vec<ProcessEntry> {
    vec![
        process(4, "System"),
        process(812, "chat.exe"),
        process(4242, "game.exe"),
        process(5000, "Browser.exe"),
    ]
}

fn window(process_id: u32, title: &str, bounds: Rect) -> WindowFacts {
    WindowFacts {
        handle: 0x2071e,
        process_id,
        title: Some(title.to_string()),
        processes: Some(snapshot()),
        window_rect: Some(bounds),
        monitor_rect: Some(SCREEN),
    }
}

fn config(rules: Vec<RuleEntry>) -> Config {
    Config { target_folder: "shots".to_string(), screenshot_delay: 1, rules }
}

fn rule(name: &str) -> RuleEntry {
    RuleEntry { name: name.to_string(), ..RuleEntry::default() }
}

fn target(outcome: Result<CaptureTarget, ClassificationFailure>) -> (u32, String) {
    match outcome {
        Ok(t) => (t.window, t.bucket),
        Err(reason) => panic!("no target: {:?}", reason),
    }
}

fn reason(outcome: Result<CaptureTarget, ClassificationFailure>) -> ClassificationFailure {
    match outcome {
        Ok(t) => panic!("unexpected target {:?}", t),
        Err(reason) => reason,
    }
}

#[test]
fn process_name_is_the_file_stem() {
    assert_eq!(process_name_from_pid(&snapshot(), 4242), Some("game".to_string()));
    assert_eq!(process_name_from_pid(&snapshot(), 5000), Some("Browser".to_string()));
    assert_eq!(process_name_from_pid(&snapshot(), 4), Some("System".to_string()));
}

#[test]
fn process_name_keeps_all_but_the_last_extension() {
    let processes = vec![process(1, "setup.v2.exe"), process(2, ".hidden"), process(3, "tool.")];
    assert_eq!(process_name_from_pid(&processes, 1), Some("setup.v2".to_string()));
    assert_eq!(process_name_from_pid(&processes, 2), Some(".hidden".to_string()));
    assert_eq!(process_name_from_pid(&processes, 3), Some("tool".to_string()));
}

#[test]
fn process_missing_from_the_snapshot_has_no_name() {
    assert_eq!(process_name_from_pid(&snapshot(), 9999), None);
    assert_eq!(process_name_from_pid(&Vec::new(), 4242), None);
}

#[test]
fn process_without_a_file_name_has_no_name() {
    let processes = vec![process(7, ""), process(8, "..")];
    assert_eq!(process_name_from_pid(&processes, 7), None);
    assert_eq!(process_name_from_pid(&processes, 8), None);
}

#[test]
fn first_line_with_the_process_id_names_it() {
    let processes = vec![process(7, "first.exe"), process(7, "second.exe")];
    assert_eq!(process_name_from_pid(&processes, 7), Some("first".to_string()));
}

#[test]
fn identity_of_an_owned_window_is_the_process_name() {
    let facts = window(4242, "Some Title: here", SCREEN);
    assert_eq!(resolve_identity(&facts), Some("game".to_string()));
}

#[test]
fn identity_of_an_unowned_window_is_the_normalized_title() {
    let facts = window(0, "Program Manager: desk/top", SCREEN);
    assert_eq!(resolve_identity(&facts), Some("Program Manager_ desk_top".to_string()));
}

#[test]
fn identity_fails_where_its_source_is_missing() {
    let mut unowned = window(0, "t", SCREEN);
    unowned.title = None;
    assert_eq!(resolve_identity(&unowned), None);
    // The snapshot is not consulted for an unowned window, nor the title for an owned one.
    let mut owned = window(4242, "t", SCREEN);
    owned.title = None;
    assert_eq!(resolve_identity(&owned), Some("game".to_string()));
    owned.processes = None;
    assert_eq!(resolve_identity(&owned), None);
    let gone = window(31337, "t", SCREEN);
    assert_eq!(resolve_identity(&gone), None);
}

#[test]
fn fullscreen_needs_both_rectangles() {
    let mut facts = window(4242, "t", SCREEN);
    assert!(check_fullscreen(&facts));
    facts.window_rect = None;
    assert!(!check_fullscreen(&facts));
    facts.window_rect = Some(SCREEN);
    facts.monitor_rect = None;
    assert!(!check_fullscreen(&facts));
    facts.monitor_rect = Some(SCREEN);
    facts.window_rect = Some(SMALL);
    assert!(!check_fullscreen(&facts));
}

#[test]
fn no_foreground_window_is_reported() {
    assert_eq!(
        reason(classify(&config(vec![]), None)),
        ClassificationFailure::NoForegroundWindow
    );
}

#[test]
fn unresolved_identity_is_reported() {
    let facts = window(31337, "t", SCREEN);
    assert_eq!(
        reason(classify(&config(vec![]), Some(&facts))),
        ClassificationFailure::IdentityResolutionFailed
    );
}

#[test]
fn ignored_window_is_reported() {
    let rules = vec![RuleEntry { ignore: true, ..rule("chat") }];
    let facts = window(812, "Chat", SCREEN);
    assert_eq!(
        reason(classify(&config(rules), Some(&facts))),
        ClassificationFailure::WindowIgnored
    );
}

#[test]
fn ignore_is_checked_before_fullscreen() {
    let rules = vec![RuleEntry { ignore: true, ..rule("chat") }];
    let facts = window(812, "Chat", SMALL);
    assert_eq!(
        reason(classify(&config(rules), Some(&facts))),
        ClassificationFailure::WindowIgnored
    );
}

#[test]
fn windowed_application_without_a_rule_is_reported() {
    let facts = window(4242, "Game", SMALL);
    assert_eq!(
        reason(classify(&config(vec![]), Some(&facts))),
        ClassificationFailure::NotFullscreen
    );
}

#[test]
fn unknown_bounds_count_as_not_fullscreen() {
    let mut facts = window(4242, "Game", SCREEN);
    facts.monitor_rect = None;
    assert_eq!(
        reason(classify(&config(vec![]), Some(&facts))),
        ClassificationFailure::NotFullscreen
    );
}

#[test]
fn fullscreen_application_without_a_rule_is_a_target() {
    let facts = window(4242, "Game", SCREEN);
    assert_eq!(
        target(classify(&config(vec![]), Some(&facts))),
        (0x2071e, "game".to_string())
    );
}

#[test]
fn rule_may_waive_fullscreen() {
    let rules = vec![RuleEntry { needs_fullscreen: false, ..rule("GAME") }];
    let mut facts = window(4242, "Game", SMALL);
    assert_eq!(
        target(classify(&config(rules), Some(&facts))),
        (0x2071e, "game".to_string())
    );
    // The bounds are not even needed then.
    let rules = vec![RuleEntry { needs_fullscreen: false, ..rule("GAME") }];
    facts.window_rect = None;
    facts.monitor_rect = None;
    assert_eq!(
        target(classify(&config(rules), Some(&facts))),
        (0x2071e, "game".to_string())
    );
}

#[test]
fn rule_may_name_the_bucket_by_the_title() {
    let rules = vec![RuleEntry { use_window_name: true, ..rule("browser") }];
    let facts = window(5000, "My Trip Photos - Browser", SCREEN);
    assert_eq!(
        target(classify(&config(rules), Some(&facts))),
        (0x2071e, "My Trip Photos - Browser".to_string())
    );
}

#[test]
fn title_that_names_the_bucket_is_normalized() {
    let rules = vec![RuleEntry { use_window_name: true, ..rule("browser") }];
    let facts = window(5000, "News: today | Browser", SCREEN);
    assert_eq!(
        target(classify(&config(rules), Some(&facts))),
        (0x2071e, "News_ today _ Browser".to_string())
    );
}

#[test]
fn missing_title_that_was_to_name_the_bucket_is_reported() {
    let rules = vec![RuleEntry { use_window_name: true, ..rule("browser") }];
    let mut facts = window(5000, "t", SCREEN);
    facts.title = None;
    assert_eq!(
        reason(classify(&config(rules), Some(&facts))),
        ClassificationFailure::IdentityResolutionFailed
    );
}

#[test]
fn override_goes_before_the_title() {
    let rules = vec![RuleEntry {
        use_window_name: true,
        override_name: Some("Web: all".to_string()),
        ..rule("browser")
    }];
    let mut facts = window(5000, "My Trip Photos - Browser", SCREEN);
    // The override is taken as it is written, and the title is not needed.
    facts.title = None;
    assert_eq!(
        target(classify(&config(rules), Some(&facts))),
        (0x2071e, "Web: all".to_string())
    );
}

#[test]
fn unowned_window_is_looked_up_by_its_normalized_title() {
    let rules = vec![RuleEntry { ignore: true, ..rule("program manager_") }];
    let facts = window(0, "Program Manager:", SCREEN);
    assert_eq!(
        reason(classify(&config(rules), Some(&facts))),
        ClassificationFailure::WindowIgnored
    );
    let facts = window(0, "Program Manager:", SCREEN);
    assert_eq!(
        target(classify(&config(vec![]), Some(&facts))),
        (0x2071e, "Program Manager_".to_string())
    );
}
