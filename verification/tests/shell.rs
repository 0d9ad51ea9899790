use nubo_shell::commands::{get_os_theme, is_online, set_badge_count};
use nubo_shell::deeplink::{route, RouteAction};
use nubo_shell::instance::{InstanceCoordinator, Invocation, LaunchDecision, forwarded_activation};
use nubo_shell::settings::{load_settings, save_settings, AppSettings, StoreDoc, WindowState};
use nubo_shell::update::{
    progress_percent, rollback_message, rollback_update, manual_check_response, CheckOutcome,
    DownloadOutcome, RollbackOutcome, UpdateManager, UpdateState,
};
use nubo_shell::window::{capture, get_window_state, restore, save_window_state};

fn nav_url(action: RouteAction) -> String {
    match action {
        RouteAction::Navigate { url } => url,
        RouteAction::Ignore => panic!("expected a navigation"),
    }
}

#[test]
fn empty_store_loads_documented_defaults() {
    let doc = StoreDoc::empty();
    let settings = load_settings(&doc);
    assert_eq!(settings.window_state.width, 1400);
    assert_eq!(settings.window_state.height, 900);
    assert_eq!(settings.window_state.x, 100);
    assert_eq!(settings.window_state.y, 100);
    assert!(!settings.window_state.maximized);
    assert_eq!(settings.last_version, None);
    assert!(settings.update_check_enabled);
    assert!(settings.notifications_enabled);
}

#[test]
fn defaults_match_empty_store_load() {
    let from_empty = load_settings(&StoreDoc::empty());
    let direct = AppSettings::default();
    assert_eq!(from_empty.window_state, direct.window_state);
    assert_eq!(from_empty.last_version, direct.last_version);
    assert_eq!(from_empty.update_check_enabled, direct.update_check_enabled);
    assert_eq!(from_empty.notifications_enabled, direct.notifications_enabled);
}

#[test]
fn window_state_round_trips_through_store() {
    let written = WindowState { width: 1024, height: 768, x: -5, y: 42, maximized: true };
    let mut doc = StoreDoc::empty();
    let settings = AppSettings {
        window_state: written,
        last_version: Some(String::from("0.9.1")),
        update_check_enabled: false,
        notifications_enabled: false,
    };
    save_settings(&settings, &mut doc);
    let read_back = load_settings(&doc);
    assert_eq!(restore(&read_back), written);
    assert_eq!(read_back.last_version.as_deref(), Some("0.9.1"));
    assert!(!read_back.update_check_enabled);
    assert!(!read_back.notifications_enabled);
}

#[test]
fn save_without_reference_keeps_recorded_version() {
    let mut doc = StoreDoc::empty();
    doc.last_version = Some(String::from("1.2.3"));
    let settings = AppSettings { last_version: None, ..AppSettings::default() };
    save_settings(&settings, &mut doc);
    assert_eq!(doc.last_version.as_deref(), Some("1.2.3"));
    assert_eq!(load_settings(&doc).last_version.as_deref(), Some("1.2.3"));
}

#[test]
fn mailto_routes_to_compose_with_encoded_recipient() {
    let action = route("mailto:alice@example.com?subject=Hi");
    assert_eq!(
        nav_url(action),
        "https://nubo.email/mail/inbox?isComposeOpen=true&to=alice%40example.com"
    );
}

#[test]
fn mailto_without_query_takes_whole_remainder() {
    let action = route("mailto:bob@x.org");
    assert_eq!(
        nav_url(action),
        "https://nubo.email/mail/inbox?isComposeOpen=true&to=bob%40x.org"
    );
}

#[test]
fn mailto_with_empty_address_is_forwarded_as_is() {
    let action = route("mailto:?subject=Hello");
    assert_eq!(nav_url(action), "https://nubo.email/mail/inbox?isComposeOpen=true&to=");
}

#[test]
fn app_scheme_routes_to_path_under_host() {
    let action = route("nubo://settings/profile");
    assert_eq!(nav_url(action), "https://nubo.email/settings/profile");
}

#[test]
fn app_scheme_with_empty_path_routes_to_root() {
    let action = route("nubo://");
    assert_eq!(nav_url(action), "https://nubo.email/");
}

#[test]
fn unrelated_scheme_is_ignored() {
    let action = route("https://unrelated.com");
    assert!(matches!(action, RouteAction::Ignore));
}

#[test]
fn short_uri_is_ignored() {
    assert!(matches!(route(""), RouteAction::Ignore));
    assert!(matches!(route("mailto"), RouteAction::Ignore));
    assert!(matches!(route("nubo:/"), RouteAction::Ignore));
}

#[test]
fn accepting_update_records_rollback_reference_before_download() {
    let mut doc = StoreDoc::empty();
    let mut manager = UpdateManager::new(String::from("1.0.0"));
    manager.begin_check();
    let found = CheckOutcome::Found { version: String::from("1.1.0") };
    manager.record_check(&found, &mut doc);

    // Interrupted here, before any download: the reference is already durable.
    assert_eq!(load_settings(&doc).last_version.as_deref(), Some("1.0.0"));
    assert!(matches!(manager.state, UpdateState::UpdateAvailable { .. }));

    manager.begin_download();
    manager.record_download(&DownloadOutcome::Completed);
    match &manager.state {
        UpdateState::Installed { version } => assert_eq!(version, "1.1.0"),
        _ => panic!("expected the installed state"),
    }
    assert_eq!(load_settings(&doc).last_version.as_deref(), Some("1.0.0"));
}

#[test]
fn failed_download_reverts_to_idle_and_keeps_reference() {
    let mut doc = StoreDoc::empty();
    let mut manager = UpdateManager::new(String::from("2.0.0"));
    manager.begin_check();
    manager.record_check(&CheckOutcome::Found { version: String::from("2.1.0") }, &mut doc);
    manager.begin_download();
    manager.record_download(&DownloadOutcome::Failed { reason: String::from("timeout") });
    assert!(matches!(manager.state, UpdateState::Idle));
    assert_eq!(load_settings(&doc).last_version.as_deref(), Some("2.0.0"));
}

#[test]
fn check_without_update_leaves_store_alone() {
    let mut doc = StoreDoc::empty();
    let mut manager = UpdateManager::new(String::from("1.0.0"));
    manager.begin_check();
    manager.record_check(&CheckOutcome::UpToDate, &mut doc);
    assert!(matches!(manager.state, UpdateState::NoUpdateFound));
    assert!(doc.last_version.is_none());
    manager.begin_check();
    manager.record_check(&CheckOutcome::Failed { reason: String::from("offline") }, &mut doc);
    assert!(matches!(manager.state, UpdateState::CheckFailed));
    assert!(doc.last_version.is_none());
}

#[test]
fn manual_check_reports_immediately() {
    let found = CheckOutcome::Found { version: String::from("3.2.1") };
    assert_eq!(
        manual_check_response(&found).unwrap(),
        "Update 3.2.1 available - downloading..."
    );
    assert_eq!(manual_check_response(&CheckOutcome::UpToDate).unwrap(), "No updates available");
    let failed = CheckOutcome::Failed { reason: String::from("bad signature") };
    assert_eq!(manual_check_response(&failed).unwrap_err(), "bad signature");
}

#[test]
fn rollback_without_reference_is_unavailable_not_an_error() {
    let settings = AppSettings::default();
    let outcome = rollback_update(&settings);
    assert!(matches!(outcome, RollbackOutcome::Unavailable));
    assert_eq!(rollback_message(&outcome), "No previous version available for rollback");
}

#[test]
fn rollback_reports_recorded_version() {
    let settings = AppSettings { last_version: Some(String::from("1.4.2")), ..AppSettings::default() };
    let outcome = rollback_update(&settings);
    match &outcome {
        RollbackOutcome::Previous { version } => assert_eq!(version, "1.4.2"),
        RollbackOutcome::Unavailable => panic!("expected a recorded version"),
    }
    assert_eq!(
        rollback_message(&outcome),
        "Previous version was 1.4.2. Please download from GitHub releases."
    );
}

#[test]
fn progress_percent_is_exact_and_clamped() {
    assert_eq!(progress_percent(50, Some(200)), Some(25));
    assert_eq!(progress_percent(0, Some(7)), Some(0));
    assert_eq!(progress_percent(7, Some(7)), Some(100));
    assert_eq!(progress_percent(9, Some(7)), Some(100));
    assert_eq!(progress_percent(1, Some(3)), Some(33));
    assert_eq!(progress_percent(5, Some(0)), None);
    assert_eq!(progress_percent(5, None), None);
}

#[test]
fn capture_keeps_previous_value_on_failed_reads() {
    let prev = WindowState { width: 800, height: 600, x: 10, y: 20, maximized: false };
    assert_eq!(capture(prev, None, None, None), prev);
    let full = capture(prev, Some((1920, 1080)), Some((0, -3)), Some(true));
    assert_eq!(full, WindowState { width: 1920, height: 1080, x: 0, y: -3, maximized: true });
    let partial = capture(prev, Some((1024, 768)), None, None);
    assert_eq!(partial, WindowState { width: 1024, height: 768, x: 10, y: 20, maximized: false });
}

#[test]
fn window_close_write_lands_in_store() {
    let mut doc = StoreDoc::empty();
    doc.last_version = Some(String::from("0.5.0"));
    save_window_state(&mut doc, Some((640, 480)), Some((7, 8)), Some(false));
    let state = get_window_state(&doc);
    assert_eq!(state, WindowState { width: 640, height: 480, x: 7, y: 8, maximized: false });
    // The read-modify-write preserved the unrelated keys.
    assert_eq!(doc.last_version.as_deref(), Some("0.5.0"));
    assert_eq!(doc.update_check_enabled, Some(true));
    assert_eq!(doc.notifications_enabled, Some(true));
}

#[test]
fn two_launches_open_exactly_one_window() {
    let mut coordinator = InstanceCoordinator::unclaimed();
    let first = coordinator.handle_launch(Invocation {
        args: vec![String::from("nubo")],
        cwd: String::from("/home/alice"),
    });
    assert!(matches!(first, LaunchDecision::BecomePrimary));

    let second = coordinator.handle_launch(Invocation {
        args: vec![String::from("nubo"), String::from("mailto:alice@example.com")],
        cwd: String::from("/home/alice"),
    });
    let forwarded = match second {
        LaunchDecision::ForwardAndExit { forwarded } => forwarded,
        LaunchDecision::BecomePrimary => panic!("second launch must not open a window"),
    };
    assert_eq!(forwarded.args[1], "mailto:alice@example.com");

    // The primary brings its window forward, then routes the argument.
    let activation = forwarded_activation();
    assert!(activation.show && activation.unminimize && activation.focus);
    let action = route(&forwarded.args[1]);
    assert_eq!(
        nav_url(action),
        "https://nubo.email/mail/inbox?isComposeOpen=true&to=alice%40example.com"
    );
}

#[test]
fn simple_commands_answer_synchronously() {
    assert_eq!(get_os_theme().unwrap(), "system");
    assert_eq!(is_online().unwrap(), true);
    assert!(set_badge_count(3).is_ok());
    assert!(set_badge_count(-1).is_ok());
}
