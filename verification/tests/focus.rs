use focus_time::cli::Cli;
use focus_time::config::ConfigFile;
use focus_time::focus::{
    create_config, get_duration, parse_duration, EnvAction, Event, ExitReason, Focus, FocusConfig,
    SessionState, Signal,
};

#[test]
fn test_parse_duration_valid() {
    assert_eq!(parse_duration("50s"), Some(50));
    assert_eq!(parse_duration("100s"), Some(100));
    assert_eq!(parse_duration("4m"), Some(4 * 60));
    assert_eq!(parse_duration("3h"), Some(3 * 60 * 60));
    assert_eq!(parse_duration("1d"), Some(24 * 60 * 60));
}

#[test]
fn test_parse_duration_invalid() {
    assert_eq!(parse_duration("50"), None);
    assert_eq!(parse_duration("s"), None);
    assert_eq!(parse_duration("s10m"), None);
    assert_eq!(parse_duration("m"), None);
    assert_eq!(parse_duration("m45"), None);
    assert_eq!(parse_duration("h"), None);
    assert_eq!(parse_duration("d"), None);
    assert_eq!(parse_duration("s13"), None);
    assert_eq!(parse_duration("secs"), None);
    assert_eq!(parse_duration("12x"), None);
    assert_eq!(parse_duration("x"), None);
    assert_eq!(parse_duration("42 m"), None);
    assert_eq!(parse_duration(""), None);
}

#[test]
fn parse_duration_edges() {
    assert_eq!(parse_duration("0s"), Some(0));
    assert_eq!(parse_duration("05s"), Some(5));
    // One more than the largest machine word.
    assert_eq!(parse_duration("18446744073709551616s"), None);
    // The digits fit, the unit conversion does not.
    assert_eq!(parse_duration("18446744073709551615d"), None);
}

#[test]
fn test_get_duration_arg() {
    let arg = Some("10m".to_string());
    let config = None;
    assert_eq!(get_duration(&arg, &config), Ok(10 * 60));
}

#[test]
fn test_get_duration_arg_precedence() {
    let arg = Some("20m".to_string());
    let config = Some("1h".to_string());
    assert_eq!(get_duration(&arg, &config), Ok(20 * 60));
    let arg = Some("10m".to_string());
    let config = Some("m".to_string());
    assert_eq!(get_duration(&arg, &config), Ok(10 * 60));
}

#[test]
fn test_get_duration_config() {
    let arg = None;
    let config = Some("25m".to_string());
    assert_eq!(get_duration(&arg, &config), Ok(25 * 60));
}

#[test]
fn test_get_duration_default() {
    let arg = None;
    let config = None;
    assert_eq!(get_duration(&arg, &config), Ok(25 * 60));
}

#[test]
fn test_get_duration_invalid() {
    // Invalid duration in argument
    let arg = Some("4".to_string());
    let config = None;
    assert_eq!(
        get_duration(&arg, &config),
        Err("Invalid duration: '4'".to_string())
    );

    // Invalid duration in config
    let arg = None;
    let config = Some("m".to_string());
    assert_eq!(
        get_duration(&arg, &config),
        Err("Invalid duration: 'm'".to_string())
    );

    // Invalid duration in argument, should not fall back to config value
    let arg = Some("42".to_string());
    let config = Some("42h".to_string());
    assert_eq!(
        get_duration(&arg, &config),
        Err("Invalid duration: '42'".to_string())
    );
}

fn plain_cli() -> Cli {
    Cli {
        command: None,
        duration: None,
        no_notification: false,
        keep_status_bar: false,
        print_time: false,
        config: None,
        log_level: "error".to_string(),
    }
}

fn plain_file() -> ConfigFile {
    ConfigFile {
        duration: None,
        no_notification: None,
        keep_status_bar: None,
        print_time: None,
    }
}

#[test]
fn create_config_merges_duration_and_flags() {
    let mut file = plain_file();
    file.duration = Some("1h".to_string());
    file.no_notification = Some(true);
    file.print_time = Some(false);
    let mut args = plain_cli();
    args.duration = Some("20m".to_string());
    args.keep_status_bar = true;
    let c = create_config(file, args).unwrap();
    assert_eq!(c.duration, 20 * 60);
    assert!(c.no_notification);
    assert!(c.keep_status_bar);
    assert!(!c.print_time);
}

#[test]
fn create_config_invalid_argument_does_not_fall_back() {
    let mut file = plain_file();
    file.duration = Some("1h".to_string());
    let mut args = plain_cli();
    args.duration = Some("nope".to_string());
    assert_eq!(
        create_config(file, args).err(),
        Some("Invalid duration: 'nope'".to_string())
    );
}

#[test]
fn session_toggled_twice_times_out_and_notifies_once() {
    let config = FocusConfig {
        duration: 60,
        no_notification: false,
        keep_status_bar: false,
        print_time: false,
    };
    let mut f = Focus::new(config, 0);
    let entry = f.begin();
    assert_eq!(entry, vec![EnvAction::EnableDnd, EnvAction::HideBars]);
    assert_eq!(
        entry.iter().filter(|a| **a == EnvAction::HideBars).count(),
        1
    );

    assert!(!f.check_timeout(1_000));
    f.handle_event(Event::Remote(Signal::TogglePause), 10_000);
    assert!(f.timer.is_paused());
    f.handle_event(Event::Remote(Signal::TogglePause), 20_000);
    assert!(!f.timer.is_paused());
    assert_eq!(f.state, SessionState::Running);
    // Ten seconds were spent paused; they are excluded from the countdown.
    assert_eq!(f.timer.remaining(30_000), 40_000);

    assert!(!f.check_timeout(69_999));
    assert!(f.check_timeout(70_000));
    assert_eq!(f.state, SessionState::Exiting(ExitReason::Timeout));
    let exit = f.finish();
    assert_eq!(
        exit,
        vec![
            EnvAction::ShowCursor,
            EnvAction::DisableDnd,
            EnvAction::RestoreBars,
            EnvAction::Notify,
        ]
    );
    assert_eq!(exit.iter().filter(|a| **a == EnvAction::Notify).count(), 1);
    assert_eq!(f.state, SessionState::Done(ExitReason::Timeout));
}

#[test]
fn remote_stop_ends_session_and_notifies_despite_config() {
    let config = FocusConfig {
        duration: 1500,
        no_notification: true,
        keep_status_bar: true,
        print_time: false,
    };
    let mut f = Focus::new(config, 0);
    let entry = f.begin();
    assert_eq!(entry, vec![EnvAction::EnableDnd]);

    f.handle_event(Event::Remote(Signal::Dbus), 5_000);
    assert_eq!(f.state, SessionState::Exiting(ExitReason::RemoteStop));
    let exit = f.finish();
    assert_eq!(
        exit,
        vec![EnvAction::ShowCursor, EnvAction::DisableDnd, EnvAction::Notify]
    );
    assert_eq!(f.state, SessionState::Done(ExitReason::RemoteStop));
}

#[test]
fn local_interrupt_respects_no_notification() {
    let config = FocusConfig {
        duration: 1500,
        no_notification: true,
        keep_status_bar: true,
        print_time: false,
    };
    let mut f = Focus::new(config, 0);
    f.begin();
    f.handle_event(Event::LocalInterrupt, 5_000);
    assert_eq!(f.state, SessionState::Exiting(ExitReason::LocalInterrupt));
    let exit = f.finish();
    assert_eq!(exit, vec![EnvAction::ShowCursor, EnvAction::DisableDnd]);
}

#[test]
fn channel_closed_ends_session_like_an_interrupt() {
    let config = FocusConfig {
        duration: 1500,
        no_notification: false,
        keep_status_bar: false,
        print_time: false,
    };
    let mut f = Focus::new(config, 0);
    f.begin();
    f.handle_event(Event::ChannelClosed, 5_000);
    assert_eq!(f.state, SessionState::Exiting(ExitReason::ChannelClosed));
    let exit = f.finish();
    assert_eq!(
        exit,
        vec![
            EnvAction::ShowCursor,
            EnvAction::DisableDnd,
            EnvAction::RestoreBars,
            EnvAction::Notify,
        ]
    );
}
