use std::sync::{Arc, Mutex};

use wixet_bootstrap::logger::{
    build_dispatch, default_level, install, install_outcome, with_stdout, ConfigError, LevelFilter,
};

struct Quiet;

impl log::Log for Quiet {
    fn enabled(&self, _: &log::Metadata) -> bool {
        false
    }

    fn log(&self, _: &log::Record) {}

    fn flush(&self) {}
}

type Seen = Arc<Mutex<Vec<(String, log::Level)>>>;

fn collecting(dispatch: fern::Dispatch) -> (Box<dyn log::Log>, Seen) {
    let seen: Seen = Arc::new(Mutex::new(Vec::new()));
    let sink = seen.clone();
    let output = fern::Output::call(move |record| {
        sink.lock()
            .unwrap()
            .push((record.target().to_string(), record.level()))
    });
    let (_, logger) = dispatch.chain(output).into_log();
    (logger, seen)
}

fn emit(logger: &dyn log::Log, target: &str, level: log::Level) {
    let record = log::Record::builder().target(target).level(level).build();
    logger.log(&record);
}

fn emitted(seen: &Seen) -> Vec<(String, log::Level)> {
    seen.lock().unwrap().clone()
}

#[test]
fn default_level_is_info() {
    assert_eq!(default_level(None), LevelFilter::Info);
    assert_eq!(default_level(Some(LevelFilter::Off)), LevelFilter::Off);
    assert_eq!(default_level(Some(LevelFilter::Trace)), LevelFilter::Trace);
}

#[test]
fn without_a_level_info_passes_and_debug_does_not() {
    let (logger, seen) = collecting(build_dispatch(None, None));
    emit(logger.as_ref(), "app", log::Level::Error);
    emit(logger.as_ref(), "app", log::Level::Warn);
    emit(logger.as_ref(), "app", log::Level::Info);
    emit(logger.as_ref(), "app", log::Level::Debug);
    emit(logger.as_ref(), "app", log::Level::Trace);
    assert_eq!(
        emitted(&seen),
        vec![
            ("app".to_string(), log::Level::Error),
            ("app".to_string(), log::Level::Warn),
            ("app".to_string(), log::Level::Info),
        ]
    );
}

#[test]
fn the_level_asked_for_is_the_default_filter() {
    let (logger, seen) = collecting(build_dispatch(Some(LevelFilter::Debug), None));
    emit(logger.as_ref(), "app", log::Level::Debug);
    emit(logger.as_ref(), "app", log::Level::Trace);
    assert_eq!(emitted(&seen), vec![("app".to_string(), log::Level::Debug)]);

    let (logger, seen) = collecting(build_dispatch(Some(LevelFilter::Error), Some(vec![])));
    emit(logger.as_ref(), "app", log::Level::Warn);
    emit(logger.as_ref(), "app", log::Level::Error);
    assert_eq!(emitted(&seen), vec![("app".to_string(), log::Level::Error)]);
}

#[test]
fn a_noisy_module_is_silenced_and_the_rest_stays_at_info() {
    let overrides = vec![("noisy_dep".to_string(), LevelFilter::Error)];
    let (logger, seen) = collecting(build_dispatch(Some(LevelFilter::Info), Some(overrides)));
    emit(logger.as_ref(), "noisy_dep", log::Level::Info);
    emit(logger.as_ref(), "noisy_dep", log::Level::Debug);
    emit(logger.as_ref(), "noisy_dep", log::Level::Trace);
    emit(logger.as_ref(), "noisy_dep", log::Level::Error);
    emit(logger.as_ref(), "other", log::Level::Info);
    emit(logger.as_ref(), "other", log::Level::Debug);
    assert_eq!(
        emitted(&seen),
        vec![
            ("noisy_dep".to_string(), log::Level::Error),
            ("other".to_string(), log::Level::Info),
        ]
    );
}

#[test]
fn an_override_may_let_more_through_than_the_default() {
    let overrides = vec![("chatty".to_string(), LevelFilter::Trace)];
    let (logger, seen) = collecting(build_dispatch(None, Some(overrides)));
    emit(logger.as_ref(), "chatty", log::Level::Trace);
    emit(logger.as_ref(), "quiet", log::Level::Trace);
    assert_eq!(emitted(&seen), vec![("chatty".to_string(), log::Level::Trace)]);
}

#[test]
fn a_later_override_replaces_an_earlier_one() {
    let overrides = vec![
        ("dep".to_string(), LevelFilter::Trace),
        ("other".to_string(), LevelFilter::Off),
        ("dep".to_string(), LevelFilter::Warn),
    ];
    let (logger, seen) = collecting(build_dispatch(None, Some(overrides)));
    emit(logger.as_ref(), "dep", log::Level::Info);
    emit(logger.as_ref(), "dep", log::Level::Warn);
    emit(logger.as_ref(), "other", log::Level::Error);
    assert_eq!(emitted(&seen), vec![("dep".to_string(), log::Level::Warn)]);
}

#[test]
fn the_first_installation_succeeds_and_a_second_is_refused() {
    assert_eq!(install(build_dispatch(None, None)), Ok(()));
    assert_eq!(log::max_level(), log::LevelFilter::Info);
    assert_eq!(
        install(build_dispatch(Some(LevelFilter::Trace), None)),
        Err(ConfigError::AlreadyInstalled)
    );
    assert_eq!(log::max_level(), log::LevelFilter::Info);
}

#[test]
fn an_installed_logger_filters_by_module() {
    let overrides = vec![("noisy_dep".to_string(), LevelFilter::Error)];
    assert_eq!(install(build_dispatch(Some(LevelFilter::Info), Some(overrides))), Ok(()));
    let info = |target| {
        log::logger().enabled(
            &log::Metadata::builder()
                .target(target)
                .level(log::Level::Info)
                .build(),
        )
    };
    assert!(!info("noisy_dep"));
    assert!(info("other"));
}

#[test]
fn a_refusal_of_the_facade_is_a_configuration_error() {
    assert_eq!(install_outcome(log::set_boxed_logger(Box::new(Quiet))), Ok(()));
    assert_eq!(
        install_outcome(log::set_boxed_logger(Box::new(Quiet))),
        Err(ConfigError::AlreadyInstalled)
    );
}

fn info_reaches_an_output(dispatch: fern::Dispatch) -> bool {
    let (_, logger) = dispatch.into_log();
    logger.enabled(
        &log::Metadata::builder()
            .target("app")
            .level(log::Level::Info)
            .build(),
    )
}

#[test]
fn a_built_dispatch_has_no_output_until_stdout_is_added() {
    assert!(!info_reaches_an_output(build_dispatch(None, None)));
    assert!(info_reaches_an_output(with_stdout(build_dispatch(None, None))));
}

#[test]
fn adding_stdout_keeps_the_filters() {
    let overrides = vec![("noisy_dep".to_string(), LevelFilter::Error)];
    let (_, logger) =
        with_stdout(build_dispatch(Some(LevelFilter::Warn), Some(overrides))).into_log();
    let enabled = |target, level| {
        logger.enabled(&log::Metadata::builder().target(target).level(level).build())
    };
    assert!(enabled("app", log::Level::Warn));
    assert!(!enabled("app", log::Level::Info));
    assert!(enabled("noisy_dep", log::Level::Error));
    assert!(!enabled("noisy_dep", log::Level::Warn));
}

#[test]
fn an_installed_logger_writes_to_the_standard_output() {
    assert_eq!(install(build_dispatch(None, None)), Ok(()));
    assert!(log::logger().enabled(
        &log::Metadata::builder()
            .target("app")
            .level(log::Level::Info)
            .build()
    ));
}
