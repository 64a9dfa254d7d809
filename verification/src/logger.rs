//! The log dispatch: a default severity filter and per-module overrides.
//!
//! The dispatch is built and installed here; the line format and the log file
//! are attached by the caller in between.

use vstd::prelude::*;

verus! {

/// A severity filter: records above it are dropped.
#[derive(Clone, Copy, Debug, PartialEq, Eq, Structural)]
pub enum LevelFilter {
    Off,
    Error,
    Warn,
    Info,
    Debug,
    Trace,
}

/// `fern::Dispatch`, the builder of a logger. Its contents are spoken of only
/// through [`dispatch_default_level`] and [`dispatch_module_levels`].
#[verifier::external_type_specification]
#[verifier::external_body]
pub struct ExDispatch(fern::Dispatch);

/// The default filter that a dispatch applies to every module.
pub uninterp spec fn dispatch_default_level(dispatch: fern::Dispatch) -> LevelFilter;

/// The per-module filters that a dispatch holds, by module name.
pub uninterp spec fn dispatch_module_levels(dispatch: fern::Dispatch) -> Map<
    Seq<char>,
    LevelFilter,
>;

/// How many of a dispatch's outputs are the standard output.
pub uninterp spec fn dispatch_stdout_outputs(dispatch: fern::Dispatch) -> nat;

/// No per-module filter at all.
pub open spec fn no_overrides() -> Map<Seq<char>, LevelFilter> {
    Map::empty()
}

/// The filter applied where none is asked for.
pub open spec fn default_level_spec(level: Option<LevelFilter>) -> LevelFilter {
    match level {
        Some(level) => level,
        None => LevelFilter::Info,
    }
}

/// The per-module filters that a list of overrides amounts to: each entry
/// replaces an earlier one for the same module.
pub open spec fn module_overrides(entries: Seq<(String, LevelFilter)>) -> Map<
    Seq<char>,
    LevelFilter,
>
    decreases entries.len(),
{
    if entries.len() == 0 {
        no_overrides()
    } else {
        module_overrides(entries.drop_last()).insert(entries.last().0@, entries.last().1)
    }
}

/// The per-module filters asked for, none where no list is given.
pub open spec fn requested_overrides(extra_levels: Option<Vec<(String, LevelFilter)>>) -> Map<
    Seq<char>,
    LevelFilter,
> {
    match extra_levels {
        Some(entries) => module_overrides(entries@),
        None => no_overrides(),
    }
}

/// `fern::Dispatch::new`: trusted to give a dispatch that lets every severity
/// through and holds no per-module filter and no output.
#[verifier::external_body]
fn dispatch_new() -> (dispatch: fern::Dispatch)
    ensures
        dispatch_default_level(dispatch) == LevelFilter::Trace,
        dispatch_module_levels(dispatch) == no_overrides(),
        dispatch_stdout_outputs(dispatch) == 0,
{
    fern::Dispatch::new()
}

/// `fern::Dispatch::level`: trusted to replace the default filter and to keep
/// the per-module filters and the outputs.
#[verifier::external_body]
fn dispatch_level(dispatch: fern::Dispatch, level: LevelFilter) -> (r: fern::Dispatch)
    ensures
        dispatch_default_level(r) == level,
        dispatch_module_levels(r) == dispatch_module_levels(dispatch),
        dispatch_stdout_outputs(r) == dispatch_stdout_outputs(dispatch),
{
    dispatch.level(match level {
        LevelFilter::Off => log::LevelFilter::Off,
        LevelFilter::Error => log::LevelFilter::Error,
        LevelFilter::Warn => log::LevelFilter::Warn,
        LevelFilter::Info => log::LevelFilter::Info,
        LevelFilter::Debug => log::LevelFilter::Debug,
        LevelFilter::Trace => log::LevelFilter::Trace,
    })
}

/// `fern::Dispatch::level_for`: trusted to set the filter of one module,
/// replacing an earlier filter for the same name, and to keep the default
/// filter, the filters of the other modules and the outputs.
#[verifier::external_body]
fn dispatch_level_for(dispatch: fern::Dispatch, module: String, level: LevelFilter) -> (r:
    fern::Dispatch)
    ensures
        dispatch_default_level(r) == dispatch_default_level(dispatch),
        dispatch_module_levels(r) == dispatch_module_levels(dispatch).insert(module@, level),
        dispatch_stdout_outputs(r) == dispatch_stdout_outputs(dispatch),
{
    dispatch.level_for(module, match level {
        LevelFilter::Off => log::LevelFilter::Off,
        LevelFilter::Error => log::LevelFilter::Error,
        LevelFilter::Warn => log::LevelFilter::Warn,
        LevelFilter::Info => log::LevelFilter::Info,
        LevelFilter::Debug => log::LevelFilter::Debug,
        LevelFilter::Trace => log::LevelFilter::Trace,
    })
}

/// `log::SetLoggerError`, the refusal to install a second logger.
#[verifier::external_type_specification]
#[verifier::external_body]
pub struct ExSetLoggerError(log::SetLoggerError);

/// Why the logger could not be installed.
#[derive(Clone, Copy, Debug, PartialEq, Eq, Structural)]
pub enum ConfigError {
    /// A logger is already installed in this process.
    AlreadyInstalled,
}

/// `fern::Dispatch::chain` with `std::io::stdout`: trusted to add the standard
/// output as one more output and to keep every filter.
#[verifier::external_body]
fn dispatch_chain_stdout(dispatch: fern::Dispatch) -> (r: fern::Dispatch)
    ensures
        dispatch_default_level(r) == dispatch_default_level(dispatch),
        dispatch_module_levels(r) == dispatch_module_levels(dispatch),
        dispatch_stdout_outputs(r) == dispatch_stdout_outputs(dispatch) + 1,
{
    dispatch.chain(std::io::stdout())
}

/// `fern::Dispatch::apply`: installs the dispatch as the logger of the
/// process. Whether it succeeds depends on what the process has installed
/// before, so nothing is claimed of the result. The library installs no
/// logger that leaves the standard output out: the dispatch must write to it.
#[verifier::external_body]
fn dispatch_apply(dispatch: fern::Dispatch) -> (r: Result<(), log::SetLoggerError>)
    requires
        dispatch_stdout_outputs(dispatch) >= 1,
{
    dispatch.apply()
}

/// Adds the standard output to the outputs of the dispatch, once, and keeps
/// its filters.
pub fn with_stdout(dispatch: fern::Dispatch) -> (r: fern::Dispatch)
    ensures
        dispatch_default_level(r) == dispatch_default_level(dispatch),
        dispatch_module_levels(r) == dispatch_module_levels(dispatch),
        dispatch_stdout_outputs(r) == dispatch_stdout_outputs(dispatch) + 1,
{
    dispatch_chain_stdout(dispatch)
}

/// What installing amounts to, given what the logging facade answered:
/// success exactly where it accepted the logger.
pub fn install_outcome(applied: Result<(), log::SetLoggerError>) -> (r: Result<(), ConfigError>)
    ensures
        r.is_ok() <==> applied.is_ok(),
        applied.is_err() ==> r == Err::<(), ConfigError>(ConfigError::AlreadyInstalled),
{
    match applied {
        Ok(()) => Ok(()),
        Err(_) => Err(ConfigError::AlreadyInstalled),
    }
}

/// Installs the dispatch, with the standard output added by [`with_stdout`],
/// as the logger of the process. The process decides the outcome: the first
/// installation succeeds, a later one is refused; [`install_outcome`] says
/// what is returned for each answer.
pub fn install(dispatch: fern::Dispatch) -> (r: Result<(), ConfigError>)
    ensures
        r.is_err() ==> r == Err::<(), ConfigError>(ConfigError::AlreadyInstalled),
{
    install_outcome(dispatch_apply(with_stdout(dispatch)))
}

/// The filter applied to every module without an override: the one asked for,
/// `Info` where none is.
pub fn default_level(level: Option<LevelFilter>) -> (r: LevelFilter)
    ensures
        r == default_level_spec(level),
{
    match level {
        Some(level) => level,
        None => LevelFilter::Info,
    }
}

/// Builds the dispatch of the logger: its default filter is `level`, or `Info`
/// where none is given, and its per-module filters are exactly those of
/// `extra_levels`, a later entry for a module replacing an earlier one. It has
/// no output yet.
pub fn build_dispatch(level: Option<LevelFilter>, extra_levels: Option<Vec<(String, LevelFilter)>>)
    -> (dispatch: fern::Dispatch)
    ensures
        dispatch_default_level(dispatch) == default_level_spec(level),
        dispatch_module_levels(dispatch) == requested_overrides(extra_levels),
        dispatch_stdout_outputs(dispatch) == 0,
{
    let mut dispatch = dispatch_level(dispatch_new(), default_level(level));
    if let Some(entries) = &extra_levels {
        let mut i: usize = 0;
        while i < entries.len()
            invariant
                i <= entries.len(),
                dispatch_default_level(dispatch) == default_level_spec(level),
                dispatch_module_levels(dispatch) == module_overrides(entries@.take(i as int)),
                dispatch_stdout_outputs(dispatch) == 0,
            decreases entries.len() - i,
        {
            let module = entries[i].0.clone();
            dispatch = dispatch_level_for(dispatch, module, entries[i].1);
            proof {
                assert(entries@.take(i + 1).drop_last() =~= entries@.take(i as int));
            }
            i += 1;
        }
        proof {
            assert(entries@.take(entries.len() as int) =~= entries@);
        }
    }
    dispatch
}

/// A module has a filter of its own exactly where some entry names it: an
/// override touches no other module.
pub proof fn override_names_its_module(entries: Seq<(String, LevelFilter)>, module: Seq<char>)
    ensures
        module_overrides(entries).contains_key(module) <==> exists|i: int|
            0 <= i < entries.len() && (#[trigger] entries[i]).0@ == module,
    decreases entries.len(),
{
    if entries.len() > 0 {
        let front = entries.drop_last();
        let last = entries.len() - 1;
        override_names_its_module(front, module);
        if entries[last].0@ != module {
            if module_overrides(front).contains_key(module) {
                let i = choose|i: int| 0 <= i < front.len() && (#[trigger] front[i]).0@ == module;
                assert(entries[i].0@ == module);
            }
            if exists|i: int| 0 <= i < entries.len() && (#[trigger] entries[i]).0@ == module {
                let i = choose|i: int|
                    0 <= i < entries.len() && (#[trigger] entries[i]).0@ == module;
                assert(front[i].0@ == module);
            }
        }
    }
}

/// The filter of a module is the one of the last entry that names it,
/// whether stricter or more verbose than the default.
pub proof fn last_override_decides(entries: Seq<(String, LevelFilter)>, i: int)
    requires
        0 <= i < entries.len(),
        forall|j: int| i < j < entries.len() ==> (#[trigger] entries[j]).0@ != entries[i].0@,
    ensures
        module_overrides(entries).contains_key(entries[i].0@),
        module_overrides(entries)[entries[i].0@] == entries[i].1,
    decreases entries.len(),
{
    let front = entries.drop_last();
    let last = entries.len() - 1;
    if i != last {
        assert(entries[last].0@ != entries[i].0@);
        assert(front[i] == entries[i]);
        assert forall|j: int| i < j < front.len() implies (#[trigger] front[j]).0@
            != front[i].0@ by {
            assert(front[j] == entries[j]);
        }
        last_override_decides(front, i);
    }
}

} // verus!
