//! Where the bridge address and user token come from: a value given on the
//! command line wins over the one read from the settings file.

use vstd::prelude::*;

verus! {

/// The value that resolution picks: the command-line value if present,
/// else the settings-file value, else nothing.
pub open spec fn resolved<T>(cli: Option<T>, file: Option<T>) -> Option<T> {
    match cli {
        Some(v) => Some(v),
        None => file,
    }
}

/// Picks the command-line value `v1` when it is given, else the value `v2`
/// read from the settings file.
pub fn or_config(v1: &Option<String>, v2: Option<String>) -> (r: Option<String>)
    ensures
        r == resolved(*v1, v2),
{
    match v1 {
        Some(s) => Some(s.clone()),
        None => v2,
    }
}

/// Resolution, case by case: a command-line value is always the one
/// taken; without it the settings-file value is taken; without both there
/// is no value.
pub proof fn lemma_resolution<T>(cli: Option<T>, file: Option<T>)
    ensures
        cli is Some ==> resolved(cli, file) == cli,
        cli is None ==> resolved(cli, file) == file,
        cli is None && file is None ==> resolved(cli, file) is None,
{
}

/// What the settings file holds, as the `config` crate loaded it.
#[verifier::external_type_specification]
#[verifier::external_body]
pub struct ExConfig(config::Config);

/// Why the `config` crate could not load the settings file.
#[verifier::external_type_specification]
#[verifier::external_body]
pub struct ExConfigError(config::ConfigError);

/// The variants of `config::ConfigError`, one for one.
#[derive(Clone, Copy, Debug, PartialEq, Eq, Structural)]
pub enum ConfigErrorKind {
    /// The settings were frozen against change.
    Frozen,
    /// A key was not found.
    NotFound,
    /// A key path could not be parsed.
    PathParse,
    /// The file's contents could not be parsed: a malformed file.
    FileParse,
    /// A value had another type than the one asked for.
    Type,
    /// A custom message.
    Message,
    /// An error from elsewhere; a file that cannot be opened, a missing one
    /// among them, comes back as this.
    Foreign,
}

/// The variant of a `config::ConfigError`.
pub uninterp spec fn kind_of(e: config::ConfigError) -> ConfigErrorKind;

/// Relies on the variants of `config::ConfigError`: names the variant of
/// `e`, one arm for each.
#[verifier::external_body]
fn config_error_kind(e: &config::ConfigError) -> (r: ConfigErrorKind)
    ensures
        r == kind_of(*e),
{
    match e {
        config::ConfigError::Frozen => ConfigErrorKind::Frozen,
        config::ConfigError::NotFound(_) => ConfigErrorKind::NotFound,
        config::ConfigError::PathParse(_) => ConfigErrorKind::PathParse,
        config::ConfigError::FileParse { .. } => ConfigErrorKind::FileParse,
        config::ConfigError::Type { .. } => ConfigErrorKind::Type,
        config::ConfigError::Message(_) => ConfigErrorKind::Message,
        config::ConfigError::Foreign(_) => ConfigErrorKind::Foreign,
    }
}

/// A load failure that counts as no settings at all: a missing file, an
/// unreadable one, or a malformed one.
pub open spec fn counts_as_missing(kind: ConfigErrorKind) -> bool {
    kind == ConfigErrorKind::NotFound || kind == ConfigErrorKind::Foreign
        || kind == ConfigErrorKind::FileParse
}

/// Whether a load failure of this kind is treated as an empty settings file
/// rather than an error.
pub fn is_missing_settings(kind: ConfigErrorKind) -> (r: bool)
    ensures
        r == counts_as_missing(kind),
{
    match kind {
        ConfigErrorKind::NotFound => true,
        ConfigErrorKind::Foreign => true,
        ConfigErrorKind::FileParse => true,
        ConfigErrorKind::Frozen => false,
        ConfigErrorKind::PathParse => false,
        ConfigErrorKind::Type => false,
        ConfigErrorKind::Message => false,
    }
}

/// Turns the result of loading the settings file into what resolution
/// works with: the loaded settings, `None` for no settings, or the error.
/// A missing, unreadable or malformed file gives `None`.
/// A loaded file is kept as it is, and an error that comes out is the one
/// that came in.
pub fn load_outcome(loaded: Result<config::Config, config::ConfigError>) -> (r: Result<
    Option<config::Config>,
    config::ConfigError,
>)
    ensures
        loaded is Ok ==> r == Ok::<Option<config::Config>, config::ConfigError>(
            Some(loaded->Ok_0),
        ),
        r is Err ==> loaded is Err && r->Err_0 == loaded->Err_0,
        r is Ok && r->Ok_0 is None ==> loaded is Err,
        loaded is Err ==> (r is Ok <==> counts_as_missing(kind_of(loaded->Err_0))),
        loaded is Err && counts_as_missing(kind_of(loaded->Err_0)) ==> r == Ok::<
            Option<config::Config>,
            config::ConfigError,
        >(None),
{
    match loaded {
        Ok(c) => Ok(Some(c)),
        Err(e) => {
            let kind = config_error_kind(&e);
            if is_missing_settings(kind) {
                Ok(None)
            } else {
                Err(e)
            }
        },
    }
}

} // verus!
