//! Application configuration: its model, defaults, decoding and validation.

use vstd::prelude::*;
use vstd::string::to_string_from_display_ensures;
use ::config::{Value, ValueKind};

verus! {

/// `config::ConfigError`, the error of the `config` crate, carried through opaque.
#[verifier::external_type_specification]
#[verifier::external_body]
pub struct ExConfigError(::config::ConfigError);

/// `config::Config`, a built configuration of the `config` crate, carried through opaque.
#[verifier::external_type_specification]
#[verifier::external_body]
pub struct ExConfig(::config::Config);

/// Placeholder used when a build provenance variable is absent, i.e. outside a container.
pub const UNKNOWN: &'static str = "n/a";

/// Console log output format.
#[derive(Debug, Clone, Copy, PartialEq, Eq, Structural)]
pub enum LogFormat {
    /// Human-readable console output. Best for local development.
    Text,
    /// Newline-delimited JSON. Best for log shipping.
    Json,
}

impl Default for LogFormat {
    fn default() -> (r: Self)
        ensures
            r == LogFormat::Text,
    {
        LogFormat::Text
    }
}

/// Whether `c` has the Unicode `White_Space` property, the set of characters that
/// `str::trim` removes.
pub open spec fn is_white_space(c: char) -> bool {
    let u = c as u32;
    ||| 0x9 <= u <= 0xD
    ||| u == 0x20
    ||| u == 0x85
    ||| u == 0xA0
    ||| u == 0x1680
    ||| 0x2000 <= u <= 0x200A
    ||| u == 0x2028
    ||| u == 0x2029
    ||| u == 0x202F
    ||| u == 0x205F
    ||| u == 0x3000
}

/// A text is blank when trimming it leaves nothing: every character is white space.
pub open spec fn is_blank(s: Seq<char>) -> bool {
    forall|i: int| 0 <= i < s.len() ==> is_white_space(#[trigger] s[i])
}

fn white_space(c: char) -> (r: bool)
    ensures
        r == is_white_space(c),
{
    let u: u32 = c as u32;
    (0x9 <= u && u <= 0xD) || u == 0x20 || u == 0x85 || u == 0xA0 || u == 0x1680 || (0x2000
        <= u && u <= 0x200A) || u == 0x2028 || u == 0x2029 || u == 0x202F || u == 0x205F || u
        == 0x3000
}

fn blank(s: &str) -> (r: bool)
    ensures
        r == is_blank(s@),
{
    broadcast use vstd::string::group_string_axioms;

    for c in it: s.chars()
        invariant
            it.seq() == s@,
            forall|j: int| 0 <= j < it.index() ==> is_white_space(#[trigger] s@[j]),
    {
        if !white_space(c) {
            return false;
        }
    }
    true
}


/// Application configuration, the `app` section of the configuration.
///
/// Every value can be overridden by an environment variable using a double-underscore
/// section separator, e.g. `APP__INTERVAL_SECONDS=10`.
#[derive(Debug, Clone)]
pub struct AppConfig {
    /// Message written on every iteration of the worker loop.
    pub greeting: String,
    /// Delay between worker loop iterations, in seconds.
    pub interval_seconds: u64,
    /// Console log output format.
    pub log_format: LogFormat,
}

/// The mathematical value of an [`AppConfig`].
pub struct AppConfigView {
    pub greeting: Seq<char>,
    pub interval_seconds: u64,
    pub log_format: LogFormat,
}

impl View for AppConfig {
    type V = AppConfigView;

    open spec fn view(&self) -> AppConfigView {
        AppConfigView {
            greeting: self.greeting@,
            interval_seconds: self.interval_seconds,
            log_format: self.log_format,
        }
    }
}

/// The greeting used where the configuration gives none.
pub open spec fn default_greeting() -> Seq<char> {
    "Hello from a multi-architecture container"@
}

/// The interval used where the configuration gives none.
pub open spec fn default_interval_seconds() -> u64 {
    3
}

/// The application configuration that stands where the configuration gives no value.
pub open spec fn default_app() -> AppConfigView {
    AppConfigView {
        greeting: default_greeting(),
        interval_seconds: default_interval_seconds(),
        log_format: LogFormat::Text,
    }
}

/// The application settings that the worker accepts: a greeting that is not blank and an
/// interval of one second up to one hour.
pub open spec fn app_is_valid(app: AppConfigView) -> bool {
    &&& !is_blank(app.greeting)
    &&& 1 <= app.interval_seconds <= 3600
}

impl Default for AppConfig {
    fn default() -> (r: Self)
        ensures
            r@ == default_app(),
    {
        AppConfig {
            greeting: "Hello from a multi-architecture container".to_owned(),
            interval_seconds: 3,
            log_format: LogFormat::Text,
        }
    }
}

/// Why the configuration could not be turned into valid settings.
#[derive(Debug)]
pub enum SettingsError {
    /// A configuration source could not be read, or a value could not be converted to the
    /// type of its field.
    Source(::config::ConfigError),
    /// `app.log_format` names no log format; the name that was given.
    UnknownLogFormat(String),
    /// `app.log_format` is neither a text nor a table with exactly one key.
    LogFormatShape,
    /// `app.greeting` is empty or only white space.
    BlankGreeting,
    /// `app.interval_seconds` is not between 1 and 3600.
    IntervalOutOfRange,
}

/// The mathematical value of a [`SettingsError`].
pub enum SettingsErrorView {
    Source(::config::ConfigError),
    UnknownLogFormat(Seq<char>),
    LogFormatShape,
    BlankGreeting,
    IntervalOutOfRange,
}

impl View for SettingsError {
    type V = SettingsErrorView;

    open spec fn view(&self) -> SettingsErrorView {
        match self {
            SettingsError::Source(e) => SettingsErrorView::Source(*e),
            SettingsError::UnknownLogFormat(raw) => SettingsErrorView::UnknownLogFormat(raw@),
            SettingsError::LogFormatShape => SettingsErrorView::LogFormatShape,
            SettingsError::BlankGreeting => SettingsErrorView::BlankGreeting,
            SettingsError::IntervalOutOfRange => SettingsErrorView::IntervalOutOfRange,
        }
    }
}

impl SettingsError {
    /// The text that reports the error.
    pub fn message(&self) -> (r: String)
        ensures
            self is BlankGreeting ==> r@ == "app.greeting must not be empty"@,
            self is IntervalOutOfRange ==> r@ == "app.interval_seconds must be between 1 and 3600"@,
            self matches SettingsError::UnknownLogFormat(raw) ==> r@
                == "enum LogFormat does not have variant constructor "@ + raw@
                + " for key `app.log_format`"@,
            self is LogFormatShape ==> r@
                == "value of enum LogFormat should be represented by either string or table with exactly one key for key `app.log_format`"@,
            self matches SettingsError::Source(e) ==> to_string_from_display_ensures(e, r),
    {
        match self {
            SettingsError::Source(e) => e.to_string(),
            SettingsError::UnknownLogFormat(raw) => {
                let mut text = "enum LogFormat does not have variant constructor ".to_owned();
                text.append(raw.as_str());
                text.append(" for key `app.log_format`");
                text
            },
            SettingsError::LogFormatShape => "value of enum LogFormat should be represented by either string or table with exactly one key for key `app.log_format`".to_owned(),
            SettingsError::BlankGreeting => "app.greeting must not be empty".to_owned(),
            SettingsError::IntervalOutOfRange => "app.interval_seconds must be between 1 and 3600".to_owned(),
        }
    }
}

/// What validating application settings gives.
pub open spec fn validation_of(app: AppConfigView) -> Result<(), SettingsErrorView> {
    if is_blank(app.greeting) {
        Err(SettingsErrorView::BlankGreeting)
    } else if !(1 <= app.interval_seconds <= 3600) {
        Err(SettingsErrorView::IntervalOutOfRange)
    } else {
        Ok(())
    }
}

/// The view of a fallible result.
pub open spec fn result_view<T: View>(r: Result<T, SettingsError>) -> Result<T::V, SettingsErrorView> {
    match r {
        Ok(v) => Ok(v@),
        Err(e) => Err(e@),
    }
}

impl AppConfig {
    /// Checks the rules of [`app_is_valid`]; the greeting is checked first.
    pub fn validate(&self) -> (r: Result<(), SettingsError>)
        ensures
            (match r {
                Ok(()) => validation_of(self@) == Ok::<(), SettingsErrorView>(()),
                Err(e) => validation_of(self@) == Err::<(), SettingsErrorView>(e@),
            }),
            r is Ok <==> app_is_valid(self@),
    {
        if blank(self.greeting.as_str()) {
            return Err(SettingsError::BlankGreeting);
        }
        if !(1 <= self.interval_seconds && self.interval_seconds <= 3600) {
            return Err(SettingsError::IntervalOutOfRange);
        }
        Ok(())
    }
}

/// What `str::to_lowercase` gives for a text: its lowercase equivalent under the Unicode
/// `Lowercase` property.
pub uninterp spec fn lowercase_of(s: Seq<char>) -> Seq<char>;

/// Whether every character of a text is ASCII.
pub open spec fn is_ascii_text(s: Seq<char>) -> bool {
    forall|i: int| 0 <= i < s.len() ==> (#[trigger] s[i] as u32) < 128
}

/// The lowercase form of an ASCII character: `A`..=`Z` become `a`..=`z`, the others stay.
pub open spec fn ascii_lowercase_char(c: char) -> char {
    let u = c as u32;
    if 65 <= u <= 90 {
        (u + 32) as char
    } else {
        c
    }
}

/// The lowercase form of an ASCII text.
pub open spec fn ascii_lowercase(s: Seq<char>) -> Seq<char> {
    s.map_values(|c: char| ascii_lowercase_char(c))
}

/// The lowercase form of a text: for an ASCII text its ASCII lowercase form, otherwise the
/// Unicode lowercase form [`lowercase_of`].
pub open spec fn text_lowercase(s: Seq<char>) -> Seq<char> {
    if is_ascii_text(s) {
        ascii_lowercase(s)
    } else {
        lowercase_of(s)
    }
}

/// Calls `str::to_lowercase`: the result is the named value [`lowercase_of`] of the text,
/// which depends on the text alone; on an ASCII text it is the ASCII lowercase form (the
/// Unicode lowercase mapping of `A`..=`Z` is `a`..=`z` and leaves the other ASCII characters
/// as they are).
#[verifier::external_body]
fn to_lowercase(s: &str) -> (r: String)
    ensures
        r@ == lowercase_of(s@),
        is_ascii_text(s@) ==> r@ == ascii_lowercase(s@),
{
    s.to_lowercase()
}

/// The log format that a configured text names: the variant names `text` and `json`,
/// compared without regard to case.
pub open spec fn log_format_named(raw: Seq<char>) -> Option<LogFormat> {
    if text_lowercase(raw) == "text"@ {
        Some(LogFormat::Text)
    } else if text_lowercase(raw) == "json"@ {
        Some(LogFormat::Json)
    } else {
        None
    }
}

impl LogFormat {
    /// The log format that `raw` names, without regard to case; `None` when it names none.
    pub fn from_name(raw: &str) -> (r: Option<LogFormat>)
        ensures
            r == log_format_named(raw@),
    {
        let lower = to_lowercase(raw);
        let text = "text".to_owned();
        let json = "json".to_owned();
        if lower == text {
            Some(LogFormat::Text)
        } else if lower == json {
            Some(LogFormat::Json)
        } else {
            None
        }
    }
}

/// What a configuration holds at one key: `Ok(None)` where the key is absent, `Err` where
/// the value there cannot be read as the field's type.
pub type Entry<T> = Result<Option<T>, ::config::ConfigError>;

/// The mathematical value of a text entry.
pub open spec fn text_entry(e: Entry<String>) -> Result<Option<Seq<char>>, ::config::ConfigError> {
    match e {
        Ok(Some(s)) => Ok(Some(s@)),
        Ok(None) => Ok(None),
        Err(err) => Err(err),
    }
}

/// The kind of value at a key, as far as naming a log format needs it: a text, a table with
/// its keys, or any other kind of value.
pub enum ValueShape {
    /// A text value.
    Text(String),
    /// A table, with the keys it holds.
    Table(Vec<String>),
    /// A value of any other kind (nothing, a boolean, a number, an array).
    Other,
}

/// The mathematical value of a [`ValueShape`]; a table is known by the set of its keys.
pub enum ValueShapeView {
    Text(Seq<char>),
    Table(Set<Seq<char>>),
    Other,
}

impl View for ValueShape {
    type V = ValueShapeView;

    open spec fn view(&self) -> ValueShapeView {
        match self {
            ValueShape::Text(s) => ValueShapeView::Text(s@),
            ValueShape::Table(keys) => ValueShapeView::Table(
                keys@.map_values(|k: String| k@).to_set(),
            ),
            ValueShape::Other => ValueShapeView::Other,
        }
    }
}

/// The mathematical value of a shape entry.
pub open spec fn shape_entry(e: Entry<ValueShape>) -> Result<Option<ValueShapeView>, ::config::ConfigError> {
    match e {
        Ok(Some(s)) => Ok(Some(s@)),
        Ok(None) => Ok(None),
        Err(err) => Err(err),
    }
}

/// The key of a table that holds exactly one key.
pub open spec fn single_key(keys: Set<Seq<char>>) -> Option<Seq<char>> {
    if (exists|k: Seq<char>| keys.contains(k)) && (forall|x: Seq<char>, y: Seq<char>|
        keys.contains(x) && keys.contains(y) ==> x == y) {
        Some(keys.choose())
    } else {
        None
    }
}

/// The log format that a name gives, or the error that names it unknown.
pub open spec fn named_log_format(raw: Seq<char>) -> Result<LogFormat, SettingsErrorView> {
    match log_format_named(raw) {
        Some(f) => Ok(f),
        None => Err(SettingsErrorView::UnknownLogFormat(raw)),
    }
}

/// The log format that a configured value gives: a text names it, a table with exactly one
/// key names it by that key; any other value is the wrong shape.
pub open spec fn log_format_of_shape(shape: ValueShapeView) -> Result<LogFormat, SettingsErrorView> {
    match shape {
        ValueShapeView::Text(raw) => named_log_format(raw),
        ValueShapeView::Table(keys) => match single_key(keys) {
            Some(k) => named_log_format(k),
            None => Err(SettingsErrorView::LogFormatShape),
        },
        ValueShapeView::Other => Err(SettingsErrorView::LogFormatShape),
    }
}

fn named(raw: String) -> (r: Result<LogFormat, SettingsError>)
    ensures
        (match r {
            Ok(f) => named_log_format(raw@) == Ok::<LogFormat, SettingsErrorView>(f),
            Err(e) => named_log_format(raw@) == Err::<LogFormat, SettingsErrorView>(e@),
        }),
{
    match LogFormat::from_name(raw.as_str()) {
        Some(f) => Ok(f),
        None => Err(SettingsError::UnknownLogFormat(raw)),
    }
}

impl LogFormat {
    /// The log format that a configured value gives, per [`log_format_of_shape`].
    pub fn from_shape(shape: ValueShape) -> (r: Result<LogFormat, SettingsError>)
        ensures
            (match r {
                Ok(f) => log_format_of_shape(shape@) == Ok::<LogFormat, SettingsErrorView>(f),
                Err(e) => log_format_of_shape(shape@) == Err::<LogFormat, SettingsErrorView>(e@),
            }),
    {
        let ghost v = shape@;
        match shape {
            ValueShape::Text(raw) => named(raw),
            ValueShape::Table(keys) => {
                let ghost m = keys@.map_values(|k: String| k@);
                assert(v == ValueShapeView::Table(m.to_set()));
                if keys.len() == 0 {
                    assert(!(exists|k: Seq<char>| m.to_set().contains(k)));
                    return Err(SettingsError::LogFormatShape);
                }
                let first = keys[0].clone();
                assert(m[0] == first@);
                let mut i: usize = 1;
                while i < keys.len()
                    invariant
                        1 <= i <= keys.len(),
                        m.len() == keys@.len(),
                        forall|j: int| 0 <= j < keys@.len() ==> #[trigger] m[j] == keys@[j]@,
                        v == ValueShapeView::Table(m.to_set()),
                        v == shape@,
                        m[0] == first@,
                        forall|j: int| 0 <= j < i ==> m[j] == first@,
                    decreases keys.len() - i,
                {
                    if !(keys[i] == first) {
                        assert(m[i as int] != first@);
                        assert(m.to_set().contains(m[i as int]));
                        assert(m.to_set().contains(m[0]));
                        assert(single_key(m.to_set()) is None);
                        assert(log_format_of_shape(v) == Err::<LogFormat, SettingsErrorView>(
                            SettingsErrorView::LogFormatShape,
                        ));
                        return Err(SettingsError::LogFormatShape);
                    }
                    i = i + 1;
                }
                assert forall|x: Seq<char>| m.to_set().contains(x) implies x == first@ by {
                    let j = choose|j: int| 0 <= j < m.len() && m[j] == x;
                }
                assert(m.to_set().contains(first@));
                named(first)
            },
            ValueShape::Other => Err(SettingsError::LogFormatShape),
        }
    }
}

/// The entries of the `app` section.
pub struct AppEntries {
    /// `app.greeting`, read as text.
    pub greeting: Entry<String>,
    /// `app.interval_seconds`, read as an unsigned integer.
    pub interval_seconds: Entry<u64>,
    /// `app.log_format`, read by the kind of its value.
    pub log_format: Entry<ValueShape>,
}

/// The mathematical value of [`AppEntries`].
pub struct AppEntriesView {
    pub greeting: Result<Option<Seq<char>>, ::config::ConfigError>,
    pub interval_seconds: Result<Option<u64>, ::config::ConfigError>,
    pub log_format: Result<Option<ValueShapeView>, ::config::ConfigError>,
}

impl View for AppEntries {
    type V = AppEntriesView;

    open spec fn view(&self) -> AppEntriesView {
        AppEntriesView {
            greeting: text_entry(self.greeting),
            interval_seconds: self.interval_seconds,
            log_format: shape_entry(self.log_format),
        }
    }
}

/// The application configuration that the entries of an `app` section give: each absent
/// entry takes its default, an unreadable entry is a source error (checked in the order
/// greeting, interval, log format), and the log format must name a variant.
pub open spec fn app_from_entries(e: AppEntriesView) -> Result<AppConfigView, SettingsErrorView> {
    match (e.greeting, e.interval_seconds, e.log_format) {
        (Err(err), _, _) => Err(SettingsErrorView::Source(err)),
        (Ok(_), Err(err), _) => Err(SettingsErrorView::Source(err)),
        (Ok(_), Ok(_), Err(err)) => Err(SettingsErrorView::Source(err)),
        (Ok(greeting), Ok(interval), Ok(format)) => {
            let log_format = match format {
                None => Ok(LogFormat::Text),
                Some(shape) => log_format_of_shape(shape),
            };
            match log_format {
                Err(err) => Err(err),
                Ok(log_format) => Ok(
                    AppConfigView {
                        greeting: match greeting {
                            Some(g) => g,
                            None => default_greeting(),
                        },
                        interval_seconds: match interval {
                            Some(i) => i,
                            None => default_interval_seconds(),
                        },
                        log_format,
                    },
                ),
            }
        },
    }
}

impl AppConfig {
    /// Builds the application configuration from what the `app` section holds, taking the
    /// default of each absent key. No validation takes place here.
    pub fn from_entries(entries: AppEntries) -> (r: Result<AppConfig, SettingsError>)
        ensures
            result_view(r) == app_from_entries(entries@),
    {
        let greeting = match entries.greeting {
            Ok(Some(g)) => g,
            Ok(None) => "Hello from a multi-architecture container".to_owned(),
            Err(err) => return Err(SettingsError::Source(err)),
        };
        let interval_seconds = match entries.interval_seconds {
            Ok(Some(i)) => i,
            Ok(None) => 3,
            Err(err) => return Err(SettingsError::Source(err)),
        };
        let log_format = match entries.log_format {
            Ok(Some(shape)) => match LogFormat::from_shape(shape) {
                Ok(f) => f,
                Err(err) => return Err(err),
            },
            Ok(None) => LogFormat::Text,
            Err(err) => return Err(SettingsError::Source(err)),
        };
        Ok(AppConfig { greeting, interval_seconds, log_format })
    }
}


/// Root settings object: application configuration plus the flat build provenance
/// variables baked into the container image.
#[derive(Debug, Clone)]
pub struct Settings {
    /// Application configuration.
    pub app: AppConfig,
    /// Git repository name, e.g. `f2calv/multi-arch-container-rust`.
    pub git_repository: String,
    /// Git branch reference, e.g. `refs/heads/main`.
    pub git_branch: String,
    /// Git commit SHA.
    pub git_commit: String,
    /// Git tag, i.e. the semantic version of the image.
    pub git_tag: String,
    /// GitHub Actions workflow name.
    pub github_workflow: String,
    /// GitHub Actions run identifier.
    pub github_run_id: String,
    /// GitHub Actions run number.
    pub github_run_number: String,
}

/// The mathematical value of [`Settings`].
pub struct SettingsView {
    pub app: AppConfigView,
    pub git_repository: Seq<char>,
    pub git_branch: Seq<char>,
    pub git_commit: Seq<char>,
    pub git_tag: Seq<char>,
    pub github_workflow: Seq<char>,
    pub github_run_id: Seq<char>,
    pub github_run_number: Seq<char>,
}

impl View for Settings {
    type V = SettingsView;

    open spec fn view(&self) -> SettingsView {
        SettingsView {
            app: self.app@,
            git_repository: self.git_repository@,
            git_branch: self.git_branch@,
            git_commit: self.git_commit@,
            git_tag: self.git_tag@,
            github_workflow: self.github_workflow@,
            github_run_id: self.github_run_id@,
            github_run_number: self.github_run_number@,
        }
    }
}

/// The value of a build provenance variable that is absent.
pub fn unknown() -> (r: String)
    ensures
        r@ == UNKNOWN@,
{
    UNKNOWN.to_owned()
}

/// What the configuration holds at each key that [`Settings`] reads.
pub struct SettingsEntries {
    /// The `app` section: `Ok(None)` where there is none, `Err` where `app` is not a table.
    pub app: Result<Option<AppEntries>, ::config::ConfigError>,
    pub git_repository: Entry<String>,
    pub git_branch: Entry<String>,
    pub git_commit: Entry<String>,
    pub git_tag: Entry<String>,
    pub github_workflow: Entry<String>,
    pub github_run_id: Entry<String>,
    pub github_run_number: Entry<String>,
}

/// The mathematical value of [`SettingsEntries`].
pub struct SettingsEntriesView {
    pub app: Result<Option<AppEntriesView>, ::config::ConfigError>,
    pub git_repository: Result<Option<Seq<char>>, ::config::ConfigError>,
    pub git_branch: Result<Option<Seq<char>>, ::config::ConfigError>,
    pub git_commit: Result<Option<Seq<char>>, ::config::ConfigError>,
    pub git_tag: Result<Option<Seq<char>>, ::config::ConfigError>,
    pub github_workflow: Result<Option<Seq<char>>, ::config::ConfigError>,
    pub github_run_id: Result<Option<Seq<char>>, ::config::ConfigError>,
    pub github_run_number: Result<Option<Seq<char>>, ::config::ConfigError>,
}

impl View for SettingsEntries {
    type V = SettingsEntriesView;

    open spec fn view(&self) -> SettingsEntriesView {
        SettingsEntriesView {
            app: match self.app {
                Ok(Some(a)) => Ok(Some(a@)),
                Ok(None) => Ok(None),
                Err(err) => Err(err),
            },
            git_repository: text_entry(self.git_repository),
            git_branch: text_entry(self.git_branch),
            git_commit: text_entry(self.git_commit),
            git_tag: text_entry(self.git_tag),
            github_workflow: text_entry(self.github_workflow),
            github_run_id: text_entry(self.github_run_id),
            github_run_number: text_entry(self.github_run_number),
        }
    }
}

/// A build provenance value: the configured text, or [`UNKNOWN`] where there is none.
pub open spec fn provenance_from_entry(e: Result<Option<Seq<char>>, ::config::ConfigError>) -> Result<Seq<char>, SettingsErrorView> {
    match e {
        Ok(Some(s)) => Ok(s),
        Ok(None) => Ok(UNKNOWN@),
        Err(err) => Err(SettingsErrorView::Source(err)),
    }
}

/// The settings that the entries give: the application configuration of the `app` section
/// (its default where there is none) and each provenance value (or [`UNKNOWN`]); the first
/// failing entry in the order of the fields decides the error.
pub open spec fn settings_from_entries(e: SettingsEntriesView) -> Result<SettingsView, SettingsErrorView> {
    let app = match e.app {
        Err(err) => Err(SettingsErrorView::Source(err)),
        Ok(None) => Ok(default_app()),
        Ok(Some(a)) => app_from_entries(a),
    };
    let git_repository = provenance_from_entry(e.git_repository);
    let git_branch = provenance_from_entry(e.git_branch);
    let git_commit = provenance_from_entry(e.git_commit);
    let git_tag = provenance_from_entry(e.git_tag);
    let github_workflow = provenance_from_entry(e.github_workflow);
    let github_run_id = provenance_from_entry(e.github_run_id);
    let github_run_number = provenance_from_entry(e.github_run_number);
    if app is Err {
        Err(app->Err_0)
    } else if git_repository is Err {
        Err(git_repository->Err_0)
    } else if git_branch is Err {
        Err(git_branch->Err_0)
    } else if git_commit is Err {
        Err(git_commit->Err_0)
    } else if git_tag is Err {
        Err(git_tag->Err_0)
    } else if github_workflow is Err {
        Err(github_workflow->Err_0)
    } else if github_run_id is Err {
        Err(github_run_id->Err_0)
    } else if github_run_number is Err {
        Err(github_run_number->Err_0)
    } else {
        Ok(
            SettingsView {
                app: app->Ok_0,
                git_repository: git_repository->Ok_0,
                git_branch: git_branch->Ok_0,
                git_commit: git_commit->Ok_0,
                git_tag: git_tag->Ok_0,
                github_workflow: github_workflow->Ok_0,
                github_run_id: github_run_id->Ok_0,
                github_run_number: github_run_number->Ok_0,
            },
        )
    }
}

fn provenance(entry: Entry<String>) -> (r: Result<String, SettingsError>)
    ensures
        result_view(r) == provenance_from_entry(text_entry(entry)),
{
    match entry {
        Ok(Some(s)) => Ok(s),
        Ok(None) => Ok(unknown()),
        Err(err) => Err(SettingsError::Source(err)),
    }
}

impl Settings {
    /// Builds the settings from what the configuration holds, taking the default of each
    /// absent key. No validation takes place here.
    pub fn from_entries(entries: SettingsEntries) -> (r: Result<Settings, SettingsError>)
        ensures
            result_view(r) == settings_from_entries(entries@),
    {
        let app = match entries.app {
            Err(err) => return Err(SettingsError::Source(err)),
            Ok(None) => AppConfig::default(),
            Ok(Some(a)) => match AppConfig::from_entries(a) {
                Ok(app) => app,
                Err(err) => return Err(err),
            },
        };
        let git_repository = match provenance(entries.git_repository) {
            Ok(v) => v,
            Err(err) => return Err(err),
        };
        let git_branch = match provenance(entries.git_branch) {
            Ok(v) => v,
            Err(err) => return Err(err),
        };
        let git_commit = match provenance(entries.git_commit) {
            Ok(v) => v,
            Err(err) => return Err(err),
        };
        let git_tag = match provenance(entries.git_tag) {
            Ok(v) => v,
            Err(err) => return Err(err),
        };
        let github_workflow = match provenance(entries.github_workflow) {
            Ok(v) => v,
            Err(err) => return Err(err),
        };
        let github_run_id = match provenance(entries.github_run_id) {
            Ok(v) => v,
            Err(err) => return Err(err),
        };
        let github_run_number = match provenance(entries.github_run_number) {
            Ok(v) => v,
            Err(err) => return Err(err),
        };
        Ok(
            Settings {
                app,
                git_repository,
                git_branch,
                git_commit,
                git_tag,
                github_workflow,
                github_run_id,
                github_run_number,
            },
        )
    }
}


/// The dotted keys that a built configuration does not hold: a lookup of such a key reports
/// `ConfigError::NotFound`.
pub uninterp spec fn config_missing(config: ::config::Config) -> Set<Seq<char>>;

/// The text that `Config::get_string` reads at each dotted key where it succeeds.
pub uninterp spec fn config_texts(config: ::config::Config) -> Map<Seq<char>, Seq<char>>;

/// The unsigned integer that `Config::get::<u64>` reads at each dotted key where it
/// succeeds.
pub uninterp spec fn config_u64s(config: ::config::Config) -> Map<Seq<char>, u64>;

/// The keys of the table at each dotted key where a built configuration holds a table
/// (`Config::get_table` succeeds).
pub uninterp spec fn config_table_keys(config: ::config::Config) -> Map<Seq<char>, Set<Seq<char>>>;

/// The kind of value (text, table with its keys, other) that `Config::get::<Value>` reads at
/// each dotted key where it succeeds.
pub uninterp spec fn config_shapes(config: ::config::Config) -> Map<Seq<char>, ValueShapeView>;

/// Entry `e` is what `config` holds at `key` read as text: absent exactly where the key is
/// missing, the text exactly where one is read, an error otherwise.
pub open spec fn holds_text(config: ::config::Config, key: Seq<char>, e: Result<Option<Seq<char>>, ::config::ConfigError>) -> bool {
    &&& (e == Ok::<Option<Seq<char>>, ::config::ConfigError>(None)) <==> config_missing(config).contains(key)
    &&& (e matches Ok(Some(_))) <==> config_texts(config).contains_key(key)
    &&& e matches Ok(Some(v)) ==> v == config_texts(config)[key]
}

/// Entry `e` is what `config` holds at `key` read as an unsigned integer.
pub open spec fn holds_u64(config: ::config::Config, key: Seq<char>, e: Result<Option<u64>, ::config::ConfigError>) -> bool {
    &&& (e == Ok::<Option<u64>, ::config::ConfigError>(None)) <==> config_missing(config).contains(key)
    &&& (e matches Ok(Some(_))) <==> config_u64s(config).contains_key(key)
    &&& e matches Ok(Some(v)) ==> v == config_u64s(config)[key]
}

/// The kind of value that `config` holds at `key`: a table with its keys where it holds a
/// table, otherwise what `Config::get::<Value>` reads.
pub open spec fn shape_at(config: ::config::Config, key: Seq<char>) -> ValueShapeView {
    if config_table_keys(config).contains_key(key) {
        ValueShapeView::Table(config_table_keys(config)[key])
    } else {
        config_shapes(config)[key]
    }
}

/// Entry `e` is what `config` holds at `key` read by the kind of its value: absent exactly
/// where the key is missing, the table's keys where it holds a table, otherwise the kind
/// exactly where one is read, an error where none is.
pub open spec fn holds_shape(config: ::config::Config, key: Seq<char>, e: Result<Option<ValueShapeView>, ::config::ConfigError>) -> bool {
    &&& (e == Ok::<Option<ValueShapeView>, ::config::ConfigError>(None)) <==> config_missing(config).contains(key)
    &&& config_table_keys(config).contains_key(key) ==> e == Ok::<Option<ValueShapeView>, ::config::ConfigError>(Some(ValueShapeView::Table(config_table_keys(config)[key])))
    &&& !config_missing(config).contains(key) && !config_table_keys(config).contains_key(key) ==> {
        &&& (e matches Ok(Some(_))) <==> config_shapes(config).contains_key(key)
        &&& e matches Ok(Some(v)) ==> v == config_shapes(config)[key]
    }
}

/// Entry `e` is what `config` holds for the `app` section: absent exactly where `app` is
/// missing, present exactly where `app` is a table, with the entries of its three keys.
pub open spec fn holds_app(config: ::config::Config, e: Result<Option<AppEntriesView>, ::config::ConfigError>) -> bool {
    &&& (e == Ok::<Option<AppEntriesView>, ::config::ConfigError>(None)) <==> config_missing(config).contains("app"@)
    &&& (e matches Ok(Some(_))) <==> config_table_keys(config).contains_key("app"@)
    &&& e matches Ok(Some(a)) ==> {
        &&& holds_text(config, "app.greeting"@, a.greeting)
        &&& holds_u64(config, "app.interval_seconds"@, a.interval_seconds)
        &&& holds_shape(config, "app.log_format"@, a.log_format)
    }
}

/// The entries are what `config` holds at the keys that [`Settings`] reads: the `app`
/// section and the snake_case provenance keys.
pub open spec fn entries_of(config: ::config::Config, e: SettingsEntriesView) -> bool {
    &&& holds_app(config, e.app)
    &&& holds_text(config, "git_repository"@, e.git_repository)
    &&& holds_text(config, "git_branch"@, e.git_branch)
    &&& holds_text(config, "git_commit"@, e.git_commit)
    &&& holds_text(config, "git_tag"@, e.git_tag)
    &&& holds_text(config, "github_workflow"@, e.github_workflow)
    &&& holds_text(config, "github_run_id"@, e.github_run_id)
    &&& holds_text(config, "github_run_number"@, e.github_run_number)
}

/// Calls `Config::get_string`: the value at a dotted key in its text form, `Ok(None)` where
/// the lookup reports the key missing (`ConfigError::NotFound`), the error otherwise. The
/// configuration is not changed, so the result depends on it and the key alone.
#[verifier::external_body]
fn config_get_string(config: &::config::Config, key: &str) -> (r: Entry<String>)
    ensures
        (r == Ok::<Option<String>, ::config::ConfigError>(None)) <==> config_missing(*config).contains(key@),
        (r matches Ok(Some(_))) <==> config_texts(*config).contains_key(key@),
        r matches Ok(Some(v)) ==> v@ == config_texts(*config)[key@],
{
    match config.get_string(key) {
        Ok(value) => Ok(Some(value)),
        Err(::config::ConfigError::NotFound(_)) => Ok(None),
        Err(e) => Err(e),
    }
}

/// Calls `Config::get::<u64>`: the value at a dotted key as an unsigned integer, `Ok(None)`
/// where the lookup reports the key missing (`ConfigError::NotFound`), the error otherwise.
#[verifier::external_body]
fn config_get_u64(config: &::config::Config, key: &str) -> (r: Entry<u64>)
    ensures
        (r == Ok::<Option<u64>, ::config::ConfigError>(None)) <==> config_missing(*config).contains(key@),
        (r matches Ok(Some(_))) <==> config_u64s(*config).contains_key(key@),
        r matches Ok(Some(v)) ==> v == config_u64s(*config)[key@],
{
    match config.get::<u64>(key) {
        Ok(value) => Ok(Some(value)),
        Err(::config::ConfigError::NotFound(_)) => Ok(None),
        Err(e) => Err(e),
    }
}

/// Calls `Config::get::<Value>` and tells the kinds of `ValueKind` apart: a text, a table
/// with its keys, or another kind; `Ok(None)` where the lookup reports the key missing
/// (`ConfigError::NotFound`), the error otherwise (the value is read anew, which fails on an
/// integer above `i64::MAX`).
#[verifier::external_body]
fn config_get_shape(config: &::config::Config, key: &str) -> (r: Entry<ValueShape>)
    ensures
        (r is Ok && r->Ok_0 is None) <==> config_missing(*config).contains(key@),
        (r matches Ok(Some(_))) <==> config_shapes(*config).contains_key(key@),
        r matches Ok(Some(v)) ==> v@ == config_shapes(*config)[key@],
{
    match config.get::<Value>(key).map(|value| value.kind) {
        Ok(ValueKind::String(text)) => Ok(Some(ValueShape::Text(text))),
        Ok(ValueKind::Table(table)) => Ok(Some(ValueShape::Table(table.into_keys().collect()))),
        Ok(_) => Ok(Some(ValueShape::Other)),
        Err(::config::ConfigError::NotFound(_)) => Ok(None),
        Err(e) => Err(e),
    }
}

/// Calls `Config::get_table`: the keys of the table at a dotted key (without reading its
/// values anew), `Ok(None)` where the lookup reports the key missing
/// (`ConfigError::NotFound`), the error where it holds another kind of value.
#[verifier::external_body]
fn config_get_table_keys(config: &::config::Config, key: &str) -> (r: Entry<Vec<String>>)
    ensures
        (r is Ok && r->Ok_0 is None) <==> config_missing(*config).contains(key@),
        (r matches Ok(Some(_))) <==> config_table_keys(*config).contains_key(key@),
        r matches Ok(Some(keys)) ==> keys@.map_values(|k: String| k@).to_set()
            == config_table_keys(*config)[key@],
{
    match config.get_table(key) {
        Ok(table) => Ok(Some(table.into_keys().collect())),
        Err(::config::ConfigError::NotFound(_)) => Ok(None),
        Err(e) => Err(e),
    }
}

/// Reads the kind of value at `key`: a table by its keys, any other value by
/// `Config::get::<Value>`.
fn read_shape(config: &::config::Config, key: &str) -> (r: Entry<ValueShape>)
    ensures
        holds_shape(*config, key@, shape_entry(r)),
{
    match config_get_table_keys(config, key) {
        Ok(None) => Ok(None),
        Ok(Some(keys)) => Ok(Some(ValueShape::Table(keys))),
        Err(_) => config_get_shape(config, key),
    }
}

/// Whether a result is a validation error, which only validation gives.
pub open spec fn is_validation_error(r: Result<SettingsView, SettingsErrorView>) -> bool {
    r matches Err(e) && (e is BlankGreeting || e is IntervalOutOfRange)
}

impl Settings {
    /// Reads the settings from a built configuration: the `app` table with the keys
    /// `greeting`, `interval_seconds`, `log_format`, and the provenance keys, each absent key
    /// taking its default. No validation takes place here.
    pub fn from_config(config: &::config::Config) -> (r: Result<Settings, SettingsError>)
        ensures
            exists|e: SettingsEntriesView| #[trigger] entries_of(*config, e)
                && settings_from_entries(e) == result_view(r),
            !is_validation_error(result_view(r)),
    {
        let app = match config_get_table_keys(config, "app") {
            Err(err) => Err(err),
            Ok(None) => Ok(None),
            Ok(Some(_)) => Ok(
                Some(
                    AppEntries {
                        greeting: config_get_string(config, "app.greeting"),
                        interval_seconds: config_get_u64(config, "app.interval_seconds"),
                        log_format: read_shape(config, "app.log_format"),
                    },
                ),
            ),
        };
        let entries = SettingsEntries {
            app,
            git_repository: config_get_string(config, "git_repository"),
            git_branch: config_get_string(config, "git_branch"),
            git_commit: config_get_string(config, "git_commit"),
            git_tag: config_get_string(config, "git_tag"),
            github_workflow: config_get_string(config, "github_workflow"),
            github_run_id: config_get_string(config, "github_run_id"),
            github_run_number: config_get_string(config, "github_run_number"),
        };
        let ghost e = entries@;
        assert(entries_of(*config, e));
        let r = Settings::from_entries(entries);
        assert(settings_from_entries(e) == result_view(r));
        r
    }
}

/// Validation applied to decoded settings: they pass unchanged where their application
/// configuration is valid.
pub open spec fn checked(r: Result<SettingsView, SettingsErrorView>) -> Result<SettingsView, SettingsErrorView> {
    match r {
        Ok(s) => match validation_of(s.app) {
            Ok(()) => Ok(s),
            Err(e) => Err(e),
        },
        Err(e) => Err(e),
    }
}

/// Reads the settings from a built configuration and validates them.
///
/// The configuration is meant to be built from `appsettings.json` (optional) then the
/// environment, the environment taking precedence and `__` separating sections in variable
/// names; values from the environment stay text and are converted to the type of their
/// field when read, never guessed from their look.
pub fn load(config: &::config::Config) -> (r: Result<Settings, SettingsError>)
    ensures
        exists|e: SettingsEntriesView| #[trigger] entries_of(*config, e)
            && checked(settings_from_entries(e)) == result_view(r),
        r matches Ok(s) ==> app_is_valid(s.app@),
{
    let decoded = Settings::from_config(config);
    let ghost e = choose|e: SettingsEntriesView| #[trigger] entries_of(*config, e)
        && settings_from_entries(e) == result_view(decoded);
    let settings = match decoded {
        Ok(s) => s,
        Err(err) => {
            assert(checked(settings_from_entries(e)) == result_view(Err::<Settings, SettingsError>(err)));
            return Err(err);
        },
    };
    match settings.app.validate() {
        Ok(()) => {
            assert(checked(settings_from_entries(e)) == result_view(Ok::<Settings, SettingsError>(settings)));
            Ok(settings)
        },
        Err(err) => {
            assert(checked(settings_from_entries(e)) == result_view(Err::<Settings, SettingsError>(err)));
            Err(err)
        },
    }
}

/// The settings of a configuration that holds none of the keys.
pub open spec fn default_settings() -> SettingsView {
    SettingsView {
        app: default_app(),
        git_repository: UNKNOWN@,
        git_branch: UNKNOWN@,
        git_commit: UNKNOWN@,
        git_tag: UNKNOWN@,
        github_workflow: UNKNOWN@,
        github_run_id: UNKNOWN@,
        github_run_number: UNKNOWN@,
    }
}

/// The default application configuration passes validation.
pub proof fn default_app_is_valid()
    ensures
        app_is_valid(default_app()),
{
    reveal_strlit("Hello from a multi-architecture container");
    assert(default_greeting()[0] == 'H');
}

/// A configuration that holds none of the keys gives the default of every field.
pub proof fn empty_configuration_gives_defaults(config: ::config::Config, e: SettingsEntriesView)
    requires
        entries_of(config, e),
        config_missing(config).contains("app"@),
        config_missing(config).contains("git_repository"@),
        config_missing(config).contains("git_branch"@),
        config_missing(config).contains("git_commit"@),
        config_missing(config).contains("git_tag"@),
        config_missing(config).contains("github_workflow"@),
        config_missing(config).contains("github_run_id"@),
        config_missing(config).contains("github_run_number"@),
    ensures
        settings_from_entries(e) == Ok::<SettingsView, SettingsErrorView>(default_settings()),
{
}

/// What a configuration holds at a provenance key, read as text.
pub open spec fn provenance_in(config: ::config::Config, key: Seq<char>) -> Seq<char> {
    if config_texts(config).contains_key(key) {
        config_texts(config)[key]
    } else {
        UNKNOWN@
    }
}

/// Each field of the settings read from a configuration comes from the configuration where
/// it holds the key, and is the default where it does not: the default application
/// configuration without an `app` section, the default of each missing key of the section,
/// [`UNKNOWN`] for each missing provenance value. A provenance text is kept as it is, e.g.
/// an all-digit commit SHA stays that text.
pub proof fn fields_come_from_the_configuration(config: ::config::Config, e: SettingsEntriesView)
    requires
        entries_of(config, e),
        settings_from_entries(e) is Ok,
    ensures
        ({
            let s = settings_from_entries(e)->Ok_0;
            &&& config_missing(config).contains("app"@) ==> s.app == default_app()
            &&& config_table_keys(config).contains_key("app"@) ==> {
                &&& s.app.greeting == (if config_missing(config).contains("app.greeting"@) {
                    default_greeting()
                } else {
                    config_texts(config)["app.greeting"@]
                })
                &&& s.app.interval_seconds == (if config_missing(config).contains(
                    "app.interval_seconds"@,
                ) {
                    default_interval_seconds()
                } else {
                    config_u64s(config)["app.interval_seconds"@]
                })
                &&& s.app.log_format == (if config_missing(config).contains("app.log_format"@) {
                    LogFormat::Text
                } else {
                    log_format_of_shape(shape_at(config, "app.log_format"@))->Ok_0
                })
            }
            &&& s.git_repository == provenance_in(config, "git_repository"@)
            &&& s.git_branch == provenance_in(config, "git_branch"@)
            &&& s.git_commit == provenance_in(config, "git_commit"@)
            &&& s.git_tag == provenance_in(config, "git_tag"@)
            &&& s.github_workflow == provenance_in(config, "github_workflow"@)
            &&& s.github_run_id == provenance_in(config, "github_run_id"@)
            &&& s.github_run_number == provenance_in(config, "github_run_number"@)
        }),
{
    if let Ok(Some(a)) = e.app {
        assert(settings_from_entries(e)->Ok_0.app == app_from_entries(a)->Ok_0);
        assert(a.greeting is Ok && a.interval_seconds is Ok && a.log_format is Ok);
    }
}

/// Two configurations that hold the same at the keys [`Settings`] reads give the same
/// settings, or both fail.
pub proof fn reading_depends_only_on_the_keys_read(
    c1: ::config::Config,
    e1: SettingsEntriesView,
    c2: ::config::Config,
    e2: SettingsEntriesView,
)
    requires
        entries_of(c1, e1),
        entries_of(c2, e2),
        config_missing(c1) == config_missing(c2),
        config_texts(c1) == config_texts(c2),
        config_u64s(c1) == config_u64s(c2),
        config_table_keys(c1) == config_table_keys(c2),
        config_shapes(c1) == config_shapes(c2),
    ensures
        settings_from_entries(e1) is Ok <==> settings_from_entries(e2) is Ok,
        settings_from_entries(e1) is Ok ==> settings_from_entries(e1) == settings_from_entries(e2),
{
    same_text(c1, c2, "git_repository"@, e1.git_repository, e2.git_repository);
    same_text(c1, c2, "git_branch"@, e1.git_branch, e2.git_branch);
    same_text(c1, c2, "git_commit"@, e1.git_commit, e2.git_commit);
    same_text(c1, c2, "git_tag"@, e1.git_tag, e2.git_tag);
    same_text(c1, c2, "github_workflow"@, e1.github_workflow, e2.github_workflow);
    same_text(c1, c2, "github_run_id"@, e1.github_run_id, e2.github_run_id);
    same_text(c1, c2, "github_run_number"@, e1.github_run_number, e2.github_run_number);
    if let Ok(Some(a1)) = e1.app {
        let a2 = e2.app->Ok_0->0;
        same_text(c1, c2, "app.greeting"@, a1.greeting, a2.greeting);
        same_u64(c1, c2, "app.interval_seconds"@, a1.interval_seconds, a2.interval_seconds);
        same_shape(c1, c2, "app.log_format"@, a1.log_format, a2.log_format);
        assert(app_from_entries(a1) is Ok <==> app_from_entries(a2) is Ok);
        assert(app_from_entries(a1) is Ok ==> app_from_entries(a1) == app_from_entries(a2));
    }
}

proof fn same_text(
    c1: ::config::Config,
    c2: ::config::Config,
    key: Seq<char>,
    x1: Result<Option<Seq<char>>, ::config::ConfigError>,
    x2: Result<Option<Seq<char>>, ::config::ConfigError>,
)
    requires
        holds_text(c1, key, x1),
        holds_text(c2, key, x2),
        config_missing(c1) == config_missing(c2),
        config_texts(c1) == config_texts(c2),
    ensures
        x1 is Ok <==> x2 is Ok,
        x1 is Ok ==> x1 == x2,
{
}

proof fn same_u64(
    c1: ::config::Config,
    c2: ::config::Config,
    key: Seq<char>,
    x1: Result<Option<u64>, ::config::ConfigError>,
    x2: Result<Option<u64>, ::config::ConfigError>,
)
    requires
        holds_u64(c1, key, x1),
        holds_u64(c2, key, x2),
        config_missing(c1) == config_missing(c2),
        config_u64s(c1) == config_u64s(c2),
    ensures
        x1 is Ok <==> x2 is Ok,
        x1 is Ok ==> x1 == x2,
{
}

proof fn same_shape(
    c1: ::config::Config,
    c2: ::config::Config,
    key: Seq<char>,
    x1: Result<Option<ValueShapeView>, ::config::ConfigError>,
    x2: Result<Option<ValueShapeView>, ::config::ConfigError>,
)
    requires
        holds_shape(c1, key, x1),
        holds_shape(c2, key, x2),
        config_missing(c1) == config_missing(c2),
        config_table_keys(c1) == config_table_keys(c2),
        config_shapes(c1) == config_shapes(c2),
    ensures
        x1 is Ok <==> x2 is Ok,
        x1 is Ok ==> x1 == x2,
{
}

/// The log format is named without regard to case: texts with the same lowercase form
/// name the same format.
pub proof fn log_format_ignores_case(a: Seq<char>, b: Seq<char>)
    requires
        text_lowercase(a) == text_lowercase(b),
    ensures
        log_format_named(a) == log_format_named(b),
{
}

/// The variant names select their formats in any ASCII case, e.g. `json`, `JSON`, `Json`,
/// `text`, `TEXT`; another name selects none.
pub proof fn format_names_in_any_ascii_case()
    ensures
        log_format_named("json"@) == Some(LogFormat::Json),
        log_format_named("JSON"@) == Some(LogFormat::Json),
        log_format_named("Json"@) == Some(LogFormat::Json),
        log_format_named("text"@) == Some(LogFormat::Text),
        log_format_named("TEXT"@) == Some(LogFormat::Text),
        log_format_named("xml"@) == None::<LogFormat>,
{
    reveal_strlit("json");
    reveal_strlit("JSON");
    reveal_strlit("Json");
    reveal_strlit("text");
    reveal_strlit("TEXT");
    reveal_strlit("xml");
    assert(ascii_lowercase("json"@) =~= "json"@);
    assert(ascii_lowercase("JSON"@) =~= "json"@);
    assert(ascii_lowercase("Json"@) =~= "json"@);
    assert(ascii_lowercase("text"@) =~= "text"@);
    assert(ascii_lowercase("TEXT"@) =~= "text"@);
    assert(ascii_lowercase("xml"@) =~= "xml"@);
    assert(is_ascii_text("json"@));
    assert(is_ascii_text("JSON"@));
    assert(is_ascii_text("Json"@));
    assert(is_ascii_text("text"@));
    assert(is_ascii_text("TEXT"@));
    assert(is_ascii_text("xml"@));
    assert("json"@ != "text"@) by {
        assert("json"@[0] != "text"@[0]);
    }
    assert("xml"@ != "text"@ && "xml"@ != "json"@) by {
        assert("xml"@.len() != "text"@.len());
        assert("xml"@.len() != "json"@.len());
    }
}

/// The white space characters are exactly the 25 code points of the Unicode `White_Space`
/// property; in particular nothing above U+3000 (no CJK letter, for one) and no ASCII
/// letter or digit is white space.
pub proof fn white_space_is_the_unicode_set(c: char)
    ensures
        is_white_space(c) <==> set![
            0x9u32, 0xAu32, 0xBu32, 0xCu32, 0xDu32, 0x20u32, 0x85u32, 0xA0u32, 0x1680u32,
            0x2000u32, 0x2001u32, 0x2002u32, 0x2003u32, 0x2004u32, 0x2005u32, 0x2006u32,
            0x2007u32, 0x2008u32, 0x2009u32, 0x200Au32, 0x2028u32, 0x2029u32, 0x202Fu32,
            0x205Fu32, 0x3000u32,
        ].contains(c as u32),
        (c as u32) > 0x3000 ==> !is_white_space(c),
        (0x30 <= (c as u32) <= 0x39 || 0x41 <= (c as u32) <= 0x5A || 0x61 <= (c as u32) <= 0x7A)
            ==> !is_white_space(c),
{
}

/// A greeting that holds a character outside the white space set (a letter, a digit, a
/// CJK character) is not blank, so validation does not refuse it for its greeting.
pub proof fn greeting_with_visible_text_is_not_blank(app: AppConfigView, i: int)
    requires
        0 <= i < app.greeting.len(),
        !is_white_space(app.greeting[i]),
    ensures
        !is_blank(app.greeting),
        validation_of(app) != Err::<(), SettingsErrorView>(SettingsErrorView::BlankGreeting),
        1 <= app.interval_seconds <= 3600 ==> validation_of(app) == Ok::<(), SettingsErrorView>(()),
{
}

/// A text value and a table whose only key is that text name the same log format; a name
/// whose lowercase form is `text` or `json` selects that format, in either shape, and any
/// other name is refused as unknown.
pub proof fn log_format_follows_its_name(raw: Seq<char>)
    ensures
        text_lowercase(raw) == "text"@ ==> log_format_of_shape(ValueShapeView::Text(raw))
            == Ok::<LogFormat, SettingsErrorView>(LogFormat::Text),
        text_lowercase(raw) == "json"@ ==> log_format_of_shape(ValueShapeView::Text(raw))
            == Ok::<LogFormat, SettingsErrorView>(LogFormat::Json),
        text_lowercase(raw) != "text"@ && text_lowercase(raw) != "json"@ ==> log_format_of_shape(
            ValueShapeView::Text(raw),
        ) == Err::<LogFormat, SettingsErrorView>(SettingsErrorView::UnknownLogFormat(raw)),
        log_format_of_shape(ValueShapeView::Table(set![raw])) == log_format_of_shape(
            ValueShapeView::Text(raw),
        ),
        log_format_named(raw) == Some(LogFormat::Text) <==> text_lowercase(raw) == "text"@,
        log_format_named(raw) == Some(LogFormat::Json) <==> text_lowercase(raw) == "json"@,
{
    assert("json"@ != "text"@) by {
        reveal_strlit("json");
        reveal_strlit("text");
        assert("json"@[0] != "text"@[0]);
    }
    let keys = set![raw];
    assert(keys.contains(raw));
    assert(keys.choose() == raw);
}

/// The names `text` and `json` themselves, as the configuration holds them, select their
/// formats.
pub proof fn lowercase_names_select_their_formats()
    ensures
        log_format_of_shape(ValueShapeView::Text("text"@)) == Ok::<LogFormat, SettingsErrorView>(
            LogFormat::Text,
        ),
        log_format_of_shape(ValueShapeView::Text("json"@)) == Ok::<LogFormat, SettingsErrorView>(
            LogFormat::Json,
        ),
{
    format_names_in_any_ascii_case();
    log_format_follows_its_name("text"@);
    log_format_follows_its_name("json"@);
}

/// Readable entries always decode: where every entry of the `app` section can be read and
/// the log format, if given, names a format, the section gives an application
/// configuration whose every field is the given value, or the default where none is given.
pub proof fn readable_app_entries_decode(e: AppEntriesView)
    requires
        e.greeting is Ok,
        e.interval_seconds is Ok,
        e.log_format is Ok,
        e.log_format matches Ok(Some(shape)) ==> log_format_of_shape(shape) is Ok,
    ensures
        app_from_entries(e) is Ok,
        app_from_entries(e)->Ok_0.greeting == (match e.greeting->Ok_0 {
            Some(g) => g,
            None => "Hello from a multi-architecture container"@,
        }),
        app_from_entries(e)->Ok_0.interval_seconds == (match e.interval_seconds->Ok_0 {
            Some(i) => i,
            None => 3u64,
        }),
        e.log_format == Ok::<Option<ValueShapeView>, ::config::ConfigError>(None) ==> app_from_entries(e)->Ok_0.log_format
            == LogFormat::Text,
        e.log_format matches Ok(Some(shape)) ==> app_from_entries(e)->Ok_0.log_format
            == log_format_of_shape(shape)->Ok_0,
{
}

/// Readable settings always decode: where every provenance entry can be read and the `app`
/// section, if any, is readable with a log format that names a format, the settings decode
/// (nothing but an unreadable entry or an unknown log format makes reading fail).
pub proof fn readable_entries_decode(e: SettingsEntriesView)
    requires
        e.app is Ok,
        e.app matches Ok(Some(a)) ==> {
            &&& a.greeting is Ok
            &&& a.interval_seconds is Ok
            &&& a.log_format is Ok
            &&& a.log_format matches Ok(Some(shape)) ==> log_format_of_shape(shape) is Ok
        },
        e.git_repository is Ok,
        e.git_branch is Ok,
        e.git_commit is Ok,
        e.git_tag is Ok,
        e.github_workflow is Ok,
        e.github_run_id is Ok,
        e.github_run_number is Ok,
    ensures
        settings_from_entries(e) is Ok,
        e.app == Ok::<Option<AppEntriesView>, ::config::ConfigError>(None) ==> settings_from_entries(e)->Ok_0.app
            == default_app(),
        e.app matches Ok(Some(a)) ==> settings_from_entries(e)->Ok_0.app == app_from_entries(a)->Ok_0,
        e.git_tag matches Ok(Some(t)) ==> settings_from_entries(e)->Ok_0.git_tag == t,
        e.git_commit matches Ok(Some(t)) ==> settings_from_entries(e)->Ok_0.git_commit == t,
{
    if let Ok(Some(a)) = e.app {
        readable_app_entries_decode(a);
    }
}

/// The defaults: the greeting "Hello from a multi-architecture container", three seconds
/// between reports, text output.
pub proof fn default_values()
    ensures
        default_app().greeting == "Hello from a multi-architecture container"@,
        default_app().interval_seconds == 3,
        default_app().log_format == LogFormat::Text,
        default_settings().git_tag == "n/a"@,
{
    reveal_strlit("n/a");
}

/// The validation rules: a greeting made only of white space (an empty one too) is refused
/// first; otherwise an interval of 0 or above 3600 seconds is refused; anything else
/// passes.
pub proof fn validation_rules(app: AppConfigView)
    ensures
        (forall|i: int| 0 <= i < app.greeting.len() ==> #[trigger] is_white_space(app.greeting[i]))
            ==> validation_of(app) == Err::<(), SettingsErrorView>(SettingsErrorView::BlankGreeting),
        app.greeting.len() == 0 ==> validation_of(app) == Err::<(), SettingsErrorView>(
            SettingsErrorView::BlankGreeting,
        ),
        !is_blank(app.greeting) && (app.interval_seconds == 0 || app.interval_seconds > 3600)
            ==> validation_of(app) == Err::<(), SettingsErrorView>(
            SettingsErrorView::IntervalOutOfRange,
        ),
        !is_blank(app.greeting) && 1 <= app.interval_seconds <= 3600 ==> validation_of(app)
            == Ok::<(), SettingsErrorView>(()),
        app_is_valid(app) <==> validation_of(app) is Ok,
{
}

/// Settings that pass validation are exactly those whose application configuration is
/// valid, and validation changes nothing of them.
pub proof fn checked_settings_are_valid(r: Result<SettingsView, SettingsErrorView>)
    ensures
        checked(r) is Ok <==> (r is Ok && app_is_valid(r->Ok_0.app)),
        checked(r) is Ok ==> checked(r) == r,
{
}

} // verus!
