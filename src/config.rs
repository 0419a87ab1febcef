use vstd::prelude::*;
use vstd::string::{StrSliceExecFns, StringExecFns};

verus! {

/// The persisted user settings.
#[derive(Debug)]
pub struct Config {
    pub lang: String,
    pub theme: String,
    pub lightmode: bool,
}

/// The settings as plain values.
pub struct ConfigView {
    pub lang: Seq<char>,
    pub theme: Seq<char>,
    pub lightmode: bool,
}

impl View for Config {
    type V = ConfigView;

    open spec fn view(&self) -> ConfigView {
        ConfigView { lang: self.lang@, theme: self.theme@, lightmode: self.lightmode }
    }
}

/// The language code taken from a locale value: its first two characters.
pub open spec fn lang_of(locale: Seq<char>) -> Seq<char> {
    if locale.len() <= 2 {
        locale
    } else {
        locale.take(2)
    }
}

/// The record written on first run.
pub open spec fn default_view(locale: Seq<char>) -> ConfigView {
    ConfigView { lang: lang_of(locale), theme: "default"@, lightmode: false }
}

/// The language code of the host, from the value of its locale variable.
pub fn system_lang(locale: &str) -> (r: String)
    ensures
        r@ == lang_of(locale@),
{
    let n = locale.unicode_len();
    let end: usize = if n <= 2 {
        n
    } else {
        2
    };
    let r = String::from_str(locale.substring_char(0, end));
    proof {
        if n <= 2 {
            assert(r@ =~= locale@);
        }
    }
    r
}

impl Config {
    /// The record synthesized when no settings exist yet.
    pub fn default_for(locale: &str) -> (r: Config)
        ensures
            r@ == default_view(locale@),
    {
        Config { lang: system_lang(locale), theme: String::from_str("default"), lightmode: false }
    }

    /// The same record with another theme.
    pub fn with_theme(self, name: String) -> (r: Config)
        ensures
            r@ == (ConfigView { theme: name@, ..self@ }),
    {
        Config { theme: name, ..self }
    }

    /// The same record with another language.
    pub fn with_lang(self, lang: String) -> (r: Config)
        ensures
            r@ == (ConfigView { lang: lang@, ..self@ }),
    {
        Config { lang, ..self }
    }
}

/// Why the settings could not be had or kept.
#[derive(Debug)]
pub enum ConfigError {
    /// The settings file exists but does not parse.
    Corrupt(String),
    /// A directory or file could not be created or written.
    Io(String),
    /// The locale variable that seeds the default language is not set.
    EnvironmentMissing,
}

/// An error as plain values.
pub enum ConfigErrorView {
    Corrupt(Seq<char>),
    Io(Seq<char>),
    EnvironmentMissing,
}

impl View for ConfigError {
    type V = ConfigErrorView;

    open spec fn view(&self) -> ConfigErrorView {
        match self {
            ConfigError::Corrupt(e) => ConfigErrorView::Corrupt(e@),
            ConfigError::Io(e) => ConfigErrorView::Io(e@),
            ConfigError::EnvironmentMissing => ConfigErrorView::EnvironmentMissing,
        }
    }
}

impl ConfigError {
    pub open spec fn text(&self) -> Seq<char> {
        match self {
            ConfigError::Corrupt(e) => e@,
            ConfigError::Io(e) => e@,
            ConfigError::EnvironmentMissing => "Ошибка получения языка"@,
        }
    }

    /// The text shown to the user for this error.
    pub fn message(&self) -> (r: String)
        ensures
            r@ == self.text(),
    {
        match self {
            ConfigError::Corrupt(e) => e.clone(),
            ConfigError::Io(e) => e.clone(),
            ConfigError::EnvironmentMissing => String::from_str("Ошибка получения языка"),
        }
    }
}

/// What was found at the settings path.
#[derive(Debug)]
pub enum SettingsFile {
    /// No file is there.
    Missing,
    /// The file parsed to this record.
    Parsed(Config),
    /// The file is there but does not parse; carries the parser's message.
    Unparsable(String),
}

/// The settings file as plain values.
pub enum SettingsView {
    Missing,
    Parsed(ConfigView),
    Unparsable(Seq<char>),
}

impl View for SettingsFile {
    type V = SettingsView;

    open spec fn view(&self) -> SettingsView {
        match self {
            SettingsFile::Missing => SettingsView::Missing,
            SettingsFile::Parsed(c) => SettingsView::Parsed(c@),
            SettingsFile::Unparsable(e) => SettingsView::Unparsable(e@),
        }
    }
}

/// What a read has to do next.
#[derive(Debug)]
pub enum ReadStep {
    /// The read is over, with this answer.
    Done(Result<Config, ConfigError>),
    /// Create the settings directory, store this record, and answer with it.
    CreateDefault(Config),
}

/// A read step as plain values.
pub enum ReadView {
    Done(Result<ConfigView, ConfigErrorView>),
    CreateDefault(ConfigView),
}

impl View for ReadStep {
    type V = ReadView;

    open spec fn view(&self) -> ReadView {
        match self {
            ReadStep::Done(Ok(c)) => ReadView::Done(Ok(c@)),
            ReadStep::Done(Err(e)) => ReadView::Done(Err(e@)),
            ReadStep::CreateDefault(c) => ReadView::CreateDefault(c@),
        }
    }
}

/// The prefix of the error reported for a settings file that does not parse.
pub open spec fn corrupt_text(cause: Seq<char>) -> Seq<char> {
    "Ошибка парсинга конфига: "@ + cause
}

/// What a read does, given what is at the settings path and the locale
/// value (`None` where the variable is not set).
pub open spec fn read_spec(file: SettingsView, locale: Option<Seq<char>>) -> ReadView {
    match file {
        SettingsView::Parsed(c) => ReadView::Done(Ok(c)),
        SettingsView::Unparsable(e) => ReadView::Done(Err(ConfigErrorView::Corrupt(corrupt_text(e)))),
        SettingsView::Missing => match locale {
            None => ReadView::Done(Err(ConfigErrorView::EnvironmentMissing)),
            Some(l) => ReadView::CreateDefault(default_view(l)),
        },
    }
}

pub open spec fn locale_view(locale: Option<&str>) -> Option<Seq<char>> {
    match locale {
        None => None,
        Some(l) => Some(l@),
    }
}

/// Decides a read of the settings: a parsed file is the answer, one that does
/// not parse is an error and is left as it is, and a missing one is replaced
/// by the default record.
pub fn read_step(file: SettingsFile, locale: Option<&str>) -> (r: ReadStep)
    ensures
        r@ == read_spec(file@, locale_view(locale)),
{
    match file {
        SettingsFile::Parsed(c) => ReadStep::Done(Ok(c)),
        SettingsFile::Unparsable(e) => {
            let s = String::from_str("Ошибка парсинга конфига: ");
            ReadStep::Done(Err(ConfigError::Corrupt(s.concat(e.as_str()))))
        },
        SettingsFile::Missing => match locale {
            None => ReadStep::Done(Err(ConfigError::EnvironmentMissing)),
            Some(l) => ReadStep::CreateDefault(Config::default_for(l)),
        },
    }
}

/// The answer to a read that stored the default record: the record itself,
/// or the storage error.
pub fn finish_create(c: Config, stored: Result<(), String>) -> (r: Result<Config, ConfigError>)
    ensures
        stored is Ok ==> r is Ok && r->Ok_0@ == c@,
        stored is Err ==> r is Err && r->Err_0@ == ConfigErrorView::Io(stored->Err_0@),
{
    match stored {
        Ok(()) => Ok(c),
        Err(e) => Err(ConfigError::Io(e)),
    }
}

/// The stage of a write at which storage failed, with the cause.
#[derive(Debug)]
pub enum WriteFailure {
    CreateDir(String),
    CreateFile(String),
    Serialize(String),
}

/// The error text for a write that failed at `f`.
pub open spec fn write_failure_text(f: WriteFailure) -> Seq<char> {
    match f {
        WriteFailure::CreateDir(e) => "Ошибка создания директории для конфига: "@ + e@,
        WriteFailure::CreateFile(e) => "Ошибка создания конфига: "@ + e@,
        WriteFailure::Serialize(e) => "Ошибка записи конфига: "@ + e@,
    }
}

/// The answer to a write of `c`: the record written, or an error that says
/// at which stage storage failed.
pub fn finish_write(c: Config, stored: Result<(), WriteFailure>) -> (r: Result<Config, ConfigError>)
    ensures
        stored is Ok ==> r is Ok && r->Ok_0@ == c@,
        stored is Err ==> r is Err && r->Err_0@ == ConfigErrorView::Io(
            write_failure_text(stored->Err_0),
        ),
{
    match stored {
        Ok(()) => Ok(c),
        Err(f) => {
            let (prefix, e): (&str, String) = match f {
                WriteFailure::CreateDir(e) => ("Ошибка создания директории для конфига: ", e),
                WriteFailure::CreateFile(e) => ("Ошибка создания конфига: ", e),
                WriteFailure::Serialize(e) => ("Ошибка записи конфига: ", e),
            };
            Err(ConfigError::Io(String::from_str(prefix).concat(e.as_str())))
        },
    }
}


/// The record to store for a change of theme: the current record with its
/// theme replaced, or the error met while reading it.
pub fn set_theme(current: Result<Config, ConfigError>, name: String) -> (r: Result<Config, ConfigError>)
    ensures
        current is Err ==> r is Err && r->Err_0@ == current->Err_0@,
        current is Ok ==> r is Ok && r->Ok_0@ == (ConfigView { theme: name@, ..current->Ok_0@ }),
{
    match current {
        Ok(c) => Ok(c.with_theme(name)),
        Err(e) => Err(e),
    }
}

/// The record to store for a change of language: the current record with
/// its language replaced, or the error met while reading it.
pub fn set_lang(current: Result<Config, ConfigError>, lang: String) -> (r: Result<Config, ConfigError>)
    ensures
        current is Err ==> r is Err && r->Err_0@ == current->Err_0@,
        current is Ok ==> r is Ok && r->Ok_0@ == (ConfigView { lang: lang@, ..current->Ok_0@ }),
{
    match current {
        Ok(c) => Ok(c.with_lang(lang)),
        Err(e) => Err(e),
    }
}

/// A read of a settings file that holds a stored record answers with that
/// record, whatever the locale: what is written is what is read back.
pub proof fn lemma_write_then_read(c: ConfigView, locale: Option<Seq<char>>)
    ensures
        read_spec(SettingsView::Parsed(c), locale) == ReadView::Done(Ok::<ConfigView, ConfigErrorView>(c)),
{
}

/// On first run the first read stores the default record and answers with
/// it; a second read then finds that record and answers with the same one.
pub proof fn lemma_first_run_twice(locale: Seq<char>)
    ensures
        read_spec(SettingsView::Missing, Some(locale)) == ReadView::CreateDefault(default_view(locale)),
        read_spec(SettingsView::Parsed(default_view(locale)), Some(locale)) == ReadView::Done(
            Ok::<ConfigView, ConfigErrorView>(default_view(locale)),
        ),
{
}

/// Changing the theme and reading the stored record back gives the new
/// theme, with the language and light mode of the record before.
pub proof fn lemma_set_theme_then_read(c: ConfigView, name: Seq<char>, locale: Option<Seq<char>>)
    ensures
        ({
            let stored = ConfigView { theme: name, ..c };
            &&& read_spec(SettingsView::Parsed(stored), locale) == ReadView::Done(
                Ok::<ConfigView, ConfigErrorView>(stored),
            )
            &&& stored.theme == name
            &&& stored.lang == c.lang
            &&& stored.lightmode == c.lightmode
        }),
{
}

/// A settings file that does not parse makes a read fail as corrupt, never
/// fall back to defaults, whatever the locale.
pub proof fn lemma_corrupt_read_fails(cause: Seq<char>, locale: Option<Seq<char>>)
    ensures
        read_spec(SettingsView::Unparsable(cause), locale) == ReadView::Done(
            Err::<ConfigView, ConfigErrorView>(ConfigErrorView::Corrupt(corrupt_text(cause))),
        ),
{
}

} // verus!
