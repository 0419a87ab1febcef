use enos_manager::config::{
    finish_create, finish_write, read_step, set_lang, set_theme, system_lang, Config, ConfigError,
    ReadStep, SettingsFile, WriteFailure,
};
use enos_manager::paths::{config_dir, default_theme_path, settings_path};
use enos_manager::programs::{check_prog, launch_reply, launcher_program, marker_path};
use enos_manager::stylesheet::DEFAULT_STYLESHEET;
use enos_manager::theme::{
    is_theme_file_name, list_step, theme_names, theme_path, DirEntry, ListStep, DEFAULT_THEME_FILE,
};
use enos_manager::tweak::{
    lookup, run_result, tweak_finish, tweak_step, RunOutcome, Tweak, TweakError, TweakStep,
};

fn sample(lang: &str, theme: &str, lightmode: bool) -> Config {
    Config { lang: lang.to_string(), theme: theme.to_string(), lightmode }
}

#[test]
fn unknown_tweak_is_refused() {
    assert_eq!(lookup("format_disk"), None);
    assert!(matches!(tweak_step("format_disk"), Err(TweakError::Unknown)));
    assert!(matches!(tweak_step(""), Err(TweakError::Unknown)));
    assert_eq!(TweakError::Unknown.message(), "Неизвестная команда");
}

#[test]
fn known_tweaks_are_found() {
    assert_eq!(lookup("kde_session"), Some(Tweak::KdeSession));
    assert_eq!(lookup("zram_off"), Some(Tweak::ZramOff));
    assert_eq!(lookup("clear_journal"), Some(Tweak::ClearJournal));
}

#[test]
fn status_tweak_runs_nothing() {
    match tweak_step("kde_session") {
        Ok(TweakStep::Reply(m)) => assert_eq!(m, "sss"),
        other => panic!("unexpected step {:?}", other),
    }
}

#[test]
fn keys_on_runs_elevated() {
    match tweak_step("keys_on") {
        Ok(TweakStep::Run { program, args, message }) => {
            assert_eq!(program, "pkexec");
            assert_eq!(args, vec!["pacman-key-manager".to_string(), "--install".to_string()]);
            assert_eq!(message, "Ключи установлены");
        }
        other => panic!("unexpected step {:?}", other),
    }
}

#[test]
fn refresh_mirrors_arguments() {
    match tweak_step("refresh_mirrors") {
        Ok(TweakStep::Run { args, message, .. }) => {
            assert_eq!(args.len(), 9);
            assert_eq!(args[0], "reflector");
            assert_eq!(args[8], "/etc/pacman.d/mirrorlist");
            assert_eq!(message, "Зеркала обновлены");
        }
        other => panic!("unexpected step {:?}", other),
    }
}

#[test]
fn runner_reduces_outcomes() {
    assert_eq!(run_result("pkexec", RunOutcome::Exited(true)), Ok(()));
    assert_eq!(
        run_result("pkexec", RunOutcome::Exited(false)),
        Err("Ошибка в выполнении команды pkexec".to_string())
    );
    assert_eq!(
        run_result("pkexec", RunOutcome::LaunchFailed("not found".to_string())),
        Err("not found".to_string())
    );
}

#[test]
fn tweak_answer_is_message_or_runner_error() {
    assert_eq!(tweak_finish("ZRAM включен".to_string(), Ok(())), Ok("ZRAM включен".to_string()));
    let failed = tweak_finish("ZRAM включен".to_string(), Err("boom".to_string()));
    assert_eq!(failed, Err(TweakError::CommandFailed("boom".to_string())));
    assert_eq!(failed.unwrap_err().message(), "boom");
}

#[test]
fn language_is_first_two_characters() {
    assert_eq!(system_lang("ru_RU.UTF-8"), "ru");
    assert_eq!(system_lang("C"), "C");
    assert_eq!(system_lang(""), "");
}

#[test]
fn default_record() {
    let c = Config::default_for("en_US.UTF-8");
    assert_eq!(c.lang, "en");
    assert_eq!(c.theme, "default");
    assert!(!c.lightmode);
}

#[test]
fn first_read_creates_default_then_same_record() {
    let first = match read_step(SettingsFile::Missing, Some("de_DE.UTF-8")) {
        ReadStep::CreateDefault(c) => c,
        other => panic!("unexpected step {:?}", other),
    };
    let stored = finish_create(first, Ok(())).unwrap();
    let copy = sample(&stored.lang, &stored.theme, stored.lightmode);
    match read_step(SettingsFile::Parsed(copy), Some("de_DE.UTF-8")) {
        ReadStep::Done(Ok(c)) => {
            assert_eq!(c.lang, stored.lang);
            assert_eq!(c.theme, "default");
            assert_eq!(c.lightmode, stored.lightmode);
        }
        other => panic!("unexpected step {:?}", other),
    }
}

#[test]
fn missing_locale_is_an_error() {
    let r = read_step(SettingsFile::Missing, None);
    assert!(matches!(r, ReadStep::Done(Err(ConfigError::EnvironmentMissing))));
}

#[test]
fn corrupt_settings_fail() {
    match read_step(SettingsFile::Unparsable("expected value".to_string()), Some("en")) {
        ReadStep::Done(Err(ConfigError::Corrupt(m))) => {
            assert_eq!(m, "Ошибка парсинга конфига: expected value")
        }
        other => panic!("unexpected step {:?}", other),
    }
}

#[test]
fn stored_record_is_read_back() {
    match read_step(SettingsFile::Parsed(sample("fr", "ocean", true)), None) {
        ReadStep::Done(Ok(c)) => {
            assert_eq!(c.lang, "fr");
            assert_eq!(c.theme, "ocean");
            assert!(c.lightmode);
        }
        other => panic!("unexpected step {:?}", other),
    }
}

#[test]
fn create_failure_is_io_error() {
    let r = finish_create(sample("en", "default", false), Err("denied".to_string()));
    assert!(matches!(r, Err(ConfigError::Io(ref m)) if m == "denied"));
}

#[test]
fn write_failures_name_their_stage() {
    let r = finish_write(sample("en", "x", false), Err(WriteFailure::CreateDir("e".to_string())));
    assert_eq!(r.unwrap_err().message(), "Ошибка создания директории для конфига: e");
    let r = finish_write(sample("en", "x", false), Err(WriteFailure::CreateFile("e".to_string())));
    assert_eq!(r.unwrap_err().message(), "Ошибка создания конфига: e");
    let r = finish_write(sample("en", "x", false), Err(WriteFailure::Serialize("e".to_string())));
    assert_eq!(r.unwrap_err().message(), "Ошибка записи конфига: e");
    let ok = finish_write(sample("en", "x", true), Ok(())).unwrap();
    assert_eq!(ok.theme, "x");
}

#[test]
fn set_theme_dark_keeps_other_fields() {
    let r = set_theme(Ok(sample("ru", "default", true)), "dark".to_string()).unwrap();
    assert_eq!(r.theme, "dark");
    assert_eq!(r.lang, "ru");
    assert!(r.lightmode);
    let e = set_theme(Err(ConfigError::Corrupt("bad".to_string())), "dark".to_string());
    assert!(matches!(e, Err(ConfigError::Corrupt(_))));
}

#[test]
fn set_lang_keeps_other_fields() {
    let r = set_lang(Ok(sample("ru", "dark", false)), "en".to_string()).unwrap();
    assert_eq!(r.lang, "en");
    assert_eq!(r.theme, "dark");
    assert!(!r.lightmode);
}

#[test]
fn paths_under_home() {
    assert_eq!(config_dir("/home/a"), "/home/a/.config/enos_manager/");
    assert_eq!(settings_path("/home/a"), "/home/a/.config/enos_manager/settings.json");
    assert_eq!(default_theme_path("/home/a"), "/home/a/.config/enos_manager/default.css");
}

#[test]
fn unreadable_theme_falls_back() {
    assert_eq!(theme_path(Err("No such file".to_string())), Ok(DEFAULT_STYLESHEET.to_string()));
    assert_eq!(theme_path(Ok("body {}".to_string())), Ok("body {}".to_string()));
}

#[test]
fn theme_extension() {
    assert!(is_theme_file_name("dark.css"));
    assert!(is_theme_file_name(DEFAULT_THEME_FILE));
    assert!(!is_theme_file_name(".css"));
    assert!(!is_theme_file_name("notes.txt"));
    assert!(!is_theme_file_name("dark.CSS"));
    assert!(!is_theme_file_name("css"));
}

#[test]
fn listing_keeps_theme_files_in_order() {
    let entries = vec![
        DirEntry { name: "b.css".to_string(), is_file: true },
        DirEntry { name: "settings.json".to_string(), is_file: true },
        DirEntry { name: "sub.css".to_string(), is_file: false },
        DirEntry { name: "default.css".to_string(), is_file: true },
    ];
    assert_eq!(theme_names(&entries), vec!["b.css".to_string(), "default.css".to_string()]);
    assert_eq!(theme_names(&Vec::new()), Vec::<String>::new());
}

#[test]
fn listing_steps() {
    assert_eq!(list_step(false, false), ListStep::Seed);
    assert_eq!(list_step(true, false), ListStep::RestoreDefaultThenScan);
    assert_eq!(list_step(true, true), ListStep::Scan);
}

#[test]
fn probe_markers() {
    let m = marker_path("zram-manager");
    assert_eq!(m, Some("/etc/systemd/system/zram.service".to_string()));
    assert!(check_prog(&m, true));
    assert!(!check_prog(&m, false));
    let unknown = marker_path("firefox");
    assert_eq!(unknown, None);
    assert!(!check_prog(&unknown, true));
    assert_eq!(
        marker_path("pacman-key-manager"),
        Some("/etc/systemd/system/pacman-key-manager.service".to_string())
    );
}

#[test]
fn launcher_modes() {
    assert_eq!(launcher_program("pamac"), Some("pamac-manager".to_string()));
    assert_eq!(launcher_program("zapret"), Some("enos-zapret-manager".to_string()));
    assert_eq!(launcher_program("x"), None);
    assert_eq!(launch_reply(Ok(())), "OK");
    assert_eq!(launch_reply(Err("nope".to_string())), "Ошибка nope");
}
