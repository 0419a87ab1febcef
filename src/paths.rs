use vstd::prelude::*;
use vstd::string::StringExecFns;

verus! {

/// The directory, relative to the home directory, that holds the settings
/// and the theme files.
pub open spec fn config_dir_spec(home: Seq<char>) -> Seq<char> {
    home + "/.config/enos_manager/"@
}

pub open spec fn settings_path_spec(home: Seq<char>) -> Seq<char> {
    config_dir_spec(home) + "settings.json"@
}

pub open spec fn default_theme_path_spec(home: Seq<char>) -> Seq<char> {
    config_dir_spec(home) + "default.css"@
}

/// The settings and themes directory under `home`.
pub fn config_dir(home: &str) -> (r: String)
    ensures
        r@ == config_dir_spec(home@),
{
    String::from_str(home).concat("/.config/enos_manager/")
}

/// The settings file under `home`.
pub fn settings_path(home: &str) -> (r: String)
    ensures
        r@ == settings_path_spec(home@),
{
    config_dir(home).concat("settings.json")
}

/// The default theme file under `home`.
pub fn default_theme_path(home: &str) -> (r: String)
    ensures
        r@ == default_theme_path_spec(home@),
{
    config_dir(home).concat("default.css")
}

} // verus!
