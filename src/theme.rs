use vstd::prelude::*;
use vstd::string::{StrSliceExecFns, StringExecFns};

use crate::stylesheet::DEFAULT_STYLESHEET;
use crate::text::same_text;

verus! {

/// The file name under which the built-in stylesheet is seeded.
pub const DEFAULT_THEME_FILE: &'static str = "default.css";

/// Whether a file name has the theme extension: a final `.css` that is not
/// the name's leading dot.
pub open spec fn is_theme_name(name: Seq<char>) -> bool {
    name.len() > 4 && name.subrange(name.len() - 4, name.len() as int) == ".css"@
}

/// One entry of a directory scan.
#[derive(Debug)]
pub struct DirEntry {
    /// The entry's file name.
    pub name: String,
    /// Whether it is a regular file (following links).
    pub is_file: bool,
}

/// The entries of a scan as plain values.
pub open spec fn entries_view(entries: Seq<DirEntry>) -> Seq<(Seq<char>, bool)> {
    entries.map_values(|e: DirEntry| (e.name@, e.is_file))
}

/// The theme names among scanned entries, in scan order: regular files with
/// the theme extension.
pub open spec fn listed(entries: Seq<(Seq<char>, bool)>) -> Seq<Seq<char>>
    decreases entries.len(),
{
    if entries.len() == 0 {
        Seq::empty()
    } else {
        let last = entries.last();
        let rest = listed(entries.drop_last());
        if last.1 && is_theme_name(last.0) {
            rest.push(last.0)
        } else {
            rest
        }
    }
}

/// Whether `name` has the theme extension.
pub fn is_theme_file_name(name: &str) -> (r: bool)
    ensures
        r == is_theme_name(name@),
{
    let n = name.unicode_len();
    if n <= 4 {
        return false;
    }
    let tail = name.substring_char(n - 4, n);
    same_text(tail, ".css")
}

/// The theme file names among the entries of a scan, in the order scanned.
pub fn theme_names(entries: &Vec<DirEntry>) -> (r: Vec<String>)
    ensures
        r.deep_view() == listed(entries_view(entries@)),
{
    let mut r: Vec<String> = Vec::new();
    let mut i: usize = 0;
    while i < entries.len()
        invariant
            i <= entries@.len(),
            r.deep_view() == listed(entries_view(entries@.take(i as int))),
        decreases entries@.len() - i,
    {
        let e = &entries[i];
        proof {
            let s = entries_view(entries@.take(i as int + 1));
            assert(s.drop_last() =~= entries_view(entries@.take(i as int)));
            assert(s.last() == (e.name@, e.is_file));
        }
        if e.is_file && is_theme_file_name(e.name.as_str()) {
            r.push(e.name.clone());
            proof {
                assert(r.deep_view() =~= listed(entries_view(entries@.take(i as int))).push(e.name@));
            }
        }
        i = i + 1;
    }
    proof {
        assert(entries@.take(entries@.len() as int) =~= entries@);
    }
    r
}

/// The stylesheet text for a theme, given the result of reading its file:
/// the file's text, or the built-in stylesheet when it could not be read.
/// The answer is never an error.
pub fn theme_path(read: Result<String, String>) -> (r: Result<String, String>)
    ensures
        r is Ok,
        read is Ok ==> r->Ok_0@ == read->Ok_0@,
        read is Err ==> r->Ok_0@ == DEFAULT_STYLESHEET@,
{
    match read {
        Ok(content) => Ok(content),
        Err(_) => Ok(String::from_str(DEFAULT_STYLESHEET)),
    }
}

/// What a listing of the themes directory has to do.
#[derive(Debug, PartialEq, Eq, Structural)]
pub enum ListStep {
    /// Create the directory, write the built-in stylesheet to the default
    /// theme file, and answer with an empty list without scanning.
    Seed,
    /// Write the built-in stylesheet to the default theme file, then scan.
    RestoreDefaultThenScan,
    /// Scan the directory.
    Scan,
}

/// Decides a listing from whether the directory and the default theme file
/// exist.
pub fn list_step(dir_exists: bool, default_exists: bool) -> (r: ListStep)
    ensures
        !dir_exists ==> r == ListStep::Seed,
        dir_exists && !default_exists ==> r == ListStep::RestoreDefaultThenScan,
        dir_exists && default_exists ==> r == ListStep::Scan,
{
    if !dir_exists {
        ListStep::Seed
    } else if !default_exists {
        ListStep::RestoreDefaultThenScan
    } else {
        ListStep::Scan
    }
}


/// A scanned regular file with the theme extension is listed.
pub proof fn lemma_theme_file_listed(entries: Seq<(Seq<char>, bool)>, i: int)
    requires
        0 <= i < entries.len(),
        entries[i].1,
        is_theme_name(entries[i].0),
    ensures
        listed(entries).contains(entries[i].0),
    decreases entries.len(),
{
    let rest = listed(entries.drop_last());
    if i == entries.len() - 1 {
        assert(listed(entries) == rest.push(entries[i].0));
        assert(listed(entries)[rest.len() as int] == entries[i].0);
    } else {
        assert(entries.drop_last()[i] == entries[i]);
        lemma_theme_file_listed(entries.drop_last(), i);
        let k = choose|k: int| 0 <= k < rest.len() && rest[k] == entries[i].0;
        assert(listed(entries)[k] == entries[i].0);
    }
}

/// The default theme file that a first listing seeds has the theme
/// extension, so every later scan that finds it as a regular file lists it.
pub proof fn lemma_seeded_default_listed_later(entries: Seq<(Seq<char>, bool)>, i: int)
    requires
        0 <= i < entries.len(),
        entries[i] == (DEFAULT_THEME_FILE@, true),
    ensures
        is_theme_name(DEFAULT_THEME_FILE@),
        listed(entries).contains(DEFAULT_THEME_FILE@),
{
    reveal_strlit("default.css");
    reveal_strlit(".css");
    assert(DEFAULT_THEME_FILE@.subrange(7, 11) =~= ".css"@);
    lemma_theme_file_listed(entries, i);
}

} // verus!
