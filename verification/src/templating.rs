//! Substitution of directory placeholders in the contents of a file.

use vstd::prelude::*;
use vstd::string::*;

use crate::dirs::{Dirs, DirsView};
use crate::text::{contains_text, copy_text, occurs, replace_all, replaced};

verus! {

/// The text that `String::from_utf8_lossy` reads from bytes.
pub uninterp spec fn lossy_utf8(bytes: Seq<u8>) -> Seq<char>;

/// Calls `String::from_utf8_lossy`, which reads the bytes as UTF-8 and
/// puts the replacement character in place of what is not.
#[verifier::external_body]
fn lossy_text(bytes: &[u8]) -> (r: String)
    ensures
        r@ == lossy_utf8(bytes@),
{
    String::from_utf8_lossy(bytes).to_string()
}

/// Why the contents of a file could not be templated.
#[derive(Debug, PartialEq, Eq, Clone)]
pub enum TemplatingError {
    /// The contents hold the placeholder of a directory that is not set.
    UnsetDirectory { placeholder: String },
}

/// Contents in the course of templating: the text so far, or the
/// placeholder that could not be replaced.
pub type Templated = Result<Seq<char>, Seq<char>>;

/// The contents with the placeholder of a directory replaced by its value.
/// Where the directory is unset the contents must not hold the placeholder.
pub open spec fn filled(acc: Templated, needle: Seq<char>, value: Option<Seq<char>>) -> Templated {
    match acc {
        Err(e) => Err(e),
        Ok(contents) => match value {
            Some(v) => Ok(replaced(contents, needle, v)),
            None => if occurs(contents, needle) {
                Err(needle)
            } else {
                Ok(contents)
            },
        },
    }
}

/// The contents with the placeholder of every directory replaced, one
/// directory after the other.
pub open spec fn templated(contents: Seq<char>, dirs: DirsView) -> Templated {
    let acc: Templated = Ok(contents);
    let acc = filled(acc, "@prefix@"@, dirs.prefix);
    let acc = filled(acc, "@exec_prefix@"@, dirs.exec_prefix);
    let acc = filled(acc, "@bindir@"@, Some(dirs.bindir));
    let acc = filled(acc, "@sbindir@"@, dirs.sbindir);
    let acc = filled(acc, "@libdir@"@, Some(dirs.libdir));
    let acc = filled(acc, "@libexecdir@"@, Some(dirs.libexecdir));
    let acc = filled(acc, "@datarootdir@"@, Some(dirs.datarootdir));
    let acc = filled(acc, "@datadir@"@, Some(dirs.datadir));
    let acc = filled(acc, "@sysconfdir@"@, Some(dirs.sysconfdir));
    let acc = filled(acc, "@localstatedir@"@, Some(dirs.localstatedir));
    let acc = filled(acc, "@runstatedir@"@, Some(dirs.runstatedir));
    let acc = filled(acc, "@includedir@"@, dirs.includedir);
    let acc = filled(acc, "@docdir@"@, dirs.docdir);
    let acc = filled(acc, "@mandir@"@, dirs.mandir);
    let acc = filled(acc, "@pam_modulesdir@"@, dirs.pam_modulesdir);
    let acc = filled(acc, "@systemd_unitsdir@"@, Some(dirs.systemd_unitsdir));
    acc
}

/// The view of contents that were templated or refused.
pub open spec fn templating_outcome(r: Result<String, TemplatingError>) -> Templated {
    match r {
        Ok(contents) => Ok(contents@),
        Err(TemplatingError::UnsetDirectory { placeholder }) => Err(placeholder@),
    }
}

/// Replaces the placeholder of a directory that is always set.
fn fill(contents: String, needle: &str, value: &String) -> (r: Result<String, TemplatingError>)
    requires
        needle@.len() > 0,
    ensures
        templating_outcome(r) == filled(Ok(contents@), needle@, Some(value@)),
{
    Ok(replace_all(contents.as_str(), needle, value.as_str()))
}

/// Replaces the placeholder of a directory that may be unset.
fn fill_opt(contents: String, needle: &str, value: &Option<String>) -> (r: Result<
    String,
    TemplatingError,
>)
    requires
        needle@.len() > 0,
    ensures
        templating_outcome(r) == filled(
            Ok(contents@),
            needle@,
            match *value {
                Some(v) => Some(v@),
                None => None,
            },
        ),
{
    match value {
        Some(v) => Ok(replace_all(contents.as_str(), needle, v.as_str())),
        None => {
            if contains_text(contents.as_str(), needle) {
                Err(TemplatingError::UnsetDirectory { placeholder: copy_text(needle) })
            } else {
                Ok(contents)
            }
        },
    }
}

/// Replaces in a file's contents the placeholder `@<directory>@` of every
/// installation directory by the directory's value. A directory that is
/// always set is always replaced; one that may be unset is replaced where
/// it is set, and must not be named in the contents where it is not.
pub fn apply_templating(contents: &[u8], dirs: &Dirs) -> (r: Result<String, TemplatingError>)
    ensures
        templating_outcome(r) == templated(lossy_utf8(contents@), dirs@),
{
    proof {
        reveal_strlit("@prefix@");
        reveal_strlit("@exec_prefix@");
        reveal_strlit("@bindir@");
        reveal_strlit("@sbindir@");
        reveal_strlit("@libdir@");
        reveal_strlit("@libexecdir@");
        reveal_strlit("@datarootdir@");
        reveal_strlit("@datadir@");
        reveal_strlit("@sysconfdir@");
        reveal_strlit("@localstatedir@");
        reveal_strlit("@runstatedir@");
        reveal_strlit("@includedir@");
        reveal_strlit("@docdir@");
        reveal_strlit("@mandir@");
        reveal_strlit("@pam_modulesdir@");
        reveal_strlit("@systemd_unitsdir@");
    }
    let contents = lossy_text(contents);
    let contents = fill_opt(contents, "@prefix@", &dirs.prefix)?;
    let contents = fill_opt(contents, "@exec_prefix@", &dirs.exec_prefix)?;
    let contents = fill(contents, "@bindir@", &dirs.bindir)?;
    let contents = fill_opt(contents, "@sbindir@", &dirs.sbindir)?;
    let contents = fill(contents, "@libdir@", &dirs.libdir)?;
    let contents = fill(contents, "@libexecdir@", &dirs.libexecdir)?;
    let contents = fill(contents, "@datarootdir@", &dirs.datarootdir)?;
    let contents = fill(contents, "@datadir@", &dirs.datadir)?;
    let contents = fill(contents, "@sysconfdir@", &dirs.sysconfdir)?;
    let contents = fill(contents, "@localstatedir@", &dirs.localstatedir)?;
    let contents = fill(contents, "@runstatedir@", &dirs.runstatedir)?;
    let contents = fill_opt(contents, "@includedir@", &dirs.includedir)?;
    let contents = fill_opt(contents, "@docdir@", &dirs.docdir)?;
    let contents = fill_opt(contents, "@mandir@", &dirs.mandir)?;
    let contents = fill_opt(contents, "@pam_modulesdir@", &dirs.pam_modulesdir)?;
    let contents = fill(contents, "@systemd_unitsdir@", &dirs.systemd_unitsdir)?;
    Ok(contents)
}

} // verus!
