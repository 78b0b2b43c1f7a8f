//! Entries that name one source and, at most, its destination.

use vstd::prelude::*;
use vstd::string::*;

use crate::package::EntryErrorKind;
use crate::path::{file_name, file_name_of, is_relative, is_relative_path, join, joined};
use crate::text::opt_text;

verus! {

/// A source and the destination it is installed to.
#[derive(Debug, PartialEq, Eq, Clone)]
pub struct Install {
    pub source: String,
    pub destination: Option<String>,
}

/// The mathematical model of an [`Install`].
pub struct InstallView {
    pub source: Seq<char>,
    pub destination: Option<Seq<char>>,
}

impl View for Install {
    type V = InstallView;

    open spec fn view(&self) -> InstallView {
        InstallView { source: self.source@, destination: opt_text(self.destination) }
    }
}

impl InstallView {
    /// The entry with its destination below `install_dir` (the given one,
    /// which must be relative, or the source's file name) and its source,
    /// which must be relative, below `parent_dir` if there is one.
    pub open spec fn sanitized(self, install_dir: Seq<char>, parent_dir: Option<Seq<char>>)
        -> Result<Self, EntryErrorKind> {
        if self.destination.is_some() && !is_relative_path(self.destination.unwrap()) {
            Err(EntryErrorKind::DestinationNotRelative)
        } else if self.destination.is_none() && file_name_of(self.source).is_none() {
            Err(EntryErrorKind::NoFileName)
        } else if !is_relative_path(self.source) {
            Err(EntryErrorKind::SourceNotRelative)
        } else {
            Ok(
                InstallView {
                    source: match parent_dir {
                        Some(parent) => joined(parent, self.source),
                        None => self.source,
                    },
                    destination: Some(
                        joined(
                            install_dir,
                            match self.destination {
                                Some(d) => d,
                                None => file_name_of(self.source).unwrap(),
                            },
                        ),
                    ),
                },
            )
        }
    }
}

/// The view of an entry that was sanitized or refused.
pub open spec fn sanitize_outcome(r: Result<Install, EntryErrorKind>) -> Result<
    InstallView,
    EntryErrorKind,
> {
    match r {
        Ok(entry) => Ok(entry@),
        Err(e) => Err(e),
    }
}

impl Install {
    /// Places the destination below `install_dir` and the source below
    /// `parent_dir`. Fails for a destination or a source that is not
    /// relative, and for a source without file name where no destination
    /// is given.
    pub fn sanitize(self, install_dir: &str, parent_dir: Option<&str>) -> (r: Result<
        Self,
        EntryErrorKind,
    >)
        ensures
            sanitize_outcome(r) == self@.sanitized(
                install_dir@,
                match parent_dir {
                    Some(parent) => Some(parent@),
                    None => None,
                },
            ),
    {
        let destination = match &self.destination {
            Some(destination) => {
                if !is_relative(destination.as_str()) {
                    return Err(EntryErrorKind::DestinationNotRelative);
                }
                join(install_dir, destination.as_str())
            },
            None => match file_name(self.source.as_str()) {
                Some(name) => join(install_dir, name.as_str()),
                None => {
                    return Err(EntryErrorKind::NoFileName);
                },
            },
        };
        if !is_relative(self.source.as_str()) {
            return Err(EntryErrorKind::SourceNotRelative);
        }
        let source = match parent_dir {
            Some(parent) => join(parent, self.source.as_str()),
            None => self.source,
        };
        Ok(Install { source, destination: Some(destination) })
    }
}

} // verus!
