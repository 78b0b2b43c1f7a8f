//! Icons and where they are installed.

use vstd::prelude::*;
use vstd::string::*;

use crate::package::EntryErrorKind;
use crate::path::{join, joined};
use crate::text::opt_text;

verus! {

/// An icon of a package as the manifest describes it.
#[derive(Debug, PartialEq, Eq, Clone)]
pub struct Icon {
    pub source: String,
    pub destination: Option<String>,
    pub icon_type: Option<String>,
    pub theme: Option<String>,
    pub dimensions: Option<String>,
    /// Whether the icon goes to the pixmaps directory.
    pub pixmaps: bool,
    /// Whether the source was found in the project's output directory.
    pub built: bool,
}

/// The mathematical model of an [`Icon`].
pub struct IconView {
    pub source: Seq<char>,
    pub destination: Option<Seq<char>>,
    pub icon_type: Option<Seq<char>>,
    pub theme: Option<Seq<char>>,
    pub dimensions: Option<Seq<char>>,
    pub pixmaps: bool,
    pub built: bool,
}

impl View for Icon {
    type V = IconView;

    open spec fn view(&self) -> IconView {
        IconView {
            source: self.source@,
            destination: opt_text(self.destination),
            icon_type: opt_text(self.icon_type),
            theme: opt_text(self.theme),
            dimensions: opt_text(self.dimensions),
            pixmaps: self.pixmaps,
            built: self.built,
        }
    }
}

/// The given text, or the default where none is given.
pub open spec fn text_or(value: Option<Seq<char>>, default: Seq<char>) -> Seq<char> {
    match value {
        Some(v) => v,
        None => default,
    }
}

impl IconView {
    /// The directory, relative to the data root, that the icon belongs to:
    /// `pixmaps/`, or `icons/<theme>/<dimensions>/<type>/` with `hicolor`
    /// and `apps` as the defaults. An icon outside pixmaps needs dimensions.
    pub open spec fn directory(self) -> Result<Seq<char>, EntryErrorKind> {
        if self.pixmaps {
            Ok(joined("pixmaps"@, ""@))
        } else if self.dimensions.is_none() {
            Err(EntryErrorKind::NoIconDimensions)
        } else {
            Ok(
                joined(
                    joined(
                        joined(
                            joined("icons"@, text_or(self.theme, "hicolor"@)),
                            self.dimensions.unwrap(),
                        ),
                        text_or(self.icon_type, "apps"@),
                    ),
                    ""@,
                ),
            )
        }
    }

    /// The icon's destination relative to the data root: its own
    /// destination, if it has one, below its directory.
    pub open spec fn relative_destination(self) -> Result<Seq<char>, EntryErrorKind> {
        match self.directory() {
            Err(e) => Err(e),
            Ok(dir) => match self.destination {
                Some(d) => Ok(joined(dir, d)),
                None => Ok(dir),
            },
        }
    }
}

/// The view of a destination that was computed or refused.
pub open spec fn destination_text(r: Result<String, EntryErrorKind>) -> Result<
    Seq<char>,
    EntryErrorKind,
> {
    match r {
        Ok(s) => Ok(s@),
        Err(e) => Err(e),
    }
}

impl Icon {
    /// The icon that a bare source in the manifest stands for: a pixmap.
    pub fn new_with_source(source: String) -> (r: Self)
        ensures
            r@ == (IconView {
                source: source@,
                destination: None,
                icon_type: None,
                theme: None,
                dimensions: None,
                pixmaps: true,
                built: false,
            }),
    {
        Icon {
            source,
            destination: None,
            icon_type: None,
            theme: None,
            dimensions: None,
            pixmaps: true,
            built: false,
        }
    }

    /// The icon's destination relative to the data root. Fails for an icon
    /// outside pixmaps that has no dimensions.
    pub fn get_destination(&self) -> (r: Result<String, EntryErrorKind>)
        ensures
            destination_text(r) == self@.relative_destination(),
    {
        let dest = if self.pixmaps {
            join("pixmaps", "")
        } else {
            match &self.dimensions {
                None => {
                    return Err(EntryErrorKind::NoIconDimensions);
                },
                Some(dimensions) => {
                    let theme = match &self.theme {
                        Some(t) => t.as_str(),
                        None => "hicolor",
                    };
                    let icon_type = match &self.icon_type {
                        Some(t) => t.as_str(),
                        None => "apps",
                    };
                    let themed = join("icons", theme);
                    let sized = join(themed.as_str(), dimensions.as_str());
                    let typed = join(sized.as_str(), icon_type);
                    join(typed.as_str(), "")
                },
            }
        };
        match &self.destination {
            Some(destination) => Ok(join(dest.as_str(), destination.as_str())),
            None => Ok(dest),
        }
    }
}

} // verus!
