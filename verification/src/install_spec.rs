//! The versions of the manifest format and the packages of a manifest.

use semver::{Comparator, Op, Prerelease, Version};
use vstd::prelude::*;
use vstd::string::*;

use crate::package::{Package, PackageView};
use crate::path::{join, joined};
use crate::text::{same_text, views};

verus! {

/// A version of the manifest format that this library understands.
#[derive(Debug, PartialEq, Eq, Clone, Copy, Structural)]
pub enum RinstallVersion {
    V0_1_0,
    V0_2_0,
}

/// Whether the version `major.minor.patch` given first is the one given
/// second or a later one.
pub open spec fn at_least(version: (u64, u64, u64), minimum: (u64, u64, u64)) -> bool {
    version.0 > minimum.0 || (version.0 == minimum.0 && (version.1 > minimum.1 || (version.1
        == minimum.1 && version.2 >= minimum.2)))
}

/// Asks `Comparator::matches` whether the version satisfies the comparator
/// `>=` of the minimum, both without pre-release: the comparator matches the
/// minimum itself, and every version that is greater by its major number,
/// else by its minor number, else by its patch number.
#[verifier::external_body]
pub(crate) fn matches_at_least(version: (u64, u64, u64), minimum: (u64, u64, u64)) -> (r: bool)
    ensures
        r == at_least(version, minimum),
{
    let comparator = Comparator {
        op: Op::GreaterEq,
        major: minimum.0,
        minor: Some(minimum.1),
        patch: Some(minimum.2),
        pre: Prerelease::EMPTY,
    };
    comparator.matches(&Version::new(version.0, version.1, version.2))
}

impl RinstallVersion {
    /// The three numbers of the version.
    pub open spec fn numbers(self) -> (u64, u64, u64) {
        match self {
            RinstallVersion::V0_1_0 => (0, 1, 0),
            RinstallVersion::V0_2_0 => (0, 2, 0),
        }
    }

    /// Whether the version is the given one or a later one.
    pub open spec fn meets(self, minimum: (u64, u64, u64)) -> bool {
        at_least(self.numbers(), minimum)
    }

    /// The version that a manifest declares with the given tag, if it is a
    /// supported one.
    pub open spec fn of_tag(tag: Seq<char>) -> Option<Self> {
        if tag == "0.1.0"@ {
            Some(RinstallVersion::V0_1_0)
        } else if tag == "0.2.0"@ {
            Some(RinstallVersion::V0_2_0)
        } else {
            None
        }
    }

    /// Reads the version tag of a manifest; `None` for an unsupported one.
    pub fn parse(tag: &str) -> (r: Option<Self>)
        ensures
            r == Self::of_tag(tag@),
    {
        if same_text(tag, "0.1.0") {
            Some(RinstallVersion::V0_1_0)
        } else if same_text(tag, "0.2.0") {
            Some(RinstallVersion::V0_2_0)
        } else {
            None
        }
    }

    /// The tag under which a manifest declares this version.
    pub fn tag(self) -> (r: &'static str)
        ensures
            Self::of_tag(r@) == Some(self),
    {
        proof {
            reveal_strlit("0.1.0");
            reveal_strlit("0.2.0");
            assert("0.1.0"@[2] != "0.2.0"@[2]);
        }
        match self {
            RinstallVersion::V0_1_0 => "0.1.0",
            RinstallVersion::V0_2_0 => "0.2.0",
        }
    }

    /// The major, minor and patch numbers of the version.
    pub fn version_numbers(self) -> (r: (u64, u64, u64))
        ensures
            r == self.numbers(),
    {
        match self {
            RinstallVersion::V0_1_0 => (0, 1, 0),
            RinstallVersion::V0_2_0 => (0, 2, 0),
        }
    }

    /// Tells whether the version is the given one or a later one.
    pub fn satisfies(self, minimum: (u64, u64, u64)) -> (r: bool)
        ensures
            r == self.meets(minimum),
    {
        matches_at_least(self.version_numbers(), minimum)
    }
}

/// A manifest: the version of its format and its packages by name, in the
/// order in which they are listed. No name occurs twice.
#[derive(Debug, PartialEq, Eq, Clone)]
pub struct InstallSpec {
    pub version: RinstallVersion,
    pub packages: Vec<(String, Package)>,
}

/// Why no manifest could be had.
#[derive(Debug, PartialEq, Eq, Clone, Copy, Structural)]
pub enum SpecError {
    /// Neither `install.yml` nor `.package/install.yml` exists.
    NotFound,
}

/// Whether a package of the given name is selected: every package is where
/// nothing is selected.
pub open spec fn is_selected(selected: Seq<String>, name: Seq<char>) -> bool {
    selected.len() == 0 || exists|i: int| 0 <= i < selected.len() && #[trigger] selected[i]@ == name
}

/// The package as it is handed out: under the name it is listed by.
pub open spec fn named(name: Seq<char>, package: PackageView) -> PackageView {
    PackageView { name: Some(name), ..package }
}

/// The selected packages among the listed ones, in their order, each under
/// the name it is listed by.
pub open spec fn selected_packages(listed: Seq<(String, Package)>, selected: Seq<String>) -> Seq<
    PackageView,
>
    decreases listed.len(),
{
    if listed.len() == 0 {
        Seq::empty()
    } else {
        let rest = selected_packages(listed.skip(1), selected);
        if is_selected(selected, listed[0].0@) {
            seq![named(listed[0].0@, listed[0].1@)] + rest
        } else {
            rest
        }
    }
}

/// Tells whether a package of the given name is selected.
pub fn selects(selected: &[String], name: &str) -> (r: bool)
    ensures
        r == is_selected(selected@, name@),
{
    if selected.len() == 0 {
        return true;
    }
    let mut i: usize = 0;
    while i < selected.len()
        invariant
            i <= selected.len(),
            forall|k: int| 0 <= k < i ==> selected[k]@ != name@,
        decreases selected.len() - i,
    {
        if same_text(selected[i].as_str(), name) {
            return true;
        }
        i += 1;
    }
    false
}

/// Whether no name is listed twice.
pub open spec fn distinct_names(listed: Seq<(String, Package)>) -> bool {
    forall|i: int, j: int| 0 <= i < j < listed.len() ==> listed[i].0@ != listed[j].0@
}

/// Tells whether a name is among the first `upto` listed ones.
fn listed_before(listed: &Vec<(String, Package)>, upto: usize, name: &str) -> (r: bool)
    requires
        upto <= listed.len(),
    ensures
        r == exists|i: int| 0 <= i < upto && #[trigger] listed@[i].0@ == name@,
{
    let mut i: usize = 0;
    while i < upto
        invariant
            i <= upto <= listed.len(),
            forall|k: int| 0 <= k < i ==> listed@[k].0@ != name@,
        decreases upto - i,
    {
        if same_text(listed[i].0.as_str(), name) {
            return true;
        }
        i += 1;
    }
    false
}

impl InstallSpec {
    /// Whether no name is listed twice.
    pub open spec fn wf(self) -> bool {
        distinct_names(self.packages@)
    }

    /// The manifest of the given version with the given packages; `None`
    /// where a name is listed twice.
    pub fn new(version: RinstallVersion, packages: Vec<(String, Package)>) -> (r: Option<Self>)
        ensures
            r.is_some() <==> distinct_names(packages@),
            r matches Some(spec) ==> spec.wf() && spec.version == version && spec.packages
                == packages,
    {
        let mut j: usize = 0;
        while j < packages.len()
            invariant
                j <= packages.len(),
                forall|a: int, b: int| 0 <= a < b < j ==> packages@[a].0@ != packages@[b].0@,
            decreases packages.len() - j,
        {
            if listed_before(&packages, j, packages[j].0.as_str()) {
                return None;
            }
            j += 1;
        }
        Some(InstallSpec { version, packages })
    }

    /// The manifest of the project in `package_dir`: `install.yml` there if
    /// it exists, else `.package/install.yml` if that exists.
    pub fn locate(package_dir: &str, in_root: bool, in_dot_package: bool) -> (r: Result<
        String,
        SpecError,
    >)
        ensures
            r.is_ok() <==> (in_root || in_dot_package),
            r.is_ok() && in_root ==> r.unwrap()@ == joined(package_dir@, "install.yml"@),
            r.is_ok() && !in_root ==> r.unwrap()@ == joined(
                joined(package_dir@, ".package"@),
                "install.yml"@,
            ),
    {
        if in_root {
            Ok(join(package_dir, "install.yml"))
        } else if in_dot_package {
            let nested = join(package_dir, ".package");
            Ok(join(nested.as_str(), "install.yml"))
        } else {
            Err(SpecError::NotFound)
        }
    }

    /// The packages that the user selected, or all of them where nothing is
    /// selected, each under the name it is listed by.
    pub fn packages(self, selected: &[String]) -> (r: Vec<Package>)
        ensures
            views(r@) == selected_packages(self.packages@, selected@),
    {
        let ghost listed = self.packages@;
        let mut rest = self.packages;
        let mut chosen: Vec<Package> = Vec::new();
        proof {
            assert(views(chosen@) =~= Seq::empty());
        }
        while rest.len() > 0
            invariant
                views(chosen@) + selected_packages(rest@, selected@)
                    == selected_packages(listed, selected@),
            decreases rest.len(),
        {
            let ghost before = rest@;
            let ghost had = views(chosen@);
            let (name, package) = rest.remove(0);
            proof {
                assert(rest@ =~= before.skip(1));
            }
            if selects(selected, name.as_str()) {
                let mut package = package;
                package.name = Some(name);
                chosen.push(package);
                proof {
                    assert(views(chosen@) =~= had.push(
                        named(before[0].0@, before[0].1@),
                    ));
                    assert(had.push(named(before[0].0@, before[0].1@)) + selected_packages(
                        rest@,
                        selected@,
                    ) =~= had + (seq![named(before[0].0@, before[0].1@)] + selected_packages(
                        rest@,
                        selected@,
                    )));
                }
            }
        }
        proof {
            assert(views(chosen@) + Seq::empty() =~= views(
                chosen@,
            ));
        }
        chosen
    }
}

} // verus!
