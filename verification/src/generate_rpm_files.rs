//! The list of files and directories that an RPM package of the installed
//! files owns.

use vstd::prelude::*;
use vstd::string::*;

use crate::dirs::{Dirs, DirsView};
use crate::dirs_config::DirsConfig;
use crate::path::{join, joined, parent, parent_of, paths_equal, same_path};
use crate::text::views;

verus! {

/// The options of listing the files of an RPM package.
#[derive(Debug, PartialEq, Eq, Clone)]
pub struct GenerateRpmFiles {
    pub config: Option<String>,
    pub system: bool,
    pub packages: Vec<String>,
    pub dirs: DirsConfig,
    pub package_dir: String,
}

/// Whether the directory is among the owned ones.
pub open spec fn is_owned(owned: Seq<Seq<char>>, dir: Seq<char>) -> bool {
    exists|i: int| 0 <= i < owned.len() && same_path(#[trigger] owned[i], dir)
}

/// The directories above `path` that nobody owns yet, outermost first: the
/// parents of `path` up to the first owned one, at most `fuel` of them.
pub open spec fn unowned_ancestors(owned: Seq<Seq<char>>, path: Seq<char>, fuel: nat) -> Seq<
    Seq<char>,
>
    decreases fuel,
{
    if fuel == 0 {
        Seq::empty()
    } else {
        match parent_of(path) {
            None => Seq::empty(),
            Some(dir) => if is_owned(owned, dir) {
                Seq::empty()
            } else {
                unowned_ancestors(owned, dir, (fuel - 1) as nat).push(dir)
            },
        }
    }
}

/// One `%dir` line for each directory.
pub open spec fn dir_lines(dirs: Seq<Seq<char>>) -> Seq<char>
    decreases dirs.len(),
{
    if dirs.len() == 0 {
        Seq::empty()
    } else {
        dir_lines(dirs.drop_last()) + "%dir "@ + dirs.last() + "\n"@
    }
}

/// The owned directories and the text of the list once the files were
/// listed in order: each file on a line of its own, after a `%dir` line for
/// each directory above it that was not owned before, which is owned from
/// then on.
pub open spec fn listed(owned: Seq<Seq<char>>, files: Seq<Seq<char>>) -> (Seq<Seq<char>>, Seq<char>)
    decreases files.len(),
{
    if files.len() == 0 {
        (owned, Seq::empty())
    } else {
        let (before, text) = listed(owned, files.drop_last());
        let file = files.last();
        let added = unowned_ancestors(before, file, file.len());
        (before + added, text + dir_lines(added) + file + "\n"@)
    }
}

/// The directories of a system installation, which the packages that
/// provide the system's layout own: the installation directories, the
/// sections 1 to 7 of the manual, and the directories for licenses, desktop
/// files and shell completions. `None` where a directory of the system is
/// not set.
pub open spec fn system_owned(dirs: DirsView) -> Option<Seq<Seq<char>>> {
    if dirs.docdir.is_none() || dirs.includedir.is_none() || dirs.mandir.is_none()
        || dirs.pam_modulesdir.is_none() || dirs.sbindir.is_none() {
        None
    } else {
        let mandir = dirs.mandir.unwrap();
        let root = dirs.datarootdir;
        Some(
            seq![
                dirs.bindir,
                dirs.datadir,
                root,
                dirs.docdir.unwrap(),
                dirs.includedir.unwrap(),
                dirs.libdir,
                dirs.libexecdir,
                dirs.localstatedir,
                mandir,
                joined(mandir, "man1"@),
                joined(mandir, "man2"@),
                joined(mandir, "man3"@),
                joined(mandir, "man4"@),
                joined(mandir, "man5"@),
                joined(mandir, "man6"@),
                joined(mandir, "man7"@),
                dirs.pam_modulesdir.unwrap(),
                dirs.sbindir.unwrap(),
                dirs.sysconfdir,
                dirs.systemd_unitsdir,
                joined(root, "licenses"@),
                joined(root, "applications"@),
                joined(joined(root, "zsh"@), "site-functions"@),
                joined(joined(root, "bash-completion"@), "completions"@),
                joined(joined(root, "fish"@), "vendor_completions.d"@),
            ],
        )
    }
}

/// The views of the owned directories, where there are any.
pub open spec fn owned_view(owned: Option<Vec<String>>) -> Option<Seq<Seq<char>>> {
    match owned {
        Some(dirs) => Some(views(dirs@)),
        None => None,
    }
}

/// Tells whether the directory is among the owned ones.
pub fn owns(owned: &Vec<String>, dir: &str) -> (r: bool)
    ensures
        r == is_owned(views(owned@), dir@),
{
    let mut i: usize = 0;
    while i < owned.len()
        invariant
            i <= owned.len(),
            forall|k: int| 0 <= k < i ==> !same_path(#[trigger] views(owned@)[k], dir@),
        decreases owned.len() - i,
    {
        if paths_equal(owned[i].as_str(), dir) {
            assert(same_path(views(owned@)[i as int], dir@));
            return true;
        }
        i += 1;
    }
    false
}

/// Collects the directories above `path` that nobody owns yet, outermost
/// first, looking at no more than `fuel` of them.
pub fn collect_unowned(owned: &Vec<String>, path: &str, fuel: usize) -> (r: Vec<String>)
    ensures
        views(r@) == unowned_ancestors(views(owned@), path@, fuel as nat),
    decreases fuel,
{
    if fuel == 0 {
        let none: Vec<String> = Vec::new();
        assert(views(none@) =~= Seq::empty());
        return none;
    }
    match parent(path) {
        None => {
            let none: Vec<String> = Vec::new();
            assert(views(none@) =~= Seq::empty());
            none
        },
        Some(dir) => {
            if owns(owned, dir.as_str()) {
                let none: Vec<String> = Vec::new();
                assert(views(none@) =~= Seq::empty());
                none
            } else {
                let mut above = collect_unowned(owned, dir.as_str(), fuel - 1);
                let ghost had = views(above@);
                above.push(dir);
                assert(views(above@) =~= had.push(dir@));
                above
            }
        },
    }
}

impl GenerateRpmFiles {
    /// The directories that the system's own packages provide.
    pub fn owned_directories(dirs: &Dirs) -> (r: Option<Vec<String>>)
        ensures
            owned_view(r) == system_owned(dirs@),
    {
        match (&dirs.docdir, &dirs.includedir, &dirs.mandir, &dirs.pam_modulesdir, &dirs.sbindir) {
            (Some(docdir), Some(includedir), Some(mandir), Some(pam_modulesdir), Some(sbindir)) => {
                let root = dirs.datarootdir.as_str();
                let man = mandir.as_str();
                let mut owned: Vec<String> = Vec::new();
                owned.push(dirs.bindir.clone());
                owned.push(dirs.datadir.clone());
                owned.push(dirs.datarootdir.clone());
                owned.push(docdir.clone());
                owned.push(includedir.clone());
                owned.push(dirs.libdir.clone());
                owned.push(dirs.libexecdir.clone());
                owned.push(dirs.localstatedir.clone());
                owned.push(mandir.clone());
                owned.push(join(man, "man1"));
                owned.push(join(man, "man2"));
                owned.push(join(man, "man3"));
                owned.push(join(man, "man4"));
                owned.push(join(man, "man5"));
                owned.push(join(man, "man6"));
                owned.push(join(man, "man7"));
                owned.push(pam_modulesdir.clone());
                owned.push(sbindir.clone());
                owned.push(dirs.sysconfdir.clone());
                owned.push(dirs.systemd_unitsdir.clone());
                owned.push(join(root, "licenses"));
                owned.push(join(root, "applications"));
                owned.push(join(join(root, "zsh").as_str(), "site-functions"));
                owned.push(join(join(root, "bash-completion").as_str(), "completions"));
                owned.push(join(join(root, "fish").as_str(), "vendor_completions.d"));
                proof {
                    assert(views(owned@) =~= system_owned(dirs@).unwrap());
                }
                Some(owned)
            },
            _ => None,
        }
    }

    /// Lists the files for the `%files` section of an RPM package: each
    /// file on a line of its own, after a `%dir` line for each directory
    /// above it that nobody owned before. The directories listed are owned
    /// afterwards.
    pub fn list(owned: &mut Vec<String>, files: &Vec<String>) -> (r: String)
        ensures
            (views(final(owned)@), r@) == listed(views(old(owned)@), views(files@)),
    {
        let ghost start = views(owned@);
        let ghost all = views(files@);
        let mut text = String::new();
        let mut i: usize = 0;
        proof {
            assert(all.take(0) =~= Seq::empty());
        }
        while i < files.len()
            invariant
                i <= files.len(),
                all == views(files@),
                (views(owned@), text@) == listed(start, all.take(i as int)),
            decreases files.len() - i,
        {
            let file = &files[i];
            let ghost before = views(owned@);
            let ghost had = text@;
            proof {
                assert(all.take(i + 1).drop_last() =~= all.take(i as int));
                assert(all.take(i + 1).last() == file@);
            }
            let added = collect_unowned(owned, file.as_str(), file.as_str().unicode_len());
            let mut k: usize = 0;
            proof {
                assert(views(added@).take(0) =~= Seq::empty());
                assert(before + views(added@).take(0) =~= before);
                assert(had + Seq::<char>::empty() =~= had);
            }
            while k < added.len()
                invariant
                    k <= added.len(),
                    views(owned@) == before + views(added@).take(k as int),
                    text@ == had + dir_lines(views(added@).take(k as int)),
                decreases added.len() - k,
            {
                let ghost lines = dir_lines(views(added@).take(k as int));
                proof {
                    assert(views(added@).take(k + 1).drop_last() =~= views(added@).take(k as int));
                    assert(views(added@).take(k + 1).last() == added[k as int]@);
                }
                text.append("%dir ");
                text.append(added[k].as_str());
                text.append("\n");
                let ghost owned_before = views(owned@);
                owned.push(added[k].clone());
                proof {
                    assert(views(owned@) =~= owned_before.push(added[k as int]@));
                    assert(views(owned@) =~= before + views(added@).take(k + 1));
                    assert(text@ =~= had + (lines + "%dir "@ + added[k as int]@ + "\n"@));
                }
                k += 1;
            }
            proof {
                assert(views(added@).take(k as int) =~= views(added@));
            }
            text.append(file.as_str());
            text.append("\n");
            proof {
                assert(text@ =~= had + dir_lines(views(added@)) + file@ + "\n"@);
            }
            i += 1;
        }
        proof {
            assert(all.take(i as int) =~= all);
        }
        text
    }
}

} // verus!
