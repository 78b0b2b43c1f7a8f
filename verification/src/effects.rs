//! What the decisions of installing and uninstalling do to the files of a
//! system, and what they leave alone.

use vstd::prelude::*;

use crate::install_cmd::{record_step_of, step_of, RecordStep, StepView};
use crate::package_info::{content_hash, InstalledFileView};
use crate::uninstall::{removal_of, Removal, RemovalNotice};

verus! {

/// The files of a system: their contents by path.
pub type Files = Map<Seq<char>, Seq<u8>>;

/// The files after a step of an installation was carried out with the
/// given contents: only an installing step writes, at its destination.
pub open spec fn after_step(files: Files, step: StepView, contents: Seq<u8>) -> Files {
    match step {
        StepView::Install { destination, notice } => files.insert(destination, contents),
        _ => files,
    }
}

/// The files after the record of a package was dealt with.
pub open spec fn after_record(files: Files, step: RecordStep, path: Seq<char>, record: Seq<u8>)
    -> Files {
    if step == RecordStep::Install {
        files.insert(path, record)
    } else {
        files
    }
}

/// The files after a decision about an installed file was carried out.
pub open spec fn after_removal(files: Files, removal: Removal, path: Seq<char>) -> Files {
    if removal.mutates() {
        files.remove(path)
    } else {
        files
    }
}

/// A dry run of an installation leaves every file as it is: whatever
/// exists, whatever the entry and the options, no step writes a file and
/// no record is written.
pub proof fn lemma_dry_install_changes_no_file(
    files: Files,
    destdir: Option<Seq<char>>,
    destination: Seq<char>,
    contents: Seq<u8>,
    exists: bool,
    replace: bool,
    force: bool,
    update_config: bool,
    already_installed: bool,
    skip_pkg_info: bool,
    record_path: Seq<char>,
    record: Seq<u8>,
)
    ensures
        step_of(
            destdir,
            destination,
            exists,
            replace,
            force,
            update_config,
            false,
            false,
            already_installed,
        ) matches Some(step) && after_step(files, step, contents) == files,
        after_record(files, record_step_of(skip_pkg_info, false), record_path, record) == files,
{
}

/// A dry run of an uninstallation leaves every file as it is.
pub proof fn lemma_dry_uninstall_changes_no_file(
    files: Files,
    path: Seq<char>,
    force: bool,
    replace: bool,
    modified: bool,
)
    ensures
        after_removal(files, removal_of(false, force, replace, modified).0, path) == files,
{
}

/// A file that an installation wrote: where, with what contents, and under
/// which policy.
pub struct Written {
    pub path: Seq<char>,
    pub contents: Seq<u8>,
    pub replace: bool,
}

impl Written {
    /// The record that is kept of the file.
    pub open spec fn record(self) -> InstalledFileView {
        InstalledFileView {
            path: self.path,
            checksum: content_hash(self.contents),
            replace: self.replace,
        }
    }
}

/// The files after an installation wrote the given ones, in order.
pub open spec fn install_all(files: Files, written: Seq<Written>) -> Files
    decreases written.len(),
{
    if written.len() == 0 {
        files
    } else {
        install_all(
            after_step(
                files,
                StepView::Install { destination: written[0].path, notice: None },
                written[0].contents,
            ),
            written.skip(1),
        )
    }
}

/// The files after a real uninstallation went through the records of the
/// given files, in order, and whether it warned of a modification.
pub open spec fn uninstall_all(files: Files, written: Seq<Written>, force: bool) -> (Files, bool)
    decreases written.len(),
{
    if written.len() == 0 {
        (files, false)
    } else {
        let file = written[0].record();
        let decision = removal_of(true, force, file.replace, file.modified_by(files[file.path]));
        let (left, warned) = uninstall_all(
            after_removal(files, decision.0, file.path),
            written.skip(1),
            force,
        );
        (left, warned || decision.1.warns_of_modification())
    }
}

/// Whether the files are written where nothing was before, each at a place
/// of its own.
pub open spec fn fresh(files: Files, written: Seq<Written>) -> bool {
    &&& forall|i: int| 0 <= i < written.len() ==> !files.dom().contains(#[trigger] written[i].path)
    &&& forall|i: int, j: int|
        0 <= i < j < written.len() ==> (#[trigger] written[i]).path != (#[trigger] written[j]).path
}

/// Writing a file before others that go elsewhere is the same as writing
/// it after them.
pub proof fn lemma_install_after_insert(
    files: Files,
    written: Seq<Written>,
    path: Seq<char>,
    contents: Seq<u8>,
)
    requires
        forall|i: int| 0 <= i < written.len() ==> (#[trigger] written[i]).path != path,
    ensures
        install_all(files.insert(path, contents), written) == install_all(files, written).insert(
            path,
            contents,
        ),
    decreases written.len(),
{
    if written.len() > 0 {
        let first = written[0];
        let rest = written.skip(1);
        assert(files.insert(path, contents).insert(first.path, first.contents) =~= files.insert(
            first.path,
            first.contents,
        ).insert(path, contents));
        assert forall|i: int| 0 <= i < rest.len() implies (#[trigger] rest[i]).path != path by {
            assert(rest[i] == written[i + 1]);
        }
        lemma_install_after_insert(files.insert(first.path, first.contents), rest, path, contents);
    }
}

/// An installation writes no file but the given ones.
pub proof fn lemma_install_writes_nothing_else(files: Files, written: Seq<Written>, path: Seq<char>)
    requires
        !files.dom().contains(path),
        forall|i: int| 0 <= i < written.len() ==> (#[trigger] written[i]).path != path,
    ensures
        !install_all(files, written).dom().contains(path),
    decreases written.len(),
{
    if written.len() > 0 {
        let first = written[0];
        let rest = written.skip(1);
        assert forall|i: int| 0 <= i < rest.len() implies (#[trigger] rest[i]).path != path by {
            assert(rest[i] == written[i + 1]);
        }
        lemma_install_writes_nothing_else(files.insert(first.path, first.contents), rest, path);
    }
}

/// Installing files where none were and uninstalling them again, with their
/// contents untouched in between, leaves the files as they were before the
/// installation, and nothing warns of a modification.
pub proof fn lemma_round_trip(files: Files, written: Seq<Written>, force: bool)
    requires
        fresh(files, written),
    ensures
        uninstall_all(install_all(files, written), written, force) == (files, false),
    decreases written.len(),
{
    if written.len() > 0 {
        let first = written[0];
        let rest = written.skip(1);
        assert forall|i: int| 0 <= i < rest.len() implies (#[trigger] rest[i]).path
            != first.path && !files.dom().contains(rest[i].path) by {
            assert(rest[i] == written[i + 1]);
        }
        assert forall|i: int, j: int| 0 <= i < j < rest.len() implies (#[trigger] rest[i]).path
            != (#[trigger] rest[j]).path by {
            assert(rest[i] == written[i + 1]);
            assert(rest[j] == written[j + 1]);
        }
        lemma_install_after_insert(files, rest, first.path, first.contents);
        lemma_install_writes_nothing_else(files, rest, first.path);
        let full = install_all(files, written);
        assert(full == install_all(files, rest).insert(first.path, first.contents));
        assert(full[first.path] == first.contents);
        assert(full.remove(first.path) =~= install_all(files, rest));
        lemma_round_trip(files, rest, force);
    }
}

/// Writing the record of a package where none was and removing it again
/// leaves the files as they were.
pub proof fn lemma_record_round_trip(files: Files, path: Seq<char>, record: Seq<u8>)
    requires
        !files.dom().contains(path),
    ensures
        after_removal(after_record(files, RecordStep::Install, path, record), Removal::Remove, path)
            == files,
{
    assert(files.insert(path, record).remove(path) =~= files);
}

/// A file that was changed after it was installed, as far as its checksum
/// tells, stays where it must not be replaced and removal is not forced;
/// it is removed, with a warning, where it may be replaced or removal is
/// forced.
pub proof fn lemma_changed_file_is_kept_or_removed(
    files: Files,
    file: InstalledFileView,
    force: bool,
)
    requires
        files.dom().contains(file.path),
        file.modified_by(files[file.path]),
    ensures
        ({
            let decision = removal_of(true, force, file.replace, true);
            &&& !file.replace && !force ==> after_removal(files, decision.0, file.path) == files
            &&& file.replace || force ==> {
                &&& decision == (Removal::Remove, RemovalNotice::ModifiedRemoved)
                &&& !after_removal(files, decision.0, file.path).dom().contains(file.path)
            }
        }),
{
}

/// Installing over a file that exists and must not be replaced, without a
/// staging root and without updating configuration, leaves every file as it
/// is, in particular the one that exists.
pub proof fn lemma_existing_config_is_untouched(
    files: Files,
    destination: Seq<char>,
    contents: Seq<u8>,
    force: bool,
    accept_changes: bool,
    already_installed: bool,
)
    requires
        files.dom().contains(destination),
    ensures
        step_of(
            None,
            destination,
            true,
            false,
            force,
            false,
            accept_changes,
            accept_changes,
            already_installed,
        ) matches Some(step) && after_step(files, step, contents) == files,
{
}

/// An update installs configuration anew where it was not modified: the
/// uninstallation that comes first removes the file, which then no longer
/// stands in the way, so that it is written with the new contents.
pub proof fn lemma_update_renews_unmodified_config(
    files: Files,
    destination: Seq<char>,
    contents: Seq<u8>,
    force: bool,
)
    ensures
        ({
            let removal = removal_of(true, force, false, false);
            let removed = after_removal(files, removal.0, destination);
            let step = step_of(None, destination, false, false, force, false, true, true, true);
            &&& removal.0 == Removal::Remove
            &&& !removed.dom().contains(destination)
            &&& step == Some(StepView::Install { destination, notice: None })
            &&& after_step(removed, step.unwrap(), contents)[destination] == contents
        }),
{
}

} // verus!
