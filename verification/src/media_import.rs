//! Importing selected media: which files a selection refers to, how its copies are staged and
//! validated, and the order of their publication.

use crate::media_ownership;
use crate::media_ownership::{kept_complaint, receipt_complaint, valid_id, validate_id, Receipt};
use crate::media_publication::{within_store, Usage};
use crate::media_staging::{asset_from, control_complaint, Asset, CopyControl, MediaStaging};
use crate::media_validation::AssetDependency;
use crate::order::{less, precedes, precedes_is_total, precedes_is_transitive};
use crate::path;
use crate::steps;
use crate::text;
use crate::text::{copy_texts, outcome, texts};
use vstd::prelude::*;

verus! {

pub const MAX_REFERENCES: usize = 4096;

/// The most that the displays and templates of a published selection take, in bytes.
pub const MAX_PUBLISHED: usize = 16_777_088;

/// Counts the bytes of a selection while it is written out.
pub struct SelectionSize {
    pub used: usize,
    pub limit: usize,
}

impl SelectionSize {
    pub open spec fn wf(self) -> bool {
        self.used <= self.limit
    }

    pub fn write(&mut self, count: usize) -> (r: Result<usize, String>)
        requires
            old(self).wf(),
        ensures
            final(self).wf(),
            final(self).limit == old(self).limit,
            match r {
                Ok(n) => n == count && old(self).used + count <= old(self).limit
                    && final(self).used == old(self).used + count,
                Err(e) => old(self).used + count > old(self).limit && final(self).used
                    == old(self).used && e@ == "Managed media selection exceeds its size limit"@,
            },
    {
        if count > self.limit - self.used {
            return Err("Managed media selection exceeds its size limit".to_owned());
        }
        self.used = self.used + count;
        Ok(count)
    }
}

/// The order of lists of components.
pub open spec fn components_precede(a: Seq<Seq<char>>, b: Seq<Seq<char>>) -> bool
    decreases a.len(),
{
    if b.len() == 0 {
        false
    } else if a.len() == 0 {
        true
    } else if a[0] != b[0] {
        precedes(a[0], b[0])
    } else {
        components_precede(a.skip(1), b.skip(1))
    }
}

/// The order of absolute paths, component by component.
pub open spec fn path_precedes(a: Seq<char>, b: Seq<char>) -> bool {
    components_precede(path::components_of(a), path::components_of(b))
}

fn path_less(a: &str, b: &str) -> (r: bool)
    ensures
        r == path_precedes(a@, b@),
{
    let x = path::components(a);
    let y = path::components(b);
    let ghost xs = text::texts(x@);
    let ghost ys = text::texts(y@);
    let mut i: usize = 0;
    assert(xs.skip(0) =~= xs);
    assert(ys.skip(0) =~= ys);
    while i < x.len() && i < y.len()
        invariant
            xs == text::texts(x@),
            ys == text::texts(y@),
            i <= x@.len(),
            i <= y@.len(),
            path_precedes(a@, b@) == components_precede(xs.skip(i as int), ys.skip(i as int)),
        decreases x@.len() - i,
    {
        assert(xs.skip(i as int)[0] == x@[i as int]@);
        assert(ys.skip(i as int)[0] == y@[i as int]@);
        if !text::eq(x[i].as_str(), y[i].as_str()) {
            return less(x[i].as_str(), y[i].as_str());
        }
        assert(xs.skip(i as int).skip(1) =~= xs.skip(i + 1));
        assert(ys.skip(i as int).skip(1) =~= ys.skip(i + 1));
        i += 1;
    }
    i < y.len()
}

/// A list by path with one more reference in its place. A path that is there already stays as it is.
pub open spec fn placed(list: Seq<AssetDependency>, d: AssetDependency) -> Seq<AssetDependency>
    decreases list.len(),
{
    if list.len() == 0 {
        seq![d]
    } else if path::components_of(list.last().path@) == path::components_of(d.path@) {
        list
    } else if path_precedes(list.last().path@, d.path@) {
        list.push(d)
    } else {
        placed(list.drop_last(), d).push(list.last())
    }
}

/// The first `n` references by path, the first one of each path.
pub open spec fn by_path(all: Seq<AssetDependency>, n: int) -> Seq<AssetDependency>
    decreases n,
{
    if n <= 0 {
        Seq::empty()
    } else {
        placed(by_path(all, n - 1), all[n - 1])
    }
}

fn place(list: &mut Vec<AssetDependency>, d: &AssetDependency)
    requires
        path::is_absolute(d.path@),
        forall|i: int| 0 <= i < old(list)@.len() ==> path::is_absolute((#[trigger] old(list)@[i]).path@),
    ensures
        final(list)@ == placed(old(list)@, *d),
        forall|i: int|
            0 <= i < final(list)@.len() ==> path::is_absolute((#[trigger] final(list)@[i]).path@),
{
    let ghost whole = list@;
    let mut i: usize = list.len();
    assert(whole.take(i as int) =~= whole);
    assert(placed(whole, *d) =~= placed(whole.take(i as int), *d) + whole.skip(i as int));
    while i > 0
        invariant
            i <= list@.len(),
            whole == list@,
            list@ == old(list)@,
            path::is_absolute(d.path@),
            forall|j: int| 0 <= j < list@.len() ==> path::is_absolute((#[trigger] list@[j]).path@),
            placed(whole, *d) == placed(whole.take(i as int), *d) + whole.skip(i as int),
        decreases i,
    {
        assert(whole.take(i as int).last() == list@[i - 1]);
        assert(whole.take(i as int).drop_last() =~= whole.take(i - 1));
        if path::same(list[i - 1].path.as_str(), d.path.as_str()) {
            assert(list@ =~= placed(whole.take(i as int), *d) + whole.skip(i as int));
            return;
        }
        if path_less(list[i - 1].path.as_str(), d.path.as_str()) {
            let copy = d.copy();
            list.insert(i, copy);
            assert(list@ =~= placed(whole.take(i as int), *d) + whole.skip(i as int));
            return;
        }
        assert(placed(whole.take(i - 1), *d).push(whole[i - 1]) + whole.skip(i as int) =~= placed(
            whole.take(i - 1),
            *d,
        ) + whole.skip(i - 1));
        i -= 1;
    }
    let copy = d.copy();
    list.insert(0, copy);
    assert(whole.take(0) =~= Seq::empty());
    assert(list@ =~= placed(whole.take(0), *d) + whole.skip(0));
}

/// The references of the first `n` groups, one after another.
pub open spec fn gathered(groups: Seq<Vec<AssetDependency>>, n: int) -> Seq<AssetDependency>
    decreases n,
{
    if n <= 0 {
        Seq::empty()
    } else {
        gathered(groups, n - 1) + groups[n - 1]@
    }
}

/// Whether the references stay within the limit after each of the first `n` groups.
pub open spec fn within(groups: Seq<Vec<AssetDependency>>, n: int) -> bool {
    forall|i: int| 0 <= i <= n ==> (#[trigger] gathered(groups, i)).len() <= MAX_REFERENCES
}

pub open spec fn all_absolute(all: Seq<AssetDependency>) -> bool {
    forall|i: int| 0 <= i < all.len() ==> path::is_absolute((#[trigger] all[i]).path@)
}

/// The files that a selection refers to. `groups` holds the references of each display and
/// template, and `paths` what a check of all their paths found.
pub open spec fn dependencies_of(
    groups: Seq<Vec<AssetDependency>>,
    paths: Result<(), Seq<char>>,
) -> Result<Seq<AssetDependency>, Seq<char>> {
    let all = gathered(groups, groups.len() as int);
    if !within(groups, groups.len() as int) {
        Err("Managed media selection exceeds 4096 asset references"@)
    } else if paths is Err {
        Err(paths->Err_0)
    } else if all.len() == 0 {
        Err("This selection has no file assets to copy"@)
    } else if !all_absolute(all) {
        Err("Select absolute media paths before copying into managed storage"@)
    } else {
        Ok(by_path(all, all.len() as int))
    }
}

proof fn gathered_grows(groups: Seq<Vec<AssetDependency>>, i: int, j: int)
    requires
        0 <= i <= j,
    ensures
        gathered(groups, i).len() <= gathered(groups, j).len(),
    decreases j,
{
    if i < j {
        gathered_grows(groups, i, j - 1);
    }
}

/// Collects the references of a selection: each file once, in the order of paths.
pub fn selection_dependencies(
    groups: &Vec<Vec<AssetDependency>>,
    paths: Result<(), String>,
) -> (r: Result<Vec<AssetDependency>, String>)
    ensures
        match r {
            Ok(v) => dependencies_of(groups@, outcome(paths)) == Ok::<
                Seq<AssetDependency>,
                Seq<char>,
            >(v@),
            Err(e) => dependencies_of(groups@, outcome(paths)) == Err::<
                Seq<AssetDependency>,
                Seq<char>,
            >(e@),
        },
{
    let mut all: Vec<AssetDependency> = Vec::new();
    let mut i: usize = 0;
    while i < groups.len()
        invariant
            i <= groups@.len(),
            all@ == gathered(groups@, i as int),
            within(groups@, i as int),
            all@.len() <= MAX_REFERENCES,
        decreases groups@.len() - i,
    {
        let group = &groups[i];
        if group.len() > MAX_REFERENCES - all.len() {
            proof {
                assert(gathered(groups@, i + 1).len() > MAX_REFERENCES);
                assert(!within(groups@, groups@.len() as int));
            }
            return Err("Managed media selection exceeds 4096 asset references".to_owned());
        }
        let ghost before = all@;
        let mut k: usize = 0;
        while k < group.len()
            invariant
                k <= group@.len(),
                all@ == before + group@.take(k as int),
            decreases group@.len() - k,
        {
            all.push(group[k].copy());
            k += 1;
            assert(group@.take(k as int) =~= group@.take(k - 1).push(group@[k - 1]));
            assert(all@ =~= before + group@.take(k as int));
        }
        assert(group@.take(k as int) =~= group@);
        i += 1;
        assert forall|n: int| 0 <= n <= i implies (#[trigger] gathered(groups@, n)).len()
            <= MAX_REFERENCES by {
            gathered_grows(groups@, n, i as int);
        }
    }
    match paths {
        Err(e) => return Err(e),
        Ok(()) => {},
    }
    if all.len() == 0 {
        return Err("This selection has no file assets to copy".to_owned());
    }
    let mut k: usize = 0;
    while k < all.len()
        invariant
            k <= all@.len(),
            within(groups@, groups@.len() as int),
            paths is Ok,
            all@.len() > 0,
            all@ == gathered(groups@, groups@.len() as int),
            forall|j: int| 0 <= j < k ==> path::is_absolute((#[trigger] all@[j]).path@),
        decreases all@.len() - k,
    {
        if !path::absolute(all[k].path.as_str()) {
            assert(!all_absolute(all@));
            return Err(
                "Select absolute media paths before copying into managed storage".to_owned(),
            );
        }
        k += 1;
    }
    let mut list: Vec<AssetDependency> = Vec::new();
    k = 0;
    assert(list@ =~= by_path(all@, 0));
    while k < all.len()
        invariant
            k <= all@.len(),
            all_absolute(all@),
            list@ == by_path(all@, k as int),
            forall|j: int| 0 <= j < list@.len() ==> path::is_absolute((#[trigger] list@[j]).path@),
        decreases all@.len() - k,
    {
        place(&mut list, &all[k]);
        k += 1;
    }
    Ok(list)
}

/// The path that a reference gets: that of its staged copy, where it has one.
pub fn replaced_path(media: &MediaStaging, p: &str) -> (r: String)
    ensures
        ({
            let at = asset_from(media.assets@, p@, 0);
            r@ == if at < media.assets@.len() {
                media.assets@[at].destination@
            } else {
                p@
            }
        }),
{
    match media.path_of(p) {
        Some(d) => d,
        None => p.to_owned(),
    }
}

/// Whether a path is that of a staged copy.
pub open spec fn is_staged(assets: Seq<Asset>, p: Seq<char>) -> bool {
    exists|i: int| 0 <= i < assets.len() && path::same_path((#[trigger] assets[i]).destination@, p)
}

fn staged(media: &MediaStaging, p: &str) -> (r: bool)
    ensures
        r == is_staged(media.assets@, p@),
{
    let mut i: usize = 0;
    while i < media.assets.len()
        invariant
            i <= media.assets@.len(),
            forall|j: int|
                0 <= j < i ==> !path::same_path((#[trigger] media.assets@[j]).destination@, p@),
        decreases media.assets@.len() - i,
    {
        if path::same(media.assets[i].destination.as_str(), p) {
            return true;
        }
        i += 1;
    }
    false
}

/// What is wrong with a reference of a staged selection.
pub open spec fn staged_complaint(assets: Seq<Asset>, d: AssetDependency) -> Option<Seq<char>> {
    if !is_staged(assets, d.path@) {
        Some("Selection references media outside this staged import"@)
    } else if path::file_name_of(d.path@) is None {
        Some("Staged media filename is missing"@)
    } else {
        None
    }
}

pub open spec fn first_staged_complaint(
    assets: Seq<Asset>,
    all: Seq<AssetDependency>,
    i: int,
) -> Option<Seq<char>>
    decreases all.len() - i,
{
    if i >= all.len() {
        None
    } else if staged_complaint(assets, all[i]) is Some {
        staged_complaint(assets, all[i])
    } else {
        first_staged_complaint(assets, all, i + 1)
    }
}

/// A reference to a staged copy in the staging directory.
pub open spec fn moved_to(d: AssetDependency, directory: Seq<char>, m: AssetDependency) -> bool {
    m.path@ == path::join_of(directory, path::file_name_of(d.path@)->0) && m.owner@ == d.owner@
        && m.kind == d.kind
}

/// The references of a staged selection as paths in the staging directory, to be decoded there.
pub fn staged_dependencies(
    media: &MediaStaging,
    directory: &str,
    all: &Vec<AssetDependency>,
) -> (r: Result<Vec<AssetDependency>, String>)
    ensures
        match r {
            Ok(v) => all@.len() <= MAX_REFERENCES && first_staged_complaint(
                media.assets@,
                all@,
                0,
            ) is None && v@.len() == all@.len() && forall|i: int|
                0 <= i < all@.len() ==> moved_to(all@[i], directory@, #[trigger] v@[i]),
            Err(e) => if all@.len() > MAX_REFERENCES {
                e@ == "Managed validation exceeds 4096 references"@
            } else {
                first_staged_complaint(media.assets@, all@, 0) == Some(e@)
            },
        },
{
    if all.len() > MAX_REFERENCES {
        return Err("Managed validation exceeds 4096 references".to_owned());
    }
    let mut out: Vec<AssetDependency> = Vec::new();
    let mut i: usize = 0;
    while i < all.len()
        invariant
            i <= all@.len() <= MAX_REFERENCES,
            out@.len() == i,
            first_staged_complaint(media.assets@, all@, 0) == first_staged_complaint(
                media.assets@,
                all@,
                i as int,
            ),
            forall|j: int| 0 <= j < i ==> moved_to(all@[j], directory@, #[trigger] out@[j]),
        decreases all@.len() - i,
    {
        let d = &all[i];
        if !staged(media, d.path.as_str()) {
            return Err("Selection references media outside this staged import".to_owned());
        }
        match path::file_name(d.path.as_str()) {
            None => return Err("Staged media filename is missing".to_owned()),
            Some(name) => {
                out.push(
                    AssetDependency {
                        path: path::join(directory, name.as_str()),
                        owner: d.owner.clone(),
                        kind: d.kind,
                    },
                );
            },
        }
        i += 1;
    }
    Ok(out)
}

/// Whether staged media stayed the same while it was decoded.
pub fn check_validated(before: &str, after: &str) -> (r: Result<(), String>)
    ensures
        match r {
            Ok(_) => before@ == after@,
            Err(e) => before@ != after@ && e@ == "Staged media changed during validation"@,
        },
{
    if text::eq(before, after) {
        Ok(())
    } else {
        Err("Staged media changed during validation".to_owned())
    }
}

/// The directory that an import is published in, below a canonical configuration directory.
pub open spec fn import_directory(config_directory: Seq<char>, id: Seq<char>) -> Seq<char> {
    path::join_of(path::join_of(config_directory, "media/imports"@), id)
}

pub fn import_path(config_directory: &str, id: &str) -> (r: String)
    ensures
        r@ == import_directory(config_directory@, id@),
{
    path::join(path::join(config_directory, "media/imports").as_str(), id)
}

/// Whether a path stands directly in a directory.
pub open spec fn lies_in(p: Seq<char>, directory: Seq<char>) -> bool {
    match path::parent_of(p) {
        Some(d) => path::same_path(d, directory),
        None => false,
    }
}

pub fn stands_in(p: &str, directory: &str) -> (r: bool)
    ensures
        r == lies_in(p@, directory@),
{
    match path::parent(p) {
        Some(d) => path::same(d.as_str(), directory),
        None => false,
    }
}

/// Whether every staged copy is meant for a directory.
pub open spec fn all_lie_in(assets: Seq<Asset>, directory: Seq<char>) -> bool {
    forall|i: int| 0 <= i < assets.len() ==> lies_in((#[trigger] assets[i]).destination@, directory)
}

/// What publication must find of a staged selection: copies that are all meant for the directory of
/// that import.
pub open spec fn target_complaint(
    media: MediaStaging,
    config_directory: Seq<char>,
    id: Seq<char>,
) -> Option<Seq<char>> {
    if !all_lie_in(media.assets@, import_directory(config_directory, id)) {
        Some("Staged selection targets a different managed import destination"@)
    } else {
        None
    }
}

pub fn check_target(media: &MediaStaging, config_directory: &str, id: &str) -> (r: Result<(), String>)
    ensures
        match r {
            Ok(_) => target_complaint(*media, config_directory@, id@) is None,
            Err(e) => target_complaint(*media, config_directory@, id@) == Some(e@),
        },
{
    let directory = import_path(config_directory, id);
    let mut i: usize = 0;
    while i < media.assets.len()
        invariant
            directory@ == import_directory(config_directory@, id@),
            i <= media.assets@.len(),
            forall|j: int|
                0 <= j < i ==> lies_in((#[trigger] media.assets@[j]).destination@, directory@),
        decreases media.assets@.len() - i,
    {
        if !stands_in(media.assets[i].destination.as_str(), directory.as_str()) {
            assert(!all_lie_in(media.assets@, directory@));
            return Err(
                "Staged selection targets a different managed import destination".to_owned(),
            );
        }
        i += 1;
    }
    Ok(())
}

/// Where an import was published, as the daemon's own file system names it.
#[derive(Clone, Debug)]
pub struct PublishedDestination {
    pub config_path: String,
    pub state_directory: String,
}

/// An import that was published.
#[derive(Clone, Debug)]
pub struct PublishedSelection {
    pub import_id: String,
    /// The displays of the selection, each as it is written.
    pub lcds: Vec<String>,
    /// The templates of the selection, each as it is written.
    pub templates: Vec<String>,
    pub destination: Option<PublishedDestination>,
}

/// Whether a selection is a published one with its place: the configuration that was reviewed, and
/// the canonical directory of it.
pub open spec fn placed_at(
    published: PublishedSelection,
    config: Seq<char>,
    directory: String,
    r: PublishedSelection,
) -> bool {
    &&& r == (PublishedSelection { destination: r.destination, ..published })
    &&& r.destination is Some
    &&& r.destination->0.config_path@ == config
    &&& r.destination->0.state_directory == directory
}

/// A published selection with its place.
pub fn place_at(published: PublishedSelection, config: &str, directory: String) -> (r:
    PublishedSelection)
    ensures
        placed_at(published, config@, directory, r),
{
    PublishedSelection {
        destination: Some(
            PublishedDestination { config_path: config.to_owned(), state_directory: directory },
        ),
        ..published
    }
}

/// Whether two results say the same.
pub open spec fn same_published(a: PublishedSelection, b: PublishedSelection) -> bool {
    &&& a.import_id@ == b.import_id@
    &&& texts(a.lcds@) == texts(b.lcds@)
    &&& texts(a.templates@) == texts(b.templates@)
    &&& match (a.destination, b.destination) {
        (None, None) => true,
        (Some(x), Some(y)) => x.config_path@ == y.config_path@ && x.state_directory@
            == y.state_directory@,
        _ => false,
    }
}

impl PublishedSelection {
    /// A result that says the same.
    pub fn copy(&self) -> (r: PublishedSelection)
        ensures
            same_published(*self, r),
    {
        PublishedSelection {
            import_id: self.import_id.clone(),
            lcds: copy_texts(&self.lcds),
            templates: copy_texts(&self.templates),
            destination: match &self.destination {
                None => None,
                Some(place) => Some(
                    PublishedDestination {
                        config_path: place.config_path.clone(),
                        state_directory: place.state_directory.clone(),
                    },
                ),
            },
        }
    }
}

#[derive(Clone, Copy, Debug, PartialEq, Eq, Structural)]
pub enum PublishStep {
    CheckControl,
    Measure,
    CheckTarget,
    OpenDirectories,
    CheckCapacity,
    FingerprintStaged,
    OpenParent,
    RecheckControl,
    RecordOwnership,
    ConfirmControl,
    Move,
    FingerprintPublished,
    SyncParent,
    SyncImports,
    Published,
    Failed,
}

pub open spec fn rank(step: PublishStep) -> int {
    match step {
        PublishStep::CheckControl => 0,
        PublishStep::Measure => 1,
        PublishStep::CheckTarget => 2,
        PublishStep::OpenDirectories => 3,
        PublishStep::CheckCapacity => 4,
        PublishStep::FingerprintStaged => 5,
        PublishStep::OpenParent => 6,
        PublishStep::RecheckControl => 7,
        PublishStep::RecordOwnership => 8,
        PublishStep::ConfirmControl => 9,
        PublishStep::Move => 10,
        PublishStep::FingerprintPublished => 11,
        PublishStep::SyncParent => 12,
        PublishStep::SyncImports => 13,
        PublishStep::Published => 14,
        PublishStep::Failed => 15,
    }
}

/// A step that is done without telling anything.
pub open spec fn is_plain(step: PublishStep) -> bool {
    step == PublishStep::OpenDirectories || step == PublishStep::OpenParent || step
        == PublishStep::SyncParent || step == PublishStep::SyncImports
}

/// The steps at which the control of the copies is asked.
pub open spec fn asks_control(step: PublishStep) -> bool {
    step == PublishStep::CheckControl || step == PublishStep::RecheckControl || step
        == PublishStep::ConfirmControl
}

pub open spec fn following(step: PublishStep) -> PublishStep {
    match step {
        PublishStep::CheckControl => PublishStep::Measure,
        PublishStep::Measure => PublishStep::CheckTarget,
        PublishStep::CheckTarget => PublishStep::OpenDirectories,
        PublishStep::OpenDirectories => PublishStep::CheckCapacity,
        PublishStep::CheckCapacity => PublishStep::FingerprintStaged,
        PublishStep::FingerprintStaged => PublishStep::OpenParent,
        PublishStep::OpenParent => PublishStep::RecheckControl,
        PublishStep::RecheckControl => PublishStep::RecordOwnership,
        PublishStep::RecordOwnership => PublishStep::ConfirmControl,
        PublishStep::ConfirmControl => PublishStep::Move,
        PublishStep::Move => PublishStep::FingerprintPublished,
        PublishStep::FingerprintPublished => PublishStep::SyncParent,
        PublishStep::SyncParent => PublishStep::SyncImports,
        PublishStep::SyncImports => PublishStep::Published,
        PublishStep::Published => PublishStep::Published,
        PublishStep::Failed => PublishStep::Failed,
    }
}

/// The publication of a validated selection under way.
pub struct Publish {
    pub step: PublishStep,
    pub id: String,
    /// The fingerprint of the media that were validated.
    pub fingerprint: String,
    /// The displays and templates of the selection, each as it is written.
    pub lcds: Vec<String>,
    pub templates: Vec<String>,
    pub error: String,
    /// The steps that succeeded, in order.
    pub log: Ghost<Seq<PublishStep>>,
}

/// The words for a failure: once the files were moved, they must be looked at first.
pub open spec fn failure_words(step: PublishStep, reason: Seq<char>) -> Seq<char> {
    if rank(step) > rank(PublishStep::Move) {
        "Managed files were moved but completion could not be verified; retain the import and inspect storage before retrying: "@
            + reason
    } else {
        reason
    }
}

pub open spec fn publish_stops(before: Publish, after: Publish, reason: Seq<char>) -> bool {
    after == (Publish { step: PublishStep::Failed, error: after.error, ..before })
        && after.error@ == failure_words(before.step, reason)
}

pub open spec fn publish_moves(before: Publish, after: Publish) -> bool {
    after == (Publish {
        step: following(before.step),
        log: Ghost(before.log@.push(before.step)),
        ..before
    })
}

fn next_step(step: PublishStep) -> (r: PublishStep)
    ensures
        r == following(step),
{
    match step {
        PublishStep::CheckControl => PublishStep::Measure,
        PublishStep::Measure => PublishStep::CheckTarget,
        PublishStep::CheckTarget => PublishStep::OpenDirectories,
        PublishStep::OpenDirectories => PublishStep::CheckCapacity,
        PublishStep::CheckCapacity => PublishStep::FingerprintStaged,
        PublishStep::FingerprintStaged => PublishStep::OpenParent,
        PublishStep::OpenParent => PublishStep::RecheckControl,
        PublishStep::RecheckControl => PublishStep::RecordOwnership,
        PublishStep::RecordOwnership => PublishStep::ConfirmControl,
        PublishStep::ConfirmControl => PublishStep::Move,
        PublishStep::Move => PublishStep::FingerprintPublished,
        PublishStep::FingerprintPublished => PublishStep::SyncParent,
        PublishStep::SyncParent => PublishStep::SyncImports,
        PublishStep::SyncImports => PublishStep::Published,
        PublishStep::Published => PublishStep::Published,
        PublishStep::Failed => PublishStep::Failed,
    }
}

impl Publish {
    /// Every step before the present one succeeded, and from the look at the target on, the
    /// identifier is a valid one.
    pub open spec fn wf(self) -> bool {
        self.step != PublishStep::Failed ==> {
            &&& forall|s: PublishStep|
                rank(s) < rank(self.step) ==> #[trigger] self.log@.contains(s)
            &&& rank(self.step) > rank(PublishStep::Measure) ==> valid_id(self.id@)
        }
    }

    pub fn begin(id: &str, fingerprint: &str, lcds: Vec<String>, templates: Vec<String>) -> (r:
        Publish)
        ensures
            r.wf(),
            r.step == PublishStep::CheckControl,
            r.id@ == id@,
            r.fingerprint@ == fingerprint@,
            r.lcds == lcds,
            r.templates == templates,
            r.log@ == Seq::<PublishStep>::empty(),
    {
        Publish {
            step: PublishStep::CheckControl,
            id: id.to_owned(),
            fingerprint: fingerprint.to_owned(),
            lcds,
            templates,
            error: String::new(),
            log: Ghost(Seq::empty()),
        }
    }

    fn advance(&mut self)
        requires
            old(self).wf(),
            old(self).step != PublishStep::Failed,
            old(self).step != PublishStep::Published,
            old(self).step == PublishStep::Measure ==> valid_id(old(self).id@),
        ensures
            final(self).wf(),
            publish_moves(*old(self), *final(self)),
    {
        proof {
            steps::push_holds(self.log@, self.step);
        }
        self.log = Ghost(self.log@.push(self.step));
        self.step = next_step(self.step);
    }

    /// The present step failed.
    pub fn failed(&mut self, reason: &str)
        ensures
            final(self).wf(),
            publish_stops(*old(self), *final(self), reason@),
    {
        let moved = match self.step {
            PublishStep::FingerprintPublished => true,
            PublishStep::SyncParent => true,
            PublishStep::SyncImports => true,
            PublishStep::Published => true,
            PublishStep::Failed => true,
            _ => false,
        };
        self.error = if moved {
            let mut text =
                "Managed files were moved but completion could not be verified; retain the import and inspect storage before retrying: ".to_owned();
            text.append(reason);
            text
        } else {
            reason.to_owned()
        };
        self.step = PublishStep::Failed;
    }

    /// The present step succeeded.
    pub fn done(&mut self)
        requires
            old(self).wf(),
            is_plain(old(self).step),
        ensures
            final(self).wf(),
            publish_moves(*old(self), *final(self)),
    {
        self.advance();
    }

    /// The receipt of this import, by the directories of the imports and of the staged media.
    pub fn receipt(&self, imports_inode: u64, directory_inode: u64) -> (r: Result<Receipt, String>)
        ensures
            match r {
                Ok(x) => valid_id(self.id@) && text::hex_of_len(self.fingerprint@, 64) && x@ == (
                    1u32,
                    self.id@,
                    imports_inode,
                    directory_inode,
                    self.fingerprint@,
                ) && receipt_complaint(x, self.id@) is None,
                Err(e) => if !valid_id(self.id@) {
                    e@ == "Invalid managed import ID"@
                } else {
                    !text::hex_of_len(self.fingerprint@, 64) && e@
                        == "Invalid managed media fingerprint"@
                },
            },
    {
        media_ownership::receipt(
            self.id.as_str(),
            imports_inode,
            directory_inode,
            self.fingerprint.as_str(),
        )
    }

    /// The receipt was written, unless the same one stood there. `previous` is what stood there, and
    /// `kept` what came of making room, writing it or writing back its directory.
    pub fn recorded(
        &mut self,
        imports_inode: u64,
        directory_inode: u64,
        previous: &Result<Option<Receipt>, String>,
        kept: &Result<(), String>,
    )
        requires
            old(self).wf(),
            old(self).step == PublishStep::RecordOwnership,
        ensures
            final(self).wf(),
            match kept_complaint(
                old(self).id@,
                old(self).fingerprint@,
                imports_inode,
                directory_inode,
                *previous,
                *kept,
            ) {
                Some(e) => publish_stops(*old(self), *final(self), e),
                None => publish_moves(*old(self), *final(self)),
            },
    {
        let judged = media_ownership::keep(
            self.id.as_str(),
            self.fingerprint.as_str(),
            imports_inode,
            directory_inode,
            previous,
            kept,
        );
        match judged {
            Ok(_) => {
                self.advance();
            },
            Err(e) => {
                self.failed(e.as_str());
            },
        }
    }

    /// The control of the copies, at a time in milliseconds after it was made.
    pub fn control(&mut self, control: &CopyControl, elapsed_ms: u64)
        requires
            old(self).wf(),
            asks_control(old(self).step),
        ensures
            final(self).wf(),
            match control_complaint(*control, elapsed_ms) {
                Some(e) => publish_stops(*old(self), *final(self), e),
                None => publish_moves(*old(self), *final(self)),
            },
    {
        match control.check(elapsed_ms) {
            Ok(_) => {
                self.advance();
            },
            Err(e) => {
                self.failed(e.as_str());
            },
        }
    }

    /// The count of all managed media with those that are staged, or why it was given up.
    pub fn capacity(&mut self, usage: &Result<Usage, String>)
        requires
            old(self).wf(),
            old(self).step == PublishStep::CheckCapacity,
            within_store(*usage),
        ensures
            final(self).wf(),
            match *usage {
                Ok(_) => publish_moves(*old(self), *final(self)),
                Err(e) => publish_stops(*old(self), *final(self), e@),
            },
    {
        match usage {
            Ok(_) => {
                self.advance();
            },
            Err(e) => {
                self.failed(e.as_str());
            },
        }
    }

    /// How many bytes the displays and templates take. The identifier is judged before the directory
    /// of the configuration is looked up.
    pub fn measured(&mut self, size: usize)
        requires
            old(self).wf(),
            old(self).step == PublishStep::Measure,
        ensures
            final(self).wf(),
            if size > MAX_PUBLISHED {
                publish_stops(
                    *old(self),
                    *final(self),
                    "Managed media selection exceeds its size limit"@,
                )
            } else if !valid_id(old(self).id@) {
                publish_stops(*old(self), *final(self), "Invalid managed import ID"@)
            } else {
                publish_moves(*old(self), *final(self))
            },
    {
        let mut written = SelectionSize { used: 0, limit: MAX_PUBLISHED };
        match written.write(size) {
            Ok(_) => {},
            Err(e) => {
                self.failed(e.as_str());
                return;
            },
        }
        match validate_id(self.id.as_str()) {
            Ok(_) => {
                self.advance();
            },
            Err(e) => {
                self.failed(e.as_str());
            },
        }
    }

    /// The copies, which must all be meant for the directory of this import.
    pub fn target(&mut self, media: &MediaStaging, config_directory: &str)
        requires
            old(self).wf(),
            old(self).step == PublishStep::CheckTarget,
        ensures
            final(self).wf(),
            match target_complaint(*media, config_directory@, old(self).id@) {
                Some(e) => publish_stops(*old(self), *final(self), e),
                None => publish_moves(*old(self), *final(self)),
            },
    {
        match check_target(media, config_directory, self.id.as_str()) {
            Ok(_) => {
                self.advance();
            },
            Err(e) => {
                self.failed(e.as_str());
            },
        }
    }

    /// The fingerprint of the staged copies just before they are moved.
    pub fn staged(&mut self, fingerprint: &str)
        requires
            old(self).wf(),
            old(self).step == PublishStep::FingerprintStaged,
        ensures
            final(self).wf(),
            if fingerprint@ == old(self).fingerprint@ {
                publish_moves(*old(self), *final(self))
            } else {
                publish_stops(
                    *old(self),
                    *final(self),
                    "Staged media changed after decoder validation"@,
                )
            },
    {
        if text::eq(fingerprint, self.fingerprint.as_str()) {
            self.advance();
        } else {
            self.failed("Staged media changed after decoder validation");
        }
    }

    /// What came of moving the copies to their place, which must have been free.
    pub fn moved(&mut self, result: &Result<(), String>)
        requires
            old(self).wf(),
            old(self).step == PublishStep::Move,
        ensures
            final(self).wf(),
            match *result {
                Ok(_) => publish_moves(*old(self), *final(self)),
                Err(e) => publish_stops(
                    *old(self),
                    *final(self),
                    "Publishing managed selection: "@ + e@,
                ),
            },
    {
        match result {
            Ok(_) => {
                self.advance();
            },
            Err(e) => {
                let mut text = "Publishing managed selection: ".to_owned();
                text.append(e.as_str());
                self.failed(text.as_str());
            },
        }
    }

    /// The fingerprint of the copies at their place.
    pub fn published(&mut self, fingerprint: &str)
        requires
            old(self).wf(),
            old(self).step == PublishStep::FingerprintPublished,
        ensures
            final(self).wf(),
            if fingerprint@ == old(self).fingerprint@ {
                publish_moves(*old(self), *final(self))
            } else {
                publish_stops(
                    *old(self),
                    *final(self),
                    "Published media changed before completion"@,
                )
            },
    {
        if text::eq(fingerprint, self.fingerprint.as_str()) {
            self.advance();
        } else {
            self.failed("Published media changed before completion");
        }
    }

    /// The published import.
    pub fn result(self) -> (r: PublishedSelection)
        requires
            self.step == PublishStep::Published,
        ensures
            r == (PublishedSelection {
                import_id: self.id,
                lcds: self.lcds,
                templates: self.templates,
                destination: None,
            }),
    {
        PublishedSelection {
            import_id: self.id,
            lcds: self.lcds,
            templates: self.templates,
            destination: None,
        }
    }
}

/// Files are moved only after they were found as they were validated and their owner was recorded.
pub proof fn moves_follow_the_record(publish: Publish)
    requires
        publish.wf(),
        publish.step == PublishStep::Move,
    ensures
        publish.log@.contains(PublishStep::CheckTarget),
        publish.log@.contains(PublishStep::FingerprintStaged),
        publish.log@.contains(PublishStep::RecordOwnership),
        publish.log@.contains(PublishStep::ConfirmControl),
{
}

/// A published import was found at its place as it was validated, and the directories were synced.
pub proof fn published_imports_are_verified(publish: Publish)
    requires
        publish.wf(),
        publish.step == PublishStep::Published,
    ensures
        publish.log@.contains(PublishStep::Move),
        publish.log@.contains(PublishStep::FingerprintPublished),
        publish.log@.contains(PublishStep::SyncParent),
        publish.log@.contains(PublishStep::SyncImports),
{
}

/// Every two lists of components are equal or in one order.
pub proof fn components_are_ordered(a: Seq<Seq<char>>, b: Seq<Seq<char>>)
    ensures
        a == b || components_precede(a, b) || components_precede(b, a),
        !(components_precede(a, b) && components_precede(b, a)),
        !components_precede(a, a),
    decreases a.len(),
{
    if a.len() > 0 && b.len() > 0 && a[0] == b[0] {
        components_are_ordered(a.skip(1), b.skip(1));
        if a.skip(1) == b.skip(1) {
            assert(a =~= seq![a[0]] + a.skip(1));
            assert(b =~= seq![b[0]] + b.skip(1));
        }
    } else if a.len() > 0 && b.len() > 0 {
        precedes_is_total(a[0], b[0]);
    } else if a.len() == 0 && b.len() == 0 {
        assert(a =~= b);
    }
    if a.len() > 0 {
        components_are_ordered(a.skip(1), a.skip(1));
    }
}

proof fn components_follow_on(a: Seq<Seq<char>>, b: Seq<Seq<char>>, c: Seq<Seq<char>>)
    requires
        components_precede(a, b),
        components_precede(b, c),
    ensures
        components_precede(a, c),
    decreases a.len(),
{
    if a.len() > 0 && b.len() > 0 && c.len() > 0 {
        if a[0] == b[0] && b[0] == c[0] {
            components_follow_on(a.skip(1), b.skip(1), c.skip(1));
        } else if a[0] != b[0] && b[0] != c[0] {
            precedes_is_transitive(a[0], b[0], c[0]);
            precedes_is_total(a[0], b[0]);
        }
    }
}

/// The first component in which two paths differ decides their order, and a directory comes before
/// all that is below it.
pub proof fn the_first_component_that_differs_decides(a: Seq<char>, b: Seq<char>, i: int)
    requires
        0 <= i <= path::components_of(a).len(),
        i <= path::components_of(b).len(),
        path::components_of(a).take(i) == path::components_of(b).take(i),
    ensures
        ({
            let x = path::components_of(a);
            let y = path::components_of(b);
            &&& i < x.len() && i < y.len() && x[i] != y[i] ==> path_precedes(a, b) == precedes(
                x[i],
                y[i],
            )
            &&& i == x.len() && i < y.len() ==> path_precedes(a, b) && !path_precedes(b, a)
        }),
{
    differing_component(path::components_of(a), path::components_of(b), i);
}

proof fn differing_component(x: Seq<Seq<char>>, y: Seq<Seq<char>>, i: int)
    requires
        0 <= i <= x.len(),
        i <= y.len(),
        x.take(i) == y.take(i),
    ensures
        i < x.len() && i < y.len() && x[i] != y[i] ==> components_precede(x, y) == precedes(
            x[i],
            y[i],
        ),
        i == x.len() && i < y.len() ==> components_precede(x, y) && !components_precede(y, x),
    decreases i,
{
    if i > 0 {
        assert(x[0] == x.take(i)[0]);
        assert(y[0] == y.take(i)[0]);
        assert(x.skip(1).take(i - 1) =~= x.take(i).skip(1));
        assert(y.skip(1).take(i - 1) =~= y.take(i).skip(1));
        differing_component(x.skip(1), y.skip(1), i - 1);
    }
}

spec fn apart(list: Seq<AssetDependency>, d: AssetDependency) -> bool {
    forall|i: int|
        0 <= i < list.len() ==> path::components_of((#[trigger] list[i]).path@)
            != path::components_of(d.path@)
}

spec fn by_order(list: Seq<AssetDependency>) -> bool {
    forall|i: int, j: int|
        0 <= i < j < list.len() ==> path_precedes(
            (#[trigger] list[i]).path@,
            (#[trigger] list[j]).path@,
        )
}

proof fn placing_covers(list: Seq<AssetDependency>, d: AssetDependency)
    requires
        by_order(list),
    ensures
        by_order(placed(list, d)),
        forall|x: AssetDependency| #[trigger]
            placed(list, d).contains(x) ==> list.contains(x) || (x == d && apart(list, d)),
        forall|x: AssetDependency| #[trigger] list.contains(x) ==> placed(list, d).contains(x),
        !apart(placed(list, d), d),
    decreases list.len(),
{
    let r = placed(list, d);
    if list.len() == 0 {
        assert(r[0] == d);
        assert forall|x: AssetDependency| #[trigger] r.contains(x) implies x == d by {}
    } else {
        let last = list.last();
        let rest = list.drop_last();
        components_are_ordered(path::components_of(last.path@), path::components_of(d.path@));
        if path::components_of(last.path@) == path::components_of(d.path@) {
            assert(r[list.len() - 1] == last);
        } else if path_precedes(last.path@, d.path@) {
            assert forall|i: int| 0 <= i < list.len() implies path_precedes(
                (#[trigger] list[i]).path@,
                d.path@,
            ) by {
                if i < list.len() - 1 {
                    components_follow_on(
                        path::components_of(list[i].path@),
                        path::components_of(last.path@),
                        path::components_of(d.path@),
                    );
                }
            }
            assert(apart(list, d)) by {
                assert forall|i: int| 0 <= i < list.len() implies path::components_of(
                    (#[trigger] list[i]).path@,
                ) != path::components_of(d.path@) by {
                    components_are_ordered(
                        path::components_of(list[i].path@),
                        path::components_of(d.path@),
                    );
                }
            }
            assert(r[list.len() as int] == d);
            assert forall|x: AssetDependency| #[trigger] list.contains(x) implies r.contains(x) by {
                let i = list.index_of(x);
                assert(r[i] == x);
            }
            assert forall|x: AssetDependency| #[trigger] r.contains(x) implies list.contains(x) || x
                == d by {
                let i = r.index_of(x);
                if i < list.len() {
                    assert(list[i] == x);
                }
            }
        } else {
            placing_covers(rest, d);
            let inner = placed(rest, d);
            assert forall|i: int| 0 <= i < inner.len() implies path_precedes(
                (#[trigger] inner[i]).path@,
                last.path@,
            ) by {
                assert(inner.contains(inner[i]));
                if rest.contains(inner[i]) {
                    let k = rest.index_of(inner[i]);
                    assert(list[k] == inner[i]);
                    assert(list[list.len() - 1] == last);
                }
            }
            assert forall|x: AssetDependency| #[trigger] list.contains(x) implies r.contains(x) by {
                let i = list.index_of(x);
                if i == list.len() - 1 {
                    assert(r[inner.len() as int] == x);
                } else {
                    assert(rest[i] == x);
                    assert(rest.contains(x));
                    let k = inner.index_of(x);
                    assert(r[k] == x);
                }
            }
            assert forall|x: AssetDependency| #[trigger] r.contains(x) implies list.contains(x) || (x
                == d && apart(list, d)) by {
                let i = r.index_of(x);
                if i == inner.len() {
                    assert(list[list.len() - 1] == x);
                } else {
                    assert(inner[i] == x);
                    assert(inner.contains(x));
                    if rest.contains(x) {
                        assert(list[rest.index_of(x)] == x);
                    } else {
                        assert(apart(list, d)) by {
                            assert forall|k: int| 0 <= k < list.len() implies path::components_of(
                                (#[trigger] list[k]).path@,
                            ) != path::components_of(d.path@) by {
                                if k < list.len() - 1 {
                                    assert(rest[k] == list[k]);
                                }
                            }
                        }
                    }
                }
            }
            assert(!apart(r, d)) by {
                let i = choose|i: int|
                    0 <= i < inner.len() && path::components_of((#[trigger] inner[i]).path@)
                        == path::components_of(d.path@);
                assert(r[i] == inner[i]);
            }
        }
    }
}

spec fn first_of_its_path(all: Seq<AssetDependency>, n: int, x: AssetDependency) -> bool {
    exists|k: int| 0 <= k < n && x == #[trigger] all[k] && apart(all.take(k), all[k])
}

proof fn collecting_covers(all: Seq<AssetDependency>, n: int)
    requires
        0 <= n <= all.len(),
    ensures
        by_order(by_path(all, n)),
        forall|x: AssetDependency| #[trigger]
            by_path(all, n).contains(x) ==> first_of_its_path(all, n, x),
        forall|k: int| 0 <= k < n ==> !apart(by_path(all, n), #[trigger] all[k]),
    decreases n,
{
    if n > 0 {
        let before = by_path(all, n - 1);
        let d = all[n - 1];
        collecting_covers(all, n - 1);
        placing_covers(before, d);
        let r = by_path(all, n);
        assert forall|x: AssetDependency| #[trigger] r.contains(x) implies first_of_its_path(
            all,
            n,
            x,
        ) by {
            if before.contains(x) {
                assert(first_of_its_path(all, n - 1, x));
                let k = choose|k: int|
                    0 <= k < n - 1 && x == #[trigger] all[k] && apart(all.take(k), all[k]);
                assert(x == all[k]);
            } else {
                assert(apart(before, d));
                assert(apart(all.take(n - 1), d)) by {
                    assert forall|k: int| 0 <= k < all.take(n - 1).len() implies path::components_of(
                        (#[trigger] all.take(n - 1)[k]).path@,
                    ) != path::components_of(d.path@) by {
                        assert(!apart(before, all[k]));
                    }
                }
            }
        }
        assert forall|k: int| 0 <= k < n implies !apart(r, #[trigger] all[k]) by {
            if k < n - 1 {
                assert(!apart(before, all[k]));
                let i = choose|i: int|
                    0 <= i < before.len() && path::components_of((#[trigger] before[i]).path@)
                        == path::components_of(all[k].path@);
                assert(before.contains(before[i]));
                let m = r.index_of(before[i]);
                assert(r[m] == before[i]);
            }
        }
    }
}

/// The number of references of the first `n` groups.
pub open spec fn references(groups: Seq<Vec<AssetDependency>>, n: int) -> nat
    decreases n,
{
    if n <= 0 {
        0
    } else {
        references(groups, n - 1) + groups[n - 1]@.len()
    }
}

/// Whether one of the groups holds a reference.
pub open spec fn refers(groups: Seq<Vec<AssetDependency>>, d: AssetDependency) -> bool {
    exists|g: int, k: int|
        0 <= g < groups.len() && 0 <= k < groups[g]@.len() && #[trigger] groups[g]@[k] == d
}

/// Whether a list has an entry of a path, in whatever spelling.
pub open spec fn lists_path(list: Seq<AssetDependency>, p: Seq<char>) -> bool {
    exists|i: int| 0 <= i < list.len() && path::same_path((#[trigger] list[i]).path@, p)
}

proof fn gathering_covers(groups: Seq<Vec<AssetDependency>>, n: int)
    requires
        0 <= n <= groups.len(),
    ensures
        gathered(groups, n).len() == references(groups, n),
        forall|g: int, k: int|
            0 <= g < n && 0 <= k < groups[g]@.len() ==> gathered(groups, n).contains(
                #[trigger] groups[g]@[k],
            ),
        forall|i: int|
            0 <= i < gathered(groups, n).len() ==> refers(groups, #[trigger] gathered(groups, n)[i]),
    decreases n,
{
    if n > 0 {
        gathering_covers(groups, n - 1);
        let before = gathered(groups, n - 1);
        let all = gathered(groups, n);
        assert forall|g: int, k: int| 0 <= g < n && 0 <= k < groups[g]@.len() implies all.contains(
            #[trigger] groups[g]@[k],
        ) by {
            if g < n - 1 {
                assert(before.contains(groups[g]@[k]));
                assert(all[before.index_of(groups[g]@[k])] == groups[g]@[k]);
            } else {
                assert(all[before.len() + k] == groups[g]@[k]);
            }
        }
        assert forall|i: int| 0 <= i < all.len() implies refers(groups, #[trigger] all[i]) by {
            if i < before.len() {
                assert(before[i] == all[i]);
            } else {
                assert(groups[n - 1]@[i - before.len()] == all[i]);
            }
        }
    }
}

/// The files of a selection are found exactly where it names at least one and no more than 4096, all
/// by absolute paths, and the check of the paths went well.
pub proof fn selections_are_accepted_by_their_references(
    groups: Seq<Vec<AssetDependency>>,
    paths: Result<(), Seq<char>>,
)
    ensures
        dependencies_of(groups, paths) is Ok <==> {
            &&& paths is Ok
            &&& 0 < references(groups, groups.len() as int) <= 4096
            &&& forall|g: int, k: int|
                0 <= g < groups.len() && 0 <= k < groups[g]@.len() ==> path::is_absolute(
                    (#[trigger] groups[g]@[k]).path@,
                )
        },
{
    let n = groups.len() as int;
    let all = gathered(groups, n);
    gathering_covers(groups, n);
    assert(within(groups, n) <==> all.len() <= MAX_REFERENCES) by {
        assert forall|i: int| 0 <= i <= n implies (#[trigger] gathered(groups, i)).len()
            <= all.len() by {
            gathered_grows(groups, i, n);
        }
        if within(groups, n) {
            assert(gathered(groups, n).len() <= MAX_REFERENCES);
        }
    }
    assert(all_absolute(all) <==> forall|g: int, k: int|
        0 <= g < groups.len() && 0 <= k < groups[g]@.len() ==> path::is_absolute(
            (#[trigger] groups[g]@[k]).path@,
        )) by {
        if all_absolute(all) {
            assert forall|g: int, k: int| 0 <= g < groups.len() && 0 <= k
                < groups[g]@.len() implies path::is_absolute((#[trigger] groups[g]@[k]).path@) by {
                assert(all.contains(groups[g]@[k]));
                assert(path::is_absolute(all[all.index_of(groups[g]@[k])].path@));
            }
        } else {
            let i = choose|i: int|
                0 <= i < all.len() && !path::is_absolute((#[trigger] all[i]).path@);
            assert(refers(groups, all[i]));
        }
    }
}

/// The files of a selection are those that it names, each of them and each once: every reference has
/// an entry of the same path, every entry is one of the references, no two entries have the same
/// path, and they come in the order of their paths.
pub proof fn collected_files_cover_the_selection(
    groups: Seq<Vec<AssetDependency>>,
    paths: Result<(), Seq<char>>,
)
    requires
        dependencies_of(groups, paths) is Ok,
    ensures
        ({
            let list = dependencies_of(groups, paths)->Ok_0;
            &&& forall|d: AssetDependency| #[trigger] refers(groups, d) ==> lists_path(list, d.path@)
            &&& forall|i: int| 0 <= i < list.len() ==> refers(groups, #[trigger] list[i])
            &&& forall|i: int, j: int|
                0 <= i < j < list.len() ==> path_precedes(
                    (#[trigger] list[i]).path@,
                    (#[trigger] list[j]).path@,
                ) && !path::same_path(list[i].path@, list[j].path@)
        }),
{
    let n = groups.len() as int;
    let all = gathered(groups, n);
    let list = dependencies_of(groups, paths)->Ok_0;
    gathering_covers(groups, n);
    collecting_covers(all, all.len() as int);
    assert forall|i: int| 0 <= i < list.len() implies all.contains(#[trigger] list[i]) && refers(
        groups,
        list[i],
    ) by {
        assert(list.contains(list[i]));
        assert(first_of_its_path(all, all.len() as int, list[i]));
    }
    assert forall|d: AssetDependency| #[trigger] refers(groups, d) implies lists_path(
        list,
        d.path@,
    ) by {
        assert(all.contains(d));
        let m = all.index_of(d);
        assert(!apart(list, all[m]));
        let i = choose|i: int|
            0 <= i < list.len() && path::components_of((#[trigger] list[i]).path@)
                == path::components_of(d.path@);
        assert(all.contains(list[i]));
        assert(path::is_absolute(all[all.index_of(list[i])].path@));
        assert(path::is_absolute(all[m].path@));
        assert(path::same_path(list[i].path@, d.path@));
    }
    assert forall|i: int, j: int| 0 <= i < j < list.len() implies !path::same_path(
        (#[trigger] list[i]).path@,
        (#[trigger] list[j]).path@,
    ) by {
        components_are_ordered(
            path::components_of(list[i].path@),
            path::components_of(list[j].path@),
        );
        assert(path_precedes(list[i].path@, list[j].path@));
    }
}

/// Of several references to one file the first is kept: what comes before it in the selection has
/// another path.
pub proof fn first_references_are_kept(
    groups: Seq<Vec<AssetDependency>>,
    paths: Result<(), Seq<char>>,
    i: int,
)
    requires
        dependencies_of(groups, paths) is Ok,
        0 <= i < dependencies_of(groups, paths)->Ok_0.len(),
    ensures
        ({
            let all = gathered(groups, groups.len() as int);
            let kept = dependencies_of(groups, paths)->Ok_0[i];
            exists|k: int|
                0 <= k < all.len() && #[trigger] all[k] == kept && forall|j: int|
                    0 <= j < k ==> !path::same_path((#[trigger] all[j]).path@, kept.path@)
        }),
{
    let all = gathered(groups, groups.len() as int);
    let list = dependencies_of(groups, paths)->Ok_0;
    collecting_covers(all, all.len() as int);
    assert(list.contains(list[i]));
    assert(first_of_its_path(all, all.len() as int, list[i]));
    let k = choose|k: int|
        0 <= k < all.len() && list[i] == #[trigger] all[k] && apart(all.take(k), all[k]);
    assert(all[k] == list[i]);
    assert forall|j: int| 0 <= j < k implies !path::same_path(
        (#[trigger] all[j]).path@,
        list[i].path@,
    ) by {
        assert(all.take(k)[j] == all[j]);
    }
}

/// A reference is one of the staged selection exactly where a staged copy has its path, in whatever
/// spelling, and it names a file. All of them are exactly where none is refused.
pub proof fn staged_references_lead_to_copies(
    assets: Seq<Asset>,
    all: Seq<AssetDependency>,
    i: int,
)
    requires
        0 <= i <= all.len(),
    ensures
        first_staged_complaint(assets, all, i) is None <==> forall|k: int|
            i <= k < all.len() ==> path::file_name_of((#[trigger] all[k]).path@) is Some
                && is_staged(assets, all[k].path@),
    decreases all.len() - i,
{
    if i < all.len() {
        staged_references_lead_to_copies(assets, all, i + 1);
        if staged_complaint(assets, all[i]) is Some {
            assert(path::file_name_of(all[i].path@) is None || !is_staged(assets, all[i].path@));
        }
    }
}

/// A staged selection is published exactly where each of its copies is meant to lie directly in the
/// directory of that import.
pub proof fn selections_are_published_where_they_were_meant(
    media: MediaStaging,
    config_directory: Seq<char>,
    id: Seq<char>,
)
    ensures
        target_complaint(media, config_directory, id) is None <==> forall|i: int|
            0 <= i < media.assets@.len() ==> {
                let above = path::parent_of((#[trigger] media.assets@[i]).destination@);
                &&& above is Some
                &&& path::same_path(
                    above->0,
                    path::join_of(path::join_of(config_directory, "media/imports"@), id),
                )
            },
{
    let directory = import_directory(config_directory, id);
    if target_complaint(media, config_directory, id) is None {
        assert forall|i: int| 0 <= i < media.assets@.len() implies {
            let above = path::parent_of((#[trigger] media.assets@[i]).destination@);
            above is Some && path::same_path(above->0, directory)
        } by {
            assert(lies_in(media.assets@[i].destination@, directory));
        }
    } else {
        let i = choose|i: int|
            0 <= i < media.assets@.len() && !lies_in(
                (#[trigger] media.assets@[i]).destination@,
                directory,
            );
        let above = path::parent_of(media.assets@[i].destination@);
        assert(!(above is Some && path::same_path(above->0, directory)));
    }
}

/// A published selection keeps all that it held when its place is added: the configuration that was
/// reviewed and its directory.
pub proof fn places_are_added_and_nothing_else(
    published: PublishedSelection,
    config: Seq<char>,
    directory: String,
    r: PublishedSelection,
)
    requires
        placed_at(published, config, directory, r),
    ensures
        r.import_id == published.import_id,
        r.lcds == published.lcds,
        r.templates == published.templates,
        r.destination is Some,
        r.destination->0.config_path@ == config,
        r.destination->0.state_directory == directory,
{
}

/// A staged reference keeps its owner and kind, and leads to the same name in the staging directory.
pub proof fn staged_references_keep_their_name(
    d: AssetDependency,
    directory: Seq<char>,
    m: AssetDependency,
)
    requires
        moved_to(d, directory, m),
        path::file_name_of(d.path@) is Some,
    ensures
        m.owner@ == d.owner@,
        m.kind == d.kind,
        m.path@ == path::join_of(directory, path::file_name_of(d.path@)->0),
{
}

/// Two published selections are the same exactly where they have the same import, the same entries in
/// the same order and the same destination, if any.
pub proof fn published_selections_are_compared_whole(a: PublishedSelection, b: PublishedSelection)
    ensures
        same_published(a, a),
        same_published(a, b) == same_published(b, a),
        same_published(a, b) <==> {
            &&& a.import_id@ == b.import_id@
            &&& texts(a.lcds@) == texts(b.lcds@)
            &&& texts(a.templates@) == texts(b.templates@)
            &&& a.destination is Some <==> b.destination is Some
            &&& a.destination is Some ==> a.destination->0.config_path@
                == b.destination->0.config_path@ && a.destination->0.state_directory@
                == b.destination->0.state_directory@
        },
{
}

} // verus!
