//! Preparing a selection: its files are copied to a stage one after the other, and the copies are
//! decoded there before anything is published.

use crate::files::{owned_unshared, Metadata};
use crate::media_import::{check_validated, first_staged_complaint, moved_to, staged_dependencies, MAX_REFERENCES};
use crate::media_staging::{
    check_parent, control_complaint, destination_complaint, entries_are_staged, is_recorded,
    staged_sources_stay, AddStep, Adding, Asset, CopyControl, MediaStaging,
};
use crate::media_validation::AssetDependency;
use crate::steps;
use crate::text;
use vstd::prelude::*;

verus! {

/// What preparing a selection does next.
#[derive(Clone, Copy, Debug, PartialEq, Eq, Structural)]
pub enum PrepareStep {
    CheckFirst,
    Collect,
    MakeStage,
    CheckAsset,
    Open,
    Copy,
    CheckCopied,
    Sync,
    CheckLast,
    Prepared,
    Failed,
}

/// The preparation of a selection under way.
pub struct Prepare {
    /// Where the copies will be published.
    pub destination: String,
    pub dependencies: Vec<AssetDependency>,
    /// How many files were copied.
    pub at: usize,
    /// The stage, unless a copy has it.
    pub staging: Option<MediaStaging>,
    pub step: PrepareStep,
    pub error: String,
    /// What is staged.
    pub staged: Ghost<Seq<Asset>>,
}

pub open spec fn prepare_stops(before: Prepare, after: Prepare, text: Seq<char>) -> bool {
    after == (Prepare { step: PrepareStep::Failed, error: after.error, ..before }) && after.error@
        == text
}

/// Whether the first `n` files have a copy.
pub open spec fn are_staged(assets: Seq<Asset>, dependencies: Seq<AssetDependency>, n: int) -> bool {
    forall|i: int| 0 <= i < n ==> is_recorded(assets, (#[trigger] dependencies[i]).path@)
}

/// The steps at which the control is asked.
pub open spec fn asks_control(step: PrepareStep) -> bool {
    step == PrepareStep::CheckFirst || step == PrepareStep::CheckAsset || step
        == PrepareStep::CheckCopied || step == PrepareStep::CheckLast
}

pub open spec fn after_control(step: PrepareStep) -> PrepareStep {
    match step {
        PrepareStep::CheckFirst => PrepareStep::Collect,
        PrepareStep::CheckAsset => PrepareStep::Open,
        PrepareStep::CheckCopied => PrepareStep::Sync,
        _ => PrepareStep::Prepared,
    }
}

/// What follows when `at` of so many files were copied.
pub open spec fn next_copy(at: int, count: int) -> PrepareStep {
    if at < count {
        PrepareStep::CheckAsset
    } else {
        PrepareStep::CheckCopied
    }
}

/// Why no stage can be made: its destination, or the directory that it is made in.
pub open spec fn stage_complaint(
    destination: Seq<char>,
    parent: Result<Metadata, String>,
    uid: u32,
) -> Option<Seq<char>> {
    match destination_complaint(destination) {
        Some(e) => Some(e),
        None => match parent {
            Err(e) => Some("Opening media staging parent: "@ + e@),
            Ok(m) => if owned_unshared(m, uid) {
                None
            } else {
                Some(
                    "Media staging parent must belong to the current account and must not be writable by other accounts"@,
                )
            },
        },
    }
}

impl Prepare {
    pub open spec fn wf(self) -> bool {
        self.step != PrepareStep::Failed ==> {
            &&& self.at <= self.dependencies@.len()
            &&& match self.step {
                PrepareStep::CheckFirst | PrepareStep::Collect | PrepareStep::MakeStage => self.at
                    == 0,
                PrepareStep::CheckAsset | PrepareStep::Open => self.at < self.dependencies@.len()
                    && self.staging is Some,
                PrepareStep::Copy => self.at < self.dependencies@.len() && self.staging is None,
                _ => self.at == self.dependencies@.len() && self.staging is Some,
            }
            &&& match self.staging {
                Some(staging) => staging.wf() && staging.assets@ == self.staged@,
                None => true,
            }
            &&& are_staged(self.staged@, self.dependencies@, self.at as int)
        }
    }

    /// Begins to prepare a selection for a directory.
    pub fn begin(destination: &str) -> (r: Prepare)
        ensures
            r.wf(),
            r.destination@ == destination@,
            r.dependencies@.len() == 0,
            r.at == 0,
            r.staging is None,
            r.staged@ == Seq::<Asset>::empty(),
            r.step == PrepareStep::CheckFirst,
    {
        Prepare {
            destination: destination.to_owned(),
            dependencies: Vec::new(),
            at: 0,
            staging: None,
            step: PrepareStep::CheckFirst,
            error: String::new(),
            staged: Ghost(Seq::empty()),
        }
    }

    /// A step could not be done.
    pub fn failed(&mut self, reason: &str)
        ensures
            final(self).wf(),
            prepare_stops(*old(self), *final(self), reason@),
    {
        self.step = PrepareStep::Failed;
        self.error = reason.to_owned();
    }

    /// The control of the copies, at a time in milliseconds after it was made.
    pub fn control(&mut self, control: &CopyControl, elapsed_ms: u64)
        requires
            old(self).wf(),
            asks_control(old(self).step),
        ensures
            final(self).wf(),
            match control_complaint(*control, elapsed_ms) {
                Some(e) => prepare_stops(*old(self), *final(self), e),
                None => *final(self) == (Prepare {
                    step: after_control(old(self).step),
                    ..*old(self)
                }),
            },
    {
        match control.check(elapsed_ms) {
            Err(e) => {
                self.failed(e.as_str());
            },
            Ok(_) => {
                self.step = match self.step {
                    PrepareStep::CheckFirst => PrepareStep::Collect,
                    PrepareStep::CheckAsset => PrepareStep::Open,
                    PrepareStep::CheckCopied => PrepareStep::Sync,
                    _ => PrepareStep::Prepared,
                };
            },
        }
    }

    /// The files that the selection refers to, each once.
    pub fn collected(&mut self, dependencies: Result<Vec<AssetDependency>, String>)
        requires
            old(self).wf(),
            old(self).step == PrepareStep::Collect,
        ensures
            final(self).wf(),
            match dependencies {
                Err(e) => prepare_stops(*old(self), *final(self), e@),
                Ok(all) => *final(self) == (Prepare {
                    step: PrepareStep::MakeStage,
                    dependencies: all,
                    ..*old(self)
                }),
            },
    {
        match dependencies {
            Err(e) => {
                self.failed(e.as_str());
            },
            Ok(all) => {
                self.dependencies = all;
                self.step = PrepareStep::MakeStage;
            },
        }
    }

    /// The directory that the stage is made in.
    pub fn stage(&mut self, parent: &Result<Metadata, String>, uid: u32)
        requires
            old(self).wf(),
            old(self).step == PrepareStep::MakeStage,
        ensures
            final(self).wf(),
            match stage_complaint(old(self).destination@, *parent, uid) {
                Some(e) => prepare_stops(*old(self), *final(self), e),
                None => {
                    &&& *final(self) == (Prepare {
                        step: next_copy(0, old(self).dependencies@.len() as int),
                        staging: final(self).staging,
                        staged: Ghost(Seq::empty()),
                        ..*old(self)
                    })
                    &&& final(self).staging is Some
                    &&& final(self).staging->0.destination@ == old(self).destination@
                    &&& final(self).staging->0.objects@.len() == 0
                },
            },
    {
        match MediaStaging::new(self.destination.as_str()) {
            Err(e) => {
                self.failed(e.as_str());
            },
            Ok(staging) => {
                match parent {
                    Err(e) => {
                        let mut text = "Opening media staging parent: ".to_owned();
                        text.append(e.as_str());
                        self.failed(text.as_str());
                    },
                    Ok(m) => match check_parent(m, uid) {
                        Err(e) => {
                            self.failed(e.as_str());
                        },
                        Ok(_) => {
                            proof {
                                assert(staging.assets@ =~= Seq::empty());
                            }
                            self.staging = Some(staging);
                            self.staged = Ghost(Seq::empty());
                            self.step = if self.dependencies.len() > 0 {
                                PrepareStep::CheckAsset
                            } else {
                                PrepareStep::CheckCopied
                            };
                        },
                    },
                }
            },
        }
    }

    /// The next file was opened, or could not be. Its copy has the stage until it is done.
    pub fn opened(&mut self, file: &Result<(), String>) -> (r: Option<Adding>)
        requires
            old(self).wf(),
            old(self).step == PrepareStep::Open,
        ensures
            final(self).wf(),
            ({
                let dependency = old(self).dependencies@[old(self).at as int];
                match *file {
                    Err(e) => {
                        &&& r is None
                        &&& prepare_stops(
                            *old(self),
                            *final(self),
                            "Opening "@ + dependency.owner@ + ": "@ + dependency.path@ + ": "@ + e@,
                        )
                    },
                    Ok(_) => {
                        &&& *final(self) == (Prepare {
                            step: PrepareStep::Copy,
                            staging: None,
                            ..*old(self)
                        })
                        &&& r is Some
                        &&& r->0.wf()
                        &&& r->0.step == AddStep::CheckFirst
                        &&& r->0.staging == old(self).staging->0
                        &&& r->0.source@ == dependency.path@
                        &&& r->0.before@ == old(self).staged@
                    },
                }
            }),
    {
        let at: usize = self.at;
        match file {
            Err(e) => {
                let mut text = "Opening ".to_owned();
                text.append(self.dependencies[at].owner.as_str());
                text.append(": ");
                text.append(self.dependencies[at].path.as_str());
                text.append(": ");
                text.append(e.as_str());
                self.failed(text.as_str());
                None
            },
            Ok(_) => match self.staging.take() {
                None => None,
                Some(staging) => {
                    self.step = PrepareStep::Copy;
                    Some(staging.add(self.dependencies[at].path.as_str()))
                },
            },
        }
    }

    /// The copy of the file is done, or failed.
    pub fn added(&mut self, adding: Adding)
        requires
            old(self).wf(),
            old(self).step == PrepareStep::Copy,
            adding.wf(),
            adding.step == AddStep::Added || adding.step == AddStep::Failed,
            adding.source@ == old(self).dependencies@[old(self).at as int].path@,
            adding.before@ == old(self).staged@,
        ensures
            final(self).wf(),
            if adding.step == AddStep::Failed {
                prepare_stops(*old(self), *final(self), adding.error@)
            } else {
                *final(self) == (Prepare {
                    step: next_copy(old(self).at + 1, old(self).dependencies@.len() as int),
                    at: (old(self).at + 1) as usize,
                    staging: Some(adding.staging),
                    staged: Ghost(adding.staging.assets@),
                    ..*old(self)
                })
            },
    {
        if let AddStep::Failed = adding.step {
            self.failed(adding.error.as_str());
            return;
        }
        proof {
            let before = self.staged@;
            let after = adding.staging.assets@;
            let all = self.dependencies@;
            assert(forall|j: int| 0 <= j < before.len() ==> #[trigger] after[j] == before[j]) by {
                if !adding.known {
                    assert forall|j: int| 0 <= j < before.len() implies #[trigger] after[j]
                        == before[j] by {
                        assert(after.drop_last()[j] == before[j]);
                    }
                }
            }
            assert forall|i: int| 0 <= i < self.at + 1 implies is_recorded(
                after,
                (#[trigger] all[i]).path@,
            ) by {
                if i < self.at {
                    staged_sources_stay(before, after, all[i].path@, 0);
                } else if adding.known {
                    staged_sources_stay(before, after, all[i].path@, 0);
                } else {
                    entries_are_staged(after, all[i].path@, 0, after.len() - 1);
                }
            }
        }
        let count: usize = self.dependencies.len();
        self.staged = Ghost(adding.staging.assets@);
        self.staging = Some(adding.staging);
        self.at = self.at + 1;
        self.step = if self.at < count {
            PrepareStep::CheckAsset
        } else {
            PrepareStep::CheckCopied
        };
    }

    /// The stage is on disk.
    pub fn synced(&mut self)
        requires
            old(self).wf(),
            old(self).step == PrepareStep::Sync,
        ensures
            final(self).wf(),
            *final(self) == (Prepare { step: PrepareStep::CheckLast, ..*old(self) }),
    {
        self.step = PrepareStep::CheckLast;
    }

    /// The stage with the copies.
    pub fn prepared(self) -> (r: Option<MediaStaging>)
        requires
            self.wf(),
            self.step == PrepareStep::Prepared,
        ensures
            r == self.staging,
            r is Some,
            r->0.wf(),
    {
        self.staging
    }
}

/// A prepared selection has a copy of every file that it refers to.
pub proof fn prepared_selections_are_complete(prepare: Prepare, i: int)
    requires
        prepare.wf(),
        prepare.step == PrepareStep::Prepared,
        0 <= i < prepare.dependencies@.len(),
    ensures
        prepare.staging is Some,
        is_recorded(prepare.staging->0.assets@, prepare.dependencies@[i].path@),
{
}

/// What validating a staged selection does next.
#[derive(Clone, Copy, Debug, PartialEq, Eq, Structural)]
pub enum DecodeStep {
    CheckFirst,
    Collect,
    FingerprintBefore,
    Decode,
    CheckDecoded,
    FingerprintAfter,
    Validated,
    Failed,
}

pub open spec fn decode_rank(step: DecodeStep) -> int {
    match step {
        DecodeStep::CheckFirst => 0,
        DecodeStep::Collect => 1,
        DecodeStep::FingerprintBefore => 2,
        DecodeStep::Decode => 3,
        DecodeStep::CheckDecoded => 4,
        DecodeStep::FingerprintAfter => 5,
        DecodeStep::Validated => 6,
        DecodeStep::Failed => 7,
    }
}

/// The validation of a staged selection under way.
pub struct Decode {
    /// The references as paths in the stage.
    pub dependencies: Vec<AssetDependency>,
    pub fingerprint: String,
    pub step: DecodeStep,
    pub error: String,
    /// The steps that succeeded, in order.
    pub log: Ghost<Seq<DecodeStep>>,
}

pub open spec fn decode_stops(before: Decode, after: Decode, text: Seq<char>) -> bool {
    after == (Decode { step: DecodeStep::Failed, error: after.error, ..before }) && after.error@
        == text
}

pub open spec fn decode_moves(before: Decode, after: Decode, next: DecodeStep) -> bool {
    after == (Decode { step: next, log: Ghost(before.log@.push(before.step)), ..before })
}

impl Decode {
    /// Every step before the present one succeeded.
    pub open spec fn wf(self) -> bool {
        self.step != DecodeStep::Failed ==> forall|s: DecodeStep|
            decode_rank(s) < decode_rank(self.step) ==> #[trigger] self.log@.contains(s)
    }

    pub fn begin() -> (r: Decode)
        ensures
            r.wf(),
            r.step == DecodeStep::CheckFirst,
            r.log@ == Seq::<DecodeStep>::empty(),
            r.dependencies@.len() == 0,
            r.fingerprint@.len() == 0,
    {
        Decode {
            dependencies: Vec::new(),
            fingerprint: String::new(),
            step: DecodeStep::CheckFirst,
            error: String::new(),
            log: Ghost(Seq::empty()),
        }
    }

    fn advance(&mut self, next: DecodeStep)
        requires
            old(self).wf(),
            old(self).step != DecodeStep::Failed,
            decode_rank(next) == decode_rank(old(self).step) + 1,
            next != DecodeStep::Failed,
        ensures
            final(self).wf(),
            decode_moves(*old(self), *final(self), next),
    {
        proof {
            steps::push_holds(self.log@, self.step);
        }
        self.log = Ghost(self.log@.push(self.step));
        self.step = next;
    }

    /// A step could not be done.
    pub fn failed(&mut self, reason: &str)
        ensures
            final(self).wf(),
            decode_stops(*old(self), *final(self), reason@),
    {
        self.step = DecodeStep::Failed;
        self.error = reason.to_owned();
    }

    /// The control of the import, at a time in milliseconds after it was made.
    pub fn control(&mut self, control: &CopyControl, elapsed_ms: u64)
        requires
            old(self).wf(),
            old(self).step == DecodeStep::CheckFirst || old(self).step == DecodeStep::CheckDecoded,
        ensures
            final(self).wf(),
            match control_complaint(*control, elapsed_ms) {
                Some(e) => decode_stops(*old(self), *final(self), e),
                None => decode_moves(
                    *old(self),
                    *final(self),
                    if old(self).step == DecodeStep::CheckFirst {
                        DecodeStep::Collect
                    } else {
                        DecodeStep::FingerprintAfter
                    },
                ),
            },
    {
        match control.check(elapsed_ms) {
            Err(e) => {
                self.failed(e.as_str());
            },
            Ok(_) => {
                if let DecodeStep::CheckFirst = self.step {
                    self.advance(DecodeStep::Collect);
                } else {
                    self.advance(DecodeStep::FingerprintAfter);
                }
            },
        }
    }

    /// The references of the selection, which must all be to copies in the stage.
    pub fn collected(&mut self, media: &MediaStaging, directory: &str, all: &Vec<AssetDependency>)
        requires
            old(self).wf(),
            old(self).step == DecodeStep::Collect,
        ensures
            final(self).wf(),
            if all@.len() > MAX_REFERENCES {
                decode_stops(
                    *old(self),
                    *final(self),
                    "Managed validation exceeds 4096 references"@,
                )
            } else {
                match first_staged_complaint(media.assets@, all@, 0) {
                    Some(e) => decode_stops(*old(self), *final(self), e),
                    None => {
                        &&& *final(self) == (Decode {
                            step: DecodeStep::FingerprintBefore,
                            dependencies: final(self).dependencies,
                            log: Ghost(old(self).log@.push(DecodeStep::Collect)),
                            ..*old(self)
                        })
                        &&& final(self).dependencies@.len() == all@.len()
                        &&& forall|i: int|
                            0 <= i < all@.len() ==> moved_to(
                                all@[i],
                                directory@,
                                #[trigger] final(self).dependencies@[i],
                            )
                    },
                }
            },
    {
        match staged_dependencies(media, directory, all) {
            Err(e) => {
                self.failed(e.as_str());
            },
            Ok(dependencies) => {
                self.advance(DecodeStep::FingerprintBefore);
                self.dependencies = dependencies;
            },
        }
    }

    /// The fingerprint of the stage before its files are decoded.
    pub fn before(&mut self, fingerprint: &str)
        requires
            old(self).wf(),
            old(self).step == DecodeStep::FingerprintBefore,
        ensures
            final(self).wf(),
            *final(self) == (Decode {
                step: DecodeStep::Decode,
                fingerprint: final(self).fingerprint,
                log: Ghost(old(self).log@.push(DecodeStep::FingerprintBefore)),
                ..*old(self)
            }),
            final(self).fingerprint@ == fingerprint@,
    {
        self.advance(DecodeStep::Decode);
        self.fingerprint = fingerprint.to_owned();
    }

    /// Every file could be decoded.
    pub fn decoded(&mut self)
        requires
            old(self).wf(),
            old(self).step == DecodeStep::Decode,
        ensures
            final(self).wf(),
            decode_moves(*old(self), *final(self), DecodeStep::CheckDecoded),
    {
        self.advance(DecodeStep::CheckDecoded);
    }

    /// The fingerprint of the stage after its files were decoded.
    pub fn after(&mut self, fingerprint: &str)
        requires
            old(self).wf(),
            old(self).step == DecodeStep::FingerprintAfter,
        ensures
            final(self).wf(),
            if old(self).fingerprint@ == fingerprint@ {
                decode_moves(*old(self), *final(self), DecodeStep::Validated)
            } else {
                decode_stops(*old(self), *final(self), "Staged media changed during validation"@)
            },
    {
        match check_validated(self.fingerprint.as_str(), fingerprint) {
            Err(e) => {
                self.failed(e.as_str());
            },
            Ok(_) => {
                self.advance(DecodeStep::Validated);
            },
        }
    }
}

/// A selection counts as validated only when its copies were decoded and stayed the same meanwhile.
pub proof fn validated_selections_were_decoded(decode: Decode)
    requires
        decode.wf(),
        decode.step == DecodeStep::Validated,
    ensures
        decode.log@.contains(DecodeStep::Collect),
        decode.log@.contains(DecodeStep::Decode),
        decode.log@.contains(DecodeStep::FingerprintAfter),
{
}

/// A stage can be made exactly for an absolute path of bounded length without a NUL, in a directory of
/// the account that no other may write.
pub proof fn stages_are_made_in_private_directories(
    destination: Seq<char>,
    parent: Result<Metadata, String>,
    uid: u32,
)
    ensures
        stage_complaint(destination, parent, uid) is None <==> destination_complaint(
            destination,
        ) is None && parent is Ok && parent->Ok_0.uid == uid && parent->Ok_0.mode & 0o022 == 0,
{
}

/// Copying ends exactly when every file was copied.
pub proof fn copying_ends_with_the_last_file(at: int, count: int)
    ensures
        next_copy(at, count) == PrepareStep::CheckAsset <==> at < count,
        next_copy(at, count) == PrepareStep::CheckCopied <==> at >= count,
{
}

} // verus!
