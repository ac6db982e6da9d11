//! Copying selected media into the state of a daemon that runs in the same box.

use crate::authorized_service::{mode, mode_of};
use crate::container_destination::{complaint, file_of, identify};
use crate::files::Metadata;
use crate::media_import::{place_at, placed_at, Publish, PublishStep, PublishedSelection};
use crate::media_ownership::{valid_id, validate_id};
use crate::media_preparation::{Decode, DecodeStep};
use crate::media_publication::{directory_complaint, open_directory};
use crate::path;
use crate::services::{
    copy_optional_identity, optional_identity, DaemonInfo, FileIdentity, ServiceScope,
};
use crate::steps::push_holds;
use crate::text;
use crate::text::texts;
use vstd::prelude::*;

verus! {

/// The longest path of a configuration, in bytes.
pub const MAX_CONFIG: usize = 4096;

/// The longest identifier of a daemon instance, in bytes.
pub const MAX_INSTANCE: usize = 256;

/// The process at the other end of a socket.
#[derive(Clone, Copy, Debug, PartialEq, Eq, Structural)]
pub struct Peer {
    pub pid: i32,
    pub uid: u32,
    pub gid: u32,
}

/// What speaks against importing through a daemon. `guard` says whether it accepts guarded writes of
/// this version, `gate` names the capability of coordinated writes.
pub open spec fn daemon_complaint(
    info: DaemonInfo,
    peer: Peer,
    config: Seq<char>,
    instance: Seq<char>,
    uid: u32,
    same_namespace: bool,
    scope: ServiceScope,
    guard: Result<(), String>,
    gate: Seq<char>,
) -> Option<Seq<char>> {
    if !(uid != 0 && peer.uid == uid && peer.pid > 0 && info.pid as int == peer.pid as int) {
        Some("Distrobox import requires the connected daemon under the same desktop account"@)
    } else if !same_namespace {
        Some(
            "The import worker and daemon have different filesystem namespaces. Start both inside the same box"@,
        )
    } else if !(info.mode == mode_of(scope) && path::same_path(info.config_path@, config)
        && info.instance_id@ == instance) {
        Some("The selected Distrobox daemon changed. Reconnect and review the import again"@)
    } else if guard is Err {
        complaint(guard)
    } else if !texts(info.capabilities@).contains(gate) {
        Some("Update the daemon before copying managed media"@)
    } else {
        None
    }
}

pub fn validate_peer(
    info: &DaemonInfo,
    peer: &Peer,
    config: &str,
    instance: &str,
    uid: u32,
    same_namespace: bool,
    scope: ServiceScope,
    guard: &Result<(), String>,
    gate: &str,
) -> (r: Result<(), String>)
    ensures
        complaint(r) == daemon_complaint(
            *info,
            *peer,
            config@,
            instance@,
            uid,
            same_namespace,
            scope,
            *guard,
            gate@,
        ),
{
    if !(uid != 0 && peer.uid == uid && peer.pid > 0 && info.pid == peer.pid as u32) {
        return Err(
            "Distrobox import requires the connected daemon under the same desktop account".to_owned(),
        );
    }
    if !same_namespace {
        return Err(
            "The import worker and daemon have different filesystem namespaces. Start both inside the same box".to_owned(),
        );
    }
    if !(info.mode == mode(scope) && path::same(info.config_path.as_str(), config) && text::eq(
        info.instance_id.as_str(),
        instance,
    )) {
        return Err(
            "The selected Distrobox daemon changed. Reconnect and review the import again".to_owned(),
        );
    }
    match guard {
        Ok(_) => {},
        Err(e) => {
            return Err(e.clone());
        },
    }
    if !text::is_among(gate, &info.capabilities) {
        return Err("Update the daemon before copying managed media".to_owned());
    }
    Ok(())
}

pub open spec fn request_complaint(
    boxed: bool,
    config: Seq<char>,
    instance: Seq<char>,
    id: Seq<char>,
) -> Option<Seq<char>> {
    if !boxed {
        Some("Run this import inside its Distrobox"@)
    } else if !(path::is_absolute(config) && text::byte_len(config) <= MAX_CONFIG && instance.len()
        > 0 && text::byte_len(instance) <= MAX_INSTANCE) {
        Some("Invalid managed import destination"@)
    } else if !valid_id(id) {
        Some("Invalid managed import ID"@)
    } else {
        None
    }
}

#[derive(Clone, Copy, Debug, PartialEq, Eq, Structural)]
pub enum ImportStep {
    /// Connect to the daemon and validate it.
    Connect,
    /// Take the write lock once, compare it and let it go.
    TryLock,
    OpenDirectory,
    CheckTransaction,
    /// Import and decode the selected media beside the destination.
    Prepare,
    Lock,
    Reconnect,
    ReopenDirectory,
    RecheckTransaction,
    Publish,
    Done,
    Failed,
}

pub open spec fn rank(step: ImportStep) -> int {
    match step {
        ImportStep::Connect => 0,
        ImportStep::TryLock => 1,
        ImportStep::OpenDirectory => 2,
        ImportStep::CheckTransaction => 3,
        ImportStep::Prepare => 4,
        ImportStep::Lock => 5,
        ImportStep::Reconnect => 6,
        ImportStep::ReopenDirectory => 7,
        ImportStep::RecheckTransaction => 8,
        ImportStep::Publish => 9,
        ImportStep::Done => 10,
        ImportStep::Failed => 11,
    }
}

/// An import under way.
pub struct Import {
    /// The daemon that was reviewed, the account of both, and the identifier of the import.
    pub scope: ServiceScope,
    pub config: String,
    pub instance: String,
    pub id: String,
    pub uid: u32,
    /// The fingerprint of the media that were validated.
    pub fingerprint: String,
    /// What was published, in the end.
    pub result: Option<PublishedSelection>,
    pub step: ImportStep,
    /// The write lock that the daemon named first.
    pub daemon_lock: Option<FileIdentity>,
    /// The write lock that is held.
    pub lock: Option<FileIdentity>,
    pub directory: Option<FileIdentity>,
    pub error: String,
    pub log: Ghost<Seq<ImportStep>>,
}

pub open spec fn import_stops(before: Import, after: Import, text: Seq<char>) -> bool {
    after == (Import { step: ImportStep::Failed, error: after.error, ..before })
        && after.error@ == text
}

pub open spec fn import_moves(before: Import, after: Import, next: ImportStep) -> bool {
    after == (Import { step: next, log: Ghost(before.log@.push(before.step)), ..before })
}

/// What speaks against a daemon that was connected to: it must be visible from here, its file system
/// must be known and the same, and it must be the one that was reviewed.
pub open spec fn connect_complaint(
    import: Import,
    info: DaemonInfo,
    peer: Peer,
    same_namespace: Result<bool, String>,
    guard: Result<(), String>,
    gate: Seq<char>,
) -> Option<Seq<char>> {
    if peer.pid <= 0 {
        Some("Daemon is not visible in this process namespace"@)
    } else {
        match same_namespace {
            Err(e) => Some(e@),
            Ok(same) => daemon_complaint(
                info,
                peer,
                import.config@,
                import.instance@,
                import.uid,
                same,
                import.scope,
                guard,
                gate,
            ),
        }
    }
}

/// Whether a daemon names exactly this lock.
pub open spec fn names_lock(named: Option<FileIdentity>, lock: FileIdentity) -> bool {
    optional_identity(named) == Some(lock@)
}

fn named(daemon: &Option<FileIdentity>, lock: &FileIdentity) -> (r: bool)
    ensures
        r == names_lock(*daemon, *lock),
{
    match daemon {
        Some(i) => i.same(lock),
        None => false,
    }
}

impl Import {
    /// Each step follows all those before it. Media is published only under the lock that the daemon
    /// named both times.
    pub open spec fn wf(self) -> bool {
        &&& self.step != ImportStep::Failed ==> forall|s: ImportStep|
            rank(s) < rank(self.step) ==> #[trigger] self.log@.contains(s)
        &&& rank(ImportStep::Reconnect) <= rank(self.step) <= rank(ImportStep::Done)
            ==> self.lock is Some
        &&& rank(ImportStep::ReopenDirectory) <= rank(self.step) <= rank(ImportStep::Done)
            ==> names_lock(self.daemon_lock, self.lock->0)
        &&& rank(ImportStep::CheckTransaction) <= rank(self.step) <= rank(ImportStep::Done)
            ==> self.directory is Some
        &&& self.step == ImportStep::Done ==> self.result is Some
    }

    /// Begins an import: whether the program runs in a box, the daemon's scope, configuration and
    /// instance, the identifier of the import, and the account.
    pub fn begin(
        boxed: bool,
        scope: ServiceScope,
        config: &str,
        instance: &str,
        id: &str,
        uid: u32,
    ) -> (r: Result<Import, String>)
        ensures
            match r {
                Ok(copy) => {
                    &&& request_complaint(boxed, config@, instance@, id@) is None
                    &&& copy.wf()
                    &&& copy.step == ImportStep::Connect
                    &&& copy.scope == scope
                    &&& copy.config@ == config@
                    &&& copy.instance@ == instance@
                    &&& copy.id@ == id@
                    &&& copy.uid == uid
                    &&& copy.fingerprint@.len() == 0
                    &&& copy.result is None
                    &&& copy.daemon_lock is None
                    &&& copy.lock is None
                    &&& copy.directory is None
                    &&& copy.log@ == Seq::<ImportStep>::empty()
                },
                Err(e) => request_complaint(boxed, config@, instance@, id@) == Some(e@),
            },
    {
        if !boxed {
            return Err("Run this import inside its Distrobox".to_owned());
        }
        if !(path::absolute(config) && text::len(config) <= MAX_CONFIG && text::chars(
            instance,
        ).len() > 0 && text::len(instance) <= MAX_INSTANCE) {
            return Err("Invalid managed import destination".to_owned());
        }
        validate_id(id)?;
        Ok(
            Import {
                scope,
                config: config.to_owned(),
                instance: instance.to_owned(),
                id: id.to_owned(),
                uid,
                fingerprint: String::new(),
                result: None,
                step: ImportStep::Connect,
                daemon_lock: None,
                lock: None,
                directory: None,
                error: String::new(),
                log: Ghost(Seq::empty()),
            },
        )
    }

    /// The present step failed.
    pub fn failed(&mut self, reason: &str)
        requires
            old(self).wf(),
        ensures
            final(self).wf(),
            import_stops(*old(self), *final(self), reason@),
    {
        self.step = ImportStep::Failed;
        self.error = reason.to_owned();
    }

    fn advance(&mut self, next: ImportStep)
        requires
            forall|s: ImportStep|
                rank(s) < rank(old(self).step) ==> #[trigger] old(self).log@.contains(s),
            rank(next) == rank(old(self).step) + 1,
            next != ImportStep::Failed,
            rank(ImportStep::Reconnect) <= rank(next) ==> old(self).lock is Some,
            rank(ImportStep::ReopenDirectory) <= rank(next) ==> names_lock(
                old(self).daemon_lock,
                old(self).lock->0,
            ),
            rank(ImportStep::CheckTransaction) <= rank(next) ==> old(self).directory is Some,
            next == ImportStep::Done ==> old(self).result is Some,
        ensures
            final(self).wf(),
            import_moves(*old(self), *final(self), next),
    {
        proof {
            push_holds(self.log@, self.step);
            assert forall|s: ImportStep| rank(s) < rank(next) implies #[trigger] self.log@.push(
                self.step,
            ).contains(s) by {
                assert(s == self.step || rank(s) < rank(self.step));
            }
        }
        self.log = Ghost(self.log@.push(self.step));
        self.step = next;
    }

    fn judge(
        &self,
        info: &DaemonInfo,
        peer: &Peer,
        same_namespace: &Result<bool, String>,
        guard: &Result<(), String>,
        gate: &str,
    ) -> (r: Result<(), String>)
        ensures
            complaint(r) == connect_complaint(*self, *info, *peer, *same_namespace, *guard, gate@),
    {
        check_visible(peer)?;
        match same_namespace {
            Err(e) => Err(e.clone()),
            Ok(same) => validate_peer(
                info,
                peer,
                self.config.as_str(),
                self.instance.as_str(),
                self.uid,
                *same,
                self.scope,
                guard,
                gate,
            ),
        }
    }

    /// The daemon at the other end of its socket, and whether it shares the file system.
    pub fn connected(
        &mut self,
        info: &DaemonInfo,
        peer: &Peer,
        same_namespace: &Result<bool, String>,
        guard: &Result<(), String>,
        gate: &str,
    )
        requires
            old(self).wf(),
            old(self).step == ImportStep::Connect,
        ensures
            final(self).wf(),
            match connect_complaint(*old(self), *info, *peer, *same_namespace, *guard, gate@) {
                Some(e) => import_stops(*old(self), *final(self), e),
                None => import_moves(
                    (Import { daemon_lock: info.service_operation_lock, ..*old(self) }),
                    *final(self),
                    ImportStep::TryLock,
                ),
            },
    {
        match self.judge(info, peer, same_namespace, guard, gate) {
            Err(e) => self.failed(e.as_str()),
            Ok(()) => {
                self.daemon_lock = copy_optional_identity(&info.service_operation_lock);
                self.advance(ImportStep::TryLock);
            },
        }
    }

    /// The write lock that could be taken.
    pub fn tried(&mut self, lock: &FileIdentity)
        requires
            old(self).wf(),
            old(self).step == ImportStep::TryLock,
        ensures
            final(self).wf(),
            if names_lock(old(self).daemon_lock, *lock) {
                import_moves(*old(self), *final(self), ImportStep::OpenDirectory)
            } else {
                import_stops(
                    *old(self),
                    *final(self),
                    "Daemon and import worker do not share the verified host write lock"@,
                )
            },
    {
        if named(&self.daemon_lock, lock) {
            self.advance(ImportStep::OpenDirectory);
        } else {
            self.failed("Daemon and import worker do not share the verified host write lock");
        }
    }

    /// The directory of the configuration, which was opened.
    pub fn opened(&mut self, m: &Metadata)
        requires
            old(self).wf(),
            old(self).step == ImportStep::OpenDirectory,
        ensures
            final(self).wf(),
            match directory_complaint(*m, old(self).uid) {
                Some(e) => import_stops(*old(self), *final(self), e),
                None => {
                    &&& import_moves(
                        (Import { directory: final(self).directory, ..*old(self) }),
                        *final(self),
                        ImportStep::CheckTransaction,
                    )
                    &&& optional_identity(final(self).directory) == Some(file_of(*m))
                },
            },
    {
        match open_directory(m, self.uid) {
            Err(e) => {
                self.failed(e.as_str());
            },
            Ok(_) => {
                self.directory = Some(identify(m));
                self.advance(ImportStep::CheckTransaction);
            },
        }
    }

    /// Whether a state transaction was interrupted there, where that could be looked at.
    pub fn transaction(&mut self, present: &Result<bool, String>)
        requires
            old(self).wf(),
            old(self).step == ImportStep::CheckTransaction || old(self).step
                == ImportStep::RecheckTransaction,
        ensures
            final(self).wf(),
            match *present {
                Err(e) => import_stops(
                    *old(self),
                    *final(self),
                    "Checking destination recovery state: "@ + e@,
                ),
                Ok(true) => import_stops(
                    *old(self),
                    *final(self),
                    "Recover the interrupted state transaction before importing media"@,
                ),
                Ok(false) => import_moves(
                    *old(self),
                    *final(self),
                    if old(self).step == ImportStep::CheckTransaction {
                        ImportStep::Prepare
                    } else {
                        ImportStep::Publish
                    },
                ),
            },
    {
        match present {
            Err(e) => self.failed(
                text::worded("Checking destination recovery state: ", e.as_str()).as_str(),
            ),
            Ok(present) => if *present {
                self.failed("Recover the interrupted state transaction before importing media");
            } else if self.step == ImportStep::CheckTransaction {
                self.advance(ImportStep::Prepare);
            } else {
                self.advance(ImportStep::Publish);
            },
        }
    }

    /// `Prepare`: the validation of the media that were staged, which came to its end.
    pub fn prepared(&mut self, decode: &Decode)
        requires
            old(self).wf(),
            old(self).step == ImportStep::Prepare,
            decode.wf(),
            decode.step == DecodeStep::Validated || decode.step == DecodeStep::Failed,
        ensures
            final(self).wf(),
            if decode.step == DecodeStep::Validated {
                final(self).fingerprint@ == decode.fingerprint@ && import_moves(
                    (Import { fingerprint: final(self).fingerprint, ..*old(self) }),
                    *final(self),
                    ImportStep::Lock,
                )
            } else {
                import_stops(*old(self), *final(self), decode.error@)
            },
    {
        if let DecodeStep::Validated = decode.step {
            self.fingerprint = decode.fingerprint.clone();
            self.advance(ImportStep::Lock);
        } else {
            self.failed(decode.error.as_str());
        }
    }

    /// The write lock was taken for the publication.
    pub fn locked(&mut self, lock: FileIdentity)
        requires
            old(self).wf(),
            old(self).step == ImportStep::Lock,
        ensures
            final(self).wf(),
            import_moves(
                (Import { lock: Some(lock), ..*old(self) }),
                *final(self),
                ImportStep::Reconnect,
            ),
    {
        self.lock = Some(lock);
        self.advance(ImportStep::Reconnect);
    }

    /// The daemon at the other end of its socket, connected to once more.
    pub fn reconnected(
        &mut self,
        info: &DaemonInfo,
        peer: &Peer,
        same_namespace: &Result<bool, String>,
        guard: &Result<(), String>,
        gate: &str,
    )
        requires
            old(self).wf(),
            old(self).step == ImportStep::Reconnect,
        ensures
            final(self).wf(),
            match connect_complaint(*old(self), *info, *peer, *same_namespace, *guard, gate@) {
                Some(e) => import_stops(*old(self), *final(self), e),
                None => if names_lock(old(self).daemon_lock, old(self).lock->0) && names_lock(
                    info.service_operation_lock,
                    old(self).lock->0,
                ) {
                    import_moves(*old(self), *final(self), ImportStep::ReopenDirectory)
                } else {
                    import_stops(
                        *old(self),
                        *final(self),
                        "Daemon and import worker do not share the verified host write lock"@,
                    )
                },
            },
    {
        match self.judge(info, peer, same_namespace, guard, gate) {
            Err(e) => {
                self.failed(e.as_str());
                return;
            },
            Ok(()) => {},
        }
        let shared = match &self.lock {
            Some(held) => named(&self.daemon_lock, held) && named(
                &info.service_operation_lock,
                held,
            ),
            None => false,
        };
        if shared {
            self.advance(ImportStep::ReopenDirectory);
        } else {
            self.failed("Daemon and import worker do not share the verified host write lock");
        }
    }

    /// The directory of the configuration as it is now.
    pub fn reopened(&mut self, m: &Metadata)
        requires
            old(self).wf(),
            old(self).step == ImportStep::ReopenDirectory,
        ensures
            final(self).wf(),
            if directory_complaint(*m, old(self).uid) is Some {
                import_stops(
                    *old(self),
                    *final(self),
                    directory_complaint(*m, old(self).uid)->0,
                )
            } else if optional_identity(old(self).directory) == Some(file_of(*m)) {
                import_moves(*old(self), *final(self), ImportStep::RecheckTransaction)
            } else {
                import_stops(
                    *old(self),
                    *final(self),
                    "Managed destination directory was replaced"@,
                )
            },
    {
        match open_directory(m, self.uid) {
            Err(e) => {
                self.failed(e.as_str());
                return;
            },
            Ok(_) => {},
        }
        if named(&self.directory, &identify(m)) {
            self.advance(ImportStep::RecheckTransaction);
        } else {
            self.failed("Managed destination directory was replaced");
        }
    }

    /// `Publish`: the publication, which came to its end, and the canonical directory of the
    /// configuration afterwards.
    pub fn published(&mut self, publish: Publish, directory: Result<String, String>)
        requires
            old(self).wf(),
            old(self).step == ImportStep::Publish,
            publish.wf(),
            publish.id@ == old(self).id@,
            publish.fingerprint@ == old(self).fingerprint@,
            publish.step == PublishStep::Published || publish.step == PublishStep::Failed,
        ensures
            final(self).wf(),
            if publish.step == PublishStep::Failed {
                import_stops(*old(self), *final(self), publish.error@)
            } else {
                match directory {
                    Err(e) => import_stops(*old(self), *final(self), e@),
                    Ok(directory) => {
                        &&& import_moves(
                            (Import { result: final(self).result, ..*old(self) }),
                            *final(self),
                            ImportStep::Done,
                        )
                        &&& final(self).result is Some
                        &&& placed_at(
                            (PublishedSelection {
                                import_id: publish.id,
                                lcds: publish.lcds,
                                templates: publish.templates,
                                destination: None,
                            }),
                            old(self).config@,
                            directory,
                            final(self).result->0,
                        )
                    },
                }
            },
    {
        if let PublishStep::Failed = publish.step {
            self.failed(publish.error.as_str());
            return;
        }
        match directory {
            Err(e) => self.failed(e.as_str()),
            Ok(directory) => {
                self.result = Some(place_at(publish.result(), self.config.as_str(), directory));
                self.advance(ImportStep::Done);
            },
        }
    }
}

/// Media is published only under the lock that the daemon shares, after the daemon and the directory
/// were checked a second time.
pub proof fn imports_are_published_under_the_shared_lock(copy: Import)
    requires
        copy.wf(),
        copy.step == ImportStep::Publish,
    ensures
        copy.lock is Some,
        names_lock(copy.daemon_lock, copy.lock->0),
        copy.log@.contains(ImportStep::Prepare),
        copy.log@.contains(ImportStep::Reconnect),
        copy.log@.contains(ImportStep::ReopenDirectory),
        copy.log@.contains(ImportStep::RecheckTransaction),
{
}

/// Whether the daemon's process can be looked at from here.
pub fn check_visible(peer: &Peer) -> (r: Result<(), String>)
    ensures
        complaint(r) == if peer.pid > 0 {
            None
        } else {
            Some("Daemon is not visible in this process namespace"@)
        },
{
    if peer.pid > 0 {
        Ok(())
    } else {
        Err("Daemon is not visible in this process namespace".to_owned())
    }
}

/// Media are imported through a daemon exactly where it is the reviewed one: the process at the other
/// end, of the same unprivileged account and in the same file system, in the mode of the service,
/// with that configuration and that instance, and able to coordinate writes.
pub proof fn daemons_import_where_they_were_reviewed(
    info: DaemonInfo,
    peer: Peer,
    config: Seq<char>,
    instance: Seq<char>,
    uid: u32,
    same_namespace: bool,
    scope: ServiceScope,
    guard: Result<(), String>,
    gate: Seq<char>,
)
    ensures
        daemon_complaint(
            info,
            peer,
            config,
            instance,
            uid,
            same_namespace,
            scope,
            guard,
            gate,
        ) is None <==> {
            &&& uid != 0
            &&& peer.uid == uid
            &&& peer.pid > 0
            &&& info.pid == peer.pid
            &&& same_namespace
            &&& info.mode == crate::services::DaemonMode::User <==> scope == ServiceScope::User
            &&& path::same_path(info.config_path@, config)
            &&& info.instance_id@ == instance
            &&& guard is Ok
            &&& texts(info.capabilities@).contains(gate)
        },
{
}

/// An import in a box may begin exactly inside one, for an absolute path of bounded length, a named
/// instance and a valid identifier.
pub proof fn box_imports_begin_inside(
    boxed: bool,
    config: Seq<char>,
    instance: Seq<char>,
    id: Seq<char>,
)
    ensures
        request_complaint(boxed, config, instance, id) is None <==> boxed && path::is_absolute(config)
            && text::byte_len(config) <= 4096 && instance.len() > 0 && text::byte_len(instance) <= 256
            && text::hex_of_len(id, 32),
{
}

/// A daemon names a lock exactly where it names one and it is that file.
pub proof fn daemons_name_the_lock(named: Option<FileIdentity>, lock: FileIdentity)
    ensures
        names_lock(named, lock) <==> named is Some && named->0.device@ == lock.device@
            && named->0.inode@ == lock.inode@,
{
}

/// A daemon can be connected to exactly where its process is visible here, its namespace could be
/// compared and it is the reviewed one.
pub proof fn connected_daemons_are_visible(
    import: Import,
    info: DaemonInfo,
    peer: Peer,
    same_namespace: Result<bool, String>,
    guard: Result<(), String>,
    gate: Seq<char>,
)
    ensures
        connect_complaint(import, info, peer, same_namespace, guard, gate) is None <==> {
            &&& peer.pid > 0
            &&& same_namespace is Ok
            &&& daemon_complaint(
                info,
                peer,
                import.config@,
                import.instance@,
                import.uid,
                same_namespace->Ok_0,
                import.scope,
                guard,
                gate,
            ) is None
        },
{
}

} // verus!
