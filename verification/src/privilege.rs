//! Giving up superuser rights: a strictly ordered sequence of system calls
//! in which any failure is final.
//!
//! The program performs each call that `PrivilegeDropper::action` asks for and
//! reports what came back with `PrivilegeDropper::advance`. The group is
//! changed before the user, because a process that has given up its user
//! rights may no longer change its group.

use vstd::prelude::*;
use vstd::string::StringExecFns;

verus! {

/// The identity of the superuser.
pub const SUPERUSER: u32 = 0;

/// The real and effective user and group of the process at one moment.
#[derive(Clone, Copy, Debug, PartialEq, Eq, Structural)]
pub struct PrivilegeState {
    pub uid: u32,
    pub gid: u32,
    pub euid: u32,
    pub egid: u32,
}

/// Why privileges could not be dropped.
#[derive(Clone, Copy, Debug, PartialEq, Eq, Structural)]
pub enum DropError {
    /// An account to drop to is configured, but the platform has none.
    Unsupported,
    /// The user's name holds a NUL character.
    InvalidUserName,
    /// The group's name holds a NUL character.
    InvalidGroupName,
    /// The system knows no user of that name.
    UnknownUser,
    /// The system knows no group of that name.
    UnknownGroup,
    /// The system refused to change the group.
    SetGidFailed,
    /// The system refused to change the user.
    SetUidFailed,
}

/// The system call that is due.
#[derive(Clone, Copy, Debug, PartialEq, Eq, Structural)]
pub enum DropAction {
    /// Read the real and effective user and group.
    Snapshot,
    /// Look up the ids of the configured user and group.
    Resolve,
    /// Change the group.
    SetGid(u32),
    /// Change the user.
    SetUid(u32),
    /// Nothing: the sequence has ended.
    Finished,
}

/// What a system call gave.
#[derive(Clone, Copy, Debug, PartialEq, Eq, Structural)]
pub enum DropEvent {
    /// The identity that `Snapshot` read.
    Ids(PrivilegeState),
    /// What `Resolve` found: the user's id and the group's, each where the
    /// system knows the name.
    Resolved { uid: Option<u32>, gid: Option<u32> },
    /// Whether `SetGid` or `SetUid` succeeded.
    Changed(bool),
}

/// How far the sequence has come.
#[derive(Clone, Copy, Debug, PartialEq, Eq, Structural)]
pub enum Phase {
    Start,
    Resolving { before: PrivilegeState },
    SettingGroup { before: PrivilegeState, uid: u32, gid: u32 },
    SettingUser { before: PrivilegeState, uid: u32 },
    Verifying { before: PrivilegeState },
    Done { before: PrivilegeState, after: PrivilegeState },
    Failed(DropError),
}

/// The sequence for one user and group.
#[derive(Clone, Debug, PartialEq, Eq)]
pub struct PrivilegeDropper {
    pub user: String,
    pub group: String,
    pub phase: Phase,
}

impl PrivilegeState {
    /// A process has superuser rights when its real or its effective user is
    /// the superuser.
    pub open spec fn spec_is_superuser(self) -> bool {
        self.uid == SUPERUSER || self.euid == SUPERUSER
    }

    /// A process has superuser rights when its real or its effective user is
    /// the superuser.
    pub fn is_superuser(self) -> (yes: bool)
        ensures
            yes == self.spec_is_superuser(),
    {
        self.uid == SUPERUSER || self.euid == SUPERUSER
    }
}

/// A name can be handed to the system when it holds no NUL character.
pub open spec fn name_is_valid(name: Seq<char>) -> bool {
    forall|i: int| 0 <= i < name.len() ==> name[i] != '\0'
}

impl Phase {
    /// The call that a phase waits for.
    pub open spec fn spec_action(self) -> DropAction {
        match self {
            Phase::Start => DropAction::Snapshot,
            Phase::Resolving { .. } => DropAction::Resolve,
            Phase::SettingGroup { gid, .. } => DropAction::SetGid(gid),
            Phase::SettingUser { uid, .. } => DropAction::SetUid(uid),
            Phase::Verifying { .. } => DropAction::Snapshot,
            Phase::Done { .. } => DropAction::Finished,
            Phase::Failed(_) => DropAction::Finished,
        }
    }

    /// Whether the sequence has ended, with success or with an error.
    pub open spec fn is_final(self) -> bool {
        self is Done || self is Failed
    }

    /// The phase that follows when `event` answers the call that was due. An
    /// event that does not answer that call changes nothing.
    pub open spec fn next(self, user: Seq<char>, group: Seq<char>, event: DropEvent) -> Phase {
        match (self, event) {
            (Phase::Start, DropEvent::Ids(before)) => if !before.spec_is_superuser() {
                Phase::Done { before, after: before }
            } else if !name_is_valid(user) {
                Phase::Failed(DropError::InvalidUserName)
            } else if !name_is_valid(group) {
                Phase::Failed(DropError::InvalidGroupName)
            } else {
                Phase::Resolving { before }
            },
            (Phase::Resolving { before }, DropEvent::Resolved { uid, gid }) => match (uid, gid) {
                (None, _) => Phase::Failed(DropError::UnknownUser),
                (Some(_), None) => Phase::Failed(DropError::UnknownGroup),
                (Some(uid), Some(gid)) => Phase::SettingGroup { before, uid, gid },
            },
            (Phase::SettingGroup { before, uid, gid }, DropEvent::Changed(done)) => if done {
                Phase::SettingUser { before, uid }
            } else {
                Phase::Failed(DropError::SetGidFailed)
            },
            (Phase::SettingUser { before, uid }, DropEvent::Changed(done)) => if done {
                Phase::Verifying { before }
            } else {
                Phase::Failed(DropError::SetUidFailed)
            },
            (Phase::Verifying { before }, DropEvent::Ids(after)) => Phase::Done { before, after },
            _ => self,
        }
    }

    /// The phase after a run of events.
    pub open spec fn run(self, user: Seq<char>, group: Seq<char>, events: Seq<DropEvent>) -> Phase
        decreases events.len(),
    {
        if events.len() == 0 {
            self
        } else {
            self.run(user, group, events.drop_last()).next(user, group, events.last())
        }
    }

    /// The call that a phase waits for.
    pub fn action(self) -> (action: DropAction)
        ensures
            action == self.spec_action(),
    {
        match self {
            Phase::Start => DropAction::Snapshot,
            Phase::Resolving { .. } => DropAction::Resolve,
            Phase::SettingGroup { gid, .. } => DropAction::SetGid(gid),
            Phase::SettingUser { uid, .. } => DropAction::SetUid(uid),
            Phase::Verifying { .. } => DropAction::Snapshot,
            Phase::Done { .. } => DropAction::Finished,
            Phase::Failed(_) => DropAction::Finished,
        }
    }
}

fn has_no_nul(name: &str) -> (valid: bool)
    ensures
        valid == name_is_valid(name@),
{
    let chars = crate::text::to_chars(name);
    let mut i: usize = 0;
    while i < chars.len()
        invariant
            i <= chars@.len(),
            chars@ == name@,
            forall|k: int| 0 <= k < i ==> chars@[k] != '\0',
        decreases chars@.len() - i,
    {
        if chars[i] == '\0' {
            return false;
        }
        i += 1;
    }
    true
}

impl DropError {
    /// The error in words, given the names that were to be dropped to.
    pub open spec fn spec_message(self, user: Seq<char>, group: Seq<char>) -> Seq<char> {
        match self {
            DropError::Unsupported => "dropping privileges is only supported on Unix systems"@,
            DropError::InvalidUserName => "unable to create CString for user "@ + user,
            DropError::InvalidGroupName => "unable to create CString for group "@ + group
                + ". Exiting."@,
            DropError::UnknownUser => "unable to lookup user '"@ + user + "'. Exiting."@,
            DropError::UnknownGroup => "unable to lookup group '"@ + group + "'. Exiting."@,
            DropError::SetGidFailed => "unable to set gid. Exiting."@,
            DropError::SetUidFailed => "unable to set uid. Exiting."@,
        }
    }

    /// The error in words, given the names that were to be dropped to.
    pub fn message(self, user: &str, group: &str) -> (text: String)
        ensures
            text@ == self.spec_message(user@, group@),
    {
        match self {
            DropError::Unsupported => String::from_str(
                "dropping privileges is only supported on Unix systems",
            ),
            DropError::InvalidUserName => {
                let mut text = String::from_str("unable to create CString for user ");
                text.append(user);
                text
            },
            DropError::InvalidGroupName => {
                let mut text = String::from_str("unable to create CString for group ");
                text.append(group);
                text.append(". Exiting.");
                text
            },
            DropError::UnknownUser => {
                let mut text = String::from_str("unable to lookup user '");
                text.append(user);
                text.append("'. Exiting.");
                text
            },
            DropError::UnknownGroup => {
                let mut text = String::from_str("unable to lookup group '");
                text.append(group);
                text.append("'. Exiting.");
                text
            },
            DropError::SetGidFailed => String::from_str("unable to set gid. Exiting."),
            DropError::SetUidFailed => String::from_str("unable to set uid. Exiting."),
        }
    }
}

impl PrivilegeDropper {
    /// The identity of a process of which none was read: every id is the one
    /// that the system gives where there is no id, the greatest. It does not
    /// read as superuser.
    pub open spec fn no_identity() -> PrivilegeState {
        PrivilegeState { uid: u32::MAX, gid: u32::MAX, euid: u32::MAX, egid: u32::MAX }
    }

    /// The phase that a sequence begins in. Where the platform can drop
    /// privileges that is `Start`. Where it cannot, the sequence has ended
    /// before it began: with an error if an account to drop to is configured,
    /// and with nothing done if none is. Nothing was read in that case, so
    /// the identity before and after is no identity.
    pub open spec fn initial_phase(supported: bool, configured: bool) -> Phase {
        if supported {
            Phase::Start
        } else if configured {
            Phase::Failed(DropError::Unsupported)
        } else {
            Phase::Done { before: Self::no_identity(), after: Self::no_identity() }
        }
    }

    /// The sequence that drops to `user` and `group`. `supported` says
    /// whether the platform can drop privileges, `configured` whether the
    /// configuration names an account.
    pub fn new(user: String, group: String, supported: bool, configured: bool) -> (dropper:
        PrivilegeDropper)
        ensures
            dropper.user == user,
            dropper.group == group,
            dropper.phase == Self::initial_phase(supported, configured),
    {
        let phase = if supported {
            Phase::Start
        } else if configured {
            Phase::Failed(DropError::Unsupported)
        } else {
            let nobody = PrivilegeState {
                uid: u32::MAX,
                gid: u32::MAX,
                euid: u32::MAX,
                egid: u32::MAX,
            };
            Phase::Done { before: nobody, after: nobody }
        };
        PrivilegeDropper { user, group, phase }
    }

    /// The call to make now.
    pub fn action(&self) -> (action: DropAction)
        ensures
            action == self.phase.spec_action(),
    {
        self.phase.action()
    }

    /// Takes in what the call that was due gave, and moves on.
    pub fn advance(&mut self, event: DropEvent)
        ensures
            final(self).user == old(self).user,
            final(self).group == old(self).group,
            final(self).phase == old(self).phase.next(old(self).user@, old(self).group@, event),
    {
        let next = match (self.phase, event) {
            (Phase::Start, DropEvent::Ids(before)) => {
                if !before.is_superuser() {
                    Phase::Done { before, after: before }
                } else if !has_no_nul(self.user.as_str()) {
                    Phase::Failed(DropError::InvalidUserName)
                } else if !has_no_nul(self.group.as_str()) {
                    Phase::Failed(DropError::InvalidGroupName)
                } else {
                    Phase::Resolving { before }
                }
            },
            (Phase::Resolving { before }, DropEvent::Resolved { uid, gid }) => match (uid, gid) {
                (None, _) => Phase::Failed(DropError::UnknownUser),
                (Some(_), None) => Phase::Failed(DropError::UnknownGroup),
                (Some(uid), Some(gid)) => Phase::SettingGroup { before, uid, gid },
            },
            (Phase::SettingGroup { before, uid, gid }, DropEvent::Changed(done)) => {
                if done {
                    Phase::SettingUser { before, uid }
                } else {
                    Phase::Failed(DropError::SetGidFailed)
                }
            },
            (Phase::SettingUser { before, uid }, DropEvent::Changed(done)) => {
                if done {
                    Phase::Verifying { before }
                } else {
                    Phase::Failed(DropError::SetUidFailed)
                }
            },
            (Phase::Verifying { before }, DropEvent::Ids(after)) => Phase::Done { before, after },
            (phase, _) => phase,
        };
        self.phase = next;
    }

    /// How the sequence ended: the identity before and after, or the error.
    /// `None` while a call is still due.
    pub fn outcome(&self) -> (outcome: Option<Result<(PrivilegeState, PrivilegeState), DropError>>)
        ensures
            outcome is Some <==> self.phase.is_final(),
            self.phase matches Phase::Done { before, after } ==> outcome == Some(
                Ok::<(PrivilegeState, PrivilegeState), DropError>((before, after)),
            ),
            self.phase matches Phase::Failed(error) ==> outcome == Some(
                Err::<(PrivilegeState, PrivilegeState), DropError>(error),
            ),
    {
        match self.phase {
            Phase::Done { before, after } => Some(Ok((before, after))),
            Phase::Failed(error) => Some(Err(error)),
            _ => None,
        }
    }

    /// The error in words, where the sequence failed.
    pub fn error_message(&self) -> (text: Option<String>)
        ensures
            match self.phase {
                Phase::Failed(error) => text is Some && text->0@ == error.spec_message(
                    self.user@,
                    self.group@,
                ),
                _ => text is None,
            },
    {
        match self.phase {
            Phase::Failed(error) => Some(error.message(self.user.as_str(), self.group.as_str())),
            _ => None,
        }
    }
}

/// A process that is not superuser is left as it is: after the first
/// snapshot the sequence has ended with success, no call to resolve a name or
/// to change an id is ever due, and the identity is unchanged.
pub proof fn unprivileged_process_is_left_alone(
    user: Seq<char>,
    group: Seq<char>,
    ids: PrivilegeState,
    later: Seq<DropEvent>,
)
    requires
        !ids.spec_is_superuser(),
    ensures
        Phase::Start.spec_action() == DropAction::Snapshot,
        Phase::Start.next(user, group, DropEvent::Ids(ids)) == (Phase::Done {
            before: ids,
            after: ids,
        }),
        Phase::Start.next(user, group, DropEvent::Ids(ids)).run(user, group, later) == (Phase::Done {
            before: ids,
            after: ids,
        }),
        Phase::Start.next(user, group, DropEvent::Ids(ids)).run(
            user,
            group,
            later,
        ).spec_action() == DropAction::Finished,
    decreases later.len(),
{
    if later.len() > 0 {
        unprivileged_process_is_left_alone(user, group, ids, later.drop_last());
    }
}

/// Once the sequence has ended, nothing changes it and no call is due.
pub proof fn ended_sequence_stays_ended(
    phase: Phase,
    user: Seq<char>,
    group: Seq<char>,
    events: Seq<DropEvent>,
)
    requires
        phase.is_final(),
    ensures
        phase.run(user, group, events) == phase,
        phase.spec_action() == DropAction::Finished,
    decreases events.len(),
{
    if events.len() > 0 {
        ended_sequence_stays_ended(phase, user, group, events.drop_last());
    }
}

/// A group that the system does not know ends the sequence with an error,
/// whatever the user resolved to.
pub proof fn unknown_group_fails(
    before: PrivilegeState,
    user: Seq<char>,
    group: Seq<char>,
    uid: Option<u32>,
)
    ensures
        (Phase::Resolving { before }).next(
            user,
            group,
            DropEvent::Resolved { uid, gid: None },
        ) is Failed,
        uid is Some ==> (Phase::Resolving { before }).next(
            user,
            group,
            DropEvent::Resolved { uid, gid: None },
        ) == Phase::Failed(DropError::UnknownGroup),
{
}

/// How many steps of the sequence lie behind a phase.
pub open spec fn progress(phase: Phase) -> int {
    match phase {
        Phase::Start => 0,
        Phase::Resolving { .. } => 1,
        Phase::SettingGroup { .. } => 2,
        Phase::SettingUser { .. } => 3,
        Phase::Verifying { .. } => 4,
        Phase::Done { .. } => 5,
        Phase::Failed(_) => 5,
    }
}

/// The sequence never goes back, and it moves by one step at a time unless it
/// ends.
pub proof fn sequence_is_linear(phase: Phase, user: Seq<char>, group: Seq<char>, event: DropEvent)
    ensures
        progress(phase) <= progress(phase.next(user, group, event)),
        !phase.next(user, group, event).is_final() ==> progress(phase.next(user, group, event))
            <= progress(phase) + 1,
{
}

/// The user is changed only directly after the group was changed with
/// success: whenever a change of user is due after an event, the call before
/// it was the change of group, it succeeded, and both names had resolved.
pub proof fn user_changes_only_after_group(
    phase: Phase,
    user: Seq<char>,
    group: Seq<char>,
    event: DropEvent,
)
    requires
        phase.next(user, group, event).spec_action() is SetUid,
        !(phase.spec_action() is SetUid),
    ensures
        phase is SettingGroup,
        phase.spec_action() is SetGid,
        event == DropEvent::Changed(true),
        phase.next(user, group, event).spec_action() == DropAction::SetUid(phase->SettingGroup_uid),
{
}

/// In every run from the start, a change of user is due only after a change
/// of group has been due and has succeeded. So a failure to resolve either
/// name, or to change the group, means that the user is never changed.
pub proof fn no_user_change_without_group_change(
    user: Seq<char>,
    group: Seq<char>,
    events: Seq<DropEvent>,
) -> (k: int)
    requires
        Phase::Start.run(user, group, events).spec_action() is SetUid,
    ensures
        0 <= k < events.len(),
        Phase::Start.run(user, group, events.take(k)).spec_action() is SetGid,
        events[k] == DropEvent::Changed(true),
        Phase::Start.run(user, group, events.take(k + 1)).spec_action() is SetUid,
    decreases events.len(),
{
    assert(events.len() > 0);
    let earlier = events.drop_last();
    let before = Phase::Start.run(user, group, earlier);
    if before.spec_action() is SetUid {
        let k = no_user_change_without_group_change(user, group, earlier);
        assert(earlier.take(k) =~= events.take(k));
        assert(earlier.take(k + 1) =~= events.take(k + 1));
        k
    } else {
        user_changes_only_after_group(before, user, group, events.last());
        let k = events.len() - 1;
        assert(events.take(k) =~= earlier);
        assert(events.take(k + 1) =~= events);
        k
    }
}

/// Where the platform cannot drop privileges and nothing is configured, the
/// sequence ends at once, and what it reports does not read as superuser.
pub proof fn unsupported_platform_reports_no_superuser()
    ensures
        PrivilegeDropper::initial_phase(false, false) is Done,
        !PrivilegeDropper::initial_phase(false, false)->Done_before.spec_is_superuser(),
        !PrivilegeDropper::initial_phase(false, false)->Done_after.spec_is_superuser(),
        PrivilegeDropper::initial_phase(false, true) == Phase::Failed(DropError::Unsupported),
{
}

} // verus!
