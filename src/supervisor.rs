//! Launching a program as a tracked process group: the order of the
//! operating-system steps, what each failure undoes, and when the wait ends.

use vstd::prelude::*;

verus! {

/// Which step of a launch failed.
#[derive(Clone, Copy, Debug, PartialEq, Eq, Structural)]
pub enum PopenError {
    CreateJobFailed,
    CreateProcessFailed,
    AssignJobFailed,
    CreateThreadFailed,
    /// Waiting on the group's channel failed before the group emptied.
    WaitFailed,
}


/// The code that a group's channel posts once no process of the group is
/// active.
pub const ACTIVE_PROCESS_ZERO: u32 = 4;

/// An operating-system handle that a launch holds.
#[derive(Clone, Copy, Debug, PartialEq, Eq, Structural)]
pub enum Handle {
    /// The group that tracks the process and all its descendants.
    Group,
    /// The channel that the group posts its notifications to.
    Channel,
    Process,
    /// The process's main thread.
    MainThread,
}

/// The step of a launch whose outcome is awaited.
#[derive(Clone, Copy, Debug, PartialEq, Eq, Structural)]
pub enum Stage {
    Idle,
    CreatingGroup,
    CreatingChannel,
    BindingChannel,
    /// Creating the process suspended.
    CreatingProcess,
    Assigning,
    /// Allocating the region for the module at this position.
    Allocating(usize),
    Writing(usize),
    StartingLoader(usize),
    AwaitingLoader(usize),
    Resuming,
    /// Waiting on the channel for the group to empty.
    Waiting,
    ReadingExitCode,
    Finished,
}

/// What the program reports after performing an action.
#[derive(Clone, Copy, Debug, PartialEq, Eq, Structural)]
pub enum OsEvent {
    Start,
    Succeeded,
    Failed,
    /// The group was created; its handle, as the key its channel posts.
    GroupCreated(usize),
    /// A wait on the channel returned: whether a notification was taken,
    /// with its key and code.
    Notified { dequeued: bool, key: usize, code: u32 },
    ExitCode(u32),
}

pub enum OsActionModel {
    CreateGroup,
    CreateChannel,
    BindChannel,
    CreateProcess,
    AssignToGroup,
    AllocateRegion(usize),
    WriteRegion(usize),
    StartLoader(usize),
    AwaitLoader(usize),
    Resume,
    AwaitNotification,
    ReadExitCode,
    Unwind { free_region: bool, terminate: bool, release: Seq<Handle>, outcome: Result<u32, PopenError> },
}

/// The next operating-system step of a launch.
#[derive(Debug)]
pub enum OsAction {
    CreateGroup,
    CreateChannel,
    /// Bind the channel to the group, keyed by the group's handle.
    BindChannel,
    /// Create the process suspended.
    CreateProcess,
    AssignToGroup,
    /// Allocate a region in the process for the module's path.
    AllocateRegion(usize),
    /// Write the module's path into the region.
    WriteRegion(usize),
    /// Start a thread in the process that loads the module from the region.
    StartLoader(usize),
    /// Wait for the loader thread, free the region, close the thread.
    AwaitLoader(usize),
    /// Resume the main thread.
    Resume,
    AwaitNotification,
    ReadExitCode,
    /// End the launch: free the module region if one is held, terminate the
    /// process if asked, close the handles in the order given, and report.
    Unwind { free_region: bool, terminate: bool, release: Vec<Handle>, outcome: Result<u32, PopenError> },
}

impl View for OsAction {
    type V = OsActionModel;

    open spec fn view(&self) -> OsActionModel {
        match *self {
            OsAction::CreateGroup => OsActionModel::CreateGroup,
            OsAction::CreateChannel => OsActionModel::CreateChannel,
            OsAction::BindChannel => OsActionModel::BindChannel,
            OsAction::CreateProcess => OsActionModel::CreateProcess,
            OsAction::AssignToGroup => OsActionModel::AssignToGroup,
            OsAction::AllocateRegion(i) => OsActionModel::AllocateRegion(i),
            OsAction::WriteRegion(i) => OsActionModel::WriteRegion(i),
            OsAction::StartLoader(i) => OsActionModel::StartLoader(i),
            OsAction::AwaitLoader(i) => OsActionModel::AwaitLoader(i),
            OsAction::Resume => OsActionModel::Resume,
            OsAction::AwaitNotification => OsActionModel::AwaitNotification,
            OsAction::ReadExitCode => OsActionModel::ReadExitCode,
            OsAction::Unwind { free_region, terminate, release, outcome } => OsActionModel::Unwind {
                free_region,
                terminate,
                release: release@,
                outcome,
            },
        }
    }
}

/// The handles held while a stage's outcome is awaited, in the order they
/// were acquired.
pub open spec fn held_spec(stage: Stage) -> Seq<Handle> {
    match stage {
        Stage::Idle | Stage::CreatingGroup | Stage::Finished => seq![],
        Stage::CreatingChannel => seq![Handle::Group],
        Stage::BindingChannel | Stage::CreatingProcess => seq![Handle::Group, Handle::Channel],
        _ => seq![Handle::Group, Handle::Channel, Handle::Process, Handle::MainThread],
    }
}

/// One launch: a suspended process in a group, with `modules` modules to
/// load into it before it resumes.
#[derive(Clone, Copy, Debug, PartialEq, Eq, Structural)]
pub struct Supervisor {
    pub modules: usize,
    /// The group's handle, once created.
    pub group: usize,
    pub stage: Stage,
}

impl Supervisor {
    pub open spec fn at(&self, stage: Stage) -> Supervisor {
        Supervisor { stage, ..*self }
    }

    /// Ends the launch from the current stage: every held handle is closed,
    /// the last acquired first.
    pub open spec fn unwind_spec(&self, free_region: bool, terminate: bool, outcome: Result<u32, PopenError>) -> (Supervisor, OsActionModel) {
        (
            self.at(Stage::Finished),
            OsActionModel::Unwind { free_region, terminate, release: held_spec(self.stage).reverse(), outcome },
        )
    }

    /// Loads the module at position `i`, or resumes the process after the
    /// last one.
    pub open spec fn load_spec(&self, i: int) -> (Supervisor, OsActionModel) {
        if i < self.modules {
            (self.at(Stage::Allocating(i as usize)), OsActionModel::AllocateRegion(i as usize))
        } else {
            (self.at(Stage::Resuming), OsActionModel::Resume)
        }
    }

    /// Whether the notification says that the group has emptied.
    pub open spec fn group_empty(&self, key: usize, code: u32) -> bool {
        key == self.group && code == ACTIVE_PROCESS_ZERO
    }

    /// Whether an event is the outcome of the awaited stage.
    pub open spec fn fits(&self, event: OsEvent) -> bool {
        match self.stage {
            Stage::Idle => event is Start,
            Stage::CreatingGroup => event is GroupCreated || event is Failed,
            Stage::CreatingChannel | Stage::BindingChannel | Stage::CreatingProcess | Stage::Assigning => event
                is Succeeded || event is Failed,
            Stage::Allocating(i) | Stage::Writing(i) | Stage::StartingLoader(i) => i < self.modules && (event
                is Succeeded || event is Failed),
            Stage::AwaitingLoader(i) => i < self.modules && event is Succeeded,
            Stage::Resuming => event is Succeeded,
            Stage::Waiting => event is Notified,
            Stage::ReadingExitCode => event is ExitCode,
            Stage::Finished => false,
        }
    }

    /// The launch after an event, and its next step.
    pub open spec fn step_spec(&self, event: OsEvent) -> (Supervisor, OsActionModel) {
        let ok = event is Succeeded;
        match self.stage {
            Stage::Idle => (self.at(Stage::CreatingGroup), OsActionModel::CreateGroup),
            Stage::CreatingGroup => match event {
                OsEvent::GroupCreated(g) => (
                    Supervisor { group: g, stage: Stage::CreatingChannel, ..*self },
                    OsActionModel::CreateChannel,
                ),
                _ => self.unwind_spec(false, false, Err(PopenError::CreateJobFailed)),
            },
            Stage::CreatingChannel => if ok {
                (self.at(Stage::BindingChannel), OsActionModel::BindChannel)
            } else {
                self.unwind_spec(false, false, Err(PopenError::CreateJobFailed))
            },
            Stage::BindingChannel => if ok {
                (self.at(Stage::CreatingProcess), OsActionModel::CreateProcess)
            } else {
                self.unwind_spec(false, false, Err(PopenError::CreateJobFailed))
            },
            Stage::CreatingProcess => if ok {
                (self.at(Stage::Assigning), OsActionModel::AssignToGroup)
            } else {
                self.unwind_spec(false, false, Err(PopenError::CreateProcessFailed))
            },
            Stage::Assigning => if ok {
                self.load_spec(0)
            } else {
                self.unwind_spec(false, true, Err(PopenError::AssignJobFailed))
            },
            Stage::Allocating(i) => if ok {
                (self.at(Stage::Writing(i)), OsActionModel::WriteRegion(i))
            } else {
                self.unwind_spec(false, true, Err(PopenError::CreateProcessFailed))
            },
            Stage::Writing(i) => if ok {
                (self.at(Stage::StartingLoader(i)), OsActionModel::StartLoader(i))
            } else {
                self.unwind_spec(true, true, Err(PopenError::CreateProcessFailed))
            },
            Stage::StartingLoader(i) => if ok {
                (self.at(Stage::AwaitingLoader(i)), OsActionModel::AwaitLoader(i))
            } else {
                self.unwind_spec(true, true, Err(PopenError::CreateThreadFailed))
            },
            Stage::AwaitingLoader(i) => self.load_spec(i + 1),
            Stage::Resuming => (self.at(Stage::Waiting), OsActionModel::AwaitNotification),
            Stage::Waiting => match event {
                OsEvent::Notified { dequeued, key, code } => if !dequeued {
                    self.unwind_spec(false, false, Err(PopenError::WaitFailed))
                } else if self.group_empty(key, code) {
                    (self.at(Stage::ReadingExitCode), OsActionModel::ReadExitCode)
                } else {
                    (*self, OsActionModel::AwaitNotification)
                },
                _ => (*self, OsActionModel::AwaitNotification),
            },
            Stage::ReadingExitCode => match event {
                OsEvent::ExitCode(c) => self.unwind_spec(false, false, Ok(c)),
                _ => self.unwind_spec(false, false, Ok(0)),
            },
            Stage::Finished => (*self, OsActionModel::AwaitNotification),
        }
    }

    /// A launch that loads `modules` modules, not yet begun.
    pub fn new(modules: usize) -> (r: Supervisor)
        ensures
            r == (Supervisor { modules, group: 0, stage: Stage::Idle }),
    {
        Supervisor { modules, group: 0, stage: Stage::Idle }
    }

    fn unwind(&mut self, free_region: bool, terminate: bool, outcome: Result<u32, PopenError>) -> (r: OsAction)
        ensures
            (*final(self), r@) == old(self).unwind_spec(free_region, terminate, outcome),
    {
        let mut release: Vec<Handle> = Vec::new();
        let ghost held = held_spec(self.stage);
        match self.stage {
            Stage::Idle | Stage::CreatingGroup | Stage::Finished => {},
            Stage::CreatingChannel => {
                release.push(Handle::Group);
            },
            Stage::BindingChannel | Stage::CreatingProcess => {
                release.push(Handle::Channel);
                release.push(Handle::Group);
            },
            _ => {
                release.push(Handle::MainThread);
                release.push(Handle::Process);
                release.push(Handle::Channel);
                release.push(Handle::Group);
            },
        }
        assert(release@ =~= held.reverse());
        self.stage = Stage::Finished;
        OsAction::Unwind { free_region, terminate, release, outcome }
    }

    fn load(&mut self, i: usize) -> (r: OsAction)
        requires
            i <= old(self).modules,
        ensures
            (*final(self), r@) == old(self).load_spec(i as int),
    {
        if i < self.modules {
            self.stage = Stage::Allocating(i);
            OsAction::AllocateRegion(i)
        } else {
            self.stage = Stage::Resuming;
            OsAction::Resume
        }
    }

    /// Takes the launch one step further: from the outcome of the awaited
    /// step to the next one.
    pub fn step(&mut self, event: OsEvent) -> (r: OsAction)
        requires
            old(self).fits(event),
        ensures
            (*final(self), r@) == old(self).step_spec(event),
    {
        let ok = match event {
            OsEvent::Succeeded => true,
            _ => false,
        };
        match self.stage {
            Stage::Idle => {
                self.stage = Stage::CreatingGroup;
                OsAction::CreateGroup
            },
            Stage::CreatingGroup => match event {
                OsEvent::GroupCreated(g) => {
                    self.group = g;
                    self.stage = Stage::CreatingChannel;
                    OsAction::CreateChannel
                },
                _ => self.unwind(false, false, Err(PopenError::CreateJobFailed)),
            },
            Stage::CreatingChannel => if ok {
                self.stage = Stage::BindingChannel;
                OsAction::BindChannel
            } else {
                self.unwind(false, false, Err(PopenError::CreateJobFailed))
            },
            Stage::BindingChannel => if ok {
                self.stage = Stage::CreatingProcess;
                OsAction::CreateProcess
            } else {
                self.unwind(false, false, Err(PopenError::CreateJobFailed))
            },
            Stage::CreatingProcess => if ok {
                self.stage = Stage::Assigning;
                OsAction::AssignToGroup
            } else {
                self.unwind(false, false, Err(PopenError::CreateProcessFailed))
            },
            Stage::Assigning => if ok {
                self.load(0)
            } else {
                self.unwind(false, true, Err(PopenError::AssignJobFailed))
            },
            Stage::Allocating(i) => if ok {
                self.stage = Stage::Writing(i);
                OsAction::WriteRegion(i)
            } else {
                self.unwind(false, true, Err(PopenError::CreateProcessFailed))
            },
            Stage::Writing(i) => if ok {
                self.stage = Stage::StartingLoader(i);
                OsAction::StartLoader(i)
            } else {
                self.unwind(true, true, Err(PopenError::CreateProcessFailed))
            },
            Stage::StartingLoader(i) => if ok {
                self.stage = Stage::AwaitingLoader(i);
                OsAction::AwaitLoader(i)
            } else {
                self.unwind(true, true, Err(PopenError::CreateThreadFailed))
            },
            Stage::AwaitingLoader(i) => self.load(i + 1),
            Stage::Resuming => {
                self.stage = Stage::Waiting;
                OsAction::AwaitNotification
            },
            Stage::Waiting => match event {
                OsEvent::Notified { dequeued, key, code } => if !dequeued {
                    self.unwind(false, false, Err(PopenError::WaitFailed))
                } else if key == self.group && code == ACTIVE_PROCESS_ZERO {
                    self.stage = Stage::ReadingExitCode;
                    OsAction::ReadExitCode
                } else {
                    OsAction::AwaitNotification
                },
                _ => OsAction::AwaitNotification,
            },
            Stage::ReadingExitCode => match event {
                OsEvent::ExitCode(c) => self.unwind(false, false, Ok(c)),
                _ => self.unwind(false, false, Ok(0)),
            },
            Stage::Finished => OsAction::AwaitNotification,
        }
    }
}


/// The wait ends only on the group's own notification that none of its
/// processes is active, however many descendants the process started and in
/// whatever order they ended; any other notification keeps it waiting.
pub proof fn lemma_wait_ends_only_when_group_empty(s: Supervisor, key: usize, code: u32)
    requires
        s.stage == Stage::Waiting,
    ensures
        ({
            let (next, action) = s.step_spec(OsEvent::Notified { dequeued: true, key, code });
            &&& s.group_empty(key, code) ==> next.stage == Stage::ReadingExitCode && action
                == OsActionModel::ReadExitCode
            &&& !s.group_empty(key, code) ==> next == s && action == OsActionModel::AwaitNotification
        }),
{
}

/// A wait that fails before the group has emptied ends the launch with an
/// error, after closing every handle; no exit code is read.
pub proof fn lemma_failed_wait_is_an_error(s: Supervisor, key: usize, code: u32)
    requires
        s.stage == Stage::Waiting,
    ensures
        s.step_spec(OsEvent::Notified { dequeued: false, key, code }) == (s.at(Stage::Finished), OsActionModel::Unwind {
            free_region: false,
            terminate: false,
            release: seq![Handle::MainThread, Handle::Process, Handle::Channel, Handle::Group],
            outcome: Err(PopenError::WaitFailed),
        }),
{
    assert(held_spec(s.stage).reverse() =~= seq![
        Handle::MainThread,
        Handle::Process,
        Handle::Channel,
        Handle::Group,
    ]);
}

/// The exit code is read only once the wait has ended, and the launch then
/// closes every handle, the last acquired first, and reports that code.
pub proof fn lemma_exit_code_only_after_wait(s: Supervisor, event: OsEvent, code: u32)
    requires
        s.fits(event),
    ensures
        s.step_spec(event).1 == OsActionModel::ReadExitCode ==> s.stage == Stage::Waiting,
        (event == OsEvent::ExitCode(code) && s.stage == Stage::ReadingExitCode) ==> s.step_spec(event).1
            == (OsActionModel::Unwind {
            free_region: false,
            terminate: false,
            release: seq![Handle::MainThread, Handle::Process, Handle::Channel, Handle::Group],
            outcome: Ok(code),
        }),
{
    if s.stage == Stage::ReadingExitCode {
        assert(held_spec(s.stage).reverse() =~= seq![
            Handle::MainThread,
            Handle::Process,
            Handle::Channel,
            Handle::Group,
        ]);
    }
}

/// Modules load one after another, in order: a module's region is allocated
/// only after the previous module's loader has finished, and the process
/// resumes only after the last one.
pub proof fn lemma_modules_load_in_order(s: Supervisor, event: OsEvent)
    requires
        s.fits(event),
    ensures
        s.step_spec(event).1 matches OsActionModel::AllocateRegion(j) ==> (j == 0 && s.stage == Stage::Assigning)
            || (j > 0 && s.stage == Stage::AwaitingLoader((j - 1) as usize)),
        s.step_spec(event).1 is Resume ==> (s.modules == 0 && s.stage == Stage::Assigning) || (s.modules > 0
            && s.stage == Stage::AwaitingLoader((s.modules - 1) as usize)),
{
}

/// When a module step fails, the launch stops there: the process is
/// terminated rather than resumed, the region is freed if it was allocated,
/// every handle is closed, and no later module is attempted.
pub proof fn lemma_module_failure_terminates(s: Supervisor, i: usize)
    requires
        s.stage == Stage::Allocating(i) || s.stage == Stage::Writing(i) || s.stage == Stage::StartingLoader(i),
        i < s.modules,
    ensures
        ({
            let (next, action) = s.step_spec(OsEvent::Failed);
            &&& next.stage == Stage::Finished
            &&& action matches OsActionModel::Unwind { free_region, terminate, release, outcome }
            &&& terminate
            &&& free_region == !(s.stage is Allocating)
            &&& release == seq![Handle::MainThread, Handle::Process, Handle::Channel, Handle::Group]
            &&& outcome is Err
        }),
{
    assert(held_spec(s.stage).reverse() =~= seq![
        Handle::MainThread,
        Handle::Process,
        Handle::Channel,
        Handle::Group,
    ]);
}

/// Whenever a launch ends, on success or on any failure, it closes exactly
/// the handles it holds, in the reverse of the order it acquired them.
pub proof fn lemma_unwind_releases_in_reverse(s: Supervisor, event: OsEvent)
    requires
        s.fits(event),
    ensures
        s.step_spec(event).1 matches OsActionModel::Unwind { release, .. } ==> release == held_spec(
            s.stage,
        ).reverse() && s.step_spec(event).0.stage == Stage::Finished,
{
}

} // verus!
