//! The phases around a launch: which run, what each runs, and what a failure
//! leads to.

use crate::config::{bool_or, list_or, text_list_of, text_of, text_or, texts, Config};
use crate::supervisor::PopenError;
use vstd::prelude::*;

verus! {

#[derive(Clone, Copy, Debug, PartialEq, Eq, Structural)]
pub enum Phase {
    RemoteRestore,
    LocalRestore,
    Run,
    LocalBackup,
    RemoteBackup,
}

/// Why the sequence stopped short.
#[derive(Clone, Copy, Debug, PartialEq, Eq, Structural)]
pub enum Error {
    /// A phase's process could not be launched.
    Popen(PopenError),
    /// A phase failed and the sequence did not go on.
    Exited,
    /// No program to launch is configured.
    GameExeUnset,
}

/// The view of a launch: what to run, with what loaded into it, where.
pub struct LaunchModel {
    pub argv: Seq<Seq<char>>,
    pub modules: Seq<Seq<char>>,
    pub current_dir: Option<Seq<char>>,
    pub hide_console: bool,
}

/// What to launch for a phase.
#[derive(Debug)]
pub struct LaunchSpec {
    pub argv: Vec<String>,
    pub modules: Vec<String>,
    pub current_dir: Option<String>,
    /// Hide the console from just before the launch until the wait ends.
    pub hide_console: bool,
}

impl View for LaunchSpec {
    type V = LaunchModel;

    open spec fn view(&self) -> LaunchModel {
        LaunchModel {
            argv: texts(self.argv@),
            modules: texts(self.modules@),
            current_dir: match self.current_dir {
                Some(d) => Some(d@),
                None => None,
            },
            hide_console: self.hide_console,
        }
    }
}

impl LaunchSpec {
    /// After the attempt to hide the console, which is made only when
    /// `hide_console` is set: whether to report that hiding failed, and
    /// whether to show the console again once the wait ends. Neither bears
    /// on the launch's outcome.
    pub fn console_after_hiding(&self, hidden: bool) -> (r: (bool, bool))
        ensures
            r == (self.hide_console && !hidden, self.hide_console && hidden),
    {
        (self.hide_console && !hidden, self.hide_console && hidden)
    }
}

/// The helper's default command line: the helper, its configuration file
/// when one was found, and the verb.
pub open spec fn helper_command(exe: Seq<char>, helper_cfg: Option<Seq<char>>, verb: Seq<char>) -> Seq<Seq<char>> {
    let cfg = match helper_cfg {
        Some(p) => seq!["-c"@, p],
        None => seq![],
    };
    seq![exe] + cfg + seq![verb]
}

/// The mirror tool's command line: sync from `src` to `dst`, then the flags.
pub open spec fn mirror_command(exe: Seq<char>, src: Seq<char>, dst: Seq<char>, flags: Seq<Seq<char>>) -> Seq<Seq<char>> {
    seq![exe, "sync"@, src, dst] + flags
}

/// Where the sequence stands; the index is a position in the plan.
#[derive(Clone, Copy, Debug, PartialEq, Eq, Structural)]
pub enum Step {
    /// About to begin the phase at this position (or finish, past the end).
    Ready(usize),
    /// The phase's process was launched; its outcome is awaited.
    Launched(usize),
    /// The phase failed; the operator's answer is awaited.
    Asking(usize),
    Done,
}

/// What the program reports back after performing an action.
#[derive(Clone, Copy, Debug, PartialEq, Eq, Structural)]
pub enum Event {
    /// Begin, or go on after an announcement.
    Go,
    /// The launched process ended with this exit code.
    Exited(u32),
    /// The launched process ended without an exit code.
    Abnormal,
    /// The process could not be launched.
    LaunchFailed(PopenError),
    /// The operator answered whether to continue.
    Answered(bool),
}

pub enum ActionModel {
    Announce(Phase, Seq<Seq<char>>),
    Launch(Phase, LaunchModel),
    Ask(Phase),
    Finish(Result<(), Error>),
}

/// What the program is to do next.
#[derive(Debug)]
pub enum Action {
    /// Show the phase's command line instead of running it.
    Announce(Phase, Vec<String>),
    /// Launch the phase's process and wait for its whole group.
    Launch(Phase, LaunchSpec),
    /// Ask the operator whether to continue after the phase failed.
    Ask(Phase),
    /// The sequence is over.
    Finish(Result<(), Error>),
}

impl View for Action {
    type V = ActionModel;

    open spec fn view(&self) -> ActionModel {
        match self {
            Action::Announce(p, c) => ActionModel::Announce(*p, texts(c@)),
            Action::Launch(p, l) => ActionModel::Launch(*p, l@),
            Action::Ask(p) => ActionModel::Ask(*p),
            Action::Finish(r) => ActionModel::Finish(*r),
        }
    }
}

/// Drives the phases of one invocation.
#[derive(Debug)]
pub struct Main {
    pub cfg: Config,
    /// The helper's configuration file, when it exists.
    pub backuper_cfg: Option<String>,
    pub dryrun: bool,
    pub rclone_enable: bool,
    pub skip_restore: bool,
    pub backup_only: bool,
    pub run_only: bool,
}

/// The mirror is enabled when both of its locations are configured.
pub open spec fn mirror_configured(cfg: Config) -> bool {
    text_of(cfg.value_spec("rclone_remote"@)) is Some && text_of(cfg.value_spec("rclone_local"@)) is Some
}

/// A program to launch is configured.
pub open spec fn game_exe_set(cfg: Config) -> bool {
    match text_list_of(cfg.value_spec("game_exe"@)) {
        Some(argv) => argv.len() > 0,
        None => false,
    }
}

impl Main {
    pub open spec fn wf(&self) -> bool {
        &&& self.rclone_enable == mirror_configured(self.cfg)
        &&& game_exe_set(self.cfg)
    }

    pub open spec fn helper_cfg_spec(&self) -> Option<Seq<char>> {
        match self.backuper_cfg {
            Some(p) => Some(p@),
            None => None,
        }
    }

    /// The phases that run, in order.
    pub open spec fn plan_spec(&self) -> Seq<Phase> {
        let mirror_restore = if self.rclone_enable { seq![Phase::RemoteRestore] } else { seq![] };
        let restores = if !self.run_only && !self.skip_restore && !self.backup_only {
            mirror_restore + seq![Phase::LocalRestore]
        } else {
            seq![]
        };
        let run = if self.run_only || !self.backup_only { seq![Phase::Run] } else { seq![] };
        let mirror_backup = if self.rclone_enable { seq![Phase::RemoteBackup] } else { seq![] };
        let backups = if !self.run_only { seq![Phase::LocalBackup] + mirror_backup } else { seq![] };
        restores + run + backups
    }

    /// The command line of a phase: a configured one replaces the default.
    pub open spec fn command_spec(&self, phase: Phase) -> Seq<Seq<char>> {
        let cfg = self.cfg;
        let exe = text_or(cfg.value_spec("game_backuper_exe"@), "game-backuper"@);
        let remote = text_of(cfg.value_spec("rclone_remote"@)).unwrap();
        let local = text_of(cfg.value_spec("rclone_local"@)).unwrap();
        let tool = text_or(cfg.value_spec("rclone_exe"@), "rclone"@);
        let flags = list_or(cfg.value_spec("rclone_flag"@), seq!["-P"@]);
        match phase {
            Phase::RemoteRestore => mirror_command(tool, remote, local, flags),
            Phase::LocalRestore => match text_list_of(cfg.value_spec("restore_command"@)) {
                Some(c) => c,
                None => helper_command(exe, self.helper_cfg_spec(), "restore"@),
            },
            Phase::Run => text_list_of(cfg.value_spec("game_exe"@)).unwrap(),
            Phase::LocalBackup => match text_list_of(cfg.value_spec("backup_command"@)) {
                Some(c) => c,
                None => helper_command(exe, self.helper_cfg_spec(), "backup"@),
            },
            Phase::RemoteBackup => mirror_command(tool, local, remote, flags),
        }
    }

    /// What is launched for a phase: only the run loads modules, changes
    /// directory and hides the console.
    pub open spec fn launch_spec(&self, phase: Phase) -> LaunchModel {
        let cfg = self.cfg;
        if phase == Phase::Run {
            LaunchModel {
                argv: self.command_spec(phase),
                modules: list_or(cfg.value_spec("hook_dll"@), seq![]),
                current_dir: text_of(cfg.value_spec("current_dir"@)),
                hide_console: bool_or(cfg.value_spec("hide_window_when_running_exe"@), true),
            }
        } else {
            LaunchModel { argv: self.command_spec(phase), modules: seq![], current_dir: None, hide_console: false }
        }
    }

    pub fn new(cfg: Config, backuper_cfg: Option<String>, dryrun: bool, skip_restore: bool, backup_only: bool, run_only: bool) -> (r: Main)
        requires
            game_exe_set(cfg),
        ensures
            r.wf(),
            r.cfg == cfg,
            r.backuper_cfg == backuper_cfg,
            r.dryrun == dryrun,
            r.skip_restore == skip_restore,
            r.backup_only == backup_only,
            r.run_only == run_only,
    {
        let rclone_enable = cfg.rclone_remote().is_some() && cfg.rclone_local().is_some();
        Main { cfg, backuper_cfg, dryrun, rclone_enable, skip_restore, backup_only, run_only }
    }

    /// The phases that run, in order.
    pub fn plan(&self) -> (r: Vec<Phase>)
        ensures
            r@ == self.plan_spec(),
    {
        let mut r: Vec<Phase> = Vec::new();
        if !self.run_only && !self.skip_restore && !self.backup_only {
            if self.rclone_enable {
                r.push(Phase::RemoteRestore);
            }
            r.push(Phase::LocalRestore);
        }
        if self.run_only || !self.backup_only {
            r.push(Phase::Run);
        }
        if !self.run_only {
            r.push(Phase::LocalBackup);
            if self.rclone_enable {
                r.push(Phase::RemoteBackup);
            }
        }
        assert(r@ =~= self.plan_spec());
        r
    }

    fn helper_command_line(&self, verb: &str) -> (r: Vec<String>)
        ensures
            texts(r@) == helper_command(
                text_or(self.cfg.value_spec("game_backuper_exe"@), "game-backuper"@),
                self.helper_cfg_spec(),
                verb@,
            ),
    {
        let mut r: Vec<String> = Vec::new();
        r.push(self.cfg.game_backuper_exe());
        match &self.backuper_cfg {
            Some(p) => {
                r.push("-c".to_owned());
                r.push(p.clone());
            },
            None => {},
        }
        r.push(verb.to_owned());
        assert(texts(r@) =~= helper_command(
            text_or(self.cfg.value_spec("game_backuper_exe"@), "game-backuper"@),
            self.helper_cfg_spec(),
            verb@,
        ));
        r
    }

    fn mirror_command_line(&self, src: &str, dst: &str) -> (r: Vec<String>)
        ensures
            texts(r@) == mirror_command(
                text_or(self.cfg.value_spec("rclone_exe"@), "rclone"@),
                src@,
                dst@,
                list_or(self.cfg.value_spec("rclone_flag"@), seq!["-P"@]),
            ),
    {
        let mut r: Vec<String> = Vec::new();
        r.push(self.cfg.rclone_exe());
        r.push("sync".to_owned());
        r.push(src.to_owned());
        r.push(dst.to_owned());
        let mut flags = self.cfg.rclone_flag();
        let ghost head = r@;
        let ghost fl = flags@;
        r.append(&mut flags);
        assert(r@ == head + fl);
        assert(texts(r@) =~= texts(head) + texts(fl));
        r
    }

    /// The command line of a phase.
    pub fn command_line(&self, phase: Phase) -> (r: Vec<String>)
        requires
            self.wf(),
            phase == Phase::RemoteRestore || phase == Phase::RemoteBackup ==> self.rclone_enable,
        ensures
            texts(r@) == self.command_spec(phase),
    {
        match phase {
            Phase::RemoteRestore | Phase::RemoteBackup => {
                match (self.cfg.rclone_remote(), self.cfg.rclone_local()) {
                    (Some(remote), Some(local)) => {
                        if phase == Phase::RemoteRestore {
                            self.mirror_command_line(remote, local)
                        } else {
                            self.mirror_command_line(local, remote)
                        }
                    },
                    _ => {
                        assert(false);
                        Vec::new()
                    },
                }
            },
            Phase::LocalRestore => match self.cfg.restore_command() {
                Some(c) => c,
                None => self.helper_command_line("restore"),
            },
            Phase::Run => match self.cfg.game_exe() {
                Some(c) => c,
                None => {
                    assert(false);
                    Vec::new()
                },
            },
            Phase::LocalBackup => match self.cfg.backup_command() {
                Some(c) => c,
                None => self.helper_command_line("backup"),
            },
        }
    }


    /// Begins the phase at position `i`, or finishes when none is left.
    pub open spec fn advance_spec(&self, i: int) -> (Step, ActionModel) {
        let plan = self.plan_spec();
        if i >= plan.len() {
            (Step::Done, ActionModel::Finish(Ok(())))
        } else if self.dryrun {
            (Step::Ready((i + 1) as usize), ActionModel::Announce(plan[i], self.command_spec(plan[i])))
        } else {
            (Step::Launched(i as usize), ActionModel::Launch(plan[i], self.launch_spec(plan[i])))
        }
    }

    /// What a failed phase at position `i` leads to.
    pub open spec fn failure_spec(&self, i: int) -> (Step, ActionModel) {
        let phase = self.plan_spec()[i];
        let ask = (Step::Asking(i as usize), ActionModel::Ask(phase));
        match phase {
            Phase::Run => if bool_or(self.cfg.value_spec("continue_when_run_failed"@), false) {
                self.advance_spec(i + 1)
            } else {
                ask
            },
            Phase::LocalBackup => if self.rclone_enable {
                ask
            } else {
                (Step::Done, ActionModel::Finish(Err(Error::Exited)))
            },
            _ => ask,
        }
    }

    /// Whether an event is one that the step awaits.
    pub open spec fn fits(&self, step: Step, event: Event) -> bool {
        let n = self.plan_spec().len();
        match step {
            Step::Ready(i) => event is Go && i <= n,
            Step::Launched(i) => i < n && (event is Exited || event is Abnormal || event is LaunchFailed),
            Step::Asking(i) => i < n && event is Answered,
            Step::Done => false,
        }
    }

    /// The next step and action after an event.
    pub open spec fn step_spec(&self, step: Step, event: Event) -> (Step, ActionModel) {
        match step {
            Step::Ready(i) => self.advance_spec(i as int),
            Step::Launched(i) => match event {
                Event::Exited(code) => if code == 0 {
                    self.advance_spec(i + 1)
                } else {
                    self.failure_spec(i as int)
                },
                Event::LaunchFailed(e) => (Step::Done, ActionModel::Finish(Err(Error::Popen(e)))),
                _ => self.failure_spec(i as int),
            },
            Step::Asking(i) => match event {
                Event::Answered(true) => self.advance_spec(i + 1),
                _ => (Step::Done, ActionModel::Finish(Err(Error::Exited))),
            },
            Step::Done => (Step::Done, ActionModel::Finish(Ok(()))),
        }
    }

    /// What to launch for a phase.
    pub fn launch(&self, phase: Phase) -> (r: LaunchSpec)
        requires
            self.wf(),
            phase == Phase::RemoteRestore || phase == Phase::RemoteBackup ==> self.rclone_enable,
        ensures
            r@ == self.launch_spec(phase),
    {
        let argv = self.command_line(phase);
        if phase == Phase::Run {
            let current_dir = match self.cfg.current_dir() {
                Some(d) => Some(d.to_owned()),
                None => None,
            };
            LaunchSpec {
                argv,
                modules: self.cfg.hook_dll(),
                current_dir,
                hide_console: self.cfg.hide_window_when_running_exe(),
            }
        } else {
            let r = LaunchSpec { argv, modules: Vec::new(), current_dir: None, hide_console: false };
            assert(texts(r.modules@) =~= seq![]);
            r
        }
    }

    fn advance(&self, i: usize) -> (r: (Step, Action))
        requires
            self.wf(),
            i <= self.plan_spec().len(),
        ensures
            (r.0, r.1@) == self.advance_spec(i as int),
    {
        let plan = self.plan();
        if i >= plan.len() {
            return (Step::Done, Action::Finish(Ok(())));
        }
        let phase = plan[i];
        if self.dryrun {
            (Step::Ready(i + 1), Action::Announce(phase, self.command_line(phase)))
        } else {
            (Step::Launched(i), Action::Launch(phase, self.launch(phase)))
        }
    }

    fn on_failure(&self, i: usize) -> (r: (Step, Action))
        requires
            self.wf(),
            i < self.plan_spec().len(),
        ensures
            (r.0, r.1@) == self.failure_spec(i as int),
    {
        let plan = self.plan();
        let phase = plan[i];
        match phase {
            Phase::Run => {
                if self.cfg.continue_when_run_failed() {
                    return self.advance(i + 1);
                }
            },
            Phase::LocalBackup => {
                if !self.rclone_enable {
                    return (Step::Done, Action::Finish(Err(Error::Exited)));
                }
            },
            _ => {},
        }
        (Step::Asking(i), Action::Ask(phase))
    }

    /// Takes the sequence one step further: from where it stands and what
    /// the program reports, to where it stands next and what to do.
    pub fn run(&self, step: Step, event: Event) -> (r: (Step, Action))
        requires
            self.wf(),
            self.fits(step, event),
        ensures
            (r.0, r.1@) == self.step_spec(step, event),
    {
        match step {
            Step::Ready(i) => self.advance(i),
            Step::Launched(i) => match event {
                Event::Exited(code) => if code == 0 {
                    self.advance(i + 1)
                } else {
                    self.on_failure(i)
                },
                Event::LaunchFailed(e) => (Step::Done, Action::Finish(Err(Error::Popen(e)))),
                _ => self.on_failure(i),
            },
            Step::Asking(i) => match event {
                Event::Answered(true) => self.advance(i + 1),
                _ => (Step::Done, Action::Finish(Err(Error::Exited))),
            },
            Step::Done => (Step::Done, Action::Finish(Ok(()))),
        }
    }

    /// Whether to wait for the operator before exiting: always when so
    /// configured, or after a failure when so configured.
    pub fn pause_at_end(&self, failed: bool) -> (r: bool)
        ensures
            r == (bool_or(self.cfg.value_spec("pause_at_exit"@), false) || (failed && bool_or(
                self.cfg.value_spec("pause_on_backup_error"@),
                false,
            ))),
    {
        self.cfg.pause_at_exit() || (failed && self.cfg.pause_on_backup_error())
    }
}

/// Checks what must hold before any phase runs, then builds the sequence.
/// Fails with `GameExeUnset` exactly when no program to launch is configured.
pub fn start(cfg: Config, backuper_cfg: Option<String>, dryrun: bool, skip_restore: bool, backup_only: bool, run_only: bool) -> (r: Result<Main, Error>)
    ensures
        r is Err <==> !game_exe_set(cfg),
        r is Err ==> r == Err::<Main, Error>(Error::GameExeUnset),
        match r {
            Ok(m) => m.wf() && m.cfg == cfg && m.backuper_cfg == backuper_cfg && m.dryrun == dryrun
                && m.skip_restore == skip_restore && m.backup_only == backup_only && m.run_only == run_only,
            Err(_) => true,
        },
{
    let set = match cfg.game_exe() {
        Some(argv) => argv.len() > 0,
        None => false,
    };
    if !set {
        return Err(Error::GameExeUnset);
    }
    Ok(Main::new(cfg, backuper_cfg, dryrun, skip_restore, backup_only, run_only))
}


/// A dry run launches nothing and reports every phase as succeeded: from any
/// step, it never asks for a launch, and beginning a phase announces it and
/// moves on to the next.
pub proof fn lemma_dry_run_never_launches(m: Main, step: Step, event: Event)
    requires
        m.wf(),
        m.dryrun,
        m.fits(step, event),
    ensures
        !(m.step_spec(step, event).1 is Launch),
        step matches Step::Ready(i) ==> (m.step_spec(step, event).1 is Announce && m.step_spec(step, event).0
            == Step::Ready((i + 1) as usize)) || m.step_spec(step, event).1 == ActionModel::Finish(Ok(())),
{
}

/// The command line that a dry run announces for a phase is the one that the
/// same invocation without a dry run launches.
pub proof fn lemma_dry_run_announces_live_command(m: Main, i: usize)
    requires
        m.wf(),
        m.dryrun,
        i < m.plan_spec().len(),
    ensures
        ({
            let live = Main { dryrun: false, ..m };
            let phase = m.plan_spec()[i as int];
            &&& m.step_spec(Step::Ready(i), Event::Go) == (Step::Ready((i + 1) as usize), ActionModel::Announce(
                phase,
                m.command_spec(phase),
            ))
            &&& live.step_spec(Step::Ready(i), Event::Go) == (Step::Launched(i), ActionModel::Launch(
                phase,
                live.launch_spec(phase),
            ))
            &&& live.launch_spec(phase).argv == m.command_spec(phase)
        }),
{
    let live = Main { dryrun: false, ..m };
    assert(live.plan_spec() =~= m.plan_spec());
}

/// Without a mirror the mirror phases are never planned, and a failed local
/// backup ends the sequence in failure without asking.
pub proof fn lemma_no_mirror_backup_failure_is_fatal(m: Main, i: usize, event: Event)
    requires
        m.wf(),
        !m.rclone_enable,
        i < m.plan_spec().len(),
        m.plan_spec()[i as int] == Phase::LocalBackup,
        event is Abnormal || (event matches Event::Exited(code) && code != 0),
    ensures
        !m.plan_spec().contains(Phase::RemoteRestore),
        !m.plan_spec().contains(Phase::RemoteBackup),
        m.step_spec(Step::Launched(i), event) == (Step::Done, ActionModel::Finish(Err(Error::Exited))),
{
    let plan = m.plan_spec();
    assert(!plan.contains(Phase::RemoteRestore)) by {
        if plan.contains(Phase::RemoteRestore) {
            let k = choose|k: int| 0 <= k < plan.len() && plan[k] == Phase::RemoteRestore;
            assert(plan[k] == Phase::RemoteRestore);
        }
    }
    assert(!plan.contains(Phase::RemoteBackup)) by {
        if plan.contains(Phase::RemoteBackup) {
            let k = choose|k: int| 0 <= k < plan.len() && plan[k] == Phase::RemoteBackup;
            assert(plan[k] == Phase::RemoteBackup);
        }
    }
}

/// With a mirror, a failed local backup asks the operator, and acceptance
/// goes on to the mirror backup.
pub proof fn lemma_mirror_backup_after_accepted_failure(m: Main, i: usize, event: Event)
    requires
        m.wf(),
        m.rclone_enable,
        i < m.plan_spec().len(),
        m.plan_spec()[i as int] == Phase::LocalBackup,
        event is Abnormal || (event matches Event::Exited(code) && code != 0),
    ensures
        m.step_spec(Step::Launched(i), event) == (Step::Asking(i), ActionModel::Ask(Phase::LocalBackup)),
        i + 1 < m.plan_spec().len(),
        m.plan_spec()[i + 1] == Phase::RemoteBackup,
        m.step_spec(Step::Asking(i), Event::Answered(true)) == m.advance_spec(i + 1),
{
}

/// Run-only plans the run alone: no restore or backup command is used.
pub proof fn lemma_run_only_plans_run(m: Main)
    requires
        m.run_only,
    ensures
        m.plan_spec() == seq![Phase::Run],
{
    assert(m.plan_spec() =~= seq![Phase::Run]);
}

/// A configured backup command is the backup phase's command line, as it is.
pub proof fn lemma_backup_override_verbatim(m: Main, c: Seq<Seq<char>>)
    requires
        text_list_of(m.cfg.value_spec("backup_command"@)) == Some(c),
    ensures
        m.command_spec(Phase::LocalBackup) == c,
{
}

} // verus!
