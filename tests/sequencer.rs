use game_auto_sync::config::Config;
use game_auto_sync::sequencer::{start, Action, Error, Event, Main, Phase, Step};
use game_auto_sync::supervisor::PopenError;

const BASE: &str = "game_exe: [game.exe, -w]\n";
const MIRROR: &str = "game_exe: [game.exe, -w]\nrclone_remote: 'remote:saves'\nrclone_local: ./saves\n";

fn strings(v: &[&str]) -> Vec<String> {
    v.iter().map(|s| s.to_string()).collect()
}

fn main_of(text: &str, dryrun: bool, skip_restore: bool, backup_only: bool, run_only: bool) -> Main {
    start(Config::from_str(text).unwrap(), None, dryrun, skip_restore, backup_only, run_only).unwrap()
}

#[derive(Debug, PartialEq)]
enum Seen {
    Announced(Phase, Vec<String>),
    Launched(Phase, Vec<String>),
    Asked(Phase),
}

/// Runs the sequence, answering each launch with `outcome` and each question
/// with `answer`.
fn drive(m: &Main, outcome: &dyn Fn(Phase) -> Event, answer: bool) -> (Vec<Seen>, Result<(), Error>) {
    let mut seen = Vec::new();
    let mut step = Step::Ready(0);
    let mut event = Event::Go;
    loop {
        let (next, action) = m.run(step, event);
        step = next;
        match action {
            Action::Announce(p, c) => {
                seen.push(Seen::Announced(p, c));
                event = Event::Go;
            }
            Action::Launch(p, l) => {
                seen.push(Seen::Launched(p, l.argv));
                event = outcome(p);
            }
            Action::Ask(p) => {
                seen.push(Seen::Asked(p));
                event = Event::Answered(answer);
            }
            Action::Finish(r) => return (seen, r),
        }
    }
}

fn launched(seen: &[Seen]) -> Vec<Phase> {
    seen.iter()
        .filter_map(|s| match s {
            Seen::Launched(p, _) => Some(*p),
            _ => None,
        })
        .collect()
}

#[test]
fn unset_game_exe_fails_at_start() {
    let c = Config::from_str("rclone_exe: rc\n").unwrap();
    assert!(matches!(start(c, None, false, false, false, false), Err(Error::GameExeUnset)));
}

#[test]
fn empty_game_exe_fails_at_start() {
    let c = Config::from_str("game_exe: []\n").unwrap();
    assert!(matches!(start(c, None, false, false, false, false), Err(Error::GameExeUnset)));
}

#[test]
fn new_keeps_the_switches_and_sees_the_mirror() {
    let m = Main::new(Config::from_str(MIRROR).unwrap(), Some("h.yml".to_string()), true, true, false, true);
    assert!(m.dryrun && m.skip_restore && !m.backup_only && m.run_only);
    assert!(m.rclone_enable);
    assert_eq!(m.backuper_cfg, Some("h.yml".to_string()));
    let half = "game_exe: g\nrclone_remote: r\n";
    assert!(!main_of(half, false, false, false, false).rclone_enable);
}

#[test]
fn default_plan() {
    let m = main_of(BASE, false, false, false, false);
    assert_eq!(m.plan(), vec![Phase::LocalRestore, Phase::Run, Phase::LocalBackup]);
}

#[test]
fn mirror_plan() {
    let m = main_of(MIRROR, false, false, false, false);
    assert_eq!(
        m.plan(),
        vec![Phase::RemoteRestore, Phase::LocalRestore, Phase::Run, Phase::LocalBackup, Phase::RemoteBackup]
    );
}

#[test]
fn switches_gate_the_plan() {
    assert_eq!(main_of(MIRROR, false, false, false, true).plan(), vec![Phase::Run]);
    assert_eq!(
        main_of(MIRROR, false, false, true, false).plan(),
        vec![Phase::LocalBackup, Phase::RemoteBackup]
    );
    assert_eq!(
        main_of(MIRROR, false, true, false, false).plan(),
        vec![Phase::Run, Phase::LocalBackup, Phase::RemoteBackup]
    );
    assert_eq!(main_of(BASE, false, true, true, true).plan(), vec![Phase::Run]);
}

#[test]
fn default_helper_commands() {
    let m = main_of(BASE, false, false, false, false);
    assert_eq!(m.command_line(Phase::LocalBackup), strings(&["game-backuper", "backup"]));
    assert_eq!(m.command_line(Phase::LocalRestore), strings(&["game-backuper", "restore"]));
    assert_eq!(m.command_line(Phase::Run), strings(&["game.exe", "-w"]));
}

#[test]
fn helper_config_is_passed_when_found() {
    let c = Config::from_str("game_exe: g\ngame_backuper_exe: gb\n").unwrap();
    let m = start(c, Some("/opt/gb.yml".to_string()), false, false, false, false).unwrap();
    assert_eq!(m.command_line(Phase::LocalBackup), strings(&["gb", "-c", "/opt/gb.yml", "backup"]));
    assert_eq!(m.command_line(Phase::LocalRestore), strings(&["gb", "-c", "/opt/gb.yml", "restore"]));
}

#[test]
fn backup_override_is_used_verbatim() {
    let text = "game_exe: g\nbackup_command: [my-backup, --all, 3]\nrestore_command: my-restore\n";
    let c = Config::from_str(text).unwrap();
    let m = start(c, Some("/opt/gb.yml".to_string()), false, false, false, false).unwrap();
    assert_eq!(m.command_line(Phase::LocalBackup), strings(&["my-backup", "--all", "3"]));
    assert_eq!(m.command_line(Phase::LocalRestore), strings(&["my-restore"]));
}

#[test]
fn mirror_commands_sync_in_both_directions() {
    let m = main_of(MIRROR, false, false, false, false);
    assert_eq!(
        m.command_line(Phase::RemoteRestore),
        strings(&["rclone", "sync", "remote:saves", "./saves", "-P"])
    );
    assert_eq!(
        m.command_line(Phase::RemoteBackup),
        strings(&["rclone", "sync", "./saves", "remote:saves", "-P"])
    );
    let m = main_of(&format!("{}rclone_flag: [-v, -q]\n", MIRROR), false, false, false, false);
    assert_eq!(
        m.command_line(Phase::RemoteBackup),
        strings(&["rclone", "sync", "./saves", "remote:saves", "-v", "-q"])
    );
}

#[test]
fn only_the_run_loads_modules() {
    let text = "game_exe: g\nhook_dll: [a.dll, b.dll]\ncurrent_dir: /g\n";
    let m = main_of(text, false, false, false, false);
    let run = m.launch(Phase::Run);
    assert_eq!(run.modules, strings(&["a.dll", "b.dll"]));
    assert_eq!(run.current_dir, Some("/g".to_string()));
    assert!(run.hide_console);
    let backup = m.launch(Phase::LocalBackup);
    assert!(backup.modules.is_empty());
    assert_eq!(backup.current_dir, None);
    assert!(!backup.hide_console);
}

#[test]
fn all_phases_succeed() {
    let m = main_of(MIRROR, false, false, false, false);
    let (seen, r) = drive(&m, &|_| Event::Exited(0), false);
    assert_eq!(r, Ok(()));
    assert_eq!(
        launched(&seen),
        vec![Phase::RemoteRestore, Phase::LocalRestore, Phase::Run, Phase::LocalBackup, Phase::RemoteBackup]
    );
}

#[test]
fn dry_run_announces_what_a_live_run_launches() {
    let dry = main_of(MIRROR, true, false, false, false);
    let live = main_of(MIRROR, false, false, false, false);
    let (dseen, dr) = drive(&dry, &|_| Event::Exited(1), false);
    let (lseen, lr) = drive(&live, &|_| Event::Exited(0), false);
    assert_eq!(dr, Ok(()));
    assert_eq!(lr, Ok(()));
    assert!(launched(&dseen).is_empty());
    let announced: Vec<(Phase, Vec<String>)> = dseen
        .into_iter()
        .map(|s| match s {
            Seen::Announced(p, c) => (p, c),
            other => panic!("unexpected {:?}", other),
        })
        .collect();
    let executed: Vec<(Phase, Vec<String>)> = lseen
        .into_iter()
        .map(|s| match s {
            Seen::Launched(p, c) => (p, c),
            other => panic!("unexpected {:?}", other),
        })
        .collect();
    assert_eq!(announced, executed);
}

#[test]
fn without_mirror_failed_backup_is_fatal() {
    let m = main_of(BASE, false, false, false, false);
    let (seen, r) = drive(&m, &|p| if p == Phase::LocalBackup { Event::Exited(2) } else { Event::Exited(0) }, true);
    assert_eq!(r, Err(Error::Exited));
    assert!(!seen.iter().any(|s| matches!(s, Seen::Asked(_))));
    assert!(!launched(&seen).contains(&Phase::RemoteBackup));
    assert!(!launched(&seen).contains(&Phase::RemoteRestore));
}

#[test]
fn with_mirror_accepted_backup_failure_still_mirrors() {
    let m = main_of(MIRROR, false, false, false, false);
    let (seen, r) = drive(&m, &|p| if p == Phase::LocalBackup { Event::Abnormal } else { Event::Exited(0) }, true);
    assert_eq!(r, Ok(()));
    let n = seen.len();
    assert_eq!(seen[n - 2], Seen::Asked(Phase::LocalBackup));
    assert!(matches!(seen[n - 1], Seen::Launched(Phase::RemoteBackup, _)));
}

#[test]
fn with_mirror_declined_backup_failure_aborts() {
    let m = main_of(MIRROR, false, false, false, false);
    let (seen, r) = drive(&m, &|p| if p == Phase::LocalBackup { Event::Exited(1) } else { Event::Exited(0) }, false);
    assert_eq!(r, Err(Error::Exited));
    assert!(!launched(&seen).contains(&Phase::RemoteBackup));
}

#[test]
fn run_only_launches_only_the_run() {
    let text = "game_exe: g\nbackup_command: b\nrestore_command: r\n";
    let m = main_of(text, false, false, false, true);
    let (seen, r) = drive(&m, &|_| Event::Exited(0), false);
    assert_eq!(r, Ok(()));
    assert_eq!(seen, vec![Seen::Launched(Phase::Run, strings(&["g"]))]);
}

#[test]
fn restore_failure_asks_and_decline_aborts() {
    let m = main_of(BASE, false, false, false, false);
    let (seen, r) = drive(&m, &|p| if p == Phase::LocalRestore { Event::Exited(5) } else { Event::Exited(0) }, false);
    assert_eq!(r, Err(Error::Exited));
    assert_eq!(launched(&seen), vec![Phase::LocalRestore]);
    assert_eq!(seen[1], Seen::Asked(Phase::LocalRestore));
}

#[test]
fn restore_failure_accepted_goes_on_to_run() {
    let m = main_of(MIRROR, false, false, false, false);
    let (seen, r) = drive(&m, &|p| if p == Phase::RemoteRestore { Event::Exited(5) } else { Event::Exited(0) }, true);
    assert_eq!(r, Ok(()));
    assert_eq!(seen[1], Seen::Asked(Phase::RemoteRestore));
    assert!(launched(&seen).contains(&Phase::Run));
}

#[test]
fn run_failure_declined_skips_backups() {
    let m = main_of(MIRROR, false, true, false, false);
    let (seen, r) = drive(&m, &|p| if p == Phase::Run { Event::Exited(1) } else { Event::Exited(0) }, false);
    assert_eq!(r, Err(Error::Exited));
    assert_eq!(launched(&seen), vec![Phase::Run]);
}

#[test]
fn run_failure_goes_on_without_asking_when_configured() {
    let m = main_of("game_exe: g\ncontinue_when_run_failed: true\n", false, true, false, false);
    let (seen, r) = drive(&m, &|p| if p == Phase::Run { Event::Exited(1) } else { Event::Exited(0) }, false);
    assert_eq!(r, Ok(()));
    assert!(!seen.iter().any(|s| matches!(s, Seen::Asked(_))));
    assert_eq!(launched(&seen), vec![Phase::Run, Phase::LocalBackup]);
}

#[test]
fn remote_backup_failure_asks_and_accept_succeeds() {
    let m = main_of(MIRROR, false, true, false, false);
    let (seen, r) = drive(&m, &|p| if p == Phase::RemoteBackup { Event::Exited(1) } else { Event::Exited(0) }, true);
    assert_eq!(r, Ok(()));
    assert_eq!(seen.last(), Some(&Seen::Asked(Phase::RemoteBackup)));
    let (_, r) = drive(&m, &|p| if p == Phase::RemoteBackup { Event::Exited(1) } else { Event::Exited(0) }, false);
    assert_eq!(r, Err(Error::Exited));
}

#[test]
fn launch_error_aborts_the_sequence() {
    let m = main_of(BASE, false, false, false, false);
    let (seen, r) = drive(&m, &|_| Event::LaunchFailed(PopenError::CreateJobFailed), true);
    assert_eq!(r, Err(Error::Popen(PopenError::CreateJobFailed)));
    assert_eq!(launched(&seen), vec![Phase::LocalRestore]);
}

#[test]
fn pause_follows_configuration() {
    let m = main_of(BASE, false, false, false, false);
    assert!(!m.pause_at_end(true));
    let m = main_of("game_exe: g\npause_on_backup_error: true\n", false, false, false, false);
    assert!(m.pause_at_end(true));
    assert!(!m.pause_at_end(false));
    let m = main_of("game_exe: g\npause_at_exit: true\n", false, false, false, false);
    assert!(m.pause_at_end(false));
}

#[test]
fn console_is_shown_again_only_when_hidden() {
    let m = main_of(BASE, false, false, false, false);
    let run = m.launch(Phase::Run);
    assert_eq!(run.console_after_hiding(true), (false, true));
    assert_eq!(run.console_after_hiding(false), (true, false));
    let backup = m.launch(Phase::LocalBackup);
    assert_eq!(backup.console_after_hiding(false), (false, false));
}
