use session_persistence::actor::ModelSwitchCommitError;
use session_persistence::io_error::{ErrorKind, IoError};
use session_persistence::model_switch::{
    Journal, ModelSwitch, SwitchEvent, SwitchOutcome, SwitchStep, switch_patch,
};

fn denied() -> IoError {
    IoError::new(ErrorKind::PermissionDenied, "denied")
}

/// Runs a switch over a journal; the step whose name is `failing` fails, and
/// the journal is found there after that as `left` says.
fn run(
    mut switch: ModelSwitch,
    journal: Result<Journal, IoError>,
    failing: &str,
    left: bool,
) -> (SwitchOutcome, Vec<String>) {
    let mut journal = Some(journal);
    let mut steps = Vec::new();
    loop {
        let name = format!("{:?}", switch.step);
        let event = match &switch.step {
            SwitchStep::Finished(_) => break,
            SwitchStep::ReadJournal => SwitchEvent::JournalRead(journal.take().unwrap()),
            SwitchStep::ProbeJournal { .. } => SwitchEvent::JournalProbed(left),
            SwitchStep::Unlock { .. } => SwitchEvent::Unlocked,
            _ if name == failing => SwitchEvent::Done(Err(denied())),
            _ => SwitchEvent::Done(Ok(())),
        };
        steps.push(name);
        switch = switch.step(event);
    }
    match switch.step {
        SwitchStep::Finished(outcome) => (outcome, steps),
        step => panic!("{step:?}"),
    }
}

#[test]
fn a_switch_goes_through_the_journal() {
    let (outcome, steps) = run(ModelSwitch::commit(), Ok(Journal::Absent), "", false);
    assert!(outcome.into_result().is_ok());
    assert_eq!(
        &steps[..7],
        &[
            "Lock",
            "ReadJournal",
            "WriteIntent",
            "WriteChat { recovering: false }",
            "PatchSummary { recovering: false }",
            "RemoveJournal { recovering: false }",
            "SyncDirectory { recovering: false }"
        ]
    );
    assert_eq!(steps.len(), 8);
}

#[test]
fn a_journal_found_is_carried_out_first() {
    let (outcome, steps) =
        run(ModelSwitch::commit(), Ok(Journal::Intent { version: 1 }), "", false);
    assert!(matches!(outcome, SwitchOutcome::Done));
    let place = |name: &str| steps.iter().position(|s| s == name).unwrap();
    assert!(place("SyncDirectory { recovering: true }") < place("WriteIntent"));
    let (outcome, steps) =
        run(ModelSwitch::recover(), Ok(Journal::Intent { version: 1 }), "", false);
    assert!(outcome.into_recovery().is_ok());
    assert!(!steps.iter().any(|s| s == "WriteIntent"));
    let (outcome, steps) = run(ModelSwitch::recover(), Ok(Journal::Absent), "", false);
    assert!(outcome.into_recovery().is_ok());
    assert_eq!(steps.len(), 3);
}

#[test]
fn failures_tell_whether_the_switch_took_effect() {
    for (failing, left, committed) in [
        ("Lock", false, false),
        ("WriteIntent", false, false),
        ("WriteIntent", true, true),
        ("WriteChat { recovering: false }", true, true),
        ("PatchSummary { recovering: false }", true, true),
        ("RemoveJournal { recovering: false }", true, true),
        ("SyncDirectory { recovering: false }", true, true),
    ] {
        let (outcome, _) = run(ModelSwitch::commit(), Ok(Journal::Absent), failing, left);
        let e = outcome.into_result().unwrap_err();
        assert_eq!(e.is_committed(), committed, "{failing}");
    }
    let found = || Ok(Journal::Intent { version: 1 });
    let (outcome, _) =
        run(ModelSwitch::commit(), found(), "WriteChat { recovering: true }", true);
    assert!(matches!(
        outcome.into_result(),
        Err(ModelSwitchCommitError::NotCommitted(e)) if e.message == "denied"
    ));
}

#[test]
fn journals_that_are_not_understood_stop_a_switch() {
    let fail = |journal| {
        let (outcome, steps) = run(ModelSwitch::recover(), journal, "", false);
        assert!(steps.last().unwrap().starts_with("Unlock"));
        outcome.into_recovery().unwrap_err()
    };
    let e = fail(Ok(Journal::Intent { version: 12 }));
    assert_eq!(e.kind, ErrorKind::InvalidData);
    assert_eq!(e.message, "unsupported model-switch intent version 12");
    let e = fail(Ok(Journal::Malformed("expected value".to_string())));
    assert_eq!((e.kind, e.message.as_str()), (ErrorKind::InvalidData, "expected value"));
    assert_eq!(fail(Err(denied())).kind, ErrorKind::PermissionDenied);
}

#[test]
fn a_switch_sets_the_counters_of_the_summary() {
    let patch = switch_patch(
        &vec![None, Some(3), Some(7), Some(5)],
        "m".to_string(),
        Some("agent".to_string()),
        None,
    );
    assert_eq!(patch.chat_messages, 4);
    assert_eq!(patch.chat_format_version, 1);
    assert_eq!(patch.cwd_switch_bookkeeping_generation, 7);
    assert_eq!(patch.model_id, "m");
    assert_eq!(patch.agent_name.as_deref(), Some("agent"));
    assert_eq!(patch.reasoning_effort, None);
    let none = switch_patch(&Vec::new(), "m".to_string(), None, None);
    assert_eq!(none.cwd_switch_bookkeeping_generation, 0);
}

#[test]
fn another_change_of_the_chat_keeps_the_lock() {
    let (outcome, steps) = run(ModelSwitch::lock_mutation(), Ok(Journal::Absent), "", false);
    assert!(outcome.into_recovery().is_ok());
    assert_eq!(steps, ["Lock", "ReadJournal"]);
    let (outcome, steps) =
        run(ModelSwitch::lock_mutation(), Ok(Journal::Intent { version: 1 }), "", false);
    assert!(outcome.into_recovery().is_ok());
    assert_eq!(steps.last().map(String::as_str), Some("SyncDirectory { recovering: true }"));
    let (outcome, steps) =
        run(ModelSwitch::lock_mutation(), Ok(Journal::Intent { version: 2 }), "", false);
    let error = outcome.into_recovery().unwrap_err();
    assert_eq!(error.message, "unsupported model-switch intent version 2");
    assert!(steps.last().is_some_and(|step| step.starts_with("Unlock")));
}

/// What a session keeps on disk of a switch.
#[derive(Clone, Copy, PartialEq, Debug)]
struct Disk {
    journal: bool,
    chat: char,
    summary: char,
}

/// Carries out a switch to `to` on a disk; the step whose name is `failing`
/// fails without effect.
fn carried_out(mut switch: ModelSwitch, disk: &mut Disk, to: char, failing: &str) -> SwitchOutcome {
    loop {
        let name = format!("{:?}", switch.step);
        let fails = name == failing;
        let event = match &switch.step {
            SwitchStep::Finished(_) => break,
            SwitchStep::ReadJournal => SwitchEvent::JournalRead(Ok(match disk.journal {
                true => Journal::Intent { version: 1 },
                false => Journal::Absent,
            })),
            SwitchStep::ProbeJournal { .. } => SwitchEvent::JournalProbed(disk.journal),
            SwitchStep::Unlock { .. } => SwitchEvent::Unlocked,
            _ if fails => SwitchEvent::Done(Err(denied())),
            step => {
                match step {
                    SwitchStep::WriteIntent => disk.journal = true,
                    SwitchStep::WriteChat { .. } => disk.chat = to,
                    SwitchStep::PatchSummary { .. } => disk.summary = to,
                    SwitchStep::RemoveJournal { .. } => disk.journal = false,
                    _ => {}
                }
                SwitchEvent::Done(Ok(()))
            }
        };
        switch = switch.step(event);
    }
    match switch.step {
        SwitchStep::Finished(outcome) => outcome,
        step => panic!("{step:?}"),
    }
}

#[test]
fn recovery_finishes_a_switch_that_was_committed() {
    for failing in [
        "WriteChat { recovering: false }",
        "PatchSummary { recovering: false }",
        "RemoveJournal { recovering: false }",
        "SyncDirectory { recovering: false }",
    ] {
        let mut disk = Disk { journal: false, chat: 'a', summary: 'a' };
        let outcome = carried_out(ModelSwitch::commit(), &mut disk, 'b', failing);
        assert!(outcome.into_result().unwrap_err().is_committed(), "{failing}");
        let done = Disk { journal: false, chat: 'b', summary: 'b' };
        let outcome = carried_out(ModelSwitch::recover(), &mut disk, 'b', "");
        assert!(outcome.into_recovery().is_ok());
        assert_eq!(disk, done, "{failing}");
        let outcome = carried_out(ModelSwitch::recover(), &mut disk, 'b', "");
        assert!(outcome.into_recovery().is_ok());
        assert_eq!(disk, done, "a second recovery changes nothing");
    }
}

#[test]
fn a_failed_switch_keeps_the_code_of_the_system() {
    let full = || IoError {
        kind: ErrorKind::StorageFull,
        raw_os_error: Some(28),
        message: "no space".to_string(),
    };
    let (outcome, _) = run(ModelSwitch::commit(), Err(full()), "", false);
    match outcome.into_result() {
        Err(ModelSwitchCommitError::NotCommitted(e)) => assert_eq!(e.raw_os_error, Some(28)),
        other => panic!("{other:?}"),
    }
    let (outcome, _) = run(ModelSwitch::recover(), Err(full()), "", false);
    assert_eq!(outcome.into_recovery().unwrap_err().raw_os_error, Some(28));
}
