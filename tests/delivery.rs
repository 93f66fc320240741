use voice_sync::delivery::{Action, Delivery, Outcome, Report, LINGER_MS, SETTLE_MS};

/// Runs a delivery of `text` against a simulated host: `snapshot` is what
/// the clipboard holds, `write_ok` answers each clipboard write in turn and
/// `paste_ok` the paste shortcut. Returns every action asked for.
fn run(text: &str, snapshot: Option<&str>, write_ok: &[bool], paste_ok: bool) -> Vec<Action> {
    let (mut d, mut action) = Delivery::start(text.to_string());
    let mut actions = vec![action.clone()];
    let mut writes = 0;
    while !matches!(action, Action::Finish(_)) {
        let outcome = match &action {
            Action::ReadClipboard => Outcome::Read(snapshot.map(|s| s.to_string())),
            Action::WriteClipboard(_) => {
                let ok = write_ok[writes];
                writes += 1;
                if ok { Outcome::Succeeded } else { Outcome::Failed }
            }
            Action::Sleep(_) => Outcome::Succeeded,
            Action::Paste => {
                if paste_ok { Outcome::Succeeded } else { Outcome::Failed }
            }
            Action::Finish(_) => unreachable!(),
        };
        action = d.step(outcome);
        actions.push(action.clone());
    }
    assert!(d.is_done());
    actions
}

fn write(s: &str) -> Action {
    Action::WriteClipboard(s.to_string())
}

#[test]
fn hello_with_old_clipboard_is_written_pasted_and_restored() {
    let actions = run("hello", Some("old"), &[true, true], true);
    assert_eq!(
        actions,
        vec![
            Action::ReadClipboard,
            write("hello"),
            Action::Sleep(50),
            Action::Paste,
            Action::Sleep(100),
            write("old"),
            Action::Finish(Report { written: true, pasted: true, restored: Some(true) }),
        ]
    );
}

#[test]
fn pauses_are_fifty_then_one_hundred_ms() {
    assert_eq!(SETTLE_MS, 50);
    assert_eq!(LINGER_MS, 100);
}

#[test]
fn failed_write_of_x_stops_before_paste_and_restore() {
    let actions = run("x", Some("old"), &[false], true);
    assert_eq!(
        actions,
        vec![
            Action::ReadClipboard,
            write("x"),
            Action::Finish(Report { written: false, pasted: false, restored: None }),
        ]
    );
    assert_eq!(actions.iter().filter(|a| **a == Action::Paste).count(), 0);
    assert_eq!(actions.iter().filter(|a| **a == write("old")).count(), 0);
}

#[test]
fn failed_paste_still_restores() {
    let actions = run("hello", Some("old"), &[true, true], false);
    assert_eq!(actions[3], Action::Paste);
    assert_eq!(actions[5], write("old"));
    assert_eq!(
        actions[6],
        Action::Finish(Report { written: true, pasted: false, restored: Some(true) })
    );
}

#[test]
fn text_written_once_before_paste_and_old_once_after() {
    let actions = run("same", Some("before"), &[true, true], true);
    let paste = actions.iter().position(|a| *a == Action::Paste).unwrap();
    let before: Vec<&Action> =
        actions[..paste].iter().filter(|a| matches!(a, Action::WriteClipboard(_))).collect();
    let after: Vec<&Action> =
        actions[paste + 1..].iter().filter(|a| matches!(a, Action::WriteClipboard(_))).collect();
    assert_eq!(before, vec![&write("same")]);
    assert_eq!(after, vec![&write("before")]);
}

#[test]
fn same_text_as_clipboard_is_still_written_twice() {
    let actions = run("same", Some("same"), &[true, true], true);
    assert_eq!(actions.iter().filter(|a| **a == write("same")).count(), 2);
}

#[test]
fn empty_clipboard_is_not_restored() {
    let actions = run("hello", None, &[true], true);
    assert_eq!(
        actions,
        vec![
            Action::ReadClipboard,
            write("hello"),
            Action::Sleep(50),
            Action::Paste,
            Action::Sleep(100),
            Action::Finish(Report { written: true, pasted: true, restored: None }),
        ]
    );
}

#[test]
fn failed_restore_is_reported() {
    let actions = run("hello", Some("old"), &[true, false], true);
    assert_eq!(
        actions.last().unwrap(),
        &Action::Finish(Report { written: true, pasted: true, restored: Some(false) })
    );
}

#[test]
fn unexpected_outcome_for_the_read_means_no_snapshot() {
    let (mut d, _) = Delivery::start("hi".to_string());
    assert_eq!(d.step(Outcome::Failed), write("hi"));
    assert_eq!(d.step(Outcome::Succeeded), Action::Sleep(50));
    assert_eq!(d.step(Outcome::Succeeded), Action::Paste);
    assert_eq!(d.step(Outcome::Succeeded), Action::Sleep(100));
    let end = Action::Finish(Report { written: true, pasted: true, restored: None });
    assert_eq!(d.step(Outcome::Succeeded), end);
    assert_eq!(d.step(Outcome::Succeeded), end);
}

#[test]
fn finished_delivery_keeps_answering_finish() {
    let (mut d, _) = Delivery::start("hi".to_string());
    d.step(Outcome::Read(None));
    let end = Action::Finish(Report { written: false, pasted: false, restored: None });
    assert_eq!(d.step(Outcome::Failed), end);
    assert!(d.is_done());
    assert_eq!(d.step(Outcome::Succeeded), end);
    assert_eq!(d.step(Outcome::Read(Some("x".to_string()))), end);
}
