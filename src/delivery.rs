use vstd::prelude::*;

verus! {

/// Milliseconds to wait after writing the text to the clipboard, so that
/// the write is visible before the paste shortcut is pressed.
pub const SETTLE_MS: u64 = 50;

/// Milliseconds to wait after the paste shortcut, so that the target
/// application has read the clipboard before it is restored.
pub const LINGER_MS: u64 = 100;

/// How a delivery ended.
#[derive(Clone, Copy, Debug, PartialEq, Eq, Structural)]
pub struct Report {
    /// The text reached the clipboard.
    pub written: bool,
    /// The paste shortcut was sent without error.
    pub pasted: bool,
    /// Whether writing back the earlier clipboard succeeded; `None` where
    /// nothing was written back.
    pub restored: Option<bool>,
}

/// One piece of outside work that a delivery asks for.
#[derive(Clone, Debug, PartialEq, Eq)]
pub enum Action {
    /// Read the clipboard's text.
    ReadClipboard,
    /// Replace the clipboard's contents with this text.
    WriteClipboard(String),
    /// Wait this many milliseconds.
    Sleep(u64),
    /// Press the paste shortcut, holding the automation lock.
    Paste,
    /// The delivery is over; nothing more is asked.
    Finish(Report),
}

/// The result of the last action, handed back to the delivery.
#[derive(Clone, Debug, PartialEq, Eq)]
pub enum Outcome {
    /// What a clipboard read gave: `None` where the clipboard held no text
    /// or could not be read.
    Read(Option<String>),
    /// The action succeeded.
    Succeeded,
    /// The action failed.
    Failed,
}

/// Where a delivery stands: which action's outcome it awaits.
#[derive(Clone, Copy, Debug, PartialEq, Eq, Structural)]
pub enum Phase {
    Snapshot,
    Write,
    Settle,
    Paste,
    Linger,
    Restore,
    Done,
}

/// One save / write / paste / restore sequence for a single text.
pub struct Delivery {
    pub text: String,
    pub snapshot: Option<String>,
    pub phase: Phase,
    pub written: bool,
    pub pasted: bool,
    pub restored: Option<bool>,
}

impl Delivery {
    pub open spec fn report_of(self) -> Report {
        Report { written: self.written, pasted: self.pasted, restored: self.restored }
    }

    /// A fresh delivery of `text`, before its first action.
    pub open spec fn initial(text: String) -> Delivery {
        Delivery {
            text,
            snapshot: None,
            phase: Phase::Snapshot,
            written: false,
            pasted: false,
            restored: None,
        }
    }

    /// The next state and the next action, once `o` is handed back for the
    /// action asked for in state `self`.
    pub open spec fn next(self, o: Outcome) -> (Delivery, Action) {
        match self.phase {
            Phase::Snapshot => {
                let snap = match o {
                    Outcome::Read(v) => v,
                    _ => None,
                };
                (
                    Delivery { snapshot: snap, phase: Phase::Write, ..self },
                    Action::WriteClipboard(self.text),
                )
            },
            Phase::Write => if o == Outcome::Succeeded {
                (Delivery { phase: Phase::Settle, written: true, ..self }, Action::Sleep(SETTLE_MS))
            } else {
                (Delivery { phase: Phase::Done, ..self }, Action::Finish(self.report_of()))
            },
            Phase::Settle => (Delivery { phase: Phase::Paste, ..self }, Action::Paste),
            Phase::Paste => (
                Delivery { phase: Phase::Linger, pasted: o == Outcome::Succeeded, ..self },
                Action::Sleep(LINGER_MS),
            ),
            Phase::Linger => match self.snapshot {
                Some(v) => (Delivery { phase: Phase::Restore, ..self }, Action::WriteClipboard(v)),
                None => {
                    let d = Delivery { phase: Phase::Done, ..self };
                    (d, Action::Finish(d.report_of()))
                },
            },
            Phase::Restore => {
                let d = Delivery {
                    phase: Phase::Done,
                    restored: Some(o == Outcome::Succeeded),
                    ..self
                };
                (d, Action::Finish(d.report_of()))
            },
            Phase::Done => (self, Action::Finish(self.report_of())),
        }
    }

    /// The actions asked for when the outcomes `os` are handed back one by
    /// one, starting in state `self`.
    pub open spec fn run(self, os: Seq<Outcome>) -> Seq<Action>
        decreases os.len(),
    {
        if os.len() == 0 {
            Seq::empty()
        } else {
            let (d, a) = self.next(os[0]);
            seq![a] + d.run(os.drop_first())
        }
    }

    /// Every action that a delivery of `text` asks for, the first included,
    /// when `os` are the outcomes handed back: `os[i]` answers action `i`.
    pub open spec fn trace(text: String, os: Seq<Outcome>) -> Seq<Action> {
        seq![Action::ReadClipboard] + Delivery::initial(text).run(os)
    }

    /// The state after the first `k` outcomes of `os` were handed back.
    pub open spec fn after(self, os: Seq<Outcome>, k: nat) -> Delivery
        decreases k,
    {
        if k == 0 {
            self
        } else {
            self.after(os, (k - 1) as nat).next(os[k - 1]).0
        }
    }

    /// Starts a delivery of `text`: the new delivery and its first action,
    /// a read of the clipboard.
    pub fn start(text: String) -> (r: (Delivery, Action))
        ensures
            r.0 == Delivery::initial(text),
            r.1 == Action::ReadClipboard,
    {
        (
            Delivery {
                text,
                snapshot: None,
                phase: Phase::Snapshot,
                written: false,
                pasted: false,
                restored: None,
            },
            Action::ReadClipboard,
        )
    }

    fn report(&self) -> (r: Report)
        ensures
            r == self.report_of(),
    {
        Report { written: self.written, pasted: self.pasted, restored: self.restored }
    }

    /// Takes the outcome of the last action asked for and returns the next
    /// action.
    pub fn step(&mut self, o: Outcome) -> (a: Action)
        ensures
            (*final(self), a) == old(self).next(o),
    {
        let succeeded = match o {
            Outcome::Succeeded => true,
            _ => false,
        };
        match self.phase {
            Phase::Snapshot => {
                self.snapshot = match o {
                    Outcome::Read(v) => v,
                    _ => None,
                };
                self.phase = Phase::Write;
                Action::WriteClipboard(self.text.clone())
            },
            Phase::Write => {
                if succeeded {
                    self.phase = Phase::Settle;
                    self.written = true;
                    Action::Sleep(SETTLE_MS)
                } else {
                    self.phase = Phase::Done;
                    Action::Finish(self.report())
                }
            },
            Phase::Settle => {
                self.phase = Phase::Paste;
                Action::Paste
            },
            Phase::Paste => {
                self.phase = Phase::Linger;
                self.pasted = succeeded;
                Action::Sleep(LINGER_MS)
            },
            Phase::Linger => {
                match &self.snapshot {
                    Some(v) => {
                        let v = v.clone();
                        self.phase = Phase::Restore;
                        Action::WriteClipboard(v)
                    },
                    None => {
                        self.phase = Phase::Done;
                        Action::Finish(self.report())
                    },
                }
            },
            Phase::Restore => {
                self.phase = Phase::Done;
                self.restored = Some(succeeded);
                Action::Finish(self.report())
            },
            Phase::Done => Action::Finish(self.report()),
        }
    }

    /// The delivery has ended.
    pub fn is_done(&self) -> (r: bool)
        ensures
            r == (self.phase == Phase::Done),
    {
        self.phase == Phase::Done
    }
}

/// The clipboard text captured by a delivery whose outcomes are `os`.
pub open spec fn snapshot_of(os: Seq<Outcome>) -> Option<String> {
    if os.len() > 0 {
        match os[0] {
            Outcome::Read(v) => v,
            _ => None,
        }
    } else {
        None
    }
}

proof fn lemma_after_shift(d: Delivery, os: Seq<Outcome>, k: nat)
    requires
        os.len() > 0,
        k < os.len(),
    ensures
        d.after(os, k + 1) == d.next(os[0]).0.after(os.drop_first(), k),
    decreases k,
{
    let d1 = d.next(os[0]).0;
    let os1 = os.drop_first();
    if k > 0 {
        lemma_after_shift(d, os, (k - 1) as nat);
        assert(os1[k - 1] == os[k as int]);
        assert(d1.after(os1, k) == d1.after(os1, (k - 1) as nat).next(os1[k - 1]).0);
    } else {
        assert(d.after(os, 1) == d.after(os, 0).next(os[0]).0);
    }
}

proof fn lemma_run_index(d: Delivery, os: Seq<Outcome>)
    ensures
        d.run(os).len() == os.len(),
        forall|i: int|
            0 <= i < os.len() ==> #[trigger] d.run(os)[i] == d.after(os, i as nat).next(os[i]).1,
    decreases os.len(),
{
    if os.len() > 0 {
        let d1 = d.next(os[0]).0;
        let os1 = os.drop_first();
        lemma_run_index(d1, os1);
        assert forall|i: int| 0 <= i < os.len() implies #[trigger] d.run(os)[i] == d.after(
            os,
            i as nat,
        ).next(os[i]).1 by {
            if i > 0 {
                lemma_after_shift(d, os, (i - 1) as nat);
                assert(os1[i - 1] == os[i]);
            }
        }
    }
}

proof fn lemma_done_stays(d: Delivery, os: Seq<Outcome>, j: nat, k: nat)
    requires
        d.after(os, j).phase == Phase::Done,
        j <= k,
    ensures
        d.after(os, k) == d.after(os, j),
    decreases k - j,
{
    if j < k {
        lemma_done_stays(d, os, j, (k - 1) as nat);
    }
}

proof fn lemma_trace_at(text: String, os: Seq<Outcome>, i: int)
    requires
        0 <= i < os.len(),
    ensures
        Delivery::trace(text, os).len() == os.len() + 1,
        Delivery::trace(text, os)[i + 1] == Delivery::initial(text).after(os, i as nat).next(
            os[i],
        ).1,
{
    let d = Delivery::initial(text);
    lemma_run_index(d, os);
    assert(d.run(os)[i] == d.after(os, i as nat).next(os[i]).1);
}

/// The states that a delivery of `text` passes through.
proof fn lemma_states(text: String, os: Seq<Outcome>)
    ensures
        os.len() >= 1 ==> Delivery::initial(text).after(os, 1) == (Delivery {
            snapshot: snapshot_of(os),
            phase: Phase::Write,
            ..Delivery::initial(text)
        }),
        os.len() >= 2 && os[1] != Outcome::Succeeded ==> Delivery::initial(text).after(os, 2) == (
        Delivery { snapshot: snapshot_of(os), phase: Phase::Done, ..Delivery::initial(text) }),
        os.len() >= 2 && os[1] == Outcome::Succeeded ==> Delivery::initial(text).after(os, 2) == (
        Delivery {
            snapshot: snapshot_of(os),
            phase: Phase::Settle,
            written: true,
            ..Delivery::initial(text)
        }),
        os.len() >= 3 && os[1] == Outcome::Succeeded ==> Delivery::initial(text).after(os, 3) == (
        Delivery {
            snapshot: snapshot_of(os),
            phase: Phase::Paste,
            written: true,
            ..Delivery::initial(text)
        }),
        os.len() >= 4 && os[1] == Outcome::Succeeded ==> Delivery::initial(text).after(os, 4) == (
        Delivery {
            snapshot: snapshot_of(os),
            phase: Phase::Linger,
            written: true,
            pasted: os[3] == Outcome::Succeeded,
            ..Delivery::initial(text)
        }),
        os.len() >= 5 && os[1] == Outcome::Succeeded ==> Delivery::initial(text).after(os, 5) == (
        Delivery {
            snapshot: snapshot_of(os),
            phase: if snapshot_of(os) is Some {
                Phase::Restore
            } else {
                Phase::Done
            },
            written: true,
            pasted: os[3] == Outcome::Succeeded,
            ..Delivery::initial(text)
        }),
        os.len() >= 6 && os[1] == Outcome::Succeeded && snapshot_of(os) is Some
            ==> Delivery::initial(text).after(os, 6) == (Delivery {
            snapshot: snapshot_of(os),
            phase: Phase::Done,
            written: true,
            pasted: os[3] == Outcome::Succeeded,
            restored: Some(os[5] == Outcome::Succeeded),
            ..Delivery::initial(text)
        }),
{
    let d = Delivery::initial(text);
    if os.len() >= 1 {
        assert(d.after(os, 1) == d.after(os, 0).next(os[0]).0);
    }
    if os.len() >= 2 {
        assert(d.after(os, 2) == d.after(os, 1).next(os[1]).0);
    }
    if os.len() >= 3 {
        assert(d.after(os, 3) == d.after(os, 2).next(os[2]).0);
    }
    if os.len() >= 4 {
        assert(d.after(os, 4) == d.after(os, 3).next(os[3]).0);
    }
    if os.len() >= 5 {
        assert(d.after(os, 5) == d.after(os, 4).next(os[4]).0);
    }
    if os.len() >= 6 {
        assert(d.after(os, 6) == d.after(os, 5).next(os[5]).0);
    }
}

/// Action `i` of a delivery of `text` whose outcomes are `os`.
spec fn scripted(text: String, os: Seq<Outcome>, i: int) -> Action {
    if i == 0 {
        Action::ReadClipboard
    } else if i == 1 {
        Action::WriteClipboard(text)
    } else if os[1] != Outcome::Succeeded {
        Action::Finish(Report { written: false, pasted: false, restored: None })
    } else if i == 2 {
        Action::Sleep(SETTLE_MS)
    } else if i == 3 {
        Action::Paste
    } else if i == 4 {
        Action::Sleep(LINGER_MS)
    } else {
        match snapshot_of(os) {
            Some(v) => if i == 5 {
                Action::WriteClipboard(v)
            } else {
                Action::Finish(
                    Report {
                        written: true,
                        pasted: os[3] == Outcome::Succeeded,
                        restored: Some(os[5] == Outcome::Succeeded),
                    },
                )
            },
            None => Action::Finish(
                Report { written: true, pasted: os[3] == Outcome::Succeeded, restored: None },
            ),
        }
    }
}

proof fn lemma_trace_scripted(text: String, os: Seq<Outcome>, i: int)
    requires
        0 <= i <= os.len(),
    ensures
        Delivery::trace(text, os).len() == os.len() + 1,
        Delivery::trace(text, os)[i] == scripted(text, os, i),
{
    let d = Delivery::initial(text);
    lemma_run_index(d, os);
    lemma_states(text, os);
    if i > 0 {
        lemma_trace_at(text, os, i - 1);
        if i > 2 && os[1] != Outcome::Succeeded {
            lemma_done_stays(d, os, 2, (i - 1) as nat);
        }
        if i > 5 && os[1] == Outcome::Succeeded && snapshot_of(os) is None {
            lemma_done_stays(d, os, 5, (i - 1) as nat);
        }
        if i > 6 && os[1] == Outcome::Succeeded && snapshot_of(os) is Some {
            lemma_done_stays(d, os, 6, (i - 1) as nat);
        }
    }
}

proof fn lemma_trace_all(text: String, os: Seq<Outcome>)
    ensures
        Delivery::trace(text, os).len() == os.len() + 1,
        forall|i: int|
            0 <= i <= os.len() ==> #[trigger] Delivery::trace(text, os)[i] == scripted(text, os, i),
{
    lemma_trace_scripted(text, os, 0);
    assert forall|i: int| 0 <= i <= os.len() implies #[trigger] Delivery::trace(text, os)[i]
        == scripted(text, os, i) by {
        lemma_trace_scripted(text, os, i);
    }
}

/// Whatever outcomes are handed back, a delivery of `text` first reads the
/// clipboard and then writes `text` to it. The paste shortcut is asked for
/// at most once, and the write of `text` is the only clipboard write before
/// it. After the paste, the only clipboard write is the one that puts back
/// the text that the clipboard held before; it is asked for as soon as the
/// pause after the paste is over, and never where the clipboard held no text.
pub proof fn lemma_text_written_before_paste(text: String, os: Seq<Outcome>)
    ensures
        Delivery::trace(text, os)[0] == Action::ReadClipboard,
        os.len() >= 1 ==> Delivery::trace(text, os)[1] == Action::WriteClipboard(text),
        forall|i: int, j: int|
            0 <= i < Delivery::trace(text, os).len() && 0 <= j < Delivery::trace(text, os).len()
                && #[trigger] Delivery::trace(text, os)[i] == Action::Paste
                && #[trigger] Delivery::trace(text, os)[j] == Action::Paste ==> i == j,
        forall|i: int, j: int|
            0 <= j < i < Delivery::trace(text, os).len() && #[trigger] Delivery::trace(text, os)[i]
                == Action::Paste && #[trigger] Delivery::trace(text, os)[j] is WriteClipboard
                ==> j == 1,
        forall|i: int, k: int|
            0 <= i < k < Delivery::trace(text, os).len() && #[trigger] Delivery::trace(text, os)[i]
                == Action::Paste && #[trigger] Delivery::trace(text, os)[k] is WriteClipboard
                ==> k == i + 2 && snapshot_of(os) is Some && Delivery::trace(text, os)[k]
                == Action::WriteClipboard(snapshot_of(os)->0),
        forall|i: int|
            0 <= i && i + 2 < Delivery::trace(text, os).len() && #[trigger] Delivery::trace(
                text,
                os,
            )[i] == Action::Paste && snapshot_of(os) is Some ==> Delivery::trace(text, os)[i + 2]
                == Action::WriteClipboard(snapshot_of(os)->0),
{
    lemma_trace_all(text, os);
}

/// Where writing `text` to the clipboard fails, the delivery ends at once:
/// no paste shortcut and no further clipboard write is asked for.
pub proof fn lemma_failed_write_ends_delivery(text: String, os: Seq<Outcome>)
    requires
        os.len() >= 2,
        os[1] == Outcome::Failed,
    ensures
        Delivery::trace(text, os)[2] == Action::Finish(
            Report { written: false, pasted: false, restored: None },
        ),
        forall|i: int|
            0 <= i < Delivery::trace(text, os).len() ==> #[trigger] Delivery::trace(text, os)[i]
                != Action::Paste,
        forall|i: int|
            0 <= i < Delivery::trace(text, os).len() && #[trigger] Delivery::trace(
                text,
                os,
            )[i] is WriteClipboard ==> i == 1,
{
    lemma_trace_all(text, os);
}

/// Where the paste shortcut fails, the text that the clipboard held before
/// is still written back once the pause after the paste is over.
pub proof fn lemma_restore_after_failed_paste(text: String, v: String, os: Seq<Outcome>)
    requires
        os.len() >= 5,
        os[0] == Outcome::Read(Some(v)),
        os[1] == Outcome::Succeeded,
        os[3] == Outcome::Failed,
    ensures
        Delivery::trace(text, os)[3] == Action::Paste,
        Delivery::trace(text, os)[5] == Action::WriteClipboard(v),
        os.len() >= 6 ==> Delivery::trace(text, os)[6] == Action::Finish(
            Report { written: true, pasted: false, restored: Some(os[5] == Outcome::Succeeded) },
        ),
{
    lemma_trace_all(text, os);
}

} // verus!