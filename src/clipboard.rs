use vstd::prelude::*;

verus! {

#[verifier::external_type_specification]
#[verifier::external_body]
pub struct ExClipboard(arboard::Clipboard);

#[verifier::external_type_specification]
#[verifier::external_body]
pub struct ExClipboardFault(arboard::Error);

/// One request made of the host's clipboard, with the host's answer.
pub enum ClipboardOp {
    /// Opening a handle; `true` where the host granted it.
    Open(bool),
    /// A read of its text: the text, or `None` where the read failed.
    Read(Option<Seq<char>>),
    /// A write of this text; `true` where the host accepted it.
    Write(Seq<char>, bool),
}

/// The text of a read's result, `None` for an error.
pub open spec fn read_answer(r: Result<String, arboard::Error>) -> Option<Seq<char>> {
    match r {
        Ok(s) => Some(s@),
        Err(_) => None,
    }
}

/// The text of a result, as values.
pub open spec fn text_of(r: Option<String>) -> Option<Seq<char>> {
    match r {
        Some(s) => Some(s@),
        None => None,
    }
}

/// Relies on `arboard::Clipboard::new`: opens a handle on the host's
/// clipboard, which the host may refuse. The request is recorded in the
/// bridge's log with whether it succeeded.
#[verifier::external_body]
fn open_clipboard(bridge: &mut ClipboardBridge) -> (r: Result<arboard::Clipboard, arboard::Error>)
    ensures
        final(bridge).requests() == old(bridge).requests().push(ClipboardOp::Open(r is Ok)),
{
    arboard::Clipboard::new()
}

/// Relies on `arboard::Clipboard::get_text`: reads the clipboard's text, or
/// fails where it holds none or cannot be read. The read is recorded in the
/// bridge's log with what it gave.
#[verifier::external_body]
fn read_clipboard_text(bridge: &mut ClipboardBridge, c: &mut arboard::Clipboard) -> (r: Result<
    String,
    arboard::Error,
>)
    ensures
        final(bridge).requests() == old(bridge).requests().push(ClipboardOp::Read(read_answer(r))),
{
    c.get_text()
}

/// Relies on `arboard::Clipboard::set_text`: places `text` on the
/// clipboard, or fails where the host denies it. The write is recorded in
/// the bridge's log with whether it succeeded.
#[verifier::external_body]
fn set_clipboard_text(bridge: &mut ClipboardBridge, c: &mut arboard::Clipboard, text: &str) -> (r:
    Result<(), arboard::Error>)
    ensures
        final(bridge).requests() == old(bridge).requests().push(
            ClipboardOp::Write(text@, r is Ok),
        ),
{
    c.set_text(text)
}

/// A clipboard request failed.
pub struct ClipboardError {
    /// The handle was opened, so the request itself was made and refused.
    pub opened: bool,
    pub cause: arboard::Error,
}

/// Access to the host's clipboard. Each request opens a handle of its own
/// and releases it before it returns, since the host may revoke clipboard
/// ownership between requests.
pub struct ClipboardBridge {
    log: Ghost<Seq<ClipboardOp>>,
}

impl ClipboardBridge {
    /// Every request made of the clipboard through this bridge, in order,
    /// each with the host's answer.
    pub closed spec fn requests(&self) -> Seq<ClipboardOp> {
        self.log@
    }

    /// A bridge that has made no request yet.
    pub fn new() -> (r: ClipboardBridge)
        ensures
            r.requests().len() == 0,
    {
        ClipboardBridge { log: Ghost(Seq::empty()) }
    }

    /// Replaces the clipboard's contents with `text`: opens a handle and,
    /// where it was granted, writes `text` once. `Ok` exactly when both
    /// succeeded; where the handle was refused, no write is made.
    pub fn copy_to_clipboard(&mut self, text: &str) -> (r: Result<(), ClipboardError>)
        ensures
            (final(self).requests() == old(self).requests().push(ClipboardOp::Open(false))
                && (r matches Err(e) && !e.opened)) || (final(self).requests() == old(
                self,
            ).requests().push(ClipboardOp::Open(true)).push(ClipboardOp::Write(text@, r is Ok))
                && (r matches Err(e) ==> e.opened)),
    {
        let mut clipboard = match open_clipboard(self) {
            Ok(c) => c,
            Err(e) => {
                return Err(ClipboardError { opened: false, cause: e });
            },
        };
        match set_clipboard_text(self, &mut clipboard, text) {
            Ok(()) => Ok(()),
            Err(e) => Err(ClipboardError { opened: true, cause: e }),
        }
    }

    /// The clipboard's text: opens a handle and, where it was granted,
    /// reads once. The result is the text that the read gave, or `None`
    /// where the handle was refused or the read failed (the clipboard is
    /// empty or holds no text); the failure is not reported further.
    pub fn get_clipboard_text(&mut self) -> (r: Option<String>)
        ensures
            (final(self).requests() == old(self).requests().push(ClipboardOp::Open(false))
                && r is None) || final(self).requests() == old(self).requests().push(
                ClipboardOp::Open(true),
            ).push(ClipboardOp::Read(text_of(r))),
    {
        let mut clipboard = match open_clipboard(self) {
            Ok(c) => c,
            Err(_) => {
                return None;
            },
        };
        match read_clipboard_text(self, &mut clipboard) {
            Ok(s) => Some(s),
            Err(_) => None,
        }
    }
}

} // verus!
