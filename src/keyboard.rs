use vstd::prelude::*;
use enigo::Keyboard;

verus! {

#[verifier::external_type_specification]
#[verifier::external_body]
pub struct ExEnigo(enigo::Enigo);

#[verifier::external_type_specification]
#[verifier::external_body]
pub struct ExSettings(enigo::Settings);

#[verifier::external_type_specification]
#[verifier::external_body]
pub struct ExInputError(enigo::InputError);

#[verifier::external_type_specification]
#[verifier::external_body]
pub struct ExNewConError(enigo::NewConError);

#[verifier::external_type_specification]
pub struct ExKey(enigo::Key);

#[verifier::external_type_specification]
pub struct ExDirection(enigo::Direction);

/// Relies on `enigo::Settings::default`: enigo's default settings.
#[verifier::external_body]
fn default_settings() -> (r: enigo::Settings) {
    enigo::Settings::default()
}

/// Relies on `enigo::Enigo::new`: connects to the platform's input
/// facility, which may be refused.
pub assume_specification[ enigo::Enigo::new ](
    settings: &enigo::Settings,
) -> Result<enigo::Enigo, enigo::NewConError>;

/// Relies on enigo's `Keyboard::key`: sends one key event to the focused
/// application, which the platform may reject. The event is recorded in the
/// injector's log, and beside it whether it was accepted (`Ok`).
#[verifier::external_body]
fn send_key(inj: &mut Injector, key: enigo::Key, direction: enigo::Direction) -> (r: Result<
    (),
    enigo::InputError,
>)
    ensures
        final(inj).sent_keys() == old(inj).sent_keys().push((key, direction)),
        final(inj).accepted() == old(inj).accepted().push(r is Ok),
{
    inj.enigo.key(key, direction)
}

/// `n` accepted events.
pub open spec fn all_accepted(n: nat) -> Seq<bool> {
    Seq::new(n, |i: int| true)
}

/// The key events of the paste shortcut, in order: press Control, click
/// `v`, release Control.
pub open spec fn paste_chord() -> Seq<(enigo::Key, enigo::Direction)> {
    seq![
        (enigo::Key::Control, enigo::Direction::Press),
        (enigo::Key::Unicode('v'), enigo::Direction::Click),
        (enigo::Key::Control, enigo::Direction::Release),
    ]
}

/// The key events of the paste shortcut.
pub fn paste_keys() -> (r: Vec<(enigo::Key, enigo::Direction)>)
    ensures
        r@ == paste_chord(),
{
    let r = vec![
        (enigo::Key::Control, enigo::Direction::Press),
        (enigo::Key::Unicode('v'), enigo::Direction::Click),
        (enigo::Key::Control, enigo::Direction::Release),
    ];
    assert(r@ =~= paste_chord());
    r
}

/// A key event of the paste shortcut was rejected.
pub struct InjectionError {
    /// The position in `paste_chord()` of the rejected event.
    pub step: usize,
    pub cause: enigo::InputError,
}

/// The keyboard injector: a connection to the platform's input facility.
pub struct Injector {
    enigo: enigo::Enigo,
    sent: Ghost<Seq<(enigo::Key, enigo::Direction)>>,
    answers: Ghost<Seq<bool>>,
}

impl Injector {
    /// Every key event sent through this injector, in order, rejected ones
    /// included.
    pub closed spec fn sent_keys(&self) -> Seq<(enigo::Key, enigo::Direction)> {
        self.sent@
    }

    /// For each key event in `sent_keys()`, whether the platform accepted it.
    pub closed spec fn accepted(&self) -> Seq<bool> {
        self.answers@
    }

    /// Connects to the platform's input facility with enigo's default
    /// settings. A new injector has sent nothing.
    pub fn new() -> (r: Result<Injector, enigo::NewConError>)
        ensures
            r matches Ok(inj) ==> inj.sent_keys().len() == 0 && inj.accepted().len() == 0,
    {
        let settings = default_settings();
        match enigo::Enigo::new(&settings) {
            Ok(enigo) => Ok(Injector { enigo, sent: Ghost(Seq::empty()), answers: Ghost(Seq::empty()) }),
            Err(e) => Err(e),
        }
    }

    /// Presses the paste shortcut: sends the events of `paste_chord()` in
    /// order. It returns `Ok` when all three are accepted; at the first that
    /// is rejected it stops and returns that event's position, sending
    /// nothing after it. Nothing is retried.
    pub fn paste_text(&mut self) -> (r: Result<(), InjectionError>)
        ensures
            r is Ok ==> final(self).sent_keys() == old(self).sent_keys() + paste_chord()
                && final(self).accepted() == old(self).accepted() + all_accepted(3),
            r matches Err(e) ==> e.step < paste_chord().len() && final(self).sent_keys()
                == old(self).sent_keys() + paste_chord().take(e.step + 1) && final(self).accepted()
                == old(self).accepted() + all_accepted(e.step as nat).push(false),
    {
        let keys = paste_keys();
        let mut i: usize = 0;
        while i < keys.len()
            invariant
                keys@ == paste_chord(),
                i <= keys.len(),
                self.sent_keys() == old(self).sent_keys() + paste_chord().take(i as int),
                self.accepted() == old(self).accepted() + all_accepted(i as nat),
            decreases keys.len() - i,
        {
            let (key, direction) = keys[i];
            let r = send_key(self, key, direction);
            assert(paste_chord().take(i + 1) == paste_chord().take(i as int).push((key, direction)));
            match r {
                Ok(()) => {
                    assert(all_accepted((i + 1) as nat) == all_accepted(i as nat).push(true));
                },
                Err(e) => {
                    return Err(InjectionError { step: i, cause: e });
                },
            }
            i = i + 1;
        }
        assert(paste_chord().take(i as int) == paste_chord());
        Ok(())
    }
}

} // verus!
