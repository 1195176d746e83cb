//! The raw-mode session: the one slot that remembers which attributes to
//! restore.

use vstd::prelude::*;
use crate::attrs::{ModeBits, TermAttrs, lemma_raw_idempotent, platform_mode_bits};

verus! {

/// A raw-mode session for one terminal.
///
/// The session never touches the device. `enable` is given the attributes the
/// device has now and answers with the attributes to apply. `disable` answers
/// with the attributes to put back, if there are any, and `restored` is told
/// whether putting them back worked: only then is the restore point given up.
pub struct TerminalSession {
    saved: Option<TermAttrs>,
    bits: ModeBits,
}

/// What a session is, for contracts.
pub struct SessionView {
    /// The attributes to restore; present exactly while raw mode is active.
    pub saved: Option<TermAttrs>,
    /// The mode bits that the session derives raw mode from.
    pub bits: ModeBits,
}

impl SessionView {
    /// Raw mode is active.
    pub open spec fn is_raw(self) -> bool {
        self.saved is Some
    }

    /// The session after `enable` was given `current`: an empty slot takes
    /// `current`, a filled slot keeps what it holds.
    pub open spec fn after_enable(self, current: TermAttrs) -> SessionView {
        SessionView {
            saved: if self.saved is Some {
                self.saved
            } else {
                Some(current)
            },
            bits: self.bits,
        }
    }

    /// The session after a restore that worked: the slot is empty.
    pub open spec fn after_disable(self) -> SessionView {
        SessionView { saved: None, bits: self.bits }
    }

    /// The session after a restore was tried. Where it worked the slot is
    /// empty; where it failed the slot keeps the restore point, so that the
    /// restore can be tried again.
    pub open spec fn after_restore(self, applied: bool) -> SessionView {
        if applied {
            self.after_disable()
        } else {
            self
        }
    }
}

impl View for TerminalSession {
    type V = SessionView;

    closed spec fn view(&self) -> SessionView {
        SessionView { saved: self.saved, bits: self.bits }
    }
}

impl TerminalSession {
    /// A session outside raw mode, with the mode bits of this platform.
    pub fn new() -> (s: TerminalSession)
        ensures
            !s@.is_raw(),
    {
        TerminalSession { saved: None, bits: platform_mode_bits() }
    }

    /// A session outside raw mode that derives raw mode from `bits`.
    pub fn with_bits(bits: ModeBits) -> (s: TerminalSession)
        ensures
            s@ == (SessionView { saved: None, bits }),
    {
        TerminalSession { saved: None, bits }
    }

    /// Enters raw mode, or stays in it.
    ///
    /// `current` is what the device reports now, before anything is changed.
    /// It becomes the restore point unless the session already holds one. The
    /// result is the attribute set to apply to the device.
    pub fn enable(&mut self, current: TermAttrs) -> (to_apply: TermAttrs)
        ensures
            final(self)@ == old(self)@.after_enable(current),
            to_apply == current.raw(old(self)@.bits),
    {
        if self.saved.is_none() {
            self.saved = Some(current);
        }
        current.make_raw(&self.bits)
    }

    /// Begins to leave raw mode.
    ///
    /// The result is the attribute set to put back on the device. Outside raw
    /// mode there is none, and nothing is to be done. The session keeps the
    /// restore point until `restored` is told that it was put back.
    pub fn disable(&self) -> (restore: Option<TermAttrs>)
        ensures
            restore == self@.saved,
            !self@.is_raw() ==> restore is None,
    {
        self.saved
    }

    /// Ends a restore: `applied` says whether the attributes that `disable`
    /// answered with were put back on the device.
    ///
    /// Where they were, raw mode is over and the slot is emptied. Where they
    /// were not, the session stays in raw mode with its restore point.
    pub fn restored(&mut self, applied: bool)
        ensures
            final(self)@ == old(self)@.after_restore(applied),
    {
        if applied {
            self.saved = None;
        }
    }

    /// Whether raw mode is active.
    pub fn is_raw(&self) -> (active: bool)
        ensures
            active == self@.is_raw(),
    {
        self.saved.is_some()
    }

    /// The mode bits that this session derives raw mode from.
    pub fn bits(&self) -> (bits: ModeBits)
        ensures
            bits == self@.bits,
    {
        self.bits
    }
}

/// A session together with the device it controls, for stating what a
/// sequence of calls does to the device. The device is the attribute set it
/// has at the moment.
pub struct Terminal {
    pub session: SessionView,
    pub device: TermAttrs,
}

impl Terminal {
    /// The session and the device agree: while a restore point is held, the
    /// device has the raw attributes derived from it.
    pub open spec fn in_step(self) -> bool {
        match self.session.saved {
            Some(captured) => self.device == captured.raw(self.session.bits),
            None => true,
        }
    }

    /// One `enable`: the device's attributes are handed to the session and
    /// the answer is applied to the device.
    pub open spec fn enabled(self) -> Terminal {
        Terminal {
            session: self.session.after_enable(self.device),
            device: self.device.raw(self.session.bits),
        }
    }

    /// `enable` called `n` times in a row.
    pub open spec fn enabled_times(self, n: nat) -> Terminal
        decreases n,
    {
        if n == 0 {
            self
        } else {
            self.enabled_times((n - 1) as nat).enabled()
        }
    }

    /// One `disable` with its `restored`: what the session answers, if
    /// anything, is applied to the device, and the session is told whether
    /// that worked. A failed apply leaves the device as it is.
    pub open spec fn disabled(self, applied: bool) -> Terminal {
        match self.session.saved {
            Some(captured) => Terminal {
                session: self.session.after_restore(applied),
                device: if applied {
                    captured
                } else {
                    self.device
                },
            },
            None => self,
        }
    }
}

/// However often `enable` is called, the session keeps the attributes that
/// the device had before the first call.
pub proof fn lemma_enable_keeps_first_capture(start: Terminal, n: nat)
    requires
        !start.session.is_raw(),
        n >= 1,
    ensures
        start.enabled_times(n).session.saved == Some(start.device),
        start.enabled_times(n).session.bits == start.session.bits,
    decreases n,
{
    if n > 1 {
        lemma_enable_keeps_first_capture(start, (n - 1) as nat);
    } else {
        assert(start.enabled_times(0) == start);
    }
}

/// Restoring is exact: after one or more calls of `enable` and one `disable`
/// whose apply worked, the device has the attributes it had before the first
/// `enable`, and the session is outside raw mode again.
pub proof fn lemma_disable_restores_first_capture(start: Terminal, n: nat)
    requires
        !start.session.is_raw(),
        n >= 1,
    ensures
        start.enabled_times(n).disabled(true) == start,
{
    lemma_enable_keeps_first_capture(start, n);
}

/// A `disable` whose apply failed changes nothing: the restore point is
/// kept, and a later `disable` does what the first would have done.
pub proof fn lemma_failed_restore_can_be_tried_again(before: Terminal)
    ensures
        before.disabled(false) == before,
        before.disabled(false).disabled(true) == before.disabled(true),
{
}

/// While the session holds a restore point, the device has the raw
/// attributes derived from it. Once true, this stays true under `enable` and
/// `disable`, and it is true of every session outside raw mode. Raw mode is
/// active after `enable` and over after a `disable` whose apply worked.
pub proof fn lemma_device_is_raw_while_saved(before: Terminal, applied: bool)
    requires
        before.in_step(),
    ensures
        before.enabled().in_step(),
        before.enabled().session.is_raw(),
        before.disabled(applied).in_step(),
        !before.disabled(true).session.is_raw(),
{
    if let Some(captured) = before.session.saved {
        lemma_raw_idempotent(captured, before.session.bits);
    }
}

/// `disable` outside raw mode changes neither the device nor the session,
/// whatever is reported afterwards.
pub proof fn lemma_disable_outside_raw_mode(start: Terminal, applied: bool)
    requires
        !start.session.is_raw(),
    ensures
        start.disabled(applied) == start,
        start.session.after_restore(applied) == start.session,
{
}

} // verus!
