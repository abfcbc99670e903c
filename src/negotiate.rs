//! Reading and writing the active format or streaming parameters. A write
//! is always followed by a read: the device may adjust what it was asked
//! for, so what it reports afterwards is the result.
use vstd::prelude::*;

use crate::control::{buffer_type, format_member, get_type, Command, ControlRequest, Member};
use crate::enumerate::Reply;

verus! {

/// The setting being negotiated.
#[derive(Clone, Copy, Debug, PartialEq, Eq, Structural)]
pub enum Setting {
    /// The pixel format.
    Format,
    /// The output-direction streaming parameters.
    Params,
}

/// Where a negotiation stands.
#[derive(Clone, Copy, Debug, PartialEq, Eq, Structural)]
pub enum Phase {
    /// The requested value is to be written.
    Writing,
    /// The active value is to be read back.
    Reading,
}

/// A read, or a write followed by a read, of one setting.
#[derive(Clone, Copy, Debug, PartialEq, Eq, Structural)]
pub struct Negotiation {
    pub setting: Setting,
    pub mplane: bool,
    pub phase: Phase,
}

/// The union member that carries `setting` for the given planarity.
pub open spec fn setting_member(setting: Setting, mplane: bool) -> Member {
    match setting {
        Setting::Format => format_member(mplane),
        Setting::Params => Member::Output,
    }
}

/// The operation that reads or writes `setting`.
pub open spec fn setting_command(setting: Setting, phase: Phase) -> Command {
    match (setting, phase) {
        (Setting::Format, Phase::Reading) => Command::GetFormat,
        (Setting::Format, Phase::Writing) => Command::SetFormat,
        (Setting::Params, Phase::Reading) => Command::GetParams,
        (Setting::Params, Phase::Writing) => Command::SetParams,
    }
}

/// The record for the negotiation's current exchange. A write carries the
/// requested value in the member named here; a read names the member the
/// answer is decoded from.
pub open spec fn negotiation_request(n: Negotiation) -> ControlRequest {
    ControlRequest {
        command: setting_command(n.setting, n.phase),
        buf_type: buffer_type(n.mplane),
        member: setting_member(n.setting, n.mplane),
        ..ControlRequest::zeroed_spec(Command::GetFormat)
    }
}

/// What a read yields from the device's reply: the decoded value, or the
/// refusal or decoding error.
pub open spec fn read_outcome<T, E>(reply: Reply<T, E>) -> Result<T, E> {
    match reply {
        Reply::Failed(e) => Err(e),
        Reply::Rejected(e) => Err(e),
        Reply::Decoded(t) => Ok(t),
    }
}

/// What a write followed by a read yields: the write's refusal, else
/// whatever the read yields.
pub open spec fn write_outcome<T, E>(written: Result<(), E>, reread: Reply<T, E>) -> Result<T, E> {
    match written {
        Err(e) => Err(e),
        Ok(_) => read_outcome(reread),
    }
}

impl Negotiation {
    /// A read of `setting`.
    pub fn get(setting: Setting, mplane: bool) -> (r: Negotiation)
        ensures
            r == (Negotiation { setting, mplane, phase: Phase::Reading }),
    {
        Negotiation { setting, mplane, phase: Phase::Reading }
    }

    /// A write of `setting`, then a read of it.
    pub fn set(setting: Setting, mplane: bool) -> (r: Negotiation)
        ensures
            r == (Negotiation { setting, mplane, phase: Phase::Writing }),
    {
        Negotiation { setting, mplane, phase: Phase::Writing }
    }

    /// The record to send next.
    pub fn request(&self) -> (r: ControlRequest)
        ensures
            r == negotiation_request(*self),
    {
        let command = match (self.setting, self.phase) {
            (Setting::Format, Phase::Reading) => Command::GetFormat,
            (Setting::Format, Phase::Writing) => Command::SetFormat,
            (Setting::Params, Phase::Reading) => Command::GetParams,
            (Setting::Params, Phase::Writing) => Command::SetParams,
        };
        let member = match self.setting {
            Setting::Format => if self.mplane {
                Member::PixMp
            } else {
                Member::Pix
            },
            Setting::Params => Member::Output,
        };
        ControlRequest::zeroed(command).with_buf_type(get_type(self.mplane)).with_member(member)
    }

    /// Takes the outcome of the write. A refusal ends the negotiation with
    /// that error; otherwise the value is read back next.
    pub fn written<E>(self, outcome: Result<(), E>) -> (r: Result<Negotiation, E>)
        requires
            self.phase == Phase::Writing,
        ensures
            match outcome {
                Err(e) => r == Err::<Negotiation, E>(e),
                Ok(_) => r == Ok::<Negotiation, E>(Negotiation { phase: Phase::Reading, ..self }),
            },
    {
        match outcome {
            Err(e) => Err(e),
            Ok(()) => Ok(Negotiation { phase: Phase::Reading, ..self }),
        }
    }

    /// Takes the reply to the read and yields the active value.
    pub fn read<T, E>(self, reply: Reply<T, E>) -> (r: Result<T, E>)
        requires
            self.phase == Phase::Reading,
        ensures
            r == read_outcome(reply),
    {
        match reply {
            Reply::Failed(e) => Err(e),
            Reply::Rejected(e) => Err(e),
            Reply::Decoded(t) => Ok(t),
        }
    }
}

/// A write reports what the device reports when read back, not what was
/// asked for: once the write is accepted, the result is exactly what a
/// plain read yields from the same reply. So a read that follows a write,
/// with the device unchanged, returns the same value as the write did.
pub proof fn lemma_write_reports_reread<T, E>(setting: Setting, mplane: bool, reread: Reply<T, E>)
    ensures
        write_outcome(Ok::<(), E>(()), reread) == read_outcome(reread),
        negotiation_request(Negotiation { setting, mplane, phase: Phase::Reading })
            == (ControlRequest {
            command: setting_command(setting, Phase::Reading),
            ..negotiation_request(Negotiation { setting, mplane, phase: Phase::Writing })
        }),
{
}

} // verus!
