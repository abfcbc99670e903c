//! The operations on a video output device: each one starts the exchange
//! that answers it. The caller sends each request, feeds back the reply,
//! and repeats until the operation yields its result.
use vstd::prelude::*;

use crate::control::{buffer_type, get_type, Command, ControlRequest};
use crate::enumerate::{Enumeration, FirstFailure, Reply};
use crate::negotiate::{Negotiation, Phase, Setting};

verus! {

/// Lists the frame intervals supported for a pixel format at a frame size.
/// A refusal of the first request means the combination is unsupported and
/// is returned as the error.
pub fn enum_frameintervals<T, E>(fourcc: u32, width: u32, height: u32) -> (r: Enumeration<T, E>)
    ensures
        r.wf(),
        r.request == (ControlRequest {
            pixel_format: fourcc,
            width,
            height,
            ..ControlRequest::zeroed_spec(Command::EnumFrameIntervals)
        }),
        r.policy == FirstFailure::Propagate,
        r.history@ == Seq::<Reply<T, E>>::empty(),
{
    let seed = ControlRequest::zeroed(Command::EnumFrameIntervals).with_pixel_format(
        fourcc,
    ).with_size(width, height);
    Enumeration::new(seed, FirstFailure::Propagate)
}

/// Lists the frame sizes supported for a pixel format. A refusal of the
/// first request means the format is unsupported and is returned as the
/// error.
pub fn enum_framesizes<T, E>(fourcc: u32) -> (r: Enumeration<T, E>)
    ensures
        r.wf(),
        r.request == (ControlRequest {
            pixel_format: fourcc,
            ..ControlRequest::zeroed_spec(Command::EnumFrameSizes)
        }),
        r.policy == FirstFailure::Propagate,
        r.history@ == Seq::<Reply<T, E>>::empty(),
{
    let seed = ControlRequest::zeroed(Command::EnumFrameSizes).with_pixel_format(fourcc);
    Enumeration::new(seed, FirstFailure::Propagate)
}

/// Lists the formats the device offers. A refusal of the first request
/// means there are none: the list is empty, not an error.
pub fn enum_formats<T, E>(mplane: bool) -> (r: Enumeration<T, E>)
    ensures
        r.wf(),
        r.request == (ControlRequest {
            buf_type: buffer_type(mplane),
            ..ControlRequest::zeroed_spec(Command::EnumFormats)
        }),
        r.policy == FirstFailure::Empty,
        r.history@ == Seq::<Reply<T, E>>::empty(),
{
    let seed = ControlRequest::zeroed(Command::EnumFormats).with_buf_type(get_type(mplane));
    Enumeration::new(seed, FirstFailure::Empty)
}

/// Reads the active format.
pub fn format(mplane: bool) -> (r: Negotiation)
    ensures
        r == (Negotiation { setting: Setting::Format, mplane, phase: Phase::Reading }),
{
    Negotiation::get(Setting::Format, mplane)
}

/// Writes a format, then reads back the one the device settled on.
pub fn set_format(mplane: bool) -> (r: Negotiation)
    ensures
        r == (Negotiation { setting: Setting::Format, mplane, phase: Phase::Writing }),
{
    Negotiation::set(Setting::Format, mplane)
}

/// Reads the active streaming parameters.
pub fn params(mplane: bool) -> (r: Negotiation)
    ensures
        r == (Negotiation { setting: Setting::Params, mplane, phase: Phase::Reading }),
{
    Negotiation::get(Setting::Params, mplane)
}

/// Writes streaming parameters, then reads back the ones the device settled
/// on.
pub fn set_params(mplane: bool) -> (r: Negotiation)
    ensures
        r == (Negotiation { setting: Setting::Params, mplane, phase: Phase::Writing }),
{
    Negotiation::set(Setting::Params, mplane)
}

} // verus!
