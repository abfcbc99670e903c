//! Control records: which operation is asked for and the fields stamped
//! into an otherwise zeroed record.
use vstd::prelude::*;

verus! {

/// Buffer type of a single-planar video output stream.
pub const BUF_TYPE_VIDEO_OUTPUT: u32 = 2;

/// Buffer type of a multi-planar video output stream.
pub const BUF_TYPE_VIDEO_OUTPUT_MPLANE: u32 = 10;

/// The buffer type that the planar flag selects.
pub open spec fn buffer_type(mplane: bool) -> u32 {
    if mplane {
        BUF_TYPE_VIDEO_OUTPUT_MPLANE
    } else {
        BUF_TYPE_VIDEO_OUTPUT
    }
}

/// Buffer type stamped into format and parameter records.
pub fn get_type(mplane: bool) -> (r: u32)
    ensures
        r == buffer_type(mplane),
{
    if mplane {
        BUF_TYPE_VIDEO_OUTPUT_MPLANE
    } else {
        BUF_TYPE_VIDEO_OUTPUT
    }
}

/// The control operations this crate issues.
#[derive(Clone, Copy, Debug, PartialEq, Eq, Structural)]
pub enum Command {
    EnumFormats,
    EnumFrameSizes,
    EnumFrameIntervals,
    GetFormat,
    SetFormat,
    GetParams,
    SetParams,
}

/// Which member of a record's union carries the payload.
#[derive(Clone, Copy, Debug, PartialEq, Eq, Structural)]
pub enum Member {
    /// The record has no union, or none is in use.
    Absent,
    /// Single-planar pixel format.
    Pix,
    /// Multi-planar pixel format.
    PixMp,
    /// Output-direction streaming parameters.
    Output,
}

/// A control record described by the fields this crate manages; every
/// other field of the record is zero.
#[derive(Clone, Copy, Debug, PartialEq, Eq, Structural)]
pub struct ControlRequest {
    pub command: Command,
    pub buf_type: u32,
    pub index: u32,
    pub pixel_format: u32,
    pub width: u32,
    pub height: u32,
    pub member: Member,
}

/// The union member that a format record of the given planarity uses.
pub open spec fn format_member(mplane: bool) -> Member {
    if mplane {
        Member::PixMp
    } else {
        Member::Pix
    }
}

impl ControlRequest {
    /// A record for `command` with every managed field zero.
    pub open spec fn zeroed_spec(command: Command) -> ControlRequest {
        ControlRequest {
            command,
            buf_type: 0,
            index: 0,
            pixel_format: 0,
            width: 0,
            height: 0,
            member: Member::Absent,
        }
    }

    pub fn zeroed(command: Command) -> (r: ControlRequest)
        ensures
            r == ControlRequest::zeroed_spec(command),
    {
        ControlRequest {
            command,
            buf_type: 0,
            index: 0,
            pixel_format: 0,
            width: 0,
            height: 0,
            member: Member::Absent,
        }
    }

    pub fn with_buf_type(self, buf_type: u32) -> (r: ControlRequest)
        ensures
            r == (ControlRequest { buf_type, ..self }),
    {
        ControlRequest { buf_type, ..self }
    }

    pub fn with_index(self, index: u32) -> (r: ControlRequest)
        ensures
            r == (ControlRequest { index, ..self }),
    {
        ControlRequest { index, ..self }
    }

    pub fn with_pixel_format(self, pixel_format: u32) -> (r: ControlRequest)
        ensures
            r == (ControlRequest { pixel_format, ..self }),
    {
        ControlRequest { pixel_format, ..self }
    }

    pub fn with_size(self, width: u32, height: u32) -> (r: ControlRequest)
        ensures
            r == (ControlRequest { width, height, ..self }),
    {
        ControlRequest { width, height, ..self }
    }

    pub fn with_member(self, member: Member) -> (r: ControlRequest)
        ensures
            r == (ControlRequest { member, ..self }),
    {
        ControlRequest { member, ..self }
    }
}

} // verus!
