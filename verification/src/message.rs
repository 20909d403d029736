//! Wire messages and validated write operations, with their models.

use vstd::prelude::*;

verus! {

/// One typed argument of a wire message. A float argument is carried as its
/// IEEE-754 single-precision bit pattern, exactly as the four bytes that
/// cross the wire: equal bit patterns mean equal wire bytes.
#[derive(Debug, PartialEq)]
pub enum WireValue {
    Int(i32),
    Float(u32),
    Bool(bool),
    Str(String),
}

/// Model of one wire argument.
pub enum SpecWireValue {
    Int(i32),
    Float(u32),
    Bool(bool),
    Str(Seq<char>),
}

impl View for WireValue {
    type V = SpecWireValue;

    open spec fn view(&self) -> SpecWireValue {
        match self {
            WireValue::Int(v) => SpecWireValue::Int(*v),
            WireValue::Float(b) => SpecWireValue::Float(*b),
            WireValue::Bool(b) => SpecWireValue::Bool(*b),
            WireValue::Str(s) => SpecWireValue::Str(s@),
        }
    }
}

impl DeepView for WireValue {
    type V = SpecWireValue;

    open spec fn deep_view(&self) -> SpecWireValue {
        self.view()
    }
}

/// A complete wire message: an address string plus positional arguments.
#[derive(Debug, PartialEq)]
pub struct WireMessage {
    pub addr: String,
    pub args: Vec<WireValue>,
}

/// Model of a wire message.
pub struct SpecWireMessage {
    pub addr: Seq<char>,
    pub args: Seq<SpecWireValue>,
}

impl View for WireMessage {
    type V = SpecWireMessage;

    open spec fn view(&self) -> SpecWireMessage {
        SpecWireMessage { addr: self.addr@, args: self.args.deep_view() }
    }
}

impl DeepView for WireMessage {
    type V = SpecWireMessage;

    open spec fn deep_view(&self) -> SpecWireMessage {
        self.view()
    }
}

/// A fully validated engine mutation, ready for the host to execute. Volume
/// and pan values are normalized wire values, as bit patterns.
#[derive(Debug, PartialEq)]
pub enum WriteOp {
    SetName { guid: String, name: String },
    SetSelected { guid: String, selected: bool },
    SetVolume { guid: String, volume: u32 },
    SetPan { guid: String, pan: u32 },
    SetMute { guid: String, mute: bool },
    SetSolo { guid: String, solo: bool },
    SetRecArm { guid: String, rec_arm: bool },
    SetColor { guid: String, color: i32 },
    SetSendVolume { guid: String, send_index: u32, volume: u32 },
    SetSendPan { guid: String, send_index: u32, pan: u32 },
    NoOp,
}

/// Model of a validated engine mutation.
pub enum SpecWriteOp {
    SetName { guid: Seq<char>, name: Seq<char> },
    SetSelected { guid: Seq<char>, selected: bool },
    SetVolume { guid: Seq<char>, volume: u32 },
    SetPan { guid: Seq<char>, pan: u32 },
    SetMute { guid: Seq<char>, mute: bool },
    SetSolo { guid: Seq<char>, solo: bool },
    SetRecArm { guid: Seq<char>, rec_arm: bool },
    SetColor { guid: Seq<char>, color: i32 },
    SetSendVolume { guid: Seq<char>, send_index: u32, volume: u32 },
    SetSendPan { guid: Seq<char>, send_index: u32, pan: u32 },
    NoOp,
}

impl View for WriteOp {
    type V = SpecWriteOp;

    open spec fn view(&self) -> SpecWriteOp {
        match self {
            WriteOp::SetName { guid, name } => SpecWriteOp::SetName {
                guid: guid@,
                name: name@,
            },
            WriteOp::SetSelected { guid, selected } => SpecWriteOp::SetSelected {
                guid: guid@,
                selected: *selected,
            },
            WriteOp::SetVolume { guid, volume } => SpecWriteOp::SetVolume {
                guid: guid@,
                volume: *volume,
            },
            WriteOp::SetPan { guid, pan } => SpecWriteOp::SetPan { guid: guid@, pan: *pan },
            WriteOp::SetMute { guid, mute } => SpecWriteOp::SetMute { guid: guid@, mute: *mute },
            WriteOp::SetSolo { guid, solo } => SpecWriteOp::SetSolo { guid: guid@, solo: *solo },
            WriteOp::SetRecArm { guid, rec_arm } => SpecWriteOp::SetRecArm {
                guid: guid@,
                rec_arm: *rec_arm,
            },
            WriteOp::SetColor { guid, color } => SpecWriteOp::SetColor {
                guid: guid@,
                color: *color,
            },
            WriteOp::SetSendVolume { guid, send_index, volume } => SpecWriteOp::SetSendVolume {
                guid: guid@,
                send_index: *send_index,
                volume: *volume,
            },
            WriteOp::SetSendPan { guid, send_index, pan } => SpecWriteOp::SetSendPan {
                guid: guid@,
                send_index: *send_index,
                pan: *pan,
            },
            WriteOp::NoOp => SpecWriteOp::NoOp,
        }
    }
}

/// The first argument read as a boolean; push notifications and remote
/// controllers use true/false and 0/1 interchangeably.
pub open spec fn spec_bool_arg(args: Seq<SpecWireValue>) -> Option<bool> {
    if args.len() == 0 {
        None
    } else {
        match args[0] {
            SpecWireValue::Bool(b) => Some(b),
            SpecWireValue::Int(v) => Some(v != 0),
            _ => None,
        }
    }
}

/// The first argument read as an integer.
pub open spec fn spec_int_arg(args: Seq<SpecWireValue>) -> Option<i32> {
    if args.len() == 0 {
        None
    } else {
        match args[0] {
            SpecWireValue::Int(v) => Some(v),
            _ => None,
        }
    }
}

/// The first argument read as a float bit pattern.
pub open spec fn spec_float_arg(args: Seq<SpecWireValue>) -> Option<u32> {
    if args.len() == 0 {
        None
    } else {
        match args[0] {
            SpecWireValue::Float(b) => Some(b),
            _ => None,
        }
    }
}

/// The bit patterns of normalized volume values: floats in [0, 1]. For
/// non-negative floats the IEEE-754 bit pattern is ordered like the value,
/// 1.0 is 0x3f80_0000, and every NaN pattern lies above it, so one unsigned
/// comparison admits exactly [0.0, 1.0]; the pattern 0x8000_0000 is -0.0,
/// which IEEE comparison puts in range as well.
pub open spec fn spec_volume_in_range(bits: u32) -> bool {
    bits <= 0x3f80_0000 || bits == 0x8000_0000
}

/// The bit patterns of pan values: floats in [-1, 1]. Clearing the sign bit
/// leaves the magnitude's pattern, and magnitudes up to 1.0 are exactly the
/// patterns up to 0x3f80_0000; NaN patterns lie above it.
pub open spec fn spec_pan_in_range(bits: u32) -> bool {
    bits & 0x7fff_ffff <= 0x3f80_0000
}

/// Decides membership of the normalized volume range on the bit pattern.
pub fn volume_in_range(bits: u32) -> (r: bool)
    ensures
        r == spec_volume_in_range(bits),
{
    bits <= 0x3f80_0000 || bits == 0x8000_0000
}

/// Decides membership of the pan range on the bit pattern.
pub fn pan_in_range(bits: u32) -> (r: bool)
    ensures
        r == spec_pan_in_range(bits),
{
    bits & 0x7fff_ffff <= 0x3f80_0000
}

/// The first argument read as a string.
pub open spec fn spec_str_arg(args: Seq<SpecWireValue>) -> Option<Seq<char>> {
    if args.len() == 0 {
        None
    } else {
        match args[0] {
            SpecWireValue::Str(s) => Some(s),
            _ => None,
        }
    }
}

pub fn bool_arg(args: &Vec<WireValue>) -> (r: Option<bool>)
    ensures
        r == spec_bool_arg(args.deep_view()),
{
    if args.len() == 0 {
        None
    } else {
        proof {
            assert(args.deep_view()[0] == args@[0]@);
        }
        match &args[0] {
            WireValue::Bool(b) => Some(*b),
            WireValue::Int(v) => Some(*v != 0),
            _ => None,
        }
    }
}

pub fn int_arg(args: &Vec<WireValue>) -> (r: Option<i32>)
    ensures
        r == spec_int_arg(args.deep_view()),
{
    if args.len() == 0 {
        None
    } else {
        proof {
            assert(args.deep_view()[0] == args@[0]@);
        }
        match &args[0] {
            WireValue::Int(v) => Some(*v),
            _ => None,
        }
    }
}

pub fn float_arg(args: &Vec<WireValue>) -> (r: Option<u32>)
    ensures
        r == spec_float_arg(args.deep_view()),
{
    if args.len() == 0 {
        None
    } else {
        proof {
            assert(args.deep_view()[0] == args@[0]@);
        }
        match &args[0] {
            WireValue::Float(b) => Some(*b),
            _ => None,
        }
    }
}

pub fn str_arg(args: &Vec<WireValue>) -> (r: Option<String>)
    ensures
        r is Some <==> spec_str_arg(args.deep_view()) is Some,
        r matches Some(s) ==> Some(s@) == spec_str_arg(args.deep_view()),
{
    if args.len() == 0 {
        None
    } else {
        proof {
            assert(args.deep_view()[0] == args@[0]@);
        }
        match &args[0] {
            WireValue::Str(s) => Some(s.clone()),
            _ => None,
        }
    }
}

} // verus!
