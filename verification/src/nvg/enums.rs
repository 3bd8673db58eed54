//! Enumerations and flag sets of the drawing interface, with the numbers the
//! host knows them by.

use vstd::prelude::*;

verus! {

/// The direction a path winds in.
#[derive(Debug, Clone, Copy, PartialEq, Eq, Structural)]
pub enum Winding {
    /// Counter-clockwise: used for solid shapes.
    Ccw,
    /// Clockwise: used for holes.
    Cw,
}

impl Winding {
    /// The number the host knows the value by.
    pub open spec fn value(self) -> i32 {
        match self {
            Winding::Ccw => 1,
            Winding::Cw => 2,
        }
    }

    /// The number the host knows the value by.
    pub fn to_raw(self) -> (raw: i32)
        ensures
            raw == self.value(),
    {
        match self {
            Winding::Ccw => 1,
            Winding::Cw => 2,
        }
    }

    /// The value the host knows by `raw`, if there is one.
    pub fn from_raw(raw: i32) -> (value: Option<Winding>)
        ensures
            match value {
                Some(v) => v.value() == raw,
                None => forall|v: Winding| v.value() != raw,
            },
    {
        if raw == 1 {
            Some(Winding::Ccw)
        } else if raw == 2 {
            Some(Winding::Cw)
        } else {
            None
        }
    }
}

/// Whether a path is a solid shape or a hole.
#[derive(Debug, Clone, Copy, PartialEq, Eq, Structural)]
pub enum Solidity {
    Solid,
    Hole,
}

impl Solidity {
    /// The number the host knows the value by.
    pub open spec fn value(self) -> i32 {
        match self {
            Solidity::Solid => 1,
            Solidity::Hole => 2,
        }
    }

    /// The number the host knows the value by.
    pub fn to_raw(self) -> (raw: i32)
        ensures
            raw == self.value(),
    {
        match self {
            Solidity::Solid => 1,
            Solidity::Hole => 2,
        }
    }

    /// The value the host knows by `raw`, if there is one.
    pub fn from_raw(raw: i32) -> (value: Option<Solidity>)
        ensures
            match value {
                Some(v) => v.value() == raw,
                None => forall|v: Solidity| v.value() != raw,
            },
    {
        if raw == 1 {
            Some(Solidity::Solid)
        } else if raw == 2 {
            Some(Solidity::Hole)
        } else {
            None
        }
    }
}

impl From<Solidity> for Winding {
    fn from(s: Solidity) -> (winding: Winding) {
        match s {
            Solidity::Solid => Winding::Ccw,
            Solidity::Hole => Winding::Cw,
        }
    }
}

impl vstd::std_specs::convert::FromSpecImpl<Solidity> for Winding {
    open spec fn obeys_from_spec() -> bool {
        true
    }

    open spec fn from_spec(s: Solidity) -> Winding {
        match s {
            Solidity::Solid => Winding::Ccw,
            Solidity::Hole => Winding::Cw,
        }
    }
}

/// A solidity and the winding it stands for are the same number to the host.
pub proof fn lemma_solidity_is_winding(s: Solidity)
    ensures
        <Winding as vstd::std_specs::convert::FromSpec<Solidity>>::from_spec(s).value() == s.value(),
{
}

/// How the end of a line is drawn.
#[derive(Debug, Clone, Copy, PartialEq, Eq, Structural)]
pub enum LineCap {
    Butt,
    Round,
    Square,
}

impl LineCap {
    /// The number the host knows the value by.
    pub open spec fn value(self) -> i32 {
        match self {
            LineCap::Butt => 0,
            LineCap::Round => 1,
            LineCap::Square => 2,
        }
    }

    /// The number the host knows the value by.
    pub fn to_raw(self) -> (raw: i32)
        ensures
            raw == self.value(),
    {
        match self {
            LineCap::Butt => 0,
            LineCap::Round => 1,
            LineCap::Square => 2,
        }
    }

    /// The value the host knows by `raw`, if there is one.
    pub fn from_raw(raw: i32) -> (value: Option<LineCap>)
        ensures
            match value {
                Some(v) => v.value() == raw,
                None => forall|v: LineCap| v.value() != raw,
            },
    {
        if raw == 0 {
            Some(LineCap::Butt)
        } else if raw == 1 {
            Some(LineCap::Round)
        } else if raw == 2 {
            Some(LineCap::Square)
        } else {
            None
        }
    }
}

/// How two line segments are joined.
#[derive(Debug, Clone, Copy, PartialEq, Eq, Structural)]
pub enum LineJoin {
    Miter,
    Round,
    Bevel,
}

impl LineJoin {
    /// The number the host knows the value by.
    pub open spec fn value(self) -> i32 {
        match self {
            LineJoin::Miter => 4,
            LineJoin::Round => 1,
            LineJoin::Bevel => 3,
        }
    }

    /// The number the host knows the value by.
    pub fn to_raw(self) -> (raw: i32)
        ensures
            raw == self.value(),
    {
        match self {
            LineJoin::Miter => 4,
            LineJoin::Round => 1,
            LineJoin::Bevel => 3,
        }
    }

    /// The value the host knows by `raw`, if there is one.
    pub fn from_raw(raw: i32) -> (value: Option<LineJoin>)
        ensures
            match value {
                Some(v) => v.value() == raw,
                None => forall|v: LineJoin| v.value() != raw,
            },
    {
        if raw == 4 {
            Some(LineJoin::Miter)
        } else if raw == 1 {
            Some(LineJoin::Round)
        } else if raw == 3 {
            Some(LineJoin::Bevel)
        } else {
            None
        }
    }
}

/// Text alignment: one horizontal and one vertical choice, combined with `|`.
#[derive(Debug, Clone, Copy, PartialEq, Eq, Structural)]
pub struct Align(pub i32);

impl Align {
    /// Align to the left.
    pub fn left() -> (flags: Self)
        ensures
            flags.0 == 0x01,
    {
        Align(0x01)
    }

    /// Center horizontally.
    pub fn center() -> (flags: Self)
        ensures
            flags.0 == 0x02,
    {
        Align(0x02)
    }

    /// Align to the right.
    pub fn right() -> (flags: Self)
        ensures
            flags.0 == 0x04,
    {
        Align(0x04)
    }

    /// Align to the top.
    pub fn top() -> (flags: Self)
        ensures
            flags.0 == 0x08,
    {
        Align(0x08)
    }

    /// Center vertically.
    pub fn middle() -> (flags: Self)
        ensures
            flags.0 == 0x10,
    {
        Align(0x10)
    }

    /// Align to the bottom.
    pub fn bottom() -> (flags: Self)
        ensures
            flags.0 == 0x20,
    {
        Align(0x20)
    }

    /// Align to the baseline.
    pub fn baseline() -> (flags: Self)
        ensures
            flags.0 == 0x40,
    {
        Align(0x40)
    }

    /// Whether every bit of `other` is set.
    pub fn contains(self, other: Align) -> (all_in: bool)
        ensures
            all_in == (self.0 & other.0 == other.0),
    {
        self.0 & other.0 == other.0
    }
}

impl core::ops::BitOr for Align {
    type Output = Align;

    fn bitor(self, rhs: Align) -> (flags: Align) {
        Align(self.0 | rhs.0)
    }
}

impl vstd::std_specs::ops::BitOrSpecImpl for Align {
    open spec fn obeys_bitor_spec() -> bool {
        true
    }

    open spec fn bitor_req(self, rhs: Align) -> bool {
        true
    }

    open spec fn bitor_spec(self, rhs: Align) -> Align {
        Align(self.0 | rhs.0)
    }
}

impl core::ops::BitOrAssign for Align {
    fn bitor_assign(&mut self, rhs: Align)
        ensures
            final(self).0 == old(self).0 | rhs.0,
    {
        self.0 = self.0 | rhs.0;
    }
}
impl From<Align> for i32 {
    fn from(a: Align) -> (raw: i32) {
        a.0
    }
}

impl vstd::std_specs::convert::FromSpecImpl<Align> for i32 {
    open spec fn obeys_from_spec() -> bool {
        true
    }

    open spec fn from_spec(a: Align) -> i32 {
        a.0
    }
}

/// How what is drawn is combined with what is there.
#[derive(Debug, Clone, Copy, PartialEq, Eq, Structural)]
pub enum CompositeOp {
    SourceOver,
    SourceIn,
    SourceOut,
    Atop,
    DestinationOver,
    DestinationIn,
    DestinationOut,
    DestinationAtop,
    Lighter,
    Copy,
    Xor,
}

impl CompositeOp {
    /// The number the host knows the value by.
    pub open spec fn value(self) -> i32 {
        match self {
            CompositeOp::SourceOver => 0,
            CompositeOp::SourceIn => 1,
            CompositeOp::SourceOut => 2,
            CompositeOp::Atop => 3,
            CompositeOp::DestinationOver => 4,
            CompositeOp::DestinationIn => 5,
            CompositeOp::DestinationOut => 6,
            CompositeOp::DestinationAtop => 7,
            CompositeOp::Lighter => 8,
            CompositeOp::Copy => 9,
            CompositeOp::Xor => 10,
        }
    }

    /// The number the host knows the value by.
    pub fn to_raw(self) -> (raw: i32)
        ensures
            raw == self.value(),
    {
        match self {
            CompositeOp::SourceOver => 0,
            CompositeOp::SourceIn => 1,
            CompositeOp::SourceOut => 2,
            CompositeOp::Atop => 3,
            CompositeOp::DestinationOver => 4,
            CompositeOp::DestinationIn => 5,
            CompositeOp::DestinationOut => 6,
            CompositeOp::DestinationAtop => 7,
            CompositeOp::Lighter => 8,
            CompositeOp::Copy => 9,
            CompositeOp::Xor => 10,
        }
    }

    /// The value the host knows by `raw`, if there is one.
    pub fn from_raw(raw: i32) -> (value: Option<CompositeOp>)
        ensures
            match value {
                Some(v) => v.value() == raw,
                None => forall|v: CompositeOp| v.value() != raw,
            },
    {
        if raw == 0 {
            Some(CompositeOp::SourceOver)
        } else if raw == 1 {
            Some(CompositeOp::SourceIn)
        } else if raw == 2 {
            Some(CompositeOp::SourceOut)
        } else if raw == 3 {
            Some(CompositeOp::Atop)
        } else if raw == 4 {
            Some(CompositeOp::DestinationOver)
        } else if raw == 5 {
            Some(CompositeOp::DestinationIn)
        } else if raw == 6 {
            Some(CompositeOp::DestinationOut)
        } else if raw == 7 {
            Some(CompositeOp::DestinationAtop)
        } else if raw == 8 {
            Some(CompositeOp::Lighter)
        } else if raw == 9 {
            Some(CompositeOp::Copy)
        } else if raw == 10 {
            Some(CompositeOp::Xor)
        } else {
            None
        }
    }
}

/// A factor of a blend function.
#[derive(Debug, Clone, Copy, PartialEq, Eq, Structural)]
pub enum BlendFactor {
    Zero,
    One,
    SrcColor,
    OneMinusSrcColor,
    DstColor,
    OneMinusDstColor,
    SrcAlpha,
    OneMinusSrcAlpha,
    DstAlpha,
    OneMinusDstAlpha,
    SrcAlphaSaturate,
}

impl BlendFactor {
    /// The number the host knows the value by.
    pub open spec fn value(self) -> i32 {
        match self {
            BlendFactor::Zero => 0x001,
            BlendFactor::One => 0x002,
            BlendFactor::SrcColor => 0x004,
            BlendFactor::OneMinusSrcColor => 0x008,
            BlendFactor::DstColor => 0x010,
            BlendFactor::OneMinusDstColor => 0x020,
            BlendFactor::SrcAlpha => 0x040,
            BlendFactor::OneMinusSrcAlpha => 0x080,
            BlendFactor::DstAlpha => 0x100,
            BlendFactor::OneMinusDstAlpha => 0x200,
            BlendFactor::SrcAlphaSaturate => 0x400,
        }
    }

    /// The number the host knows the value by.
    pub fn to_raw(self) -> (raw: i32)
        ensures
            raw == self.value(),
    {
        match self {
            BlendFactor::Zero => 0x001,
            BlendFactor::One => 0x002,
            BlendFactor::SrcColor => 0x004,
            BlendFactor::OneMinusSrcColor => 0x008,
            BlendFactor::DstColor => 0x010,
            BlendFactor::OneMinusDstColor => 0x020,
            BlendFactor::SrcAlpha => 0x040,
            BlendFactor::OneMinusSrcAlpha => 0x080,
            BlendFactor::DstAlpha => 0x100,
            BlendFactor::OneMinusDstAlpha => 0x200,
            BlendFactor::SrcAlphaSaturate => 0x400,
        }
    }

    /// The value the host knows by `raw`, if there is one.
    pub fn from_raw(raw: i32) -> (value: Option<BlendFactor>)
        ensures
            match value {
                Some(v) => v.value() == raw,
                None => forall|v: BlendFactor| v.value() != raw,
            },
    {
        if raw == 0x001 {
            Some(BlendFactor::Zero)
        } else if raw == 0x002 {
            Some(BlendFactor::One)
        } else if raw == 0x004 {
            Some(BlendFactor::SrcColor)
        } else if raw == 0x008 {
            Some(BlendFactor::OneMinusSrcColor)
        } else if raw == 0x010 {
            Some(BlendFactor::DstColor)
        } else if raw == 0x020 {
            Some(BlendFactor::OneMinusDstColor)
        } else if raw == 0x040 {
            Some(BlendFactor::SrcAlpha)
        } else if raw == 0x080 {
            Some(BlendFactor::OneMinusSrcAlpha)
        } else if raw == 0x100 {
            Some(BlendFactor::DstAlpha)
        } else if raw == 0x200 {
            Some(BlendFactor::OneMinusDstAlpha)
        } else if raw == 0x400 {
            Some(BlendFactor::SrcAlphaSaturate)
        } else {
            None
        }
    }
}

/// How an image is created, combined with `|`.
#[derive(Debug, Clone, Copy, PartialEq, Eq, Structural)]
pub struct ImageFlags(pub i32);

impl ImageFlags {
    /// No flag.
    pub fn none() -> (flags: Self)
        ensures
            flags.0 == 0x00,
    {
        ImageFlags(0x00)
    }

    /// Generate mipmaps when the image is created.
    pub fn generate_mipmaps() -> (flags: Self)
        ensures
            flags.0 == 0x01,
    {
        ImageFlags(0x01)
    }

    /// Repeat the image in x.
    pub fn repeat_x() -> (flags: Self)
        ensures
            flags.0 == 0x02,
    {
        ImageFlags(0x02)
    }

    /// Repeat the image in y.
    pub fn repeat_y() -> (flags: Self)
        ensures
            flags.0 == 0x04,
    {
        ImageFlags(0x04)
    }

    /// Flip the image in y when it is drawn.
    pub fn flip_y() -> (flags: Self)
        ensures
            flags.0 == 0x08,
    {
        ImageFlags(0x08)
    }

    /// The image has premultiplied alpha.
    pub fn premultiplied() -> (flags: Self)
        ensures
            flags.0 == 0x10,
    {
        ImageFlags(0x10)
    }

    /// Interpolate with the nearest pixel.
    pub fn nearest() -> (flags: Self)
        ensures
            flags.0 == 0x20,
    {
        ImageFlags(0x20)
    }

    /// Whether every bit of `other` is set.
    pub fn contains(self, other: ImageFlags) -> (all_in: bool)
        ensures
            all_in == (self.0 & other.0 == other.0),
    {
        self.0 & other.0 == other.0
    }
}

impl core::ops::BitOr for ImageFlags {
    type Output = ImageFlags;

    fn bitor(self, rhs: ImageFlags) -> (flags: ImageFlags) {
        ImageFlags(self.0 | rhs.0)
    }
}

impl vstd::std_specs::ops::BitOrSpecImpl for ImageFlags {
    open spec fn obeys_bitor_spec() -> bool {
        true
    }

    open spec fn bitor_req(self, rhs: ImageFlags) -> bool {
        true
    }

    open spec fn bitor_spec(self, rhs: ImageFlags) -> ImageFlags {
        ImageFlags(self.0 | rhs.0)
    }
}

impl core::ops::BitOrAssign for ImageFlags {
    fn bitor_assign(&mut self, rhs: ImageFlags)
        ensures
            final(self).0 == old(self).0 | rhs.0,
    {
        self.0 = self.0 | rhs.0;
    }
}
/// How a clip region is combined with the one in place.
#[derive(Debug, Clone, Copy, PartialEq, Eq, Structural)]
pub enum ClipMode {
    Replace,
    Intersect,
    Union,
    Xor,
    Exclude,
    Complement,
    Ignore,
    Use,
}

impl ClipMode {
    /// The number the host knows the value by.
    pub open spec fn value(self) -> i32 {
        match self {
            ClipMode::Replace => 0,
            ClipMode::Intersect => 1,
            ClipMode::Union => 2,
            ClipMode::Xor => 3,
            ClipMode::Exclude => 4,
            ClipMode::Complement => 5,
            ClipMode::Ignore => 8,
            ClipMode::Use => 16,
        }
    }

    /// The number the host knows the value by.
    pub fn to_raw(self) -> (raw: i32)
        ensures
            raw == self.value(),
    {
        match self {
            ClipMode::Replace => 0,
            ClipMode::Intersect => 1,
            ClipMode::Union => 2,
            ClipMode::Xor => 3,
            ClipMode::Exclude => 4,
            ClipMode::Complement => 5,
            ClipMode::Ignore => 8,
            ClipMode::Use => 16,
        }
    }

    /// The value the host knows by `raw`, if there is one.
    pub fn from_raw(raw: i32) -> (value: Option<ClipMode>)
        ensures
            match value {
                Some(v) => v.value() == raw,
                None => forall|v: ClipMode| v.value() != raw,
            },
    {
        if raw == 0 {
            Some(ClipMode::Replace)
        } else if raw == 1 {
            Some(ClipMode::Intersect)
        } else if raw == 2 {
            Some(ClipMode::Union)
        } else if raw == 3 {
            Some(ClipMode::Xor)
        } else if raw == 4 {
            Some(ClipMode::Exclude)
        } else if raw == 5 {
            Some(ClipMode::Complement)
        } else if raw == 8 {
            Some(ClipMode::Ignore)
        } else if raw == 16 {
            Some(ClipMode::Use)
        } else {
            None
        }
    }
}

} // verus!
