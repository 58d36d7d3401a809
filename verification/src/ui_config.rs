//! Placement settings as the overlay's UI crate models them.
use vstd::prelude::*;

use crate::config::{self as overlay_config, spec_corner_from, Alignment};
use crate::util::chars::string_from_str;

verus! {

/// Position of a section along one screen axis.
#[derive(Clone, Copy, Debug, PartialEq, Eq, Structural)]
pub enum AxisAlignment {
    Start,
    Center,
    End,
}

/// The axis alignment that corresponds to an overlay alignment.
pub open spec fn spec_axis(a: Alignment) -> AxisAlignment {
    match a {
        Alignment::Start => AxisAlignment::Start,
        Alignment::Center => AxisAlignment::Center,
        Alignment::End => AxisAlignment::End,
    }
}

fn axis(a: Alignment) -> (r: AxisAlignment)
    ensures
        r == spec_axis(a),
{
    match a {
        Alignment::Start => AxisAlignment::Start,
        Alignment::Center => AxisAlignment::Center,
        Alignment::End => AxisAlignment::End,
    }
}

impl AxisAlignment {
    /// The name of the alignment ("start", "center" or "end").
    pub fn to_string(&self) -> (s: String)
        ensures
            s@ == match *self {
                AxisAlignment::Start => "start"@,
                AxisAlignment::Center => "center"@,
                AxisAlignment::End => "end"@,
            },
    {
        match self {
            AxisAlignment::Start => string_from_str("start"),
            AxisAlignment::Center => string_from_str("center"),
            AxisAlignment::End => string_from_str("end"),
        }
    }
}

/// The screen corner (or edge center) where a section sits.
#[derive(Clone, Copy, Debug, PartialEq, Eq, Structural)]
pub struct CornerAlignment {
    pub x: AxisAlignment,
    pub y: AxisAlignment,
}

/// The (top, right, bottom, left) gaps that put a section `offset_x` and
/// `offset_y` pixels away from the edges it is aligned to.
pub open spec fn spec_to_gaps(a: CornerAlignment, offset_x: i32, offset_y: i32) -> (i32, i32, i32, i32) {
    let (top, bottom) = match a.y {
        AxisAlignment::Start => (offset_y, 0i32),
        AxisAlignment::End => (0i32, offset_y),
        AxisAlignment::Center => (0i32, 0i32),
    };
    let (left, right) = match a.x {
        AxisAlignment::Start => (offset_x, 0i32),
        AxisAlignment::End => (0i32, offset_x),
        AxisAlignment::Center => (0i32, 0i32),
    };
    (top, right, bottom, left)
}

impl CornerAlignment {
    /// Reads a placement name such as "bottomCenter", ignoring ASCII case;
    /// unknown names give the top left corner.
    pub fn from_str(s: &str) -> (a: CornerAlignment)
        ensures
            a.x == spec_axis(spec_corner_from(s@).x),
            a.y == spec_axis(spec_corner_from(s@).y),
    {
        let c = overlay_config::CornerAlignment::from_str(s);
        CornerAlignment { x: axis(c.x), y: axis(c.y) }
    }

    /// The layout gaps (top, right, bottom, left) for the given offsets.
    pub fn to_gaps(&self, offset_x: i32, offset_y: i32) -> (g: (i32, i32, i32, i32))
        ensures
            g == spec_to_gaps(*self, offset_x, offset_y),
    {
        let (top, bottom) = match self.y {
            AxisAlignment::Start => (offset_y, 0i32),
            AxisAlignment::End => (0i32, offset_y),
            AxisAlignment::Center => (0i32, 0i32),
        };
        let (left, right) = match self.x {
            AxisAlignment::Start => (offset_x, 0i32),
            AxisAlignment::End => (0i32, offset_x),
            AxisAlignment::Center => (0i32, 0i32),
        };
        (top, right, bottom, left)
    }
}

} // verus!
