//! Static geometry of a level: axis-aligned rectangles, given by their centre
//! and half-extents in micro-units, made once and never changed.

use vstd::prelude::*;

verus! {

/// A rectangle as mathematical integers.
pub struct RectModel {
    pub center_x: int,
    pub center_y: int,
    pub half_width: int,
    pub half_height: int,
}

impl RectModel {
    /// The x of the left edge.
    pub open spec fn left(self) -> int {
        self.center_x - self.half_width
    }

    /// The x of the right edge.
    pub open spec fn right(self) -> int {
        self.center_x + self.half_width
    }

    /// The y of the lower edge.
    pub open spec fn bottom(self) -> int {
        self.center_y - self.half_height
    }

    /// The y of the upper edge.
    pub open spec fn top(self) -> int {
        self.center_y + self.half_height
    }

    /// Both half-extents are positive and all four edges are `i64` values.
    pub open spec fn valid(self) -> bool {
        &&& self.half_width > 0
        &&& self.half_height > 0
        &&& i64::MIN <= self.center_x <= i64::MAX
        &&& i64::MIN <= self.center_y <= i64::MAX
        &&& i64::MIN <= self.left()
        &&& self.right() <= i64::MAX
        &&& i64::MIN <= self.bottom()
        &&& self.top() <= i64::MAX
    }
}

/// The rectangle with this centre and these half-extents.
pub open spec fn rect_of(
    center_x: i64,
    center_y: i64,
    half_width: i64,
    half_height: i64,
) -> RectModel {
    RectModel {
        center_x: center_x as int,
        center_y: center_y as int,
        half_width: half_width as int,
        half_height: half_height as int,
    }
}

/// The rectangle of these half-extents that stands on the line `y == bottom`,
/// centred at `center_x`.
pub open spec fn standing_on(
    bottom: i64,
    center_x: i64,
    half_width: i64,
    half_height: i64,
) -> RectModel {
    RectModel {
        center_x: center_x as int,
        center_y: bottom + half_height,
        half_width: half_width as int,
        half_height: half_height as int,
    }
}

/// A platform, a floor or a window: every value of this type is valid.
#[derive(Clone, Copy, Debug)]
pub struct Rect {
    center_x: i64,
    center_y: i64,
    half_width: i64,
    half_height: i64,
}

impl View for Rect {
    type V = RectModel;

    closed spec fn view(&self) -> RectModel {
        rect_of(self.center_x, self.center_y, self.half_width, self.half_height)
    }
}

impl Rect {
    /// What holds of every value of this type.
    #[verifier::type_invariant]
    pub open spec fn inv(self) -> bool {
        self@.valid()
    }

    /// The rectangle with this centre and these half-extents, if it is valid.
    pub fn new(center_x: i64, center_y: i64, half_width: i64, half_height: i64) -> (r: Option<Rect>)
        ensures
            r is Some <==> rect_of(center_x, center_y, half_width, half_height).valid(),
            r matches Some(rect) ==> rect@ == rect_of(center_x, center_y, half_width, half_height),
    {
        if half_width <= 0 || half_height <= 0 {
            return None;
        }
        if center_x < i64::MIN + half_width || center_x > i64::MAX - half_width {
            return None;
        }
        if center_y < i64::MIN + half_height || center_y > i64::MAX - half_height {
            return None;
        }
        Some(Rect { center_x, center_y, half_width, half_height })
    }

    /// The rectangle of these half-extents whose lower edge lies at `bottom`,
    /// if it is valid: how a platform stands on the lower edge of the window.
    pub fn resting_on(bottom: i64, center_x: i64, half_width: i64, half_height: i64) -> (r: Option<
        Rect,
    >)
        ensures
            r is Some <==> standing_on(bottom, center_x, half_width, half_height).valid(),
            r matches Some(rect) ==> rect@ == standing_on(bottom, center_x, half_width, half_height)
                && rect@.bottom() == bottom,
    {
        if half_height <= 0 || bottom > i64::MAX - half_height {
            return None;
        }
        Rect::new(center_x, bottom + half_height, half_width, half_height)
    }

    /// The x of the centre.
    pub fn center_x(&self) -> (r: i64)
        ensures
            r == self@.center_x,
    {
        self.center_x
    }

    /// The y of the centre.
    pub fn center_y(&self) -> (r: i64)
        ensures
            r == self@.center_y,
    {
        self.center_y
    }

    /// Half of the width.
    pub fn half_width(&self) -> (r: i64)
        ensures
            r == self@.half_width,
            r > 0,
    {
        proof {
            use_type_invariant(self);
        }
        self.half_width
    }

    /// Half of the height.
    pub fn half_height(&self) -> (r: i64)
        ensures
            r == self@.half_height,
            r > 0,
    {
        proof {
            use_type_invariant(self);
        }
        self.half_height
    }

    /// The x of the left edge.
    pub fn left(&self) -> (r: i64)
        ensures
            r == self@.left(),
    {
        proof {
            use_type_invariant(self);
        }
        self.center_x - self.half_width
    }

    /// The x of the right edge.
    pub fn right(&self) -> (r: i64)
        ensures
            r == self@.right(),
    {
        proof {
            use_type_invariant(self);
        }
        self.center_x + self.half_width
    }

    /// The y of the lower edge.
    pub fn bottom(&self) -> (r: i64)
        ensures
            r == self@.bottom(),
    {
        proof {
            use_type_invariant(self);
        }
        self.center_y - self.half_height
    }

    /// The y of the upper edge.
    pub fn top(&self) -> (r: i64)
        ensures
            r == self@.top(),
    {
        proof {
            use_type_invariant(self);
        }
        self.center_y + self.half_height
    }
}

} // verus!
