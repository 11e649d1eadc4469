//! How axis labels look.
use vstd::prelude::*;

verus! {

/// Where a label's text sits relative to its tick.
#[derive(Debug, Clone, Copy, PartialEq, Eq, Structural)]
pub enum TextAlignment {
    /// The text starts at the tick.
    Start,
    /// The text is centred on the tick.
    Center,
    /// The text ends at the tick.
    End,
}

impl Default for TextAlignment {
    fn default() -> (r: Self)
        ensures
            r == TextAlignment::Center,
    {
        TextAlignment::Center
    }
}

/// The quarter turn nearest to `degrees` among 0, 90, 180 and 270; angles
/// of more than 315 degrees give 0.
pub open spec fn snap_rotation(degrees: u16) -> u16 {
    if degrees <= 45 {
        0
    } else if degrees <= 135 {
        90
    } else if degrees <= 225 {
        180
    } else if degrees <= 315 {
        270
    } else {
        0
    }
}

/// Law: for an angle below a full turn, the snapped rotation is a quarter
/// turn at most 45 degrees away from it around the circle.
pub proof fn law_rotation_is_nearest_quarter(degrees: u16)
    requires
        degrees < 360,
    ensures
        snap_rotation(degrees) % 90 == 0,
        snap_rotation(degrees) < 360,
        -45 <= degrees - snap_rotation(degrees) <= 45 || (snap_rotation(degrees) == 0 && 360
            - degrees <= 45),
{
}

/// The style of axis labels in colour type `C`.
#[derive(Debug, Clone, Copy, PartialEq, Eq)]
pub struct LabelStyle<C> {
    /// Text colour.
    pub color: C,
    /// Font size.
    pub font_size: u32,
    /// Whether labels are shown.
    pub visible: bool,
    /// Where the text sits relative to the tick.
    pub alignment: TextAlignment,
    /// Rotation in degrees: 0, 90, 180 or 270.
    pub rotation: u16,
}

impl<C> LabelStyle<C> {
    /// Visible, centred, unrotated labels of size 12 in `color`.
    pub fn new(color: C) -> (r: Self)
        ensures
            r == (LabelStyle {
                color,
                font_size: 12,
                visible: true,
                alignment: TextAlignment::Center,
                rotation: 0,
            }),
    {
        LabelStyle { color, font_size: 12, visible: true, alignment: TextAlignment::Center, rotation: 0 }
    }

    /// The same style in another colour.
    pub fn with_color(self, color: C) -> (r: Self)
        ensures
            r == (LabelStyle { color, ..self }),
    {
        LabelStyle { color, ..self }
    }

    /// The same style with another font size.
    pub fn with_font_size(self, size: u32) -> (r: Self)
        ensures
            r == (LabelStyle { font_size: size, ..self }),
    {
        LabelStyle { font_size: size, ..self }
    }

    /// The same style with another alignment.
    pub fn with_alignment(self, alignment: TextAlignment) -> (r: Self)
        ensures
            r == (LabelStyle { alignment, ..self }),
    {
        LabelStyle { alignment, ..self }
    }

    /// The same style rotated to the quarter turn nearest `degrees`.
    pub fn with_rotation(self, degrees: u16) -> (r: Self)
        ensures
            r == (LabelStyle { rotation: snap_rotation(degrees), ..self }),
    {
        let rotation: u16 = if degrees <= 45 {
            0
        } else if degrees <= 135 {
            90
        } else if degrees <= 225 {
            180
        } else if degrees <= 315 {
            270
        } else {
            0
        };
        LabelStyle { rotation, ..self }
    }

    /// The same style with labels hidden.
    pub fn hidden(self) -> (r: Self)
        ensures
            r == (LabelStyle { visible: false, ..self }),
    {
        LabelStyle { visible: false, ..self }
    }

    /// The same style with labels shown.
    pub fn visible(self) -> (r: Self)
        ensures
            r == (LabelStyle { visible: true, ..self }),
    {
        LabelStyle { visible: true, ..self }
    }
}

} // verus!
