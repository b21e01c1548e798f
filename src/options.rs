use vstd::prelude::*;

verus! {

/// Preferred side of the trigger and alignment along it.
#[derive(Clone, Copy, Debug, PartialEq, Eq, Structural)]
pub enum Placement {
    TopStart,
    TopCenter,
    TopEnd,
    BottomStart,
    BottomCenter,
    BottomEnd,
    LeftStart,
    LeftCenter,
    LeftEnd,
    RightStart,
    RightCenter,
    RightEnd,
}

/// Alignment on the transverse axis.
#[derive(Clone, Copy, Debug, PartialEq, Eq, Structural)]
pub enum PlacementModifier {
    Center,
    Start,
    End,
}

/// Corrections applied when the element overflows the scrollable bounds.
#[derive(Clone, Copy, Debug, PartialEq, Eq, Structural)]
pub enum Middleware {
    /// Move to the opposite side of the trigger on the primary axis.
    Flip,
    /// Slide along the transverse axis to stay visible and attached.
    Shift,
}

impl Placement {
    /// The side is Top or Bottom, so the primary axis is vertical.
    pub open spec fn vertical(self) -> bool {
        match self {
            Placement::TopStart | Placement::TopCenter | Placement::TopEnd
            | Placement::BottomStart | Placement::BottomCenter | Placement::BottomEnd => true,
            _ => false,
        }
    }

    pub open spec fn top(self) -> bool {
        match self {
            Placement::TopStart | Placement::TopCenter | Placement::TopEnd => true,
            _ => false,
        }
    }

    pub open spec fn left(self) -> bool {
        match self {
            Placement::LeftStart | Placement::LeftCenter | Placement::LeftEnd => true,
            _ => false,
        }
    }

    pub open spec fn modifier(self) -> PlacementModifier {
        match self {
            Placement::TopStart | Placement::BottomStart | Placement::LeftStart
            | Placement::RightStart => PlacementModifier::Start,
            Placement::TopCenter | Placement::BottomCenter | Placement::LeftCenter
            | Placement::RightCenter => PlacementModifier::Center,
            _ => PlacementModifier::End,
        }
    }

    /// Returns `true` if the placement is on the Top or Bottom side.
    pub fn is_vertical(&self) -> (r: bool)
        ensures
            r == self.vertical(),
    {
        match self {
            Placement::TopStart | Placement::TopCenter | Placement::TopEnd
            | Placement::BottomStart | Placement::BottomCenter | Placement::BottomEnd => true,
            _ => false,
        }
    }

    /// Returns `true` if the side is Top.
    pub fn is_top(&self) -> (r: bool)
        ensures
            r == self.top(),
    {
        match self {
            Placement::TopStart | Placement::TopCenter | Placement::TopEnd => true,
            _ => false,
        }
    }

    /// Returns `true` if the side is Left.
    pub fn is_left(&self) -> (r: bool)
        ensures
            r == self.left(),
    {
        match self {
            Placement::LeftStart | Placement::LeftCenter | Placement::LeftEnd => true,
            _ => false,
        }
    }

    /// The alignment (Start, Center or End) of this placement.
    pub fn get_modifier(&self) -> (r: PlacementModifier)
        ensures
            r == self.modifier(),
    {
        match self {
            Placement::TopStart | Placement::BottomStart | Placement::LeftStart
            | Placement::RightStart => PlacementModifier::Start,
            Placement::TopCenter | Placement::BottomCenter | Placement::LeftCenter
            | Placement::RightCenter => PlacementModifier::Center,
            _ => PlacementModifier::End,
        }
    }
}

/// Configuration of one position computation.
#[derive(Clone, Debug)]
pub struct FloatingOptions {
    /// Enabled corrections; order and repetition do not matter.
    pub middleware: Vec<Middleware>,
    /// Gap between trigger and element along the primary axis.
    pub offset: i32,
    /// Minimum overlap kept with the trigger's span when shifting.
    pub padding: i32,
    pub placement: Placement,
}

impl FloatingOptions {
    pub open spec fn flip_enabled(self) -> bool {
        self.middleware@.contains(Middleware::Flip)
    }

    pub open spec fn shift_enabled(self) -> bool {
        self.middleware@.contains(Middleware::Shift)
    }

    fn enables(&self, m: Middleware) -> (r: bool)
        ensures
            r == self.middleware@.contains(m),
    {
        let mut i: usize = 0;
        while i < self.middleware.len()
            invariant
                0 <= i <= self.middleware@.len(),
                forall|j: int| 0 <= j < i ==> self.middleware@[j] != m,
            decreases self.middleware@.len() - i,
        {
            if self.middleware[i] == m {
                return true;
            }
            i = i + 1;
        }
        false
    }

    /// Returns `true` if [Middleware::Flip] is enabled.
    pub fn can_flip(&self) -> (r: bool)
        ensures
            r == self.flip_enabled(),
    {
        self.enables(Middleware::Flip)
    }

    /// Returns `true` if [Middleware::Shift] is enabled.
    pub fn can_shift(&self) -> (r: bool)
        ensures
            r == self.shift_enabled(),
    {
        self.enables(Middleware::Shift)
    }
}

impl Default for FloatingOptions {
    /// Flip and Shift enabled, offset 1, padding 0, [Placement::BottomStart].
    fn default() -> (r: Self)
        ensures
            r.middleware@ == seq![Middleware::Flip, Middleware::Shift],
            r.offset == 1,
            r.padding == 0,
            r.placement == Placement::BottomStart,
    {
        FloatingOptions {
            middleware: vec![Middleware::Flip, Middleware::Shift],
            offset: 1,
            padding: 0,
            placement: Placement::BottomStart,
        }
    }
}

} // verus!
