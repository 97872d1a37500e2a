//! The display scale and the keys that select it.

use vstd::prelude::*;

verus! {

/// Sixteenths in a scale of one.
pub const UNIT: u32 = 16;

/// Sixteenths in the largest scale, 16_777_216. One more whole step could
/// no longer be told apart from it in a single-precision transform, so
/// zooming in stops there.
pub const LARGEST: u32 = 0x1000_0000;

/// A key of the zoom control surface. Every key that selects no scale is `Other`.
#[derive(Clone, Copy, Debug, PartialEq, Eq, Hash, Structural)]
pub enum Key {
    Key1,
    Key2,
    Key3,
    Key4,
    Key5,
    Key6,
    Key7,
    Key8,
    Key9,
    Key0,
    Plus,
    Equals,
    Minus,
    Other,
}

/// The zoom factor between world units and screen pixels, counted in
/// sixteenths: one of 1/16, 1/8, 1/4, 1/2, or a whole number from 1 up to
/// 16_777_216.
#[derive(Clone, Copy, Debug, PartialEq, Eq, Hash, Structural)]
pub struct Scale {
    sixteenths: u32,
}

/// The sixteenths that a [`Scale`] can hold.
pub open spec fn is_step(sixteenths: int) -> bool {
    ||| sixteenths == 1
    ||| sixteenths == 2
    ||| sixteenths == 4
    ||| sixteenths == 8
    ||| (sixteenths % (UNIT as int) == 0 && UNIT <= sixteenths <= LARGEST)
}

/// One step in: below 0.9 the scale doubles, from there on it grows by one,
/// and stays where it is once it has reached the largest scale.
pub open spec fn zoomed_in(sixteenths: int) -> int {
    if 10 * sixteenths < 9 * UNIT {
        2 * sixteenths
    } else if sixteenths + UNIT <= LARGEST {
        sixteenths + UNIT
    } else {
        sixteenths
    }
}

/// One step out: up to 1.1 the scale halves, held between 1/16 and 1;
/// above that it shrinks by one.
pub open spec fn zoomed_out(sixteenths: int) -> int {
    if 10 * sixteenths <= 11 * UNIT {
        let half = sixteenths / 2;
        if half < 1 {
            1
        } else if half > UNIT {
            UNIT as int
        } else {
            half
        }
    } else {
        sixteenths - UNIT
    }
}

/// The scale, in sixteenths, that `key` selects when the current scale is
/// `sixteenths`; `None` for a key that selects none.
pub open spec fn selected(sixteenths: int, key: Key) -> Option<int> {
    match key {
        Key::Key1 => Some(1 * UNIT),
        Key::Key2 => Some(2 * UNIT),
        Key::Key3 => Some(3 * UNIT),
        Key::Key4 => Some(4 * UNIT),
        Key::Key5 => Some(5 * UNIT),
        Key::Key6 => Some(6 * UNIT),
        Key::Key7 => Some(7 * UNIT),
        Key::Key8 => Some(8 * UNIT),
        Key::Key9 => Some(9 * UNIT),
        Key::Key0 => Some(10 * UNIT),
        Key::Plus | Key::Equals => Some(zoomed_in(sixteenths)),
        Key::Minus => Some(zoomed_out(sixteenths)),
        Key::Other => None,
    }
}

/// What a frame's pressed keys select: the choice of the last key in
/// `pressed`, each key judged against the scale the frame started with.
pub open spec fn selected_by(sixteenths: int, pressed: Seq<Key>) -> Option<int> {
    if pressed.len() == 0 {
        None
    } else {
        selected(sixteenths, pressed.last())
    }
}

impl View for Scale {
    type V = int;

    /// The scale in sixteenths.
    closed spec fn view(&self) -> int {
        self.sixteenths as int
    }
}

impl Scale {
    #[verifier::type_invariant]
    spec fn well_formed(self) -> bool {
        is_step(self.sixteenths as int)
    }

    /// The scale of one, at which a world unit covers one pixel.
    pub fn one() -> (s: Scale)
        ensures
            s@ == UNIT,
    {
        Scale { sixteenths: UNIT }
    }

    /// The scale of `sixteenths / 16`, or `None` where that is not a step
    /// of the zoom control.
    pub fn from_sixteenths(sixteenths: u32) -> (s: Option<Scale>)
        ensures
            s is Some <==> is_step(sixteenths as int),
            s matches Some(scale) ==> scale@ == sixteenths,
    {
        if sixteenths == 1 || sixteenths == 2 || sixteenths == 4 || sixteenths == 8 || (sixteenths
            % UNIT == 0 && UNIT <= sixteenths && sixteenths <= LARGEST) {
            Some(Scale { sixteenths })
        } else {
            None
        }
    }

    /// The scale in sixteenths.
    pub fn sixteenths(&self) -> (n: u32)
        ensures
            n == self@,
            is_step(n as int),
    {
        proof {
            use_type_invariant(self);
        }
        self.sixteenths
    }

    /// The scale that `key` selects, if it selects one.
    pub fn apply(&self, key: Key) -> (s: Option<Scale>)
        ensures
            match s {
                Some(scale) => selected(self@, key) == Some(scale@),
                None => selected(self@, key) is None,
            },
    {
        proof {
            use_type_invariant(self);
        }
        let current: u32 = self.sixteenths;
        match key {
            Key::Key1 => Some(Scale { sixteenths: UNIT }),
            Key::Key2 => Some(Scale { sixteenths: 2 * UNIT }),
            Key::Key3 => Some(Scale { sixteenths: 3 * UNIT }),
            Key::Key4 => Some(Scale { sixteenths: 4 * UNIT }),
            Key::Key5 => Some(Scale { sixteenths: 5 * UNIT }),
            Key::Key6 => Some(Scale { sixteenths: 6 * UNIT }),
            Key::Key7 => Some(Scale { sixteenths: 7 * UNIT }),
            Key::Key8 => Some(Scale { sixteenths: 8 * UNIT }),
            Key::Key9 => Some(Scale { sixteenths: 9 * UNIT }),
            Key::Key0 => Some(Scale { sixteenths: 10 * UNIT }),
            Key::Plus | Key::Equals => {
                let next: u32 = if current < UNIT {
                    2 * current
                } else if current <= LARGEST - UNIT {
                    current + UNIT
                } else {
                    current
                };
                Some(Scale { sixteenths: next })
            },
            Key::Minus => {
                let next: u32 = if current == 1 {
                    1
                } else if current <= UNIT {
                    current / 2
                } else {
                    current - UNIT
                };
                Some(Scale { sixteenths: next })
            },
            Key::Other => None,
        }
    }
}

/// Two scales of the same number of sixteenths are the same scale.
pub proof fn scales_agree(a: Scale, b: Scale)
    requires
        a@ == b@,
    ensures
        a == b,
{
}

/// Every key turns a step of the zoom control into a step of the zoom control.
pub proof fn selected_is_a_step(sixteenths: int, key: Key)
    requires
        is_step(sixteenths),
    ensures
        selected(sixteenths, key) matches Some(next) ==> is_step(next),
{
}

/// The key "0" selects the scale of ten, whatever the scale was.
pub proof fn key0_selects_ten(sixteenths: int)
    ensures
        selected(sixteenths, Key::Key0) == Some(10 * UNIT as int),
{
}

/// Zooming out of a scale below the largest and back in returns to it,
/// except from 1/16, where zooming out has no effect.
pub proof fn zoom_out_then_in_returns(sixteenths: int)
    requires
        is_step(sixteenths),
        sixteenths != 1,
    ensures
        zoomed_in(zoomed_out(sixteenths)) == sixteenths,
{
}

} // verus!
