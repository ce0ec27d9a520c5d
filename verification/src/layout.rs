//! One-shot placement of two movable surfaces.
//!
//! Each surface carries a visibility flag and a one-shot placement flag.
//! Opening a surface sets both; on the next frame a target position is
//! computed — surface A centered in the available area, surface B docked to
//! A's just-rendered rectangle when A is on screen, centered otherwise — and
//! the one-shot flag is cleared whatever branch ran, so every open arms
//! exactly one placement.
//!
//! Coordinates are whole logical points; the shell converts from and to the
//! renderer's own units.

use vstd::prelude::*;

verus! {

/// A point on the screen, in whole logical points.
#[derive(Clone, Copy, PartialEq, Eq, Structural, Debug)]
pub struct Pos {
    pub x: i64,
    pub y: i64,
}

/// An on-screen rectangle as the renderer reports it after a frame.
#[derive(Clone, Copy, PartialEq, Eq, Structural, Debug)]
pub struct Rect {
    pub left: i64,
    pub top: i64,
    pub right: i64,
    pub bottom: i64,
}

/// Surface A's fixed default width.
pub const WINDOW_A_WIDTH: i64 = 260;

/// Surface A's fixed default height.
pub const WINDOW_A_HEIGHT: i64 = 120;

/// Surface B's fixed default width.
pub const WINDOW_B_WIDTH: i64 = 400;

/// Surface B's fixed default height.
pub const WINDOW_B_HEIGHT: i64 = 180;

/// The fixed gap between A's right edge and B's left edge when B docks.
pub const SIDE_GAP: i64 = 12;

/// The window-layout app: two visibility flags and two one-shot placement
/// flags, nothing else.
#[derive(Clone, Copy, PartialEq, Eq, Structural, Debug)]
pub struct MyApp {
    pub show_a: bool,
    pub show_b: bool,
    pub place_a_on_next_frame: bool,
    pub place_b_on_next_frame: bool,
}

/// Opening A: visible, and armed for one placement.
pub open spec fn open_a_t(s: MyApp) -> MyApp {
    MyApp {
        show_a: true,
        show_b: s.show_b,
        place_a_on_next_frame: true,
        place_b_on_next_frame: s.place_b_on_next_frame,
    }
}

/// Closing A touches nothing but the visibility flag.
pub open spec fn close_a_t(s: MyApp) -> MyApp {
    MyApp {
        show_a: false,
        show_b: s.show_b,
        place_a_on_next_frame: s.place_a_on_next_frame,
        place_b_on_next_frame: s.place_b_on_next_frame,
    }
}

/// Opening B: visible, and armed for one placement.
pub open spec fn open_b_t(s: MyApp) -> MyApp {
    MyApp {
        show_a: s.show_a,
        show_b: true,
        place_a_on_next_frame: s.place_a_on_next_frame,
        place_b_on_next_frame: true,
    }
}

/// Closing B touches nothing but the visibility flag.
pub open spec fn close_b_t(s: MyApp) -> MyApp {
    MyApp {
        show_a: s.show_a,
        show_b: false,
        place_a_on_next_frame: s.place_a_on_next_frame,
        place_b_on_next_frame: s.place_b_on_next_frame,
    }
}

/// A's frame pass consumes A's one-shot flag, whatever branch ran.
pub open spec fn frame_a_t(s: MyApp) -> MyApp {
    MyApp {
        show_a: s.show_a,
        show_b: s.show_b,
        place_a_on_next_frame: false,
        place_b_on_next_frame: s.place_b_on_next_frame,
    }
}

/// B's frame pass consumes B's one-shot flag, whatever branch ran.
pub open spec fn frame_b_t(s: MyApp) -> MyApp {
    MyApp {
        show_a: s.show_a,
        show_b: s.show_b,
        place_a_on_next_frame: s.place_a_on_next_frame,
        place_b_on_next_frame: false,
    }
}

/// A surface of size `w` by `h` centered on `center`.
pub open spec fn centered_pos(center: Pos, w: int, h: int) -> Pos {
    Pos { x: (center.x - w / 2) as i64, y: (center.y - h / 2) as i64 }
}

/// B docked to A's rendered rectangle: right of A's right edge by the fixed
/// gap, top-aligned with A.
pub open spec fn beside_pos(a_rect: Rect) -> Pos {
    Pos { x: (a_rect.right + SIDE_GAP) as i64, y: a_rect.top }
}

/// The position A's frame pass computes: only when A is visible and armed.
pub open spec fn a_placement_t(s: MyApp, center: Pos) -> Option<Pos> {
    if s.show_a && s.place_a_on_next_frame {
        Some(centered_pos(center, WINDOW_A_WIDTH as int, WINDOW_A_HEIGHT as int))
    } else {
        None
    }
}

/// The position B's frame pass computes: only when B is visible and armed;
/// docked to A when A is visible and rendered a rectangle this frame,
/// centered otherwise.
pub open spec fn b_placement_t(s: MyApp, center: Pos, a_rect: Option<Rect>) -> Option<Pos> {
    if s.show_b && s.place_b_on_next_frame {
        match a_rect {
            Some(r) => if s.show_a {
                Some(beside_pos(r))
            } else {
                Some(centered_pos(center, WINDOW_B_WIDTH as int, WINDOW_B_HEIGHT as int))
            },
            None => Some(centered_pos(center, WINDOW_B_WIDTH as int, WINDOW_B_HEIGHT as int)),
        }
    } else {
        None
    }
}

impl Default for MyApp {
    /// Both surfaces closed, neither placement armed.
    fn default() -> (r: MyApp)
        ensures
            r == (MyApp {
                show_a: false,
                show_b: false,
                place_a_on_next_frame: false,
                place_b_on_next_frame: false,
            }),
    {
        MyApp {
            show_a: false,
            show_b: false,
            place_a_on_next_frame: false,
            place_b_on_next_frame: false,
        }
    }
}

impl MyApp {
    /// A fresh app; this app never restores persisted state.
    pub fn new() -> (r: MyApp)
        ensures
            r == (MyApp {
                show_a: false,
                show_b: false,
                place_a_on_next_frame: false,
                place_b_on_next_frame: false,
            }),
    {
        MyApp::default()
    }

    /// The Open A button: shows A and arms its one placement.
    pub fn open_a(&mut self)
        ensures
            *final(self) == open_a_t(*old(self)),
    {
        self.show_a = true;
        self.place_a_on_next_frame = true;
    }

    /// The Close A button.
    pub fn close_a(&mut self)
        ensures
            *final(self) == close_a_t(*old(self)),
    {
        self.show_a = false;
    }

    /// The Open B button: shows B and arms its one placement.
    pub fn open_b(&mut self)
        ensures
            *final(self) == open_b_t(*old(self)),
    {
        self.show_b = true;
        self.place_b_on_next_frame = true;
    }

    /// The Close B button.
    pub fn close_b(&mut self)
        ensures
            *final(self) == close_b_t(*old(self)),
    {
        self.show_b = false;
    }

    /// A's frame pass: hands back the one-shot target position when A is
    /// visible and armed, and consumes the flag whatever branch ran. The
    /// bounds on `center` only keep the fixed-size arithmetic inside `i64`.
    pub fn frame_a(&mut self, center: Pos) -> (placement: Option<Pos>)
        requires
            center.x >= i64::MIN + WINDOW_A_WIDTH / 2,
            center.y >= i64::MIN + WINDOW_A_HEIGHT / 2,
        ensures
            *final(self) == frame_a_t(*old(self)),
            placement == a_placement_t(*old(self), center),
    {
        let placement: Option<Pos> = if self.show_a && self.place_a_on_next_frame {
            Some(Pos { x: center.x - WINDOW_A_WIDTH / 2, y: center.y - WINDOW_A_HEIGHT / 2 })
        } else {
            None
        };
        self.place_a_on_next_frame = false;
        placement
    }

    /// B's frame pass: hands back the one-shot target position when B is
    /// visible and armed — docked to the rectangle A just rendered when A is
    /// visible, centered otherwise — and consumes the flag whatever branch
    /// ran. The bounds only keep the fixed-size arithmetic inside `i64`.
    pub fn frame_b(&mut self, center: Pos, a_rect: Option<Rect>) -> (placement: Option<Pos>)
        requires
            center.x >= i64::MIN + WINDOW_B_WIDTH / 2,
            center.y >= i64::MIN + WINDOW_B_HEIGHT / 2,
            (match a_rect {
                Some(r) => r.right <= i64::MAX - SIDE_GAP,
                None => true,
            }),
        ensures
            *final(self) == frame_b_t(*old(self)),
            placement == b_placement_t(*old(self), center, a_rect),
    {
        let placement: Option<Pos> = if self.show_b && self.place_b_on_next_frame {
            match a_rect {
                Some(r) => if self.show_a {
                    Some(Pos { x: r.right + SIDE_GAP, y: r.top })
                } else {
                    Some(
                        Pos {
                            x: center.x - WINDOW_B_WIDTH / 2,
                            y: center.y - WINDOW_B_HEIGHT / 2,
                        },
                    )
                },
                None => Some(
                    Pos { x: center.x - WINDOW_B_WIDTH / 2, y: center.y - WINDOW_B_HEIGHT / 2 },
                ),
            }
        } else {
            None
        };
        self.place_b_on_next_frame = false;
        placement
    }
}

/// One-shot placement: opening a surface arms its placement flag for exactly
/// the one frame pass that follows — the pass consumes it whatever branch
/// ran, a further pass finds it cold, and neither surface's open or pass
/// touches the other surface's flag.
pub proof fn lemma_place_flag_is_one_shot(s: MyApp)
    ensures
        open_a_t(s).place_a_on_next_frame,
        !frame_a_t(open_a_t(s)).place_a_on_next_frame,
        !frame_a_t(frame_a_t(open_a_t(s))).place_a_on_next_frame,
        open_b_t(s).place_b_on_next_frame,
        !frame_b_t(open_b_t(s)).place_b_on_next_frame,
        !frame_b_t(frame_b_t(open_b_t(s))).place_b_on_next_frame,
        open_a_t(s).place_b_on_next_frame == s.place_b_on_next_frame,
        open_b_t(s).place_a_on_next_frame == s.place_a_on_next_frame,
        frame_a_t(s).place_b_on_next_frame == s.place_b_on_next_frame,
        frame_b_t(s).place_a_on_next_frame == s.place_a_on_next_frame,
{
}

/// Closing and reopening a surface re-arms exactly one placement: the flag
/// is cold after the pass that follows one open, hot again right after the
/// next open, whatever happened in between.
pub proof fn lemma_reopen_rearms(s: MyApp)
    ensures
        !frame_a_t(open_a_t(s)).place_a_on_next_frame,
        open_a_t(close_a_t(frame_a_t(open_a_t(s)))).place_a_on_next_frame,
        !frame_b_t(open_b_t(s)).place_b_on_next_frame,
        open_b_t(close_b_t(frame_b_t(open_b_t(s)))).place_b_on_next_frame,
{
}

} // verus!
