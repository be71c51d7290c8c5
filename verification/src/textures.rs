//! What the core needs to know of textures: the frames of an animation and
//! how a sprite sheet is cut into them.

use vstd::prelude::*;

verus! {

/// The frames of an animated texture: the frame that is shown at each tick
/// of one run of the animation.
#[derive(Clone, Debug)]
pub struct AnimationMetadata {
    /// One index per tick.
    pub animation_frames: Vec<u16>,
}

/// A frame of an animation and the number of ticks for which it is shown.
/// A number of ticks of minus one stands for the number that the animation
/// gives to every frame that has none of its own.
#[derive(Clone, Copy, Debug, PartialEq, Eq, Structural)]
pub struct TimedFrame {
    pub frame_index: i32,
    pub frame_time: i32,
}

/// The low sixteen bits of a frame index.
pub open spec fn frame_number(index: i32) -> u16 {
    (index as int % 0x1_0000) as u16
}

/// The number of ticks for which a frame is shown: its own number, or that
/// of the animation; none where that is negative.
pub open spec fn ticks_of(frame: TimedFrame, default_time: i32) -> nat {
    let time = if frame.frame_time == -1 {
        default_time
    } else {
        frame.frame_time
    };
    if time > 0 {
        time as nat
    } else {
        0
    }
}

/// The frame that is shown at each tick of one run through timed frames:
/// each frame as often as it has ticks.
pub open spec fn ticks(frames: Seq<TimedFrame>, default_time: i32) -> Seq<u16>
    decreases frames.len(),
{
    if frames.len() == 0 {
        seq![]
    } else {
        ticks(frames.drop_last(), default_time) + Seq::new(
            ticks_of(frames.last(), default_time),
            |i: int| frame_number(frames.last().frame_index),
        )
    }
}

impl AnimationMetadata {
    /// The animation that runs through timed frames.
    pub fn from_timed_frames(frames: &[TimedFrame], default_time: i32) -> (r: Self)
        ensures
            r.animation_frames@ == ticks(frames@, default_time),
    {
        let mut shown: Vec<u16> = Vec::new();
        let mut i: usize = 0;
        assert(frames@.subrange(0, 0) =~= Seq::<TimedFrame>::empty());
        while i < frames.len()
            invariant
                0 <= i <= frames@.len(),
                shown@ == ticks(frames@.subrange(0, i as int), default_time),
            decreases frames@.len() - i,
        {
            let frame = frames[i];
            let time: i32 = if frame.frame_time == -1 {
                default_time
            } else {
                frame.frame_time
            };
            let number: u16 = if frame.frame_index >= 0 {
                (frame.frame_index % 0x1_0000) as u16
            } else {
                (0xFFFF - ((-1 - frame.frame_index) % 0x1_0000)) as u16
            };
            assert(number == frame_number(frame.frame_index)) by {
                let x = frame.frame_index as int;
                if x < 0 {
                    let y = -1 - x;
                    vstd::arithmetic::div_mod::lemma_fundamental_div_mod(y, 0x1_0000);
                    vstd::arithmetic::div_mod::lemma_mod_bound(y, 0x1_0000);
                    let q = y / 0x1_0000;
                    let m = y % 0x1_0000;
                    assert(x == 0x1_0000 * (-q - 1) + (0xFFFF - m));
                    vstd::arithmetic::div_mod::lemma_fundamental_div_mod_converse(
                        x,
                        0x1_0000,
                        -q - 1,
                        0xFFFF - m,
                    );
                }
            }
            let ghost before = shown@;
            let ghost upto = frames@.subrange(0, i + 1);
            proof {
                assert(upto.drop_last() =~= frames@.subrange(0, i as int));
                assert(upto.last() == frame);
            }
            let mut t: i32 = 0;
            while t < time
                invariant
                    0 <= t,
                    time > 0 ==> t <= time,
                    time <= 0 ==> t == 0,
                    shown@ == before + Seq::new(t as nat, |k: int| number),
                decreases time - t,
            {
                shown.push(number);
                assert(shown@ =~= before + Seq::new((t + 1) as nat, |k: int| number));
                t += 1;
            }
            assert(shown@ =~= before + Seq::new(ticks_of(frame, default_time), |k: int| number));
            assert(Seq::new(ticks_of(frame, default_time), |k: int| number) =~= Seq::new(
                ticks_of(upto.last(), default_time),
                |k: int| frame_number(upto.last().frame_index),
            ));
            i += 1;
        }
        assert(frames@.subrange(0, i as int) =~= frames@);
        AnimationMetadata { animation_frames: shown }
    }

    /// The animation that shows each of `frame_count` frames for one tick,
    /// in their order.
    pub fn sequential(frame_count: u16) -> (r: Self)
        ensures
            r.animation_frames@ == Seq::new(frame_count as nat, |i: int| i as u16),
    {
        let mut frames: Vec<u16> = Vec::new();
        let mut i: u16 = 0;
        while i < frame_count
            invariant
                0 <= i <= frame_count,
                frames@ == Seq::new(i as nat, |j: int| j as u16),
            decreases frame_count - i,
        {
            frames.push(i);
            assert(frames@ =~= Seq::new((i + 1) as nat, |j: int| j as u16));
            i += 1;
        }
        AnimationMetadata { animation_frames: frames }
    }

    /// The frame that is shown at a tick: the animation starts over when it
    /// has run through. `None` for an animation without frames.
    pub fn frame_at(&self, tick: u32) -> (r: Option<u16>)
        ensures
            self.animation_frames@.len() == 0 ==> r is None,
            self.animation_frames@.len() > 0 ==> r == Some(
                self.animation_frames@[tick as int % self.animation_frames@.len() as int],
            ),
    {
        let len = self.animation_frames.len();
        if len == 0 {
            None
        } else {
            Some(self.animation_frames[tick as usize % len])
        }
    }
}

/// How a sprite sheet is cut into square frames.
#[derive(Clone, Copy, Debug, PartialEq, Eq, Structural)]
pub struct SheetLayout {
    /// The length of the sides of a frame.
    pub sprite_size: u32,
    pub frame_count: u32,
    /// The distance from one frame to the next, across.
    pub step_x: u32,
    /// The distance from one frame to the next, down.
    pub step_y: u32,
}

/// Whether a sheet can be cut into square frames: its sides are not zero,
/// and the longer is a multiple of the shorter.
pub open spec fn sheet_divides(width: u32, height: u32) -> bool {
    width > 0 && height > 0 && (height % width == 0 || width % height == 0)
}

/// How a sheet is cut into square frames: the frames follow each other along
/// the longer side. `None` for a sheet that cannot be cut so.
pub fn sheet_layout(width: u32, height: u32) -> (r: Option<SheetLayout>)
    ensures
        r is Some <==> sheet_divides(width, height),
        r matches Some(layout) ==> {
            &&& layout.sprite_size == if width <= height {
                width
            } else {
                height
            }
            &&& layout.frame_count * layout.sprite_size == if width <= height {
                height
            } else {
                width
            }
            &&& layout.step_x == if height > width {
                0
            } else {
                layout.sprite_size
            }
            &&& layout.step_y == if height > width {
                layout.sprite_size
            } else {
                0
            }
        },
{
    if width == 0 || height == 0 {
        return None;
    }
    if height % width != 0 && width % height != 0 {
        return None;
    }
    let sprite_size: u32 = if width <= height {
        width
    } else {
        height
    };
    let longer: u32 = if width <= height {
        height
    } else {
        width
    };
    let frame_count: u32 = longer / sprite_size;
    proof {
        assert(longer % sprite_size == 0) by {
            if width <= height {
                if height % width != 0 {
                    vstd::arithmetic::div_mod::lemma_small_mod(width as nat, height as nat);
                    assert(width == height);
                }
            } else {
                if width % height != 0 {
                    vstd::arithmetic::div_mod::lemma_small_mod(height as nat, width as nat);
                }
            }
        }
        vstd::arithmetic::div_mod::lemma_fundamental_div_mod(longer as int, sprite_size as int);
        assert(frame_count * sprite_size == sprite_size * frame_count) by (nonlinear_arith);
    }
    if height > width {
        Some(SheetLayout { sprite_size, frame_count, step_x: 0, step_y: sprite_size })
    } else {
        Some(SheetLayout { sprite_size, frame_count, step_x: sprite_size, step_y: 0 })
    }
}

} // verus!
