//! What the frame source tells of one output of a script.

use vstd::prelude::*;

verus! {

/// The properties of the clip behind an output. They do not change while a
/// script is loaded.
#[derive(Debug, Clone)]
pub struct VSNode {
    pub num_frames: u32,
    pub width: u32,
    pub height: u32,
    /// The frame rate as a fraction.
    pub fr_num: u32,
    pub fr_denom: u32,
    /// The frame rate in whole frames, rounded up: the length of a jump of
    /// one second.
    pub framerate: u32,
    pub format_name: String,
}

/// One output of the script: its number and its clip.
#[derive(Debug, Clone)]
pub struct VSOutput {
    pub index: i32,
    pub node_info: VSNode,
}

/// `num / denom` rounded up. A denominator of 0 gives the largest number,
/// or 0 for 0 / 0.
pub open spec fn frames_per_second(num: int, denom: int) -> int {
    if denom == 0 {
        if num == 0 {
            0
        } else {
            u32::MAX as int
        }
    } else {
        (num + denom - 1) / denom
    }
}

impl VSNode {
    /// The node with these properties, its jump length computed from the
    /// frame rate.
    pub fn new(
        num_frames: u32,
        width: u32,
        height: u32,
        fr_num: u32,
        fr_denom: u32,
        format_name: String,
    ) -> (r: VSNode)
        ensures
            r.num_frames == num_frames,
            r.width == width,
            r.height == height,
            r.fr_num == fr_num,
            r.fr_denom == fr_denom,
            r.framerate == frames_per_second(fr_num as int, fr_denom as int),
            r.format_name == format_name,
    {
        let framerate: u32 = if fr_denom == 0 {
            if fr_num == 0 {
                0
            } else {
                u32::MAX
            }
        } else {
            let up: u64 = (fr_num as u64 + fr_denom as u64 - 1) / fr_denom as u64;
            proof {
                assert(up <= fr_num) by (nonlinear_arith)
                    requires
                        up == (fr_num as int + fr_denom as int - 1) / fr_denom as int,
                        fr_denom >= 1,
                        fr_num >= 0,
                ;
            }
            up as u32
        };
        VSNode { num_frames, width, height, fr_num, fr_denom, framerate, format_name }
    }

    /// The number of the last frame; 0 for a clip without frames.
    pub open spec fn last_frame(self) -> int {
        if self.num_frames == 0 {
            0
        } else {
            self.num_frames - 1
        }
    }

    /// The number of the last frame; 0 for a clip without frames.
    pub fn last_frame_no(&self) -> (r: u32)
        ensures
            r == self.last_frame(),
    {
        if self.num_frames == 0 {
            0
        } else {
            self.num_frames - 1
        }
    }
}

} // verus!
