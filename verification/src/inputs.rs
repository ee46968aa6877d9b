//! What the commands of the user do to the view parameters: moving to
//! another frame, switching the output, zooming and panning.

use vstd::prelude::*;
use crate::errors::{Operation, PreviewError};
use crate::geometry::{
    lemma_round_div_bounds, lemma_round_div_exact, lemma_round_div_monotonic, round_div,
    round_div_u128, Size, Translate, MAX_ZOOM, MIN_ZOOM, ZOOM_UNIT,
};
use crate::outputs::has_output;
use crate::outputs::all_marked;
use crate::previewer::{TranslateChange, VSPreviewer};
use crate::state::PreviewState;
use crate::vsnode::VSNode;

verus! {

/// A move to another frame.
#[derive(Debug, Clone, Copy, PartialEq, Eq, Structural)]
pub enum SeekStep {
    /// One frame back.
    PreviousFrame,
    /// One frame on.
    NextFrame,
    /// The frames of one second back.
    SecondBack,
    /// The frames of one second on.
    SecondForward,
}

/// A step of the zoom.
#[derive(Debug, Clone, Copy, PartialEq, Eq, Structural)]
pub enum ZoomInput {
    Unchanged,
    /// Zoom in, by a small step of 0.1 or by a whole step.
    In { small_step: bool },
    /// Zoom out, by a small step of 0.1 or by a whole step.
    Out { small_step: bool },
}

/// A scroll distance in thousandths of a point.
#[derive(Debug, Clone, Copy, PartialEq, Eq, Structural)]
pub struct ScrollDelta {
    pub x: i32,
    pub y: i32,
}

/// The scroll distance of one press of a scroll key: 50 points.
pub const KEY_SCROLL_STEP: i32 = 50000;

/// A quotient of two integers with a positive denominator.
pub ghost struct Ratio {
    pub num: int,
    pub den: int,
}

/// The frame that is asked for after the move `step` from frame `current`
/// in the clip `node`, not yet brought into the clip.
pub open spec fn seek_target(current: int, step: SeekStep, node: VSNode) -> int {
    match step {
        SeekStep::PreviousFrame => if current > 0 {
            current - 1
        } else {
            current
        },
        SeekStep::NextFrame => if current < node.last_frame() {
            current + 1
        } else {
            current
        },
        SeekStep::SecondBack => if current >= node.framerate {
            current - node.framerate
        } else {
            0
        },
        SeekStep::SecondForward => current + node.framerate,
    }
}

/// The frame that is asked for after the move: the target, and no later
/// than the last frame of the clip.
pub open spec fn frame_after_seek(current: int, step: SeekStep, node: VSNode) -> int {
    if seek_target(current, step, node) > node.last_frame() {
        node.last_frame()
    } else {
        seek_target(current, step, node)
    }
}

/// Whether the move asks for a fetch: whether it changes the frame that is
/// asked for.
pub open spec fn seek_rerenders(current: int, step: SeekStep, node: VSNode) -> bool {
    frame_after_seek(current, step, node) != current
}

/// The zoom factor that a step aims at, before it is brought into the
/// range of the zoom.
///
/// Below 1:1 the zoom moves in steps of 0.125. From 1:1 on a whole step
/// multiplies or divides by the zoom multiplier where that is above 1.0,
/// and else adds or takes away 1.0; a small step adds or takes away 0.1.
pub open spec fn zoom_target(zoom: int, input: ZoomInput, multiplier: int) -> Ratio {
    match input {
        ZoomInput::Unchanged => Ratio { num: zoom, den: 1 },
        ZoomInput::Out { small_step } => if zoom <= ZOOM_UNIT {
            Ratio { num: zoom - 125, den: 1 }
        } else if !small_step && multiplier > 1000 {
            Ratio { num: zoom * 1000, den: multiplier }
        } else if small_step {
            Ratio { num: zoom - 100, den: 1 }
        } else {
            Ratio { num: zoom - 1000, den: 1 }
        },
        ZoomInput::In { small_step } => if zoom < ZOOM_UNIT {
            Ratio { num: zoom + 125, den: 1 }
        } else if !small_step && multiplier > 1000 {
            Ratio { num: zoom * multiplier, den: 1000 }
        } else if small_step {
            Ratio { num: zoom + 100, den: 1 }
        } else {
            Ratio { num: zoom + 1000, den: 1 }
        },
    }
}

/// The least zoom factor: 1:1 where the image is scaled up to the window.
pub open spec fn least_zoom(upscale_to_window: bool) -> int {
    if upscale_to_window {
        ZOOM_UNIT as int
    } else {
        MIN_ZOOM as int
    }
}

/// The quotient brought into `[least, MAX_ZOOM]`.
pub open spec fn zoom_in_range(target: Ratio, least: int) -> Ratio {
    if target.num < least * target.den {
        Ratio { num: least, den: 1 }
    } else if target.num > MAX_ZOOM * target.den {
        Ratio { num: MAX_ZOOM as int, den: 1 }
    } else {
        target
    }
}

/// The quotient as a zoom factor: rounded to thousandths below 1:1, and to
/// tenths from 1:1 on.
pub open spec fn zoom_rounded(target: Ratio) -> int {
    if target.num < 1000 * target.den {
        round_div(target.num, target.den)
    } else {
        round_div(target.num, target.den * 100) * 100
    }
}

/// The zoom factor after a step, and whether the step moved the zoom
/// before rounding.
pub open spec fn zoom_after(state: PreviewState, input: ZoomInput) -> (int, bool) {
    let aimed = zoom_in_range(
        zoom_target(state.zoom_factor as int, input, state.zoom_multiplier as int),
        least_zoom(state.upscale_to_window),
    );
    if aimed.num != state.zoom_factor * aimed.den {
        (zoom_rounded(aimed), true)
    } else {
        (state.zoom_factor as int, false)
    }
}

/// The zoom factor after a step, and whether the step moved the zoom.
pub fn zoom_step(state: &PreviewState, input: ZoomInput) -> (r: (u32, bool))
    ensures
        r.0 == zoom_after(*state, input).0,
        r.1 == zoom_after(*state, input).1,
        r.1 ==> r.0 <= MAX_ZOOM,
{
    let zoom: i128 = state.zoom_factor as i128;
    let multiplier: i128 = state.zoom_multiplier as i128;
    assert(zoom * multiplier <= 0xffff_ffff * 0xffff_ffff) by (nonlinear_arith)
        requires
            0 <= zoom <= 0xffff_ffff,
            0 <= multiplier <= 0xffff_ffff,
    ;
    let (num, den): (i128, i128) = match input {
        ZoomInput::Unchanged => (zoom, 1),
        ZoomInput::Out { small_step } => if state.zoom_factor <= ZOOM_UNIT {
            (zoom - 125, 1)
        } else if !small_step && state.zoom_multiplier > 1000 {
            (zoom * 1000, multiplier)
        } else if small_step {
            (zoom - 100, 1)
        } else {
            (zoom - 1000, 1)
        },
        ZoomInput::In { small_step } => if state.zoom_factor < ZOOM_UNIT {
            (zoom + 125, 1)
        } else if !small_step && state.zoom_multiplier > 1000 {
            (zoom * multiplier, 1000)
        } else if small_step {
            (zoom + 100, 1)
        } else {
            (zoom + 1000, 1)
        },
    };
    let least: i128 = if state.upscale_to_window {
        1000
    } else {
        125
    };
    assert(least * den <= 1000 * 0xffff_ffff && 64000 * den <= 64000 * 0xffff_ffff) by (nonlinear_arith)
        requires
            0 < den <= 0xffff_ffff,
            0 < least <= 1000,
    ;
    let (num, den): (i128, i128) = if num < least * den {
        (least, 1)
    } else if num > 64000 * den {
        (64000, 1)
    } else {
        (num, den)
    };
    assert(zoom * den <= 0xffff_ffff * 0xffff_ffff) by (nonlinear_arith)
        requires
            0 <= zoom <= 0xffff_ffff,
            0 < den <= 0xffff_ffff,
    ;
    if num == zoom * den {
        return (state.zoom_factor, false);
    }
    let n: u128 = num as u128;
    let d: u128 = den as u128;
    if num < 1000 * den {
        let rounded = round_div_u128(n, d);
        proof {
            lemma_round_div_monotonic(n as int, 1000 * d as int, d as int);
            lemma_round_div_exact(1000, d as int);
        }
        (rounded as u32, true)
    } else {
        let tenths = round_div_u128(n, d * 100);
        proof {
            assert(64000 * d as int == 640 * (d as int * 100));
            lemma_round_div_monotonic(n as int, 640 * (d as int * 100), d as int * 100);
            lemma_round_div_exact(640, d as int * 100);
        }
        ((tenths * 100) as u32, true)
    }
}

/// The number `v` as an `i64`, the nearest where it has none.
pub open spec fn saturate_i64(v: int) -> i64 {
    if v < i64::MIN {
        i64::MIN
    } else if v > i64::MAX {
        i64::MAX
    } else {
        v as i64
    }
}

/// The pan along one axis after a scroll by `delta` thousandths of a
/// point: the scroll distance, scaled by the size of the image over the
/// size of the window and by the scroll multiplier, is taken away from the
/// pan. In a window without extent the pan stays.
pub open spec fn pan_after_scroll(pan: int, delta: int, size: int, win: int, multiplier: int) -> i64 {
    if win == 0 {
        pan as i64
    } else {
        saturate_i64(pan - round_div(delta * size * multiplier, win * 1000000))
    }
}

/// The pan after a scroll.
pub open spec fn translate_after_scroll(
    translate: Translate,
    scroll: ScrollDelta,
    size: Size,
    win_size: Size,
    multiplier: i32,
) -> Translate {
    Translate {
        x: pan_after_scroll(
            translate.x as int,
            scroll.x as int,
            size.x as int,
            win_size.x as int,
            multiplier as int,
        ),
        y: pan_after_scroll(
            translate.y as int,
            scroll.y as int,
            size.y as int,
            win_size.y as int,
            multiplier as int,
        ),
    }
}

fn axis_after_scroll(pan: i64, delta: i32, size: u32, win: u32, multiplier: i32) -> (r: i64)
    ensures
        r == pan_after_scroll(pan as int, delta as int, size as int, win as int, multiplier as int),
{
    if win == 0 {
        return pan;
    }
    let d: i128 = delta as i128;
    let s: i128 = size as i128;
    let m: i128 = multiplier as i128;
    assert(-0x8000_0000 * 0xffff_ffff <= d * s <= 0x8000_0000 * 0xffff_ffff) by (nonlinear_arith)
        requires
            -0x8000_0000 <= d <= 0x8000_0000,
            0 <= s <= 0xffff_ffff,
    ;
    let ds: i128 = d * s;
    assert(-0x8000_0000 * 0xffff_ffff * 0x8000_0000 <= ds * m <= 0x8000_0000 * 0xffff_ffff
        * 0x8000_0000) by (nonlinear_arith)
        requires
            -0x8000_0000 * 0xffff_ffff <= ds <= 0x8000_0000 * 0xffff_ffff,
            -0x8000_0000 <= m <= 0x8000_0000,
    ;
    let n: i128 = ds * m;
    let den: u128 = win as u128 * 1000000;
    let q: i128 = if n >= 0 {
        let q = round_div_u128(n as u128, den);
        proof {
            lemma_round_div_bounds(n as int, den as int);
        }
        q as i128
    } else {
        let q = round_div_u128((-n) as u128, den);
        proof {
            lemma_round_div_bounds(-n as int, den as int);
        }
        -(q as i128)
    };
    let moved: i128 = pan as i128 - q;
    if moved < i64::MIN as i128 {
        i64::MIN
    } else if moved > i64::MAX as i128 {
        i64::MAX
    } else {
        moved as i64
    }
}

/// The pan after a scroll by `scroll` over an image of `size` in a window
/// of `win_size`.
pub fn scrolled_translate(
    translate: &Translate,
    scroll: &ScrollDelta,
    size: &Size,
    win_size: &Size,
    multiplier: i32,
) -> (r: Translate)
    ensures
        r == translate_after_scroll(*translate, *scroll, *size, *win_size, multiplier),
{
    Translate {
        x: axis_after_scroll(translate.x, scroll.x, size.x, win_size.x, multiplier),
        y: axis_after_scroll(translate.y, scroll.y, size.y, win_size.y, multiplier),
    }
}

impl<F, P> VSPreviewer<F, P> {
    /// What a move to another frame does: `post` and `r` are what
    /// `check_update_seek` leaves and returns when it is called on `self`.
    ///
    /// The frame that is asked for moves within the clip of the current
    /// output, and nothing else changes: the record of the output keeps the
    /// number of the frame that it shows.
    pub open spec fn seeked(self, step: SeekStep, post: Self, r: Result<bool, PreviewError>) -> bool {
        if !self.has_current() {
            r == Err::<bool, PreviewError>(PreviewError::InvalidCurrentOutput(Operation::Seek))
                && post.unchanged(self)
        } else {
            let node = self.current().vsoutput.node_info;
            &&& r == Ok::<bool, PreviewError>(
                seek_rerenders(self.state.cur_frame_no as int, step, node),
            )
            &&& post.state == (PreviewState {
                cur_frame_no: frame_after_seek(self.state.cur_frame_no as int, step, node) as u32,
                ..self.state
            })
            &&& post.state.cur_frame_no <= node.last_frame()
            &&& post.outputs@ == self.outputs@
            &&& post.frame_task == self.frame_task
            &&& post.errors == self.errors
            &&& post.last_output_key == self.last_output_key
            &&& post.available_size == self.available_size
            &&& post.rerender == self.rerender
            &&& post.reprocess == self.reprocess
            &&& post.reload_pending == self.reload_pending
            &&& post.misc_pending == self.misc_pending
        }
    }

    /// Moves to another frame of the current output. Returns whether a
    /// frame has to be fetched.
    pub fn check_update_seek(&mut self, step: SeekStep) -> (r: Result<bool, PreviewError>)
        ensures
            old(self).seeked(step, *final(self), r),
    {
        let (last, framerate): (u64, u64) = match self.outputs.get(self.state.cur_output) {
            None => {
                return Err(PreviewError::InvalidCurrentOutput(Operation::Seek));
            },
            Some(o) => (o.vsoutput.node_info.last_frame_no() as u64, o.vsoutput.node_info.framerate as u64),
        };
        let current: u64 = self.state.cur_frame_no as u64;
        let target: u64 = match step {
            SeekStep::PreviousFrame => if current > 0 {
                current - 1
            } else {
                current
            },
            SeekStep::NextFrame => if current < last {
                current + 1
            } else {
                current
            },
            SeekStep::SecondBack => if current >= framerate {
                current - framerate
            } else {
                0
            },
            SeekStep::SecondForward => current + framerate,
        };
        let frame: u32 = if target > last {
            last as u32
        } else {
            target as u32
        };
        let rerender = frame != self.state.cur_frame_no;
        self.state.cur_frame_no = frame;
        Ok(rerender)
    }

    /// The previewer with `output` as its current output.
    pub open spec fn showing(self, output: i32, post: Self) -> bool {
        &&& post.state == (PreviewState { cur_output: output, ..self.state })
        &&& post.outputs@ == self.outputs@
        &&& post.frame_task == self.frame_task
        &&& post.same_but_state(self)
    }

    /// Everything but the view parameters, the table and the task in
    /// flight is as in `other`.
    pub open spec fn same_but_state(self, other: Self) -> bool {
        &&& self.errors == other.errors
        &&& self.last_output_key == other.last_output_key
        &&& self.available_size == other.available_size
        &&& self.rerender == other.rerender
        &&& self.reprocess == other.reprocess
        &&& self.reload_pending == other.reload_pending
        &&& self.misc_pending == other.misc_pending
    }

    /// What choosing an output does: `post` and `r` are what
    /// `check_update_output` leaves and returns when it is called on `self`.
    ///
    /// A number below 0 or one that the table does not hold changes
    /// nothing. Else the output becomes the current one, and what
    /// `output_needs_rerender` does for a switch from the output shown so
    /// far follows.
    pub open spec fn output_chosen(
        self,
        new_output: i32,
        post: Self,
        r: Result<bool, PreviewError>,
    ) -> bool {
        if new_output < 0 || !has_output(self.outputs@, new_output) {
            r == Ok::<bool, PreviewError>(false) && post.unchanged(self)
        } else {
            exists|mid: Self| #[trigger]
                self.showing(new_output, mid) && mid.output_switched(
                    self.state.cur_output,
                    post,
                    r,
                )
        }
    }

    /// Makes `new_output` the current output if the table holds it.
    /// Returns whether a frame has to be fetched.
    pub fn check_update_output(&mut self, new_output: i32) -> (r: Result<bool, PreviewError>)
        ensures
            old(self).output_chosen(new_output, *final(self), r),
    {
        if new_output >= 0 && self.outputs.contains_key(new_output) {
            let old_output = self.state.cur_output;
            self.state.cur_output = new_output;
            let ghost mid = *self;
            assert(old(self).showing(new_output, mid));
            self.output_needs_rerender(old_output)
        } else {
            Ok(false)
        }
    }

    /// The view parameters once the step `zoom` of the zoom is taken.
    pub open spec fn zoomed_state(self, zoom: ZoomInput) -> PreviewState {
        PreviewState { zoom_factor: zoom_after(self.state, zoom).0 as u32, ..self.state }
    }

    /// The pan that a scroll asks for: the pan moved by the scroll, or the
    /// pan as it is where nothing is scrolled.
    pub open spec fn scrolled(self, size: Size, scroll: ScrollDelta) -> Translate {
        if scroll.x != 0 || scroll.y != 0 {
            translate_after_scroll(
                self.state.translate,
                scroll,
                size,
                self.available_size,
                self.state.scroll_multiplier,
            )
        } else {
            self.state.translate
        }
    }

    /// The steps of `handle_move_inputs` from `self` to `post`: the step of
    /// the zoom leads to `mid`; correcting the pan leads from `mid` to
    /// `corrected` and returns `changed`; marking the outputs leads to
    /// `post`.
    pub open spec fn move_steps(
        self,
        size: Size,
        zoom: ZoomInput,
        scroll: ScrollDelta,
        mid: Self,
        corrected: Self,
        changed: Result<bool, PreviewError>,
        post: Self,
        r: Result<(), PreviewError>,
    ) -> bool {
        let zoomed = zoom_after(self.state, zoom).1;
        let scrolls = scroll.x != 0 || scroll.y != 0;
        &&& mid.state == self.zoomed_state(zoom)
        &&& mid.outputs@ == self.outputs@
        &&& mid.frame_task == self.frame_task
        &&& mid.same_but_state(self)
        &&& mid.translate_corrected(
            TranslateChange::Pixels(self.scrolled(size, scroll)),
            corrected,
            changed,
        )
        &&& match changed {
            Err(e) => r == Err::<(), PreviewError>(e) && post.unchanged(corrected),
            Ok(pan_changed) => {
                &&& r == Ok::<(), PreviewError>(())
                &&& post.rerender == (self.rerender || zoomed || (scrolls && pan_changed))
                &&& post.frame_task == self.frame_task
                &&& post.errors == self.errors
                &&& post.last_output_key == self.last_output_key
                &&& post.available_size == self.available_size
                &&& post.reprocess == self.reprocess
                &&& post.reload_pending == self.reload_pending
                &&& post.misc_pending == self.misc_pending
                &&& post.state == corrected.state
                &&& if zoomed || (scrolls && pan_changed) {
                    all_marked(corrected.outputs@, true, post.outputs@)
                } else {
                    post.outputs@ == corrected.outputs@
                }
            },
        }
    }

    /// What zooming and scrolling do: `post` and `r` are what
    /// `handle_move_inputs` leaves and returns when it is called on `self`.
    ///
    /// First the step of the zoom is taken. Then the pan, moved by the
    /// scroll if there is one, is corrected for the current output at the
    /// new zoom, as `correct_translate_for_current_output` does; a table
    /// that has outputs but not the current one is an error, and the zoom
    /// stays changed. If the zoom moved, or the scroll changed the pan,
    /// every output asks for reprocessing and a rerender is asked for.
    pub open spec fn inputs_handled(
        self,
        size: Size,
        zoom: ZoomInput,
        scroll: ScrollDelta,
        post: Self,
        r: Result<(), PreviewError>,
    ) -> bool {
        exists|mid: Self, corrected: Self, changed: Result<bool, PreviewError>|
            self.move_steps(size, zoom, scroll, mid, corrected, changed, post, r)
    }

    /// Takes a step of the zoom and a scroll over an image of `size`.
    pub fn handle_move_inputs(&mut self, size: &Size, zoom: ZoomInput, scroll: ScrollDelta) -> (r:
        Result<(), PreviewError>)
        ensures
            old(self).inputs_handled(*size, zoom, scroll, *final(self), r),
    {
        let (factor, res_zoom) = zoom_step(&self.state, zoom);
        let res_scroll = scroll.x != 0 || scroll.y != 0;
        let new_translate = if res_scroll {
            scrolled_translate(
                &self.state.translate,
                &scroll,
                size,
                &self.available_size,
                self.state.scroll_multiplier,
            )
        } else {
            self.state.translate
        };
        self.state.zoom_factor = factor;
        let ghost mid = *self;
        let changed = self.correct_translate_for_current_output(
            TranslateChange::Pixels(new_translate),
        );
        let ghost corrected = *self;
        let reprocess_translate = match changed {
            Err(e) => {
                assert(old(self).move_steps(
                    *size,
                    zoom,
                    scroll,
                    mid,
                    corrected,
                    changed,
                    *self,
                    Err(e),
                ));
                return Err(e);
            },
            Ok(c) => c,
        };
        let res = res_zoom || (res_scroll && reprocess_translate);
        if res {
            self.reprocess_outputs(true, reprocess_translate);
            self.rerender = true;
        }
        assert(old(self).move_steps(*size, zoom, scroll, mid, corrected, changed, *self, Ok(())));
        Ok(())
    }

    /// Asks for the frame `frame_no`. While the control that chooses the
    /// frame is still held nothing is fetched; its release asks for a
    /// fetch.
    pub fn seek_to(&mut self, frame_no: u32, released: bool)
        ensures
            final(self).state == (PreviewState { cur_frame_no: frame_no, ..old(self).state }),
            final(self).rerender == (old(self).rerender || released),
            final(self).outputs@ == old(self).outputs@,
            final(self).frame_task == old(self).frame_task,
            final(self).same_but_rerender(*old(self)),
    {
        self.state.cur_frame_no = frame_no;
        if released {
            self.rerender = true;
        }
    }

    /// Everything but the view parameters, the table, the task in flight
    /// and the request for a rerender is as in `other`.
    pub open spec fn same_but_rerender(self, other: Self) -> bool {
        &&& self.errors == other.errors
        &&& self.last_output_key == other.last_output_key
        &&& self.available_size == other.available_size
        &&& self.reprocess == other.reprocess
        &&& self.reload_pending == other.reload_pending
        &&& self.misc_pending == other.misc_pending
    }

    /// What a new size of the canvas does: where the size differs from the
    /// size so far it is taken over, every output asks for reprocessing,
    /// and a pan that is set is noted as changed.
    pub open spec fn canvas_resized(self, size: Size, post: Self, changed: bool) -> bool {
        &&& changed == (size != self.available_size)
        &&& post.available_size == size
        &&& !changed ==> post.state == self.state && post.outputs@ == self.outputs@
        &&& changed ==> {
            &&& post.state == (PreviewState {
                translate_changed: self.state.translate_changed || self.state.translate.x != 0
                    || self.state.translate.y != 0,
                ..self.state
            })
            &&& all_marked(self.outputs@, true, post.outputs@)
        }
        &&& post.frame_task == self.frame_task
        &&& post.errors == self.errors
        &&& post.last_output_key == self.last_output_key
        &&& post.rerender == self.rerender
        &&& post.reprocess == self.reprocess
        &&& post.reload_pending == self.reload_pending
        &&& post.misc_pending == self.misc_pending
    }

    /// Takes over the size of the canvas. Returns whether it changed.
    pub fn resize_canvas(&mut self, size: Size) -> (changed: bool)
        ensures
            old(self).canvas_resized(size, *final(self), changed),
    {
        if self.available_size == size {
            return false;
        }
        self.available_size = size;
        let moved = self.state.translate.x != 0 || self.state.translate.y != 0;
        self.reprocess_outputs(true, moved);
        true
    }

    /// What a change of the preferences asks for, `before` being the view
    /// parameters before the change: a fetch where the conversion by the
    /// frame source changed, else a reprocessing where the scaling changed.
    pub open spec fn preferences_applied(self, before: PreviewState, post: Self) -> bool {
        let converts = self.state.frame_transform_opts != before.frame_transform_opts;
        let scales = self.state.upscale_to_window != before.upscale_to_window
            || self.state.upsampling_filter != before.upsampling_filter
            || self.state.fit_to_window != before.fit_to_window || self.state.texture_filter
            != before.texture_filter;
        &&& post.state == self.state
        &&& post.rerender == (self.rerender || converts)
        &&& if !converts && scales {
            all_marked(self.outputs@, true, post.outputs@)
        } else {
            post.outputs@ == self.outputs@
        }
        &&& post.frame_task == self.frame_task
        &&& post.same_but_rerender(self)
    }

    /// Follows a change of the preferences from `before`.
    pub fn apply_preferences(&mut self, before: &PreviewState)
        ensures
            old(self).preferences_applied(*before, *final(self)),
    {
        let now = self.state.frame_transform_opts;
        let then = before.frame_transform_opts;
        if now.resizer != then.resizer || now.enable_dithering != then.enable_dithering
            || now.dither_algo != then.dither_algo {
            self.rerender = true;
        } else if self.state.upscale_to_window != before.upscale_to_window
            || self.state.upsampling_filter != before.upsampling_filter
            || self.state.fit_to_window != before.fit_to_window || self.state.texture_filter
            != before.texture_filter {
            self.reprocess_outputs(true, false);
        }
    }

    /// Switches the colour transform on or off; every output asks for
    /// reprocessing, and a rerender is asked for.
    pub fn toggle_icc(&mut self)
        ensures
            final(self).state == (PreviewState {
                icc_enabled: !old(self).state.icc_enabled,
                ..old(self).state
            }),
            all_marked(old(self).outputs@, true, final(self).outputs@),
            final(self).frame_task == old(self).frame_task,
            final(self).rerender,
            final(self).same_but_rerender(*old(self)),
    {
        self.state.icc_enabled = !self.state.icc_enabled;
        self.reprocess_outputs(true, false);
        self.rerender = true;
    }
}

} // verus!
