//! What holds of the previewer whatever it is asked to do.

use vstd::prelude::*;
use crate::errors::PreviewError;
use crate::geometry::{
    lemma_clamp_idempotent, lemma_fixed_bounds, lemma_max_translate_bounds, lemma_norm_round_trip,
    lemma_round_div_bounds, lemma_round_div_exact, lemma_round_div_monotonic, max_translate,
    min_int, norm_to_pixels, translate_pixels, Size, Translate, NORM_UNIT, ZOOM_UNIT,
};
use crate::raster::{lemma_smaller_fits, Raster};
use crate::state::PreviewState;
use crate::transform::{
    crop_extent, crop_len, crop_rect, crops, limits, needs_processing, plan_for, shifts, unzooms,
};
use crate::outputs::{has_output, output_record};
use crate::inputs::SeekStep;
use crate::outputs::PreviewOutput;
use crate::previewer::{
    action_of, FetchImageState, FrameAction, Intent, Phase, TranslateChange, VSPreviewer,
};

verus! {

/// One thing that happens to the previewer between two of its states.
pub ghost enum SchedulerStep<F> {
    /// A tick: `try_rerender` returned `dispatched`.
    Tick { dispatched: Result<Option<FetchImageState>, PreviewError> },
    /// The result `frame` of a task was handed to `check_rerender_finish`,
    /// which returned `repaint`.
    Finished { frame: Option<F>, repaint: Result<bool, PreviewError> },
    /// Anything else: a change of the frame, of the output, of the zoom or
    /// of any other thing that leaves the task in flight alone.
    Dirtied,
}

/// The step `step` leads from `pre` to `post`.
pub open spec fn step_taken<F, P>(
    pre: VSPreviewer<F, P>,
    step: SchedulerStep<F>,
    post: VSPreviewer<F, P>,
) -> bool {
    match step {
        SchedulerStep::Tick { dispatched } => pre.rerender_tried(post, dispatched),
        SchedulerStep::Finished { frame, repaint } => pre.rerender_finished(frame, post, repaint),
        SchedulerStep::Dirtied => post.frame_task == pre.frame_task,
    }
}

/// The step hands a task to the caller.
pub open spec fn dispatches<F>(step: SchedulerStep<F>) -> bool {
    step matches SchedulerStep::Tick { dispatched: Ok(Some(_)) }
}

/// The step takes over the result of the task that was in flight.
pub open spec fn completes<F, P>(pre: VSPreviewer<F, P>, step: SchedulerStep<F>) -> bool {
    step is Finished && pre.frame_task is Some
}

/// The states `states` follow one another by the steps `steps`.
pub open spec fn is_run<F, P>(states: Seq<VSPreviewer<F, P>>, steps: Seq<SchedulerStep<F>>) -> bool {
    &&& states.len() == steps.len() + 1
    &&& forall|i: int|
        0 <= i < steps.len() ==> step_taken(states[i], #[trigger] steps[i], states[i + 1])
}

/// The number of tasks that were handed out and not yet taken over after
/// the first `n` steps.
pub open spec fn outstanding<F, P>(
    states: Seq<VSPreviewer<F, P>>,
    steps: Seq<SchedulerStep<F>>,
    n: int,
) -> int
    decreases n,
{
    if n <= 0 {
        0
    } else {
        outstanding(states, steps, n - 1) + if dispatches(steps[n - 1]) {
            1int
        } else {
            0int
        } - if completes(states[n - 1], steps[n - 1]) {
            1int
        } else {
            0int
        }
    }
}

/// At most one task is in flight.
///
/// Start with no task in flight and let ticks, results and changes of any
/// kind follow one another in any order. Then at every point the number of
/// tasks that were dispatched and whose result was not yet taken over is
/// 0 or 1, and it is 1 exactly while the slot is taken.
pub proof fn lemma_at_most_one_in_flight<F, P>(
    states: Seq<VSPreviewer<F, P>>,
    steps: Seq<SchedulerStep<F>>,
    n: int,
)
    requires
        is_run(states, steps),
        states[0].frame_task is None,
        0 <= n <= steps.len(),
    ensures
        0 <= outstanding(states, steps, n) <= 1,
        outstanding(states, steps, n) == 1 <==> states[n].frame_task is Some,
    decreases n,
{
    if n > 0 {
        lemma_at_most_one_in_flight(states, steps, n - 1);
        assert(step_taken(states[n - 1], steps[n - 1], states[n]));
    }
}

/// A tick dispatches only from a state that needs a fetch or a
/// reprocessing, hands out the task of that kind, and leaves the task in
/// flight; from any other state it hands out nothing and leaves the slot
/// as it was.
pub proof fn lemma_tick_follows_phase<F, P>(
    pre: VSPreviewer<F, P>,
    post: VSPreviewer<F, P>,
    r: Result<Option<FetchImageState>, PreviewError>,
)
    requires
        pre.rerender_tried(post, r),
    ensures
        r matches Ok(Some(task)) ==> {
            &&& !pre.busy()
            &&& pre.phase() == Phase::NeedsFetch || pre.phase() == Phase::NeedsReprocess
            &&& task.reprocess <==> pre.phase() == Phase::NeedsReprocess
            &&& task.state == pre.state
            &&& post.phase() == Phase::InFlight
            &&& post.frame_task == Some(task)
        },
        !(r matches Ok(Some(_))) ==> post.frame_task == pre.frame_task,
        pre.frame_task is Some ==> r == Ok::<Option<FetchImageState>, PreviewError>(None),
{
}

/// Reprocess or fetch.
///
/// Where the record of the current output asks for reprocessing and
/// nothing is in flight, a tick dispatches a task. If the frame on screen
/// is the frame that is asked for, and there is a frame on screen, the
/// task never turns to the frame source. If the frame on screen is another
/// one, the task fetches.
pub proof fn lemma_reprocess_or_fetch<F, P>(
    pre: VSPreviewer<F, P>,
    post: VSPreviewer<F, P>,
    r: Result<Option<FetchImageState>, PreviewError>,
)
    requires
        pre.rerender_tried(post, r),
        !pre.busy(),
        pre.has_current(),
        pre.current().force_reprocess,
    ensures
        r matches Ok(Some(task)) && {
            &&& task.reprocess == (pre.current().last_frame_no == pre.state.cur_frame_no)
            &&& pre.current().last_frame_no == pre.state.cur_frame_no
                && pre.current().rendered_frame is Some ==> action_of(task)
                == FrameAction::Reprocess
            &&& pre.current().last_frame_no != pre.state.cur_frame_no ==> action_of(task)
                == FrameAction::Fetch
        },
        post.has_current(),
        !post.current().force_reprocess,
{
    assert(pre.outputs@.dom().contains(pre.state.cur_output));
    assert(!pre.outputs@.is_empty());
    assert(pre.intent() != Intent::Idle);
}

/// Clamping the pan is idempotent.
///
/// `fix_translation_bounds` applied to the pan in pixels that it returned,
/// for the same image, canvas and zoom, returns the same pan in pixels and
/// the same normalized pan.
pub proof fn lemma_fix_translation_bounds_idempotent<F, P>(
    pv: VSPreviewer<F, P>,
    image_size: Size,
    new_translate: Translate,
)
    ensures
        pv.fixed_translation(image_size, pv.fixed_translation(image_size, new_translate).0)
            == pv.fixed_translation(image_size, new_translate),
{
    let cx = max_translate(
        image_size.x as int,
        pv.available_size.x as int,
        pv.state.zoom_factor as int,
    );
    let cy = max_translate(
        image_size.y as int,
        pv.available_size.y as int,
        pv.state.zoom_factor as int,
    );
    lemma_max_translate_bounds(image_size.x, pv.available_size.x, pv.state.zoom_factor);
    lemma_max_translate_bounds(image_size.y, pv.available_size.y, pv.state.zoom_factor);
    lemma_fixed_bounds(new_translate.x as int, cx);
    lemma_fixed_bounds(new_translate.y as int, cy);
    lemma_clamp_idempotent(new_translate.x as int, cx);
    lemma_clamp_idempotent(new_translate.y as int, cy);
}

/// The normalized pan gives the pan in pixels back.
///
/// The normalized pan that `fix_translation_bounds` returns, converted to
/// pixels for the same image, canvas and zoom, is the pan in pixels that
/// it returns: for every zoom factor and for every image and canvas,
/// whether the image is larger than the canvas or not.
pub proof fn lemma_normalized_pan_round_trip<F, P>(
    pv: VSPreviewer<F, P>,
    image_size: Size,
    new_translate: Translate,
)
    ensures
        translate_pixels(
            pv.fixed_translation(image_size, new_translate).1,
            image_size,
            pv.available_size,
            pv.state.zoom_factor,
        ) == pv.fixed_translation(image_size, new_translate).0,
{
    let cx = max_translate(
        image_size.x as int,
        pv.available_size.x as int,
        pv.state.zoom_factor as int,
    );
    let cy = max_translate(
        image_size.y as int,
        pv.available_size.y as int,
        pv.state.zoom_factor as int,
    );
    lemma_max_translate_bounds(image_size.x, pv.available_size.x, pv.state.zoom_factor);
    lemma_max_translate_bounds(image_size.y, pv.available_size.y, pv.state.zoom_factor);
    lemma_fixed_bounds(new_translate.x as int, cx);
    lemma_fixed_bounds(new_translate.y as int, cy);
    lemma_norm_round_trip(new_translate.x as int, cx);
    lemma_norm_round_trip(new_translate.y as int, cy);
}

/// Switching the output keeps the frame.
///
/// `output_needs_rerender` never changes the frame that is asked for, nor
/// the current output, nor the table; and where the table holds both
/// outputs it returns true exactly when the frames that the two outputs
/// show differ or the new output has no frame yet.
pub proof fn lemma_output_switch_keeps_frame<F, P>(
    pre: VSPreviewer<F, P>,
    old_output: i32,
    post: VSPreviewer<F, P>,
    r: Result<bool, PreviewError>,
)
    requires
        pre.output_switched(old_output, post, r),
    ensures
        post.state.cur_frame_no == pre.state.cur_frame_no,
        post.state.cur_output == pre.state.cur_output,
        post.outputs@ == pre.outputs@,
        has_output(pre.outputs@, old_output) && pre.has_current() ==> r == Ok::<
            bool,
            PreviewError,
        >(
            output_record(pre.outputs@, old_output).last_frame_no
                != pre.current().last_frame_no || pre.current().rendered_frame is None,
        ),
{
}

/// Every record of `after` holds the output, the frame and the frame number
/// that the record of `before` of the same output holds.
pub open spec fn same_frames<F, P>(
    before: Map<i32, PreviewOutput<F, P>>,
    after: Map<i32, PreviewOutput<F, P>>,
) -> bool {
    &&& after.dom() == before.dom()
    &&& forall|k: i32|
        before.contains_key(k) ==> {
            &&& (#[trigger] after[k]).vsoutput == before[k].vsoutput
            &&& after[k].rendered_frame == before[k].rendered_frame
            &&& after[k].last_frame_no == before[k].last_frame_no
        }
}

/// The number kept beside a frame is the number of that frame.
///
/// A frame and its number enter a record together, when the result of a
/// task is taken over. No tick, no switch of the output, no move to another
/// frame and no change of the pan touches the frame or the number of any
/// record: the number never runs ahead to a frame that is asked for but
/// not yet delivered.
pub proof fn lemma_frames_change_only_on_delivery<F, P>(
    pre: VSPreviewer<F, P>,
    post: VSPreviewer<F, P>,
    dispatched: Result<Option<FetchImageState>, PreviewError>,
    answer: Result<bool, PreviewError>,
    old_output: i32,
    step: SeekStep,
    change: TranslateChange,
)
    requires
        pre.rerender_tried(post, dispatched) || pre.output_switched(old_output, post, answer)
            || pre.seeked(step, post, answer) || pre.translate_corrected(change, post, answer),
    ensures
        same_frames(pre.outputs@, post.outputs@),
{
    assert(post.outputs@.dom() =~= pre.outputs@.dom());
}

/// An image that the display does not fit leaves the pipeline no larger
/// than the window.
///
/// Where the region is cut to the window, that is where the image is
/// magnified or the display is not asked to shrink it, and the image is not
/// scaled up to the window, the image that the steps give is in neither
/// axis larger than the window.
pub proof fn lemma_output_within_window(src: Size, state: PreviewState, win_size: Size)
    requires
        limits(state),
        !state.upscale_to_window,
    ensures
        plan_for(src, state, win_size).output_size(src).x <= win_size.x,
        plan_for(src, state, win_size).output_size(src).y <= win_size.y,
{
    let plan = plan_for(src, state, win_size);
    let zoom = state.zoom_factor as int;
    if crops(src, state, win_size) {
        let rect = crop_rect(src, state, win_size);
        assert(rect.width <= win_size.x);
        assert(rect.height <= win_size.y);
    } else {
        if unzooms(state) {
            lemma_round_div_monotonic(src.x * zoom, win_size.x * 1000, 1000);
            lemma_round_div_exact(win_size.x as int, 1000);
            lemma_round_div_monotonic(src.y * zoom, win_size.y * 1000, 1000);
            lemma_round_div_exact(win_size.y as int, 1000);
            assert(src.x * zoom >= 0 && src.y * zoom >= 0) by (nonlinear_arith)
                requires
                    zoom >= 0,
            ;
        }
    }
}

/// Without scaling up to the window the pipeline never fails on an image
/// that has pixels.
///
/// Where the image is not scaled up to the window, no step resamples to
/// more pixels than the image has, so memory can hold every image that a
/// step resamples to: `process_image` then returns an image for every
/// frame that is not empty.
pub proof fn lemma_fits_without_upscale(orig: Raster, state: PreviewState, win_size: Size)
    requires
        orig.wf(),
        !state.upscale_to_window,
    ensures
        plan_for(orig.size(), state, win_size).fits(orig.layout),
{
    let src = orig.size();
    let plan = plan_for(src, state, win_size);
    let zoom = state.zoom_factor as int;
    if plan.unzoom is Some {
        let s = plan.unzoom->0;
        assert(0 <= src.x * zoom <= src.x * 1000 && 0 <= src.y * zoom <= src.y * 1000)
            by (nonlinear_arith)
            requires
                0 <= zoom < 1000,
        ;
        lemma_round_div_monotonic(src.x * zoom, src.x * 1000, 1000);
        lemma_round_div_exact(src.x as int, 1000);
        lemma_round_div_monotonic(src.y * zoom, src.y * 1000, 1000);
        lemma_round_div_exact(src.y as int, 1000);
        lemma_round_div_bounds(src.x * zoom, 1000);
        lemma_round_div_bounds(src.y * zoom, 1000);
        lemma_smaller_fits(s.x as int, s.y as int, orig.width, orig.height, orig.layout);
    }
    if plan.zoom is Some {
        let z = plan.zoom->0;
        assert(z.target.x <= src.x && z.target.y <= src.y);
        lemma_smaller_fits(
            z.target.x as int,
            z.target.y as int,
            orig.width,
            orig.height,
            orig.layout,
        );
    }
}

/// A frame that needs no processing comes out of the pipeline as it went
/// in.
///
/// Where `state_needs_processing` says that nothing is to be done, every
/// image that the steps of the plan give of the frame is the frame itself.
pub proof fn lemma_unprocessed_is_identical(
    orig: Raster,
    state: PreviewState,
    win_size: Size,
    out: Raster,
)
    requires
        orig.wf(),
        !needs_processing(state, orig.size(), win_size),
        plan_for(orig.size(), state, win_size).gives(orig, out),
    ensures
        out == orig,
{
    let plan = plan_for(orig.size(), state, win_size);
    let (shrunk, zoomed) = choose|shrunk: Raster, zoomed: Raster|
        plan.steps(orig, shrunk, zoomed, out);
    assert(plan.steps(orig, shrunk, zoomed, out));
    assert(out == plan.cropped(orig));
    if plan.crop is Some {
        let c = plan.crop->0;
        let kept = orig.cropped(c.x as int, c.y as int, c.width as int, c.height as int);
        assert(c.kept(orig.size()) == orig.size());
        assert(kept.width == orig.width && kept.height == orig.height);
        let ch = orig.layout.channels();
        let row = orig.width * ch;
        if orig.width > 0 && orig.height > 0 {
            assert(kept.samples.len() == orig.samples.len()) by (nonlinear_arith)
                requires
                    kept.samples.len() == orig.height * (orig.width * ch),
                    orig.samples.len() == orig.width * orig.height * ch,
                    orig.height >= 0,
                    orig.width >= 0,
                    ch >= 0,
            ;
            assert forall|i: int| 0 <= i < kept.samples.len() implies kept.samples[i]
                == orig.samples[i] by {
                assert(((0 + i / row) * orig.width + 0) * ch + i % row == i) by (nonlinear_arith)
                    requires
                        row == orig.width * ch,
                        row > 0,
                ;
            }
            assert(kept.samples =~= orig.samples);
        } else {
            assert(orig.samples.len() == 0) by (nonlinear_arith)
                requires
                    orig.samples.len() == orig.width * orig.height * ch,
                    orig.width == 0 || orig.height == 0,
            ;
            assert(kept.samples.len() == 0) by (nonlinear_arith)
                requires
                    kept.samples.len() == kept.height * (kept.width * ch),
                    kept.width == 0 || kept.height == 0,
                    kept.height >= 0,
                    kept.width >= 0,
                    ch >= 0,
            ;
            assert(kept.samples =~= orig.samples);
        }
    }
}

/// The pan in pixels of a normalized pan between 0 and 1 lies between 0
/// and the largest valid pan.
pub proof fn lemma_pan_within_extent(norm: int, coeff: int)
    requires
        0 <= norm <= NORM_UNIT,
    ensures
        coeff > 0 ==> 0 <= norm_to_pixels(norm, coeff) <= coeff,
        coeff <= 0 ==> coeff <= norm_to_pixels(norm, coeff) <= 0,
{
    let unit = NORM_UNIT as int;
    if coeff > 0 {
        assert(0 <= norm * coeff <= unit * coeff) by (nonlinear_arith)
            requires
                0 <= norm <= unit,
                coeff > 0,
        ;
        lemma_round_div_monotonic(norm * coeff, unit * coeff, unit);
        assert(unit * coeff == coeff * unit) by (nonlinear_arith);
        lemma_round_div_exact(coeff, unit);
        lemma_round_div_bounds(norm * coeff, unit);
    } else {
        let n = -(norm * coeff);
        assert(0 <= n <= (-coeff) * unit) by (nonlinear_arith)
            requires
                n == -(norm * coeff),
                0 <= norm <= unit,
                coeff <= 0,
        ;
        lemma_round_div_monotonic(n, (-coeff) * unit, unit);
        lemma_round_div_exact(-coeff, unit);
        lemma_round_div_bounds(n, unit);
    }
}

/// At 1:1 an image that the display does not fit is cut to the window and
/// nothing else.
///
/// Where the zoom is 1:1, the display is not asked to shrink the image, the
/// image is not scaled up to the window and the normalized pan lies between
/// 0 and 1, no step resamples, and the image that the steps give has in
/// each axis the lesser of the size of the frame and the size of the window.
pub proof fn lemma_unit_zoom_size(src: Size, state: PreviewState, win_size: Size)
    requires
        state.zoom_factor == ZOOM_UNIT,
        !state.fit_to_window,
        !state.upscale_to_window,
        0 <= state.translate_norm.x <= NORM_UNIT,
        0 <= state.translate_norm.y <= NORM_UNIT,
    ensures
        plan_for(src, state, win_size).output_size(src).x == min_int(
            src.x as int,
            win_size.x as int,
        ),
        plan_for(src, state, win_size).output_size(src).y == min_int(
            src.y as int,
            win_size.y as int,
        ),
        !plan_for(src, state, win_size).resamples(),
{
    let cx = max_translate(src.x as int, win_size.x as int, 1000);
    let cy = max_translate(src.y as int, win_size.y as int, 1000);
    lemma_max_translate_bounds(src.x, win_size.x, 1000);
    lemma_max_translate_bounds(src.y, win_size.y, 1000);
    lemma_pan_within_extent(state.translate_norm.x as int, cx);
    lemma_pan_within_extent(state.translate_norm.y as int, cy);
    let t = translate_pixels(state.translate_norm, src, win_size, state.zoom_factor);
    assert(t.x == norm_to_pixels(state.translate_norm.x as int, cx));
    assert(t.y == norm_to_pixels(state.translate_norm.y as int, cy));
    if crops(src, state, win_size) {
        let rect = crop_rect(src, state, win_size);
        lemma_axis_cut(src.x as int, win_size.x as int, t.x as int, shifts(t, state));
        lemma_axis_cut(src.y as int, win_size.y as int, t.y as int, shifts(t, state));
        assert(rect.x == if t.x > 0 { t.x as int } else { 0 });
        assert(rect.y == if t.y > 0 { t.y as int } else { 0 });
    }
}

/// One axis of the crop at 1:1: the region starts at the pan and what it
/// keeps has the lesser of the size of the frame and the size of the
/// window.
proof fn lemma_axis_cut(src: int, win: int, t: int, shift: bool)
    requires
        0 <= src <= u32::MAX,
        0 <= win <= u32::MAX,
        src > win ==> 0 <= t <= src - win,
        src <= win ==> src - win <= t <= 0,
        shift || t <= 0,
    ensures
        crop_extent(
            src,
            if t > 0 {
                t
            } else {
                0
            },
            crop_len(src * 1000, t, win, shift, true) as int,
        ) == min_int(src, win),
{
    let shifted = if shift {
        src * 1000 - t * 1000
    } else {
        src * 1000
    };
    let limited = min_int(shifted, win * 1000);
    if src > win {
        assert(limited == win * 1000);
    } else {
        assert(src * 1000 <= limited <= win * 1000);
    }
}

} // verus!
