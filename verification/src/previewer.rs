//! The previewer: the view parameters, the table of outputs and the
//! scheduler that decides, once per tick of the interactive loop, whether a
//! frame has to be fetched, whether the frame at hand can be processed
//! again, or whether nothing is to be done, and that takes over the result
//! of the one task that may be in flight.

use vstd::prelude::*;
use crate::errors::{ErrorCategory, ErrorLog, Operation, PreviewError};
use crate::geometry::{
    axis_fix_translate, clamp_translate, max_translate, pixels_to_norm, translate_norm_coeffs,
    translate_norm_to_pixels, translate_pixels, Size, Translate, TranslateNorm, ZOOM_UNIT,
};
use crate::outputs::{
    all_marked, has_output, is_table_of, least_output, lemma_table_of_len, output_record,
    OutputTable, PreviewOutput,
};
use crate::state::{PreviewState, ReloadType};
use crate::vsnode::VSOutput;

verus! {

/// What a tick finds to be done.
#[derive(Debug, Clone, Copy, PartialEq, Eq, Structural)]
pub enum Intent {
    /// Nothing.
    Idle,
    /// A frame has to be fetched from the frame source.
    Fetch,
    /// The frame at hand is to be processed again, without a fetch.
    Reprocess,
}

/// What a task does first.
#[derive(Debug, Clone, Copy, PartialEq, Eq, Structural)]
pub enum FrameAction {
    /// It asks the frame source for the frame.
    Fetch,
    /// It processes the frame that it was handed, and never turns to the
    /// frame source.
    Reprocess,
}

/// What a task is dispatched with: the view parameters as they were at the
/// dispatch, and what it is to do.
#[derive(Debug, Clone, Copy, PartialEq, Eq, Structural)]
pub struct FetchImageState {
    /// The view parameters at the dispatch.
    pub state: PreviewState,
    /// The task is to process the frame at hand again.
    pub reprocess: bool,
    /// The current output has a rendered frame, which the task processes
    /// again.
    pub reuse_frame: bool,
    /// The size of the canvas at the dispatch.
    pub win_size: Size,
}

/// A pan that is asked for.
#[derive(Debug, Clone, Copy, PartialEq, Eq, Structural)]
pub enum TranslateChange {
    /// In pixels.
    Pixels(Translate),
    /// As a fraction of the largest valid pan.
    Normalized(TranslateNorm),
}

/// The states of the scheduler.
#[derive(Debug, Clone, Copy, PartialEq, Eq, Structural)]
pub enum Phase {
    Idle,
    NeedsFetch,
    NeedsReprocess,
    InFlight,
}

/// The previewer. `F` is the handle of a rendered frame, `P` the frame
/// properties cached beside it.
pub struct VSPreviewer<F, P> {
    pub state: PreviewState,
    pub errors: ErrorLog,
    /// The outputs of the script.
    pub outputs: OutputTable<F, P>,
    /// The output whose frame was delivered last.
    pub last_output_key: i32,
    /// The size of the canvas.
    pub available_size: Size,
    /// A fetch or a reprocessing is asked for.
    pub rerender: bool,
    /// What is asked for is a reprocessing only.
    pub reprocess: bool,
    /// The one task that may be in flight, with what it was dispatched with.
    pub frame_task: Option<FetchImageState>,
    /// A reload is in flight.
    pub reload_pending: bool,
    /// A change of the script or of the colour profile is in flight.
    pub misc_pending: bool,
}

/// What a tick finds to be done for the record `record` of the current
/// output, if the table holds one, the frame `cur_frame_no` that is asked
/// for, and the two flags.
///
/// A record that asks for reprocessing decides alone: the frame at hand is
/// processed again if it is the frame that is asked for, else that frame is
/// fetched. Without such a record the flags decide.
pub open spec fn intent_for<F, P>(
    record: Option<PreviewOutput<F, P>>,
    cur_frame_no: u32,
    rerender: bool,
    reprocess: bool,
) -> Intent {
    if record is Some && record->0.force_reprocess {
        if record->0.last_frame_no == cur_frame_no {
            Intent::Reprocess
        } else {
            Intent::Fetch
        }
    } else if !rerender {
        Intent::Idle
    } else if reprocess {
        Intent::Reprocess
    } else {
        Intent::Fetch
    }
}

/// What a tick finds to be done.
pub fn decide_intent<F, P>(
    record: Option<&PreviewOutput<F, P>>,
    cur_frame_no: u32,
    rerender: bool,
    reprocess: bool,
) -> (r: Intent)
    ensures
        r == intent_for(
            match record {
                Some(o) => Some(*o),
                None => None,
            },
            cur_frame_no,
            rerender,
            reprocess,
        ),
{
    let forced = match record {
        Some(o) => if o.force_reprocess {
            Some(o.last_frame_no == cur_frame_no)
        } else {
            None
        },
        None => None,
    };
    match forced {
        Some(true) => Intent::Reprocess,
        Some(false) => Intent::Fetch,
        None => if !rerender {
            Intent::Idle
        } else if reprocess {
            Intent::Reprocess
        } else {
            Intent::Fetch
        },
    }
}

/// What a task that was dispatched with `task` does first: it processes
/// the frame it was handed if it is to reprocess and was handed one, and
/// asks the frame source in every other case.
pub open spec fn action_of(task: FetchImageState) -> FrameAction {
    if task.reprocess && task.reuse_frame {
        FrameAction::Reprocess
    } else {
        FrameAction::Fetch
    }
}

/// What a task that was dispatched with `task` does first.
pub fn frame_action(task: &FetchImageState) -> (r: FrameAction)
    ensures
        r == action_of(*task),
{
    if task.reprocess && task.reuse_frame {
        FrameAction::Reprocess
    } else {
        FrameAction::Fetch
    }
}

impl<F, P> VSPreviewer<F, P> {
    /// A task, a reload or a change is in flight: nothing is dispatched.
    pub open spec fn busy(self) -> bool {
        self.frame_task is Some || self.misc_pending || self.reload_pending
    }

    /// The table holds the current output.
    pub open spec fn has_current(self) -> bool {
        has_output(self.outputs@, self.state.cur_output)
    }

    /// The record of the current output.
    pub open spec fn current(self) -> PreviewOutput<F, P> {
        output_record(self.outputs@, self.state.cur_output)
    }

    /// The record of the current output, if the table holds it.
    pub open spec fn current_record(self) -> Option<PreviewOutput<F, P>> {
        if self.has_current() {
            Some(self.current())
        } else {
            None
        }
    }

    /// What a tick finds to be done.
    pub open spec fn intent(self) -> Intent {
        intent_for(self.current_record(), self.state.cur_frame_no, self.rerender, self.reprocess)
    }

    /// The state of the scheduler.
    pub open spec fn phase(self) -> Phase {
        if self.frame_task is Some {
            Phase::InFlight
        } else {
            match self.intent() {
                Intent::Idle => Phase::Idle,
                Intent::Fetch => Phase::NeedsFetch,
                Intent::Reprocess => Phase::NeedsReprocess,
            }
        }
    }

    /// What a dispatch hands to the task.
    pub open spec fn task_to_dispatch(self) -> FetchImageState {
        FetchImageState {
            state: self.state,
            reprocess: self.intent() == Intent::Reprocess,
            reuse_frame: self.intent() == Intent::Reprocess && self.has_current()
                && self.current().rendered_frame is Some,
            win_size: self.available_size,
        }
    }

    /// The table after a tick that found the scheduler free: the record of
    /// the current output no longer asks for reprocessing, and where a frame
    /// is to be fetched its cached frame properties are dropped.
    pub open spec fn table_after_tick(self) -> Map<i32, PreviewOutput<F, P>> {
        if self.has_current() {
            self.outputs@.insert(
                self.state.cur_output,
                PreviewOutput {
                    force_reprocess: false,
                    original_props: if self.intent() == Intent::Fetch {
                        None
                    } else {
                        self.current().original_props
                    },
                    ..self.current()
                },
            )
        } else {
            self.outputs@
        }
    }

    /// Everything but the table and the task in flight is as in `other`.
    pub open spec fn same_but_table_and_task(self, other: Self) -> bool {
        &&& self.state == other.state
        &&& self.errors == other.errors
        &&& self.last_output_key == other.last_output_key
        &&& self.available_size == other.available_size
        &&& self.rerender == other.rerender
        &&& self.reprocess == other.reprocess
        &&& self.reload_pending == other.reload_pending
        &&& self.misc_pending == other.misc_pending
    }

    /// Nothing differs from `other` in what the previewer holds.
    pub open spec fn unchanged(self, other: Self) -> bool {
        &&& self.same_but_table_and_task(other)
        &&& self.outputs@ == other.outputs@
        &&& self.frame_task == other.frame_task
    }

    /// What a tick does: `post` and `r` are what `try_rerender` leaves and
    /// returns when it is called on `self`.
    ///
    /// While anything is in flight nothing happens, and a record that asks
    /// for reprocessing goes on asking. A table that has outputs but not
    /// the current one is an error, and nothing happens. Else the record of
    /// the current output stops asking, and if anything is to be done one
    /// task is dispatched with a copy of the view parameters: it takes the
    /// slot, and both flags and the mark of a changed pan are cleared.
    pub open spec fn rerender_tried(
        self,
        post: Self,
        r: Result<Option<FetchImageState>, PreviewError>,
    ) -> bool {
        if self.busy() {
            r == Ok::<Option<FetchImageState>, PreviewError>(None) && post.unchanged(self)
        } else if !self.outputs@.is_empty() && !self.has_current() {
            r == Err::<Option<FetchImageState>, PreviewError>(
                PreviewError::InvalidCurrentOutput(Operation::Rerender),
            ) && post.unchanged(self)
        } else if self.intent() == Intent::Idle {
            &&& r == Ok::<Option<FetchImageState>, PreviewError>(None)
            &&& post.same_but_table_and_task(self)
            &&& post.frame_task is None
            &&& post.outputs@ == self.table_after_tick()
        } else {
            &&& r == Ok::<Option<FetchImageState>, PreviewError>(Some(self.task_to_dispatch()))
            &&& post.frame_task == Some(self.task_to_dispatch())
            &&& post.outputs@ == self.table_after_tick()
            &&& post.state == (PreviewState { translate_changed: false, ..self.state })
            &&& !post.rerender
            &&& !post.reprocess
            &&& post.errors == self.errors
            &&& post.last_output_key == self.last_output_key
            &&& post.available_size == self.available_size
            &&& post.reload_pending == self.reload_pending
            &&& post.misc_pending == self.misc_pending
        }
    }

    /// One tick of the scheduler: dispatches at most one task.
    ///
    /// The caller starts the task that is returned, and hands its result to
    /// `check_rerender_finish` when it is there.
    pub fn try_rerender(&mut self) -> (r: Result<Option<FetchImageState>, PreviewError>)
        ensures
            old(self).rerender_tried(*final(self), r),
    {
        if self.frame_task.is_some() || self.misc_pending || self.reload_pending {
            return Ok(None);
        }
        let mut intent = decide_intent::<F, P>(
            None,
            self.state.cur_frame_no,
            self.rerender,
            self.reprocess,
        );
        let mut reuse_frame = false;
        if !self.outputs.is_empty() {
            match self.outputs.get(self.state.cur_output) {
                None => {
                    return Err(PreviewError::InvalidCurrentOutput(Operation::Rerender));
                },
                Some(output) => {
                    intent =
                    decide_intent(
                        Some(output),
                        self.state.cur_frame_no,
                        self.rerender,
                        self.reprocess,
                    );
                    reuse_frame = intent == Intent::Reprocess && output.rendered_frame.is_some();
                },
            }
            self.outputs.set_force_reprocess(self.state.cur_output, false);
            if intent == Intent::Fetch {
                self.outputs.set_original_props(self.state.cur_output, None);
            }
            assert(self.outputs@ =~= old(self).table_after_tick());
        }
        if intent == Intent::Idle {
            return Ok(None);
        }
        let task = FetchImageState {
            state: self.state,
            reprocess: intent == Intent::Reprocess,
            reuse_frame,
            win_size: self.available_size,
        };
        self.rerender = false;
        self.reprocess = false;
        self.state.translate_changed = false;
        self.frame_task = Some(task);
        Ok(Some(task))
    }

    /// The task `task` was dispatched for another output or another frame
    /// than is asked for now.
    pub open spec fn stale(self, task: FetchImageState) -> bool {
        task.state.cur_output != self.state.cur_output || task.state.cur_frame_no
            != self.state.cur_frame_no
    }

    /// What taking over the result of a task does: `post` and `r` are what
    /// `check_rerender_finish` leaves and returns when it is called on
    /// `self` with `result`.
    ///
    /// Without a task in flight nothing happens. Else the slot is freed in
    /// every case. A task that delivered no frame leaves the table as it is.
    /// A frame is put into the record of the current output together with
    /// the number of the frame that the task was dispatched for; if the
    /// table no longer holds the current output the frame is dropped and
    /// the error is reported. A frame that was dispatched for another
    /// output or frame than is asked for now is followed by another fetch.
    pub open spec fn rerender_finished(
        self,
        result: Option<F>,
        post: Self,
        r: Result<bool, PreviewError>,
    ) -> bool {
        if self.frame_task is None {
            r == Ok::<bool, PreviewError>(false) && post.unchanged(self)
        } else if result is None {
            &&& r == Ok::<bool, PreviewError>(false)
            &&& post.frame_task is None
            &&& post.same_but_table_and_task(self)
            &&& post.outputs@ == self.outputs@
        } else if !self.has_current() {
            &&& r == Err::<bool, PreviewError>(
                PreviewError::InvalidCurrentOutput(Operation::RerenderFinish),
            )
            &&& post.frame_task is None
            &&& post.same_but_table_and_task(self)
            &&& post.outputs@ == self.outputs@
        } else {
            &&& r == Ok::<bool, PreviewError>(true)
            &&& post.frame_task is None
            &&& post.outputs@ == self.outputs@.insert(
                self.state.cur_output,
                PreviewOutput {
                    rendered_frame: result,
                    last_frame_no: self.frame_task->0.state.cur_frame_no,
                    ..self.current()
                },
            )
            &&& post.last_output_key == self.state.cur_output
            &&& post.rerender == (self.rerender || self.stale(self.frame_task->0))
            &&& post.state == self.state
            &&& post.errors == self.errors
            &&& post.available_size == self.available_size
            &&& post.reprocess == self.reprocess
            &&& post.reload_pending == self.reload_pending
            &&& post.misc_pending == self.misc_pending
        }
    }

    /// Takes over the result of the task in flight: the frame that it
    /// delivered, or `None` where it delivered none. Returns whether the
    /// display has to be painted again.
    pub fn check_rerender_finish(&mut self, result: Option<F>) -> (r: Result<bool, PreviewError>)
        ensures
            old(self).rerender_finished(result, *final(self), r),
    {
        let task = match self.frame_task {
            None => {
                return Ok(false);
            },
            Some(task) => task,
        };
        self.frame_task = None;
        let frame = match result {
            None => {
                return Ok(false);
            },
            Some(frame) => frame,
        };
        if !self.outputs.contains_key(self.state.cur_output) {
            return Err(PreviewError::InvalidCurrentOutput(Operation::RerenderFinish));
        }
        self.outputs.set_rendered_frame(self.state.cur_output, frame, task.state.cur_frame_no);
        self.last_output_key = self.state.cur_output;
        if task.state.cur_output != self.state.cur_output || task.state.cur_frame_no
            != self.state.cur_frame_no {
            self.rerender = true;
        }
        Ok(true)
    }

    /// What starting a reload does: unless a reload is in flight already,
    /// the messages are dismissed and a reload is in flight.
    pub open spec fn reload_started(self, post: Self, started: bool) -> bool {
        &&& started == !self.reload_pending
        &&& post.reload_pending
        &&& started ==> post.errors.empty()
        &&& !started ==> post.errors == self.errors
        &&& post.state == self.state
        &&& post.outputs@ == self.outputs@
        &&& post.last_output_key == self.last_output_key
        &&& post.available_size == self.available_size
        &&& post.rerender == self.rerender
        &&& post.reprocess == self.reprocess
        &&& post.frame_task == self.frame_task
        &&& post.misc_pending == self.misc_pending
    }

    /// Asks for a reload of the script. Returns whether the caller is to
    /// start one: not while one is in flight.
    pub fn reload(&mut self) -> (started: bool)
        ensures
            old(self).reload_started(*final(self), started),
    {
        if self.reload_pending {
            return false;
        }
        self.errors.clear();
        self.reload_pending = true;
        true
    }

    /// What taking over the outputs of a reload does: `post` and `r` are
    /// what `check_reload_finish` leaves and returns when it is called on
    /// `self` with `result`.
    ///
    /// Unless a reload is in flight nothing happens. Else the reload and
    /// the change that led to it are over, and the table is replaced as a
    /// whole: by the empty table where the reload failed, else by the table
    /// of the new outputs. A reload without outputs is an error. Else the
    /// current output, if the new table does not hold it, becomes the
    /// output of the least number; the frame that is asked for is brought
    /// into the clip of the current output; and a fetch is asked for.
    pub open spec fn reload_finished(
        self,
        result: Option<Vec<VSOutput>>,
        post: Self,
        r: Result<(), PreviewError>,
    ) -> bool {
        if !self.reload_pending {
            r == Ok::<(), PreviewError>(()) && post.unchanged(self)
        } else {
            &&& !post.reload_pending
            &&& !post.misc_pending
            &&& post.errors == self.errors
            &&& post.available_size == self.available_size
            &&& post.frame_task == self.frame_task
            &&& post.reprocess == self.reprocess
            &&& match result {
                None => {
                    &&& r == Ok::<(), PreviewError>(())
                    &&& post.outputs@.is_empty()
                    &&& post.state == self.state
                    &&& post.rerender == self.rerender
                    &&& post.last_output_key == self.last_output_key
                },
                Some(list) => {
                    &&& is_table_of(post.outputs@, list@)
                    &&& if list@.len() == 0 {
                        &&& r == Err::<(), PreviewError>(PreviewError::NoOutputs)
                        &&& post.state == self.state
                        &&& post.rerender == self.rerender
                        &&& post.last_output_key == self.last_output_key
                    } else {
                        &&& r == Ok::<(), PreviewError>(())
                        &&& !post.outputs@.is_empty()
                        &&& post.has_current()
                        &&& post.rerender
                        &&& post.last_output_key == post.state.cur_output
                        &&& post.state == self.state_after_reload(post.outputs@)
                    }
                },
            }
        }
    }

    /// The view parameters after a reload that delivered the table
    /// `table`: the current output, if the table does not hold it, is the
    /// output of the least number, and the frame that is asked for lies in
    /// the clip of the current output.
    pub open spec fn state_after_reload(self, table: Map<i32, PreviewOutput<F, P>>) -> PreviewState {
        let cur_output = if has_output(table, self.state.cur_output) {
            self.state.cur_output
        } else {
            least_output(table)
        };
        let node = output_record(table, cur_output).vsoutput.node_info;
        PreviewState {
            cur_output,
            cur_frame_no: if self.state.cur_frame_no >= node.num_frames {
                node.last_frame() as u32
            } else {
                self.state.cur_frame_no
            },
            ..self.state
        }
    }

    /// Makes the current output and the frame that is asked for fit the
    /// table, and asks for a fetch.
    fn settle_current(&mut self)
        requires
            !old(self).outputs@.is_empty(),
        ensures
            final(self).state == old(self).state_after_reload(old(self).outputs@),
            final(self).has_current(),
            final(self).rerender,
            final(self).last_output_key == final(self).state.cur_output,
            final(self).outputs@ == old(self).outputs@,
            final(self).errors == old(self).errors,
            final(self).available_size == old(self).available_size,
            final(self).frame_task == old(self).frame_task,
            final(self).reprocess == old(self).reprocess,
            final(self).reload_pending == old(self).reload_pending,
            final(self).misc_pending == old(self).misc_pending,
    {
        if !self.outputs.contains_key(self.state.cur_output) {
            let first = self.outputs.first_key();
            self.state.cur_output = first.unwrap();
        }
        let (num_frames, last) = match self.outputs.get(self.state.cur_output) {
            Some(output) => (
                output.vsoutput.node_info.num_frames,
                output.vsoutput.node_info.last_frame_no(),
            ),
            None => (0, 0),
        };
        self.last_output_key = self.state.cur_output;
        if self.state.cur_frame_no >= num_frames {
            self.state.cur_frame_no = last;
        }
        self.rerender = true;
    }

    /// Takes over the result of the reload in flight: the outputs of the
    /// script, or `None` where the reload failed.
    pub fn check_reload_finish(&mut self, result: Option<Vec<VSOutput>>) -> (r: Result<
        (),
        PreviewError,
    >)
        ensures
            old(self).reload_finished(result, *final(self), r),
    {
        if !self.reload_pending {
            return Ok(());
        }
        self.reload_pending = false;
        self.misc_pending = false;
        let list = match result {
            None => {
                self.outputs = OutputTable::new();
                return Ok(());
            },
            Some(list) => list,
        };
        let ghost outputs = list@;
        let empty = list.len() == 0;
        self.outputs = OutputTable::from_outputs(list);
        if empty {
            return Err(PreviewError::NoOutputs);
        }
        proof {
            lemma_table_of_len(self.outputs@, outputs);
        }
        self.settle_current();
        Ok(())
    }

    /// What taking over the outcome of a change of the script or of the
    /// colour profile does. A change that asks for a reload starts one
    /// unless one is in flight, and stays in flight until the reload is
    /// over; one that asks for reprocessing marks every output; in both
    /// other cases the change is over.
    pub open spec fn misc_finished(self, reload_type: ReloadType, post: Self, started: bool) -> bool {
        match reload_type {
            ReloadType::Reload => self.reload_started(post, started),
            ReloadType::Reprocess => {
                &&& !started
                &&& !post.misc_pending
                &&& self.outputs_marked(true, false, post)
            },
            ReloadType::Nothing => {
                &&& !started
                &&& !post.misc_pending
                &&& post.state == self.state
                &&& post.errors == self.errors
                &&& post.outputs@ == self.outputs@
                &&& post.last_output_key == self.last_output_key
                &&& post.available_size == self.available_size
                &&& post.rerender == self.rerender
                &&& post.reprocess == self.reprocess
                &&& post.frame_task == self.frame_task
                &&& post.reload_pending == self.reload_pending
            },
        }
    }

    /// Takes over the outcome of a change of the script or of the colour
    /// profile. Returns whether the caller is to start a reload.
    pub fn check_misc_finish(&mut self, reload_type: ReloadType) -> (started: bool)
        ensures
            old(self).misc_finished(reload_type, *final(self), started),
    {
        match reload_type {
            ReloadType::Reload => self.reload(),
            ReloadType::Reprocess => {
                self.reprocess_outputs(true, false);
                self.misc_pending = false;
                false
            },
            ReloadType::Nothing => {
                self.misc_pending = false;
                false
            },
        }
    }

    /// What marking the outputs does, but for the change in flight: every
    /// record asks for reprocessing, or stops asking, as `flag` says, and a
    /// changed pan is noted.
    pub open spec fn outputs_marked(self, flag: bool, translate_changed: bool, post: Self) -> bool {
        &&& post.state == (PreviewState {
            translate_changed: self.state.translate_changed || translate_changed,
            ..self.state
        })
        &&& all_marked(self.outputs@, flag, post.outputs@)
        &&& post.errors == self.errors
        &&& post.last_output_key == self.last_output_key
        &&& post.available_size == self.available_size
        &&& post.rerender == self.rerender
        &&& post.reprocess == self.reprocess
        &&& post.frame_task == self.frame_task
        &&& post.reload_pending == self.reload_pending
    }

    /// Makes every output ask for reprocessing, or stop asking, and notes a
    /// changed pan.
    pub fn reprocess_outputs(&mut self, flag: bool, translate_changed: bool)
        ensures
            old(self).outputs_marked(flag, translate_changed, *final(self)),
            final(self).misc_pending == old(self).misc_pending,
    {
        if translate_changed {
            self.state.translate_changed = true;
        }
        self.outputs.set_force_reprocess_all(flag);
    }

    /// The frame of the current output, if there is one.
    pub fn get_current_frame(&self) -> (r: Result<Option<&F>, PreviewError>)
        ensures
            !self.outputs@.is_empty() && !self.has_current() <==> r == Err::<
                Option<&F>,
                PreviewError,
            >(PreviewError::InvalidCurrentOutput(Operation::CurrentFrame)),
            r matches Ok(frame) ==> {
                &&& frame is Some <==> self.has_current() && self.current().rendered_frame is Some
                &&& frame matches Some(f) ==> self.current().rendered_frame == Some(*f)
            },
    {
        if self.outputs.is_empty() {
            return Ok(None);
        }
        match self.outputs.get(self.state.cur_output) {
            None => Err(PreviewError::InvalidCurrentOutput(Operation::CurrentFrame)),
            Some(output) => Ok(output.rendered_frame.as_ref()),
        }
    }

    /// What taking over frame properties does: they replace those of the
    /// current output.
    pub open spec fn props_finished(
        self,
        props: Option<P>,
        post: Self,
        r: Result<(), PreviewError>,
    ) -> bool {
        if !self.has_current() {
            r == Err::<(), PreviewError>(
                PreviewError::InvalidCurrentOutput(Operation::OriginalProps),
            ) && post.unchanged(self)
        } else {
            &&& r == Ok::<(), PreviewError>(())
            &&& post.same_but_table_and_task(self)
            &&& post.frame_task == self.frame_task
            &&& post.outputs@ == self.outputs@.insert(
                self.state.cur_output,
                PreviewOutput { original_props: props, ..self.current() },
            )
        }
    }

    /// Takes over the frame properties that were asked for: those of the
    /// frame as the script gave it, or `None` where they could not be had.
    pub fn check_original_props_finish(&mut self, props: Option<P>) -> (r: Result<
        (),
        PreviewError,
    >)
        ensures
            old(self).props_finished(props, *final(self), r),
    {
        if !self.outputs.contains_key(self.state.cur_output) {
            return Err(PreviewError::InvalidCurrentOutput(Operation::OriginalProps));
        }
        self.outputs.set_original_props(self.state.cur_output, props);
        Ok(())
    }

    /// Appends the text of the error of `res`, if it holds one, to the
    /// messages of the category `key`.
    pub fn add_error<T>(&mut self, key: ErrorCategory, res: &Result<T, PreviewError>)
        ensures
            old(self).errors.with_error(key, res.err(), final(self).errors),
            final(self).state == old(self).state,
            final(self).outputs@ == old(self).outputs@,
            final(self).frame_task == old(self).frame_task,
            final(self).rerender == old(self).rerender,
            final(self).reprocess == old(self).reprocess,
    {
        self.errors.add_error(key, res);
    }

    /// Appends the messages `errors` to the category `key`.
    pub fn add_errors(&mut self, key: ErrorCategory, errors: Vec<String>)
        ensures
            old(self).errors.with_errors(key, errors@, final(self).errors),
            final(self).state == old(self).state,
            final(self).outputs@ == old(self).outputs@,
            final(self).frame_task == old(self).frame_task,
            final(self).rerender == old(self).rerender,
            final(self).reprocess == old(self).reprocess,
    {
        self.errors.add_errors(key, errors);
    }

    /// A previewer at its start: the initial view parameters, no outputs,
    /// no messages, nothing asked for and nothing in flight.
    pub fn new() -> (r: Self)
        ensures
            r.state == PreviewState::initial(),
            r.errors.empty(),
            r.outputs@.is_empty(),
            r.last_output_key == 0,
            r.available_size == (Size { x: 0, y: 0 }),
            !r.rerender,
            !r.reprocess,
            r.frame_task is None,
            !r.reload_pending,
            !r.misc_pending,
    {
        VSPreviewer {
            state: PreviewState::default(),
            errors: ErrorLog::new(),
            outputs: OutputTable::new(),
            last_output_key: 0,
            available_size: Size { x: 0, y: 0 },
            rerender: false,
            reprocess: false,
            frame_task: None,
            reload_pending: false,
            misc_pending: false,
        }
    }

    /// The pan `new_translate` brought into the valid pans of an image of
    /// `image_size` on the canvas at the current zoom, and that pan
    /// normalized.
    pub open spec fn fixed_translation(self, image_size: Size, new_translate: Translate) -> (
        Translate,
        TranslateNorm,
    ) {
        let cx = max_translate(
            image_size.x as int,
            self.available_size.x as int,
            self.state.zoom_factor as int,
        );
        let cy = max_translate(
            image_size.y as int,
            self.available_size.y as int,
            self.state.zoom_factor as int,
        );
        (
            Translate {
                x: clamp_translate(new_translate.x as int, cx) as i64,
                y: clamp_translate(new_translate.y as int, cy) as i64,
            },
            TranslateNorm {
                x: pixels_to_norm(new_translate.x as int, cx) as i64,
                y: pixels_to_norm(new_translate.y as int, cy) as i64,
            },
        )
    }

    /// The pan `new_translate` brought into the valid pans, in pixels and
    /// normalized. A pan below 0 becomes 0, one beyond the largest valid
    /// pan becomes that, and where the image is not clipped every pan
    /// becomes 0.
    pub fn fix_translation_bounds(&self, image_size: &Size, new_translate: &Translate) -> (r: (
        Translate,
        TranslateNorm,
    ))
        ensures
            r == self.fixed_translation(*image_size, *new_translate),
            0 <= r.0.x && 0 <= r.0.y,
            0 <= r.1.x <= crate::geometry::NORM_UNIT,
            0 <= r.1.y <= crate::geometry::NORM_UNIT,
    {
        let coeffs = translate_norm_coeffs(image_size, &self.available_size, self.state.zoom_factor);
        let (px, nx) = axis_fix_translate(new_translate.x, coeffs.x);
        let (py, ny) = axis_fix_translate(new_translate.y, coeffs.y);
        (Translate { x: px, y: py }, TranslateNorm { x: nx, y: ny })
    }

    /// What a switch of the output does: `post` and `r` are what
    /// `output_needs_rerender` leaves and returns when it is called on
    /// `self`, whose current output is the new one, with the output that
    /// was shown before.
    ///
    /// The table has to hold both outputs. The pan in pixels is computed
    /// anew from the normalized pan for the size of the new output, and
    /// noted as changed. Nothing else changes: not the frame that is asked
    /// for, not the table. A fetch is needed exactly when the two outputs
    /// show different frames or the new one has no frame yet.
    pub open spec fn output_switched(
        self,
        old_output: i32,
        post: Self,
        r: Result<bool, PreviewError>,
    ) -> bool {
        if !has_output(self.outputs@, old_output) {
            r == Err::<bool, PreviewError>(PreviewError::InvalidOldOutput) && post.unchanged(self)
        } else if !self.has_current() {
            r == Err::<bool, PreviewError>(
                PreviewError::InvalidCurrentOutput(Operation::OutputChange),
            ) && post.unchanged(self)
        } else {
            &&& r == Ok::<bool, PreviewError>(
                output_record(self.outputs@, old_output).last_frame_no
                    != self.current().last_frame_no || self.current().rendered_frame is None,
            )
            &&& post.state == (PreviewState {
                translate_changed: true,
                translate: translate_pixels(
                    self.state.translate_norm,
                    Size {
                        x: self.current().vsoutput.node_info.width,
                        y: self.current().vsoutput.node_info.height,
                    },
                    self.available_size,
                    self.state.zoom_factor,
                ),
                ..self.state
            })
            &&& post.state.cur_frame_no == self.state.cur_frame_no
            &&& post.outputs@ == self.outputs@
            &&& post.frame_task == self.frame_task
            &&& post.errors == self.errors
            &&& post.last_output_key == self.last_output_key
            &&& post.available_size == self.available_size
            &&& post.rerender == self.rerender
            &&& post.reprocess == self.reprocess
            &&& post.reload_pending == self.reload_pending
            &&& post.misc_pending == self.misc_pending
        }
    }

    /// Follows a switch of the current output from `old_output`: brings the
    /// pan to the size of the new output, and returns whether a frame has
    /// to be fetched.
    pub fn output_needs_rerender(&mut self, old_output: i32) -> (r: Result<bool, PreviewError>)
        ensures
            old(self).output_switched(old_output, *final(self), r),
    {
        let before = match self.outputs.get(old_output) {
            None => {
                return Err(PreviewError::InvalidOldOutput);
            },
            Some(o) => o.last_frame_no,
        };
        let (size, shown, rendered) = match self.outputs.get(self.state.cur_output) {
            None => {
                return Err(PreviewError::InvalidCurrentOutput(Operation::OutputChange));
            },
            Some(o) => (
                Size { x: o.vsoutput.node_info.width, y: o.vsoutput.node_info.height },
                o.last_frame_no,
                o.rendered_frame.is_some(),
            ),
        };
        self.state.translate_changed = true;
        self.state.translate =
        translate_norm_to_pixels(
            &self.state.translate_norm,
            &size,
            &self.available_size,
            self.state.zoom_factor,
        );
        Ok(before != shown || !rendered)
    }

    /// The pan has no effect: the display shrinks the image to the window,
    /// and it is not magnified.
    pub open spec fn useless_translate(self) -> bool {
        self.state.fit_to_window && self.state.zoom_factor <= ZOOM_UNIT
    }

    /// The pan in pixels that `change` asks for, for an image of
    /// `image_size`.
    pub open spec fn asked_translate(self, change: TranslateChange, image_size: Size) -> Translate {
        match change {
            TranslateChange::Pixels(t) => t,
            TranslateChange::Normalized(n) => translate_pixels(
                n,
                image_size,
                self.available_size,
                self.state.zoom_factor,
            ),
        }
    }

    /// What a change of the pan does: `post` and `r` are what
    /// `correct_translate_for_current_output` leaves and returns when it is
    /// called on `self` with `change`.
    ///
    /// Without outputs nothing happens. Else the pan that is asked for is
    /// brought into the valid pans of the current output. If the result
    /// differs from the pan in pixels so far, it becomes the pan, in pixels
    /// and normalized, or the pan becomes zero where a pan has no effect;
    /// every output asks for reprocessing and the pan is noted as changed.
    pub open spec fn translate_corrected(
        self,
        change: TranslateChange,
        post: Self,
        r: Result<bool, PreviewError>,
    ) -> bool {
        if self.outputs@.is_empty() {
            r == Ok::<bool, PreviewError>(false) && post.unchanged(self)
        } else if !self.has_current() {
            r == Err::<bool, PreviewError>(
                PreviewError::InvalidCurrentOutput(Operation::Translate),
            ) && post.unchanged(self)
        } else {
            let size = Size {
                x: self.current().vsoutput.node_info.width,
                y: self.current().vsoutput.node_info.height,
            };
            let fixed = self.fixed_translation(size, self.asked_translate(change, size));
            if fixed.0 == self.state.translate {
                r == Ok::<bool, PreviewError>(false) && post.unchanged(self)
            } else {
                &&& r == Ok::<bool, PreviewError>(true)
                &&& post.state == (PreviewState {
                    translate: if self.useless_translate() {
                        Translate { x: 0, y: 0 }
                    } else {
                        fixed.0
                    },
                    translate_norm: if self.useless_translate() {
                        TranslateNorm { x: 0, y: 0 }
                    } else {
                        fixed.1
                    },
                    translate_changed: true,
                    ..self.state
                })
                &&& all_marked(self.outputs@, true, post.outputs@)
                &&& post.frame_task == self.frame_task
                &&& post.errors == self.errors
                &&& post.last_output_key == self.last_output_key
                &&& post.available_size == self.available_size
                &&& post.rerender == self.rerender
                &&& post.reprocess == self.reprocess
                &&& post.reload_pending == self.reload_pending
                &&& post.misc_pending == self.misc_pending
            }
        }
    }

    /// Sets the pan to what `change` asks for, brought into the valid pans
    /// of the current output. Returns whether the pan changed, in which
    /// case every output asks for reprocessing.
    pub fn correct_translate_for_current_output(&mut self, change: TranslateChange) -> (r: Result<
        bool,
        PreviewError,
    >)
        ensures
            old(self).translate_corrected(change, *final(self), r),
    {
        if self.outputs.is_empty() {
            return Ok(false);
        }
        let size = match self.outputs.get(self.state.cur_output) {
            None => {
                return Err(PreviewError::InvalidCurrentOutput(Operation::Translate));
            },
            Some(o) => Size { x: o.vsoutput.node_info.width, y: o.vsoutput.node_info.height },
        };
        let asked = match change {
            TranslateChange::Pixels(t) => t,
            TranslateChange::Normalized(n) => translate_norm_to_pixels(
                &n,
                &size,
                &self.available_size,
                self.state.zoom_factor,
            ),
        };
        let (fix_pixel, fix_norm) = self.fix_translation_bounds(&size, &asked);
        if fix_pixel == self.state.translate {
            return Ok(false);
        }
        if self.state.fit_to_window && self.state.zoom_factor <= ZOOM_UNIT {
            self.state.translate = Translate { x: 0, y: 0 };
            self.state.translate_norm = TranslateNorm { x: 0, y: 0 };
        } else {
            self.state.translate = fix_pixel;
            self.state.translate_norm = fix_norm;
        }
        self.reprocess_outputs(true, true);
        Ok(true)
    }

    /// What is displayed: the frame of the current output, but nothing
    /// while the current output shows another frame than the output whose
    /// frame was delivered last, so that a frame that is about to be
    /// replaced is not shown in between. Without the current output in the
    /// table nothing is displayed; the table then has to hold the output
    /// whose frame was delivered last.
    pub open spec fn displayed(self, r: Result<Option<&F>, PreviewError>) -> bool {
        if !self.has_current() {
            r == Ok::<Option<&F>, PreviewError>(None)
        } else if !has_output(self.outputs@, self.last_output_key) {
            r == Err::<Option<&F>, PreviewError>(PreviewError::InvalidLastOutput)
        } else if output_record(self.outputs@, self.last_output_key).last_frame_no
            != self.current().last_frame_no {
            r == Ok::<Option<&F>, PreviewError>(None)
        } else {
            &&& r matches Ok(frame)
            &&& frame is Some <==> self.current().rendered_frame is Some
            &&& frame matches Some(f) ==> self.current().rendered_frame == Some(*f)
        }
    }

    /// The frame to display, if there is one.
    pub fn displayed_frame(&self) -> (r: Result<Option<&F>, PreviewError>)
        ensures
            self.displayed(r),
    {
        let current = match self.outputs.get(self.state.cur_output) {
            None => {
                return Ok(None);
            },
            Some(o) => o,
        };
        let last = match self.outputs.get(self.last_output_key) {
            None => {
                return Err(PreviewError::InvalidLastOutput);
            },
            Some(o) => o,
        };
        if last.last_frame_no != current.last_frame_no {
            Ok(None)
        } else {
            Ok(current.rendered_frame.as_ref())
        }
    }

    /// Whether the display shows that it is waiting: while a reload is in
    /// flight, and while nothing is painted and no message is shown.
    pub fn shows_spinner(&self, painted_image: bool) -> (r: bool)
        ensures
            r == (self.reload_pending || (!painted_image && self.errors.empty())),
    {
        self.reload_pending || (!painted_image && self.errors.is_empty())
    }
}

} // verus!
