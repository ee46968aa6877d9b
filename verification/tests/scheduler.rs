use vspreview::errors::{ErrorCategory, Operation, PreviewError};
use vspreview::geometry::{Size, Translate, TranslateNorm, NORM_UNIT};
use vspreview::outputs::OutputTable;
use vspreview::previewer::{
    frame_action, FetchImageState, FrameAction, TranslateChange, VSPreviewer,
};
use vspreview::state::{PreviewState, ReloadType};
use vspreview::vsnode::{VSNode, VSOutput};

type Previewer = VSPreviewer<&'static str, u8>;

fn output(index: i32, num_frames: u32, width: u32, height: u32) -> VSOutput {
    VSOutput {
        index,
        node_info: VSNode::new(num_frames, width, height, 24000, 1001, String::from("RGB24")),
    }
}

fn loaded(outputs: Vec<VSOutput>) -> Previewer {
    let mut pv = Previewer::new();
    pv.available_size = Size { x: 1920, y: 1080 };
    assert!(pv.reload());
    pv.check_reload_finish(Some(outputs)).unwrap();
    pv
}

fn two_outputs() -> Previewer {
    loaded(vec![output(0, 100, 1920, 1080), output(1, 50, 3840, 2160)])
}

fn deliver(pv: &mut Previewer, frame: &'static str) -> FetchImageState {
    let task = pv.try_rerender().unwrap().unwrap();
    assert_eq!(pv.check_rerender_finish(Some(frame)), Ok(true));
    task
}

#[test]
fn first_tick_after_a_reload_fetches() {
    let mut pv = two_outputs();
    assert!(pv.rerender);
    let task = pv.try_rerender().unwrap().unwrap();
    assert!(!task.reprocess);
    assert!(!task.reuse_frame);
    assert_eq!(frame_action(&task), FrameAction::Fetch);
    assert_eq!(task.state, PreviewState::default());
    assert_eq!(task.win_size, Size { x: 1920, y: 1080 });
    assert_eq!(pv.frame_task, Some(task));
    assert!(!pv.rerender);
}

#[test]
fn at_most_one_task_is_in_flight() {
    let mut pv = two_outputs();
    let mut outstanding = 0;
    for tick in 0..40u32 {
        match tick % 4 {
            0 => pv.state.cur_frame_no = (pv.state.cur_frame_no + 1) % 50,
            1 => pv.state.zoom_factor += 100,
            2 => pv.state.cur_output = 1 - pv.state.cur_output,
            _ => {}
        }
        pv.rerender = true;
        pv.reprocess_outputs(true, tick % 3 == 0);
        if pv.try_rerender().unwrap().is_some() {
            outstanding += 1;
        }
        assert!(outstanding <= 1);
        assert_eq!(pv.frame_task.is_some(), outstanding == 1);
        if tick % 5 == 4 {
            let had = pv.frame_task.is_some();
            assert_eq!(pv.check_rerender_finish(Some("frame")), Ok(had));
            if had {
                outstanding -= 1;
            }
            assert!(pv.frame_task.is_none());
        }
    }
}

#[test]
fn nothing_is_dispatched_while_a_task_is_in_flight() {
    let mut pv = two_outputs();
    let first = pv.try_rerender().unwrap().unwrap();
    pv.rerender = true;
    pv.reprocess_outputs(true, false);
    assert_eq!(pv.try_rerender(), Ok(None));
    assert_eq!(pv.frame_task, Some(first));
    assert!(pv.rerender);
    assert!(pv.outputs.get(0).unwrap().force_reprocess);
    assert_eq!(pv.check_rerender_finish(Some("a")), Ok(true));
    let second = pv.try_rerender().unwrap().unwrap();
    assert!(second.reprocess);
    assert!(!pv.outputs.get(0).unwrap().force_reprocess);
}

#[test]
fn nothing_is_dispatched_while_a_reload_or_a_change_is_in_flight() {
    let mut pv = two_outputs();
    assert!(pv.reload());
    assert_eq!(pv.try_rerender(), Ok(None));
    assert!(pv.rerender);
    pv.check_reload_finish(Some(vec![output(0, 10, 8, 8)])).unwrap();
    pv.misc_pending = true;
    assert_eq!(pv.try_rerender(), Ok(None));
    assert!(!pv.check_misc_finish(ReloadType::Nothing));
    assert!(pv.try_rerender().unwrap().is_some());
}

#[test]
fn reprocess_when_the_frame_on_screen_is_the_one_asked_for() {
    let mut pv = two_outputs();
    pv.state.cur_frame_no = 7;
    pv.rerender = true;
    let fetched = deliver(&mut pv, "seven");
    assert_eq!(frame_action(&fetched), FrameAction::Fetch);
    assert_eq!(pv.outputs.get(0).unwrap().last_frame_no, 7);
    assert_eq!(pv.try_rerender(), Ok(None));

    pv.state.zoom_factor = 2000;
    pv.reprocess_outputs(true, false);
    let task = pv.try_rerender().unwrap().unwrap();
    assert!(task.reprocess);
    assert!(task.reuse_frame);
    assert_eq!(frame_action(&task), FrameAction::Reprocess);
    assert_eq!(task.state.zoom_factor, 2000);
    assert_eq!(pv.check_rerender_finish(Some("seven again")), Ok(true));

    pv.state.cur_frame_no = 8;
    pv.reprocess_outputs(true, false);
    let task = pv.try_rerender().unwrap().unwrap();
    assert!(!task.reprocess);
    assert!(!task.reuse_frame);
    assert_eq!(frame_action(&task), FrameAction::Fetch);
}

#[test]
fn reprocessing_without_a_frame_falls_back_to_a_fetch() {
    let mut pv = two_outputs();
    pv.rerender = false;
    pv.reprocess_outputs(true, false);
    let task = pv.try_rerender().unwrap().unwrap();
    assert!(task.reprocess);
    assert!(!task.reuse_frame);
    assert_eq!(frame_action(&task), FrameAction::Fetch);
    assert_eq!(
        frame_action(&FetchImageState { reprocess: false, reuse_frame: true, ..task }),
        FrameAction::Fetch
    );
    assert_eq!(
        frame_action(&FetchImageState { reprocess: true, reuse_frame: true, ..task }),
        FrameAction::Reprocess
    );
}

#[test]
fn a_fetch_drops_the_cached_frame_properties_and_a_reprocessing_keeps_them() {
    let mut pv = two_outputs();
    deliver(&mut pv, "zero");
    pv.check_original_props_finish(Some(9)).unwrap();
    pv.reprocess_outputs(true, false);
    deliver(&mut pv, "zero");
    assert_eq!(pv.outputs.get(0).unwrap().original_props, Some(9));
    pv.state.cur_frame_no = 3;
    pv.rerender = true;
    pv.try_rerender().unwrap().unwrap();
    assert_eq!(pv.outputs.get(0).unwrap().original_props, None);
}

#[test]
fn the_dispatch_clears_the_mark_of_a_changed_pan_after_the_copy() {
    let mut pv = two_outputs();
    pv.reprocess_outputs(true, true);
    assert!(pv.state.translate_changed);
    let task = pv.try_rerender().unwrap().unwrap();
    assert!(task.state.translate_changed);
    assert!(!pv.state.translate_changed);
    assert!(!pv.rerender && !pv.reprocess);
}

#[test]
fn a_delivered_frame_lands_in_the_current_output() {
    let mut pv = two_outputs();
    pv.state.cur_frame_no = 12;
    let task = pv.try_rerender().unwrap().unwrap();
    assert_eq!(task.state.cur_frame_no, 12);
    assert_eq!(pv.check_rerender_finish(Some("twelve")), Ok(true));
    let record = pv.outputs.get(0).unwrap();
    assert_eq!(record.rendered_frame, Some("twelve"));
    assert_eq!(record.last_frame_no, 12);
    assert_eq!(pv.last_output_key, 0);
    assert!(pv.frame_task.is_none());
    assert!(!pv.rerender);
    assert_eq!(pv.get_current_frame(), Ok(Some(&"twelve")));
    assert!(pv.outputs.get(1).unwrap().rendered_frame.is_none());
}

#[test]
fn a_stale_frame_is_followed_by_another_fetch() {
    let mut pv = two_outputs();
    pv.state.cur_frame_no = 12;
    pv.try_rerender().unwrap().unwrap();
    pv.state.cur_frame_no = 13;
    assert_eq!(pv.check_rerender_finish(Some("twelve")), Ok(true));
    assert_eq!(pv.outputs.get(0).unwrap().last_frame_no, 12);
    assert!(pv.rerender);
    let task = pv.try_rerender().unwrap().unwrap();
    assert_eq!(task.state.cur_frame_no, 13);
    assert!(!task.reprocess);

    assert_eq!(pv.check_rerender_finish(Some("thirteen")), Ok(true));
    pv.rerender = true;
    pv.try_rerender().unwrap().unwrap();
    pv.state.cur_output = 1;
    assert_eq!(pv.check_rerender_finish(Some("of output 0")), Ok(true));
    assert_eq!(pv.outputs.get(1).unwrap().rendered_frame, Some("of output 0"));
    assert_eq!(pv.last_output_key, 1);
    assert!(pv.rerender);
}

#[test]
fn a_failed_task_frees_the_slot_and_leaves_the_table() {
    let mut pv = two_outputs();
    deliver(&mut pv, "zero");
    pv.state.cur_frame_no = 5;
    pv.rerender = true;
    pv.try_rerender().unwrap().unwrap();
    assert_eq!(pv.check_rerender_finish(None), Ok(false));
    assert!(pv.frame_task.is_none());
    let record = pv.outputs.get(0).unwrap();
    assert_eq!(record.rendered_frame, Some("zero"));
    assert_eq!(record.last_frame_no, 0);
    assert_eq!(pv.check_rerender_finish(Some("late")), Ok(false));
    assert_eq!(pv.outputs.get(0).unwrap().rendered_frame, Some("zero"));
}

#[test]
fn a_result_for_an_output_that_is_gone_is_reported_and_dropped() {
    let mut pv = two_outputs();
    pv.try_rerender().unwrap().unwrap();
    pv.state.cur_output = 7;
    assert_eq!(
        pv.check_rerender_finish(Some("zero")),
        Err(PreviewError::InvalidCurrentOutput(Operation::RerenderFinish))
    );
    assert!(pv.frame_task.is_none());
    assert!(pv.outputs.get(0).unwrap().rendered_frame.is_none());
    pv.rerender = true;
    assert_eq!(
        pv.try_rerender(),
        Err(PreviewError::InvalidCurrentOutput(Operation::Rerender))
    );
    assert!(pv.rerender);
    assert_eq!(
        pv.get_current_frame(),
        Err(PreviewError::InvalidCurrentOutput(Operation::CurrentFrame))
    );
    assert_eq!(
        pv.check_original_props_finish(None),
        Err(PreviewError::InvalidCurrentOutput(Operation::OriginalProps))
    );
    assert_eq!(
        pv.correct_translate_for_current_output(TranslateChange::Pixels(Translate { x: 1, y: 1 })),
        Err(PreviewError::InvalidCurrentOutput(Operation::Translate))
    );
    assert_eq!(
        pv.output_needs_rerender(0),
        Err(PreviewError::InvalidCurrentOutput(Operation::OutputChange))
    );
    pv.state.cur_output = 0;
    assert_eq!(pv.output_needs_rerender(7), Err(PreviewError::InvalidOldOutput));
}

#[test]
fn without_outputs_a_tick_still_dispatches_what_is_asked_for() {
    let mut pv = Previewer::new();
    assert_eq!(pv.try_rerender(), Ok(None));
    assert_eq!(pv.get_current_frame(), Ok(None));
    pv.rerender = true;
    let task = pv.try_rerender().unwrap().unwrap();
    assert!(!task.reprocess && !task.reuse_frame);
    assert_eq!(
        pv.correct_translate_for_current_output(TranslateChange::Pixels(Translate { x: 5, y: 5 })),
        Ok(false)
    );
}

#[test]
fn reload_falls_back_to_the_lowest_output_and_clamps_the_frame() {
    let mut pv = loaded(vec![
        output(0, 100, 64, 48),
        output(3, 100, 64, 48),
        output(5, 1000, 64, 48),
    ]);
    pv.state.cur_output = 5;
    pv.state.cur_frame_no = 640;
    deliver(&mut pv, "old");
    assert!(pv.reload());
    assert!(!pv.reload());
    let result = vec![output(2, 300, 64, 48), output(0, 500, 64, 48), output(1, 700, 64, 48)];
    assert_eq!(pv.check_reload_finish(Some(result)), Ok(()));
    let mut keys = pv.outputs.keys();
    keys.sort();
    assert_eq!(keys, vec![0, 1, 2]);
    assert_eq!(pv.state.cur_output, 0);
    assert_eq!(pv.state.cur_frame_no, 499);
    assert_eq!(pv.last_output_key, 0);
    assert!(pv.rerender);
    assert!(!pv.reload_pending);
    for key in 0..3 {
        let record = pv.outputs.get(key).unwrap();
        assert!(record.rendered_frame.is_none());
        assert!(record.original_props.is_none());
        assert!(!record.force_reprocess);
        assert_eq!(record.last_frame_no, 0);
    }
}

#[test]
fn reload_keeps_a_current_output_that_is_still_there() {
    let mut pv = two_outputs();
    pv.state.cur_output = 1;
    pv.state.cur_frame_no = 20;
    pv.reload();
    pv.check_reload_finish(Some(vec![output(1, 21, 8, 8), output(0, 5, 8, 8)])).unwrap();
    assert_eq!(pv.state.cur_output, 1);
    assert_eq!(pv.state.cur_frame_no, 20);
    pv.reload();
    pv.check_reload_finish(Some(vec![output(1, 20, 8, 8)])).unwrap();
    assert_eq!(pv.state.cur_frame_no, 19);
    pv.reload();
    pv.check_reload_finish(Some(vec![output(1, 0, 8, 8)])).unwrap();
    assert_eq!(pv.state.cur_frame_no, 0);
}

#[test]
fn a_failed_or_empty_reload_leaves_no_outputs() {
    let mut pv = two_outputs();
    pv.rerender = false;
    pv.reload();
    assert_eq!(pv.check_reload_finish(None), Ok(()));
    assert!(pv.outputs.is_empty());
    assert!(!pv.reload_pending);
    assert!(!pv.rerender);
    pv.reload();
    assert_eq!(pv.check_reload_finish(Some(Vec::new())), Err(PreviewError::NoOutputs));
    assert!(pv.outputs.is_empty());
    assert!(!pv.reload_pending);
    assert_eq!(pv.check_reload_finish(Some(vec![output(0, 1, 1, 1)])), Ok(()));
    assert!(pv.outputs.is_empty());
}

#[test]
fn later_output_of_the_same_number_wins() {
    let table: OutputTable<u8, u8> = OutputTable::from_outputs(vec![
        output(4, 10, 1, 1),
        output(-2, 20, 2, 2),
        output(4, 30, 3, 3),
        output(0, 40, 4, 4),
    ]);
    let mut keys = table.keys();
    keys.sort();
    assert_eq!(keys, vec![-2, 0, 4]);
    assert_eq!(table.len(), 3);
    assert!(!table.is_empty());
    assert_eq!(table.first_key(), Some(-2));
    let empty: OutputTable<u8, u8> = OutputTable::new();
    assert_eq!(empty.first_key(), None);
    assert!(empty.is_empty() && empty.keys().is_empty());
    assert_eq!(table.get(4).unwrap().vsoutput.node_info.num_frames, 30);
    assert!(table.contains_key(0));
    assert!(!table.contains_key(1));
    assert_eq!(table.get(-2).unwrap().vsoutput.index, -2);
    assert!(table.get(1).is_none());
}

#[test]
fn switching_the_output_keeps_the_frame_number() {
    let mut pv = two_outputs();
    pv.state.cur_frame_no = 30;
    deliver(&mut pv, "thirty");
    pv.state.translate_norm = TranslateNorm { x: NORM_UNIT / 2, y: NORM_UNIT };
    pv.state.fit_to_window = false;
    let table_before: Vec<u32> = (0..2).map(|k| pv.outputs.get(k).unwrap().last_frame_no).collect();

    pv.state.cur_output = 1;
    assert_eq!(pv.output_needs_rerender(0), Ok(true));
    assert_eq!(pv.state.cur_frame_no, 30);
    assert_eq!(pv.state.cur_output, 1);
    assert!(pv.state.translate_changed);
    assert_eq!(pv.state.translate, Translate { x: 960, y: 1080 });
    let table_after: Vec<u32> = (0..2).map(|k| pv.outputs.get(k).unwrap().last_frame_no).collect();
    assert_eq!(table_before, table_after);

    pv.rerender = true;
    deliver(&mut pv, "thirty of 1");
    pv.state.cur_output = 0;
    assert_eq!(pv.output_needs_rerender(1), Ok(false));
    assert_eq!(pv.state.translate, Translate { x: 0, y: 0 });

    pv.state.cur_frame_no = 31;
    pv.rerender = true;
    deliver(&mut pv, "thirty-one");
    pv.state.cur_output = 1;
    assert_eq!(pv.output_needs_rerender(0), Ok(true));
    assert_eq!(pv.state.cur_frame_no, 31);
}

#[test]
fn correcting_the_pan_clamps_and_marks_the_outputs() {
    let mut pv = two_outputs();
    pv.state.cur_output = 1;
    pv.state.fit_to_window = false;
    let change = TranslateChange::Pixels(Translate { x: 5000, y: -40 });
    assert_eq!(pv.correct_translate_for_current_output(change), Ok(true));
    assert_eq!(pv.state.translate, Translate { x: 1920, y: 0 });
    assert_eq!(pv.state.translate_norm, TranslateNorm { x: NORM_UNIT, y: 0 });
    assert!(pv.state.translate_changed);
    assert!(pv.outputs.get(0).unwrap().force_reprocess);
    assert!(pv.outputs.get(1).unwrap().force_reprocess);

    pv.reprocess_outputs(false, false);
    assert_eq!(pv.correct_translate_for_current_output(change), Ok(false));
    assert!(!pv.outputs.get(1).unwrap().force_reprocess);

    let half = TranslateChange::Normalized(TranslateNorm { x: NORM_UNIT / 2, y: NORM_UNIT / 4 });
    assert_eq!(pv.correct_translate_for_current_output(half), Ok(true));
    assert_eq!(pv.state.translate, Translate { x: 960, y: 270 });
    assert_eq!(pv.state.translate_norm, TranslateNorm { x: NORM_UNIT / 2, y: NORM_UNIT / 4 });
}

#[test]
fn a_pan_without_effect_is_reset() {
    let mut pv = two_outputs();
    pv.state.cur_output = 1;
    pv.state.translate = Translate { x: 7, y: 7 };
    pv.state.translate_norm = TranslateNorm { x: 9, y: 9 };
    assert!(pv.state.fit_to_window);
    let change = TranslateChange::Pixels(Translate { x: 100, y: 100 });
    assert_eq!(pv.correct_translate_for_current_output(change), Ok(true));
    assert_eq!(pv.state.translate, Translate { x: 0, y: 0 });
    assert_eq!(pv.state.translate_norm, TranslateNorm { x: 0, y: 0 });
}

#[test]
fn fixing_the_pan_twice_changes_nothing() {
    let mut pv = two_outputs();
    let size = Size { x: 3840, y: 2160 };
    for zoom in [125u32, 500, 1000, 1500, 64000] {
        pv.state.zoom_factor = zoom;
        for t in [(-5i64, 12i64), (0, 0), (700, 3000), (1 << 40, 1)] {
            let asked = Translate { x: t.0, y: t.1 };
            let once = pv.fix_translation_bounds(&size, &asked);
            let twice = pv.fix_translation_bounds(&size, &once.0);
            assert_eq!(once, twice);
        }
    }
    pv.state.zoom_factor = 1000;
    assert_eq!(
        pv.fix_translation_bounds(&size, &Translate { x: 480, y: 5000 }),
        (Translate { x: 480, y: 1080 }, TranslateNorm { x: NORM_UNIT / 4, y: NORM_UNIT })
    );
    assert_eq!(
        pv.fix_translation_bounds(&Size { x: 640, y: 480 }, &Translate { x: 480, y: 5000 }),
        (Translate { x: 0, y: 0 }, TranslateNorm { x: 0, y: 0 })
    );
}

#[test]
fn a_change_that_asks_for_a_reload_starts_one() {
    let mut pv = two_outputs();
    pv.add_errors(ErrorCategory::VapourSynth, vec![String::from("Warning: late")]);
    pv.misc_pending = true;
    assert!(pv.check_misc_finish(ReloadType::Reload));
    assert!(pv.reload_pending);
    assert!(pv.misc_pending);
    assert!(pv.errors.is_empty());
    assert!(!pv.check_misc_finish(ReloadType::Reload));
    pv.check_reload_finish(Some(vec![output(0, 1, 1, 1)])).unwrap();
    assert!(!pv.misc_pending);

    pv.misc_pending = true;
    assert!(!pv.check_misc_finish(ReloadType::Reprocess));
    assert!(!pv.misc_pending);
    assert!(pv.outputs.get(0).unwrap().force_reprocess);
    assert!(!pv.state.translate_changed);
}

#[test]
fn errors_are_listed_by_category() {
    let mut pv = Previewer::new();
    assert!(pv.errors.is_empty());
    let ok: Result<(), PreviewError> = Ok(());
    pv.add_error(ErrorCategory::Callbacks, &ok);
    pv.add_errors(ErrorCategory::Preview, Vec::new());
    assert!(pv.errors.is_empty());
    assert!(pv.errors.get(ErrorCategory::Callbacks).is_none());
    assert!(pv.errors.get(ErrorCategory::Preview).is_none());
    let err: Result<bool, PreviewError> = Err(PreviewError::NoOutputs);
    pv.add_error(ErrorCategory::Callbacks, &err);
    let err: Result<bool, PreviewError> = Err(PreviewError::InvalidOldOutput);
    pv.add_error(ErrorCategory::Preview, &err);
    let err: Result<bool, PreviewError> =
        Err(PreviewError::InvalidCurrentOutput(Operation::Rerender));
    pv.add_error(ErrorCategory::Callbacks, &err);
    assert!(pv.errors.get(ErrorCategory::VapourSynth).is_none());
    pv.add_errors(ErrorCategory::VapourSynth, vec![String::from("a"), String::from("b")]);
    pv.add_errors(ErrorCategory::VapourSynth, Vec::new());
    pv.add_errors(ErrorCategory::VapourSynth, vec![String::from("c")]);
    assert_eq!(
        pv.errors.get(ErrorCategory::Callbacks).unwrap(),
        &vec![
            String::from("No outputs available"),
            String::from("rerender: Invalid current output key")
        ]
    );
    assert_eq!(
        pv.errors.get(ErrorCategory::Preview).unwrap(),
        &vec![String::from("output_needs_rerender: Invalid new output key")]
    );
    assert_eq!(pv.errors.get(ErrorCategory::VapourSynth).unwrap(), &vec!["a", "b", "c"]);
    assert!(!pv.errors.is_empty());
    pv.errors.clear();
    assert!(pv.errors.is_empty());
    assert!(pv.errors.get(ErrorCategory::Callbacks).is_none());
}

#[test]
fn nothing_is_displayed_while_the_shown_frame_is_about_to_be_replaced() {
    let mut pv = two_outputs();
    assert_eq!(pv.displayed_frame(), Ok(None));
    pv.state.cur_frame_no = 4;
    deliver(&mut pv, "four");
    assert_eq!(pv.displayed_frame(), Ok(Some(&"four")));
    pv.state.cur_output = 1;
    assert_eq!(pv.displayed_frame(), Ok(None));
    pv.rerender = true;
    deliver(&mut pv, "four of 1");
    assert_eq!(pv.displayed_frame(), Ok(Some(&"four of 1")));
    pv.state.cur_output = 0;
    assert_eq!(pv.displayed_frame(), Ok(Some(&"four")));
    pv.last_output_key = 8;
    assert_eq!(pv.displayed_frame(), Err(PreviewError::InvalidLastOutput));
    pv.state.cur_output = 9;
    assert_eq!(pv.displayed_frame(), Ok(None));
}

#[test]
fn the_spinner_shows_while_waiting() {
    let mut pv = Previewer::new();
    assert!(pv.shows_spinner(false));
    assert!(!pv.shows_spinner(true));
    pv.add_errors(ErrorCategory::Callbacks, vec![String::from("failed")]);
    assert!(!pv.shows_spinner(false));
    pv.reload();
    assert!(pv.shows_spinner(true));
}

#[test]
fn records_are_changed_by_their_output_number() {
    let mut table: OutputTable<&'static str, u8> =
        OutputTable::from_outputs(vec![output(3, 10, 1, 1), output(1, 20, 2, 2)]);
    table.set_force_reprocess(3, true);
    table.set_original_props(1, Some(7));
    table.set_rendered_frame(1, "frame", 12);
    table.set_rendered_frame(8, "lost", 1);
    assert!(table.get(3).unwrap().force_reprocess);
    assert!(!table.get(1).unwrap().force_reprocess);
    assert_eq!(table.get(1).unwrap().original_props, Some(7));
    assert_eq!(table.get(1).unwrap().rendered_frame, Some("frame"));
    assert_eq!(table.get(1).unwrap().last_frame_no, 12);
    assert_eq!(table.get(1).unwrap().vsoutput.node_info.num_frames, 20);
    assert_eq!(table.len(), 2);
    table.set_force_reprocess_all(true);
    assert!(table.get(1).unwrap().force_reprocess && table.get(3).unwrap().force_reprocess);
    table.set_force_reprocess_all(false);
    assert!(!table.get(1).unwrap().force_reprocess && !table.get(3).unwrap().force_reprocess);
    assert_eq!(table.get(1).unwrap().rendered_frame, Some("frame"));
}
