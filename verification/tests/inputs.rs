use vspreview::errors::{Operation, PreviewError};
use vspreview::geometry::{Size, Translate, TranslateNorm, NORM_UNIT};
use vspreview::inputs::{scrolled_translate, zoom_step, ScrollDelta, SeekStep, ZoomInput};
use vspreview::preview_filter_type::PreviewFilterType;
use vspreview::previewer::VSPreviewer;
use vspreview::state::PreviewState;
use vspreview::vsnode::{VSNode, VSOutput};
use vspreview::vstransform::VSResizer;

type Previewer = VSPreviewer<u8, u8>;

fn previewer(num_frames: u32, fr_num: u32, fr_denom: u32) -> Previewer {
    let mut pv = Previewer::new();
    pv.available_size = Size { x: 1000, y: 500 };
    pv.reload();
    let node = VSNode::new(num_frames, 2000, 1000, fr_num, fr_denom, String::from("YUV420P8"));
    let other = VSNode::new(num_frames, 4000, 2000, fr_num, fr_denom, String::from("YUV420P8"));
    pv.check_reload_finish(Some(vec![
        VSOutput { index: 0, node_info: node },
        VSOutput { index: 1, node_info: other },
    ]))
    .unwrap();
    pv.rerender = false;
    pv
}

#[test]
fn single_frame_steps_stop_at_the_ends() {
    let mut pv = previewer(3, 24, 1);
    assert_eq!(pv.check_update_seek(SeekStep::PreviousFrame), Ok(false));
    assert_eq!(pv.state.cur_frame_no, 0);
    assert_eq!(pv.check_update_seek(SeekStep::NextFrame), Ok(true));
    assert_eq!(pv.check_update_seek(SeekStep::NextFrame), Ok(true));
    assert_eq!(pv.state.cur_frame_no, 2);
    assert_eq!(pv.check_update_seek(SeekStep::NextFrame), Ok(false));
    assert_eq!(pv.state.cur_frame_no, 2);
    assert_eq!(pv.check_update_seek(SeekStep::PreviousFrame), Ok(true));
    assert_eq!(pv.state.cur_frame_no, 1);
    assert!(!pv.rerender);
    assert_eq!(pv.outputs.get(0).unwrap().last_frame_no, 0);
}

#[test]
fn jumps_of_a_second_use_the_rounded_up_frame_rate() {
    let mut pv = previewer(100, 24000, 1001);
    assert_eq!(pv.outputs.get(0).unwrap().vsoutput.node_info.framerate, 24);
    assert_eq!(pv.check_update_seek(SeekStep::SecondForward), Ok(true));
    assert_eq!(pv.state.cur_frame_no, 24);
    pv.state.cur_frame_no = 74;
    assert_eq!(pv.check_update_seek(SeekStep::SecondForward), Ok(true));
    assert_eq!(pv.state.cur_frame_no, 98);
    pv.state.cur_frame_no = 75;
    assert_eq!(pv.check_update_seek(SeekStep::SecondForward), Ok(true));
    assert_eq!(pv.state.cur_frame_no, 99);
    assert_eq!(pv.check_update_seek(SeekStep::SecondForward), Ok(false));
    assert_eq!(pv.state.cur_frame_no, 99);
    assert_eq!(pv.check_update_seek(SeekStep::SecondBack), Ok(true));
    assert_eq!(pv.state.cur_frame_no, 75);
    pv.state.cur_frame_no = 23;
    assert_eq!(pv.check_update_seek(SeekStep::SecondBack), Ok(true));
    assert_eq!(pv.state.cur_frame_no, 0);
    assert_eq!(pv.check_update_seek(SeekStep::SecondBack), Ok(false));
    assert_eq!(pv.state.cur_frame_no, 0);
    pv.state.cur_frame_no = 500;
    assert_eq!(pv.check_update_seek(SeekStep::NextFrame), Ok(true));
    assert_eq!(pv.state.cur_frame_no, 99);
}

#[test]
fn seek_survives_extreme_clips() {
    let mut pv = previewer(0, 0, 0);
    assert_eq!(pv.outputs.get(0).unwrap().vsoutput.node_info.framerate, 0);
    assert_eq!(pv.check_update_seek(SeekStep::NextFrame), Ok(false));
    assert_eq!(pv.check_update_seek(SeekStep::SecondForward), Ok(false));
    assert_eq!(pv.state.cur_frame_no, 0);
    let mut pv = previewer(u32::MAX, 5, 0);
    assert_eq!(pv.outputs.get(0).unwrap().vsoutput.node_info.framerate, u32::MAX);
    pv.state.cur_frame_no = u32::MAX - 2;
    assert_eq!(pv.check_update_seek(SeekStep::SecondForward), Ok(true));
    assert_eq!(pv.state.cur_frame_no, u32::MAX - 1);
    assert_eq!(pv.check_update_seek(SeekStep::SecondForward), Ok(false));
    pv.state.cur_output = 9;
    assert_eq!(
        pv.check_update_seek(SeekStep::NextFrame),
        Err(PreviewError::InvalidCurrentOutput(Operation::Seek))
    );
}

#[test]
fn choosing_an_output() {
    let mut pv = previewer(10, 24, 1);
    assert_eq!(pv.check_update_output(-1), Ok(false));
    assert_eq!(pv.check_update_output(5), Ok(false));
    assert_eq!(pv.state.cur_output, 0);
    assert!(!pv.state.translate_changed);
    assert_eq!(pv.check_update_output(1), Ok(true));
    assert_eq!(pv.state.cur_output, 1);
    assert_eq!(pv.state.cur_frame_no, 0);
    assert!(pv.state.translate_changed);
    pv.state.cur_output = 7;
    assert_eq!(pv.check_update_output(0), Err(PreviewError::InvalidOldOutput));
    assert_eq!(pv.state.cur_output, 0);
}

fn zoomed(zoom_factor: u32, zoom_multiplier: u32, upscale_to_window: bool) -> PreviewState {
    PreviewState { zoom_factor, zoom_multiplier, upscale_to_window, ..PreviewState::default() }
}

#[test]
fn zoom_steps() {
    let whole_in = ZoomInput::In { small_step: false };
    let whole_out = ZoomInput::Out { small_step: false };
    let small_in = ZoomInput::In { small_step: true };
    let small_out = ZoomInput::Out { small_step: true };
    assert_eq!(zoom_step(&zoomed(1000, 1000, false), ZoomInput::Unchanged), (1000, false));
    assert_eq!(zoom_step(&zoomed(1000, 1000, false), whole_in), (2000, true));
    assert_eq!(zoom_step(&zoomed(1000, 1000, false), small_in), (1100, true));
    assert_eq!(zoom_step(&zoomed(1000, 1000, false), whole_out), (875, true));
    assert_eq!(zoom_step(&zoomed(1000, 1000, false), small_out), (875, true));
    assert_eq!(zoom_step(&zoomed(875, 1000, false), whole_in), (1000, true));
    assert_eq!(zoom_step(&zoomed(3000, 1000, false), whole_out), (2000, true));
    assert_eq!(zoom_step(&zoomed(3000, 1000, false), small_out), (2900, true));
    assert_eq!(zoom_step(&zoomed(125, 1000, false), whole_out), (125, false));
    assert_eq!(zoom_step(&zoomed(250, 1000, false), whole_out), (125, true));
    assert_eq!(zoom_step(&zoomed(64000, 1000, false), whole_in), (64000, false));
    assert_eq!(zoom_step(&zoomed(63500, 1000, false), whole_in), (64000, true));
    assert_eq!(zoom_step(&zoomed(1000, 1000, true), whole_out), (1000, false));
    assert_eq!(zoom_step(&zoomed(1500, 1000, true), whole_out), (1000, true));
}

#[test]
fn zoom_steps_with_a_multiplier() {
    let whole_in = ZoomInput::In { small_step: false };
    let whole_out = ZoomInput::Out { small_step: false };
    assert_eq!(zoom_step(&zoomed(1000, 1500, false), whole_in), (1500, true));
    assert_eq!(zoom_step(&zoomed(1500, 1500, false), whole_in), (2300, true));
    assert_eq!(zoom_step(&zoomed(2300, 1500, false), whole_out), (1500, true));
    assert_eq!(zoom_step(&zoomed(1100, 2000, false), whole_out), (550, true));
    assert_eq!(zoom_step(&zoomed(1000, 1010, false), whole_in), (1000, true));
    assert_eq!(zoom_step(&zoomed(1100, 1500, false), ZoomInput::In { small_step: true }), (1200, true));
    assert_eq!(zoom_step(&zoomed(50000, 2000, false), whole_in), (64000, true));
    assert_eq!(zoom_step(&zoomed(500, 2000, false), whole_in), (625, true));
}

#[test]
fn scroll_moves_the_pan_against_the_scroll() {
    let size = Size { x: 2000, y: 1000 };
    let win = Size { x: 1000, y: 500 };
    let t = Translate { x: 100, y: 100 };
    let scroll = ScrollDelta { x: -50000, y: 25000 };
    assert_eq!(scrolled_translate(&t, &scroll, &size, &win, 1000), Translate { x: 200, y: 50 });
    assert_eq!(scrolled_translate(&t, &scroll, &size, &win, 1500), Translate { x: 250, y: 25 });
    let fine = ScrollDelta { x: 250, y: -249 };
    assert_eq!(scrolled_translate(&t, &fine, &size, &win, 1000), Translate { x: 99, y: 100 });
    let nowhere = Size { x: 0, y: 500 };
    assert_eq!(scrolled_translate(&t, &scroll, &size, &nowhere, 1000), Translate { x: 100, y: 50 });
    let far = Translate { x: i64::MAX, y: i64::MIN };
    let hard = ScrollDelta { x: i32::MIN, y: i32::MAX };
    let huge = Size { x: u32::MAX, y: u32::MAX };
    let tiny = Size { x: 1, y: 1 };
    assert_eq!(scrolled_translate(&far, &hard, &huge, &tiny, i32::MAX), far);
}

#[test]
fn zooming_marks_the_outputs_and_asks_for_a_rerender() {
    let mut pv = previewer(10, 24, 1);
    pv.state.fit_to_window = false;
    let size = Size { x: 2000, y: 1000 };
    let none = ScrollDelta { x: 0, y: 0 };
    assert_eq!(pv.handle_move_inputs(&size, ZoomInput::Unchanged, none), Ok(()));
    assert!(!pv.rerender);
    assert!(!pv.outputs.get(0).unwrap().force_reprocess);

    assert_eq!(pv.handle_move_inputs(&size, ZoomInput::In { small_step: false }, none), Ok(()));
    assert_eq!(pv.state.zoom_factor, 2000);
    assert!(pv.rerender);
    assert!(pv.outputs.get(0).unwrap().force_reprocess);
    assert!(pv.outputs.get(1).unwrap().force_reprocess);
    assert!(!pv.state.translate_changed);
    assert_eq!(pv.state.translate, Translate { x: 0, y: 0 });
}

#[test]
fn scrolling_pans_within_the_bounds() {
    let mut pv = previewer(10, 24, 1);
    pv.state.fit_to_window = false;
    let size = Size { x: 2000, y: 1000 };
    let scroll = ScrollDelta { x: -100000, y: -1000000 };
    assert_eq!(pv.handle_move_inputs(&size, ZoomInput::Unchanged, scroll), Ok(()));
    assert_eq!(pv.state.translate, Translate { x: 200, y: 500 });
    assert_eq!(pv.state.translate_norm, TranslateNorm { x: NORM_UNIT / 5, y: NORM_UNIT });
    assert!(pv.state.translate_changed);
    assert!(pv.rerender);
    assert!(pv.outputs.get(1).unwrap().force_reprocess);

    pv.rerender = false;
    pv.reprocess_outputs(false, false);
    let down = ScrollDelta { x: 0, y: -5000 };
    assert_eq!(pv.handle_move_inputs(&size, ZoomInput::Unchanged, down), Ok(()));
    assert_eq!(pv.state.translate, Translate { x: 200, y: 500 });
    assert!(!pv.rerender);
    assert!(!pv.outputs.get(0).unwrap().force_reprocess);
}

#[test]
fn zooming_out_pulls_the_pan_back_into_bounds() {
    let mut pv = previewer(10, 24, 1);
    pv.state.fit_to_window = false;
    pv.state.zoom_factor = 2000;
    let size = Size { x: 2000, y: 1000 };
    let far = ScrollDelta { x: -10000000, y: -10000000 };
    pv.handle_move_inputs(&size, ZoomInput::Unchanged, far).unwrap();
    assert_eq!(pv.state.translate, Translate { x: 1500, y: 750 });
    let none = ScrollDelta { x: 0, y: 0 };
    pv.handle_move_inputs(&size, ZoomInput::Out { small_step: false }, none).unwrap();
    assert_eq!(pv.state.zoom_factor, 1000);
    assert_eq!(pv.state.translate, Translate { x: 1000, y: 500 });
    assert_eq!(pv.state.translate_norm, TranslateNorm { x: NORM_UNIT, y: NORM_UNIT });
}

#[test]
fn a_missing_current_output_stops_after_the_zoom() {
    let mut pv = previewer(10, 24, 1);
    pv.state.cur_output = 4;
    let size = Size { x: 2000, y: 1000 };
    let none = ScrollDelta { x: 0, y: 0 };
    assert_eq!(
        pv.handle_move_inputs(&size, ZoomInput::In { small_step: true }, none),
        Err(PreviewError::InvalidCurrentOutput(Operation::Translate))
    );
    assert_eq!(pv.state.zoom_factor, 1100);
    assert!(!pv.rerender);
}

#[test]
fn the_frame_slider_fetches_on_release() {
    let mut pv = previewer(100, 24, 1);
    pv.seek_to(40, false);
    assert_eq!(pv.state.cur_frame_no, 40);
    assert!(!pv.rerender);
    pv.seek_to(41, true);
    assert_eq!(pv.state.cur_frame_no, 41);
    assert!(pv.rerender);
    pv.seek_to(42, false);
    assert!(pv.rerender);
}

#[test]
fn a_new_canvas_size_asks_for_reprocessing() {
    let mut pv = previewer(100, 24, 1);
    assert!(!pv.resize_canvas(Size { x: 1000, y: 500 }));
    assert!(!pv.outputs.get(0).unwrap().force_reprocess);
    assert!(pv.resize_canvas(Size { x: 800, y: 500 }));
    assert_eq!(pv.available_size, Size { x: 800, y: 500 });
    assert!(pv.outputs.get(0).unwrap().force_reprocess);
    assert!(pv.outputs.get(1).unwrap().force_reprocess);
    assert!(!pv.state.translate_changed);
    pv.state.translate = Translate { x: 0, y: 3 };
    assert!(pv.resize_canvas(Size { x: 800, y: 400 }));
    assert!(pv.state.translate_changed);
}

#[test]
fn changed_preferences_fetch_or_reprocess() {
    let mut pv = previewer(100, 24, 1);
    let before = pv.state;
    pv.apply_preferences(&before);
    assert!(!pv.rerender);
    assert!(!pv.outputs.get(0).unwrap().force_reprocess);

    pv.state.upsampling_filter = PreviewFilterType::Mitchell;
    pv.apply_preferences(&before);
    assert!(!pv.rerender);
    assert!(pv.outputs.get(0).unwrap().force_reprocess);
    assert!(pv.outputs.get(1).unwrap().force_reprocess);

    pv.reprocess_outputs(false, false);
    let before = pv.state;
    pv.state.frame_transform_opts.resizer = VSResizer::Point;
    pv.state.fit_to_window = !pv.state.fit_to_window;
    pv.apply_preferences(&before);
    assert!(pv.rerender);
    assert!(!pv.outputs.get(0).unwrap().force_reprocess);

    pv.rerender = false;
    let before = pv.state;
    pv.state.zoom_multiplier = 1500;
    pv.state.canvas_margin = 3000;
    pv.apply_preferences(&before);
    assert!(!pv.rerender);
    assert!(!pv.outputs.get(0).unwrap().force_reprocess);
}

#[test]
fn toggling_the_colour_transform() {
    let mut pv = previewer(100, 24, 1);
    pv.toggle_icc();
    assert!(pv.state.icc_enabled);
    assert!(pv.rerender);
    assert!(pv.outputs.get(0).unwrap().force_reprocess);
    pv.toggle_icc();
    assert!(!pv.state.icc_enabled);
}
