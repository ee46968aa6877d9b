use vspreview::geometry::{
    axis_fix_translate, axis_max_translate, translate_norm_coeffs, translate_norm_to_pixels,
    Size, Translate, TranslateNorm, MAX_ZOOM, MIN_ZOOM, NORM_UNIT, ZOOM_UNIT,
};

#[test]
fn largest_pan_at_each_kind_of_zoom() {
    let size = Size { x: 1000, y: 800 };
    let win = Size { x: 500, y: 400 };
    assert_eq!(translate_norm_coeffs(&size, &win, ZOOM_UNIT), Translate { x: 500, y: 400 });
    assert_eq!(translate_norm_coeffs(&size, &win, 2000), Translate { x: 750, y: 600 });
    assert_eq!(translate_norm_coeffs(&size, &win, 500), Translate { x: 0, y: 0 });
    assert_eq!(translate_norm_coeffs(&size, &win, 750), Translate { x: 250, y: 200 });
    assert_eq!(translate_norm_coeffs(&win, &size, ZOOM_UNIT), Translate { x: -500, y: -400 });
    assert_eq!(translate_norm_coeffs(&win, &size, 4000), Translate { x: 375, y: 300 });
}

#[test]
fn quotients_round_to_nearest_with_halves_up() {
    assert_eq!(axis_max_translate(600, 500, 3000), 600 - 167);
    assert_eq!(axis_max_translate(1, 5, 2000), 0);
    assert_eq!(axis_max_translate(1, 5, 64000), 1);
    assert_eq!(axis_max_translate(3, 0, 500), 2);
    assert_eq!(axis_max_translate(1001, 100, 125), 25);
    assert_eq!(axis_max_translate(u32::MAX, 0, 999), 4290672328);
    assert_eq!(axis_max_translate(u32::MAX, 0, 1000), u32::MAX as i64);
    assert_eq!(axis_max_translate(0, u32::MAX, 999), -(u32::MAX as i64));
}

#[test]
fn normalized_pan_to_pixels() {
    let size = Size { x: 1000, y: 800 };
    let win = Size { x: 500, y: 400 };
    let half = TranslateNorm { x: NORM_UNIT / 2, y: NORM_UNIT / 4 };
    assert_eq!(translate_norm_to_pixels(&half, &size, &win, ZOOM_UNIT), Translate { x: 250, y: 100 });
    let full = TranslateNorm { x: NORM_UNIT, y: -NORM_UNIT };
    assert_eq!(translate_norm_to_pixels(&full, &size, &win, 2000), Translate { x: 750, y: -600 });
    let pixels = |norm: i64, size: u32, win: u32| {
        let n = TranslateNorm { x: norm, y: 0 };
        translate_norm_to_pixels(&n, &Size { x: size, y: 1 }, &Size { x: win, y: 1 }, ZOOM_UNIT).x
    };
    assert_eq!(pixels(NORM_UNIT / 2, 8, 5), 2);
    assert_eq!(pixels(-NORM_UNIT / 2, 8, 5), -2);
    assert_eq!(pixels(NORM_UNIT / 2, 5, 8), -2);
    assert_eq!(pixels(-NORM_UNIT / 2, 5, 8), 2);
    assert_eq!(pixels(i64::MIN, u32::MAX, 0), i64::MIN + (1 << 31));
    assert_eq!(pixels(i64::MAX, u32::MAX, 0), i64::MAX - (1 << 31));
    assert_eq!(pixels(i64::MAX, 0, u32::MAX), -(i64::MAX - (1 << 31)));
}

#[test]
fn clamp_is_idempotent_on_a_grid_of_inputs() {
    for coeff in [i64::MIN, -7i64, 0, 1, 2, 499, 500, 1 << 20, NORM_UNIT - 1, i64::MAX] {
        for pixel in [i64::MIN, -1, 0, 1, 249, 250, 499, 500, 501, 1 << 40, i64::MAX] {
            let once = axis_fix_translate(pixel, coeff);
            let twice = axis_fix_translate(once.0, coeff);
            assert_eq!(once, twice);
            assert!(0 <= once.0 && once.0 <= coeff.max(0));
            assert!(0 <= once.1 && once.1 <= NORM_UNIT);
        }
    }
}

#[test]
fn pixel_pan_survives_the_normalized_form() {
    let sizes = [(1921u32, 1081u32), (3840, 2160), (65535, 4097), (u32::MAX, u32::MAX)];
    let wins = [(1u32, 1u32), (640, 480), (1920, 1080)];
    for zoom in [MIN_ZOOM, 500, 999, ZOOM_UNIT, 1100, 2000, 33333, MAX_ZOOM] {
        for (sx, sy) in sizes {
            for (wx, wy) in wins {
                let size = Size { x: sx, y: sy };
                let win = Size { x: wx, y: wy };
                let coeffs = translate_norm_coeffs(&size, &win, zoom);
                for frac in [0i64, 1, 3, 7, 10] {
                    let px = coeffs.x.max(0) / 10 * frac + frac % 2;
                    let py = coeffs.y.max(0) / 10 * frac;
                    let (fx, nx) = axis_fix_translate(px, coeffs.x);
                    let (fy, ny) = axis_fix_translate(py, coeffs.y);
                    let back = translate_norm_to_pixels(
                        &TranslateNorm { x: nx, y: ny },
                        &size,
                        &win,
                        zoom,
                    );
                    assert_eq!(back, Translate { x: fx, y: fy });
                }
            }
        }
    }
}

#[test]
fn normalized_form_of_a_pan() {
    assert_eq!(axis_fix_translate(250, 500), (250, NORM_UNIT / 2));
    assert_eq!(axis_fix_translate(500, 500), (500, NORM_UNIT));
    assert_eq!(axis_fix_translate(900, 500), (500, NORM_UNIT));
    assert_eq!(axis_fix_translate(-3, 500), (0, 0));
    assert_eq!(axis_fix_translate(1, 3), (1, 1431655765));
    assert_eq!(axis_fix_translate(40, -10), (0, 0));
    assert_eq!(axis_fix_translate(40, 0), (0, 0));
}
