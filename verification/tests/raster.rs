use vspreview::geometry::{dimensions_for_window, Size};
use vspreview::raster::{Image, PixelLayout, ResizeFilter, TransformError};

fn gradient(width: u32, height: u32, layout: PixelLayout) -> Image {
    let channels = match layout {
        PixelLayout::Luma8 => 1,
        PixelLayout::Rgb8 => 3,
    };
    let mut data = Vec::new();
    for y in 0..height {
        for x in 0..width {
            for c in 0..channels {
                data.push(((x * 7 + y * 13 + c * 101) % 251) as u8);
            }
        }
    }
    Image::new(width, height, layout, data).unwrap()
}

#[test]
fn new_rejects_a_buffer_of_the_wrong_length() {
    assert!(Image::new(2, 2, PixelLayout::Rgb8, vec![0; 11]).is_none());
    assert!(Image::new(2, 2, PixelLayout::Rgb8, vec![0; 13]).is_none());
    assert!(Image::new(2, 2, PixelLayout::Rgb8, vec![0; 12]).is_some());
    assert!(Image::new(2, 2, PixelLayout::Luma8, vec![0; 4]).is_some());
    assert!(Image::new(0, 5, PixelLayout::Luma8, vec![]).is_some());
}

#[test]
fn crop_copies_the_region_row_by_row() {
    let img = gradient(5, 4, PixelLayout::Rgb8);
    let out = img.crop_imm(1, 2, 3, 2);
    assert_eq!((out.width(), out.height()), (3, 2));
    assert_eq!(out.layout(), PixelLayout::Rgb8);
    let mut expected = Vec::new();
    for y in 2..4u32 {
        for x in 1..4u32 {
            for c in 0..3u32 {
                expected.push(((x * 7 + y * 13 + c * 101) % 251) as u8);
            }
        }
    }
    assert_eq!(out.as_raw(), &expected);
}

#[test]
fn crop_is_cut_to_the_image() {
    let img = gradient(5, 4, PixelLayout::Luma8);
    let out = img.crop_imm(3, 1, 10, 10);
    assert_eq!((out.width(), out.height()), (2, 3));
    let mut expected = Vec::new();
    for y in 1..4u32 {
        for x in 3..5u32 {
            expected.push(((x * 7 + y * 13) % 251) as u8);
        }
    }
    assert_eq!(out.into_raw(), expected);
    let outside = img.crop_imm(9, 9, 2, 2);
    assert_eq!((outside.width(), outside.height()), (0, 0));
    assert!(outside.as_raw().is_empty());
}

#[test]
fn resize_gives_the_asked_size() {
    let img = gradient(8, 6, PixelLayout::Rgb8);
    let out = img.resize_fast(4, 3, ResizeFilter::Box).unwrap();
    assert_eq!((out.width(), out.height()), (4, 3));
    assert_eq!(out.layout(), PixelLayout::Rgb8);
    assert_eq!(out.as_raw().len(), 4 * 3 * 3);
    let up = img.resize_fast(16, 12, ResizeFilter::Lanczos3).unwrap();
    assert_eq!(up.as_raw().len(), 16 * 12 * 3);
}

#[test]
fn resize_changes_the_samples() {
    let mut data = vec![0u8; 4 * 4];
    for i in 0..8 {
        data[i] = 200;
    }
    let img = Image::new(4, 4, PixelLayout::Luma8, data.clone()).unwrap();
    let out = img.resize_fast(2, 2, ResizeFilter::Box).unwrap();
    assert_eq!(out.into_raw(), vec![200, 200, 0, 0]);
}

#[test]
fn resize_refuses_what_memory_cannot_hold() {
    let img = gradient(2, 2, PixelLayout::Rgb8);
    let r = img.resize_fast(u32::MAX, u32::MAX, ResizeFilter::Box);
    assert_eq!(r.err(), Some(TransformError::TooLarge));
}

#[test]
fn window_fit_keeps_proportions() {
    let win = Size { x: 1920, y: 1080 };
    assert_eq!(dimensions_for_window(&win, &Size { x: 640, y: 480 }), Size { x: 1440, y: 1080 });
    assert_eq!(dimensions_for_window(&win, &Size { x: 1280, y: 720 }), Size { x: 1920, y: 1080 });
    assert_eq!(dimensions_for_window(&win, &Size { x: 1920, y: 800 }), Size { x: 1920, y: 800 });
    assert_eq!(dimensions_for_window(&win, &Size { x: 1920, y: 2160 }), Size { x: 960, y: 1080 });
    assert_eq!(dimensions_for_window(&win, &Size { x: 0, y: 480 }), Size { x: 0, y: 480 });
}

#[test]
fn planes_are_interleaved_pixel_by_pixel() {
    let red = vec![1, 2, 3, 4, 5, 6];
    let green = vec![11, 12, 13, 14, 15, 16];
    let blue = vec![21, 22, 23, 24, 25, 26];
    let img = Image::from_planes(3, 2, &red, &green, &blue).unwrap();
    assert_eq!((img.width(), img.height()), (3, 2));
    assert_eq!(img.layout(), PixelLayout::Rgb8);
    assert_eq!(
        img.as_raw(),
        &vec![1, 11, 21, 2, 12, 22, 3, 13, 23, 4, 14, 24, 5, 15, 25, 6, 16, 26]
    );
    assert!(Image::from_planes(3, 2, &red, &green, &blue[..5].to_vec()).is_none());
    assert!(Image::from_planes(2, 2, &red, &green, &blue).is_none());
    assert!(Image::from_planes(0, 9, &vec![], &vec![], &vec![]).is_some());
    let copy = img.clone();
    assert_eq!(copy.as_raw(), img.as_raw());
    assert_eq!(img.duplicate().dimensions(), Size { x: 3, y: 2 });
}

#[test]
fn crop_keeps_each_pixel_of_its_region() {
    let img = gradient(7, 5, PixelLayout::Rgb8);
    let out = img.crop_imm(2, 1, 4, 3);
    let (w, src_w) = (out.width() as usize, img.width() as usize);
    for y in 0..out.height() as usize {
        for x in 0..w {
            for c in 0..3 {
                assert_eq!(
                    out.as_raw()[(y * w + x) * 3 + c],
                    img.as_raw()[((y + 1) * src_w + (x + 2)) * 3 + c]
                );
            }
        }
    }
}
