use fft_drawpad::canvas::{
    new_display_raster, write_drawpad_and_texture, DrawPad, HEIGHT, PIXELS, RASTER_BYTES, WIDTH,
};

#[test]
fn new_pad_is_blank() {
    let pad = DrawPad::new();
    assert_eq!(pad.samples().len(), PIXELS);
    assert!(pad.samples().iter().all(|v| *v == 0));
    assert_eq!(pad.get(WIDTH - 1, HEIGHT - 1), 0);
    let raster = new_display_raster();
    assert_eq!(raster.len(), RASTER_BYTES);
    assert!(raster.iter().all(|v| *v == 0));
}

#[test]
fn paint_then_read_returns_value() {
    let mut pad = DrawPad::new();
    let mut raster = new_display_raster();
    for &(x, y, v) in &[(0i32, 0i32, 255u8), (399, 399, 17), (12, 345, 200), (399, 0, 1)] {
        write_drawpad_and_texture(&mut pad, &mut raster, v, (x, y));
        assert_eq!(pad.get(x as usize, y as usize), v);
        let offset = (x as usize + y as usize * WIDTH) * 3;
        assert_eq!(raster[offset], v);
        assert_eq!(raster[offset + 1], v);
        assert_eq!(raster[offset + 2], v);
    }
}

#[test]
fn paint_overwrites_without_blending() {
    let mut pad = DrawPad::new();
    let mut raster = new_display_raster();
    write_drawpad_and_texture(&mut pad, &mut raster, 200, (5, 7));
    write_drawpad_and_texture(&mut pad, &mut raster, 30, (5, 7));
    assert_eq!(pad.get(5, 7), 30);
    let offset = (5 + 7 * WIDTH) * 3;
    assert_eq!(&raster[offset..offset + 3], &[30, 30, 30]);
}

#[test]
fn paint_leaves_other_pixels() {
    let mut pad = DrawPad::new();
    let mut raster = new_display_raster();
    write_drawpad_and_texture(&mut pad, &mut raster, 255, (10, 20));
    let idx = 10 + 20 * WIDTH;
    for (i, v) in pad.samples().iter().enumerate() {
        assert_eq!(*v, if i == idx { 255 } else { 0 });
    }
    for (k, v) in raster.iter().enumerate() {
        assert_eq!(*v, if k / 3 == idx { 255 } else { 0 });
    }
}
