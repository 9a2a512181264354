use zen_lib::color::{Hsv, Rgbf};
use zen_lib::exact::{rgb_to_hsv, Rgb8};

fn hsv_of_channels(r: u8, g: u8, b: u8) -> Hsv<f64> {
    let hsv = rgb_to_hsv(Rgb8::new(r, g, b));
    let (hn, hd) = hsv.hue_fraction();
    let (sn, sd) = hsv.saturation_fraction();
    Hsv::new((hn as f64 / hd as f64, sn as f64 / sd as f64, hsv.value as f64 / 255.0))
}

#[test]
fn hsv_set_color_works() {
    let rgb_colors = vec![(0u8, 52u8, 52u8), (152, 104, 163), (202, 205, 35)];

    let result_hsv_colors = vec![
        (0.5, 1.0, 0.10195),
        (0.8022, 0.3620, 0.3196),
        (0.1696, 0.8293, 0.40195),
    ];

    let er: f64 = 0.1;
    let shift_s: f64 = 0.0;
    let shift_v: f64 = 0.5;
    for i in 0..rgb_colors.len() {
        let (r, g, b) = rgb_colors[i];
        let mut hsv = hsv_of_channels(r, g, b);
        let (_, s, v) = hsv.to_tuple();
        hsv.set(s - (shift_s * s), v - (shift_v * v));

        let (_h, _s, _v) = hsv.into_tuple();
        let (h, s, v) = result_hsv_colors[i];

        assert!((_h - h).abs() <= er);
        assert!((_s - s).abs() <= er);
        assert!((_v - v).abs() <= er);
    }
}

#[test]
fn set_replaces_saturation_and_value_only() {
    let mut hsv = Hsv::new((0.25, 0.5, 0.75));
    hsv.set(-0.5, 1.5);
    assert_eq!(hsv.to_tuple(), (0.25, -0.5, 1.5));
    hsv.set(0.0, 0.0);
    assert_eq!(hsv.into_tuple(), (0.25, 0.0, 0.0));
}

#[test]
fn rgb_values_decompose_as_built() {
    let c = Rgbf::new(0.1, 0.2, 0.3);
    assert_eq!(c.to_tuple(), (0.1, 0.2, 0.3));
    assert_eq!(c.into_tuple(), (0.1, 0.2, 0.3));
    let n = Rgbf::new(3u8, 2u8, 1u8);
    assert_eq!((n.0, n.1, n.2), (3, 2, 1));
}
