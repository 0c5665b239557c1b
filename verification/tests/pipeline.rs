//! The floating-point stages of the pipeline, built on the constants, the
//! table and the hue branches of the library, against reference colors.
use kasi_kule::consts::{D65_L, D65_M, D65_S, D65_Y, VC};
use kasi_kule::hue::{hue_branch, HueBranch, BLUE_HUE, GREEN_HUE, RED_HUE, YELLOW_HUE};
use kasi_kule::{JabSpace, LinearRGB, LCD, SCD, UCS};
use std::f32::consts::PI;

struct Jch {
    j: f32,
    c: f32,
    h: f32,
    m: f32,
}

fn adapt(cone: f32, white: u32) -> f32 {
    let d = f32::from_bits(VC::d);
    cone * (((f32::from_bits(D65_Y) * d) / f32::from_bits(white)) + (1.0f32 - d))
}

fn compress(cone: f32) -> f32 {
    let p = ((f32::from_bits(VC::fl) * cone) / 100.0).powf(0.42);
    ((400.0 * p) / (27.13 + p)) + 0.1
}

fn quadrature(h: f32) -> f32 {
    match hue_branch(h.to_bits()) {
        HueBranch::BelowRed => {
            let temp = ((h + 122.47) / 1.2) + ((20.14 - h) / 0.8);
            300.0 + (100.0 * ((h + 122.47) / 1.2)) / temp
        }
        HueBranch::RedToYellow => {
            let temp = ((h - 20.14) / 0.8) + ((90.0 - h) / 0.7);
            (100.0 * ((h - 20.14) / 0.8)) / temp
        }
        HueBranch::YellowToGreen => {
            let temp = ((h - 90.0) / 0.7) + ((164.25 - h) / 1.0);
            100.0 + ((100.0 * ((h - 90.0) / 0.7)) / temp)
        }
        HueBranch::GreenToBlue => {
            let temp = ((h - 164.25) / 1.0) + ((237.53 - h) / 1.2);
            200.0 + ((100.0 * ((h - 164.25) / 1.0)) / temp)
        }
        HueBranch::FromBlue => {
            let temp = ((h - 237.53) / 1.2) + ((360.0 - h + 20.14) / 0.8);
            300.0 + ((100.0 * ((h - 237.53) / 1.2)) / temp)
        }
    }
}

fn jch(rgb: [u8; 3]) -> Jch {
    let lin = LinearRGB::from(rgb);
    let (r, g, b) = (f32::from_bits(lin.r), f32::from_bits(lin.g), f32::from_bits(lin.b));

    let x = ((r * 0.4124) + (g * 0.3576) + (b * 0.1805)) * 100.0;
    let y = ((r * 0.2126) + (g * 0.7152) + (b * 0.0722)) * 100.0;
    let z = ((r * 0.0193) + (g * 0.1192) + (b * 0.9505)) * 100.0;

    let l = (0.7328 * x) + (0.4296 * y) - (0.1624 * z);
    let m = (-0.7036 * x) + (1.6975 * y) + (0.0061 * z);
    let s = (0.0030 * x) + (0.0136 * y) + (0.9834 * z);

    let (lc, mc, sc) = (adapt(l, D65_L), adapt(m, D65_M), adapt(s, D65_S));

    let lh = (0.7409792 * lc) + (0.2180250 * mc) + (0.0410058 * sc);
    let mh = (0.2853532 * lc) + (0.6242014 * mc) + (0.0904454 * sc);
    let sh = (-0.0096280 * lc) - (0.0056980 * mc) + (1.0153260 * sc);

    let (lpa, mpa, spa) = (compress(lh), compress(mh), compress(sh));

    let ca = lpa - ((12.0 * mpa) / 11.0) + (spa / 11.0);
    let cb = (1.0 / 9.0) * (lpa + mpa - 2.0 * spa);

    let mut h = (180.0 / PI) * cb.atan2(ca);
    if h < 0.0 {
        h += 360.0;
    }

    let nbb = f32::from_bits(VC::nbb);
    let ncb = f32::from_bits(VC::ncb);
    let aw = f32::from_bits(VC::achromatic_response_to_white);
    let fl = f32::from_bits(VC::fl);

    let a = (2.0 * lpa + mpa + 0.05 * spa - 0.305) * nbb;
    let j = 100.0 * (a / aw).powf(f32::from_bits(VC::c) * f32::from_bits(VC::z));

    let et = 0.25 * (((h * PI) / 180.0 + 2.0).cos() + 3.8);
    let t = (50000.0 / 13.0) * f32::from_bits(VC::nc) * ncb * et * (ca.powi(2) + cb.powi(2)).sqrt()
        / (lpa + mpa + (21.0 / 20.0) * spa);

    let c = t.powf(0.9f32)
        * (j / 100.0).sqrt()
        * (1.64 - 0.29f32.powf(f32::from_bits(VC::n))).powf(0.73f32);

    Jch {
        j,
        c,
        h,
        m: c * fl.powf(0.25f32),
    }
}

fn jab<S: JabSpace>(rgb: [u8; 3]) -> [f32; 3] {
    let cam02 = jch(rgb);
    let (k_l, c1, c2) = (
        f32::from_bits(S::k_l()),
        f32::from_bits(S::c1()),
        f32::from_bits(S::c2()),
    );
    let j_prime = ((1.0 + 100.0 * c1) * cam02.j) / (1.0 + c1 * cam02.j) / k_l;
    let m_prime = (1.0 / c2) * (1.0 + c2 * cam02.m).ln();
    [
        j_prime,
        m_prime * ((PI / 180.0) * cam02.h).cos(),
        m_prime * ((PI / 180.0) * cam02.h).sin(),
    ]
}

fn squared_difference<S: JabSpace>(x: [f32; 3], y: [f32; 3]) -> f32 {
    let diff_j = (x[0] - y[0]).abs();
    let diff_a = (x[1] - y[1]).abs();
    let diff_b = (x[2] - y[2]).abs();
    (diff_j / f32::from_bits(S::k_l())).powi(2) + diff_a.powi(2) + diff_b.powi(2)
}

fn two_places(x: f32) -> String {
    format!("{:.2}", x)
}

#[test]
fn jch_channels() {
    assert_eq!(two_places(jch([0, 0, 0]).j), "0.00");
    assert_eq!(two_places(jch([50, 50, 50]).j), "14.92");
    assert_eq!(two_places(jch([100, 100, 100]).j), "32.16");
    assert_eq!(two_places(jch([150, 150, 150]).j), "52.09");
    assert_eq!(two_places(jch([200, 200, 200]).j), "74.02");
    assert_eq!(two_places(jch([250, 250, 250]).j), "97.57");
    assert_eq!(two_places(jch([255, 255, 255]).j), "100.00");

    let red = jch([255, 0, 0]);
    assert_eq!(two_places(red.j), "46.93");
    assert_eq!(two_places(red.c), "111.30");
    assert_eq!(two_places(red.h), "32.15");
}

#[test]
fn jab_channels() {
    assert_eq!(two_places(jab::<UCS>([0, 0, 0])[0]), "0.00");
    assert_eq!(two_places(jab::<UCS>([50, 50, 50])[0]), "22.96");
    assert_eq!(two_places(jab::<UCS>([150, 150, 150])[0]), "64.89");
    let white = jab::<UCS>([255, 255, 255]);
    assert_eq!(two_places(white[0]), "100.00");
    assert_eq!(two_places(white[1]), "-1.91");
    assert_eq!(two_places(white[2]), "-1.15");
    let red = jab::<UCS>([255, 0, 0]);
    assert_eq!(two_places(red[0]), "60.05");
    assert_eq!(two_places(red[1]), "38.69");
    assert_eq!(two_places(red[2]), "24.32");
    let blue = jab::<UCS>([0, 0, 255]);
    assert_eq!(two_places(blue[0]), "31.22");
    assert_eq!(two_places(blue[1]), "-8.38");
    assert_eq!(two_places(blue[2]), "-39.16");
}

#[test]
fn gray_lightness_grows_with_the_channel_value() {
    let mut last = jch([0, 0, 0]).j;
    for v in 1..=255u8 {
        let j = jch([v, v, v]).j;
        assert!(j > last, "gray {}: {} after {}", v, j, last);
        last = j;
    }
}

#[test]
fn hue_angle_stays_on_the_circle() {
    for rgb in [[255u8, 0, 0], [0, 255, 0], [0, 0, 255], [12, 200, 77], [0, 0, 0], [255, 255, 255]] {
        let h = jch(rgb).h;
        assert!((0.0..=360.0).contains(&h), "{:?} has hue {}", rgb, h);
    }
}

#[test]
fn quadrature_is_continuous_at_the_unique_hues() {
    // At unique red the quadrature runs from 400 back to 0, which is the
    // same place on its circle.
    for (bits, at) in [(RED_HUE, 0.0f32), (YELLOW_HUE, 100.0), (GREEN_HUE, 200.0), (BLUE_HUE, 300.0)] {
        let on = quadrature(f32::from_bits(bits));
        let before = quadrature(f32::from_bits(bits - 1));
        assert!((on - at).abs() < 1.0e-3, "{} at {}", on, f32::from_bits(bits));
        let gap = (before - on).rem_euclid(400.0);
        assert!(gap < 1.0e-3 || gap > 400.0 - 1.0e-3, "{} then {}", before, on);
    }
}

#[test]
fn quadrature_joins_at_the_full_circle() {
    let end = quadrature(360.0);
    let start = quadrature(0.0);
    assert!((end - start).abs() < 1.0e-3, "{} against {}", end, start);
}

#[test]
fn distance_from_a_color_to_itself_is_zero() {
    for rgb in [[0u8, 0, 0], [255, 255, 255], [255, 0, 0], [0, 0, 255], [50, 150, 250]] {
        let ucs = jab::<UCS>(rgb);
        assert_eq!(squared_difference::<UCS>(ucs, ucs), 0.0);
        let lcd = jab::<LCD>(rgb);
        assert_eq!(squared_difference::<LCD>(lcd, lcd), 0.0);
        let scd = jab::<SCD>(rgb);
        assert_eq!(squared_difference::<SCD>(scd, scd), 0.0);
    }
}

#[test]
fn distance_divides_the_lightness_difference_by_k_l() {
    let x = [10.0f32, 1.0, 2.0];
    let y = [13.1f32, 5.0, 5.0];
    let lcd = squared_difference::<LCD>(x, y);
    let want = ((13.1f32 - 10.0).abs() / 0.77f32).powi(2) + 16.0 + 9.0;
    assert_eq!(lcd, want);
    assert_eq!(format!("{:.3}", lcd), "41.208");
    let ucs = squared_difference::<UCS>(x, y);
    assert_eq!(format!("{:.3}", ucs), "34.610");
}
