use kasi_kule::consts::{sRGB_LOOKUP, D65_L, D65_M, D65_S, D65_X, D65_Y, D65_Z, VC};

/// Whether the single-precision value of `bits` lies within `ulps` units in
/// its last place of `want`.
fn close(bits: u32, want: f64, ulps: f64) -> bool {
    let got = f32::from_bits(bits);
    let next = f32::from_bits(bits + 1);
    let ulp = next as f64 - got as f64;
    (got as f64 - want).abs() <= ulps * ulp
}

fn value(bits: u32) -> f64 {
    f32::from_bits(bits) as f64
}

#[test]
fn d65_white_point() {
    assert_eq!(f32::from_bits(D65_X), 95.047);
    assert_eq!(f32::from_bits(D65_Y), 100.0);
    assert_eq!(f32::from_bits(D65_Z), 108.883);
}

#[test]
fn d65_cone_responses_follow_the_cat02_matrix() {
    let (x, y, z) = (95.047f64, 100.0f64, 108.883f64);
    assert!(close(D65_L, 0.7328 * x + 0.4296 * y - 0.1624 * z, 2.0));
    assert!(close(D65_M, -0.7036 * x + 1.6975 * y + 0.0061 * z, 2.0));
    assert!(close(D65_S, 0.0030 * x + 0.0136 * y + 0.9834 * z, 2.0));
    assert_eq!(format!("{:.4}", f32::from_bits(D65_L)), "94.9278");
    assert_eq!(format!("{:.4}", f32::from_bits(D65_M)), "103.5391");
    assert_eq!(format!("{:.4}", f32::from_bits(D65_S)), "108.7207");
}

#[test]
fn surround_constants() {
    assert_eq!(f32::from_bits(VC::yb), 20.0);
    assert_eq!(f32::from_bits(VC::f), 1.0);
    assert_eq!(f32::from_bits(VC::c), 0.69);
    assert_eq!(f32::from_bits(VC::nc), 1.0);
    assert_eq!(f32::from_bits(VC::n), 20.0f32 / 100.0f32);
    assert_eq!(f32::from_bits(VC::n), 0.2);
}

#[test]
fn adapting_luminance_in_single_precision() {
    let la = (64.0 / std::f32::consts::PI) / 5.0;
    assert_eq!(f32::from_bits(VC::la), la);
    assert_eq!(f32::from_bits(VC::k), 1.0 / ((5.0 * la) + 1.0));
    assert!(close(VC::la, 64.0 / std::f64::consts::PI / 5.0, 1.0));
}

#[test]
fn derived_constants_follow_their_formulas() {
    let la = value(VC::la);
    let k = value(VC::k);
    let n = 0.2f64;
    assert!(close(VC::z, 1.48 + n.sqrt(), 1.0));
    assert!(close(VC::nbb, 0.725 * (1.0 / n).powf(0.2), 1.0));
    assert_eq!(VC::ncb, VC::nbb);
    let fl = 0.2 * k.powi(4) * (5.0 * la) + 0.1 * (1.0 - k.powi(4)).powi(2) * (5.0 * la).cbrt();
    assert!(close(VC::fl, fl, 1.0));
    let d = 1.0 - (1.0 / 3.6) * ((-la - 42.0) / 92.0).exp();
    assert!(close(VC::d, d, 1.0));
    assert_eq!(format!("{:.4}", f32::from_bits(VC::z)), "1.9272");
    assert_eq!(format!("{:.4}", f32::from_bits(VC::fl)), "0.2731");
    assert_eq!(format!("{:.4}", f32::from_bits(VC::nbb)), "1.0003");
    assert_eq!(format!("{:.4}", f32::from_bits(VC::d)), "0.8317");
}

#[test]
fn achromatic_response_to_white_is_the_response_of_the_white_point() {
    let d = value(VC::d);
    let fl = value(VC::fl);
    let adapt = |cone: f64| cone * ((100.0 * d) / cone + (1.0 - d));
    let (lc, mc, sc) = (adapt(value(D65_L)), adapt(value(D65_M)), adapt(value(D65_S)));
    let lh = 0.7409792 * lc + 0.2180250 * mc + 0.0410058 * sc;
    let mh = 0.2853532 * lc + 0.6242014 * mc + 0.0904454 * sc;
    let sh = -0.0096280 * lc - 0.0056980 * mc + 1.0153260 * sc;
    let compress = |cone: f64| {
        let p = (fl * cone / 100.0).powf(0.42);
        400.0 * p / (27.13 + p) + 0.1
    };
    let aw = (2.0 * compress(lh) + compress(mh) + 0.05 * compress(sh) - 0.305) * value(VC::nbb);
    assert!(close(VC::achromatic_response_to_white, aw, 2.0));
    assert_eq!(format!("{:.3}", f32::from_bits(VC::achromatic_response_to_white)), "25.516");
}

#[test]
fn table_has_an_entry_for_every_channel_value() {
    assert_eq!(sRGB_LOOKUP.len(), 256);
    assert_eq!(sRGB_LOOKUP[0], 0);
    assert_eq!(sRGB_LOOKUP[255], 0x3f80_0000);
}
