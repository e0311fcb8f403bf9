use npc_mind::listener_perspective::magnitude_coef::{MagnitudeBinThresholds, MagnitudeCoefTable};
use npc_mind::listener_perspective::types::Magnitude;

fn b(x: f32) -> u32 {
    x.to_bits()
}

fn v(bits: u32) -> f32 {
    f32::from_bits(bits)
}

#[test]
fn default_coefs_match_design_doc() {
    let t = MagnitudeCoefTable::default();
    assert_eq!(v(t.p_coef(Magnitude::Weak)), 0.5);
    assert_eq!(v(t.p_coef(Magnitude::Normal)), 1.0);
    assert_eq!(v(t.p_coef(Magnitude::Strong)), 1.5);
    assert_eq!(v(t.a_coef(Magnitude::Weak)), 0.5);
    assert_eq!(v(t.a_coef(Magnitude::Strong)), 1.3);
    assert_eq!(v(t.d_coef(Magnitude::Weak)), 0.4);
    assert_eq!(v(t.d_coef(Magnitude::Strong)), 1.3);
}

#[test]
fn custom_coef_table_overrides() {
    let custom = MagnitudeCoefTable { weak_p: b(0.3), normal_p: b(1.0), strong_p: b(2.0), ..Default::default() };
    assert_eq!(v(custom.p_coef(Magnitude::Weak)), 0.3);
    assert_eq!(v(custom.p_coef(Magnitude::Strong)), 2.0);
    assert_eq!(v(custom.a_coef(Magnitude::Strong)), 1.3);
}

#[test]
fn bin_boundaries() {
    let t = MagnitudeBinThresholds::default();
    assert_eq!(t.bin_of(b(0.0)), Magnitude::Weak);
    assert_eq!(t.bin_of(b(0.14)), Magnitude::Weak);
    assert_eq!(t.bin_of(b(0.15)), Magnitude::Normal);
    assert_eq!(t.bin_of(b(0.39)), Magnitude::Normal);
    assert_eq!(t.bin_of(b(0.4)), Magnitude::Strong);
    assert_eq!(t.bin_of(b(0.8)), Magnitude::Strong);
    assert_eq!(t.bin_of(b(-0.5)), Magnitude::Strong);
}

#[test]
fn normal_coefficients_are_one() {
    let t = MagnitudeCoefTable::default();
    assert_eq!(v(t.p_coef(Magnitude::Normal)), 1.0);
    assert_eq!(v(t.a_coef(Magnitude::Normal)), 1.0);
    assert_eq!(v(t.d_coef(Magnitude::Normal)), 1.0);
    assert_eq!(MagnitudeBinThresholds::default().bin_of(b(-0.1)), Magnitude::Weak);
}
