use inkview::color::Color;
use inkview::ui::{MirrorFlag, Orientation, TextAlignFlag};

#[test]
fn rgb_packs_blue_high_red_low() {
    assert_eq!(Color::rgb(1, 2, 3), Color(0x030201));
    assert_eq!(Color::rgb(255, 0, 0), Color(0x0000FF));
    assert_eq!(Color::rgb(0, 0, 255), Color(0xFF0000));
}

#[test]
fn gs_repeats_intensity_in_all_channels() {
    assert_eq!(Color::gs(0), Color(0));
    assert_eq!(Color::gs(0x55), Color(0x555555));
    assert_eq!(Color::gs(0xFF), Color(0xFFFFFF));
}

#[test]
fn orientation_codes_round_trip() {
    let all = [
        Orientation::Portrait,
        Orientation::Landscape90,
        Orientation::Landscape270,
        Orientation::Portrait180,
        Orientation::Auto,
    ];
    for o in all {
        assert_eq!(Orientation::from_code(o.code()), Some(o));
    }
    assert_eq!(Orientation::Auto.code(), -1);
    assert_eq!(Orientation::from_code(7), None);
}

#[test]
fn text_align_flags_are_distinct_bits() {
    let codes = [
        TextAlignFlag::ALIGN_LEFT.code(),
        TextAlignFlag::ALIGN_CENTER.code(),
        TextAlignFlag::ALIGN_RIGHT.code(),
        TextAlignFlag::ALIGN_FIT.code(),
        TextAlignFlag::VALIGN_TOP.code(),
        TextAlignFlag::VALIGN_MIDDLE.code(),
        TextAlignFlag::VALIGN_BOTTOM.code(),
    ];
    assert_eq!(codes, [1, 2, 4, 8, 16, 32, 64]);
}

#[test]
fn mirror_flags_are_distinct_bits() {
    assert_eq!(MirrorFlag::X_MIRROR.code(), 1);
    assert_eq!(MirrorFlag::Y_MIRROR.code(), 2);
}
