use libass::library::{providers_from_codes, DefaultFontProvider};
use libass::renderer::{
    font_settings, fonts_update_result, frame_outcome, Change, Hinting, ShapingLevel,
};

const PROVIDERS: [DefaultFontProvider; 5] = [
    DefaultFontProvider::NoProvider,
    DefaultFontProvider::Autodetect,
    DefaultFontProvider::CoreText,
    DefaultFontProvider::Fontconfig,
    DefaultFontProvider::DirectWrite,
];

#[test]
fn provider_codes() {
    assert_eq!(DefaultFontProvider::NoProvider.code(), 0);
    assert_eq!(DefaultFontProvider::Autodetect.code(), 1);
    assert_eq!(DefaultFontProvider::CoreText.code(), 2);
    assert_eq!(DefaultFontProvider::Fontconfig.code(), 3);
    assert_eq!(DefaultFontProvider::DirectWrite.code(), 4);
}

#[test]
fn provider_code_round_trip() {
    for p in PROVIDERS {
        assert_eq!(DefaultFontProvider::from_code(p.code()), Some(p));
    }
}

#[test]
fn provider_unknown_codes() {
    assert_eq!(DefaultFontProvider::from_code(5), None);
    assert_eq!(DefaultFontProvider::from_code(-1), None);
    assert_eq!(DefaultFontProvider::from_code(i32::MAX), None);
}

#[test]
fn providers_from_codes_keeps_order() {
    assert_eq!(
        providers_from_codes(&[1, 3, 0]),
        vec![
            DefaultFontProvider::Autodetect,
            DefaultFontProvider::Fontconfig,
            DefaultFontProvider::NoProvider,
        ]
    );
    assert!(providers_from_codes(&[]).is_empty());
    assert_eq!(providers_from_codes(&[4, 4]), vec![DefaultFontProvider::DirectWrite; 2]);
}

#[test]
fn shaping_codes() {
    assert_eq!(ShapingLevel::Simple.code(), 0);
    assert_eq!(ShapingLevel::Complex.code(), 1);
}

#[test]
fn hinting_codes() {
    assert_eq!(Hinting::NoHinting.code(), 0);
    assert_eq!(Hinting::Light.code(), 1);
    assert_eq!(Hinting::Normal.code(), 2);
    assert_eq!(Hinting::Native.code(), 3);
}

#[test]
fn change_codes() {
    assert_eq!(Change::from_code(0), Some(Change::NoChange));
    assert_eq!(Change::from_code(1), Some(Change::Position));
    assert_eq!(Change::from_code(2), Some(Change::Content));
    assert_eq!(Change::from_code(3), None);
    assert_eq!(Change::from_code(-1), None);
}

#[test]
fn frame_without_images() {
    assert_eq!(frame_outcome(0, 0), (None, Change::NoChange));
    assert_eq!(frame_outcome(0, 2), (None, Change::Content));
}

#[test]
fn frame_with_images() {
    assert_eq!(frame_outcome(0x40, 1), (Some(0x40), Change::Position));
    assert_eq!(frame_outcome(0x80, 2), (Some(0x80), Change::Content));
}

#[test]
fn font_settings_all_given() {
    let s = font_settings(
        Some("/usr/share/fonts/a.ttf"),
        Some("Sans"),
        DefaultFontProvider::Fontconfig,
        Some("fonts.conf"),
        true,
    );
    assert_eq!(s.default_font, Some(b"/usr/share/fonts/a.ttf\0".to_vec()));
    assert_eq!(s.default_family, Some(b"Sans\0".to_vec()));
    assert_eq!(s.provider, 3);
    assert_eq!(s.fontconfig_config, Some(b"fonts.conf\0".to_vec()));
    assert_eq!(s.update_fontconfig_cache, 1);
}

#[test]
fn font_settings_none_given() {
    let s = font_settings(None, None, DefaultFontProvider::NoProvider, None, false);
    assert_eq!(s.default_font, None);
    assert_eq!(s.default_family, None);
    assert_eq!(s.provider, 0);
    assert_eq!(s.fontconfig_config, None);
    assert_eq!(s.update_fontconfig_cache, 0);
}

#[test]
fn fonts_update_status() {
    assert_eq!(fonts_update_result(0), Ok(()));
    assert_eq!(fonts_update_result(-1), Err(-1));
    assert_eq!(fonts_update_result(7), Err(7));
}
