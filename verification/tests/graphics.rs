use raymarch_core::color::Color;
use raymarch_core::settings::RaymarchSettings;
use raymarch_core::target::{
    RenderTarget, RENDER_TARGET_COLOR, RENDER_TARGET_DENSITY,
};

#[test]
fn color_new_is_little_endian() {
    let c = Color::new(0x11223344);
    assert_eq!(c.to_bytes(), [0x44, 0x33, 0x22, 0x11]);
    assert_eq!(c.r, 0x44);
    assert_eq!(c.g, 0x33);
    assert_eq!(c.b, 0x22);
    assert_eq!(c.a, 0x11);
}

#[test]
fn color_new_boundaries() {
    assert_eq!(Color::new(0).to_bytes(), [0, 0, 0, 0]);
    assert_eq!(Color::new(0xFFFFFFFF).to_bytes(), [255, 255, 255, 255]);
    assert_eq!(Color::new(0xFF000000).to_bytes(), [0, 0, 0, 255]);
}

#[test]
fn color_default_is_opaque_black() {
    assert_eq!(Color::default().to_bytes(), [0, 0, 0, 255]);
    assert_eq!(Color::default(), Color::new(0xFF000000));
}

#[test]
fn color_compares_bytewise_in_field_order() {
    let low = Color { r: 1, g: 255, b: 255, a: 255 };
    let high = Color { r: 2, g: 0, b: 0, a: 0 };
    assert!(low < high);
    assert_eq!(Color::new(0x11223344), Color::new(0x11223344));
    assert_ne!(Color::new(0x11223344), Color::new(0x11223345));
}

#[test]
fn target_codes_are_stable() {
    assert_eq!(RENDER_TARGET_COLOR, 0);
    assert_eq!(RENDER_TARGET_DENSITY, 1);
    assert_eq!(RenderTarget::Color.to_code(), 0);
    assert_eq!(RenderTarget::Density.to_code(), 1);
    assert_eq!(RenderTarget::from_code(0), Ok(RenderTarget::Color));
    assert_eq!(RenderTarget::from_code(1), Ok(RenderTarget::Density));
}

#[test]
fn target_from_code_rejects_unknown_codes() {
    let err = RenderTarget::from_code(2).unwrap_err();
    assert_eq!(err.0, 2);
    let err = RenderTarget::from_code(u32::MAX).unwrap_err();
    assert_eq!(err.0, u32::MAX);
}

#[test]
fn target_tokens_are_stable() {
    assert_eq!(RenderTarget::Color.as_str(), "color");
    assert_eq!(RenderTarget::Density.as_str(), "density");
    assert_eq!(RenderTarget::Color.to_string(), "color");
    assert_eq!(RenderTarget::Density.to_string(), "density");
    assert_eq!(RenderTarget::parse("color"), Ok(RenderTarget::Color));
    assert_eq!(RenderTarget::parse("density"), Ok(RenderTarget::Density));
}

#[test]
fn target_parse_rejects_other_tokens() {
    let err = RenderTarget::parse("foo").unwrap_err();
    assert_eq!(err.0, "foo");
    assert!(RenderTarget::parse("Color").is_err());
    assert!(RenderTarget::parse("DENSITY").is_err());
    assert!(RenderTarget::parse("").is_err());
    assert!(RenderTarget::parse("colo").is_err());
    assert!(RenderTarget::parse("colors").is_err());
    assert!(RenderTarget::parse("densit").is_err());
}

#[test]
fn target_round_trips() {
    for v in [RenderTarget::Color, RenderTarget::Density] {
        assert_eq!(RenderTarget::parse(&v.to_string()), Ok(v));
        assert_eq!(RenderTarget::parse(v.as_str()), Ok(v));
        assert_eq!(RenderTarget::from_code(v.to_code()), Ok(v));
    }
}

#[test]
fn target_default_is_color() {
    assert_eq!(RenderTarget::default(), RenderTarget::Color);
    assert_eq!(RenderTarget::default().to_code(), RENDER_TARGET_COLOR);
}

#[test]
fn settings_default_step_budget() {
    assert_eq!(RaymarchSettings::default().n_steps, 300);
    assert_eq!(
        RaymarchSettings::default(),
        RaymarchSettings { n_steps: 300 }
    );
}

#[test]
fn target_from_str_trait_matches_parse() {
    assert_eq!("color".parse::<RenderTarget>(), Ok(RenderTarget::Color));
    assert_eq!("density".parse::<RenderTarget>(), Ok(RenderTarget::Density));
    let err = "foo".parse::<RenderTarget>().unwrap_err();
    assert_eq!(err.0, "foo");
}

#[test]
fn value_types_have_fixed_byte_sizes() {
    assert_eq!(std::mem::size_of::<Color>(), 4);
    assert_eq!(std::mem::size_of::<RaymarchSettings>(), 4);
}
