use baseview::gl::GlConfig;
use baseview::window_open_options::{MacOSWindowOptions, WindowOpenOptions, WindowScalePolicy};
use baseview::Size;

#[test]
fn default_options() {
    let o = WindowOpenOptions::default();
    assert_eq!(o.title, "Baseview window");
    assert_eq!(o.size.width_bits, (800.0f64).to_bits());
    assert_eq!(o.size.height_bits, (600.0f64).to_bits());
    assert_eq!(o.scale, WindowScalePolicy::SystemScaleFactor);
    assert_eq!(o.gl_config, None);
    assert_eq!(o.mac_os_options, None);
}

#[test]
fn builder_chain_sets_title_size_and_scale() {
    let o = WindowOpenOptions::default()
        .with_title("Test")
        .with_size(Size::new((400.0f64).to_bits(), (300.0f64).to_bits()))
        .with_scale_policy(WindowScalePolicy::ScaleFactor((2.0f64).to_bits()));
    assert_eq!(o.title, "Test");
    assert_eq!(o.size, Size::new((400.0f64).to_bits(), (300.0f64).to_bits()));
    assert_eq!(o.scale, WindowScalePolicy::ScaleFactor((2.0f64).to_bits()));
    assert_eq!(o.mac_os_options, None);
}

#[test]
fn with_gl_config_stores_the_configuration() {
    let o = WindowOpenOptions::default().with_gl_config(Some(GlConfig {}));
    assert_eq!(o.gl_config, Some(GlConfig {}));
    let o2 = o.with_gl_config(None);
    assert_eq!(o2.gl_config, None);
}

#[test]
fn mac_options_transform_starts_from_the_default_flags() {
    let direct = WindowOpenOptions::default().with_mac_os_options(|m| m.resizable(true));
    let mut primed = WindowOpenOptions::default();
    primed.mac_os_options = Some(MacOSWindowOptions::default());
    let primed = primed.with_mac_os_options(|m| m.resizable(true));
    assert_eq!(direct, primed);
    assert_eq!(direct.mac_os_options.unwrap().raw_value(), 0b1111u64);
}

#[test]
fn mac_options_transform_sees_previously_stored_flags() {
    let o = WindowOpenOptions::default()
        .with_mac_os_options(|m| m.borderless())
        .with_mac_os_options(|m| m.full_screen(true));
    assert_eq!(o.mac_os_options.unwrap().raw_value(), 1u64 << 14);
}

#[test]
fn chained_calls_equal_separate_statements() {
    let chained = WindowOpenOptions::default()
        .with_title("Stage")
        .with_size(Size::new(10u64, 20u64))
        .with_scale_policy(WindowScalePolicy::ScaleFactor((1.5f64).to_bits()));
    let s1 = WindowOpenOptions::default();
    let s2 = s1.with_title("Stage");
    let s3 = s2.with_size(Size::new(10u64, 20u64));
    let s4 = s3.with_scale_policy(WindowScalePolicy::ScaleFactor((1.5f64).to_bits()));
    assert_eq!(chained, s4);
}

#[test]
fn style_mask_bits_come_from_stored_or_default_flags() {
    let o = WindowOpenOptions::default();
    assert_eq!(o.style_mask_bits(), 0b111u64);
    let o2 = o.with_mac_os_options(|m| m.borderless());
    assert_eq!(o2.style_mask_bits(), 0u64);
    let o3 = o2.with_mac_os_options(|m| m.unified_titlebar(true));
    assert_eq!(o3.style_mask_bits(), 1u64 << 12);
}

#[test]
fn size_new_packs_both_dimensions() {
    let s = Size::new(1u64, 2u64);
    assert_eq!(s.width_bits, 1u64);
    assert_eq!(s.height_bits, 2u64);
}
