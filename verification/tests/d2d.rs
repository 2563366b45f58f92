use robmikh_common::universal::d2d::{
    d2d_factory_options, D2dFactoryOptions, D2D1_DEBUG_LEVEL_INFORMATION, D2D1_DEBUG_LEVEL_NONE,
};
use windows::Win32::Graphics::Direct2D;

#[test]
fn levels_match_the_windows_constants() {
    assert_eq!(D2D1_DEBUG_LEVEL_NONE, Direct2D::D2D1_DEBUG_LEVEL_NONE.0);
    assert_eq!(D2D1_DEBUG_LEVEL_INFORMATION, Direct2D::D2D1_DEBUG_LEVEL_INFORMATION.0);
}

#[test]
fn factory_options() {
    assert_eq!(d2d_factory_options(false), D2dFactoryOptions { debug_level: 0 });
    assert_eq!(d2d_factory_options(true), D2dFactoryOptions { debug_level: 3 });
}
