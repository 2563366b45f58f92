use vstd::prelude::*;

verus! {

/// `D2D1_DEBUG_LEVEL_NONE`.
pub const D2D1_DEBUG_LEVEL_NONE: u32 = 0;

/// `D2D1_DEBUG_LEVEL_INFORMATION`: errors, warnings and information are
/// reported by the debug layer.
pub const D2D1_DEBUG_LEVEL_INFORMATION: u32 = 3;

/// The options of a Direct2D factory (`D2D1_FACTORY_OPTIONS`).
#[derive(Clone, Copy, Debug, PartialEq, Eq, Structural)]
pub struct D2dFactoryOptions {
    /// A `D2D1_DEBUG_LEVEL` value.
    pub debug_level: u32,
}

/// The options a Direct2D factory is created with: the debug layer reports
/// information when `debug` is set, and nothing otherwise.
pub fn d2d_factory_options(debug: bool) -> (options: D2dFactoryOptions)
    ensures
        options.debug_level == (if debug {
            D2D1_DEBUG_LEVEL_INFORMATION
        } else {
            D2D1_DEBUG_LEVEL_NONE
        }),
{
    let mut options = D2dFactoryOptions { debug_level: D2D1_DEBUG_LEVEL_NONE };
    if debug {
        options.debug_level = D2D1_DEBUG_LEVEL_INFORMATION;
    }
    options
}

} // verus!
