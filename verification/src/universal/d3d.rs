use vstd::prelude::*;

use crate::error::{ComError, HResult, DXGI_ERROR_UNSUPPORTED};

verus! {

/// `D3D11_CREATE_DEVICE_BGRA_SUPPORT`: the device supports BGRA surfaces,
/// as Direct2D and composition interop need.
pub const D3D11_CREATE_DEVICE_BGRA_SUPPORT: u32 = 0x20;

/// `D3D11_CREATE_DEVICE_DEBUG`: the device is created with the debug layer.
pub const D3D11_CREATE_DEVICE_DEBUG: u32 = 0x2;

/// `D3D_DRIVER_TYPE_HARDWARE`.
pub const D3D_DRIVER_TYPE_HARDWARE: i32 = 1;

/// `D3D_DRIVER_TYPE_WARP`.
pub const D3D_DRIVER_TYPE_WARP: i32 = 5;

/// The driver that a Direct3D 11 device is created with.
#[derive(Clone, Copy, Debug, PartialEq, Eq, Structural)]
pub enum DriverType {
    /// A hardware (GPU) driver.
    Hardware,
    /// The WARP software rasterizer.
    Warp,
}

/// The `D3D_DRIVER_TYPE` value of a driver.
pub open spec fn driver_type_value_spec(driver: DriverType) -> i32 {
    match driver {
        DriverType::Hardware => D3D_DRIVER_TYPE_HARDWARE,
        DriverType::Warp => D3D_DRIVER_TYPE_WARP,
    }
}

impl DriverType {
    /// The `D3D_DRIVER_TYPE` value handed to `D3D11CreateDevice`.
    pub fn value(&self) -> (v: i32)
        ensures
            v == driver_type_value_spec(*self),
    {
        match self {
            DriverType::Hardware => D3D_DRIVER_TYPE_HARDWARE,
            DriverType::Warp => D3D_DRIVER_TYPE_WARP,
        }
    }
}

/// The creation flags of a device: BGRA support always, and the debug layer
/// when `debug` is set.
pub open spec fn device_creation_flags_spec(debug: bool) -> u32 {
    if debug {
        D3D11_CREATE_DEVICE_BGRA_SUPPORT | D3D11_CREATE_DEVICE_DEBUG
    } else {
        D3D11_CREATE_DEVICE_BGRA_SUPPORT
    }
}

/// The flags handed to `D3D11CreateDevice`.
pub fn device_creation_flags(debug: bool) -> (flags: u32)
    ensures
        flags == device_creation_flags_spec(debug),
        flags == (if debug { 0x22u32 } else { 0x20u32 }),
{
    let mut flags = D3D11_CREATE_DEVICE_BGRA_SUPPORT;
    if debug {
        flags = flags | D3D11_CREATE_DEVICE_DEBUG;
    }
    assert(0x20u32 | 0x2u32 == 0x22u32) by (bit_vector);
    flags
}

/// What to do after an attempt to create a device.
#[derive(Clone, Copy, Debug, PartialEq, Eq, Structural)]
pub enum DeviceCreationStep {
    /// Try to create the device with this driver.
    Attempt(DriverType),
    /// The device was created with this driver.
    Created(DriverType),
    /// Device creation failed with this error.
    Failed(ComError),
}

/// The decision after an attempt with `attempted` that ended in `outcome`:
/// a success is final; a hardware attempt that the system reports as
/// unsupported falls back to WARP; any other failure is final.
pub open spec fn device_creation_step_spec(
    attempted: DriverType,
    outcome: Result<(), ComError>,
) -> DeviceCreationStep {
    match outcome {
        Ok(()) => DeviceCreationStep::Created(attempted),
        Err(error) => if attempted == DriverType::Hardware && error.code == HResult(
            DXGI_ERROR_UNSUPPORTED,
        ) {
            DeviceCreationStep::Attempt(DriverType::Warp)
        } else {
            DeviceCreationStep::Failed(error)
        },
    }
}

/// The first attempt at creating a device uses the hardware driver.
pub fn first_device_attempt() -> (d: DriverType)
    ensures
        d == DriverType::Hardware,
{
    DriverType::Hardware
}

/// Decides what follows an attempt to create a device.
pub fn next_device_creation_step(attempted: DriverType, outcome: &Result<(), ComError>) -> (step:
    DeviceCreationStep)
    ensures
        step == device_creation_step_spec(attempted, *outcome),
        step is Created ==> *outcome is Ok && step->Created_0 == attempted,
        *outcome is Ok ==> step == DeviceCreationStep::Created(attempted),
        *outcome is Err ==> (step == DeviceCreationStep::Failed(outcome->Err_0) || (attempted
            == DriverType::Hardware && outcome->Err_0.code == HResult(DXGI_ERROR_UNSUPPORTED)
            && step == DeviceCreationStep::Attempt(DriverType::Warp))),
        step is Attempt ==> attempted == DriverType::Hardware && *outcome == Err::<(), ComError>(
            ComError { code: HResult(DXGI_ERROR_UNSUPPORTED) },
        ) && step == DeviceCreationStep::Attempt(DriverType::Warp),
{
    match outcome {
        Ok(()) => DeviceCreationStep::Created(attempted),
        Err(error) => {
            if attempted == DriverType::Hardware && error.code.0 == DXGI_ERROR_UNSUPPORTED {
                DeviceCreationStep::Attempt(DriverType::Warp)
            } else {
                DeviceCreationStep::Failed(*error)
            }
        },
    }
}

/// Device creation ends after at most two attempts: the hardware driver
/// first, then WARP only if the hardware attempt reported
/// `DXGI_ERROR_UNSUPPORTED`, and the WARP attempt always ends it.
pub proof fn lemma_device_creation_ends(
    first: Result<(), ComError>,
    second: Result<(), ComError>,
)
    ensures
        device_creation_step_spec(DriverType::Hardware, first) is Attempt ==> {
            &&& first == Err::<(), ComError>(ComError { code: HResult(DXGI_ERROR_UNSUPPORTED) })
            &&& device_creation_step_spec(DriverType::Hardware, first) == DeviceCreationStep::Attempt(
                DriverType::Warp,
            )
        },
        !(device_creation_step_spec(DriverType::Warp, second) is Attempt),
{
}

/// A device is reported created only by an attempt that succeeded, and with
/// the driver of that attempt; a failed attempt either falls back from the
/// hardware driver to WARP on `DXGI_ERROR_UNSUPPORTED` or reports its own
/// error.
pub proof fn lemma_device_creation_reports_outcome(
    attempted: DriverType,
    outcome: Result<(), ComError>,
)
    ensures
        device_creation_step_spec(attempted, outcome) is Created ==> outcome is Ok
            && device_creation_step_spec(attempted, outcome)->Created_0 == attempted,
        outcome is Err ==> {
            ||| device_creation_step_spec(attempted, outcome) == DeviceCreationStep::Failed(
                outcome->Err_0,
            )
            ||| (attempted == DriverType::Hardware && outcome->Err_0.code == HResult(
                DXGI_ERROR_UNSUPPORTED,
            ) && device_creation_step_spec(attempted, outcome) == DeviceCreationStep::Attempt(
                DriverType::Warp,
            ))
        },
        outcome is Err && outcome->Err_0.code != HResult(DXGI_ERROR_UNSUPPORTED)
            ==> device_creation_step_spec(attempted, outcome) == DeviceCreationStep::Failed(
            outcome->Err_0,
        ),
        device_creation_step_spec(attempted, outcome) == DeviceCreationStep::Created(attempted)
            <==> outcome is Ok,
        device_creation_step_spec(attempted, outcome) is Failed ==> outcome == Err::<(), ComError>(
            device_creation_step_spec(attempted, outcome)->Failed_0,
        ),
{
}

/// The debug layer adds exactly the debug flag to the flags of a release
/// device.
pub proof fn lemma_debug_flags_extend_release_flags()
    ensures
        device_creation_flags_spec(true) == device_creation_flags_spec(false)
            | D3D11_CREATE_DEVICE_DEBUG,
        device_creation_flags_spec(true) & D3D11_CREATE_DEVICE_BGRA_SUPPORT
            == D3D11_CREATE_DEVICE_BGRA_SUPPORT,
{
    assert((D3D11_CREATE_DEVICE_BGRA_SUPPORT | D3D11_CREATE_DEVICE_DEBUG)
        & D3D11_CREATE_DEVICE_BGRA_SUPPORT == D3D11_CREATE_DEVICE_BGRA_SUPPORT) by (bit_vector);
}

/// `DXGI_USAGE_RENDER_TARGET_OUTPUT`: the buffers are render targets.
pub const DXGI_USAGE_RENDER_TARGET_OUTPUT: u32 = 32;

/// `DXGI_SCALING_STRETCH`: the back buffer is stretched to the target.
pub const DXGI_SCALING_STRETCH: i32 = 0;

/// `DXGI_SWAP_EFFECT_FLIP_SEQUENTIAL`.
pub const DXGI_SWAP_EFFECT_FLIP_SEQUENTIAL: i32 = 3;

/// `DXGI_ALPHA_MODE_PREMULTIPLIED`.
pub const DXGI_ALPHA_MODE_PREMULTIPLIED: u32 = 1;

/// `DXGI_FORMAT_B8G8R8A8_UNORM`.
pub const DXGI_FORMAT_B8G8R8A8_UNORM: u32 = 87;

/// The description of a swap chain (`DXGI_SWAP_CHAIN_DESC1`), each field a
/// plain value.
#[derive(Clone, Copy, Debug, PartialEq, Eq, Structural)]
pub struct SwapChainDesc {
    pub width: u32,
    pub height: u32,
    /// A `DXGI_FORMAT` value.
    pub format: u32,
    pub stereo: bool,
    pub sample_count: u32,
    pub sample_quality: u32,
    /// A `DXGI_USAGE` value.
    pub buffer_usage: u32,
    pub buffer_count: u32,
    /// A `DXGI_SCALING` value.
    pub scaling: i32,
    /// A `DXGI_SWAP_EFFECT` value.
    pub swap_effect: i32,
    /// A `DXGI_ALPHA_MODE` value.
    pub alpha_mode: u32,
    pub flags: u32,
}

/// The description of a composition swap chain with the given size, format
/// and number of buffers: render-target buffers without multisampling,
/// stretched, flipped in sequence, with premultiplied alpha, no stereo and
/// no flags.
pub fn default_swap_chain_desc(width: u32, height: u32, format: u32, buffer_count: u32) -> (desc:
    SwapChainDesc)
    ensures
        desc == (SwapChainDesc {
            width,
            height,
            format,
            stereo: false,
            sample_count: 1,
            sample_quality: 0,
            buffer_usage: DXGI_USAGE_RENDER_TARGET_OUTPUT,
            buffer_count,
            scaling: DXGI_SCALING_STRETCH,
            swap_effect: DXGI_SWAP_EFFECT_FLIP_SEQUENTIAL,
            alpha_mode: DXGI_ALPHA_MODE_PREMULTIPLIED,
            flags: 0,
        }),
{
    SwapChainDesc {
        width,
        height,
        format,
        stereo: false,
        sample_count: 1,
        sample_quality: 0,
        buffer_usage: DXGI_USAGE_RENDER_TARGET_OUTPUT,
        buffer_count,
        scaling: DXGI_SCALING_STRETCH,
        swap_effect: DXGI_SWAP_EFFECT_FLIP_SEQUENTIAL,
        alpha_mode: DXGI_ALPHA_MODE_PREMULTIPLIED,
        flags: 0,
    }
}

/// `D3D11_USAGE_DEFAULT`: the GPU reads and writes the resource.
pub const D3D11_USAGE_DEFAULT: i32 = 0;

/// `D3D11_USAGE_STAGING`: the resource is a transfer buffer between GPU and
/// CPU.
pub const D3D11_USAGE_STAGING: i32 = 3;

/// `D3D11_BIND_SHADER_RESOURCE`.
pub const D3D11_BIND_SHADER_RESOURCE: i32 = 8;

/// `D3D11_CPU_ACCESS_READ`.
pub const D3D11_CPU_ACCESS_READ: i32 = 0x20000;

/// The description of a 2D texture (`D3D11_TEXTURE2D_DESC`), each field a
/// plain value.
#[derive(Clone, Copy, Debug, PartialEq, Eq, Structural)]
pub struct TextureDesc {
    pub width: u32,
    pub height: u32,
    pub mip_levels: u32,
    pub array_size: u32,
    /// A `DXGI_FORMAT` value.
    pub format: u32,
    pub sample_count: u32,
    pub sample_quality: u32,
    /// A `D3D11_USAGE` value.
    pub usage: i32,
    /// `D3D11_BIND_FLAG` bits.
    pub bind_flags: i32,
    /// `D3D11_CPU_ACCESS_FLAG` bits.
    pub cpu_access_flags: i32,
    /// `D3D11_RESOURCE_MISC_FLAG` bits.
    pub misc_flags: i32,
}

/// The description of a copy of a texture described by `desc`: the same
/// layout, no miscellaneous flags, and either a staging texture that the CPU
/// can read or a default texture that shaders can read.
pub open spec fn copy_texture_desc_spec(desc: TextureDesc, staging_texture: bool) -> TextureDesc {
    TextureDesc {
        usage: if staging_texture {
            D3D11_USAGE_STAGING
        } else {
            D3D11_USAGE_DEFAULT
        },
        bind_flags: if staging_texture {
            0
        } else {
            D3D11_BIND_SHADER_RESOURCE
        },
        cpu_access_flags: if staging_texture {
            D3D11_CPU_ACCESS_READ
        } else {
            0
        },
        misc_flags: 0,
        ..desc
    }
}

/// Describes the texture into which a texture described by `desc` is copied.
pub fn copy_texture_desc(desc: &TextureDesc, staging_texture: bool) -> (copy: TextureDesc)
    ensures
        copy == copy_texture_desc_spec(*desc, staging_texture),
        copy.usage == (if staging_texture {
            D3D11_USAGE_STAGING
        } else {
            D3D11_USAGE_DEFAULT
        }),
        copy.bind_flags == (if staging_texture {
            0
        } else {
            D3D11_BIND_SHADER_RESOURCE
        }),
        copy.cpu_access_flags == (if staging_texture {
            D3D11_CPU_ACCESS_READ
        } else {
            0
        }),
        copy.misc_flags == 0,
        copy.width == desc.width,
        copy.height == desc.height,
        copy.mip_levels == desc.mip_levels,
        copy.array_size == desc.array_size,
        copy.format == desc.format,
        copy.sample_count == desc.sample_count,
        copy.sample_quality == desc.sample_quality,
{
    let mut copy = *desc;
    copy.misc_flags = 0;
    if staging_texture {
        copy.usage = D3D11_USAGE_STAGING;
        copy.bind_flags = 0;
        copy.cpu_access_flags = D3D11_CPU_ACCESS_READ;
    } else {
        copy.usage = D3D11_USAGE_DEFAULT;
        copy.bind_flags = D3D11_BIND_SHADER_RESOURCE;
        copy.cpu_access_flags = 0;
    }
    copy
}

/// A copy has the layout of its source: size, mip levels, array size,
/// format and sampling are kept.
pub proof fn lemma_copy_keeps_layout(desc: TextureDesc, staging_texture: bool)
    ensures
        ({
            let copy = copy_texture_desc_spec(desc, staging_texture);
            &&& copy.width == desc.width
            &&& copy.height == desc.height
            &&& copy.mip_levels == desc.mip_levels
            &&& copy.array_size == desc.array_size
            &&& copy.format == desc.format
            &&& copy.sample_count == desc.sample_count
            &&& copy.sample_quality == desc.sample_quality
        }),
{
}

/// Describing a copy of a copy gives the description of the copy.
pub proof fn lemma_copy_desc_idempotent(desc: TextureDesc, staging_texture: bool)
    ensures
        copy_texture_desc_spec(copy_texture_desc_spec(desc, staging_texture), staging_texture)
            == copy_texture_desc_spec(desc, staging_texture),
{
}

/// How a copy may be used depends only on the choice of staging, never on
/// how the source texture may be used: two sources with the same layout give
/// the same description.
pub proof fn lemma_copy_usage_ignores_source_usage(
    a: TextureDesc,
    b: TextureDesc,
    staging_texture: bool,
)
    requires
        a.width == b.width,
        a.height == b.height,
        a.mip_levels == b.mip_levels,
        a.array_size == b.array_size,
        a.format == b.format,
        a.sample_count == b.sample_count,
        a.sample_quality == b.sample_quality,
    ensures
        copy_texture_desc_spec(a, staging_texture) == copy_texture_desc_spec(b, staging_texture),
{
}

/// A staging copy is a staging texture, readable by the CPU and bound to no
/// pipeline stage; a default copy is a default texture, readable by shaders
/// and not by the CPU; neither keeps a miscellaneous flag. This holds for
/// every source, whatever its size.
pub proof fn lemma_copy_access(desc: TextureDesc, staging_texture: bool)
    ensures
        copy_texture_desc_spec(desc, true).usage == D3D11_USAGE_STAGING,
        copy_texture_desc_spec(desc, false).usage == D3D11_USAGE_DEFAULT,
        copy_texture_desc_spec(desc, staging_texture).misc_flags == 0,
        staging_texture ==> copy_texture_desc_spec(desc, staging_texture).cpu_access_flags
            == D3D11_CPU_ACCESS_READ && copy_texture_desc_spec(desc, staging_texture).bind_flags
            == 0,
        !staging_texture ==> copy_texture_desc_spec(desc, staging_texture).cpu_access_flags == 0
            && copy_texture_desc_spec(desc, staging_texture).bind_flags
            == D3D11_BIND_SHADER_RESOURCE,
{
}

} // verus!
