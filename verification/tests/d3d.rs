use robmikh_common::error::{ComError, HResult, DXGI_ERROR_UNSUPPORTED, E_NOTIMPL};
use robmikh_common::universal::d3d::{
    copy_texture_desc, default_swap_chain_desc, device_creation_flags, first_device_attempt,
    next_device_creation_step, DeviceCreationStep, DriverType, SwapChainDesc, TextureDesc,
    D3D11_BIND_SHADER_RESOURCE, D3D11_CPU_ACCESS_READ, D3D11_CREATE_DEVICE_BGRA_SUPPORT,
    D3D11_CREATE_DEVICE_DEBUG, D3D11_USAGE_DEFAULT, D3D11_USAGE_STAGING, D3D_DRIVER_TYPE_HARDWARE,
    D3D_DRIVER_TYPE_WARP, DXGI_ALPHA_MODE_PREMULTIPLIED, DXGI_FORMAT_B8G8R8A8_UNORM,
    DXGI_SCALING_STRETCH, DXGI_SWAP_EFFECT_FLIP_SEQUENTIAL, DXGI_USAGE_RENDER_TARGET_OUTPUT,
};
use windows::Win32::Graphics::{Direct3D, Direct3D11, Dxgi};

#[test]
fn d3d_values_match_the_windows_constants() {
    assert_eq!(D3D11_CREATE_DEVICE_BGRA_SUPPORT, Direct3D11::D3D11_CREATE_DEVICE_BGRA_SUPPORT.0);
    assert_eq!(D3D11_CREATE_DEVICE_DEBUG, Direct3D11::D3D11_CREATE_DEVICE_DEBUG.0);
    assert_eq!(D3D_DRIVER_TYPE_HARDWARE, Direct3D::D3D_DRIVER_TYPE_HARDWARE.0);
    assert_eq!(D3D_DRIVER_TYPE_WARP, Direct3D::D3D_DRIVER_TYPE_WARP.0);
    assert_eq!(DXGI_USAGE_RENDER_TARGET_OUTPUT, Dxgi::DXGI_USAGE_RENDER_TARGET_OUTPUT.0);
    assert_eq!(DXGI_SCALING_STRETCH, Dxgi::DXGI_SCALING_STRETCH.0);
    assert_eq!(DXGI_SWAP_EFFECT_FLIP_SEQUENTIAL, Dxgi::DXGI_SWAP_EFFECT_FLIP_SEQUENTIAL.0);
    assert_eq!(DXGI_ALPHA_MODE_PREMULTIPLIED, Dxgi::Common::DXGI_ALPHA_MODE_PREMULTIPLIED.0);
    assert_eq!(DXGI_FORMAT_B8G8R8A8_UNORM, Dxgi::Common::DXGI_FORMAT_B8G8R8A8_UNORM.0);
    assert_eq!(D3D11_USAGE_DEFAULT, Direct3D11::D3D11_USAGE_DEFAULT.0);
    assert_eq!(D3D11_USAGE_STAGING, Direct3D11::D3D11_USAGE_STAGING.0);
    assert_eq!(D3D11_BIND_SHADER_RESOURCE, Direct3D11::D3D11_BIND_SHADER_RESOURCE.0);
    assert_eq!(D3D11_CPU_ACCESS_READ, Direct3D11::D3D11_CPU_ACCESS_READ.0);
}

#[test]
fn driver_type_values() {
    assert_eq!(DriverType::Hardware.value(), 1);
    assert_eq!(DriverType::Warp.value(), 5);
}

#[test]
fn creation_flags() {
    assert_eq!(device_creation_flags(false), 0x20);
    assert_eq!(device_creation_flags(true), 0x22);
    assert_eq!(
        device_creation_flags(true),
        device_creation_flags(false) | D3D11_CREATE_DEVICE_DEBUG
    );
}

#[test]
fn hardware_is_tried_first() {
    assert_eq!(first_device_attempt(), DriverType::Hardware);
}

#[test]
fn hardware_success_creates_the_device() {
    assert_eq!(
        next_device_creation_step(DriverType::Hardware, &Ok(())),
        DeviceCreationStep::Created(DriverType::Hardware)
    );
}

#[test]
fn unsupported_hardware_falls_back_to_warp() {
    let unsupported = Err(ComError::from_code(DXGI_ERROR_UNSUPPORTED));
    assert_eq!(
        next_device_creation_step(DriverType::Hardware, &unsupported),
        DeviceCreationStep::Attempt(DriverType::Warp)
    );
    assert_eq!(
        next_device_creation_step(DriverType::Warp, &Ok(())),
        DeviceCreationStep::Created(DriverType::Warp)
    );
}

#[test]
fn other_hardware_failures_end_creation() {
    let failure = Err(ComError::from_code(E_NOTIMPL));
    assert_eq!(
        next_device_creation_step(DriverType::Hardware, &failure),
        DeviceCreationStep::Failed(ComError { code: HResult(E_NOTIMPL) })
    );
}

#[test]
fn warp_failure_ends_creation() {
    let unsupported = Err(ComError::from_code(DXGI_ERROR_UNSUPPORTED));
    assert_eq!(
        next_device_creation_step(DriverType::Warp, &unsupported),
        DeviceCreationStep::Failed(ComError { code: HResult(DXGI_ERROR_UNSUPPORTED) })
    );
}

#[test]
fn default_swap_chain() {
    let desc = default_swap_chain_desc(800, 600, DXGI_FORMAT_B8G8R8A8_UNORM, 2);
    assert_eq!(
        desc,
        SwapChainDesc {
            width: 800,
            height: 600,
            format: 87,
            stereo: false,
            sample_count: 1,
            sample_quality: 0,
            buffer_usage: 32,
            buffer_count: 2,
            scaling: 0,
            swap_effect: 3,
            alpha_mode: 1,
            flags: 0,
        }
    );
}

fn source_texture() -> TextureDesc {
    TextureDesc {
        width: 250,
        height: 120,
        mip_levels: 1,
        array_size: 1,
        format: 87,
        sample_count: 1,
        sample_quality: 0,
        usage: D3D11_USAGE_DEFAULT,
        bind_flags: 0x28,
        cpu_access_flags: 0,
        misc_flags: 0x800,
    }
}

#[test]
fn staging_copy_is_cpu_readable() {
    let copy = copy_texture_desc(&source_texture(), true);
    assert_eq!(
        copy,
        TextureDesc {
            usage: 3,
            bind_flags: 0,
            cpu_access_flags: 0x20000,
            misc_flags: 0,
            ..source_texture()
        }
    );
}

#[test]
fn default_copy_is_shader_readable() {
    let copy = copy_texture_desc(&source_texture(), false);
    assert_eq!(
        copy,
        TextureDesc {
            usage: 0,
            bind_flags: 8,
            cpu_access_flags: 0,
            misc_flags: 0,
            ..source_texture()
        }
    );
}

#[test]
fn copying_a_copy_changes_nothing() {
    for staging in [false, true] {
        let copy = copy_texture_desc(&source_texture(), staging);
        assert_eq!(copy_texture_desc(&copy, staging), copy);
    }
}

#[test]
fn copy_ignores_how_the_source_is_used() {
    let other = TextureDesc {
        usage: D3D11_USAGE_STAGING,
        bind_flags: 0,
        cpu_access_flags: D3D11_CPU_ACCESS_READ,
        misc_flags: 0,
        ..source_texture()
    };
    for staging in [false, true] {
        assert_eq!(
            copy_texture_desc(&other, staging),
            copy_texture_desc(&source_texture(), staging)
        );
    }
}
