use d3d9_to_11::abi::d3d11::{
    D3D11_BIND_DEPTH_STENCIL, D3D11_BIND_RENDER_TARGET, D3D11_BIND_SHADER_RESOURCE,
    D3D11_CPU_ACCESS_READ, D3D11_CPU_ACCESS_WRITE, D3D11_USAGE_DYNAMIC, D3D11_USAGE_STAGING,
};
use d3d9_to_11::base::enums::{LockFlags, MemoryPool, ResourceType, UsageFlags};
use d3d9_to_11::base::msample::{d3d9_to_dxgi_samples, dxgi_samples_to_d3d9};
use d3d9_to_11::d3d11::util::d3d_usage_to_d3d11;
use d3d9_to_11::Error;

fn usage(bits: u32) -> UsageFlags {
    UsageFlags::from_bits_truncate(bits)
}

#[test]
fn default_pool_written_to_is_dynamic() {
    let flags = usage(UsageFlags::WRITE_ONLY | UsageFlags::DYNAMIC);
    assert_eq!(
        d3d_usage_to_d3d11(flags, MemoryPool::Default),
        Ok((D3D11_USAGE_DYNAMIC, D3D11_BIND_SHADER_RESOURCE, D3D11_CPU_ACCESS_WRITE))
    );
    assert_eq!(d3d_usage_to_d3d11(flags, MemoryPool::Default), Ok((2, 8, 0x1_0000)));
    assert_eq!(
        d3d_usage_to_d3d11(usage(UsageFlags::WRITE_ONLY), MemoryPool::Default),
        Ok((2, 8, 0x1_0000))
    );
    assert_eq!(
        d3d_usage_to_d3d11(usage(UsageFlags::DYNAMIC), MemoryPool::Default),
        Ok((2, 8, 0x1_0000))
    );
}

#[test]
fn default_pool_read_back_is_an_invalid_call() {
    assert_eq!(
        d3d_usage_to_d3d11(UsageFlags::empty(), MemoryPool::Default),
        Err(Error::InvalidCall)
    );
    assert_eq!(
        d3d_usage_to_d3d11(usage(UsageFlags::RENDER_TARGET), MemoryPool::Default),
        Err(Error::InvalidCall)
    );
    assert_eq!(
        d3d_usage_to_d3d11(usage(UsageFlags::AUTO_GEN_MIP_MAP), MemoryPool::Default),
        Err(Error::InvalidCall)
    );
}

#[test]
fn managed_pool_is_always_dynamic() {
    assert_eq!(d3d_usage_to_d3d11(UsageFlags::empty(), MemoryPool::Managed), Ok((2, 8, 0x1_0000)));
    assert_eq!(
        d3d_usage_to_d3d11(usage(UsageFlags::WRITE_ONLY), MemoryPool::Managed),
        Ok((2, 8, 0x1_0000))
    );
}

#[test]
fn system_memory_is_staging_unless_written_to() {
    assert_eq!(
        d3d_usage_to_d3d11(UsageFlags::empty(), MemoryPool::SystemMem),
        Ok((D3D11_USAGE_STAGING, 0, D3D11_CPU_ACCESS_WRITE | D3D11_CPU_ACCESS_READ))
    );
    assert_eq!(
        d3d_usage_to_d3d11(UsageFlags::empty(), MemoryPool::SystemMem),
        Ok((3, 0, 0x3_0000))
    );
    assert_eq!(
        d3d_usage_to_d3d11(usage(UsageFlags::DYNAMIC), MemoryPool::SystemMem),
        Ok((2, 8, 0x1_0000))
    );
    // A staging resource is never bound to the pipeline.
    assert_eq!(
        d3d_usage_to_d3d11(usage(UsageFlags::RENDER_TARGET), MemoryPool::SystemMem),
        Ok((3, 0, 0x3_0000))
    );
}

#[test]
fn scratch_pool_is_never_bound() {
    let all = UsageFlags::ALL;
    let mut bits = 0u32;
    loop {
        let flags = usage(bits);
        let (modern, bind, cpu) = d3d_usage_to_d3d11(flags, MemoryPool::Scratch).unwrap();
        assert_eq!(bind, 0, "usage {:#x}", bits);
        if bits & (UsageFlags::WRITE_ONLY | UsageFlags::DYNAMIC) != 0 {
            assert_eq!((modern, cpu), (2, 0x1_0000));
        } else {
            assert_eq!((modern, cpu), (3, 0x3_0000));
        }
        // Next subset of the named flags.
        bits = (bits.wrapping_sub(all)) & all;
        if bits == 0 {
            break;
        }
    }
}

#[test]
fn usage_translation_is_pure() {
    let pools =
        [MemoryPool::Default, MemoryPool::Managed, MemoryPool::SystemMem, MemoryPool::Scratch];
    for pool in pools {
        for bits in [0u32, 1, 2, 3, 8, 0x200, 0x208, 0x209, 0x20A, 0x400, 0x47CB] {
            let first = d3d_usage_to_d3d11(usage(bits), pool);
            let second = d3d_usage_to_d3d11(usage(bits), pool);
            assert_eq!(first, second);
        }
    }
}

#[test]
fn output_usage_selects_the_matching_bind() {
    let write = UsageFlags::WRITE_ONLY;
    assert_eq!(
        d3d_usage_to_d3d11(usage(write | UsageFlags::RENDER_TARGET), MemoryPool::Default),
        Ok((2, D3D11_BIND_RENDER_TARGET, 0x1_0000))
    );
    assert_eq!(
        d3d_usage_to_d3d11(usage(write | UsageFlags::DEPTH_STENCIL), MemoryPool::Default),
        Ok((2, D3D11_BIND_DEPTH_STENCIL, 0x1_0000))
    );
    assert_eq!(
        d3d_usage_to_d3d11(
            usage(write | UsageFlags::DEPTH_STENCIL | UsageFlags::RENDER_TARGET),
            MemoryPool::Managed
        ),
        Ok((2, 96, 0x1_0000))
    );
    assert_eq!(D3D11_BIND_RENDER_TARGET, 32);
    assert_eq!(D3D11_BIND_DEPTH_STENCIL, 64);
}

#[test]
fn multisample_round_trip() {
    for ty in 1u32..=16 {
        for qlt in [0u32, 1, 7, u32::MAX] {
            let desc = d3d9_to_dxgi_samples(ty, qlt);
            assert_eq!((desc.count, desc.quality), (ty, qlt));
            assert_eq!(dxgi_samples_to_d3d9(desc), (ty, qlt));
        }
    }
}

#[test]
fn multisample_type_is_clamped() {
    assert_eq!(d3d9_to_dxgi_samples(0, 3).count, 1);
    assert_eq!(d3d9_to_dxgi_samples(0, 3).quality, 3);
    assert_eq!(d3d9_to_dxgi_samples(17, 0).count, 16);
    assert_eq!(d3d9_to_dxgi_samples(u32::MAX, 0).count, 16);
    assert_eq!(d3d9_to_dxgi_samples(4, 0).count, 4);
}

#[test]
fn flag_sets() {
    assert_eq!(UsageFlags::from_bits_truncate(0xFFFF_FFFF).bits(), 0x47CB);
    assert_eq!(UsageFlags::from_bits(0x208).map(|f| f.bits()), Some(0x208));
    assert_eq!(UsageFlags::from_bits(0x10), None);
    assert!(UsageFlags::empty().is_empty());
    let flags = usage(UsageFlags::DYNAMIC | UsageFlags::RENDER_TARGET);
    assert!(flags.intersects(UsageFlags::DYNAMIC | UsageFlags::WRITE_ONLY));
    assert!(!flags.intersects(UsageFlags::WRITE_ONLY));
    assert!(flags.contains(UsageFlags::DYNAMIC | UsageFlags::RENDER_TARGET));
    assert!(!flags.contains(UsageFlags::DYNAMIC | UsageFlags::WRITE_ONLY));

    assert_eq!(LockFlags::from_bits_truncate(0xFFFF_FFFF).bits(), 0xF010);
    assert_eq!(LockFlags::from_bits(0x800), None);
    assert_eq!(LockFlags::from_bits(0x2010).map(|f| f.bits()), Some(0x2010));
    assert!(LockFlags::empty().is_empty());
    let lock = LockFlags::from_bits_truncate(LockFlags::DISCARD | LockFlags::DO_NOT_WAIT);
    assert!(lock.intersects(LockFlags::DISCARD));
    assert!(!lock.intersects(LockFlags::READ_ONLY));
    assert!(lock.contains(LockFlags::DISCARD | LockFlags::DO_NOT_WAIT));
    assert!(!lock.contains(LockFlags::DISCARD | LockFlags::READ_ONLY));
}

#[test]
fn pools_and_resource_kinds_have_the_numbers_of_the_interface() {
    assert_eq!(MemoryPool::Default.code(), 0);
    assert_eq!(MemoryPool::Managed.code(), 1);
    assert_eq!(MemoryPool::SystemMem.code(), 2);
    assert_eq!(MemoryPool::Scratch.code(), 3);
    assert_eq!(MemoryPool::from_code(2), Some(MemoryPool::SystemMem));
    assert_eq!(MemoryPool::from_code(4), None);
    for code in 0u32..4 {
        assert_eq!(MemoryPool::from_code(code).unwrap().code(), code);
    }
    assert_eq!(ResourceType::Surface.code(), 1);
    assert_eq!(ResourceType::Volume.code(), 2);
    assert_eq!(ResourceType::Texture.code(), 3);
    assert_eq!(ResourceType::VolumeTexture.code(), 4);
    assert_eq!(ResourceType::CubeTexture.code(), 5);
    assert_eq!(ResourceType::VertexBuffer.code(), 6);
    assert_eq!(ResourceType::IndexBuffer.code(), 7);
}
