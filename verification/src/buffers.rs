use vstd::prelude::*;

verus! {

/// Bytes held by one texel: a packed 32-bit colour.
pub const BYTES_PER_PIXEL: u64 = 4;

/// Bytes needed for a `width` by `height` grid of 32-bit texels.
pub open spec fn byte_size(width: nat, height: nat) -> nat {
    width * height * 4
}

/// What a buffer may be used for on the device.
#[derive(Clone, Copy, Debug, PartialEq, Eq, Structural)]
pub struct BufferUsage {
    pub storage: bool,
    pub copy_src: bool,
    pub copy_dst: bool,
    pub map_read: bool,
}

/// Size and usage of one buffer to allocate.
#[derive(Clone, Copy, Debug, PartialEq, Eq, Structural)]
pub struct BufferDesc {
    pub size: u64,
    pub usage: BufferUsage,
}

/// The two buffers of a run: the one the kernel writes, and the one the host reads.
#[derive(Clone, Copy, Debug, PartialEq, Eq, Structural)]
pub struct BufferPlan {
    pub output: BufferDesc,
    pub staging: BufferDesc,
}

/// Usage of the compute-output buffer: written by the kernel, then copied from.
pub open spec fn output_usage() -> BufferUsage {
    BufferUsage { storage: true, copy_src: true, copy_dst: false, map_read: false }
}

/// Usage of the staging buffer: copied into, then mapped for reading; nothing else.
pub open spec fn staging_usage() -> BufferUsage {
    BufferUsage { storage: false, copy_src: false, copy_dst: true, map_read: true }
}

/// The plan for a `width` by `height` image: both buffers hold exactly
/// `byte_size(width, height)` bytes.
pub open spec fn plan_for(width: nat, height: nat) -> BufferPlan {
    BufferPlan {
        output: BufferDesc { size: byte_size(width, height) as u64, usage: output_usage() },
        staging: BufferDesc { size: byte_size(width, height) as u64, usage: staging_usage() },
    }
}

/// The byte size of a buffer for a `width` by `height` image, or `None` when
/// that size does not fit a 64-bit buffer address.
pub fn buffer_size(width: u32, height: u32) -> (size: Option<u64>)
    requires
        width > 0,
        height > 0,
    ensures
        size.is_some() <==> byte_size(width as nat, height as nat) <= u64::MAX,
        size.is_some() ==> size.unwrap() == byte_size(width as nat, height as nat),
{
    let w: u64 = width as u64;
    let h: u64 = height as u64;
    assert(w * h <= 0xffff_ffff * 0xffff_ffff) by (nonlinear_arith)
        requires
            w <= 0xffff_ffff,
            h <= 0xffff_ffff,
    ;
    let texels: u64 = w * h;
    if texels > u64::MAX / BYTES_PER_PIXEL {
        None
    } else {
        Some(texels * BYTES_PER_PIXEL)
    }
}

/// Describes the two buffers to allocate for a `width` by `height` image.
pub fn plan_buffers(width: u32, height: u32) -> (plan: Option<BufferPlan>)
    requires
        width > 0,
        height > 0,
    ensures
        plan.is_some() <==> byte_size(width as nat, height as nat) <= u64::MAX,
        plan.is_some() ==> plan.unwrap() == plan_for(width as nat, height as nat),
{
    match buffer_size(width, height) {
        None => None,
        Some(size) => Some(
            BufferPlan {
                output: BufferDesc {
                    size,
                    usage: BufferUsage {
                        storage: true,
                        copy_src: true,
                        copy_dst: false,
                        map_read: false,
                    },
                },
                staging: BufferDesc {
                    size,
                    usage: BufferUsage {
                        storage: false,
                        copy_src: false,
                        copy_dst: true,
                        map_read: true,
                    },
                },
            },
        ),
    }
}

/// Whether a buffer may be attached to a storage slot of a pipeline.
pub fn bindable(desc: &BufferDesc) -> (ok: bool)
    ensures
        ok == desc.usage.storage,
{
    desc.usage.storage
}

/// Whether a full copy from `src` to `dst` is allowed: the source may be copied
/// from, the destination copied into, and both have the same size.
pub fn copy_allowed(src: &BufferDesc, dst: &BufferDesc) -> (ok: bool)
    ensures
        ok == (src.usage.copy_src && dst.usage.copy_dst && src.size == dst.size),
{
    src.usage.copy_src && dst.usage.copy_dst && src.size == dst.size
}

/// In every plan the two buffers have the same size, the output buffer can be
/// bound and copied from, and the staging buffer can be copied into and mapped
/// but never bound to a pipeline.
pub proof fn lemma_plan_roles(width: nat, height: nat)
    requires
        width > 0,
        height > 0,
        byte_size(width, height) <= u64::MAX,
    ensures
        plan_for(width, height).output.size == byte_size(width, height),
        plan_for(width, height).staging.size == byte_size(width, height),
        plan_for(width, height).output.usage.storage,
        plan_for(width, height).output.usage.copy_src,
        plan_for(width, height).staging.usage.copy_dst,
        plan_for(width, height).staging.usage.map_read,
        !plan_for(width, height).staging.usage.storage,
{
}

} // verus!
