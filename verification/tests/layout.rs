use hala_gfx::acceleration_structure::HalaAccelerationStructure;
use hala_gfx::align::{align_up, align_up_u32};
use hala_gfx::buffer::{HalaBuffer, HalaBufferUsageFlags};
use hala_gfx::logical_device::HalaMemoryLocation;
use hala_gfx::shader_binding_table::{HalaShaderBindingTable, HalaShaderBindingTableLayout};

#[test]
fn align_up_rounds_to_the_next_multiple() {
    assert_eq!(align_up(13, 8), Some(16));
    assert_eq!(align_up(16, 8), Some(16));
    assert_eq!(align_up(0, 4), Some(0));
    assert_eq!(align_up(1, 1), Some(1));
    assert_eq!(align_up(10, 6), Some(12));
    assert_eq!(align_up_u32(33, 32), Some(64));
}

#[test]
fn align_up_has_no_result_for_zero_alignment_or_overflow() {
    assert_eq!(align_up(5, 0), None);
    assert_eq!(align_up(u64::MAX, 2), None);
    assert_eq!(align_up(u64::MAX, 1), Some(u64::MAX));
    assert_eq!(align_up_u32(u32::MAX - 1, 4), None);
    assert_eq!(align_up_u32(7, 0), None);
}

#[test]
fn shader_binding_table_layout_pads_handles_and_regions() {
    let layout = HalaShaderBindingTable::layout(1, 2, 3, 0, 32, 32, 64).unwrap();
    assert_eq!(layout.aligned_handle_size, 32);
    assert_eq!(layout.raygen_region_size, 64);
    assert_eq!(layout.miss_region_size, 64);
    assert_eq!(layout.hit_region_size, 128);
    assert_eq!(layout.callable_region_size, 0);

    let layout = HalaShaderBindingTable::layout(1, 1, 1, 1, 20, 32, 64).unwrap();
    assert_eq!(layout.aligned_handle_size, 32);
    assert_eq!(layout.raygen_region_size, 64);
    assert_eq!(layout.callable_region_size, 64);
    assert_eq!(HalaShaderBindingTable::handle_data_size(&layout), Some(80));
}

#[test]
fn shader_binding_table_regions_are_aligned_and_contiguous() {
    for (r, m, h, c) in [(1u32, 0u32, 0u32, 0u32), (1, 2, 3, 4), (2, 7, 1, 0), (5, 5, 5, 5)] {
        for (size, handle_alignment, group_alignment) in [(32u32, 32u32, 64u32), (20, 8, 16), (48, 64, 256), (7, 3, 10)] {
            let layout = HalaShaderBindingTable::layout(r, m, h, c, size, handle_alignment, group_alignment).unwrap();
            let buffer = HalaBuffer::new(9, 1 << 20, HalaMemoryLocation::GpuOnly);
            let table = HalaShaderBindingTable::new(&layout, buffer, 0x10000).unwrap();
            assert_eq!(table.raygen_region.stride, table.raygen_region.size);
            for region in [table.raygen_region, table.miss_region, table.hit_region, table.callable_region] {
                assert_eq!(region.size % group_alignment as u64, 0);
            }
            assert_eq!(table.miss_region.stride, layout.aligned_handle_size);
            assert_eq!(table.hit_region.stride, layout.aligned_handle_size);
            assert_eq!(table.callable_region.stride, layout.aligned_handle_size);
            assert_eq!(layout.aligned_handle_size % handle_alignment as u64, 0);
            assert_eq!(table.raygen_region.device_address, 0x10000);
            assert_eq!(table.miss_region.device_address, table.raygen_region.device_address + table.raygen_region.size);
            assert_eq!(table.hit_region.device_address, table.miss_region.device_address + table.miss_region.size);
            assert_eq!(table.callable_region.device_address, table.hit_region.device_address + table.hit_region.size);
            let total = table.raygen_region.size + table.miss_region.size + table.hit_region.size + table.callable_region.size;
            let handles = vec![0xabu8; ((r + m + h + c) * size) as usize];
            let data = HalaShaderBindingTable::pack_handles(&layout, &handles).unwrap();
            assert_eq!(data.len() as u64, total);
            assert_eq!(HalaShaderBindingTable::buffer_desc(&layout, "sbt").unwrap().size, total);
        }
    }
}

#[test]
fn shader_binding_table_packs_each_handle_with_its_padding() {
    let layout = HalaShaderBindingTable::layout(1, 1, 0, 0, 2, 4, 8).unwrap();
    let data = HalaShaderBindingTable::pack_handles(&layout, &[1, 2, 3, 4]).unwrap();
    assert_eq!(data, vec![1, 2, 0, 0, 0, 0, 0, 0, 3, 4, 0, 0, 0, 0, 0, 0]);

    let layout = HalaShaderBindingTable::layout(1, 2, 1, 1, 3, 4, 4).unwrap();
    let handles: Vec<u8> = (1..=15).collect();
    let data = HalaShaderBindingTable::pack_handles(&layout, &handles).unwrap();
    assert_eq!(
        data,
        vec![1, 2, 3, 0, 4, 5, 6, 0, 7, 8, 9, 0, 10, 11, 12, 0, 13, 14, 15, 0]
    );
}

#[test]
fn shader_binding_table_of_no_group_is_empty() {
    let layout = HalaShaderBindingTable::layout(0, 0, 0, 0, 32, 64, 64).unwrap();
    assert_eq!(layout.raygen_region_size, 0);
    let data = HalaShaderBindingTable::pack_handles(&layout, &[]).unwrap();
    assert!(data.is_empty());
    let hand_made = HalaShaderBindingTableLayout {
        raygen_count: 0,
        miss_count: 0,
        hit_count: 0,
        callable_count: 0,
        handle_size: 4,
        aligned_handle_size: 8,
        raygen_region_size: 2,
        miss_region_size: 1,
        hit_region_size: 0,
        callable_region_size: 3,
    };
    assert_eq!(HalaShaderBindingTable::pack_handles(&hand_made, &[]).unwrap(), vec![0u8; 6]);
    let broken = HalaShaderBindingTableLayout { raygen_count: 1, ..hand_made };
    assert!(!HalaShaderBindingTable::is_consistent(&broken));
    let e = HalaShaderBindingTable::pack_handles(&broken, &[1, 2, 3, 4]).unwrap_err();
    assert_eq!(e.message(), "The shader binding table layout is inconsistent.");
    let huge = HalaShaderBindingTableLayout { raygen_region_size: u64::MAX, ..hand_made };
    assert_eq!(HalaShaderBindingTable::buffer_desc(&huge, "x").unwrap_err().message(), "The shader binding table is too large.");
}

#[test]
fn shader_binding_table_refuses_what_it_cannot_lay_out() {
    let e = HalaShaderBindingTable::layout(1, 1, 1, 1, 32, 0, 64).unwrap_err();
    assert_eq!(e.message(), "The shader group alignments must not be zero.");
    let e = HalaShaderBindingTable::layout(1, 1, 1, 1, 32, 32, 0).unwrap_err();
    assert_eq!(e.message(), "The shader group alignments must not be zero.");
    let e = HalaShaderBindingTable::layout(u32::MAX, u32::MAX, u32::MAX, u32::MAX, u32::MAX, 1, 1).unwrap_err();
    assert_eq!(e.message(), "The shader binding table is too large.");
    assert!(!e.is_device_lost());

    let layout = HalaShaderBindingTable::layout(1, 1, 0, 0, 2, 4, 8).unwrap();
    let e = HalaShaderBindingTable::pack_handles(&layout, &[1, 2, 3]).unwrap_err();
    assert_eq!(e.message(), "The shader group handles do not match the shader binding table.");
    let buffer = HalaBuffer::new(9, 16, HalaMemoryLocation::GpuOnly);
    let e = HalaShaderBindingTable::new(&layout, buffer, u64::MAX - 3).unwrap_err();
    assert_eq!(e.message(), "The shader binding table exceeds the device address range.");
}

#[test]
fn shader_binding_table_buffer_is_device_only_and_addressable() {
    let layout = HalaShaderBindingTable::layout(1, 2, 3, 0, 32, 32, 64).unwrap();
    let desc = HalaShaderBindingTable::buffer_desc(&layout, "rt").unwrap();
    assert_eq!(desc.size, 256);
    assert_eq!(desc.debug_name, "rt_buffer");
    assert_eq!(desc.memory_location, HalaMemoryLocation::GpuOnly);
    assert_eq!(
        desc.usage_flags.as_raw(),
        HalaBufferUsageFlags::SHADER_DEVICE_ADDRESS
            | HalaBufferUsageFlags::SHADER_BINDING_TABLE
            | HalaBufferUsageFlags::TRANSFER_DST
    );
    assert!(!desc.use_managed_memory);
}

#[test]
fn scratch_address_is_rounded_up_inside_the_scratch_buffer() {
    for address in [0u64, 1, 255, 256, 257, 1000, 0xffff_0001, 1 << 40] {
        for alignment in [1u32, 2, 16, 128, 256, 4096, 100] {
            for size in [0u64, 1, 4096] {
                let aligned = HalaAccelerationStructure::scratch_address(address, alignment).unwrap();
                assert!(aligned >= address);
                assert_eq!(aligned % alignment as u64, 0);
                assert!(aligned - address < alignment as u64);
                let desc = HalaAccelerationStructure::scratch_buffer_desc(size, alignment, "as").unwrap();
                assert_eq!(desc.size, size + alignment as u64);
                assert!(aligned + size <= address + desc.size);
            }
        }
    }
    assert_eq!(HalaAccelerationStructure::scratch_address(1000, 256).unwrap(), 1024);
    assert_eq!(HalaAccelerationStructure::scratch_address(1024, 256).unwrap(), 1024);
}

#[test]
fn scratch_refuses_zero_alignment_and_overflow() {
    let e = HalaAccelerationStructure::scratch_address(64, 0).unwrap_err();
    assert_eq!(e.message(), "The scratch offset alignment must not be zero.");
    let e = HalaAccelerationStructure::scratch_address(u64::MAX, 256).unwrap_err();
    assert_eq!(e.message(), "The scratch address exceeds the device address range.");
    let e = HalaAccelerationStructure::scratch_buffer_desc(u64::MAX, 1, "as").unwrap_err();
    assert_eq!(e.message(), "The scratch buffer is too large.");
}

#[test]
fn acceleration_structure_buffers_are_described() {
    let desc = HalaAccelerationStructure::storage_buffer_desc(4096, "blas");
    assert_eq!(desc.size, 4096);
    assert_eq!(desc.debug_name, "blas.buffer");
    assert_eq!(desc.memory_location, HalaMemoryLocation::GpuOnly);
    assert_eq!(
        desc.usage_flags.as_raw(),
        HalaBufferUsageFlags::ACCELERATION_STRUCTURE_STORAGE | HalaBufferUsageFlags::SHADER_DEVICE_ADDRESS
    );
    let desc = HalaAccelerationStructure::scratch_buffer_desc(100, 256, "blas").unwrap();
    assert_eq!(desc.size, 356);
    assert_eq!(desc.debug_name, "blas.scratch.buffer");
    assert_eq!(
        desc.usage_flags.as_raw(),
        HalaBufferUsageFlags::STORAGE_BUFFER | HalaBufferUsageFlags::SHADER_DEVICE_ADDRESS
    );
}
