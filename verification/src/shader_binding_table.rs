//! The layout of a shader binding table: four aligned regions in one
//! buffer, and the handles packed into them.

use crate::align::{
    align_up, lemma_align_up_bounds, lemma_aligned_sum, spec_align_up, spec_is_aligned,
};
use crate::buffer::{HalaBuffer, HalaBufferDesc, HalaBufferUsageFlags};
use crate::error::{HalaGfxError, HalaGfxErrorView};
use crate::logical_device::HalaMemoryLocation;
use vstd::arithmetic::div_mod::{lemma_fundamental_div_mod, lemma_fundamental_div_mod_converse};
use vstd::arithmetic::mul::lemma_mul_inequality;
use vstd::prelude::*;
use vstd::string::StringExecFns;

verus! {

/// A region of device memory that holds records of one stride.
#[derive(Clone, Copy, PartialEq, Eq, Structural, Debug)]
pub struct HalaStridedDeviceAddressRegion {
    pub device_address: u64,
    pub stride: u64,
    pub size: u64,
}

/// The sizes of a shader binding table: the four counts of shader groups,
/// the size of a handle alone and padded to the handle alignment, and the
/// size of each of the four regions padded to the group base alignment.
#[derive(Clone, Copy, PartialEq, Eq, Structural, Debug)]
pub struct HalaShaderBindingTableLayout {
    pub raygen_count: u32,
    pub miss_count: u32,
    pub hit_count: u32,
    pub callable_count: u32,
    pub handle_size: u32,
    pub aligned_handle_size: u64,
    pub raygen_region_size: u64,
    pub miss_region_size: u64,
    pub hit_region_size: u64,
    pub callable_region_size: u64,
}

/// The size of a region of `count` handles: the handles at their padded
/// size, the whole padded up to the group base alignment.
pub open spec fn spec_region_size(count: int, aligned_handle_size: int, group_alignment: int) -> int {
    spec_align_up(count * aligned_handle_size, group_alignment)
}

/// The byte at `position` of a region that holds `count` handles, each
/// followed by zeros up to the padded handle size, and then zeros up to the
/// padded region size. The handles are taken from `handles`, the first of
/// the region being handle number `first` of that block.
pub open spec fn spec_region_byte(
    handles: Seq<u8>,
    first: int,
    count: int,
    handle_size: int,
    aligned_handle_size: int,
    position: int,
) -> u8 {
    let record = position / aligned_handle_size;
    let within = position % aligned_handle_size;
    if 0 <= record < count && 0 <= within < handle_size {
        handles[(first + record) * handle_size + within]
    } else {
        0
    }
}

impl HalaShaderBindingTableLayout {
    /// The layout for the given counts of shader groups and limits of the
    /// device.
    pub open spec fn spec_new(
        raygen_count: u32,
        miss_count: u32,
        hit_count: u32,
        callable_count: u32,
        handle_size: u32,
        handle_alignment: u32,
        group_alignment: u32,
    ) -> HalaShaderBindingTableLayout {
        let aligned = spec_align_up(handle_size as int, handle_alignment as int);
        HalaShaderBindingTableLayout {
            raygen_count,
            miss_count,
            hit_count,
            callable_count,
            handle_size,
            aligned_handle_size: aligned as u64,
            raygen_region_size: spec_region_size(raygen_count as int, aligned, group_alignment as int) as u64,
            miss_region_size: spec_region_size(miss_count as int, aligned, group_alignment as int) as u64,
            hit_region_size: spec_region_size(hit_count as int, aligned, group_alignment as int) as u64,
            callable_region_size: spec_region_size(
                callable_count as int,
                aligned,
                group_alignment as int,
            ) as u64,
        }
    }

    /// The size of the whole table: the four padded regions, one after the
    /// other.
    pub open spec fn spec_total_size(self) -> int {
        self.raygen_region_size + self.miss_region_size + self.hit_region_size
            + self.callable_region_size
    }

    /// The number of shader groups in the table.
    pub open spec fn spec_group_count(self) -> int {
        self.raygen_count + self.miss_count + self.hit_count + self.callable_count
    }

    /// The number of bytes of handles that the driver returns for the
    /// groups of the table.
    pub open spec fn spec_handle_data_size(self) -> int {
        self.spec_group_count() * self.handle_size
    }

    /// Each region is large enough for its handles at their padded size,
    /// and a padded handle is large enough for a handle.
    pub open spec fn wf(self) -> bool {
        &&& self.handle_size <= self.aligned_handle_size
        &&& self.raygen_count * self.aligned_handle_size <= self.raygen_region_size
        &&& self.miss_count * self.aligned_handle_size <= self.miss_region_size
        &&& self.hit_count * self.aligned_handle_size <= self.hit_region_size
        &&& self.callable_count * self.aligned_handle_size <= self.callable_region_size
    }

    /// The byte at `position` of the packed table.
    pub open spec fn spec_table_byte(self, handles: Seq<u8>, position: int) -> u8 {
        let miss_start = self.raygen_region_size as int;
        let hit_start = miss_start + self.miss_region_size;
        let callable_start = hit_start + self.hit_region_size;
        if position < miss_start {
            spec_region_byte(
                handles,
                0,
                self.raygen_count as int,
                self.handle_size as int,
                self.aligned_handle_size as int,
                position,
            )
        } else if position < hit_start {
            spec_region_byte(
                handles,
                self.raygen_count as int,
                self.miss_count as int,
                self.handle_size as int,
                self.aligned_handle_size as int,
                position - miss_start,
            )
        } else if position < callable_start {
            spec_region_byte(
                handles,
                self.raygen_count + self.miss_count,
                self.hit_count as int,
                self.handle_size as int,
                self.aligned_handle_size as int,
                position - hit_start,
            )
        } else {
            spec_region_byte(
                handles,
                self.raygen_count + self.miss_count + self.hit_count,
                self.callable_count as int,
                self.handle_size as int,
                self.aligned_handle_size as int,
                position - callable_start,
            )
        }
    }

    /// The packed table: its bytes from the first to the last.
    pub open spec fn spec_table(self, handles: Seq<u8>) -> Seq<u8> {
        Seq::new(self.spec_total_size() as nat, |position: int| self.spec_table_byte(handles, position))
    }

    /// The four region descriptors of a table at `address`: the regions lie
    /// one after the other from the address on, each with the padded handle
    /// size as its stride, but for the raygen region, whose stride is its
    /// size.
    pub open spec fn spec_regions(self, address: u64) -> (
        HalaStridedDeviceAddressRegion,
        HalaStridedDeviceAddressRegion,
        HalaStridedDeviceAddressRegion,
        HalaStridedDeviceAddressRegion,
    ) {
        (
            HalaStridedDeviceAddressRegion {
                device_address: address,
                stride: self.raygen_region_size,
                size: self.raygen_region_size,
            },
            HalaStridedDeviceAddressRegion {
                device_address: (address + self.raygen_region_size) as u64,
                stride: self.aligned_handle_size,
                size: self.miss_region_size,
            },
            HalaStridedDeviceAddressRegion {
                device_address: (address + self.raygen_region_size + self.miss_region_size) as u64,
                stride: self.aligned_handle_size,
                size: self.hit_region_size,
            },
            HalaStridedDeviceAddressRegion {
                device_address: (address + self.raygen_region_size + self.miss_region_size
                    + self.hit_region_size) as u64,
                stride: self.aligned_handle_size,
                size: self.callable_region_size,
            },
        )
    }
}

/// The shader binding table: the buffer that holds the handles of the
/// shader groups and the four regions of it that a ray dispatch reads.
#[derive(Clone, Copy, PartialEq, Eq, Structural, Debug)]
pub struct HalaShaderBindingTable {
    pub raygen_region: HalaStridedDeviceAddressRegion,
    pub miss_region: HalaStridedDeviceAddressRegion,
    pub hit_region: HalaStridedDeviceAddressRegion,
    pub callable_region: HalaStridedDeviceAddressRegion,
    pub buffer: HalaBuffer,
}

/// The size of a region is a multiple of the group base alignment and
/// holds the handles of the region at their padded size.
pub proof fn lemma_region_size(count: int, aligned_handle_size: int, group_alignment: int)
    requires
        count >= 0,
        aligned_handle_size >= 0,
        group_alignment > 0,
    ensures
        spec_is_aligned(spec_region_size(count, aligned_handle_size, group_alignment), group_alignment),
        count * aligned_handle_size <= spec_region_size(count, aligned_handle_size, group_alignment),
        count * aligned_handle_size >= 0,
{
    assert(count * aligned_handle_size >= 0) by (nonlinear_arith)
        requires
            count >= 0,
            aligned_handle_size >= 0,
    ;
    lemma_align_up_bounds(count * aligned_handle_size, group_alignment);
}

/// The layout of a shader binding table, for any counts of shader groups
/// for which there is a table at the address: the raygen region has its size as
/// its stride, the size of every region is a multiple of the group base
/// alignment, each region begins where the one before it ends, and the four
/// regions together are the whole table.
pub proof fn lemma_layout_is_aligned_and_contiguous(
    raygen_count: u32,
    miss_count: u32,
    hit_count: u32,
    callable_count: u32,
    handle_size: u32,
    handle_alignment: u32,
    group_alignment: u32,
    address: u64,
)
    requires
        HalaShaderBindingTable::spec_layout(
            raygen_count,
            miss_count,
            hit_count,
            callable_count,
            handle_size,
            handle_alignment,
            group_alignment,
        ) is Ok,
        address + HalaShaderBindingTableLayout::spec_new(
            raygen_count,
            miss_count,
            hit_count,
            callable_count,
            handle_size,
            handle_alignment,
            group_alignment,
        ).spec_total_size() <= u64::MAX,
    ensures
        ({
            let layout = HalaShaderBindingTableLayout::spec_new(
                raygen_count,
                miss_count,
                hit_count,
                callable_count,
                handle_size,
                handle_alignment,
                group_alignment,
            );
            let (raygen, miss, hit, callable) = layout.spec_regions(address);
            &&& layout.wf()
            &&& raygen.stride == raygen.size
            &&& spec_is_aligned(raygen.size as int, group_alignment as int)
            &&& spec_is_aligned(miss.size as int, group_alignment as int)
            &&& spec_is_aligned(hit.size as int, group_alignment as int)
            &&& spec_is_aligned(callable.size as int, group_alignment as int)
            &&& spec_is_aligned(layout.spec_total_size(), group_alignment as int)
            &&& raygen.device_address == address
            &&& miss.device_address == raygen.device_address + raygen.size
            &&& hit.device_address == miss.device_address + miss.size
            &&& callable.device_address == hit.device_address + hit.size
            &&& callable.device_address + callable.size == address + layout.spec_total_size()
            &&& layout.spec_total_size() == raygen.size + miss.size + hit.size + callable.size
            &&& spec_is_aligned(layout.aligned_handle_size as int, handle_alignment as int)
        }),
{
    let aligned = spec_align_up(handle_size as int, handle_alignment as int);
    let group = group_alignment as int;
    lemma_align_up_bounds(handle_size as int, handle_alignment as int);
    lemma_region_size(raygen_count as int, aligned, group);
    lemma_region_size(miss_count as int, aligned, group);
    lemma_region_size(hit_count as int, aligned, group);
    lemma_region_size(callable_count as int, aligned, group);
    let r = spec_region_size(raygen_count as int, aligned, group);
    let m = spec_region_size(miss_count as int, aligned, group);
    let h = spec_region_size(hit_count as int, aligned, group);
    let c = spec_region_size(callable_count as int, aligned, group);
    lemma_aligned_sum(r, m, group);
    lemma_aligned_sum(r + m, h, group);
    lemma_aligned_sum(r + m + h, c, group);
}

/// Appends `count` zero bytes.
fn append_zeros(data: &mut Vec<u8>, count: usize)
    requires
        old(data)@.len() + count <= usize::MAX,
    ensures
        final(data)@ == old(data)@ + Seq::new(count as nat, |i: int| 0u8),
{
    let mut i: usize = 0;
    while i < count
        invariant
            i <= count,
            old(data)@.len() + count <= usize::MAX,
            data@ == old(data)@ + Seq::new(i as nat, |i: int| 0u8),
        decreases count - i,
    {
        data.push(0u8);
        i = i + 1;
    }
}

/// The padded records of a region lie before its padding: a position at or
/// past the end of the last record belongs to no record.
proof fn lemma_position_past_records(count: int, aligned_handle_size: int, position: int)
    requires
        count >= 0,
        aligned_handle_size > 0,
        position >= count * aligned_handle_size,
    ensures
        position / aligned_handle_size >= count,
{
    let q = position / aligned_handle_size;
    lemma_fundamental_div_mod(position, aligned_handle_size);
    if q < count {
        lemma_mul_inequality(q + 1, count, aligned_handle_size);
        assert((q + 1) * aligned_handle_size == aligned_handle_size * q + aligned_handle_size)
            by (nonlinear_arith);
    }
}

/// Appends one region of the table: `count` handles from handle number
/// `first` of the block on, each followed by zeros up to the padded handle
/// size, and zeros after the last up to the size of the region.
fn append_region(
    data: &mut Vec<u8>,
    handles: &[u8],
    Ghost(first): Ghost<int>,
    base: usize,
    count: usize,
    handle_size: usize,
    aligned_handle_size: usize,
    region_size: usize,
)
    requires
        first >= 0,
        base == first * handle_size,
        handle_size <= aligned_handle_size,
        count * aligned_handle_size <= region_size,
        (first + count) * handle_size <= handles@.len(),
        old(data)@.len() + region_size <= usize::MAX,
    ensures
        final(data)@ == old(data)@ + Seq::new(
            region_size as nat,
            |position: int|
                spec_region_byte(
                    handles@,
                    first,
                    count as int,
                    handle_size as int,
                    aligned_handle_size as int,
                    position,
                ),
        ),
{
    let ghost start = data@;
    let ghost byte = |position: int|
        spec_region_byte(
            handles@,
            first,
            count as int,
            handle_size as int,
            aligned_handle_size as int,
            position,
        );
    let mut record: usize = 0;
    let mut source: usize = 0;
    let available: usize = handles.len();
    while record < count
        invariant
            first >= 0,
            record <= count,
            handle_size <= aligned_handle_size,
            count * aligned_handle_size <= region_size,
            (first + count) * handle_size <= handles@.len() <= usize::MAX,
            start.len() + region_size <= usize::MAX,
            base == first * handle_size,
            source == record * handle_size,
            byte == |position: int|
                spec_region_byte(
                    handles@,
                    first,
                    count as int,
                    handle_size as int,
                    aligned_handle_size as int,
                    position,
                ),
            data@ == start + Seq::new((record * aligned_handle_size) as nat, byte),
            record * aligned_handle_size <= count * aligned_handle_size,
        decreases count - record,
    {
        let ghost offset = record * aligned_handle_size;
        proof {
            assert((first + record) * handle_size + handle_size <= (first + count) * handle_size)
                by (nonlinear_arith)
                requires
                    record < count,
                    first >= 0,
                    handle_size >= 0,
            ;
            assert((first + record) * handle_size == first * handle_size + record * handle_size)
                by (nonlinear_arith);
            assert((record + 1) * aligned_handle_size == record * aligned_handle_size
                + aligned_handle_size) by (nonlinear_arith);
            assert((record + 1) * aligned_handle_size <= count * aligned_handle_size)
                by (nonlinear_arith)
                requires
                    record < count,
                    aligned_handle_size >= 0,
            ;
            assert((record + 1) * handle_size == record * handle_size + handle_size)
                by (nonlinear_arith);
        }
        let mut within: usize = 0;
        while within < handle_size
            invariant
                within <= handle_size <= aligned_handle_size,
                record < count,
                offset == record * aligned_handle_size,
                offset + aligned_handle_size <= count * aligned_handle_size <= region_size,
                start.len() + region_size <= usize::MAX,
                base + source + handle_size <= handles@.len() <= usize::MAX,
                base + source == (first + record) * handle_size,
                byte == |position: int|
                    spec_region_byte(
                        handles@,
                        first,
                        count as int,
                        handle_size as int,
                        aligned_handle_size as int,
                        position,
                    ),
                data@ == start + Seq::new((offset + within) as nat, byte),
            decreases handle_size - within,
        {
            let value: u8 = handles[base + source + within];
            data.push(value);
            proof {
                lemma_fundamental_div_mod_converse(
                    offset + within,
                    aligned_handle_size as int,
                    record as int,
                    within as int,
                );
            }
            within = within + 1;
        }
        while within < aligned_handle_size
            invariant
                handle_size <= within <= aligned_handle_size,
                record < count,
                offset == record * aligned_handle_size,
                offset + aligned_handle_size <= count * aligned_handle_size <= region_size,
                start.len() + region_size <= usize::MAX,
                byte == |position: int|
                    spec_region_byte(
                        handles@,
                        first,
                        count as int,
                        handle_size as int,
                        aligned_handle_size as int,
                        position,
                    ),
                data@ == start + Seq::new((offset + within) as nat, byte),
            decreases aligned_handle_size - within,
        {
            data.push(0u8);
            proof {
                lemma_fundamental_div_mod_converse(
                    offset + within,
                    aligned_handle_size as int,
                    record as int,
                    within as int,
                );
            }
            within = within + 1;
        }
        source = source + handle_size;
        record = record + 1;
    }
    let mut position: usize = count * aligned_handle_size;
    while position < region_size
        invariant
            handle_size <= aligned_handle_size,
            count * aligned_handle_size <= position <= region_size,
            start.len() + region_size <= usize::MAX,
            byte == |position: int|
                spec_region_byte(
                    handles@,
                    first,
                    count as int,
                    handle_size as int,
                    aligned_handle_size as int,
                    position,
                ),
            data@ == start + Seq::new(position as nat, byte),
        decreases region_size - position,
    {
        data.push(0u8);
        proof {
            if aligned_handle_size > 0 {
                lemma_position_past_records(
                    count as int,
                    aligned_handle_size as int,
                    position as int,
                );
            } else {
            }
        }
        position = position + 1;
    }
}

impl HalaShaderBindingTable {
    /// What `layout` returns: the layout, or the reason why there is none.
    pub open spec fn spec_layout(
        raygen_count: u32,
        miss_count: u32,
        hit_count: u32,
        callable_count: u32,
        handle_size: u32,
        handle_alignment: u32,
        group_alignment: u32,
    ) -> Result<HalaShaderBindingTableLayout, HalaGfxErrorView> {
        let aligned = spec_align_up(handle_size as int, handle_alignment as int);
        let group = group_alignment as int;
        if handle_alignment == 0 || group_alignment == 0 {
            Err(HalaGfxError::spec_plain("The shader group alignments must not be zero."@))
        } else if spec_region_size(raygen_count as int, aligned, group) + spec_region_size(
            miss_count as int,
            aligned,
            group,
        ) + spec_region_size(hit_count as int, aligned, group) + spec_region_size(
            callable_count as int,
            aligned,
            group,
        ) > u64::MAX {
            Err(HalaGfxError::spec_plain("The shader binding table is too large."@))
        } else {
            Ok(
                HalaShaderBindingTableLayout::spec_new(
                    raygen_count,
                    miss_count,
                    hit_count,
                    callable_count,
                    handle_size,
                    handle_alignment,
                    group_alignment,
                ),
            )
        }
    }

    /// Computes the sizes of a shader binding table for the given counts of
    /// raygen, miss, hit and callable shader groups and the limits of the
    /// device: a handle is padded up to the handle alignment, and each
    /// region, made of its padded handles, is padded up to the group base
    /// alignment. There is no layout for an alignment of zero, nor for a
    /// table whose size passes 64 bits.
    pub fn layout(
        raygen_count: u32,
        miss_count: u32,
        hit_count: u32,
        callable_count: u32,
        handle_size: u32,
        handle_alignment: u32,
        group_alignment: u32,
    ) -> (result: Result<HalaShaderBindingTableLayout, HalaGfxError>)
        ensures
            match Self::spec_layout(
                raygen_count,
                miss_count,
                hit_count,
                callable_count,
                handle_size,
                handle_alignment,
                group_alignment,
            ) {
                Ok(expected) => result == Ok::<_, HalaGfxError>(expected) && expected.wf(),
                Err(refusal) => result matches Err(e) && e@ == refusal,
            },
    {
        if handle_alignment == 0 || group_alignment == 0 {
            return Err(HalaGfxError::new("The shader group alignments must not be zero.", None));
        }
        proof {
            lemma_align_up_bounds(handle_size as int, handle_alignment as int);
            let aligned = spec_align_up(handle_size as int, handle_alignment as int);
            lemma_region_size(raygen_count as int, aligned, group_alignment as int);
            lemma_region_size(miss_count as int, aligned, group_alignment as int);
            lemma_region_size(hit_count as int, aligned, group_alignment as int);
            lemma_region_size(callable_count as int, aligned, group_alignment as int);
        }
        let aligned_handle_size: u64 = match align_up(handle_size as u64, handle_alignment as u64) {
            Some(aligned) => aligned,
            None => {
                return Err(HalaGfxError::new("The shader binding table is too large.", None));
            },
        };
        let raygen = Self::region_size(raygen_count, aligned_handle_size, group_alignment);
        let miss = Self::region_size(miss_count, aligned_handle_size, group_alignment);
        let hit = Self::region_size(hit_count, aligned_handle_size, group_alignment);
        let callable = Self::region_size(callable_count, aligned_handle_size, group_alignment);
        match (raygen, miss, hit, callable) {
            (Some(raygen), Some(miss), Some(hit), Some(callable)) => {
                let total = match raygen.checked_add(miss) {
                    Some(sum) => match sum.checked_add(hit) {
                        Some(sum) => sum.checked_add(callable),
                        None => None,
                    },
                    None => None,
                };
                if total.is_none() {
                    return Err(HalaGfxError::new("The shader binding table is too large.", None));
                }
                Ok(
                    HalaShaderBindingTableLayout {
                        raygen_count,
                        miss_count,
                        hit_count,
                        callable_count,
                        handle_size,
                        aligned_handle_size,
                        raygen_region_size: raygen,
                        miss_region_size: miss,
                        hit_region_size: hit,
                        callable_region_size: callable,
                    },
                )
            },
            _ => Err(HalaGfxError::new("The shader binding table is too large.", None)),
        }
    }

    /// The padded size of a region of `count` handles, if 64 bits hold it.
    fn region_size(count: u32, aligned_handle_size: u64, group_alignment: u32) -> (size: Option<u64>)
        requires
            group_alignment > 0,
        ensures
            size == if spec_region_size(
                count as int,
                aligned_handle_size as int,
                group_alignment as int,
            ) > u64::MAX {
                None
            } else {
                Some(
                    spec_region_size(
                        count as int,
                        aligned_handle_size as int,
                        group_alignment as int,
                    ) as u64,
                )
            },
    {
        proof {
            lemma_region_size(count as int, aligned_handle_size as int, group_alignment as int);
        }
        match (count as u64).checked_mul(aligned_handle_size) {
            Some(span) => align_up(span, group_alignment as u64),
            None => None,
        }
    }

    /// The number of bytes of handles that the driver is asked for: one
    /// handle for each shader group of the table. There is no such number
    /// where 64 bits do not hold it.
    pub fn handle_data_size(layout: &HalaShaderBindingTableLayout) -> (size: Option<u64>)
        ensures
            size == if layout.spec_handle_data_size() > u64::MAX {
                None
            } else {
                Some(layout.spec_handle_data_size() as u64)
            },
    {
        let groups: u64 = layout.raygen_count as u64 + layout.miss_count as u64
            + layout.hit_count as u64 + layout.callable_count as u64;
        groups.checked_mul(layout.handle_size as u64)
    }

    /// Whether a region of `count` handles at their padded size fits the
    /// size of the region.
    fn region_holds(count: u32, aligned_handle_size: u64, region_size: u64) -> (holds: bool)
        ensures
            holds == (count * aligned_handle_size <= region_size),
    {
        match (count as u64).checked_mul(aligned_handle_size) {
            Some(span) => span <= region_size,
            None => false,
        }
    }

    /// Whether each region of a layout is large enough for its handles at
    /// their padded size, and a padded handle for a handle.
    pub fn is_consistent(layout: &HalaShaderBindingTableLayout) -> (consistent: bool)
        ensures
            consistent == layout.wf(),
    {
        layout.handle_size as u64 <= layout.aligned_handle_size && Self::region_holds(
            layout.raygen_count,
            layout.aligned_handle_size,
            layout.raygen_region_size,
        ) && Self::region_holds(
            layout.miss_count,
            layout.aligned_handle_size,
            layout.miss_region_size,
        ) && Self::region_holds(layout.hit_count, layout.aligned_handle_size, layout.hit_region_size)
            && Self::region_holds(
            layout.callable_count,
            layout.aligned_handle_size,
            layout.callable_region_size,
        )
    }

    /// What `pack_handles` returns: the packed table, or the reason why
    /// there is none.
    pub open spec fn spec_pack_handles(layout: HalaShaderBindingTableLayout, handles: Seq<u8>) -> Result<
        Seq<u8>,
        HalaGfxErrorView,
    > {
        if !layout.wf() {
            Err(HalaGfxError::spec_plain("The shader binding table layout is inconsistent."@))
        } else if handles.len() != layout.spec_handle_data_size() {
            Err(
                HalaGfxError::spec_plain(
                    "The shader group handles do not match the shader binding table."@,
                ),
            )
        } else if layout.spec_total_size() > usize::MAX {
            Err(HalaGfxError::spec_plain("The shader binding table is too large."@))
        } else {
            Ok(layout.spec_table(handles))
        }
    }

    /// Packs the block of handles that the driver returned into the bytes
    /// of the table: region after region, each handle followed by zeros up
    /// to its padded size, each region followed by zeros up to its padded
    /// size. A layout whose regions do not hold their handles is refused;
    /// the block must hold one handle for each group of the layout, and the
    /// table must fit the address space of the host.
    pub fn pack_handles(layout: &HalaShaderBindingTableLayout, handles: &[u8]) -> (result: Result<
        Vec<u8>,
        HalaGfxError,
    >)
        ensures
            match Self::spec_pack_handles(*layout, handles@) {
                Ok(table) => result matches Ok(data) && data@ == table,
                Err(refusal) => result matches Err(e) && e@ == refusal,
            },
    {
        if !Self::is_consistent(layout) {
            return Err(HalaGfxError::new("The shader binding table layout is inconsistent.", None));
        }
        if Self::handle_data_size(layout) != Some(handles.len() as u64) {
            return Err(
                HalaGfxError::new(
                    "The shader group handles do not match the shader binding table.",
                    None,
                ),
            );
        }
        let total: u64 = match layout.raygen_region_size.checked_add(layout.miss_region_size) {
            Some(sum) => match sum.checked_add(layout.hit_region_size) {
                Some(sum) => match sum.checked_add(layout.callable_region_size) {
                    Some(sum) => sum,
                    None => {
                        return Err(
                            HalaGfxError::new("The shader binding table is too large.", None),
                        );
                    },
                },
                None => {
                    return Err(HalaGfxError::new("The shader binding table is too large.", None));
                },
            },
            None => {
                return Err(HalaGfxError::new("The shader binding table is too large.", None));
            },
        };
        if total > usize::MAX as u64 {
            return Err(HalaGfxError::new("The shader binding table is too large.", None));
        }
        let handle_size: usize = layout.handle_size as usize;
        let aligned: usize = if layout.aligned_handle_size <= total {
            layout.aligned_handle_size as usize
        } else {
            // No region holds a record, so no byte is read at this size.
            handle_size
        };
        let raygen_count: usize = layout.raygen_count as usize;
        let miss_count: usize = layout.miss_count as usize;
        let hit_count: usize = layout.hit_count as usize;
        let callable_count: usize = layout.callable_count as usize;
        proof {
            let hs = layout.handle_size as int;
            let r = layout.raygen_count as int;
            let m = layout.miss_count as int;
            let h = layout.hit_count as int;
            let c = layout.callable_count as int;
            assert((r + m + h + c) * hs == r * hs + m * hs + h * hs + c * hs) by (nonlinear_arith);
            assert((r + m) * hs == r * hs + m * hs) by (nonlinear_arith);
            assert((r + m + h) * hs == r * hs + m * hs + h * hs) by (nonlinear_arith);
            assert(r * hs >= 0 && m * hs >= 0 && h * hs >= 0 && c * hs >= 0) by (nonlinear_arith)
                requires
                    r >= 0,
                    m >= 0,
                    h >= 0,
                    c >= 0,
                    hs >= 0,
            ;
            if layout.aligned_handle_size > total {
                let a = layout.aligned_handle_size as int;
                assert(r == 0 && m == 0 && h == 0 && c == 0) by (nonlinear_arith)
                    requires
                        r >= 0,
                        m >= 0,
                        h >= 0,
                        c >= 0,
                        r * a + m * a + h * a + c * a < a,
                        a > 0,
                ;
            }
        }
        if layout.aligned_handle_size > total {
            let mut data: Vec<u8> = Vec::new();
            append_zeros(&mut data, total as usize);
            return Ok(data);
        }
        let mut data: Vec<u8> = Vec::new();
        let miss_base: usize = raygen_count * handle_size;
        let hit_base: usize = miss_base + miss_count * handle_size;
        let callable_base: usize = hit_base + hit_count * handle_size;
        append_region(
            &mut data,
            handles,
            Ghost(0),
            0,
            raygen_count,
            handle_size,
            aligned,
            layout.raygen_region_size as usize,
        );
        append_region(
            &mut data,
            handles,
            Ghost(layout.raygen_count as int),
            miss_base,
            miss_count,
            handle_size,
            aligned,
            layout.miss_region_size as usize,
        );
        append_region(
            &mut data,
            handles,
            Ghost(layout.raygen_count + layout.miss_count),
            hit_base,
            hit_count,
            handle_size,
            aligned,
            layout.hit_region_size as usize,
        );
        append_region(
            &mut data,
            handles,
            Ghost(layout.raygen_count + layout.miss_count + layout.hit_count),
            callable_base,
            callable_count,
            handle_size,
            aligned,
            layout.callable_region_size as usize,
        );
        Ok(data)
    }

    /// What the buffer of the table is created from: as large as the table,
    /// in device-only memory, addressable by shaders, usable as a shader
    /// binding table and as the destination of the upload. A table whose
    /// size passes 64 bits has no buffer.
    pub fn buffer_desc(layout: &HalaShaderBindingTableLayout, debug_name: &str) -> (result: Result<
        HalaBufferDesc,
        HalaGfxError,
    >)
        ensures
            layout.spec_total_size() > u64::MAX ==> (result matches Err(e) && e@
                == HalaGfxError::spec_plain("The shader binding table is too large."@)),
            layout.spec_total_size() <= u64::MAX ==> (result matches Ok(desc) && desc.size
                == layout.spec_total_size() && desc.usage_flags.0
                == HalaBufferUsageFlags::SHADER_DEVICE_ADDRESS
                | HalaBufferUsageFlags::SHADER_BINDING_TABLE | HalaBufferUsageFlags::TRANSFER_DST
                && desc.memory_location is GpuOnly && !desc.use_managed_memory
                && desc.debug_name@ == debug_name@ + "_buffer"@),
    {
        let total = match layout.raygen_region_size.checked_add(layout.miss_region_size) {
            Some(sum) => match sum.checked_add(layout.hit_region_size) {
                Some(sum) => sum.checked_add(layout.callable_region_size),
                None => None,
            },
            None => None,
        };
        match total {
            Some(size) => Ok(
                HalaBufferDesc {
                    size,
                    usage_flags: HalaBufferUsageFlags::from_raw(
                        HalaBufferUsageFlags::SHADER_DEVICE_ADDRESS
                            | HalaBufferUsageFlags::SHADER_BINDING_TABLE
                            | HalaBufferUsageFlags::TRANSFER_DST,
                    ),
                    memory_location: HalaMemoryLocation::GpuOnly,
                    use_managed_memory: false,
                    debug_name: debug_name.to_owned().concat("_buffer"),
                },
            ),
            None => Err(HalaGfxError::new("The shader binding table is too large.", None)),
        }
    }

    /// The table in `buffer`, whose device address is `address`: the four
    /// regions lie one after the other from the address on. The stride of
    /// the raygen region is its size; the stride of every other region is
    /// the padded handle size. A table that would pass the end of the
    /// address range is refused.
    pub fn new(layout: &HalaShaderBindingTableLayout, buffer: HalaBuffer, address: u64) -> (result:
        Result<Self, HalaGfxError>)
        ensures
            address + layout.spec_total_size() > u64::MAX ==> (result matches Err(e) && e@
                == HalaGfxError::spec_plain(
                "The shader binding table exceeds the device address range."@,
            )),
            address + layout.spec_total_size() <= u64::MAX ==> (result matches Ok(table) && table
                == (HalaShaderBindingTable {
                raygen_region: layout.spec_regions(address).0,
                miss_region: layout.spec_regions(address).1,
                hit_region: layout.spec_regions(address).2,
                callable_region: layout.spec_regions(address).3,
                buffer,
            })),
    {
        let miss_address = address.checked_add(layout.raygen_region_size);
        let hit_address = match miss_address {
            Some(a) => a.checked_add(layout.miss_region_size),
            None => None,
        };
        let callable_address = match hit_address {
            Some(a) => a.checked_add(layout.hit_region_size),
            None => None,
        };
        let end = match callable_address {
            Some(a) => a.checked_add(layout.callable_region_size),
            None => None,
        };
        match (miss_address, hit_address, callable_address, end) {
            (Some(miss_address), Some(hit_address), Some(callable_address), Some(_)) => Ok(
                HalaShaderBindingTable {
                    raygen_region: HalaStridedDeviceAddressRegion {
                        device_address: address,
                        stride: layout.raygen_region_size,
                        size: layout.raygen_region_size,
                    },
                    miss_region: HalaStridedDeviceAddressRegion {
                        device_address: miss_address,
                        stride: layout.aligned_handle_size,
                        size: layout.miss_region_size,
                    },
                    hit_region: HalaStridedDeviceAddressRegion {
                        device_address: hit_address,
                        stride: layout.aligned_handle_size,
                        size: layout.hit_region_size,
                    },
                    callable_region: HalaStridedDeviceAddressRegion {
                        device_address: callable_address,
                        stride: layout.aligned_handle_size,
                        size: layout.callable_region_size,
                    },
                    buffer,
                },
            ),
            _ => Err(
                HalaGfxError::new("The shader binding table exceeds the device address range.", None),
            ),
        }
    }
}

} // verus!
