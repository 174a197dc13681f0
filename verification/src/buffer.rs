//! Buffers: copies through mapped memory, and transfers to and from
//! device-only memory through a staging buffer.

use crate::command_buffer::HalaCommandBufferSet;
use crate::device::{HalaCallSequence, HalaCommand, HalaDeviceCall, HalaObjectKind};
use crate::error::{HalaGfxError, HalaGfxErrorView};
use crate::logical_device::{HalaLogicalDevice, HalaMemoryLocation};
use crate::model::{spec_copy_bytes, spec_execute_command};
use vstd::prelude::*;

verus! {

/// The buffer usage flags.
#[derive(Clone, Copy, PartialEq, Eq, Structural, PartialOrd, Ord, Hash, Debug)]
pub struct HalaBufferUsageFlags(pub u32);

impl Default for HalaBufferUsageFlags {
    fn default() -> (value: Self)
        ensures
            value.0 == 0,
    {
        Self(0)
    }
}

impl HalaBufferUsageFlags {
    pub const TRANSFER_SRC: u32 = 1;
    pub const TRANSFER_DST: u32 = 2;
    pub const UNIFORM_TEXEL_BUFFER: u32 = 4;
    pub const STORAGE_TEXEL_BUFFER: u32 = 8;
    pub const UNIFORM_BUFFER: u32 = 0x10;
    pub const STORAGE_BUFFER: u32 = 0x20;
    pub const INDEX_BUFFER: u32 = 0x40;
    pub const VERTEX_BUFFER: u32 = 0x80;
    pub const INDIRECT_BUFFER: u32 = 0x100;
    pub const SHADER_DEVICE_ADDRESS: u32 = 0x20000;
    pub const ACCELERATION_STRUCTURE_STORAGE: u32 = 0x100000;
    pub const ACCELERATION_STRUCTURE_BUILD_INPUT_READ_ONLY: u32 = 0x80000;
    pub const SHADER_BINDING_TABLE: u32 = 0x400;

    /// The value with no bit set.
    pub fn empty() -> (value: Self)
        ensures
            value.0 == 0,
    {
        Self(0)
    }

    /// The value with the given raw bits.
    pub fn from_raw(x: u32) -> (value: Self)
        ensures
            value.0 == x,
    {
        Self(x)
    }

    /// The raw bits of the value.
    pub fn as_raw(self) -> (x: u32)
        ensures
            x == self.0,
    {
        self.0
    }

    /// Whether no bit is set.
    pub fn is_empty(self) -> (b: bool)
        ensures
            b == (self.0 == 0),
    {
        self.0 == 0
    }

    /// Whether the two values share a bit.
    pub fn intersects(self, other: Self) -> (b: bool)
        ensures
            b == (self.0 & other.0 != 0),
    {
        self.0 & other.0 != 0
    }

    /// Whether every bit of `other` is set in `self`.
    pub fn contains(self, other: Self) -> (b: bool)
        ensures
            b == (self.0 & other.0 == other.0),
    {
        self.0 & other.0 == other.0
    }
}

impl core::ops::BitOr for HalaBufferUsageFlags {
    type Output = Self;

    fn bitor(self, rhs: Self) -> (value: Self) {
        Self(self.0 | rhs.0)
    }
}

impl vstd::std_specs::ops::BitOrSpecImpl for HalaBufferUsageFlags {
    open spec fn obeys_bitor_spec() -> bool {
        true
    }

    open spec fn bitor_req(self, rhs: Self) -> bool {
        true
    }

    open spec fn bitor_spec(self, rhs: Self) -> Self {
        Self(self.0 | rhs.0)
    }
}

impl core::ops::BitAnd for HalaBufferUsageFlags {
    type Output = Self;

    fn bitand(self, rhs: Self) -> (value: Self) {
        Self(self.0 & rhs.0)
    }
}

impl vstd::std_specs::ops::BitAndSpecImpl for HalaBufferUsageFlags {
    open spec fn obeys_bitand_spec() -> bool {
        true
    }

    open spec fn bitand_req(self, rhs: Self) -> bool {
        true
    }

    open spec fn bitand_spec(self, rhs: Self) -> Self {
        Self(self.0 & rhs.0)
    }
}

impl core::ops::BitXor for HalaBufferUsageFlags {
    type Output = Self;

    fn bitxor(self, rhs: Self) -> (value: Self) {
        Self(self.0 ^ rhs.0)
    }
}

impl vstd::std_specs::ops::BitXorSpecImpl for HalaBufferUsageFlags {
    open spec fn obeys_bitxor_spec() -> bool {
        true
    }

    open spec fn bitxor_req(self, rhs: Self) -> bool {
        true
    }

    open spec fn bitxor_spec(self, rhs: Self) -> Self {
        Self(self.0 ^ rhs.0)
    }
}

impl core::ops::Not for HalaBufferUsageFlags {
    type Output = Self;

    fn not(self) -> (value: Self) {
        Self(!self.0)
    }
}

impl vstd::std_specs::ops::NotSpecImpl for HalaBufferUsageFlags {
    open spec fn obeys_not_spec() -> bool {
        true
    }

    open spec fn not_req(self) -> bool {
        true
    }

    open spec fn not_spec(self) -> Self {
        Self(!self.0)
    }
}

/// What a buffer is created from.
#[derive(Debug)]
pub struct HalaBufferDesc {
    pub size: u64,
    pub usage_flags: HalaBufferUsageFlags,
    pub memory_location: HalaMemoryLocation,
    /// Whether the memory comes out of a block that the allocator shares
    /// between resources, instead of a block of the buffer's own.
    pub use_managed_memory: bool,
    pub debug_name: String,
}

/// The buffer: a device resource by its native handle, its size in bytes
/// and the location of its memory.
#[derive(Clone, Copy, PartialEq, Eq, Structural, Debug)]
pub struct HalaBuffer {
    pub raw: u64,
    pub memory_location: HalaMemoryLocation,
    pub size: u64,
}

/// The number of bytes that a copy moves: no more than the source holds and
/// no more than the destination takes.
pub open spec fn spec_copy_len(src_bytes: int, dst_bytes: int) -> int {
    if src_bytes <= dst_bytes {
        src_bytes
    } else {
        dst_bytes
    }
}

/// The number of bytes that a copy moves: the smaller of what the source
/// holds and what the destination takes.
pub fn copy_len(src_bytes: usize, dst_bytes: u64) -> (len: usize)
    ensures
        len == spec_copy_len(src_bytes as int, dst_bytes as int),
{
    if dst_bytes < src_bytes as u64 {
        dst_bytes as usize
    } else {
        src_bytes
    }
}

impl HalaBuffer {
    /// What `update_memory` leaves in the mapped memory, or the error with
    /// which it refuses.
    pub open spec fn spec_update_memory(self, offset: int, data: Seq<u8>, mapped: Seq<u8>) -> Result<
        Seq<u8>,
        HalaGfxErrorView,
    > {
        let len = spec_copy_len(data.len() as int, self.size as int);
        if self.memory_location is GpuOnly {
            Err(HalaGfxError::spec_plain("Cannot update memory of a GPU only buffer."@))
        } else if offset + len > mapped.len() {
            Err(HalaGfxError::spec_plain("Cannot update memory beyond the mapped range."@))
        } else {
            Ok(spec_copy_bytes(mapped, offset, data, 0, len))
        }
    }

    /// What `download_memory` leaves in `data`, or the error with which it
    /// refuses.
    pub open spec fn spec_download_memory(self, offset: int, data: Seq<u8>, mapped: Seq<u8>) -> Result<
        Seq<u8>,
        HalaGfxErrorView,
    > {
        let len = spec_copy_len(self.size as int, data.len() as int);
        if self.memory_location is GpuOnly {
            Err(HalaGfxError::spec_plain("Cannot download memory of a GPU only buffer."@))
        } else if offset + len > mapped.len() {
            Err(HalaGfxError::spec_plain("Cannot download memory beyond the mapped range."@))
        } else {
            Ok(spec_copy_bytes(data, 0, mapped, offset, len))
        }
    }

    /// The command that copies from a staging buffer into this buffer, or
    /// back: as many bytes as both buffers hold, from the start of each.
    pub open spec fn spec_staging_copy(self, command_buffer: u64, staging: HalaBuffer, upload: bool) -> HalaDeviceCall {
        let (src_buffer, dst_buffer) = if upload {
            (staging.raw, self.raw)
        } else {
            (self.raw, staging.raw)
        };
        HalaDeviceCall::Record {
            command_buffer,
            command: HalaCommand::CopyBuffer {
                src_buffer,
                dst_buffer,
                src_offset: 0,
                dst_offset: 0,
                size: spec_copy_len(staging.size as int, self.size as int) as u64,
            },
        }
    }

    /// The calls with which a transfer between this buffer and a staging
    /// buffer is submitted, or the error with which the transfer is refused.
    pub open spec fn spec_staging_transfer(
        self,
        staging: HalaBuffer,
        command_buffers: HalaCommandBufferSet,
        logical_device: HalaLogicalDevice,
        upload: bool,
    ) -> Result<Seq<HalaDeviceCall>, HalaGfxErrorView> {
        match logical_device.spec_queue_for(command_buffers.command_buffer_type, 0) {
            None => Err(HalaGfxError::spec_plain("Invalid command buffer type."@)),
            Some(queue) => Ok(
                HalaLogicalDevice::spec_execute_and_submit(
                    command_buffers.raw@[0],
                    seq![self.spec_staging_copy(command_buffers.raw@[0], staging, upload)],
                    queue,
                ),
            ),
        }
    }

    /// The record of a buffer that was created with the given handle.
    pub fn new(raw: u64, size: u64, memory_location: HalaMemoryLocation) -> (buffer: Self)
        ensures
            buffer == (HalaBuffer { raw, memory_location, size }),
    {
        HalaBuffer { raw, memory_location, size }
    }

    /// The calls that give the buffer up: the handle is destroyed first, the
    /// memory behind it is freed after that.
    pub fn destroy(self) -> (calls: Vec<HalaDeviceCall>)
        ensures
            calls@ == seq![
                HalaDeviceCall::Destroy { kind: HalaObjectKind::Buffer, handle: self.raw },
                HalaDeviceCall::Destroy { kind: HalaObjectKind::Allocation, handle: self.raw },
            ],
    {
        let mut calls: Vec<HalaDeviceCall> = Vec::new();
        calls.push(HalaDeviceCall::Destroy { kind: HalaObjectKind::Buffer, handle: self.raw });
        calls.push(HalaDeviceCall::Destroy { kind: HalaObjectKind::Allocation, handle: self.raw });
        calls
    }

    /// Writes `data` into the mapped memory of the buffer, `offset` bytes
    /// from its start. The number of bytes written is the length of `data`,
    /// or the size of the buffer where that is smaller. A buffer whose
    /// memory the host cannot reach is refused, and so is a write that would
    /// pass the end of the mapped memory; then nothing is written.
    pub fn update_memory(&self, offset: usize, data: &[u8], mapped: &mut [u8]) -> (result: Result<
        (),
        HalaGfxError,
    >)
        ensures
            match self.spec_update_memory(offset as int, data@, old(mapped)@) {
                Ok(written) => result is Ok && final(mapped)@ == written,
                Err(refusal) => result matches Err(e) && e@ == refusal && final(mapped)@ == old(
                    mapped,
                )@,
            },
    {
        if let HalaMemoryLocation::GpuOnly = self.memory_location {
            return Err(HalaGfxError::new("Cannot update memory of a GPU only buffer.", None));
        }
        let len: usize = copy_len(data.len(), self.size);
        if offset > mapped.len() || len > mapped.len() - offset {
            return Err(HalaGfxError::new("Cannot update memory beyond the mapped range.", None));
        }
        let mut i: usize = 0;
        while i < len
            invariant
                i <= len <= data@.len(),
                offset + len <= mapped@.len() <= usize::MAX,
                mapped@.len() == old(mapped)@.len(),
                mapped@ == spec_copy_bytes(old(mapped)@, offset as int, data@, 0, i as int),
            decreases len - i,
        {
            mapped[offset + i] = data[i];
            assert(mapped@ =~= spec_copy_bytes(old(mapped)@, offset as int, data@, 0, i + 1));
            i = i + 1;
        }
        Ok(())
    }

    /// Reads the mapped memory of the buffer, from `offset` bytes after its
    /// start on, into `data`. The number of bytes read is the size of the
    /// buffer, or the length of `data` where that is smaller. A buffer whose
    /// memory the host cannot reach is refused, and so is a read that would
    /// pass the end of the mapped memory; then `data` is left as it is.
    pub fn download_memory(&self, offset: usize, data: &mut [u8], mapped: &[u8]) -> (result: Result<
        (),
        HalaGfxError,
    >)
        ensures
            match self.spec_download_memory(offset as int, old(data)@, mapped@) {
                Ok(read) => result is Ok && final(data)@ == read,
                Err(refusal) => result matches Err(e) && e@ == refusal && final(data)@ == old(
                    data,
                )@,
            },
    {
        if let HalaMemoryLocation::GpuOnly = self.memory_location {
            return Err(HalaGfxError::new("Cannot download memory of a GPU only buffer.", None));
        }
        let len: usize = copy_len(data.len(), self.size);
        if offset > mapped.len() || len > mapped.len() - offset {
            return Err(HalaGfxError::new("Cannot download memory beyond the mapped range.", None));
        }
        let mut i: usize = 0;
        while i < len
            invariant
                i <= len <= data@.len(),
                offset + len <= mapped@.len() <= usize::MAX,
                data@.len() == old(data)@.len(),
                data@ == spec_copy_bytes(old(data)@, 0, mapped@, offset as int, i as int),
            decreases len - i,
        {
            data[i] = mapped[offset + i];
            assert(data@ =~= spec_copy_bytes(old(data)@, 0, mapped@, offset as int, i + 1));
            i = i + 1;
        }
        Ok(())
    }

    /// The staging buffer that an upload of `len` bytes into this buffer
    /// needs: host-visible, a source of transfers, as large as the payload.
    /// Only a buffer in device-only memory is uploaded to through staging.
    pub fn update_gpu_memory(&self, len: usize) -> (result: Result<HalaBufferDesc, HalaGfxError>)
        ensures
            match result {
                Ok(desc) => {
                    &&& self.memory_location is GpuOnly
                    &&& desc.size == len
                    &&& desc.usage_flags == HalaBufferUsageFlags(HalaBufferUsageFlags::TRANSFER_SRC)
                    &&& desc.memory_location is CpuToGpu
                    &&& !desc.use_managed_memory
                    &&& desc.debug_name@ == "staging_buffer"@
                },
                Err(e) => {
                    &&& !(self.memory_location is GpuOnly)
                    &&& e@ == HalaGfxError::spec_plain(
                        "Cannot update GPU memory of a non GPU only buffer."@,
                    )
                },
            },
    {
        if let HalaMemoryLocation::GpuOnly = self.memory_location {
            Ok(
                HalaBufferDesc {
                    size: len as u64,
                    usage_flags: HalaBufferUsageFlags::from_raw(HalaBufferUsageFlags::TRANSFER_SRC),
                    memory_location: HalaMemoryLocation::CpuToGpu,
                    use_managed_memory: false,
                    debug_name: "staging_buffer".to_owned(),
                },
            )
        } else {
            Err(HalaGfxError::new("Cannot update GPU memory of a non GPU only buffer.", None))
        }
    }

    /// The staging buffer that a download of `len` bytes from this buffer
    /// needs: host-visible, a destination of transfers, as large as the
    /// bytes asked for. Only a buffer in device-only memory is downloaded
    /// from through staging.
    pub fn download_gpu_memory(&self, len: usize) -> (result: Result<HalaBufferDesc, HalaGfxError>)
        ensures
            match result {
                Ok(desc) => {
                    &&& self.memory_location is GpuOnly
                    &&& desc.size == len
                    &&& desc.usage_flags == HalaBufferUsageFlags(HalaBufferUsageFlags::TRANSFER_DST)
                    &&& desc.memory_location is CpuToGpu
                    &&& !desc.use_managed_memory
                    &&& desc.debug_name@ == "staging_buffer"@
                },
                Err(e) => {
                    &&& !(self.memory_location is GpuOnly)
                    &&& e@ == HalaGfxError::spec_plain(
                        "Cannot update GPU memory of a non GPU only buffer."@,
                    )
                },
            },
    {
        if let HalaMemoryLocation::GpuOnly = self.memory_location {
            Ok(
                HalaBufferDesc {
                    size: len as u64,
                    usage_flags: HalaBufferUsageFlags::from_raw(HalaBufferUsageFlags::TRANSFER_DST),
                    memory_location: HalaMemoryLocation::CpuToGpu,
                    use_managed_memory: false,
                    debug_name: "staging_buffer".to_owned(),
                },
            )
        } else {
            Err(HalaGfxError::new("Cannot update GPU memory of a non GPU only buffer.", None))
        }
    }

    /// Uploads `data` into this device-only buffer through a staging buffer:
    /// the bytes are written into the mapped memory of the staging buffer,
    /// and the returned sequence submits, on the first command buffer of the
    /// set, the copy from the staging buffer into this one and blocks until
    /// it has run. The staging buffer must outlive the sequence.
    ///
    /// A buffer that is not in device-only memory is refused before anything
    /// is written, and so is a staging buffer that cannot take the write. A
    /// set of an unknown type is refused after the bytes have been written.
    pub fn update_gpu_memory_with_buffer(
        &self,
        data: &[u8],
        staging_buffer: &HalaBuffer,
        staging_mapped: &mut [u8],
        command_buffers: &HalaCommandBufferSet,
        logical_device: &HalaLogicalDevice,
    ) -> (result: Result<HalaCallSequence, HalaGfxError>)
        requires
            command_buffers.raw@.len() > 0,
        ensures
            !(self.memory_location is GpuOnly) ==> {
                &&& result matches Err(e)
                &&& e@ == HalaGfxError::spec_plain(
                    "Cannot update GPU memory of a non GPU only buffer."@,
                )
                &&& final(staging_mapped)@ == old(staging_mapped)@
            },
            self.memory_location is GpuOnly ==> match staging_buffer.spec_update_memory(
                0,
                data@,
                old(staging_mapped)@,
            ) {
                Err(refusal) => {
                    &&& result matches Err(e)
                    &&& e@ == refusal
                    &&& final(staging_mapped)@ == old(staging_mapped)@
                },
                Ok(written) => {
                    &&& final(staging_mapped)@ == written
                    &&& match self.spec_staging_transfer(
                        *staging_buffer,
                        *command_buffers,
                        *logical_device,
                        true,
                    ) {
                        Err(refusal) => result matches Err(e) && e@ == refusal,
                        Ok(calls) => {
                            &&& result matches Ok(sequence)
                            &&& sequence.spec_calls() == calls
                            &&& sequence.spec_position() == 0
                            &&& !sequence.spec_failed()
                        },
                    }
                },
            },
    {
        if let HalaMemoryLocation::GpuOnly = self.memory_location {
        } else {
            return Err(HalaGfxError::new("Cannot update GPU memory of a non GPU only buffer.", None));
        }
        staging_buffer.update_memory(0, data, staging_mapped)?;
        self.staging_transfer(staging_buffer, command_buffers, logical_device, true)
    }

    /// Downloads this device-only buffer into a staging buffer: the returned
    /// sequence submits, on the first command buffer of the set, the copy
    /// from this buffer into the staging buffer and blocks until it has run.
    /// After that `download_memory` of the staging buffer reads the bytes.
    pub fn download_gpu_memory_with_buffer(
        &self,
        staging_buffer: &HalaBuffer,
        command_buffers: &HalaCommandBufferSet,
        logical_device: &HalaLogicalDevice,
    ) -> (result: Result<HalaCallSequence, HalaGfxError>)
        requires
            command_buffers.raw@.len() > 0,
        ensures
            !(self.memory_location is GpuOnly) ==> {
                &&& result matches Err(e)
                &&& e@ == HalaGfxError::spec_plain(
                    "Cannot update GPU memory of a non GPU only buffer."@,
                )
            },
            self.memory_location is GpuOnly ==> match self.spec_staging_transfer(
                *staging_buffer,
                *command_buffers,
                *logical_device,
                false,
            ) {
                Err(refusal) => result matches Err(e) && e@ == refusal,
                Ok(calls) => {
                    &&& result matches Ok(sequence)
                    &&& sequence.spec_calls() == calls
                    &&& sequence.spec_position() == 0
                    &&& !sequence.spec_failed()
                },
            },
    {
        if let HalaMemoryLocation::GpuOnly = self.memory_location {
        } else {
            return Err(HalaGfxError::new("Cannot update GPU memory of a non GPU only buffer.", None));
        }
        self.staging_transfer(staging_buffer, command_buffers, logical_device, false)
    }

    /// The blocking submission of the copy between this buffer and a staging
    /// buffer, on the queue that serves the command buffers of the set.
    fn staging_transfer(
        &self,
        staging_buffer: &HalaBuffer,
        command_buffers: &HalaCommandBufferSet,
        logical_device: &HalaLogicalDevice,
        upload: bool,
    ) -> (result: Result<HalaCallSequence, HalaGfxError>)
        requires
            command_buffers.raw@.len() > 0,
        ensures
            match self.spec_staging_transfer(
                *staging_buffer,
                *command_buffers,
                *logical_device,
                upload,
            ) {
                Err(refusal) => result matches Err(e) && e@ == refusal,
                Ok(calls) => {
                    &&& result matches Ok(sequence)
                    &&& sequence.spec_calls() == calls
                    &&& sequence.spec_position() == 0
                    &&& !sequence.spec_failed()
                },
            },
    {
        let queue = match logical_device.queue_for(command_buffers.command_buffer_type, 0) {
            Some(queue) => queue,
            None => {
                return Err(HalaGfxError::new("Invalid command buffer type.", None));
            },
        };
        let size: u64 = if staging_buffer.size <= self.size {
            staging_buffer.size
        } else {
            self.size
        };
        let copy = if upload {
            HalaDeviceCall::Record {
                command_buffer: command_buffers.raw[0],
                command: HalaCommand::CopyBuffer {
                    src_buffer: staging_buffer.raw,
                    dst_buffer: self.raw,
                    src_offset: 0,
                    dst_offset: 0,
                    size,
                },
            }
        } else {
            HalaDeviceCall::Record {
                command_buffer: command_buffers.raw[0],
                command: HalaCommand::CopyBuffer {
                    src_buffer: self.raw,
                    dst_buffer: staging_buffer.raw,
                    src_offset: 0,
                    dst_offset: 0,
                    size,
                },
            }
        };
        let mut recording: Vec<HalaDeviceCall> = Vec::new();
        recording.push(copy);
        Ok(logical_device.execute_and_submit(command_buffers, 0, recording, queue))
    }
}

/// What is written into a host-visible buffer is what is read back from it:
/// a payload that fits the buffer, written at an offset and read at the same
/// offset into a slice of the payload's length, comes back unchanged.
pub proof fn lemma_host_round_trip(
    buffer: HalaBuffer,
    offset: int,
    data: Seq<u8>,
    mapped: Seq<u8>,
    out: Seq<u8>,
)
    requires
        !(buffer.memory_location is GpuOnly),
        data.len() <= buffer.size,
        0 <= offset,
        offset + data.len() <= mapped.len(),
        out.len() == data.len(),
    ensures
        buffer.spec_update_memory(offset, data, mapped) is Ok,
        buffer.spec_download_memory(
            offset,
            out,
            buffer.spec_update_memory(offset, data, mapped)->Ok_0,
        ) == Ok::<Seq<u8>, HalaGfxErrorView>(data),
{
    let written = buffer.spec_update_memory(offset, data, mapped)->Ok_0;
    assert(spec_copy_bytes(out, 0, written, offset, data.len() as int) =~= data);
}

/// A write into a buffer in device-only memory is refused with an error,
/// whatever the payload, and so is a read from it.
pub proof fn lemma_device_only_is_refused(buffer: HalaBuffer, offset: int, data: Seq<u8>, mapped: Seq<u8>)
    requires
        buffer.memory_location is GpuOnly,
    ensures
        buffer.spec_update_memory(offset, data, mapped) == Err::<Seq<u8>, HalaGfxErrorView>(
            HalaGfxError::spec_plain("Cannot update memory of a GPU only buffer."@),
        ),
        buffer.spec_download_memory(offset, data, mapped) == Err::<Seq<u8>, HalaGfxErrorView>(
            HalaGfxError::spec_plain("Cannot download memory of a GPU only buffer."@),
        ),
{
}

/// What is uploaded into a device-only buffer through staging is what is
/// downloaded from it through staging. The payload fits the buffer, both
/// staging buffers are as large as the payload, and the device holds as
/// many bytes for each buffer as its size says.
pub proof fn lemma_staged_round_trip(
    buffer: HalaBuffer,
    upload_staging: HalaBuffer,
    download_staging: HalaBuffer,
    command_buffer: u64,
    data: Seq<u8>,
    out: Seq<u8>,
    memory: Map<u64, Seq<u8>>,
)
    requires
        buffer.memory_location is GpuOnly,
        !(upload_staging.memory_location is GpuOnly),
        !(download_staging.memory_location is GpuOnly),
        data.len() <= buffer.size,
        upload_staging.size == data.len(),
        download_staging.size == data.len(),
        out.len() == data.len(),
        buffer.raw != upload_staging.raw,
        buffer.raw != download_staging.raw,
        memory.dom().contains(buffer.raw),
        memory.dom().contains(upload_staging.raw),
        memory.dom().contains(download_staging.raw),
        memory[buffer.raw].len() == buffer.size,
        memory[upload_staging.raw].len() == upload_staging.size,
        memory[download_staging.raw].len() == download_staging.size,
    ensures
        ({
            let staged = upload_staging.spec_update_memory(0, data, memory[upload_staging.raw]);
            let uploaded = spec_execute_command(
                memory.insert(upload_staging.raw, staged->Ok_0),
                buffer.spec_staging_copy(command_buffer, upload_staging, true),
            );
            let downloaded = spec_execute_command(
                uploaded,
                buffer.spec_staging_copy(command_buffer, download_staging, false),
            );
            &&& staged is Ok
            &&& download_staging.spec_download_memory(0, out, downloaded[download_staging.raw])
                == Ok::<Seq<u8>, HalaGfxErrorView>(data)
        }),
{
    let staged = upload_staging.spec_update_memory(0, data, memory[upload_staging.raw]);
    let written = staged->Ok_0;
    assert(written =~= data);
    let memory1 = memory.insert(upload_staging.raw, written);
    let uploaded = spec_execute_command(
        memory1,
        buffer.spec_staging_copy(command_buffer, upload_staging, true),
    );
    assert(uploaded[buffer.raw].subrange(0, data.len() as int) =~= data);
    let downloaded = spec_execute_command(
        uploaded,
        buffer.spec_staging_copy(command_buffer, download_staging, false),
    );
}

} // verus!
