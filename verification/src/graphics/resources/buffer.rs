use std::marker::PhantomData;

use vstd::prelude::*;
use vstd::string::StringExecFns;

verus! {

/// The buffer usages the blueprints set
#[derive(Clone, Copy, Debug, PartialEq, Eq, Structural)]
pub enum BufferUsage {
    CopySrc,
    CopyDst,
    Index,
    Vertex,
    Uniform,
    Storage,
}

/// The bit that wgpu gives each buffer usage in `wgpu::BufferUsages`
pub open spec fn usage_flag(usage: BufferUsage) -> u32 {
    match usage {
        BufferUsage::CopySrc => 4,
        BufferUsage::CopyDst => 8,
        BufferUsage::Index => 16,
        BufferUsage::Vertex => 32,
        BufferUsage::Uniform => 64,
        BufferUsage::Storage => 128,
    }
}

/// The bits of a buffer usage as wgpu defines them.
///
/// Reads the `bits()` of the matching `wgpu::BufferUsages` constant; the contract states the
/// value that wgpu's source gives each constant.
#[verifier::external_body]
pub(crate) fn usage_bits(usage: BufferUsage) -> (bits: u32)
    ensures
        bits == usage_flag(usage),
{
    match usage {
        BufferUsage::CopySrc => wgpu::BufferUsages::COPY_SRC.bits(),
        BufferUsage::CopyDst => wgpu::BufferUsages::COPY_DST.bits(),
        BufferUsage::Index => wgpu::BufferUsages::INDEX.bits(),
        BufferUsage::Vertex => wgpu::BufferUsages::VERTEX.bits(),
        BufferUsage::Uniform => wgpu::BufferUsages::UNIFORM.bits(),
        BufferUsage::Storage => wgpu::BufferUsages::STORAGE.bits(),
    }
}

/// `value` rounded up to the next multiple of `alignment`
pub open spec fn round_up(value: int, alignment: int) -> int {
    if value % alignment == 0 {
        value
    } else {
        value + (alignment - value % alignment)
    }
}

/// `padded` is `data` followed by zeros up to the next multiple of `alignment`
pub open spec fn padded_to(data: Seq<u8>, alignment: int, padded: Seq<u8>) -> bool {
    &&& padded.len() == round_up(data.len() as int, alignment)
    &&& padded.subrange(0, data.len() as int) == data
    &&& forall|i: int| data.len() <= i < padded.len() ==> padded[i] == 0
}

/// Represents structs that can be serialized into raw bytes.
pub trait Serializable {
    /// Convert this struct into a slice of bytes
    fn to_bytes(&self) -> &[u8];
}

/// Represents an update into an existing gpu buffer
pub trait BufferUpdate {
    /// The data payload as an array slice of bytes
    fn bytes(&self) -> &[u8];

    /// The offset at which to insert the data at into the buffer.
    fn offset(&self) -> u64;
}

/// A buffer update from any struct that implements the Serializable trait
pub struct StructuredUpdate<'a, T: Serializable> {
    /// The struct payload
    pub data: &'a T,
    /// The offset at which to insert the struct data at into the buffer
    pub offset: u64,
}

impl<'a, T: Serializable> BufferUpdate for StructuredUpdate<'a, T> {
    /// The bytes that the payload's `to_bytes` gives
    fn bytes(&self) -> (bytes: &[u8])
        ensures
            call_ensures(T::to_bytes, (self.data,), bytes),
    {
        self.data.to_bytes()
    }

    fn offset(&self) -> (offset: u64)
        ensures
            offset == self.offset,
    {
        self.offset
    }
}

/// A buffer update from raw bytes, inserted at an offset
pub struct RawBytesUpdate<'a> {
    /// The raw data payload
    pub data: &'a [u8],
    /// The offset at which to insert the raw data at into the buffer
    pub offset: u64,
}

impl<'a> BufferUpdate for RawBytesUpdate<'a> {
    fn bytes(&self) -> (bytes: &[u8])
        ensures
            bytes@ == self.data@,
    {
        self.data
    }

    fn offset(&self) -> (offset: u64)
        ensures
            offset == self.offset,
    {
        self.offset
    }
}

/// Condensed version of the generic buffer struct.
pub struct BufferPayload {
    pub label: String,
    /// `wgpu::BufferUsages` bits
    pub usage: u32,
    pub capacity: u64,
    pub init_data: Option<Vec<u8>>,
}

/// A blueprint for constructing wgpu Buffers, where T is the buffer type.
pub struct Buffer<T> {
    pub label: String,
    /// `wgpu::BufferUsages` bits
    pub usage: u32,
    pub capacity: u64,
    pub init_data: Option<Vec<u8>>,
    pub ty: PhantomData<T>,
}

/// A uniform buffer type
pub struct Uniform;

/// A storage buffer type
pub struct Storage;

/// A vertex buffer type
pub struct Vertex;

/// An index buffer type
pub struct Index;

impl<T> Buffer<T> {
    /// Set the label for gpu profiling of the resultant buffer
    pub fn with_label(self, label: &str) -> (buffer: Self)
        ensures
            buffer.label@ == label@,
            buffer.usage == self.usage,
            buffer.capacity == self.capacity,
            buffer.init_data == self.init_data,
    {
        let mut buffer = self;
        buffer.label = String::from_str(label);
        buffer
    }

    /// Provide this buffer with initial byte data.
    ///
    /// The buffer will always be at least big enough to hold this data, however if a larger capacity was set, the buffer will be that size.
    pub fn with_byte_data(self, data: &[u8]) -> (buffer: Self)
        ensures
            buffer.init_data is Some && buffer.init_data->0@ == data@,
            buffer.label == self.label,
            buffer.usage == self.usage,
            buffer.capacity == self.capacity,
    {
        let mut buffer = self;
        buffer.init_data = Some(vstd::slice::slice_to_vec(data));
        buffer
    }

    /// Provide this buffer with initial data from a Serializable struct.
    ///
    /// The buffer will always be at least big enough to hold this data, however if a larger capacity was set, the buffer will be that size.
    pub fn with_struct_data<S: Serializable>(self, data: S) -> (buffer: Self)
        ensures
            buffer.init_data is Some,
            exists|bytes: &[u8]| call_ensures(S::to_bytes, (&data,), bytes) && buffer.init_data->0@ == bytes@,
            buffer.label == self.label,
            buffer.usage == self.usage,
            buffer.capacity == self.capacity,
    {
        let mut buffer = self;
        let bytes = data.to_bytes();
        buffer.init_data = Some(vstd::slice::slice_to_vec(bytes));
        assert(call_ensures(S::to_bytes, (&data,), bytes) && buffer.init_data->0@ == bytes@);
        buffer
    }

    /// Set the initial capacity.
    ///
    /// If initial data was set, this value is only used if its larger than the size of the data.
    ///
    /// If the buffer type is Uniform, this value will be rounded up to the nearest multiple of 16.
    pub fn with_capacity(self, capacity: u64) -> (buffer: Self)
        ensures
            buffer.capacity == capacity,
            buffer.label == self.label,
            buffer.usage == self.usage,
            buffer.init_data == self.init_data,
    {
        let mut buffer = self;
        buffer.capacity = capacity;
        buffer
    }

    /// Add additional usage flags (`wgpu::BufferUsages` bits) to the resultant buffer
    pub fn with_additional_usage(self, usage: u32) -> (buffer: Self)
        ensures
            buffer.usage == self.usage | usage,
            buffer.label == self.label,
            buffer.capacity == self.capacity,
            buffer.init_data == self.init_data,
    {
        let mut buffer = self;
        buffer.usage = buffer.usage | usage;
        buffer
    }

    /// Allow the buffer to be written to.
    pub fn writable(self) -> (buffer: Self)
        ensures
            buffer.usage == self.usage | usage_flag(BufferUsage::CopyDst),
            buffer.label == self.label,
            buffer.capacity == self.capacity,
            buffer.init_data == self.init_data,
    {
        let bits = usage_bits(BufferUsage::CopyDst);
        self.with_additional_usage(bits)
    }

    /// Allow the buffer to be readable from.
    pub fn readable(self) -> (buffer: Self)
        ensures
            buffer.usage == self.usage | usage_flag(BufferUsage::CopySrc),
            buffer.label == self.label,
            buffer.capacity == self.capacity,
            buffer.init_data == self.init_data,
    {
        let bits = usage_bits(BufferUsage::CopySrc);
        self.with_additional_usage(bits)
    }

    /// Allow the buffer to be readable from and writable to.
    pub fn read_write(self) -> (buffer: Self)
        ensures
            buffer.usage == self.usage | (usage_flag(BufferUsage::CopyDst) | usage_flag(
                BufferUsage::CopySrc,
            )),
            buffer.label == self.label,
            buffer.capacity == self.capacity,
            buffer.init_data == self.init_data,
    {
        let bits = usage_bits(BufferUsage::CopyDst) | usage_bits(BufferUsage::CopySrc);
        self.with_additional_usage(bits)
    }
}

/// A fresh blueprint with the given label and usage, a capacity of 16 and no data
pub open spec fn fresh_blueprint<T>(buffer: Buffer<T>, label: Seq<char>, usage: BufferUsage) -> bool {
    &&& buffer.label@ == label
    &&& buffer.usage == usage_flag(usage)
    &&& buffer.capacity == 16
    &&& buffer.init_data is None
}

impl Buffer<Uniform> {
    /// Create a buffer blueprint with the uniform usage type.
    ///
    /// If the provided contents contains data, the data is padded to a multiple of 16 to
    /// follow wgpu uniform buffer alignment rules.
    pub fn as_uniform() -> (buffer: Self)
        ensures
            fresh_blueprint(buffer, "uniform_buffer"@, BufferUsage::Uniform),
    {
        Self {
            label: String::from_str("uniform_buffer"),
            capacity: 16,
            usage: usage_bits(BufferUsage::Uniform),
            init_data: None,
            ty: PhantomData,
        }
    }

    /// Pads a byte vector to align the size to a multiple of the provided value
    pub fn pad_bytes(data: Vec<u8>, alignment: usize) -> (padded: Vec<u8>)
        requires
            alignment > 0,
            round_up(data@.len() as int, alignment as int) <= usize::MAX,
        ensures
            padded_to(data@, alignment as int, padded@),
    {
        let mut padded = data;
        let ghost original = padded@;
        let remainder = padded.len() % alignment;
        if remainder > 0 {
            let padding = alignment - remainder;
            let target = padded.len() + padding;
            padded.resize(target, 0u8);
            assert forall|i: int| original.len() <= i < padded@.len() implies padded@[i] == 0 by {
                assert(cloned::<u8>(0u8, padded@[i]));
            }
        } else {
            assert(padded@.subrange(0, original.len() as int) =~= original);
        }
        padded
    }

    /// Round the value to the nearest multiple of the provided alignment, upwards
    pub fn align(value: u64, alignment: u64) -> (aligned: u64)
        requires
            alignment > 0,
            round_up(value as int, alignment as int) <= u64::MAX,
        ensures
            aligned == round_up(value as int, alignment as int),
    {
        let mut value = value;
        let remainder = value % alignment;
        if remainder > 0 {
            let padding = alignment - remainder;
            value += padding;
        }
        value
    }

    /// The payload of the blueprint: data padded and capacity rounded up to a multiple of 16
    pub fn into_payload(self) -> (payload: Result<BufferPayload, String>)
        requires
            round_up(self.capacity as int, 16) <= u64::MAX,
            self.init_data matches Some(data) ==> round_up(data@.len() as int, 16) <= usize::MAX,
        ensures
            payload matches Ok(p) && p.label == self.label && p.usage == self.usage && p.capacity
                == round_up(self.capacity as int, 16) && (match self.init_data {
                Some(data) => p.init_data matches Some(padded) && padded_to(data@, 16, padded@),
                None => p.init_data is None,
            }),
    {
        let init_data = match self.init_data {
            Some(data) => Some(Self::pad_bytes(data, 16)),
            None => None,
        };
        let capacity = Self::align(self.capacity, 16);
        Ok(BufferPayload { label: self.label, usage: self.usage, capacity, init_data })
    }
}

impl Buffer<Storage> {
    /// Create a buffer blueprint with the storage usage type.
    pub fn as_storage() -> (buffer: Self)
        ensures
            fresh_blueprint(buffer, "storage_buffer"@, BufferUsage::Storage),
    {
        Self {
            label: String::from_str("storage_buffer"),
            usage: usage_bits(BufferUsage::Storage),
            capacity: 16,
            init_data: None,
            ty: PhantomData,
        }
    }

    /// The payload of the blueprint, as set
    pub fn into_payload(self) -> (payload: Result<BufferPayload, String>)
        ensures
            payload matches Ok(p) && p.label == self.label && p.usage == self.usage && p.capacity
                == self.capacity && p.init_data == self.init_data,
    {
        Ok(BufferPayload { label: self.label, usage: self.usage, capacity: self.capacity, init_data: self.init_data })
    }
}

impl Buffer<Vertex> {
    /// Create a buffer blueprint with the vertex usage type.
    pub fn as_vertex() -> (buffer: Self)
        ensures
            fresh_blueprint(buffer, "vertex_buffer"@, BufferUsage::Vertex),
    {
        Self {
            label: String::from_str("vertex_buffer"),
            usage: usage_bits(BufferUsage::Vertex),
            capacity: 16,
            init_data: None,
            ty: PhantomData,
        }
    }

    /// The payload of the blueprint, as set
    pub fn into_payload(self) -> (payload: Result<BufferPayload, String>)
        ensures
            payload matches Ok(p) && p.label == self.label && p.usage == self.usage && p.capacity
                == self.capacity && p.init_data == self.init_data,
    {
        Ok(BufferPayload { label: self.label, usage: self.usage, capacity: self.capacity, init_data: self.init_data })
    }
}

impl Buffer<Index> {
    /// Create a buffer blueprint with the index usage type.
    pub fn as_index() -> (buffer: Self)
        ensures
            fresh_blueprint(buffer, "index_buffer"@, BufferUsage::Index),
    {
        Self {
            label: String::from_str("index_buffer"),
            usage: usage_bits(BufferUsage::Index),
            capacity: 16,
            init_data: None,
            ty: PhantomData,
        }
    }

    /// The payload of the blueprint, as set
    pub fn into_payload(self) -> (payload: Result<BufferPayload, String>)
        ensures
            payload matches Ok(p) && p.label == self.label && p.usage == self.usage && p.capacity
                == self.capacity && p.init_data == self.init_data,
    {
        Ok(BufferPayload { label: self.label, usage: self.usage, capacity: self.capacity, init_data: self.init_data })
    }
}

/// Allowing a buffer to be written to and then read from gives it the usage that
/// `read_write` gives it.
pub proof fn law_writable_readable_is_read_write(usage: u32)
    ensures
        (usage | usage_flag(BufferUsage::CopyDst)) | usage_flag(BufferUsage::CopySrc) == usage | (usage_flag(
            BufferUsage::CopyDst,
        ) | usage_flag(BufferUsage::CopySrc)),
{
    assert((usage | 8u32) | 4u32 == usage | (8u32 | 4u32)) by (bit_vector);
}

/// A value rounded up to the alignment is a multiple of it, and less than one alignment more
proof fn lemma_round_up_aligned(n: int, alignment: int)
    requires
        alignment > 0,
        n >= 0,
    ensures
        round_up(n, alignment) % alignment == 0,
        n <= round_up(n, alignment) < n + alignment,
{
    vstd::arithmetic::div_mod::lemma_fundamental_div_mod(n, alignment);
    if n % alignment != 0 {
        let q = n / alignment;
        assert(n + (alignment - n % alignment) == alignment * (q + 1)) by (nonlinear_arith)
            requires
                n == alignment * q + n % alignment,
        ;
        vstd::arithmetic::div_mod::lemma_mod_multiples_basic(q + 1, alignment);
        assert((alignment * (q + 1)) % alignment == 0) by (nonlinear_arith)
            requires
                ((q + 1) * alignment) % alignment == 0,
        ;
    }
}

/// Padding data that is already padded to the alignment changes nothing.
pub proof fn law_padding_is_idempotent(data: Seq<u8>, alignment: int, padded: Seq<u8>, again: Seq<u8>)
    requires
        alignment > 0,
        padded_to(data, alignment, padded),
        padded_to(padded, alignment, again),
    ensures
        again == padded,
{
    let m = padded.len() as int;
    lemma_round_up_aligned(data.len() as int, alignment);
    assert(round_up(m, alignment) == m);
    assert(again =~= again.subrange(0, m));
}

/// Padded data is at least as long as the data and a multiple of the alignment long.
pub proof fn law_padding_aligns(data: Seq<u8>, alignment: int, padded: Seq<u8>)
    requires
        alignment > 0,
        padded_to(data, alignment, padded),
    ensures
        (padded.len() as int) % alignment == 0,
        data.len() <= padded.len() < data.len() + alignment,
{
    lemma_round_up_aligned(data.len() as int, alignment);
}

} // verus!
