//! A memory image: byte regions at their addresses, held by the library.
//!
//! An image answers reads as a process would whose memory is the regions and
//! nothing else, and never changes between two reads.

use vstd::prelude::*;
use vstd::slice::{slice_subrange, slice_to_vec};
use crate::address::ForeignAddress;
use crate::error::ProcessMemoryError;
use crate::memory::{decode_all, deep_ok, Memory};
use crate::reader::{answer_view, ProcessMemoryReader};
use crate::type_info::{read_type_info, read_type_infos, TypeInfo};

verus! {

/// The code with which an image refuses a read that leaves its regions: the
/// one that Windows gives where only part of a range can be copied.
pub const UNMAPPED: i32 = -2147024597;

/// A run of bytes that starts at `base`.
pub struct MemoryRegion {
    pub base: u64,
    pub bytes: Vec<u8>,
}

impl View for MemoryRegion {
    type V = (u64, Seq<u8>);

    open spec fn view(&self) -> (u64, Seq<u8>) {
        (self.base, self.bytes@)
    }
}

/// Whether `size` bytes at `address` lie inside `region`.
pub open spec fn covers(region: (u64, Seq<u8>), address: u64, size: usize) -> bool {
    region.0 <= address && address + size <= region.0 + region.1.len()
}

/// What `regions` answer to a read of `size` bytes at `address`: the bytes
/// from the first region that holds the whole range, a refusal where none
/// does.
pub open spec fn lookup(regions: Seq<(u64, Seq<u8>)>, address: u64, size: usize) -> Result<Seq<u8>, i32>
    decreases regions.len(),
{
    if regions.len() == 0 {
        Err(UNMAPPED)
    } else if covers(regions[0], address, size) {
        Ok(regions[0].1.subrange(address - regions[0].0, address - regions[0].0 + size))
    } else {
        lookup(regions.drop_first(), address, size)
    }
}

/// Regions of bytes, in the order in which they were mapped.
pub struct MemoryImage {
    regions: Vec<MemoryRegion>,
}

impl View for MemoryImage {
    type V = Seq<(u64, Seq<u8>)>;

    closed spec fn view(&self) -> Seq<(u64, Seq<u8>)> {
        self.regions@.map_values(|region: MemoryRegion| region@)
    }
}

impl MemoryImage {
    /// The picture of memory that the image gives.
    pub open spec fn memory(&self) -> Memory {
        Memory { answer: |address: u64, size: usize| lookup(self@, address, size) }
    }

    /// An image without regions: every read is refused.
    pub fn new() -> (r: MemoryImage)
        ensures
            r@ == Seq::<(u64, Seq<u8>)>::empty(),
    {
        MemoryImage { regions: Vec::new() }
    }

    /// Maps `bytes` at `base`, behind the regions that are there already.
    pub fn map(&mut self, base: u64, bytes: Vec<u8>)
        ensures
            final(self)@ == old(self)@.push((base, bytes@)),
    {
        self.regions.push(MemoryRegion { base, bytes });
    }

    /// Reads `size` bytes at `address`: all of them, from the first region
    /// that holds the whole range, or a refusal with `UNMAPPED`.
    pub fn read(&self, address: u64, size: usize) -> (r: Result<Vec<u8>, i32>)
        ensures
            answer_view(r) == lookup(self@, address, size),
            answer_view(r) == (self.memory().answer)(address, size),
    {
        let mut i: usize = 0;
        assert(self@.skip(0) =~= self@);
        while i < self.regions.len()
            invariant
                i <= self.regions@.len(),
                self@.len() == self.regions@.len(),
                lookup(self@, address, size) == lookup(self@.skip(i as int), address, size),
            decreases self.regions@.len() - i,
        {
            let region: &MemoryRegion = &self.regions[i];
            assert(self@.skip(i as int).drop_first() =~= self@.skip(i + 1));
            if region.base <= address {
                let start: u64 = address - region.base;
                let len: usize = region.bytes.len();
                if start <= len as u64 && size <= len - start as usize {
                    let first: usize = start as usize;
                    let bytes: Vec<u8> = slice_to_vec(slice_subrange(region.bytes.as_slice(), first, first + size));
                    return Ok(bytes);
                }
            }
            i += 1;
        }
        Err(UNMAPPED)
    }

    /// Decodes the snapshot of the root at `address` of this image.
    pub fn read_type_info(&self, address: ForeignAddress) -> (r: Result<TypeInfo, ProcessMemoryError>)
        ensures
            deep_ok(r) == self.memory().type_info(address),
    {
        let source = |address: u64, size: usize| -> (raw: Result<Vec<u8>, i32>)
            ensures
                answer_view(raw) == (self.memory().answer)(address, size),
            { self.read(address, size) };
        let reader = ProcessMemoryReader::new(source);
        assert(reader.reads_from(self.memory()));
        read_type_info(&reader, address)
    }

    /// Decodes the snapshots of the roots at `addresses` of this image, in
    /// order. The first snapshot that fails is the failure of the call.
    pub fn read_type_infos(&self, addresses: &Vec<ForeignAddress>) -> (r: Result<Vec<TypeInfo>, ProcessMemoryError>)
        ensures
            deep_ok(r) == decode_all(addresses@, self.memory().type_info_decoder()),
    {
        let source = |address: u64, size: usize| -> (raw: Result<Vec<u8>, i32>)
            ensures
                answer_view(raw) == (self.memory().answer)(address, size),
            { self.read(address, size) };
        let reader = ProcessMemoryReader::new(source);
        assert(reader.reads_from(self.memory()));
        read_type_infos(&reader, addresses)
    }
}

/// Decoding an image is deterministic: two calls of `read_type_info` on one
/// image and one root give the same snapshot, or the same failure.
pub proof fn lemma_image_decoding_deterministic(
    image: &MemoryImage,
    address: ForeignAddress,
    first: Result<TypeInfo, ProcessMemoryError>,
    second: Result<TypeInfo, ProcessMemoryError>,
)
    requires
        call_ensures(MemoryImage::read_type_info, (image, address), first),
        call_ensures(MemoryImage::read_type_info, (image, address), second),
    ensures
        deep_ok(first) == deep_ok(second),
{
}

} // verus!
