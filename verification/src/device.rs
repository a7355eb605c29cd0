//! Plain-value records of the adapter properties that the enumeration
//! layer reports.  The caller that talks to the driver fills these in;
//! here they are ordinary values with exact accessors.

use vstd::prelude::*;

verus! {

/// The identity block reported for one adapter.
#[derive(Debug, PartialEq, Eq)]
pub struct PhysicalDeviceProperties {
    pub api_version: u32,
    pub driver_version: u32,
    pub vendor_id: u32,
    pub device_id: u32,
    /// the adapter kind, as the raw enumerant value
    pub device_type: u32,
    pub pipeline_cache_uuid: [u8; 16],
}

impl PhysicalDeviceProperties {
    pub fn api_version(&self) -> (r: u32)
        ensures
            r == self.api_version,
    {
        self.api_version
    }

    pub fn driver_version(&self) -> (r: u32)
        ensures
            r == self.driver_version,
    {
        self.driver_version
    }

    pub fn vendor_id(&self) -> (r: u32)
        ensures
            r == self.vendor_id,
    {
        self.vendor_id
    }

    pub fn device_id(&self) -> (r: u32)
        ensures
            r == self.device_id,
    {
        self.device_id
    }

    pub fn device_type(&self) -> (r: u32)
        ensures
            r == self.device_type,
    {
        self.device_type
    }

    pub fn pipeline_cache_uuid(&self) -> (r: [u8; 16])
        ensures
            r == self.pipeline_cache_uuid,
    {
        self.pipeline_cache_uuid
    }
}

/// One memory type an adapter exposes.
#[derive(Debug, PartialEq, Eq, Clone, Copy)]
pub struct MemoryType {
    pub property_flags: u32,
    pub heap_index: u32,
}

/// One memory heap an adapter exposes.
#[derive(Debug, PartialEq, Eq, Clone, Copy)]
pub struct MemoryHeap {
    pub size: u64,
    pub flags: u32,
}

/// The memory block reported for one adapter: exactly the valid entries,
/// in the driver's order.
#[derive(Debug, PartialEq, Eq)]
pub struct PhysicalDeviceMemoryProperties {
    pub memory_types: Vec<MemoryType>,
    pub memory_heaps: Vec<MemoryHeap>,
}

impl PhysicalDeviceMemoryProperties {
    /// The reported memory types, in order.
    pub fn memory_types(&self) -> (r: &[MemoryType])
        ensures
            r@ == self.memory_types@,
    {
        self.memory_types.as_slice()
    }

    /// The reported memory heaps, in order.
    pub fn memory_heaps(&self) -> (r: &[MemoryHeap])
        ensures
            r@ == self.memory_heaps@,
    {
        self.memory_heaps.as_slice()
    }
}

} // verus!
