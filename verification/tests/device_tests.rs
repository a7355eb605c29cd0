use vkxml::device::{
    MemoryHeap, MemoryType, PhysicalDeviceMemoryProperties, PhysicalDeviceProperties,
};

#[test]
fn property_accessors() {
    let props = PhysicalDeviceProperties {
        api_version: 4202496,
        driver_version: 1,
        vendor_id: 0x10de,
        device_id: 0x2204,
        device_type: 2,
        pipeline_cache_uuid: [7; 16],
    };
    assert_eq!(props.api_version(), 4202496);
    assert_eq!(props.driver_version(), 1);
    assert_eq!(props.vendor_id(), 0x10de);
    assert_eq!(props.device_id(), 0x2204);
    assert_eq!(props.device_type(), 2);
    assert_eq!(props.pipeline_cache_uuid(), [7; 16]);
}

#[test]
fn memory_accessors() {
    let mem = PhysicalDeviceMemoryProperties {
        memory_types: vec![
            MemoryType { property_flags: 0x1, heap_index: 0 },
            MemoryType { property_flags: 0x6, heap_index: 1 },
        ],
        memory_heaps: vec![MemoryHeap { size: 1 << 30, flags: 0x1 }],
    };
    assert_eq!(mem.memory_types().len(), 2);
    assert_eq!(mem.memory_types()[1], MemoryType { property_flags: 0x6, heap_index: 1 });
    assert_eq!(mem.memory_heaps().len(), 1);
    assert_eq!(mem.memory_heaps()[0], MemoryHeap { size: 1 << 30, flags: 0x1 });
}
