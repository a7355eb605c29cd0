use vkxml::names::VulkanName;
use vkxml::tags::TagSet;

#[test]
fn names_test_simple() {
    let exts = TagSet::new();
    let name = VulkanName::new("VkQueueFlag", &exts);
    assert_eq!(name.enum_header, "VK_QUEUE_"); // FLAGS is dropped
    assert_eq!(name.bit_enum_trailer, "_BIT");
    assert_eq!(name.normalized_name, "Queue");
}

#[test]
fn test_bits() {
    let exts = TagSet::new();
    let name = VulkanName::new("VkQueueFlagBits", &exts);
    assert_eq!(name.enum_header, "VK_QUEUE_"); // FLAGS is dropped
    assert_eq!(name.bit_enum_trailer, "_BIT");
    assert_eq!(name.normalized_name, "Queue");
}

#[test]
fn test_extension() {
    let mut exts = TagSet::new();
    exts.insert(String::from("KHR")).unwrap();

    let name = VulkanName::new("VkQueueFlagKHR", &exts);
    assert_eq!(name.enum_header, "VK_QUEUE_"); // FLAGS is dropped
    assert_eq!(name.bit_enum_trailer, "_BIT_KHR");
    assert_eq!(name.normalized_name, "QueueKHR");
    assert_eq!(name.ext_name.unwrap(), "KHR");
}

#[test]
fn test_extension_bits() {
    let mut exts = TagSet::new();
    exts.insert(String::from("KHR")).unwrap();

    let name = VulkanName::new("VkQueueFlagBitsKHR", &exts);
    assert_eq!(name.enum_header, "VK_QUEUE_"); // FLAGS is dropped
    assert_eq!(name.bit_enum_trailer, "_BIT_KHR");
    assert_eq!(name.normalized_name, "QueueKHR");
    assert_eq!(name.ext_name.unwrap(), "KHR");
}

#[test]
fn test_id() {
    let exts = TagSet::new();
    let name = VulkanName::new("VkSomethingID", &exts);
    assert_eq!(name.enum_header, "VK_SOMETHING_ID_");
    assert_eq!(name.bit_enum_trailer, "_BIT");
    assert_eq!(name.normalized_name, "SomethingID");
    assert_eq!(name.ext_name, None);
}

#[test]
fn test_inner_id() {
    let exts = TagSet::new();
    let name = VulkanName::new("VkSomethingIDElse", &exts);
    assert_eq!(name.enum_header, "VK_SOMETHING_ID_ELSE_");
    assert_eq!(name.normalized_name, "SomethingIDElse");
    assert_eq!(name.ext_name, None);
}

#[test]
fn test_id_ext() {
    let mut exts = TagSet::new();
    exts.insert(String::from("IDK")).unwrap();

    let name = VulkanName::new("VkSomethingIDK", &exts);
    assert_eq!(name.enum_header, "VK_SOMETHING_");
    assert_eq!(name.bit_enum_trailer, "_BIT_IDK");
    assert_eq!(name.normalized_name, "SomethingIDK");
    assert_eq!(name.ext_name.unwrap(), "IDK");
}

#[test]
fn test_real_thing1() {
    let mut exts = TagSet::new();
    exts.insert(String::from("NV")).unwrap();

    let name = VulkanName::new("VkGeometryFlagBitsNV", &exts);
    // actual enum VK_GEOMETRY_OPAQUE_BIT_NV
    assert_eq!(name.enum_header, "VK_GEOMETRY_");
    assert_eq!(name.bit_enum_trailer, "_BIT_NV");
    assert_eq!(name.normalized_name, "GeometryNV");
    assert_eq!(name.ext_name.unwrap(), "NV");
}

// Tag detection requires prior collection: the same trailing word folds
// into the ordinary word list against an empty set, and is detected once
// the set holds it.
#[test]
fn tag_detection_requires_collection() {
    let empty = TagSet::new();
    let before = VulkanName::new("VkGeometryFlagBitsNV", &empty);
    assert_eq!(before.ext_name, None);
    assert_eq!(before.normalized_name, "GeometryNV");
    assert_eq!(before.enum_header, "VK_GEOMETRY_NV_");
    assert_eq!(before.bit_enum_trailer, "_BIT");

    let mut seeded = TagSet::new();
    seeded.insert(String::from("NV")).unwrap();
    let after = VulkanName::new("VkGeometryFlagBitsNV", &seeded);
    assert_eq!(after.ext_name.as_deref(), Some("NV"));
    assert_eq!(after.enum_header, "VK_GEOMETRY_");
    assert_eq!(after.bit_enum_trailer, "_BIT_NV");
}

// Normalizing the same name against the same set twice yields the same
// output.
#[test]
fn normalization_is_pure() {
    let mut exts = TagSet::new();
    exts.insert(String::from("EXT")).unwrap();
    let a = VulkanName::new("VkDebugReportFlagBitsEXT", &exts);
    let b = VulkanName::new("VkDebugReportFlagBitsEXT", &exts);
    assert_eq!(a, b);
}

// A repeated tag name is a hard error.
#[test]
fn repeated_tag_is_error() {
    let mut exts = TagSet::new();
    exts.insert(String::from("KHR")).unwrap();
    assert!(exts.insert(String::from("KHR")).is_err());
}

// The acronym-run split peels the letter that starts the next word.
#[test]
fn acronym_run_split() {
    let exts = TagSet::new();
    let name = VulkanName::new("VkXYColor", &exts);
    assert_eq!(name.enum_header, "VK_XY_COLOR_");
    assert_eq!(name.normalized_name, "XYColor");
}
