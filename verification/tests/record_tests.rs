use vkxml::decode::{
    decode_platform, decode_tag, decode_typedef, decode_handle, decode_enum_member, decode_enum,
    decode_struct, decode_union, decode_require, decode_feature, decode_extension,
};
use vkxml::records::{EnumMember, EnumType, Require};
use vkxml::xml::{parse_text, XmlElement};

fn root(xml: &str) -> XmlElement {
    parse_text(xml).expect("well-formed xml")
}

#[test]
fn lib_test_platform() {
    let xml = "<platform name=\"xlib\" protect=\"VK_USE_PLATFORM_XLIB_KHR\" comment=\"X Window System, Xlib client library\"/>";
    let p = decode_platform(&root(xml)).expect("should not fail");
    assert_eq!(p.name, "xlib");
    assert_eq!(p.protect, "VK_USE_PLATFORM_XLIB_KHR");
    assert_eq!(p.comment, "X Window System, Xlib client library");
}

#[test]
fn lib_test_tag() {
    let xml = "<tag name=\"ANDROID\"     author=\"Google LLC\"                    contact=\"Jesse Hall @critsec\"/>";
    let tag = decode_tag(&root(xml)).expect("should not fail");
    assert_eq!(tag.name, "ANDROID");
    assert_eq!(tag.author, "Google LLC");
    assert_eq!(tag.contact, "Jesse Hall @critsec");
}

#[test]
fn lib_test_basetype() {
    let xml = "<type category=\"basetype\">typedef <type>uint64_t</type> <name>VkDeviceSize</name>;</type>";
    let tag = decode_typedef(&root(xml)).expect("should not fail");
    assert_eq!(tag.basetype, "uint64_t");
    assert_eq!(tag.alias, "VkDeviceSize");
}

#[test]
fn lib_test_bitmask() {
    let xml = "<type requires=\"VkRenderPassCreateFlagBits\" category=\"bitmask\">typedef <type>VkFlags</type> <name>VkRenderPassCreateFlags</name>;</type>";
    let tag = decode_typedef(&root(xml)).expect("should not fail");
    assert_eq!(tag.basetype, "VkFlags");
    assert_eq!(tag.alias, "VkRenderPassCreateFlags");
}

#[test]
fn lib_test_handle_simple() {
    let xml = "<type category=\"handle\"><type>VK_DEFINE_HANDLE</type>(<name>VkInstance</name>)</type>";
    let handle = decode_handle(&root(xml)).expect("should not fail");
    assert_eq!(handle.parent, None);
    assert_eq!(handle.is_dispatch, true);
    assert_eq!(handle.name, "VkInstance");
}

#[test]
fn lib_test_handle_advanced() {
    let xml = "<type category=\"handle\" parent=\"VkDescriptorPool\"><type>VK_DEFINE_NON_DISPATCHABLE_HANDLE</type>(<name>VkDescriptorSet</name>)</type>";
    let handle = decode_handle(&root(xml)).expect("should not fail");
    assert_eq!(handle.parent, Some("VkDescriptorPool".to_string()));
    assert_eq!(handle.is_dispatch, false);
    assert_eq!(handle.name, "VkDescriptorSet");
}

#[test]
fn lib_test_struct() {
    let xml = r#"<type category="struct" name="VkShaderStatisticsInfoAMD" returnedonly="true">
    <member><type>VkShaderStageFlags</type> <name>shaderStageMask</name></member>
    <member><type>VkShaderResourceUsageAMD</type> <name>resourceUsage</name></member>
    <member><type>uint32_t</type> <name>numPhysicalVgprs</name></member>
    <member><type>uint32_t</type> <name>numPhysicalSgprs</name></member>
    <member><type>uint32_t</type> <name>numAvailableVgprs</name></member>
    <member><type>uint32_t</type> <name>numAvailableSgprs</name></member>
    <member><type>uint32_t</type> <name>computeWorkGroupSize</name>[3]</member>
</type>
"#;
    let m = decode_struct(&root(xml)).expect("should not fail");
    assert_eq!(m.name, "VkShaderStatisticsInfoAMD");
    assert_eq!(m.returnedonly, true);
    assert_eq!(m.structextends, None);
    assert_eq!(m.members.len(), 7);
}

#[test]
fn lib_test_union() {
    let xml = r#"<type category="union" name="VkPerformanceCounterResultKHR" comment="// Union of all the possible return types a counter result could return">
    <member><type>int32_t</type>  <name>int32</name></member>
    <member><type>int64_t</type>  <name>int64</name></member>
    <member><type>uint32_t</type> <name>uint32</name></member>
    <member><type>uint64_t</type> <name>uint64</name></member>
    <member><type>float</type>    <name>float32</name></member>
    <member><type>double</type>   <name>float64</name></member>
</type>
"#;
    let m = decode_union(&root(xml)).expect("should not fail");
    assert_eq!(m.name, "VkPerformanceCounterResultKHR");
    assert_eq!(m.members.len(), 6);
}

#[test]
fn lib_test_value() {
    let xml = r#"<enum value="0x123" name="VK_ASD"/>"#;
    let m = decode_enum_member(&root(xml)).expect("should not fail");
    match m {
        EnumMember::Value(name, value) => {
            assert_eq!(name, "VK_ASD");
            assert_eq!(value, "0x123");
        },
        _ => panic!("wrong type"),
    }
}

#[test]
fn lib_test_bitpos() {
    let xml = r#"<enum bitpos="4" name="VK_ASD"/>"#;
    let m = decode_enum_member(&root(xml)).expect("should not fail");
    match m {
        EnumMember::BitPos(name, pos) => {
            assert_eq!(name, "VK_ASD");
            assert_eq!(pos, 4);
        },
        _ => panic!("wrong type"),
    }
}

#[test]
fn lib_test_alias() {
    let xml = r#"<enum name="VK_ASD" alias="VK_OTHER"/>"#;
    let m = decode_enum_member(&root(xml)).expect("should not fail");
    match m {
        EnumMember::Alias(name, alias_of) => {
            assert_eq!(name, "VK_ASD");
            assert_eq!(alias_of, "VK_OTHER");
        },
        _ => panic!("wrong type"),
    }
}

#[test]
fn test_type() {
    let xml = r#"<type name="VK_API_VERSION"/>"#;
    let r = decode_require(&root(xml)).expect("should not fail");
    match r {
        Require::Type(s) => assert_eq!(s, "VK_API_VERSION"),
        _ => panic!("wrong type"),
    }
}

#[test]
fn test_command() {
    let xml = r#"<command name="vkGetDeviceQueue"/>"#;
    let r = decode_require(&root(xml)).expect("should not fail");
    match r {
        Require::Command(s) => assert_eq!(s, "vkGetDeviceQueue"),
        _ => panic!("wrong type"),
    }
}

#[test]
fn test_simple_enum() {
    let xml = r#"<enum name="VK_LOD_CLAMP_NONE"/>"#;
    let r = decode_require(&root(xml)).expect("should not fail");
    match r {
        Require::Enum(e) => {
            assert_eq!(e.name, "VK_LOD_CLAMP_NONE");
            assert_eq!(e.extends, None);
            assert_eq!(e.extnumber, None);
            assert_eq!(e.offset, None);
            assert_eq!(e.bitpos, None);
            assert_eq!(e.dir, None);
            assert_eq!(e.value, None);
        },
        _ => panic!("wrong type"),
    }
}

#[test]
fn test_fancy_enum() {
    let xml = r#"<enum extends="VkStructureType" extnumber="61"  offset="3"          name="VK_STRUCTURE_TYPE_DEVICE_GROUP_RENDER_PASS_BEGIN_INFO"/>"#;
    let r = decode_require(&root(xml)).expect("should not fail");
    match r {
        Require::Enum(e) => {
            assert_eq!(e.name, "VK_STRUCTURE_TYPE_DEVICE_GROUP_RENDER_PASS_BEGIN_INFO");
            assert_eq!(e.extends, Some("VkStructureType".to_string()));
            assert_eq!(e.extnumber, Some("61".to_string()));
            assert_eq!(e.offset, Some("3".to_string()));
            assert_eq!(e.bitpos, None);
            assert_eq!(e.dir, None);
            assert_eq!(e.value, None);
        },
        _ => panic!("wrong type"),
    }
}

#[test]
fn test_feature() {
    let xml = r#" <feature api="vulkan" name="VK_VERSION_1_1" number="1.1" comment="Vulkan 1.1 core API interface definitions.">
        <require>
            <type name="VK_API_VERSION_1_1"/>
        </require>
        <require comment="Device Initialization">
            <command name="vkEnumerateInstanceVersion"/>
        </require>
        <require comment="Promoted from VK_KHR_relaxed_block_layout, which has no API"/>
        <require comment="Promoted from VK_KHR_storage_buffer_storage_class, which has no API"/>
        <require comment="Originally based on VK_KHR_subgroup (extension 94), but the actual enum block used was, incorrectly, that of extension 95">
            <enum extends="VkStructureType" extnumber="95"  offset="0"          name="VK_STRUCTURE_TYPE_PHYSICAL_DEVICE_SUBGROUP_PROPERTIES"/>
            <type                                       name="VkPhysicalDeviceSubgroupProperties"/>
            <type                                       name="VkSubgroupFeatureFlags"/>
            <type                                       name="VkSubgroupFeatureFlagBits"/>
        </require>
        <require comment="Promoted from VK_KHR_bind_memory2">
            <command name="vkBindBufferMemory2"/>
            <command name="vkBindImageMemory2"/>
            <enum extends="VkStructureType" extnumber="158" offset="0"          name="VK_STRUCTURE_TYPE_BIND_BUFFER_MEMORY_INFO"/>
            <enum extends="VkStructureType" extnumber="158" offset="1"          name="VK_STRUCTURE_TYPE_BIND_IMAGE_MEMORY_INFO"/>
            <enum bitpos="10" extends="VkImageCreateFlagBits"                   name="VK_IMAGE_CREATE_ALIAS_BIT"/>
            <type name="VkBindBufferMemoryInfo"/>
            <type name="VkBindImageMemoryInfo"/>
        </require>
     </feature>"#;

    let r = decode_feature(&root(xml)).expect("should not fail");
    assert_eq!(r.name, "VK_VERSION_1_1");
    assert_eq!(r.api, Some("vulkan".to_string()));
    assert_eq!(r.number, Some("1.1".to_string()));
    assert_eq!(r.require_groups.len(), 6);
}

#[test]
fn extension_decodes() {
    let xml = r#"<extension name="VK_KHR_surface" number="1" type="instance" author="KHR" contact="James Jones" supported="vulkan">
        <require>
            <enum value="25" name="VK_KHR_SURFACE_SPEC_VERSION"/>
            <type name="VkSurfaceKHR"/>
            <command name="vkDestroySurfaceKHR"/>
        </require>
    </extension>"#;
    let x = decode_extension(&root(xml)).expect("should not fail");
    assert_eq!(x.name, "VK_KHR_surface");
    assert_eq!(x.number, "1");
    assert_eq!(x.typ, Some("instance".to_string()));
    assert_eq!(x.author, Some("KHR".to_string()));
    assert_eq!(x.supported, Some("vulkan".to_string()));
    assert_eq!(x.require_groups.len(), 1);
    assert_eq!(x.require_groups[0].len(), 3);
}

#[test]
fn enums_section_decodes() {
    let xml = r#"<enums name="VkQueueFlagBits" type="bitmask">
        <enum bitpos="0" name="VK_QUEUE_GRAPHICS_BIT"/>
        <enum bitpos="1" name="VK_QUEUE_COMPUTE_BIT"/>
        <comment>nothing to see</comment>
        <enum value="7" name="VK_QUEUE_ALL"/>
    </enums>"#;
    let e = decode_enum(&root(xml)).expect("should not fail");
    assert_eq!(e.name, "VkQueueFlagBits");
    assert_eq!(e.enum_type, EnumType::BitMask);
    assert_eq!(e.members.len(), 3);
    assert_eq!(
        e.members[0],
        EnumMember::BitPos("VK_QUEUE_GRAPHICS_BIT".to_string(), 0)
    );
}

// A missing required attribute names the attribute.
#[test]
fn missing_attribute_is_reported() {
    let xml = "<platform protect=\"X\" comment=\"Y\"/>";
    let err = decode_platform(&root(xml)).unwrap_err();
    assert_eq!(err, vkxml::error::ParseError::MissingAttribute("name".to_string()));
}

// A bitpos that is not decimal digits is a numeric error.
#[test]
fn malformed_bitpos_is_reported() {
    let xml = r#"<enum bitpos="x7" name="VK_ASD"/>"#;
    let err = decode_enum_member(&root(xml)).unwrap_err();
    assert_eq!(err, vkxml::error::ParseError::MalformedNumeric("x7".to_string()));
}

// An entry with both a value and a bitpos is rejected.
#[test]
fn conflicting_member_shape_is_reported() {
    let xml = r#"<enum value="1" bitpos="0" name="VK_ASD"/>"#;
    assert!(decode_enum_member(&root(xml)).is_err());
}

// A typedef whose trailing semicolon is absent is rejected.
#[test]
fn typedef_missing_semicolon() {
    let xml = "<type category=\"basetype\">typedef <type>uint64_t</type> <name>VkDeviceSize</name></type>";
    assert!(decode_typedef(&root(xml)).is_err());
}
