use vkxml::error::ParseError;
use vkxml::fields::{FieldKind, normalize_field_name};
use vkxml::parser::{RegistryEvent, parse_registry};
use vkxml::tags::collect_tags;
use vkxml::xml::{parse_text, XmlElement};

fn root(xml: &str) -> XmlElement {
    parse_text(xml).expect("well-formed xml")
}

// Field name classification over the three prefix shapes.
#[test]
fn field_name_classification() {
    let s = normalize_field_name("sType");
    assert_eq!(s.kind, FieldKind::StructTypeTag);
    assert_eq!(s.normalized_name, "type");

    let p = normalize_field_name("pNext");
    assert_eq!(p.kind, FieldKind::SinglePointer);
    assert_eq!(p.normalized_name, "next");

    let pp = normalize_field_name("ppEnabledLayerNames");
    assert_eq!(pp.kind, FieldKind::DoublePointer);
    assert_eq!(pp.normalized_name, "enabled_layer_names");

    let plain = normalize_field_name("width");
    assert_eq!(plain.kind, FieldKind::Plain);
    assert_eq!(plain.normalized_name, "width");
}

// A document defining the same category name both concretely and as an
// alias is an UnexpectedRepeat.
#[test]
fn duplicate_definition_is_repeat() {
    let xml = r#"<registry>
        <types>
            <type category="handle"><type>VK_DEFINE_HANDLE</type>(<name>VkInstance</name>)</type>
            <type category="handle" name="VkInstance" alias="VkOldInstance"/>
        </types>
    </registry>"#;
    let err = parse_registry(&root(xml)).unwrap_err();
    assert_eq!(err, ParseError::UnexpectedRepeat("VkInstance".to_string()));
}

// An unknown top-level section is a hard error.
#[test]
fn unknown_section_is_rejected() {
    let xml = "<registry><nonsense/></registry>";
    let err = parse_registry(&root(xml)).unwrap_err();
    assert_eq!(err, ParseError::UnexpectedElement("nonsense".to_string()));
}

// A type node without a category is tolerated only in the two narrow
// forward-declaration shapes.
#[test]
fn bare_type_shapes() {
    let ok = r#"<registry><types>
        <type name="vk_platform"/>
        <type requires="X11/Xlib.h" name="Display"/>
    </types></registry>"#;
    assert!(parse_registry(&root(ok)).is_ok());

    let bad = r#"<registry><types>
        <type name="Display" someother="x"/>
    </types></registry>"#;
    assert!(parse_registry(&root(bad)).is_err());
}

// A full, schema-valid document yields at least one record per populated
// section and no decode error.
#[test]
fn full_document_smoke_test() {
    let xml = r#"<registry>
        <comment>A small but complete registry</comment>
        <platforms comment="platforms">
            <platform name="xlib" protect="VK_USE_PLATFORM_XLIB_KHR" comment="X Window System"/>
        </platforms>
        <tags comment="tags">
            <tag name="KHR" author="Khronos" contact="who"/>
            <tag name="NV" author="NVIDIA" contact="who"/>
        </tags>
        <types comment="types">
            <type name="vk_platform"/>
            <type category="include" name="X11/Xlib.h"/>
            <type category="define">#define VK_HEADER_VERSION 1</type>
            <type category="basetype">typedef <type>uint32_t</type> <name>VkBool32</name>;</type>
            <type category="bitmask">typedef <type>VkFlags</type> <name>VkQueueFlags</name>;</type>
            <type category="bitmask" name="VkQueueFlagsKHR" alias="VkQueueFlags"/>
            <type category="handle"><type>VK_DEFINE_HANDLE</type>(<name>VkInstance</name>)</type>
            <type category="handle" name="VkOldInstance" alias="VkInstance"/>
            <type category="enum" name="VkQueueFlagBits"/>
            <type category="enum" name="VkQueueFlagBitsKHR" alias="VkQueueFlagBits"/>
            <type category="funcpointer">typedef void (VKAPI_PTR *<name>PFN_vkVoidFunction</name>)(void);</type>
            <type category="struct" name="VkExtent2D">
                <member><type>uint32_t</type>        <name>width</name></member>
                <member><type>uint32_t</type>        <name>height</name></member>
            </type>
            <type category="union" name="VkClearColorValue">
                <member><type>int32_t</type>  <name>int32</name>[4]</member>
                <member><type>uint32_t</type> <name>uint32</name>[4]</member>
            </type>
        </types>
        <enums name="API Constants" comment="constants">
            <enum value="256" name="VK_MAX_PHYSICAL_DEVICE_NAME_SIZE"/>
        </enums>
        <enums name="VkQueueFlagBits" type="bitmask">
            <enum bitpos="0" name="VK_QUEUE_GRAPHICS_BIT"/>
            <enum bitpos="1" name="VK_QUEUE_COMPUTE_BIT"/>
        </enums>
        <commands comment="commands">
            <command successcodes="VK_SUCCESS">
                <proto><type>VkResult</type> <name>vkCreateInstance</name></proto>
                <param>const <type>VkInstanceCreateInfo</type>* <name>pCreateInfo</name></param>
                <param optional="true"><type>VkInstance</type>* <name>pInstance</name></param>
            </command>
            <command name="vkCreateInstanceKHR" alias="vkCreateInstance"/>
        </commands>
        <feature api="vulkan" name="VK_VERSION_1_0" number="1.0">
            <require comment="core">
                <type name="VkBool32"/>
                <command name="vkCreateInstance"/>
            </require>
        </feature>
        <extensions comment="extensions">
            <extension name="VK_KHR_surface" number="1" type="instance" supported="vulkan">
                <require>
                    <enum value="25" name="VK_KHR_SURFACE_SPEC_VERSION"/>
                </require>
            </extension>
        </extensions>
    </registry>"#;

    let events = parse_registry(&root(xml)).expect("no decode error");

    let mut platforms = 0;
    let mut tags = 0;
    let mut basetypes = 0;
    let mut bitmask_defs = 0;
    let mut bitmask_aliases = 0;
    let mut handles = 0;
    let mut handle_aliases = 0;
    let mut enum_defs = 0;
    let mut enum_aliases = 0;
    let mut funcpointers = 0;
    let mut structs = 0;
    let mut unions = 0;
    let mut enums = 0;
    let mut commands = 0;
    let mut command_aliases = 0;
    let mut features = 0;
    let mut extensions = 0;
    for ev in &events {
        match ev {
            RegistryEvent::Platform(_) => platforms += 1,
            RegistryEvent::Tag(_) => tags += 1,
            RegistryEvent::Basetype(_) => basetypes += 1,
            RegistryEvent::BitmaskDefinition(_) => bitmask_defs += 1,
            RegistryEvent::BitmaskAlias(_) => bitmask_aliases += 1,
            RegistryEvent::Handle(_) => handles += 1,
            RegistryEvent::HandleAlias(_) => handle_aliases += 1,
            RegistryEvent::EnumDefinition(_) => enum_defs += 1,
            RegistryEvent::EnumAlias(_) => enum_aliases += 1,
            RegistryEvent::FunctionPointer(_) => funcpointers += 1,
            RegistryEvent::Struct(_) => structs += 1,
            RegistryEvent::Union(_) => unions += 1,
            RegistryEvent::Enum(_) => enums += 1,
            RegistryEvent::Command(_) => commands += 1,
            RegistryEvent::CommandAlias(_) => command_aliases += 1,
            RegistryEvent::Feature(_) => features += 1,
            RegistryEvent::Extension(_) => extensions += 1,
        }
    }
    assert_eq!(platforms, 1);
    assert_eq!(tags, 2);
    assert_eq!(basetypes, 1);
    assert_eq!(bitmask_defs, 1);
    assert_eq!(bitmask_aliases, 1);
    assert_eq!(handles, 1);
    assert_eq!(handle_aliases, 1);
    assert_eq!(enum_defs, 1);
    assert_eq!(enum_aliases, 1);
    assert_eq!(funcpointers, 1);
    assert_eq!(structs, 1);
    assert_eq!(unions, 1);
    assert_eq!(enums, 2);
    assert_eq!(commands, 1);
    assert_eq!(command_aliases, 1);
    assert_eq!(features, 1);
    assert_eq!(extensions, 1);

    // the collection pass sees the same tags
    let tag_set = collect_tags(&root(xml)).expect("tags collect");
    assert!(tag_set.contains("KHR"));
    assert!(tag_set.contains("NV"));
    assert!(!tag_set.contains("EXT"));
}

// A repeated tag name aborts the collection pass.
#[test]
fn repeated_tag_in_document() {
    let xml = r#"<registry>
        <tags>
            <tag name="KHR" author="a" contact="b"/>
            <tag name="KHR" author="c" contact="d"/>
        </tags>
    </registry>"#;
    let err = collect_tags(&root(xml)).unwrap_err();
    assert_eq!(err, ParseError::UnexpectedRepeat("KHR".to_string()));
}

// A command entry with a name but no alias is missing its alias.
#[test]
fn command_name_without_alias() {
    let xml = r#"<registry><commands>
        <command name="vkCreateInstanceKHR"/>
    </commands></registry>"#;
    let err = parse_registry(&root(xml)).unwrap_err();
    assert_eq!(err, ParseError::MissingAttribute("alias".to_string()));
}

// One malformed node aborts the whole run.
#[test]
fn malformed_node_aborts_run() {
    let xml = r#"<registry>
        <types>
            <type category="basetype">typedef <type>uint32_t</type> <name>VkBool32</name></type>
        </types>
    </registry>"#;
    assert!(parse_registry(&root(xml)).is_err());
}

// Malformed text is no registry document at all.
#[test]
fn malformed_text_is_no_document() {
    assert!(parse_text("<registry><open>").is_none());
}
