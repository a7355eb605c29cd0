//! The same decoding scenarios again, exercised through the registry
//! parser's decoders one more time with fresh inputs.

use vkxml::decl::{Type, Types};
use vkxml::decode::{
    decode_platform, decode_tag, decode_typedef, decode_handle, decode_enum_member, decode_member,
    decode_funcpointer, decode_struct, decode_union,
};
use vkxml::records::EnumMember;
use vkxml::xml::{parse_text, XmlElement};

fn root(xml: &str) -> XmlElement {
    parse_text(xml).expect("well-formed xml")
}

fn base(mutable: bool, name: &str) -> Type {
    Type { mutable, ty: Box::new(Types::Base(name.to_string())) }
}

#[test]
fn parser_test_platform() {
    let xml = "<platform name=\"xlib\" protect=\"VK_USE_PLATFORM_XLIB_KHR\" comment=\"X Window System, Xlib client library\"/>";
    let p = decode_platform(&root(xml)).expect("Should not fail");
    assert_eq!(p.name, "xlib");
    assert_eq!(p.protect, "VK_USE_PLATFORM_XLIB_KHR");
    assert_eq!(p.comment, "X Window System, Xlib client library");
}

#[test]
fn parser_test_tag() {
    let xml = "<tag name=\"ANDROID\"     author=\"Google LLC\"                    contact=\"Jesse Hall @critsec\"/>";
    let tag = decode_tag(&root(xml)).expect("Should not fail");
    assert_eq!(tag.name, "ANDROID");
    assert_eq!(tag.author, "Google LLC");
    assert_eq!(tag.contact, "Jesse Hall @critsec");
}

#[test]
fn parser_test_basetype() {
    let xml = "<type category=\"basetype\">typedef <type>uint64_t</type> <name>VkDeviceSize</name>;</type>";
    let tag = decode_typedef(&root(xml)).expect("Should not fail");
    assert_eq!(tag.basetype, "uint64_t");
    assert_eq!(tag.alias, "VkDeviceSize");
}

#[test]
fn parser_test_bitmask() {
    let xml = "<type requires=\"VkRenderPassCreateFlagBits\" category=\"bitmask\">typedef <type>VkFlags</type> <name>VkRenderPassCreateFlags</name>;</type>";
    let tag = decode_typedef(&root(xml)).expect("Should not fail");
    assert_eq!(tag.basetype, "VkFlags");
    assert_eq!(tag.alias, "VkRenderPassCreateFlags");
}

#[test]
fn parser_test_handle_simple() {
    let xml = "<type category=\"handle\"><type>VK_DEFINE_HANDLE</type>(<name>VkInstance</name>)</type>";
    let handle = decode_handle(&root(xml)).expect("Should not fail");
    assert_eq!(handle.parent, None);
    assert_eq!(handle.is_dispatch, true);
    assert_eq!(handle.name, "VkInstance");
}

#[test]
fn parser_test_handle_advanced() {
    let xml = "<type category=\"handle\" parent=\"VkDescriptorPool\"><type>VK_DEFINE_NON_DISPATCHABLE_HANDLE</type>(<name>VkDescriptorSet</name>)</type>";
    let handle = decode_handle(&root(xml)).expect("Should not fail");
    assert_eq!(handle.parent, Some("VkDescriptorPool".to_string()));
    assert_eq!(handle.is_dispatch, false);
    assert_eq!(handle.name, "VkDescriptorSet");
}

#[test]
fn parser_test_without_pointers() {
    let xml = r#"<type category="funcpointer">typedef void (VKAPI_PTR *<name>PFN_blah</name>)(
  <type>uint32_t</type>  arg1,
  <type>uint64_t</type>  arg2);</type>"#;

    let fptr = decode_funcpointer(&root(xml)).expect("Should not fail");
    assert_eq!(fptr.name, "PFN_blah");
    assert_eq!(fptr.return_type, base(true, "void"));
    assert_eq!(fptr.arguments.len(), 2);
    assert_eq!(fptr.arguments[0], ("arg1".to_string(), base(true, "uint32_t")));
    assert_eq!(fptr.arguments[1], ("arg2".to_string(), base(true, "uint64_t")));
}

#[test]
fn parser_test_noarg() {
    let xml = r#"<type category="funcpointer">typedef void (VKAPI_PTR *<name>PFN_blah</name>)(void);</type>"#;
    let fptr = decode_funcpointer(&root(xml)).expect("Should not fail");
    assert_eq!(fptr.name, "PFN_blah");
    assert_eq!(fptr.return_type, base(true, "void"));
    assert_eq!(fptr.arguments.len(), 0);
}

#[test]
fn parser_test_returned_pointer() {
    let xml = r#"<type category="funcpointer">typedef void* (VKAPI_PTR *<name>PFN_blah</name>)(
  <type>uint32_t</type>  arg1,
  <type>uint64_t</type>  arg2);</type>"#;

    let fptr = decode_funcpointer(&root(xml)).expect("Should not fail");
    assert_eq!(fptr.name, "PFN_blah");
    assert_eq!(fptr.return_type, Type {
        mutable: true,
        ty: Box::new(Types::Pointer(base(true, "void"))),
    });
    assert_eq!(fptr.arguments.len(), 2);
}

#[test]
fn parser_test_arg_pointer() {
    let xml = r#"<type category="funcpointer">typedef void (VKAPI_PTR *<name>PFN_blah</name>)(
  <type>uint32_t</type>* arg1,
  <type>uint64_t</type>  arg2);</type>"#;

    let fptr = decode_funcpointer(&root(xml)).expect("Should not fail");
    assert_eq!(fptr.name, "PFN_blah");
    assert_eq!(fptr.arguments.len(), 2);
    assert_eq!(fptr.arguments[0], ("arg1".to_string(), Type {
        mutable: true,
        ty: Box::new(Types::Pointer(base(true, "uint32_t"))),
    }));
}

#[test]
fn parser_test_const() {
    let xml = "<member>const <type>uint32_t</type>        <name>width</name></member>";
    let m = decode_member(&root(xml)).expect("should not fail");
    assert_eq!(m.name, "width");
    assert_eq!(m.typ, base(false, "uint32_t"));
}

#[test]
fn parser_test_simple() {
    let xml = "<member><type>uint32_t</type>        <name>width</name></member>";
    let m = decode_member(&root(xml)).expect("should not fail");
    assert_eq!(m.name, "width");
    assert_eq!(m.typ, base(true, "uint32_t"));
    assert_eq!(m.values, None);
    assert_eq!(m.len, None);
    assert_eq!(m.altlen, None);
    assert_eq!(m.noautovalidity, false);
    assert_eq!(m.optional, None);
}

#[test]
fn parser_test_no_spaces() {
    let xml = "<member><type>uint32_t</type><name>width</name></member>";
    let m = decode_member(&root(xml)).expect("should not fail");
    assert_eq!(m.name, "width");
    assert_eq!(m.typ, base(true, "uint32_t"));
}

#[test]
fn parser_test_noautovalidity() {
    let xml = "<member noautovalidity=\"true\"><type>uint32_t</type>        <name>width</name></member>";
    let m = decode_member(&root(xml)).expect("should not fail");
    assert_eq!(m.name, "width");
    assert_eq!(m.noautovalidity, true);
}

#[test]
fn parser_test_ptr1() {
    let xml = "<member>const <type>uint32_t</type>*        <name>width</name></member>";
    let m = decode_member(&root(xml)).expect("should not fail");
    assert_eq!(m.typ, Type {
        mutable: true,
        ty: Box::new(Types::Pointer(base(false, "uint32_t"))),
    });
}

#[test]
fn parser_test_ptr2() {
    let xml = "<member>const <type>uint32_t</type>**     <name>width</name></member>";
    let m = decode_member(&root(xml)).expect("should not fail");
    assert_eq!(m.typ, Type {
        mutable: true,
        ty: Box::new(Types::Pointer(Type {
            mutable: true,
            ty: Box::new(Types::Pointer(base(false, "uint32_t"))),
        })),
    });
}

#[test]
fn parser_test_ptr_nasty() {
    let xml = "<member>const <type>uint32_t</type>* const*     <name>width</name></member>";
    let m = decode_member(&root(xml)).expect("should not fail");
    assert_eq!(m.typ, Type {
        mutable: true,
        ty: Box::new(Types::Pointer(Type {
            mutable: false,
            ty: Box::new(Types::Pointer(base(false, "uint32_t"))),
        })),
    });
}

#[test]
fn parser_test_arr_constant() {
    let xml = "<member><type>uint32_t</type><name>width</name>[2]</member>";
    let m = decode_member(&root(xml)).expect("should not fail");
    assert_eq!(m.typ, Type {
        mutable: true,
        ty: Box::new(Types::BoundedArrayInt(2, base(true, "uint32_t"))),
    });
}

#[test]
fn parser_test_arr_str() {
    let xml = "<member><type>uint32_t</type><name>width</name>[<enum>VK_CONSTANT_OF_SOME_SORT</enum>]</member>";
    let m = decode_member(&root(xml)).expect("should not fail");
    assert_eq!(m.typ, Type {
        mutable: true,
        ty: Box::new(Types::BoundedArrayStr(
            "VK_CONSTANT_OF_SOME_SORT".to_string(),
            base(true, "uint32_t"),
        )),
    });
}

#[test]
fn parser_test_struct() {
    let xml = r#"<type category="struct" name="VkShaderStatisticsInfoAMD" returnedonly="true">
    <member><type>VkShaderStageFlags</type> <name>shaderStageMask</name></member>
    <member><type>VkShaderResourceUsageAMD</type> <name>resourceUsage</name></member>
    <member><type>uint32_t</type> <name>numPhysicalVgprs</name></member>
    <member><type>uint32_t</type> <name>numPhysicalSgprs</name></member>
    <member><type>uint32_t</type> <name>numAvailableVgprs</name></member>
    <member><type>uint32_t</type> <name>numAvailableSgprs</name></member>
    <member><type>uint32_t</type> <name>computeWorkGroupSize</name>[3]</member>
</type>
"#;
    let m = decode_struct(&root(xml)).expect("should not fail");
    assert_eq!(m.name, "VkShaderStatisticsInfoAMD");
    assert_eq!(m.returnedonly, true);
    assert_eq!(m.structextends, None);
    assert_eq!(m.members.len(), 7);
}

#[test]
fn parser_test_union() {
    let xml = r#"<type category="union" name="VkPerformanceCounterResultKHR" comment="// Union of all the possible return types a counter result could return">
    <member><type>int32_t</type>  <name>int32</name></member>
    <member><type>int64_t</type>  <name>int64</name></member>
    <member><type>uint32_t</type> <name>uint32</name></member>
    <member><type>uint64_t</type> <name>uint64</name></member>
    <member><type>float</type>    <name>float32</name></member>
    <member><type>double</type>   <name>float64</name></member>
</type>
"#;
    let m = decode_union(&root(xml)).expect("should not fail");
    assert_eq!(m.name, "VkPerformanceCounterResultKHR");
    assert_eq!(m.members.len(), 6);
}

#[test]
fn parser_test_value() {
    let xml = r#"<enum value="0x123" name="VK_ASD"/>"#;
    let m = decode_enum_member(&root(xml)).expect("should not fail");
    match m {
        EnumMember::Value(name, value) => {
            assert_eq!(name, "VK_ASD");
            assert_eq!(value, "0x123");
        },
        _ => panic!("wrong type"),
    }
}

#[test]
fn parser_test_bitpos() {
    let xml = r#"<enum bitpos="4" name="VK_ASD"/>"#;
    let m = decode_enum_member(&root(xml)).expect("should not fail");
    match m {
        EnumMember::BitPos(name, pos) => {
            assert_eq!(name, "VK_ASD");
            assert_eq!(pos, 4);
        },
        _ => panic!("wrong type"),
    }
}

#[test]
fn parser_test_alias() {
    let xml = r#"<enum name="VK_ASD" alias="VK_OTHER"/>"#;
    let m = decode_enum_member(&root(xml)).expect("should not fail");
    match m {
        EnumMember::Alias(name, alias_of) => {
            assert_eq!(name, "VK_ASD");
            assert_eq!(alias_of, "VK_OTHER");
        },
        _ => panic!("wrong type"),
    }
}
