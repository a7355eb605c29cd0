use vkxml::decl::{Type, Types};
use vkxml::decode::{decode_member, decode_funcpointer};
use vkxml::xml::{parse_text, XmlElement};

fn root(xml: &str) -> XmlElement {
    parse_text(xml).expect("well-formed xml")
}

fn base(mutable: bool, name: &str) -> Type {
    Type { mutable, ty: Box::new(Types::Base(name.to_string())) }
}

#[test]
fn lib_test_simple() {
    let xml = "<member><type>uint32_t</type>        <name>width</name></member>";
    let m = decode_member(&root(xml)).expect("should not fail");
    assert_eq!(m.name, "width");
    assert_eq!(m.typ, base(true, "uint32_t"));
    assert_eq!(m.values, None);
    assert_eq!(m.len, None);
    assert_eq!(m.altlen, None);
    assert_eq!(m.noautovalidity, false);
    assert_eq!(m.optional, None);
}

#[test]
fn lib_test_no_spaces() {
    let xml = "<member><type>uint32_t</type><name>width</name></member>";
    let m = decode_member(&root(xml)).expect("should not fail");
    assert_eq!(m.name, "width");
    assert_eq!(m.typ, base(true, "uint32_t"));
    assert_eq!(m.values, None);
    assert_eq!(m.len, None);
    assert_eq!(m.altlen, None);
    assert_eq!(m.noautovalidity, false);
    assert_eq!(m.optional, None);
}

#[test]
fn lib_test_noautovalidity() {
    let xml = "<member noautovalidity=\"true\"><type>uint32_t</type>        <name>width</name></member>";
    let m = decode_member(&root(xml)).expect("should not fail");
    assert_eq!(m.name, "width");
    assert_eq!(m.typ, base(true, "uint32_t"));
    assert_eq!(m.values, None);
    assert_eq!(m.len, None);
    assert_eq!(m.altlen, None);
    assert_eq!(m.noautovalidity, true);
    assert_eq!(m.optional, None);
}

#[test]
fn lib_test_const() {
    let xml = "<member>const <type>uint32_t</type>        <name>width</name></member>";
    let m = decode_member(&root(xml)).expect("should not fail");
    assert_eq!(m.name, "width");
    assert_eq!(m.typ, base(false, "uint32_t"));
    assert_eq!(m.values, None);
    assert_eq!(m.len, None);
    assert_eq!(m.altlen, None);
    assert_eq!(m.noautovalidity, false);
    assert_eq!(m.optional, None);
}

#[test]
fn lib_test_ptr1() {
    let xml = "<member>const <type>uint32_t</type>*        <name>width</name></member>";
    let m = decode_member(&root(xml)).expect("should not fail");
    assert_eq!(m.name, "width");
    assert_eq!(m.typ, Type {
        mutable: true,
        ty: Box::new(Types::Pointer(base(false, "uint32_t"))),
    });
}

#[test]
fn lib_test_ptr2() {
    let xml = "<member>const <type>uint32_t</type>**     <name>width</name></member>";
    let m = decode_member(&root(xml)).expect("should not fail");
    assert_eq!(m.name, "width");
    assert_eq!(m.typ, Type {
        mutable: true,
        ty: Box::new(Types::Pointer(Type {
            mutable: true,
            ty: Box::new(Types::Pointer(base(false, "uint32_t"))),
        })),
    });
}

#[test]
fn lib_test_ptr_nasty() {
    let xml = "<member>const <type>uint32_t</type>* const*     <name>width</name></member>";
    let m = decode_member(&root(xml)).expect("should not fail");
    assert_eq!(m.name, "width");
    assert_eq!(m.typ, Type {
        mutable: true,
        ty: Box::new(Types::Pointer(Type {
            mutable: false,
            ty: Box::new(Types::Pointer(base(false, "uint32_t"))),
        })),
    });
}

#[test]
fn lib_test_arr_constant() {
    let xml = "<member><type>uint32_t</type><name>width</name>[2]</member>";
    let m = decode_member(&root(xml)).expect("should not fail");
    assert_eq!(m.name, "width");
    assert_eq!(m.typ, Type {
        mutable: true,
        ty: Box::new(Types::BoundedArrayInt(2, base(true, "uint32_t"))),
    });
}

#[test]
fn lib_test_arr_str() {
    let xml = "<member><type>uint32_t</type><name>width</name>[<enum>VK_CONSTANT_OF_SOME_SORT</enum>]</member>";
    let m = decode_member(&root(xml)).expect("should not fail");
    assert_eq!(m.name, "width");
    assert_eq!(m.typ, Type {
        mutable: true,
        ty: Box::new(Types::BoundedArrayStr(
            "VK_CONSTANT_OF_SOME_SORT".to_string(),
            base(true, "uint32_t"),
        )),
    });
}

#[test]
fn lib_test_without_pointers() {
    let xml = r#"<type category="funcpointer">typedef void (VKAPI_PTR *<name>PFN_blah</name>)(
  <type>uint32_t</type>  arg1,
  <type>uint64_t</type>  arg2);</type>"#;

    let fptr = decode_funcpointer(&root(xml)).expect("should not fail");
    assert_eq!(fptr.name, "PFN_blah");
    assert_eq!(fptr.return_type, base(true, "void"));

    assert_eq!(fptr.arguments.len(), 2);
    assert_eq!(fptr.arguments[0], ("arg1".to_string(), base(true, "uint32_t")));
    assert_eq!(fptr.arguments[1], ("arg2".to_string(), base(true, "uint64_t")));
}

#[test]
fn lib_test_noarg() {
    let xml = r#"<type category="funcpointer">typedef void (VKAPI_PTR *<name>PFN_blah</name>)(void);</type>"#;
    let fptr = decode_funcpointer(&root(xml)).expect("should not fail");
    assert_eq!(fptr.name, "PFN_blah");
    assert_eq!(fptr.return_type, base(true, "void"));
    assert_eq!(fptr.arguments.len(), 0);
}

#[test]
fn lib_test_returned_pointer() {
    let xml = r#"<type category="funcpointer">typedef void* (VKAPI_PTR *<name>PFN_blah</name>)(
  <type>uint32_t</type>  arg1,
  <type>uint64_t</type>  arg2);</type>"#;

    let fptr = decode_funcpointer(&root(xml)).expect("should not fail");
    assert_eq!(fptr.name, "PFN_blah");
    assert_eq!(fptr.return_type, Type {
        mutable: true,
        ty: Box::new(Types::Pointer(base(true, "void"))),
    });

    assert_eq!(fptr.arguments.len(), 2);
    assert_eq!(fptr.arguments[0], ("arg1".to_string(), base(true, "uint32_t")));
    assert_eq!(fptr.arguments[1], ("arg2".to_string(), base(true, "uint64_t")));
}

#[test]
fn lib_test_arg_pointer() {
    let xml = r#"<type category="funcpointer">typedef void (VKAPI_PTR *<name>PFN_blah</name>)(
  <type>uint32_t</type>* arg1,
  <type>uint64_t</type>  arg2);</type>"#;

    let fptr = decode_funcpointer(&root(xml)).expect("should not fail");
    assert_eq!(fptr.name, "PFN_blah");
    assert_eq!(fptr.return_type, base(true, "void"));

    assert_eq!(fptr.arguments.len(), 2);
    assert_eq!(fptr.arguments[0], ("arg1".to_string(), Type {
        mutable: true,
        ty: Box::new(Types::Pointer(base(true, "uint32_t"))),
    }));
    assert_eq!(fptr.arguments[1], ("arg2".to_string(), base(true, "uint64_t")));
}

#[test]
fn lib_fp_test_const() {
    let xml = r#"<type category="funcpointer">typedef VkBool32 (VKAPI_PTR *<name>PFN_vkDebugReportCallbackEXT</name>)(
    <type>VkDebugReportFlagsEXT</type>                       flags,
    <type>VkDebugReportObjectTypeEXT</type>                  objectType,
    <type>uint64_t</type>                                    object,
    <type>size_t</type>                                      location,
    <type>int32_t</type>                                     messageCode,
    const <type>char</type>*                                 pLayerPrefix,
    const <type>char</type>*                                 pMessage,
    <type>void</type>*                                       pUserData);</type>"#;

    let fptr = decode_funcpointer(&root(xml)).expect("should not fail");
    assert_eq!(fptr.name, "PFN_vkDebugReportCallbackEXT");
    assert_eq!(fptr.return_type, base(true, "VkBool32"));

    assert_eq!(fptr.arguments.len(), 8);
    assert_eq!(fptr.arguments[5], ("pLayerPrefix".to_string(), Type {
        mutable: true,
        ty: Box::new(Types::Pointer(base(false, "char"))),
    }));
}

// A bad character inside the pointer run is a grammar error.
#[test]
fn pointer_run_rejects_stray_text() {
    let xml = "<member><type>uint32_t</type>x<name>width</name></member>";
    assert!(decode_member(&root(xml)).is_err());
}

// A bare `const` that does not follow a `*` is a grammar error.
#[test]
fn pointer_run_rejects_leading_const() {
    let xml = "<member><type>uint32_t</type> const <name>width</name></member>";
    assert!(decode_member(&root(xml)).is_err());
}

// An unparsable literal array bound is a numeric error.
#[test]
fn array_bound_must_be_numeric() {
    let xml = "<member><type>uint32_t</type><name>width</name>[two]</member>";
    let err = decode_member(&root(xml)).unwrap_err();
    assert_eq!(err, vkxml::error::ParseError::MalformedNumeric("two".to_string()));
}
