use qobject_compiler::ffi::FfiFunction;
use qobject_compiler::typeref::TypeRef;

#[test]
fn test_cpp_def_no_args() {
    let def = &FfiFunction::new("test").generate_cpp_def();
    assert_eq!("extern \"C\" void test();", def);
}

#[test]
fn test_cpp_def_one_arg() {
    let def = &FfiFunction::new("test")
        .arg_with_type("arg0", TypeRef::qt_core_object("CppType"))
        .generate_cpp_def();
    assert_eq!("extern \"C\" void test(CppType arg0);", def);
}

#[test]
fn test_cpp_def_many_args() {
    let def = &FfiFunction::new("test")
        .arg_with_type("arg0", TypeRef::qt_core_object("CppType0"))
        .arg_with_type("arg1", TypeRef::qt_core_object("CppType1"))
        .generate_cpp_def();
    assert_eq!(def, "extern \"C\" void test(CppType0 arg0, CppType1 arg1);");
}

#[test]
fn test_cpp_def_with_return() {
    let def = &FfiFunction::new("test")
        .arg_with_type("arg0", TypeRef::qt_core_object("CppType0"))
        .arg_with_type("arg1", TypeRef::qt_core_object("CppType1"))
        .ret_type(TypeRef::qt_core_object("RetCppType"))
        .generate_cpp_def();
    assert_eq!(
        "extern \"C\" void test(CppType0 arg0, CppType1 arg1, RetCppType* out__);",
        def
    );
}

#[test]
fn test_cpp_def_return_safe_return() {
    let def = &FfiFunction::new("test")
        .arg_with_type("arg0", TypeRef::qt_core_object("CppType0"))
        .ret_type(TypeRef::qobject_ptr())
        .generate_cpp_def();
    assert_eq!("extern \"C\" QObject* test(CppType0 arg0);", def);
}

#[test]
fn test_rust_def_with_unsafe_return() {
    // arity parity: the Rust declaration gains the same trailing out-pointer
    let def = FfiFunction::new("test")
        .arg_with_type("arg0", TypeRef::qt_core_object("CppType0"))
        .ret_type(TypeRef::qt_core_object("RetCppType"))
        .generate_rust_def();
    assert_eq!(
        "  pub fn test(arg0: qt5qml::core::CppType0, out__: *mut qt5qml::core::RetCppType) -> ();",
        def
    );
}

#[test]
fn test_rust_impl_rendering() {
    let imp = FfiFunction::new("Qffi_X_run")
        .arg_with_type("self_", TypeRef::void_mut_ptr())
        .rust_impl("unsafe { body() }")
        .generate_rust_impl();
    assert_eq!(
        "#[no_mangle] pub extern \"C\" fn Qffi_X_run(self_: *mut std::ffi::c_void) -> () {\n  unsafe { body() }\n}",
        imp
    );
}

#[test]
fn test_cpp_impl_rendering() {
    let imp = FfiFunction::new("Qffi_X_run")
        .cpp_impl("return;")
        .generate_cpp_impl();
    assert_eq!("extern \"C\" void Qffi_X_run() {\n  return;\n}", imp);
}

#[test]
fn test_friend_impl_rendering() {
    let imp = FfiFunction::new("Qffi_X_sig")
        .friend_class("X")
        .cpp_impl("Q_EMIT self_->sig();")
        .generate_friend_cpp_impl();
    assert_eq!("friend void Qffi_X_sig() {\n  Q_EMIT self_->sig();\n}", imp);
}

#[test]
fn test_get_type_refs_order() {
    let f = FfiFunction::new("test")
        .arg_with_type("a", TypeRef::qt_core_object("A"))
        .arg_with_type("b", TypeRef::qt_core_object("B"))
        .ret_type(TypeRef::qt_core_object("R"));
    let refs = f.get_type_refs();
    let names: Vec<&str> = refs.iter().map(|t| t.cpp_type()).collect();
    assert_eq!(names, vec!["A", "B", "R"]);
}
