use qobject_compiler::typeref::{Include, PrimitiveKind, TypeRef};

#[test]
fn primitive_scalars_are_return_safe() {
    for kind in [
        PrimitiveKind::Bool,
        PrimitiveKind::Int8,
        PrimitiveKind::UInt8,
        PrimitiveKind::Int16,
        PrimitiveKind::UInt16,
        PrimitiveKind::Int32,
        PrimitiveKind::UInt32,
        PrimitiveKind::Int64,
        PrimitiveKind::UInt64,
        PrimitiveKind::Float32,
        PrimitiveKind::Float64,
        PrimitiveKind::BytePtr,
        PrimitiveKind::ConstCharPtr,
        PrimitiveKind::MutCharPtr,
    ] {
        assert!(TypeRef::primitive(kind).return_safe());
    }
}

#[test]
fn named_objects_by_value_are_not_return_safe() {
    assert!(!TypeRef::qobject().return_safe());
    assert!(!TypeRef::qstring().return_safe());
    assert!(!TypeRef::qt_core_object("QVariant").return_safe());
    assert!(!TypeRef::generated("Dummy").return_safe());
}

#[test]
fn derived_pointer_and_reference_forms_are_return_safe() {
    assert!(TypeRef::qstring().with_mut_ptr().return_safe());
    assert!(TypeRef::qstring().with_const_ptr().return_safe());
    assert!(TypeRef::qstring().with_mut_ref().return_safe());
    assert!(TypeRef::qstring().with_const_ref().return_safe());
    assert!(TypeRef::generated("Dummy").with_mut_ptr().return_safe());
    assert!(TypeRef::qobject().with_const_ref().return_safe());
}

#[test]
fn derived_forms_spellings() {
    let t = TypeRef::qstring();
    assert_eq!(t.cpp_type(), "QString");
    assert_eq!(t.rust_type(), "qt5qml::core::QString");
    assert_eq!(TypeRef::qstring().with_mut_ptr().cpp_type(), "QString*");
    assert_eq!(TypeRef::qstring().with_mut_ptr().rust_type(), "*mut qt5qml::core::QString");
    assert_eq!(TypeRef::qstring().with_const_ptr().cpp_type(), "const QString*");
    assert_eq!(TypeRef::qstring().with_const_ptr().rust_type(), "*const qt5qml::core::QString");
    assert_eq!(TypeRef::qstring().with_mut_ref().cpp_type(), "QString&");
    assert_eq!(TypeRef::qstring().with_mut_ref().rust_type(), "&mut qt5qml::core::QString");
    assert_eq!(TypeRef::qstring().with_const_ref().cpp_type(), "const QString&");
    assert_eq!(TypeRef::qstring().with_const_ref().rust_type(), "&qt5qml::core::QString");
}

#[test]
fn derived_forms_keep_dependency() {
    let t = TypeRef::qstring().with_const_ref();
    match t.dependency() {
        Some(Include::System(name)) => assert_eq!(name, "QString"),
        _ => panic!("expected the QString system header"),
    }
    assert!(TypeRef::void_mut_ptr().dependency().is_none());
}

#[test]
fn primitive_spellings() {
    let t = TypeRef::primitive(PrimitiveKind::Int32);
    assert_eq!(t.cpp_type(), "qint32");
    assert_eq!(t.rust_type(), "i32");
    let t = TypeRef::primitive(PrimitiveKind::Float64);
    assert_eq!(t.cpp_type(), "double");
    assert_eq!(t.rust_type(), "f64");
    let t = TypeRef::primitive(PrimitiveKind::ConstCharPtr);
    assert_eq!(t.cpp_type(), "const char*");
    assert_eq!(t.rust_type(), "*const std::os::raw::c_char");
    let t = TypeRef::void_mut_ptr();
    assert_eq!(t.cpp_type(), "void*");
    assert_eq!(t.rust_type(), "*mut std::ffi::c_void");
}

#[test]
fn from_type_uses_the_carried_descriptor() {
    let t = TypeRef::from_type::<i64>();
    assert_eq!(t.cpp_type(), "qint64");
    let t = TypeRef::from_type::<&qobject_compiler::typeref::QByteArray>();
    assert_eq!(t.cpp_type(), "const QByteArray&");
    let t = TypeRef::from_type::<&mut qobject_compiler::typeref::QVariant>();
    assert_eq!(t.cpp_type(), "QVariant&");
}

#[test]
fn explicit_descriptor_construction() {
    let t = TypeRef::new(
        "QHash<int, QByteArray>",
        "qt5qml::core::QHashIntQByteArray",
        false,
        Some(Include::System(String::from("QHash"))),
    );
    assert_eq!(t.cpp_type(), "QHash<int, QByteArray>");
    assert!(!t.return_safe());
}
