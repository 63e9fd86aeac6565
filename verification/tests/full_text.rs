use qobject_compiler::generate::generate;
use qobject_compiler::qobject::{QObjectConfig, QObjectProp};
use qobject_compiler::typeref::{named_type_ref, TypeRef};

#[test]
fn whole_native_surface_of_an_empty_class() {
    let mut obj = QObjectConfig::new("Empty");
    obj.inherit(TypeRef::qobject());
    obj.qml(false);
    let (code, _) = generate("empty.moc", &[&obj]);

    let expected = "// Generated by qobject compiler\n\n#include <QObject>\n#include <utility>\n\nclass Empty;\nextern \"C\" void* Qffi_Empty_private_new(Empty* qobject);\n\nextern \"C\" void Qffi_Empty_private_delete(void* self_);\n\nextern \"C\" Empty* Qffi_Empty_new(QObject* parent);\n\nextern \"C\" void* Qffi_Empty_get_private(Empty* self_);\n\n\nclass Empty : public QObject {\n  Q_OBJECT\n\n\npublic:\n  Empty(QObject* parent = nullptr) : QObject(parent) { _d = Qffi_Empty_private_new(this); }\n\n  ~Empty() { Qffi_Empty_private_delete(_d); }\n\n\nQ_SIGNALS:\n\npublic Q_SLOTS:\n\npublic:\n  void* _d;\n\n};\n\nextern \"C\" Empty* Qffi_Empty_new(QObject* parent) {\n  return new Empty(parent);\n}\nextern \"C\" void* Qffi_Empty_get_private(Empty* self_) {\n  return self_->_d;\n}\n\n#include \"empty.moc\"\n";
    assert_eq!(expected, code);
}

#[test]
fn whole_embedding_surface_of_an_empty_class() {
    let mut obj = QObjectConfig::new("Empty");
    obj.inherit(TypeRef::qobject());
    obj.qml(false);
    let (_, rust) = generate("empty.moc", &[&obj]);

    let expected = "extern \"C\" {\n  pub fn Qffi_Empty_new(parent: *mut qt5qml::core::QObject) -> *mut Empty;\n  pub fn Qffi_Empty_get_private(self_: *mut Empty) -> *mut std::ffi::c_void;\n}\n\n#[no_mangle] pub extern \"C\" fn Qffi_Empty_private_new(qobject: *mut Empty) -> *mut std::ffi::c_void {\n  Box::into_raw(Box::new(EmptyPrivate::new(qobject))) as *mut std::ffi::c_void\n}\n#[no_mangle] pub extern \"C\" fn Qffi_Empty_private_delete(self_: *mut std::ffi::c_void) -> () {\n  unsafe { drop(Box::from_raw(self_ as *mut EmptyPrivate)) };\n}\n\n#[repr(C)]\npub struct Empty {\n    _private: [u8; 0],\n}\n\nimpl qt5qml::core::QObjectRef for Empty {\n    fn as_qobject_mut(&mut self) -> &mut qt5qml::core::QObject {\n        unsafe { &mut *(self as *mut _ as *mut qt5qml::core::QObject) }\n    }\n\n    fn as_qobject(&self) -> &qt5qml::core::QObject {\n        unsafe { &*(self as *const _ as *const qt5qml::core::QObject) }\n    }\n}\n\nimpl Empty {\n    #[allow(unused)]\n    pub fn new() -> qt5qml::QBox<Empty> {\n        unsafe { qt5qml::QBox::from_raw(Qffi_Empty_new(std::ptr::null_mut())) }\n    }\n\n    #[allow(unused)]\n    pub fn new_with_parent(parent: &mut qt5qml::core::QObject) -> *mut Empty {\n        unsafe { Qffi_Empty_new(parent) }\n    }\n\n    #[allow(unused)]\n    fn get_private(&mut self) -> &mut EmptyPrivate {\n        unsafe { &mut *(Qffi_Empty_get_private(self) as *mut EmptyPrivate) }\n    }\n\n\n\n}\n";
    assert_eq!(expected, rust);
}

#[test]
fn embedding_extern_declaration_gains_the_out_pointer() {
    // a read-only property of a non-return-safe type: the embedding extern
    // declaration's trailing parameter is an out-pointer of the same type
    let mut obj = QObjectConfig::new("Dummy");
    obj.inherit(TypeRef::qt_core_object("QObject"));
    obj.property(
        QObjectProp::new_with_type(TypeRef::qstring(), "dummy")
            .read("dummy")
            .notify("dummyChanged"),
    );
    obj.method(
        qobject_compiler::qobject::QObjectMethod::new("dummy")
            .ret::<qobject_compiler::typeref::QString>(),
    );
    let (code, rust) = generate("dummy.moc", &[&obj]);

    assert!(code.contains("READ dummy NOTIFY dummyChanged"));
    assert!(code.contains("QString out__;\n    Qffi_Dummy_dummy(_d, &out__);\n    return out__;"));
    assert!(rust.contains(
        "#[no_mangle] pub extern \"C\" fn Qffi_Dummy_dummy(self_: *mut std::ffi::c_void, out__: *mut qt5qml::core::QString) -> ()"
    ));
}

#[test]
fn named_type_catalogue_lookup() {
    assert_eq!(named_type_ref("QString").unwrap().cpp_type(), "QString");
    assert_eq!(named_type_ref("i32").unwrap().cpp_type(), "qint32");
    assert_eq!(named_type_ref("u64").unwrap().rust_type(), "u64");
    assert_eq!(named_type_ref("bool").unwrap().cpp_type(), "bool");
    assert_eq!(
        named_type_ref("QHashIntQByteArray").unwrap().cpp_type(),
        "QHash<int, QByteArray>"
    );
    assert!(named_type_ref("NotAType").is_none());
    assert!(named_type_ref("qstring").is_none());
}
