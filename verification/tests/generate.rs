use qobject_compiler::generate::{generate, generate_ffi_impl};
use qobject_compiler::qobject::{QObjectConfig, QObjectMethod, QObjectProp, QObjectSignal};
use qobject_compiler::typeref::{QString, TypeRef};

#[test]
fn generate_simple_class() {
    let mut obj = QObjectConfig::new("Dummy");
    let obj_clone = obj.clone();
    obj.inherit(TypeRef::qt_core_object("QObject"));
    obj.property(
        QObjectProp::new_with_type(TypeRef::qstring(), "dummy")
            .read("dummy")
            .notify("dummyChanged"),
    );
    obj.method(QObjectMethod::new("dummy").ret::<QString>().attach(&obj_clone));
    let (code, _) = generate("dummy.moc", &[&obj]);

    println!("{}", code);

    assert!(code.contains("#include <QObject>"));
    assert!(code.contains("#include <QString>"));
    assert!(code.contains("Q_OBJECT"));
    assert!(code.contains("Q_PROPERTY(QString dummy READ dummy NOTIFY dummyChanged);"));
    assert!(code.contains("class Dummy : public QObject"));
    assert!(code.contains("QString dummy()"));
    assert!(code.contains("#include \"dummy.moc\""));
    assert!(code.contains("Qffi_Dummy_dummy(_d, &out__);"));
    assert!(code.contains("void Qffi_Dummy_dummy(void* self_, QString* out__);"));
    assert!(code.contains("void* Qffi_Dummy_private_new(Dummy* qobject);"));
    assert!(code.contains("void Qffi_Dummy_private_delete(void* self_);"));
}

#[test]
fn test_cpp_impl() {
    let def = generate_ffi_impl(
        &(QObjectMethod::new("test")
            .arg_with_type("arg0", TypeRef::qt_core_object("CppType0"))
            .arg_with_type("arg1", TypeRef::qt_core_object("CppType1"))
            .attach(&QObjectConfig::new("Test"))),
    );
    assert_eq!("Qffi_Test_test(_d, arg0, arg1);", def.trim());
}

#[test]
fn test_cpp_impl_with_return() {
    let def = generate_ffi_impl(
        &QObjectMethod::new("test")
            .arg_with_type("arg0", TypeRef::qt_core_object("CppType0"))
            .ret_type(TypeRef::qt_core_object("RetCppType"))
            .attach(&QObjectConfig::new("Test")),
    );
    assert_eq!(
        r#"
    RetCppType out__;
    Qffi_Test_test(_d, arg0, &out__);
    return out__;"#
            .trim(),
        def.trim()
    );
}

#[test]
fn test_cpp_class_with_signal() {
    let mut obj = QObjectConfig::new("Dummy");
    obj.inherit(TypeRef::qobject());
    obj.signal(QObjectSignal::new("testSignal").arg_with_type("arg0", TypeRef::qobject_ptr()));
    let (code, _) = generate("dummy.moc", &[&obj]);

    println!("{}", code);

    assert!(code.contains("void Qffi_Dummy_testSignal(Dummy* self_, QObject* arg0)"));
    assert!(code.contains("Q_EMIT self_->testSignal(arg0)"));
}

#[test]
fn test_signal_rendered_as_friend_definition() {
    // the signal crossing carries the object as its associated scope, so its
    // definition sits inside the class, not at file scope
    let mut obj = QObjectConfig::new("Dummy");
    obj.inherit(TypeRef::qobject());
    obj.signal(QObjectSignal::new("testSignal").arg_with_type("arg0", TypeRef::qobject_ptr()));
    let (code, _) = generate("dummy.moc", &[&obj]);

    assert!(code.contains(
        "friend void Qffi_Dummy_testSignal(Dummy* self_, QObject* arg0) {\n  Q_EMIT self_->testSignal(arg0);\n}"
    ));
}

#[test]
fn test_cpp_class_with_slot() {
    let mut obj = QObjectConfig::new("Dummy");
    obj.inherit(TypeRef::qobject());
    obj.slot(QObjectMethod::new("testSlot").arg::<&QString>("arg0"));
    let (code, _) = generate("dummy.moc", &[&obj]);

    println!("{}", code);

    assert!(code.contains("public Q_SLOTS:"));
    assert!(code.contains("void testSlot(const QString& arg0)"));
}

#[test]
fn test_slot_section_distinct_from_methods() {
    let mut obj = QObjectConfig::new("Widget");
    obj.inherit(TypeRef::qobject());
    obj.method(QObjectMethod::new("ordinary"));
    obj.slot(QObjectMethod::new("reacting").arg_with_type(
        "arg0",
        TypeRef::qt_core_object("QVariant").with_const_ref(),
    ));
    let (code, _) = generate("widget.moc", &[&obj]);

    let slots_at = code.find("public Q_SLOTS:").unwrap();
    let slot_decl = code.find("void reacting(const QVariant& arg0)").unwrap();
    let method_decl = code.find("void ordinary()").unwrap();
    assert!(method_decl < slots_at);
    assert!(slots_at < slot_decl);
}

#[test]
fn test_includes_deduplicated_and_sorted() {
    let mut obj = QObjectConfig::new("Dummy");
    obj.inherit(TypeRef::qobject());
    // two members of the same type must yield one inclusion line
    obj.method(QObjectMethod::new("a").ret::<QString>());
    obj.method(QObjectMethod::new("b").ret::<QString>());
    let (code, _) = generate("dummy.moc", &[&obj]);

    assert_eq!(code.matches("#include <QString>").count(), 1);
    let qobject_at = code.find("#include <QObject>").unwrap();
    let qstring_at = code.find("#include <QString>").unwrap();
    let qtqml_at = code.find("#include <QtQml>").unwrap();
    let utility_at = code.find("#include <utility>").unwrap();
    assert!(qobject_at < qstring_at);
    assert!(qstring_at < qtqml_at);
    assert!(qtqml_at < utility_at);
}

#[test]
fn test_registration_generated_only_on_request() {
    let mut with_qml = QObjectConfig::new("Dummy");
    with_qml.inherit(TypeRef::qobject());
    let (code, rust) = generate("dummy.moc", &[&with_qml]);
    assert!(code.contains("qmlRegisterType<Dummy>(uri, version_major, version_minor, qml_name)"));
    assert!(rust.contains("pub(crate) fn register_type"));

    let mut without = QObjectConfig::new("Dummy");
    without.inherit(TypeRef::qobject());
    without.qml(false);
    let (code, rust) = generate("dummy.moc", &[&without]);
    assert!(!code.contains("qmlRegisterType"));
    assert!(!rust.contains("register_type"));
}

#[test]
fn test_rust_surface_layout() {
    let mut obj = QObjectConfig::new("Dummy");
    obj.inherit(TypeRef::qobject());
    obj.method(QObjectMethod::new("rowCount").ret::<i32>());
    let (_, rust) = generate("dummy.moc", &[&obj]);

    println!("{}", rust);

    assert!(rust.starts_with("extern \"C\" {\n"));
    assert!(rust.contains("  pub fn Qffi_Dummy_new(parent: *mut qt5qml::core::QObject) -> *mut Dummy;"));
    assert!(rust.contains("#[no_mangle] pub extern \"C\" fn Qffi_Dummy_rowCount(self_: *mut std::ffi::c_void) -> i32 {"));
    assert!(rust.contains("unsafe { (*(self_ as *mut DummyPrivate)).row_count() }"));
    assert!(rust.contains("#[repr(C)]\npub struct Dummy {\n    _private: [u8; 0],\n}"));
    assert!(rust.contains("impl qt5qml::core::QObjectRef for Dummy"));
    assert!(rust.contains("fn get_private(&mut self) -> &mut DummyPrivate"));
}

#[test]
fn test_proxy_method_wrapper() {
    // a proxy member forwards to the base implementation on the C++ side and
    // gets an idiomatic Rust wrapper; an out-pointer binds unsafe returns
    let mut obj = QObjectConfig::new("Model");
    obj.inherit(TypeRef::qobject());
    obj.method(
        QObjectMethod::new("objectName")
            .ret::<qobject_compiler::typeref::QString>()
            .proxy("QObject")
            .const_(),
    );
    let (code, rust) = generate("model.moc", &[&obj]);

    assert!(code.contains("new(out__) QString(std::move(self_.objectName()));"));
    assert!(rust.contains("pub(crate) fn object_name(&self) -> qt5qml::core::QString {"));
    assert!(rust.contains("let mut out__ = std::mem::MaybeUninit::<qt5qml::core::QString>::uninit();"));
    assert!(rust.contains("unsafe { Qffi_Model_objectName(self, out__.as_mut_ptr()); }"));
    assert!(rust.contains("unsafe { out__.assume_init() }"));
}

#[test]
fn test_two_objects_one_unit() {
    let mut a = QObjectConfig::new("Alpha");
    a.inherit(TypeRef::qobject());
    a.method(QObjectMethod::new("run"));
    let mut b = QObjectConfig::new("Beta");
    b.inherit(TypeRef::qobject());
    b.method(QObjectMethod::new("run"));
    let (code, _) = generate("two.moc", &[&a, &b]);

    // crossing names stay globally unique across objects
    assert!(code.contains("Qffi_Alpha_run"));
    assert!(code.contains("Qffi_Beta_run"));
    assert!(code.contains("class Alpha;"));
    assert!(code.contains("class Beta;"));
}

#[test]
fn test_relative_header_rendered_and_sorted_last() {
    let mut obj = QObjectConfig::new("Dummy");
    obj.inherit(TypeRef::qobject());
    obj.qml(false);
    obj.method(QObjectMethod::new("helper").ret_type(TypeRef::new(
        "Helper",
        "Helper",
        false,
        Some(qobject_compiler::Include::Relative(String::from("helper.h"))),
    )));
    let (code, _) = generate("dummy.moc", &[&obj]);

    assert!(code.contains("#include \"helper.h\""));
    let system_at = code.find("#include <utility>").unwrap();
    let relative_at = code.find("#include \"helper.h\"").unwrap();
    assert!(system_at < relative_at);
}
