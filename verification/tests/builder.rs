use qobject_compiler::generate::generate;
use qobject_compiler::moc::MocConfig;
use qobject_compiler::{QObjectBuild, QObjectMethod, QObjectSignal, TypeRef};

#[test]
fn it_works() {
    assert_eq!(2 + 2, 4);
}

#[test]
fn builder_produces_the_same_surface() {
    let mut build = QObjectBuild::new("Dummy");
    build.inherit(TypeRef::qobject());
    build.method(QObjectMethod::new("rowCount").ret::<i32>());
    build.signal(QObjectSignal::new("changed"));
    build.qml(false);
    let (code, rust) = generate("dummy.moc", &[build.config()]);

    assert!(code.contains("class Dummy : public QObject"));
    assert!(code.contains("qint32 rowCount()"));
    assert!(code.contains("Q_SIGNALS:\nvoid changed();"));
    assert!(rust.contains("pub(crate) fn changed(&mut self) {"));
    assert!(!code.contains("qmlRegisterType"));
}

#[test]
fn moc_config_collects_paths() {
    let mut moc = MocConfig::new();
    moc.include_path("include");
    moc.include_path("src/gen");
    let paths: Vec<&str> = moc.include_paths().iter().map(|p| p.as_str()).collect();
    assert_eq!(paths, vec!["include", "src/gen"]);
}
