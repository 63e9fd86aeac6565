//! Value-type descriptors: how one logical type is spelled on the C++ side
//! and on the Rust side of the extern boundary, whether it may be returned
//! directly ("return-safe"), and which header it needs.
//!
//! A type is return-safe exactly when it is a scalar, a pointer or a
//! reference; a named object passed by value is not, and such a value must
//! cross the boundary through a caller-supplied out-pointer.

use vstd::prelude::*;

verus! {

/// A header dependency of the generated C++ text.
#[derive(Clone, Debug)]
pub enum Include {
    System(String),
    Relative(String),
}

/// Mathematical value of [`Include`].
#[verifier::ext_equal]
pub enum IncludeModel {
    System(Seq<char>),
    Relative(Seq<char>),
}

impl View for Include {
    type V = IncludeModel;

    open spec fn view(&self) -> IncludeModel {
        match self {
            Include::System(s) => IncludeModel::System(s@),
            Include::Relative(s) => IncludeModel::Relative(s@),
        }
    }
}

impl DeepView for Include {
    type V = IncludeModel;

    open spec fn deep_view(&self) -> IncludeModel {
        self.view()
    }
}

impl Include {
    /// An explicit copy, with the copy's value pinned.
    pub fn dup(&self) -> (r: Include)
        ensures
            r@ == self@,
    {
        match self {
            Include::System(s) => Include::System(s.clone()),
            Include::Relative(s) => Include::Relative(s.clone()),
        }
    }
}

/// Copy of an optional dependency.
pub fn dup_opt_include(d: &Option<Include>) -> (r: Option<Include>)
    ensures
        r.deep_view() == d.deep_view(),
{
    match d {
        Some(i) => Some(i.dup()),
        None => None,
    }
}

/// One type as it appears on both sides of the boundary.
#[derive(Clone, Debug)]
pub struct TypeRef {
    cpp: String,
    rust: String,
    return_safe: bool,
    dependency: Option<Include>,
}

/// Mathematical value of [`TypeRef`].
#[verifier::ext_equal]
pub struct TypeModel {
    pub cpp: Seq<char>,
    pub rust: Seq<char>,
    pub return_safe: bool,
    pub dependency: Option<IncludeModel>,
}

impl View for TypeRef {
    type V = TypeModel;

    closed spec fn view(&self) -> TypeModel {
        TypeModel {
            cpp: self.cpp@,
            rust: self.rust@,
            return_safe: self.return_safe,
            dependency: self.dependency.deep_view(),
        }
    }
}

impl DeepView for TypeRef {
    type V = TypeModel;

    open spec fn deep_view(&self) -> TypeModel {
        self.view()
    }
}

/// The fixed catalogue of primitive kinds.
#[derive(Clone, Copy, Debug, PartialEq, Eq, Structural)]
pub enum PrimitiveKind {
    Bool,
    Int8,
    UInt8,
    Int16,
    UInt16,
    Int32,
    UInt32,
    Int64,
    UInt64,
    Float32,
    Float64,
    BytePtr,
    ConstCharPtr,
    MutCharPtr,
}

/// The descriptor of each primitive kind.
pub open spec fn primitive_model(k: PrimitiveKind) -> TypeModel {
    match k {
        PrimitiveKind::Bool => plain_model("bool"@, "bool"@),
        PrimitiveKind::Int8 => qt_global_model("qint8"@, "i8"@),
        PrimitiveKind::UInt8 => qt_global_model("quint8"@, "u8"@),
        PrimitiveKind::Int16 => qt_global_model("qint16"@, "i16"@),
        PrimitiveKind::UInt16 => qt_global_model("quint16"@, "u16"@),
        PrimitiveKind::Int32 => qt_global_model("qint32"@, "i32"@),
        PrimitiveKind::UInt32 => qt_global_model("quint32"@, "u32"@),
        PrimitiveKind::Int64 => qt_global_model("qint64"@, "i64"@),
        PrimitiveKind::UInt64 => qt_global_model("quint64"@, "u64"@),
        PrimitiveKind::Float32 => plain_model("float"@, "f32"@),
        PrimitiveKind::Float64 => plain_model("double"@, "f64"@),
        PrimitiveKind::BytePtr => plain_model("void*"@, "*mut std::ffi::c_void"@),
        PrimitiveKind::ConstCharPtr => plain_model(
            "const char*"@,
            "*const std::os::raw::c_char"@,
        ),
        PrimitiveKind::MutCharPtr => plain_model("char*"@, "*mut std::os::raw::c_char"@),
    }
}

/// A return-safe descriptor without a header dependency.
pub open spec fn plain_model(cpp: Seq<char>, rust: Seq<char>) -> TypeModel {
    TypeModel { cpp, rust, return_safe: true, dependency: None }
}

/// A return-safe scalar whose C++ spelling lives in `QtGlobal`.
pub open spec fn qt_global_model(cpp: Seq<char>, rust: Seq<char>) -> TypeModel {
    TypeModel { cpp, rust, return_safe: true, dependency: Some(IncludeModel::System("QtGlobal"@)) }
}

/// The base-object descriptor: a named object, not return-safe.
pub open spec fn qobject_model() -> TypeModel {
    TypeModel {
        cpp: "QObject"@,
        rust: "qt5qml::core::QObject"@,
        return_safe: false,
        dependency: Some(IncludeModel::System("QObject"@)),
    }
}

/// A generated class: spelled by its own name on both sides, not return-safe.
pub open spec fn generated_model(name: Seq<char>) -> TypeModel {
    TypeModel { cpp: name, rust: name, return_safe: false, dependency: None }
}

/// A pointer to the base object: return-safe.
pub open spec fn qobject_ptr_model() -> TypeModel {
    TypeModel {
        cpp: "QObject*"@,
        rust: "*mut qt5qml::core::QObject"@,
        return_safe: true,
        dependency: Some(IncludeModel::System("QObject"@)),
    }
}

/// A Qt core class: a named object with a system header of the same name.
pub open spec fn qt_core_object_model(class_name: Seq<char>) -> TypeModel {
    TypeModel {
        cpp: class_name,
        rust: "qt5qml::core::"@ + class_name,
        return_safe: false,
        dependency: Some(IncludeModel::System(class_name)),
    }
}

/// Mutable-pointer derivation: always return-safe, dependency kept.
pub open spec fn mut_ptr_model(t: TypeModel) -> TypeModel {
    TypeModel {
        cpp: t.cpp + "*"@,
        rust: "*mut "@ + t.rust,
        return_safe: true,
        dependency: t.dependency,
    }
}

/// Const-pointer derivation: always return-safe, dependency kept.
pub open spec fn const_ptr_model(t: TypeModel) -> TypeModel {
    TypeModel {
        cpp: "const "@ + t.cpp + "*"@,
        rust: "*const "@ + t.rust,
        return_safe: true,
        dependency: t.dependency,
    }
}

/// Mutable-reference derivation: always return-safe, dependency kept.
pub open spec fn mut_ref_model(t: TypeModel) -> TypeModel {
    TypeModel {
        cpp: t.cpp + "&"@,
        rust: "&mut "@ + t.rust,
        return_safe: true,
        dependency: t.dependency,
    }
}

/// Const-reference derivation: always return-safe, dependency kept.
pub open spec fn const_ref_model(t: TypeModel) -> TypeModel {
    TypeModel {
        cpp: "const "@ + t.cpp + "&"@,
        rust: "&"@ + t.rust,
        return_safe: true,
        dependency: t.dependency,
    }
}

impl TypeRef {
    /// A descriptor from explicit spellings.
    pub fn new(cpp_name: &str, rust_name: &str, return_safe: bool, dependency: Option<
        Include,
    >) -> (r: Self)
        ensures
            r@ == (TypeModel {
                cpp: cpp_name@,
                rust: rust_name@,
                return_safe,
                dependency: dependency.deep_view(),
            }),
    {
        Self {
            cpp: String::from_str(cpp_name),
            rust: String::from_str(rust_name),
            return_safe,
            dependency,
        }
    }

    /// A descriptor from the primitive catalogue. Every primitive is
    /// return-safe: it is a scalar or a pointer.
    pub fn primitive(k: PrimitiveKind) -> (r: Self)
        ensures
            r@ == primitive_model(k),
            r@.return_safe,
    {
        match k {
            PrimitiveKind::Bool => Self::new("bool", "bool", true, None),
            PrimitiveKind::Int8 => Self::qt_global("qint8", "i8"),
            PrimitiveKind::UInt8 => Self::qt_global("quint8", "u8"),
            PrimitiveKind::Int16 => Self::qt_global("qint16", "i16"),
            PrimitiveKind::UInt16 => Self::qt_global("quint16", "u16"),
            PrimitiveKind::Int32 => Self::qt_global("qint32", "i32"),
            PrimitiveKind::UInt32 => Self::qt_global("quint32", "u32"),
            PrimitiveKind::Int64 => Self::qt_global("qint64", "i64"),
            PrimitiveKind::UInt64 => Self::qt_global("quint64", "u64"),
            PrimitiveKind::Float32 => Self::new("float", "f32", true, None),
            PrimitiveKind::Float64 => Self::new("double", "f64", true, None),
            PrimitiveKind::BytePtr => Self::void_mut_ptr(),
            PrimitiveKind::ConstCharPtr => Self::new(
                "const char*",
                "*const std::os::raw::c_char",
                true,
                None,
            ),
            PrimitiveKind::MutCharPtr => Self::new(
                "char*",
                "*mut std::os::raw::c_char",
                true,
                None,
            ),
        }
    }

    fn qt_global(cpp_name: &str, rust_name: &str) -> (r: Self)
        ensures
            r@ == qt_global_model(cpp_name@, rust_name@),
    {
        Self::new(
            cpp_name,
            rust_name,
            true,
            Some(Include::System(String::from_str("QtGlobal"))),
        )
    }

    /// The opaque handle type: a mutable byte pointer.
    pub fn void_mut_ptr() -> (r: Self)
        ensures
            r@ == plain_model("void*"@, "*mut std::ffi::c_void"@),
            r@.return_safe,
    {
        Self::new("void*", "*mut std::ffi::c_void", true, None)
    }

    /// The base object, passed by value: not return-safe.
    pub fn qobject() -> (r: Self)
        ensures
            r@ == qobject_model(),
            !r@.return_safe,
    {
        Self::new(
            "QObject",
            "qt5qml::core::QObject",
            false,
            Some(Include::System(String::from_str("QObject"))),
        )
    }

    /// A class generated by this crate: named object, not return-safe.
    pub fn generated(name: &str) -> (r: Self)
        ensures
            r@ == generated_model(name@),
            !r@.return_safe,
    {
        Self::new(name, name, false, None)
    }

    /// A pointer to the base object: return-safe.
    pub fn qobject_ptr() -> (r: Self)
        ensures
            r@ == qobject_ptr_model(),
            r@.return_safe,
    {
        Self::new(
            "QObject*",
            "*mut qt5qml::core::QObject",
            true,
            Some(Include::System(String::from_str("QObject"))),
        )
    }

    /// A Qt core class by name: named object, not return-safe.
    pub fn qt_core_object(class_name: &str) -> (r: Self)
        ensures
            r@ == qt_core_object_model(class_name@),
            !r@.return_safe,
    {
        let mut rust = String::from_str("qt5qml::core::");
        rust.append(class_name);
        Self {
            cpp: String::from_str(class_name),
            rust,
            return_safe: false,
            dependency: Some(Include::System(String::from_str(class_name))),
        }
    }

    /// The Qt string class.
    pub fn qstring() -> (r: Self)
        ensures
            r@ == qt_core_object_model("QString"@),
            !r@.return_safe,
    {
        Self::qt_core_object("QString")
    }

    /// The descriptor of a Rust type carrying one.
    pub fn from_type<T: TypeRefTrait>() -> (r: Self)
        ensures
            r@ == T::model(),
    {
        T::type_ref()
    }

    /// Mutable-pointer form: return-safe whatever the base was.
    pub fn with_mut_ptr(self) -> (r: Self)
        ensures
            r@ == mut_ptr_model(self@),
            r@.return_safe,
    {
        let mut cpp = self.cpp;
        cpp.append("*");
        let mut rust = String::from_str("*mut ");
        rust.append(self.rust.as_str());
        Self { cpp, rust, return_safe: true, dependency: self.dependency }
    }

    /// Const-pointer form: return-safe whatever the base was.
    pub fn with_const_ptr(self) -> (r: Self)
        ensures
            r@ == const_ptr_model(self@),
            r@.return_safe,
    {
        let mut cpp = String::from_str("const ");
        cpp.append(self.cpp.as_str());
        cpp.append("*");
        let mut rust = String::from_str("*const ");
        rust.append(self.rust.as_str());
        Self { cpp, rust, return_safe: true, dependency: self.dependency }
    }

    /// Mutable-reference form: return-safe whatever the base was.
    pub fn with_mut_ref(self) -> (r: Self)
        ensures
            r@ == mut_ref_model(self@),
            r@.return_safe,
    {
        let mut cpp = self.cpp;
        cpp.append("&");
        let mut rust = String::from_str("&mut ");
        rust.append(self.rust.as_str());
        Self { cpp, rust, return_safe: true, dependency: self.dependency }
    }

    /// Const-reference form: return-safe whatever the base was.
    pub fn with_const_ref(self) -> (r: Self)
        ensures
            r@ == const_ref_model(self@),
            r@.return_safe,
    {
        let mut cpp = String::from_str("const ");
        cpp.append(self.cpp.as_str());
        cpp.append("&");
        let mut rust = String::from_str("&");
        rust.append(self.rust.as_str());
        Self { cpp, rust, return_safe: true, dependency: self.dependency }
    }

    /// The C++ spelling.
    pub fn cpp_type(&self) -> (r: &str)
        ensures
            r@ == self@.cpp,
    {
        self.cpp.as_str()
    }

    /// The Rust spelling.
    pub fn rust_type(&self) -> (r: &str)
        ensures
            r@ == self@.rust,
    {
        self.rust.as_str()
    }

    /// The header dependency, if any.
    pub fn dependency(&self) -> (r: &Option<Include>)
        ensures
            r.deep_view() == self@.dependency,
    {
        &self.dependency
    }

    /// Whether the type can be returned directly across the boundary.
    pub fn return_safe(&self) -> (r: bool)
        ensures
            r == self@.return_safe,
    {
        self.return_safe
    }

    /// An explicit copy, with the copy's value pinned.
    pub fn dup(&self) -> (r: TypeRef)
        ensures
            r@ == self@,
    {
        let r = TypeRef {
            cpp: self.cpp.clone(),
            rust: self.rust.clone(),
            return_safe: self.return_safe,
            dependency: dup_opt_include(&self.dependency),
        };
        proof {
            assert(r@ =~= self@);
        }
        r
    }
}

/// Rust types that carry a value-type descriptor.
pub trait TypeRefTrait {
    /// The descriptor's value.
    spec fn model() -> TypeModel;

    /// The descriptor itself.
    fn type_ref() -> (r: TypeRef)
        ensures
            r@ == Self::model(),
    ;
}

impl<T: TypeRefTrait> TypeRefTrait for &T {
    open spec fn model() -> TypeModel {
        const_ref_model(T::model())
    }

    fn type_ref() -> (r: TypeRef) {
        T::type_ref().with_const_ref()
    }
}

impl<T: TypeRefTrait> TypeRefTrait for &mut T {
    open spec fn model() -> TypeModel {
        mut_ref_model(T::model())
    }

    fn type_ref() -> (r: TypeRef) {
        T::type_ref().with_mut_ref()
    }
}

/// Stands for the Qt model-index class in descriptor positions.
pub struct QModelIndex;

/// Stands for the Qt base object in descriptor positions.
pub struct QObject;

/// Stands for the Qt string class in descriptor positions.
pub struct QString;

/// Stands for the Qt byte-array class in descriptor positions.
pub struct QByteArray;

/// Stands for the Qt variant class in descriptor positions.
pub struct QVariant;

/// Stands for the Qt hash from int to byte array in descriptor positions.
pub struct QHashIntQByteArray;

impl TypeRefTrait for i8 {
    open spec fn model() -> TypeModel {
        primitive_model(PrimitiveKind::Int8)
    }

    fn type_ref() -> (r: TypeRef) {
        TypeRef::primitive(PrimitiveKind::Int8)
    }
}

impl TypeRefTrait for u8 {
    open spec fn model() -> TypeModel {
        primitive_model(PrimitiveKind::UInt8)
    }

    fn type_ref() -> (r: TypeRef) {
        TypeRef::primitive(PrimitiveKind::UInt8)
    }
}

impl TypeRefTrait for i16 {
    open spec fn model() -> TypeModel {
        primitive_model(PrimitiveKind::Int16)
    }

    fn type_ref() -> (r: TypeRef) {
        TypeRef::primitive(PrimitiveKind::Int16)
    }
}

impl TypeRefTrait for u16 {
    open spec fn model() -> TypeModel {
        primitive_model(PrimitiveKind::UInt16)
    }

    fn type_ref() -> (r: TypeRef) {
        TypeRef::primitive(PrimitiveKind::UInt16)
    }
}

impl TypeRefTrait for i32 {
    open spec fn model() -> TypeModel {
        primitive_model(PrimitiveKind::Int32)
    }

    fn type_ref() -> (r: TypeRef) {
        TypeRef::primitive(PrimitiveKind::Int32)
    }
}

impl TypeRefTrait for u32 {
    open spec fn model() -> TypeModel {
        primitive_model(PrimitiveKind::UInt32)
    }

    fn type_ref() -> (r: TypeRef) {
        TypeRef::primitive(PrimitiveKind::UInt32)
    }
}

impl TypeRefTrait for i64 {
    open spec fn model() -> TypeModel {
        primitive_model(PrimitiveKind::Int64)
    }

    fn type_ref() -> (r: TypeRef) {
        TypeRef::primitive(PrimitiveKind::Int64)
    }
}

impl TypeRefTrait for u64 {
    open spec fn model() -> TypeModel {
        primitive_model(PrimitiveKind::UInt64)
    }

    fn type_ref() -> (r: TypeRef) {
        TypeRef::primitive(PrimitiveKind::UInt64)
    }
}

impl TypeRefTrait for bool {
    open spec fn model() -> TypeModel {
        primitive_model(PrimitiveKind::Bool)
    }

    fn type_ref() -> (r: TypeRef) {
        TypeRef::primitive(PrimitiveKind::Bool)
    }
}

impl TypeRefTrait for QModelIndex {
    open spec fn model() -> TypeModel {
        qt_core_object_model("QModelIndex"@)
    }

    fn type_ref() -> (r: TypeRef) {
        TypeRef::qt_core_object("QModelIndex")
    }
}

impl TypeRefTrait for QObject {
    open spec fn model() -> TypeModel {
        qobject_model()
    }

    fn type_ref() -> (r: TypeRef) {
        TypeRef::qobject()
    }
}

impl TypeRefTrait for QString {
    open spec fn model() -> TypeModel {
        qt_core_object_model("QString"@)
    }

    fn type_ref() -> (r: TypeRef) {
        TypeRef::qstring()
    }
}

impl TypeRefTrait for QByteArray {
    open spec fn model() -> TypeModel {
        qt_core_object_model("QByteArray"@)
    }

    fn type_ref() -> (r: TypeRef) {
        TypeRef::qt_core_object("QByteArray")
    }
}

impl TypeRefTrait for QVariant {
    open spec fn model() -> TypeModel {
        qt_core_object_model("QVariant"@)
    }

    fn type_ref() -> (r: TypeRef) {
        TypeRef::qt_core_object("QVariant")
    }
}

impl TypeRefTrait for QHashIntQByteArray {
    open spec fn model() -> TypeModel {
        TypeModel {
            cpp: "QHash<int, QByteArray>"@,
            rust: "qt5qml::core::QHashIntQByteArray"@,
            return_safe: false,
            dependency: Some(IncludeModel::System("QHash"@)),
        }
    }

    fn type_ref() -> (r: TypeRef) {
        TypeRef::new(
            "QHash<int, QByteArray>",
            "qt5qml::core::QHashIntQByteArray",
            false,
            Some(Include::System(String::from_str("QHash"))),
        )
    }
}

} // verus!

verus! {

use crate::strutil::str_eq;

/// The descriptor a bare type name denotes in attribute syntax, if any: the
/// front end resolves names against this closed catalogue.
pub open spec fn named_model(name: Seq<char>) -> Option<TypeModel> {
    if name == "QObject"@ {
        Some(qobject_model())
    } else if name == "QString"@ {
        Some(qt_core_object_model("QString"@))
    } else if name == "QByteArray"@ {
        Some(qt_core_object_model("QByteArray"@))
    } else if name == "QModelIndex"@ {
        Some(qt_core_object_model("QModelIndex"@))
    } else if name == "QVariant"@ {
        Some(qt_core_object_model("QVariant"@))
    } else if name == "QHashIntQByteArray"@ {
        Some(
            TypeModel {
                cpp: "QHash<int, QByteArray>"@,
                rust: "qt5qml::core::QHashIntQByteArray"@,
                return_safe: false,
                dependency: Some(IncludeModel::System("QHash"@)),
            },
        )
    } else if name == "i8"@ {
        Some(primitive_model(PrimitiveKind::Int8))
    } else if name == "u8"@ {
        Some(primitive_model(PrimitiveKind::UInt8))
    } else if name == "i16"@ {
        Some(primitive_model(PrimitiveKind::Int16))
    } else if name == "u16"@ {
        Some(primitive_model(PrimitiveKind::UInt16))
    } else if name == "i32"@ {
        Some(primitive_model(PrimitiveKind::Int32))
    } else if name == "u32"@ {
        Some(primitive_model(PrimitiveKind::UInt32))
    } else if name == "i64"@ {
        Some(primitive_model(PrimitiveKind::Int64))
    } else if name == "u64"@ {
        Some(primitive_model(PrimitiveKind::UInt64))
    } else if name == "f32"@ {
        Some(primitive_model(PrimitiveKind::Float32))
    } else if name == "f64"@ {
        Some(primitive_model(PrimitiveKind::Float64))
    } else if name == "bool"@ {
        Some(primitive_model(PrimitiveKind::Bool))
    } else {
        None
    }
}

/// Resolves a bare type name against the catalogue; an unknown name is
/// reported to the caller, never deferred into rendering.
pub fn named_type_ref(name: &str) -> (r: Option<TypeRef>)
    ensures
        r.deep_view() == named_model(name@),
{
    if str_eq(name, "QObject") {
        Some(TypeRef::qobject())
    } else if str_eq(name, "QString") {
        Some(TypeRef::qstring())
    } else if str_eq(name, "QByteArray") {
        Some(TypeRef::qt_core_object("QByteArray"))
    } else if str_eq(name, "QModelIndex") {
        Some(TypeRef::qt_core_object("QModelIndex"))
    } else if str_eq(name, "QVariant") {
        Some(TypeRef::qt_core_object("QVariant"))
    } else if str_eq(name, "QHashIntQByteArray") {
        Some(
            TypeRef::new(
                "QHash<int, QByteArray>",
                "qt5qml::core::QHashIntQByteArray",
                false,
                Some(Include::System(String::from_str("QHash"))),
            ),
        )
    } else if str_eq(name, "i8") {
        Some(TypeRef::primitive(PrimitiveKind::Int8))
    } else if str_eq(name, "u8") {
        Some(TypeRef::primitive(PrimitiveKind::UInt8))
    } else if str_eq(name, "i16") {
        Some(TypeRef::primitive(PrimitiveKind::Int16))
    } else if str_eq(name, "u16") {
        Some(TypeRef::primitive(PrimitiveKind::UInt16))
    } else if str_eq(name, "i32") {
        Some(TypeRef::primitive(PrimitiveKind::Int32))
    } else if str_eq(name, "u32") {
        Some(TypeRef::primitive(PrimitiveKind::UInt32))
    } else if str_eq(name, "i64") {
        Some(TypeRef::primitive(PrimitiveKind::Int64))
    } else if str_eq(name, "u64") {
        Some(TypeRef::primitive(PrimitiveKind::UInt64))
    } else if str_eq(name, "f32") {
        Some(TypeRef::primitive(PrimitiveKind::Float32))
    } else if str_eq(name, "f64") {
        Some(TypeRef::primitive(PrimitiveKind::Float64))
    } else if str_eq(name, "bool") {
        Some(TypeRef::primitive(PrimitiveKind::Bool))
    } else {
        None
    }
}

} // verus!
