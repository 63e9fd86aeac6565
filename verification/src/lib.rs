//! Build-time generator for introspectable C++ classes backed by Rust state.
//!
//! An object description (properties, methods, slots, signals) is turned into
//! two synchronized artifacts: a C++ class declaration with glue-call bodies,
//! and Rust bindings that reach the class through a narrow extern boundary.
//! Both artifacts are rendered from the same crossing descriptors, so a call
//! that crosses the boundary can never disagree in arity, type spelling or
//! return convention.

pub mod dependent;
pub mod ffi;
pub mod generate;
pub mod generate_rust;
pub mod moc;
pub mod qobject;
pub mod strutil;
pub mod typeref;
pub mod utils;

pub use crate::qobject::{QObjectMethod, QObjectProp, QObjectSignal};
pub use crate::typeref::{Include, TypeRef, TypeRefTrait};

use vstd::prelude::*;

use crate::qobject::{ConfigModel, QObjectConfig};

verus! {

/// Builder for one generated C++ class.
pub struct QObjectBuild {
    obj: QObjectConfig,
}

impl View for QObjectBuild {
    type V = ConfigModel;

    closed spec fn view(&self) -> ConfigModel {
        self.obj@
    }
}

impl QObjectBuild {
    /// Construct builder for a class named `name`.
    pub fn new(name: &str) -> (r: Self)
        ensures
            r@ == (ConfigModel {
                name: name@,
                base_class: crate::typeref::qobject_model(),
                properties: Seq::empty(),
                methods: Seq::empty(),
                slots: Seq::empty(),
                signals: Seq::empty(),
                qml: true,
            }),
            crate::qobject::config_attached(r@),
    {
        Self { obj: QObjectConfig::new(name) }
    }

    /// Set super class. Default is the base object.
    pub fn inherit(&mut self, type_ref: TypeRef)
        ensures
            final(self)@ == (ConfigModel { base_class: type_ref@, ..old(self)@ }),
            crate::qobject::config_attached(old(self)@) ==> crate::qobject::config_attached(
                final(self)@,
            ),
    {
        self.obj.inherit(type_ref);
    }

    /// Add a property.
    pub fn property(&mut self, prop: QObjectProp)
        ensures
            final(self)@ == (ConfigModel {
                properties: old(self)@.properties.push(prop@),
                ..old(self)@
            }),
            crate::qobject::config_attached(old(self)@) ==> crate::qobject::config_attached(
                final(self)@,
            ),
    {
        self.obj.property(prop);
    }

    /// Add a method.
    pub fn method(&mut self, meth: QObjectMethod)
        ensures
            final(self)@ == (ConfigModel {
                methods: old(self)@.methods.push(
                    crate::qobject::MethodModel {
                        ffi_name: Some(crate::qobject::spec_ffi_name(old(self)@.name, meth@.name)),
                        ..meth@
                    },
                ),
                ..old(self)@
            }),
            crate::qobject::config_attached(old(self)@) ==> crate::qobject::config_attached(
                final(self)@,
            ),
    {
        self.obj.method(meth);
    }

    /// Add a slot.
    pub fn slot(&mut self, meth: QObjectMethod)
        ensures
            final(self)@ == (ConfigModel {
                slots: old(self)@.slots.push(
                    crate::qobject::MethodModel {
                        ffi_name: Some(crate::qobject::spec_ffi_name(old(self)@.name, meth@.name)),
                        ..meth@
                    },
                ),
                ..old(self)@
            }),
            crate::qobject::config_attached(old(self)@) ==> crate::qobject::config_attached(
                final(self)@,
            ),
    {
        self.obj.slot(meth);
    }

    /// Add a signal.
    pub fn signal(&mut self, signal: QObjectSignal)
        ensures
            final(self)@ == (ConfigModel {
                signals: old(self)@.signals.push(signal@),
                ..old(self)@
            }),
            crate::qobject::config_attached(old(self)@) ==> crate::qobject::config_attached(
                final(self)@,
            ),
    {
        self.obj.signal(signal);
    }

    /// Set whether the dynamic-registration entry point is generated.
    pub fn qml(&mut self, value: bool)
        ensures
            final(self)@ == (ConfigModel { qml: value, ..old(self)@ }),
            crate::qobject::config_attached(old(self)@) ==> crate::qobject::config_attached(
                final(self)@,
            ),
    {
        self.obj.qml(value);
    }

    /// The finished object description.
    pub fn config(&self) -> (r: &QObjectConfig)
        ensures
            r@ == self@,
    {
        &self.obj
    }
}

} // verus!
