//! The object model: properties, methods, slots and signals, and the owning
//! object description.
//!
//! Methods and slots are attached when they are added to an object: the
//! attachment resolves the globally unique crossing name
//! `Qffi_<ObjectName>_<memberName>` under which the member crosses the
//! extern boundary.

use vstd::prelude::*;

use crate::typeref::{TypeModel, TypeRef, TypeRefTrait};

verus! {

/// One named, typed argument.
pub type ArgModel = (Seq<char>, TypeModel);

/// A property of an object.
#[derive(Clone, Debug)]
pub struct QObjectProp {
    pub(crate) name: String,
    pub(crate) type_ref: TypeRef,
    pub(crate) getter: Option<String>,
    pub(crate) setter: Option<String>,
    pub(crate) signal: Option<String>,
    pub(crate) const_: bool,
}

/// Mathematical value of [`QObjectProp`].
#[verifier::ext_equal]
pub struct PropModel {
    pub name: Seq<char>,
    pub type_ref: TypeModel,
    pub getter: Option<Seq<char>>,
    pub setter: Option<Seq<char>>,
    pub signal: Option<Seq<char>>,
    pub const_: bool,
}

impl View for QObjectProp {
    type V = PropModel;

    closed spec fn view(&self) -> PropModel {
        PropModel {
            name: self.name@,
            type_ref: self.type_ref@,
            getter: self.getter.deep_view(),
            setter: self.setter.deep_view(),
            signal: self.signal.deep_view(),
            const_: self.const_,
        }
    }
}

impl DeepView for QObjectProp {
    type V = PropModel;

    open spec fn deep_view(&self) -> PropModel {
        self.view()
    }
}

impl QObjectProp {
    /// A property whose type is carried by `T`.
    pub fn new<T: TypeRefTrait>(name: &str) -> (r: Self)
        ensures
            r@ == (PropModel {
                name: name@,
                type_ref: T::model(),
                getter: None,
                setter: None,
                signal: None,
                const_: false,
            }),
    {
        Self::new_with_type(T::type_ref(), name)
    }

    /// A property with an explicit type descriptor.
    pub fn new_with_type(type_ref: TypeRef, name: &str) -> (r: Self)
        ensures
            r@ == (PropModel {
                name: name@,
                type_ref: type_ref@,
                getter: None,
                setter: None,
                signal: None,
                const_: false,
            }),
    {
        Self {
            name: String::from_str(name),
            type_ref,
            getter: None,
            setter: None,
            signal: None,
            const_: false,
        }
    }

    /// Names the getter member.
    pub fn read(self, getter: &str) -> (r: Self)
        ensures
            r@ == (PropModel { getter: Some(getter@), ..self@ }),
    {
        Self { getter: Some(String::from_str(getter)), ..self }
    }

    /// Names the setter member.
    pub fn write(self, setter: &str) -> (r: Self)
        ensures
            r@ == (PropModel { setter: Some(setter@), ..self@ }),
    {
        Self { setter: Some(String::from_str(setter)), ..self }
    }

    /// Names the change-notification signal.
    pub fn notify(self, signal: &str) -> (r: Self)
        ensures
            r@ == (PropModel { signal: Some(signal@), ..self@ }),
    {
        Self { signal: Some(String::from_str(signal)), ..self }
    }

    /// Marks the property constant.
    pub fn const_(self) -> (r: Self)
        ensures
            r@ == (PropModel { const_: true, ..self@ }),
    {
        Self { const_: true, ..self }
    }

    pub(crate) fn type_ref(&self) -> (r: &TypeRef)
        ensures
            r@ == self@.type_ref,
    {
        &self.type_ref
    }

    pub(crate) fn name_ref(&self) -> (r: &String)
        ensures
            r@ == self@.name,
    {
        &self.name
    }

    pub(crate) fn getter_ref(&self) -> (r: &Option<String>)
        ensures
            r.deep_view() == self@.getter,
    {
        &self.getter
    }

    pub(crate) fn setter_ref(&self) -> (r: &Option<String>)
        ensures
            r.deep_view() == self@.setter,
    {
        &self.setter
    }

    pub(crate) fn signal_ref(&self) -> (r: &Option<String>)
        ensures
            r.deep_view() == self@.signal,
    {
        &self.signal
    }

    pub(crate) fn is_const(&self) -> (r: bool)
        ensures
            r == self@.const_,
    {
        self.const_
    }
}

/// A fire-and-forget notification: named arguments, no return type.
#[derive(Clone, Debug)]
pub struct QObjectSignal {
    pub(crate) name: String,
    pub(crate) args: Vec<(String, TypeRef)>,
}

/// Mathematical value of [`QObjectSignal`].
#[verifier::ext_equal]
pub struct SignalModel {
    pub name: Seq<char>,
    pub args: Seq<ArgModel>,
}

impl View for QObjectSignal {
    type V = SignalModel;

    closed spec fn view(&self) -> SignalModel {
        SignalModel { name: self.name@, args: self.args.deep_view() }
    }
}

impl DeepView for QObjectSignal {
    type V = SignalModel;

    open spec fn deep_view(&self) -> SignalModel {
        self.view()
    }
}

impl QObjectSignal {
    pub fn new(name: &str) -> (r: Self)
        ensures
            r@ == (SignalModel { name: name@, args: Seq::empty() }),
    {
        let r = Self { name: String::from_str(name), args: Vec::new() };
        proof {
            assert(r@ =~= (SignalModel { name: name@, args: Seq::empty() }));
        }
        r
    }

    /// Appends an argument whose type is carried by `T`.
    pub fn arg<T: TypeRefTrait>(self, name: &str) -> (r: Self)
        ensures
            r@ == (SignalModel { args: self@.args.push((name@, T::model())), ..self@ }),
    {
        self.arg_with_type(name, T::type_ref())
    }

    /// Appends an argument with an explicit type descriptor.
    pub fn arg_with_type(self, name: &str, type_ref: TypeRef) -> (r: Self)
        ensures
            r@ == (SignalModel { args: self@.args.push((name@, type_ref@)), ..self@ }),
    {
        let mut args = self.args;
        let ghost old_args = args.deep_view();
        args.push((String::from_str(name), type_ref));
        let r = Self { name: self.name, args };
        proof {
            assert(r@.args =~= old_args.push((name@, type_ref@)));
        }
        r
    }

    pub(crate) fn name_ref(&self) -> (r: &String)
        ensures
            r@ == self@.name,
    {
        &self.name
    }

    pub(crate) fn args_ref(&self) -> (r: &Vec<(String, TypeRef)>)
        ensures
            r.deep_view() == self@.args,
    {
        &self.args
    }
}

/// A callable member: a method, or (when added as one) a slot.
#[derive(Clone, Debug)]
pub struct QObjectMethod {
    pub(crate) name: String,
    pub(crate) ffi_name: Option<String>,
    pub(crate) args: Vec<(String, TypeRef)>,
    pub(crate) rtype: Option<TypeRef>,
    pub(crate) scriptable: bool,
    pub(crate) invokable: bool,
    pub(crate) const_: bool,
    pub(crate) override_: bool,
    pub(crate) proxy_class: Option<String>,
}

/// Mathematical value of [`QObjectMethod`].
#[verifier::ext_equal]
pub struct MethodModel {
    pub name: Seq<char>,
    pub ffi_name: Option<Seq<char>>,
    pub args: Seq<ArgModel>,
    pub rtype: Option<TypeModel>,
    pub scriptable: bool,
    pub invokable: bool,
    pub const_: bool,
    pub override_: bool,
    pub proxy_class: Option<Seq<char>>,
}

impl View for QObjectMethod {
    type V = MethodModel;

    closed spec fn view(&self) -> MethodModel {
        MethodModel {
            name: self.name@,
            ffi_name: self.ffi_name.deep_view(),
            args: self.args.deep_view(),
            rtype: self.rtype.deep_view(),
            scriptable: self.scriptable,
            invokable: self.invokable,
            const_: self.const_,
            override_: self.override_,
            proxy_class: self.proxy_class.deep_view(),
        }
    }
}

impl DeepView for QObjectMethod {
    type V = MethodModel;

    open spec fn deep_view(&self) -> MethodModel {
        self.view()
    }
}

/// The crossing name of a member of a class.
pub open spec fn spec_ffi_name(cls: Seq<char>, member: Seq<char>) -> Seq<char> {
    "Qffi_"@ + cls + "_"@ + member
}

impl QObjectMethod {
    pub fn new(name: &str) -> (r: Self)
        ensures
            r@ == (MethodModel {
                name: name@,
                ffi_name: None,
                args: Seq::empty(),
                rtype: None,
                scriptable: false,
                invokable: false,
                const_: false,
                override_: false,
                proxy_class: None,
            }),
    {
        let r = Self {
            name: String::from_str(name),
            ffi_name: None,
            args: Vec::new(),
            rtype: None,
            scriptable: false,
            invokable: false,
            const_: false,
            override_: false,
            proxy_class: None,
        };
        proof {
            assert(r@.args =~= Seq::<ArgModel>::empty());
        }
        r
    }

    /// Appends an argument whose type is carried by `T`.
    pub fn arg<T: TypeRefTrait>(self, name: &str) -> (r: Self)
        ensures
            r@ == (MethodModel { args: self@.args.push((name@, T::model())), ..self@ }),
    {
        self.arg_with_type(name, T::type_ref())
    }

    /// Appends an argument with an explicit type descriptor.
    pub fn arg_with_type(self, name: &str, type_ref: TypeRef) -> (r: Self)
        ensures
            r@ == (MethodModel { args: self@.args.push((name@, type_ref@)), ..self@ }),
    {
        let mut args = self.args;
        let ghost old_args = args.deep_view();
        args.push((String::from_str(name), type_ref));
        let r = Self { args, ..self };
        proof {
            assert(r@.args =~= old_args.push((name@, type_ref@)));
        }
        r
    }

    /// Sets the return type from `T`.
    pub fn ret<T: TypeRefTrait>(self) -> (r: Self)
        ensures
            r@ == (MethodModel { rtype: Some(T::model()), ..self@ }),
    {
        self.ret_type(T::type_ref())
    }

    /// Sets the return type explicitly.
    pub fn ret_type(self, type_ref: TypeRef) -> (r: Self)
        ensures
            r@ == (MethodModel { rtype: Some(type_ref@), ..self@ }),
    {
        Self { rtype: Some(type_ref), ..self }
    }

    /// Marks the member scriptable for the introspection runtime.
    pub fn scriptable(self) -> (r: Self)
        ensures
            r@ == (MethodModel { scriptable: true, ..self@ }),
    {
        Self { scriptable: true, ..self }
    }

    /// Marks the member invokable by the introspection runtime.
    pub fn invokable(self) -> (r: Self)
        ensures
            r@ == (MethodModel { invokable: true, ..self@ }),
    {
        Self { invokable: true, ..self }
    }

    /// Forwards the call to the named base-class implementation.
    pub fn proxy(self, cls: &str) -> (r: Self)
        ensures
            r@ == (MethodModel { proxy_class: Some(cls@), ..self@ }),
    {
        Self { proxy_class: Some(String::from_str(cls)), ..self }
    }

    /// Marks the member const-qualified.
    pub fn const_(self) -> (r: Self)
        ensures
            r@ == (MethodModel { const_: true, ..self@ }),
    {
        Self { const_: true, ..self }
    }

    /// Marks the member as overriding a base-class member.
    pub fn override_(self) -> (r: Self)
        ensures
            r@ == (MethodModel { override_: true, ..self@ }),
    {
        Self { override_: true, ..self }
    }

    /// Resolves the crossing name against the owning class. Idempotent in
    /// effect: a second attachment to the same class resolves the same name.
    pub fn attach(self, cls: &QObjectConfig) -> (r: Self)
        ensures
            r@ == (MethodModel {
                ffi_name: Some(spec_ffi_name(cls@.name, self@.name)),
                ..self@
            }),
    {
        let mut n = String::from_str("Qffi_");
        n.append(cls.name.as_str());
        n.append("_");
        n.append(self.name.as_str());
        Self { ffi_name: Some(n), ..self }
    }

    /// The resolved crossing name; the member must have been attached.
    pub fn get_ffi_name(&self) -> (r: &str)
        requires
            self@.ffi_name is Some,
        ensures
            Some(r@) == self@.ffi_name,
    {
        self.ffi_name.as_ref().unwrap().as_str()
    }

    pub(crate) fn name_ref(&self) -> (r: &String)
        ensures
            r@ == self@.name,
    {
        &self.name
    }

    pub(crate) fn args_ref(&self) -> (r: &Vec<(String, TypeRef)>)
        ensures
            r.deep_view() == self@.args,
    {
        &self.args
    }

    pub(crate) fn rtype_ref(&self) -> (r: &Option<TypeRef>)
        ensures
            r.deep_view() == self@.rtype,
    {
        &self.rtype
    }

    pub(crate) fn proxy_ref(&self) -> (r: &Option<String>)
        ensures
            r.deep_view() == self@.proxy_class,
    {
        &self.proxy_class
    }

    pub(crate) fn is_scriptable(&self) -> (r: bool)
        ensures
            r == self@.scriptable,
    {
        self.scriptable
    }

    pub(crate) fn is_invokable(&self) -> (r: bool)
        ensures
            r == self@.invokable,
    {
        self.invokable
    }

    pub(crate) fn is_const(&self) -> (r: bool)
        ensures
            r == self@.const_,
    {
        self.const_
    }

    pub(crate) fn is_override(&self) -> (r: bool)
        ensures
            r == self@.override_,
    {
        self.override_
    }
}

/// The description of one generated class.
#[derive(Clone, Debug)]
pub struct QObjectConfig {
    pub(crate) name: String,
    pub(crate) base_class: TypeRef,
    pub(crate) properties: Vec<QObjectProp>,
    pub(crate) methods: Vec<QObjectMethod>,
    pub(crate) slots: Vec<QObjectMethod>,
    pub(crate) signals: Vec<QObjectSignal>,
    pub(crate) qml: bool,
}

/// Mathematical value of [`QObjectConfig`].
#[verifier::ext_equal]
pub struct ConfigModel {
    pub name: Seq<char>,
    pub base_class: TypeModel,
    pub properties: Seq<PropModel>,
    pub methods: Seq<MethodModel>,
    pub slots: Seq<MethodModel>,
    pub signals: Seq<SignalModel>,
    pub qml: bool,
}

impl View for QObjectConfig {
    type V = ConfigModel;

    closed spec fn view(&self) -> ConfigModel {
        ConfigModel {
            name: self.name@,
            base_class: self.base_class@,
            properties: self.properties.deep_view(),
            methods: self.methods.deep_view(),
            slots: self.slots.deep_view(),
            signals: self.signals.deep_view(),
            qml: self.qml,
        }
    }
}

impl DeepView for QObjectConfig {
    type V = ConfigModel;

    open spec fn deep_view(&self) -> ConfigModel {
        self.view()
    }
}

/// Every method and slot carries its resolved crossing name.
pub open spec fn config_attached(c: ConfigModel) -> bool {
    &&& forall|i: int|
        0 <= i < c.methods.len() ==> (#[trigger] c.methods[i]).ffi_name == Some(
            spec_ffi_name(c.name, c.methods[i].name),
        )
    &&& forall|i: int|
        0 <= i < c.slots.len() ==> (#[trigger] c.slots[i]).ffi_name == Some(
            spec_ffi_name(c.name, c.slots[i].name),
        )
}

impl QObjectConfig {
    /// A class description with the default base object and dynamic
    /// registration switched on.
    pub fn new(name: &str) -> (r: Self)
        ensures
            r@ == (ConfigModel {
                name: name@,
                base_class: crate::typeref::qobject_model(),
                properties: Seq::empty(),
                methods: Seq::empty(),
                slots: Seq::empty(),
                signals: Seq::empty(),
                qml: true,
            }),
            config_attached(r@),
    {
        let r = Self {
            name: String::from_str(name),
            base_class: TypeRef::qobject(),
            properties: Vec::new(),
            methods: Vec::new(),
            signals: Vec::new(),
            slots: Vec::new(),
            qml: true,
        };
        proof {
            assert(r@ =~= (ConfigModel {
                name: name@,
                base_class: crate::typeref::qobject_model(),
                properties: Seq::empty(),
                methods: Seq::empty(),
                slots: Seq::empty(),
                signals: Seq::empty(),
                qml: true,
            }));
        }
        r
    }

    /// Sets the base class.
    pub fn inherit(&mut self, type_ref: TypeRef)
        ensures
            final(self)@ == (ConfigModel { base_class: type_ref@, ..old(self)@ }),
            config_attached(old(self)@) ==> config_attached(final(self)@),
    {
        self.base_class = type_ref;
    }

    /// Adds a property.
    pub fn property(&mut self, prop: QObjectProp)
        ensures
            final(self)@ == (ConfigModel {
                properties: old(self)@.properties.push(prop@),
                ..old(self)@
            }),
            config_attached(old(self)@) ==> config_attached(final(self)@),
    {
        self.properties.push(prop);
        proof {
            assert(self@.properties =~= old(self)@.properties.push(prop@));
            assert(self@ =~= (ConfigModel {
                properties: old(self)@.properties.push(prop@),
                ..old(self)@
            }));
        }
    }

    /// Adds a method, attaching it to this class.
    pub fn method(&mut self, meth: QObjectMethod)
        ensures
            final(self)@ == (ConfigModel {
                methods: old(self)@.methods.push(
                    MethodModel {
                        ffi_name: Some(spec_ffi_name(old(self)@.name, meth@.name)),
                        ..meth@
                    },
                ),
                ..old(self)@
            }),
            config_attached(old(self)@) ==> config_attached(final(self)@),
    {
        let attached = meth.attach(self);
        self.methods.push(attached);
        proof {
            assert(self@.methods =~= old(self)@.methods.push(attached@));
            assert(self@ =~= (ConfigModel {
                methods: old(self)@.methods.push(attached@),
                ..old(self)@
            }));
        }
    }

    /// Adds a signal.
    pub fn signal(&mut self, signal: QObjectSignal)
        ensures
            final(self)@ == (ConfigModel {
                signals: old(self)@.signals.push(signal@),
                ..old(self)@
            }),
            config_attached(old(self)@) ==> config_attached(final(self)@),
    {
        self.signals.push(signal);
        proof {
            assert(self@.signals =~= old(self)@.signals.push(signal@));
            assert(self@ =~= (ConfigModel {
                signals: old(self)@.signals.push(signal@),
                ..old(self)@
            }));
        }
    }

    /// Adds a slot, attaching it to this class.
    pub fn slot(&mut self, slot: QObjectMethod)
        ensures
            final(self)@ == (ConfigModel {
                slots: old(self)@.slots.push(
                    MethodModel {
                        ffi_name: Some(spec_ffi_name(old(self)@.name, slot@.name)),
                        ..slot@
                    },
                ),
                ..old(self)@
            }),
            config_attached(old(self)@) ==> config_attached(final(self)@),
    {
        let attached = slot.attach(self);
        self.slots.push(attached);
        proof {
            assert(self@.slots =~= old(self)@.slots.push(attached@));
            assert(self@ =~= (ConfigModel {
                slots: old(self)@.slots.push(attached@),
                ..old(self)@
            }));
        }
    }

    /// Switches generation of the dynamic-registration entry point.
    pub fn qml(&mut self, value: bool)
        ensures
            final(self)@ == (ConfigModel { qml: value, ..old(self)@ }),
            config_attached(old(self)@) ==> config_attached(final(self)@),
    {
        self.qml = value;
    }

    /// The class name.
    pub fn class_name(&self) -> (r: &str)
        ensures
            r@ == self@.name,
    {
        self.name.as_str()
    }

    pub(crate) fn name_ref(&self) -> (r: &String)
        ensures
            r@ == self@.name,
    {
        &self.name
    }

    pub(crate) fn base_class_ref(&self) -> (r: &TypeRef)
        ensures
            r@ == self@.base_class,
    {
        &self.base_class
    }

    pub(crate) fn properties_ref(&self) -> (r: &Vec<QObjectProp>)
        ensures
            r.deep_view() == self@.properties,
    {
        &self.properties
    }

    pub(crate) fn methods_ref(&self) -> (r: &Vec<QObjectMethod>)
        ensures
            r.deep_view() == self@.methods,
    {
        &self.methods
    }

    pub(crate) fn slots_ref(&self) -> (r: &Vec<QObjectMethod>)
        ensures
            r.deep_view() == self@.slots,
    {
        &self.slots
    }

    pub(crate) fn signals_ref(&self) -> (r: &Vec<QObjectSignal>)
        ensures
            r.deep_view() == self@.signals,
    {
        &self.signals
    }

    pub(crate) fn qml_flag(&self) -> (r: bool)
        ensures
            r == self@.qml,
    {
        self.qml
    }
}

} // verus!
