//! The dual-surface emitter, Rust side: renders the extern block, the
//! Rust-authored crossing bodies, and one opaque-handle type with wrapper
//! methods per object.

use vstd::prelude::*;

use crate::ffi::{rust_param_seq, spec_rust_def, spec_rust_impl, FfiBridge, FfiFunction,
    FuncModel};
use crate::qobject::{ArgModel, ConfigModel, MethodModel, QObjectConfig, QObjectMethod,
    QObjectSignal, SignalModel};
use crate::strutil::{join_strings, spec_join};
use crate::typeref::TypeRef;
use crate::utils::{spec_to_snake_case, to_snake_case};

verus! {

/// The call-forwarding parameter list: `self` then the argument names.
pub open spec fn call_params(args: Seq<ArgModel>) -> Seq<Seq<char>> {
    seq!["self"@] + crate::generate::name_seq(args)
}

/// The declared wrapper parameters: a self reference then typed arguments.
pub open spec fn wrapper_args(recv: Seq<char>, args: Seq<ArgModel>) -> Seq<Seq<char>> {
    seq![recv] + rust_param_seq(args)
}

/// The extern declarations of the C++-authored crossings.
pub open spec fn rust_defs_text(fs: Seq<FuncModel>) -> Seq<char>
    decreases fs.len(),
{
    if fs.len() == 0 {
        Seq::empty()
    } else {
        rust_defs_text(fs.drop_last()) + spec_rust_def(fs.last()) + "\n"@
    }
}

/// The definitions of the Rust-authored crossings.
pub open spec fn rust_impls_text(fs: Seq<FuncModel>) -> Seq<char>
    decreases fs.len(),
{
    if fs.len() == 0 {
        Seq::empty()
    } else {
        rust_impls_text(fs.drop_last()) + spec_rust_impl(fs.last()) + "\n"@
    }
}

/// The wrapper of one proxy member: when the return type is not return-safe
/// it binds uninitialized storage, calls across the boundary, and only then
/// treats the storage as initialized.
pub open spec fn proxy_block_text(m: MethodModel) -> Seq<char> {
    let recv = if m.const_ {
        "&self"@
    } else {
        "&mut self"@
    };
    let args = spec_join(wrapper_args(recv, m.args), ", "@);
    let params = spec_join(call_params(m.args), ", "@);
    match m.rtype {
        Some(rt) => if !rt.return_safe {
            "\n    pub(crate) fn "@ + spec_to_snake_case(m.name) + "("@ + args + ") -> "@
                + rt.rust + " {\n        let mut out__ = std::mem::MaybeUninit::<"@ + rt.rust
                + ">::uninit();\n        unsafe { "@ + m.ffi_name->0 + "("@ + params
                + ", out__.as_mut_ptr()); }\n        unsafe { out__.assume_init() }\n    }\n\n"@
        } else {
            "\n    pub(crate) fn "@ + spec_to_snake_case(m.name) + "("@ + args + ") -> "@
                + rt.rust + " {\n        unsafe { "@ + m.ffi_name->0 + "("@ + params
                + ") }\n    }\n\n"@
        },
        None => "\n    pub(crate) fn "@ + spec_to_snake_case(m.name) + "("@ + args + ") -> "@
            + "()"@ + " {\n        unsafe { "@ + m.ffi_name->0 + "("@ + params
            + ") }\n    }\n\n"@,
    }
}

/// The wrappers of every proxy member.
pub open spec fn proxies_text(ms: Seq<MethodModel>) -> Seq<char>
    decreases ms.len(),
{
    if ms.len() == 0 {
        Seq::empty()
    } else {
        proxies_text(ms.drop_last()) + (if ms.last().proxy_class is Some {
            proxy_block_text(ms.last())
        } else {
            Seq::empty()
        })
    }
}

/// The wrapper that triggers one signal.
pub open spec fn signal_block_text(cls: Seq<char>, s: SignalModel) -> Seq<char> {
    "\n    pub(crate) fn "@ + spec_to_snake_case(s.name) + "("@ + spec_join(
        wrapper_args("&mut self"@, s.args),
        ", "@,
    ) + ") {\n        unsafe { Qffi_"@ + cls + "_"@ + s.name + "("@ + spec_join(
        call_params(s.args),
        ", "@,
    ) + "); }\n    }\n\n"@
}

/// The signal wrappers of an object.
pub open spec fn obj_signals_text(cls: Seq<char>, ss: Seq<SignalModel>) -> Seq<char>
    decreases ss.len(),
{
    if ss.len() == 0 {
        Seq::empty()
    } else {
        obj_signals_text(cls, ss.drop_last()) + signal_block_text(cls, ss.last())
    }
}

/// The dynamic-registration wrapper.
pub open spec fn register_block_text(cls: Seq<char>) -> Seq<char> {
    "\n    pub(crate) fn register_type(uri: &std::ffi::CStr, version_major: i32, version_minor: i32, qml_name: &std::ffi::CStr) -> i32 {\n        unsafe { Qffi_"@
        + cls + "_registerType(uri.as_ptr(), version_major, version_minor, qml_name.as_ptr()) }\n    }\n\n"@
}

/// The opaque-handle type and the head of its impl block.
pub open spec fn obj_head_text(cls: Seq<char>) -> Seq<char> {
    "\n#[repr(C)]\npub struct "@ + cls
        + " {\n    _private: [u8; 0],\n}\n\nimpl qt5qml::core::QObjectRef for "@ + cls
        + " {\n    fn as_qobject_mut(&mut self) -> &mut qt5qml::core::QObject {\n        unsafe { &mut *(self as *mut _ as *mut qt5qml::core::QObject) }\n    }\n\n    fn as_qobject(&self) -> &qt5qml::core::QObject {\n        unsafe { &*(self as *const _ as *const qt5qml::core::QObject) }\n    }\n}\n\nimpl "@
        + cls + " {\n    #[allow(unused)]\n    pub fn new() -> qt5qml::QBox<"@ + cls
        + "> {\n        unsafe { qt5qml::QBox::from_raw(Qffi_"@ + cls
        + "_new(std::ptr::null_mut())) }\n    }\n\n    #[allow(unused)]\n    pub fn new_with_parent(parent: &mut qt5qml::core::QObject) -> *mut "@
        + cls + " {\n        unsafe { Qffi_"@ + cls
        + "_new(parent) }\n    }\n\n    #[allow(unused)]\n    fn get_private(&mut self) -> &mut "@
        + cls + "Private {\n        unsafe { &mut *(Qffi_"@ + cls + "_get_private(self) as *mut "@
        + cls + "Private) }\n    }\n\n"@
}

/// The whole Rust-surface block of one object.
pub open spec fn object_rust_block(c: ConfigModel) -> Seq<char> {
    obj_head_text(c.name) + proxies_text(c.methods) + "\n"@ + obj_signals_text(c.name, c.signals)
        + "\n"@ + (if c.qml {
        register_block_text(c.name)
    } else {
        Seq::empty()
    }) + "}\n"@
}

/// The Rust-surface blocks of every object.
pub open spec fn objects_rust_text(objs: Seq<ConfigModel>) -> Seq<char>
    decreases objs.len(),
{
    if objs.len() == 0 {
        Seq::empty()
    } else {
        objects_rust_text(objs.drop_last()) + object_rust_block(objs.last())
    }
}

/// The whole embedding-surface text.
pub open spec fn spec_generate_rust(objs: Seq<ConfigModel>, b: crate::ffi::BridgeModel) -> Seq<
    char,
> {
    "extern \"C\" {\n"@ + rust_defs_text(b.cpp_functions) + "}\n\n"@ + rust_impls_text(
        b.rust_functions,
    ) + objects_rust_text(objs)
}

/// Wrapper parameters: the receiver, then each argument as `name: type`.
fn wrapper_args_vec(recv: &str, args: &Vec<(String, TypeRef)>) -> (r: Vec<String>)
    ensures
        r.deep_view() == wrapper_args(recv@, args.deep_view()),
{
    let mut r: Vec<String> = Vec::new();
    r.push(String::from_str(recv));
    let mut i: usize = 0;
    while i < args.len()
        invariant
            i <= args.len(),
            r.deep_view() =~= seq![recv@] + rust_param_seq(args.deep_view().take(i as int)),
        decreases args.len() - i,
    {
        let a = &args[i];
        let mut p = a.0.clone();
        p.append(": ");
        p.append(a.1.rust_type());
        let ghost pre = r.deep_view();
        r.push(p);
        proof {
            let all = args.deep_view();
            assert(p@ =~= crate::ffi::rust_param(all[i as int]));
            assert(r.deep_view() =~= pre.push(crate::ffi::rust_param(all[i as int])));
            assert(seq![recv@] + rust_param_seq(all.take(i + 1)) =~= (seq![recv@]
                + rust_param_seq(all.take(i as int))).push(crate::ffi::rust_param(
                all[i as int],
            )));
        }
        i = i + 1;
    }
    proof {
        assert(args.deep_view().take(args.len() as int) =~= args.deep_view());
    }
    r
}

/// Call parameters: `self`, then each argument name.
fn call_params_vec(args: &Vec<(String, TypeRef)>) -> (r: Vec<String>)
    ensures
        r.deep_view() == call_params(args.deep_view()),
{
    let mut r: Vec<String> = Vec::new();
    r.push(String::from_str("self"));
    let mut i: usize = 0;
    while i < args.len()
        invariant
            i <= args.len(),
            r.deep_view() =~= seq!["self"@] + crate::generate::name_seq(
                args.deep_view().take(i as int),
            ),
        decreases args.len() - i,
    {
        let ghost pre = r.deep_view();
        r.push(args[i].0.clone());
        proof {
            let all = args.deep_view();
            assert(r.deep_view() =~= pre.push(all[i as int].0));
            assert(seq!["self"@] + crate::generate::name_seq(all.take(i + 1)) =~= (seq!["self"@]
                + crate::generate::name_seq(all.take(i as int))).push(all[i as int].0));
        }
        i = i + 1;
    }
    proof {
        assert(args.deep_view().take(args.len() as int) =~= args.deep_view());
    }
    r
}

/// Renders the wrapper of one proxy member.
#[verifier::rlimit(60)]
fn generate_proxy_block(meth: &QObjectMethod) -> (r: String)
    requires
        meth@.ffi_name is Some,
    ensures
        r@ == proxy_block_text(meth@),
{
    let recv = if meth.is_const() {
        "&self"
    } else {
        "&mut self"
    };
    let args = wrapper_args_vec(recv, meth.args_ref());
    let args_joined = join_strings(&args, ", ");
    let params = call_params_vec(meth.args_ref());
    let params_joined = join_strings(&params, ", ");
    let snake = to_snake_case(meth.name_ref().as_str());
    let mut r = String::from_str("\n    pub(crate) fn ");
    r.append(snake.as_str());
    r.append("(");
    r.append(args_joined.as_str());
    r.append(") -> ");
    match meth.rtype_ref() {
        Some(rty) => {
            if !rty.return_safe() {
                r.append(rty.rust_type());
                r.append(" {\n        let mut out__ = std::mem::MaybeUninit::<");
                r.append(rty.rust_type());
                r.append(">::uninit();\n        unsafe { ");
                r.append(meth.get_ffi_name());
                r.append("(");
                r.append(params_joined.as_str());
                r.append(", out__.as_mut_ptr()); }\n        unsafe { out__.assume_init() }\n    }\n\n");
                proof {
                    assert(r@ =~= proxy_block_text(meth@));
                }
            } else {
                r.append(rty.rust_type());
                r.append(" {\n        unsafe { ");
                r.append(meth.get_ffi_name());
                r.append("(");
                r.append(params_joined.as_str());
                r.append(") }\n    }\n\n");
                proof {
                    assert(r@ =~= proxy_block_text(meth@));
                }
            }
        },
        None => {
            r.append("()");
            r.append(" {\n        unsafe { ");
            r.append(meth.get_ffi_name());
            r.append("(");
            r.append(params_joined.as_str());
            r.append(") }\n    }\n\n");
            proof {
                assert(r@ =~= proxy_block_text(meth@));
            }
        },
    }
    r
}

/// Renders the wrapper of one signal.
#[verifier::rlimit(60)]
fn generate_signal_block(cls: &str, signal: &QObjectSignal) -> (r: String)
    ensures
        r@ == signal_block_text(cls@, signal@),
{
    let args = wrapper_args_vec("&mut self", signal.args_ref());
    let args_joined = join_strings(&args, ", ");
    let params = call_params_vec(signal.args_ref());
    let params_joined = join_strings(&params, ", ");
    let snake = to_snake_case(signal.name_ref().as_str());
    let mut r = String::from_str("\n    pub(crate) fn ");
    r.append(snake.as_str());
    r.append("(");
    r.append(args_joined.as_str());
    r.append(") {\n        unsafe { Qffi_");
    r.append(cls);
    r.append("_");
    r.append(signal.name_ref().as_str());
    r.append("(");
    r.append(params_joined.as_str());
    r.append("); }\n    }\n\n");
    proof {
        assert(r@ =~= signal_block_text(cls@, signal@));
    }
    r
}

/// Renders the embedding-surface text.
pub fn generate_rust(objects: &[&QObjectConfig], ffi: &FfiBridge) -> (r: String)
    requires
        forall|i: int|
            0 <= i < objects@.len() ==> crate::qobject::config_attached(
                #[trigger] objects@[i]@,
            ),
        forall|i: int|
            0 <= i < ffi@.rust_functions.len() ==> (#[trigger] ffi@.rust_functions[i]).body
                is Rust,
    ensures
        r@ == spec_generate_rust(crate::generate::objs_models(objects@), ffi@),
{
    let ghost models = crate::generate::objs_models(objects@);
    let mut result = String::from_str("extern \"C\" {\n");

    let cpp_fns = ffi.get_cpp_functions();
    let mut i: usize = 0;
    while i < cpp_fns.len()
        invariant
            i <= cpp_fns.len(),
            cpp_fns.deep_view() == ffi@.cpp_functions,
            result@ == "extern \"C\" {\n"@ + rust_defs_text(ffi@.cpp_functions.take(i as int)),
        decreases cpp_fns.len() - i,
    {
        let def = cpp_fns[i].generate_rust_def();
        result.append(def.as_str());
        result.append("\n");
        proof {
            let all = ffi@.cpp_functions;
            assert(all.take(i + 1).drop_last() =~= all.take(i as int));
            assert(all.take(i + 1).last() == all[i as int]);
            vstd::seq_lib::lemma_concat_associative(
                "extern \"C\" {\n"@,
                rust_defs_text(all.take(i as int)),
                spec_rust_def(all[i as int]),
            );
            vstd::seq_lib::lemma_concat_associative(
                "extern \"C\" {\n"@,
                rust_defs_text(all.take(i as int)) + spec_rust_def(all[i as int]),
                "\n"@,
            );
        }
        i = i + 1;
    }
    proof {
        assert(ffi@.cpp_functions.take(cpp_fns.len() as int) =~= ffi@.cpp_functions);
    }
    result.append("}\n\n");
    let ghost t0 = "extern \"C\" {\n"@ + rust_defs_text(ffi@.cpp_functions) + "}\n\n"@;
    proof {
        vstd::seq_lib::lemma_concat_associative(
            "extern \"C\" {\n"@,
            rust_defs_text(ffi@.cpp_functions),
            "}\n\n"@,
        );
        assert(result@ == t0);
    }

    let rust_fns = ffi.get_rust_functions();
    let mut i: usize = 0;
    while i < rust_fns.len()
        invariant
            i <= rust_fns.len(),
            rust_fns.deep_view() == ffi@.rust_functions,
            forall|k: int|
                0 <= k < ffi@.rust_functions.len() ==> (#[trigger] ffi@.rust_functions[k]).body
                    is Rust,
            t0 == "extern \"C\" {\n"@ + rust_defs_text(ffi@.cpp_functions) + "}\n\n"@,
            result@ == t0 + rust_impls_text(ffi@.rust_functions.take(i as int)),
        decreases rust_fns.len() - i,
    {
        proof {
            assert(ffi@.rust_functions[i as int] == rust_fns@[i as int]@);
        }
        let imp = rust_fns[i].generate_rust_impl();
        result.append(imp.as_str());
        result.append("\n");
        proof {
            let all = ffi@.rust_functions;
            assert(all.take(i + 1).drop_last() =~= all.take(i as int));
            assert(all.take(i + 1).last() == all[i as int]);
            vstd::seq_lib::lemma_concat_associative(
                t0,
                rust_impls_text(all.take(i as int)),
                spec_rust_impl(all[i as int]),
            );
            vstd::seq_lib::lemma_concat_associative(
                t0,
                rust_impls_text(all.take(i as int)) + spec_rust_impl(all[i as int]),
                "\n"@,
            );
        }
        i = i + 1;
    }
    proof {
        assert(ffi@.rust_functions.take(rust_fns.len() as int) =~= ffi@.rust_functions);
    }
    let ghost t1 = t0 + rust_impls_text(ffi@.rust_functions);

    let mut i: usize = 0;
    while i < objects.len()
        invariant
            i <= objects.len(),
            models == crate::generate::objs_models(objects@),
            forall|k: int|
                0 <= k < objects@.len() ==> crate::qobject::config_attached(
                    #[trigger] objects@[k]@,
                ),
            t1 == "extern \"C\" {\n"@ + rust_defs_text(ffi@.cpp_functions) + "}\n\n"@
                + rust_impls_text(ffi@.rust_functions),
            result@ == t1 + objects_rust_text(models.take(i as int)),
        decreases objects.len() - i,
    {
        let block = generate_object_block(objects[i]);
        result.append(block.as_str());
        proof {
            assert(models.take(i + 1).drop_last() =~= models.take(i as int));
            assert(models.take(i + 1).last() == models[i as int]);
            assert(models[i as int] == objects@[i as int]@);
            vstd::seq_lib::lemma_concat_associative(
                t1,
                objects_rust_text(models.take(i as int)),
                object_rust_block(models[i as int]),
            );
            assert(result@ == t1 + objects_rust_text(models.take(i + 1)));
        }
        i = i + 1;
    }
    proof {
        assert(models.take(objects.len() as int) =~= models);
        assert(result@ == spec_generate_rust(models, ffi@));
    }
    result
}

/// Renders the Rust-surface block of one object.
fn generate_object_block(obj: &QObjectConfig) -> (r: String)
    requires
        crate::qobject::config_attached(obj@),
    ensures
        r@ == object_rust_block(obj@),
{
    let ghost c = obj@;
    let name = obj.name_ref().as_str();
    let mut r = String::from_str("\n#[repr(C)]\npub struct ");
    r.append(name);
    r.append(" {\n    _private: [u8; 0],\n}\n\nimpl qt5qml::core::QObjectRef for ");
    r.append(name);
    r.append(
        " {\n    fn as_qobject_mut(&mut self) -> &mut qt5qml::core::QObject {\n        unsafe { &mut *(self as *mut _ as *mut qt5qml::core::QObject) }\n    }\n\n    fn as_qobject(&self) -> &qt5qml::core::QObject {\n        unsafe { &*(self as *const _ as *const qt5qml::core::QObject) }\n    }\n}\n\nimpl ",
    );
    r.append(name);
    r.append(" {\n    #[allow(unused)]\n    pub fn new() -> qt5qml::QBox<");
    r.append(name);
    r.append("> {\n        unsafe { qt5qml::QBox::from_raw(Qffi_");
    r.append(name);
    r.append(
        "_new(std::ptr::null_mut())) }\n    }\n\n    #[allow(unused)]\n    pub fn new_with_parent(parent: &mut qt5qml::core::QObject) -> *mut ",
    );
    r.append(name);
    r.append(" {\n        unsafe { Qffi_");
    r.append(name);
    r.append(
        "_new(parent) }\n    }\n\n    #[allow(unused)]\n    fn get_private(&mut self) -> &mut ",
    );
    r.append(name);
    r.append("Private {\n        unsafe { &mut *(Qffi_");
    r.append(name);
    r.append("_get_private(self) as *mut ");
    r.append(name);
    r.append("Private) }\n    }\n\n");
    proof {
        assert(r@ =~= obj_head_text(c.name));
    }
    let ghost h0 = obj_head_text(c.name);

    let methods = obj.methods_ref();
    let mut i: usize = 0;
    while i < methods.len()
        invariant
            i <= methods.len(),
            methods.deep_view() == c.methods,
            c == obj@,
            crate::qobject::config_attached(c),
            h0 == obj_head_text(c.name),
            r@ == h0 + proxies_text(c.methods.take(i as int)),
        decreases methods.len() - i,
    {
        let ghost m = c.methods[i as int];
        proof {
            assert(c.methods.take(i + 1).drop_last() =~= c.methods.take(i as int));
            assert(c.methods.take(i + 1).last() == m);
        }
        match methods[i].proxy_ref() {
            Some(_) => {
                let block = generate_proxy_block(&methods[i]);
                r.append(block.as_str());
                proof {
                    vstd::seq_lib::lemma_concat_associative(
                        h0,
                        proxies_text(c.methods.take(i as int)),
                        proxy_block_text(m),
                    );
                    assert(r@ == h0 + proxies_text(c.methods.take(i + 1)));
                }
            },
            None => {
                proof {
                    assert(proxies_text(c.methods.take(i + 1)) =~= proxies_text(
                        c.methods.take(i as int),
                    ));
                }
            },
        }
        i = i + 1;
    }
    proof {
        assert(c.methods.take(methods.len() as int) =~= c.methods);
    }
    r.append("\n");
    let ghost h1 = h0 + proxies_text(c.methods) + "\n"@;
    proof {
        vstd::seq_lib::lemma_concat_associative(h0, proxies_text(c.methods), "\n"@);
        assert(r@ == h1);
    }

    let signals = obj.signals_ref();
    let mut i: usize = 0;
    while i < signals.len()
        invariant
            i <= signals.len(),
            signals.deep_view() == c.signals,
            c == obj@,
            h1 == obj_head_text(c.name) + proxies_text(c.methods) + "\n"@,
            r@ == h1 + obj_signals_text(c.name, c.signals.take(i as int)),
        decreases signals.len() - i,
    {
        let ghost sm = c.signals[i as int];
        let block = generate_signal_block(obj.name_ref().as_str(), &signals[i]);
        r.append(block.as_str());
        proof {
            assert(c.signals.take(i + 1).drop_last() =~= c.signals.take(i as int));
            assert(c.signals.take(i + 1).last() == sm);
            vstd::seq_lib::lemma_concat_associative(
                h1,
                obj_signals_text(c.name, c.signals.take(i as int)),
                signal_block_text(c.name, sm),
            );
            assert(r@ == h1 + obj_signals_text(c.name, c.signals.take(i + 1)));
        }
        i = i + 1;
    }
    proof {
        assert(c.signals.take(signals.len() as int) =~= c.signals);
    }
    r.append("\n");
    let ghost h2 = h1 + obj_signals_text(c.name, c.signals) + "\n"@;
    proof {
        vstd::seq_lib::lemma_concat_associative(h1, obj_signals_text(c.name, c.signals), "\n"@);
        assert(r@ == h2);
    }

    if obj.qml_flag() {
        r.append(
            "\n    pub(crate) fn register_type(uri: &std::ffi::CStr, version_major: i32, version_minor: i32, qml_name: &std::ffi::CStr) -> i32 {\n        unsafe { Qffi_",
        );
        r.append(obj.name_ref().as_str());
        r.append(
            "_registerType(uri.as_ptr(), version_major, version_minor, qml_name.as_ptr()) }\n    }\n\n",
        );
        proof {
            vstd::seq_lib::lemma_concat_associative(
                h2,
                "\n    pub(crate) fn register_type(uri: &std::ffi::CStr, version_major: i32, version_minor: i32, qml_name: &std::ffi::CStr) -> i32 {\n        unsafe { Qffi_"@,
                c.name,
            );
            vstd::seq_lib::lemma_concat_associative(
                h2,
                "\n    pub(crate) fn register_type(uri: &std::ffi::CStr, version_major: i32, version_minor: i32, qml_name: &std::ffi::CStr) -> i32 {\n        unsafe { Qffi_"@
                    + c.name,
                "_registerType(uri.as_ptr(), version_major, version_minor, qml_name.as_ptr()) }\n    }\n\n"@,
            );
            assert(r@ == h2 + register_block_text(c.name));
        }
    } else {
        proof {
            assert(h2 + Seq::<char>::empty() =~= h2);
        }
    }
    let ghost h3 = h2 + (if c.qml {
        register_block_text(c.name)
    } else {
        Seq::<char>::empty()
    });
    proof {
        assert(r@ == h3);
    }
    r.append("}\n");
    proof {
        assert(r@ == h3 + "}\n"@);
        assert(r@ == object_rust_block(c));
    }
    r
}

} // verus!
