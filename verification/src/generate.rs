//! The dual-surface emitter, C++ side: renders the class declarations, the
//! extern declarations and the glue bodies of the native artifact.

use vstd::prelude::*;

use crate::dependent::{config_deps, insert_deps, sort_deps, Dependent, IncludeSet};
use crate::ffi::{cpp_param_seq, spec_cpp_def, spec_cpp_impl, spec_friend_cpp_impl, CodeModel,
    FfiBridge, FfiFunction, FuncModel, ImplCode};
use crate::generate_rust::{generate_rust, spec_generate_rust};
use crate::qobject::{ArgModel, ConfigModel, MethodModel, PropModel, QObjectConfig,
    QObjectMethod, QObjectProp, QObjectSignal, SignalModel};
use crate::strutil::{join_strings, spec_join};
use crate::typeref::{Include, IncludeModel, TypeModel, TypeRef};
use crate::utils::{spec_to_snake_case, to_snake_case};

verus! {

/// The names of an argument list.
pub open spec fn name_seq(args: Seq<ArgModel>) -> Seq<Seq<char>> {
    Seq::new(args.len(), |i: int| args[i].0)
}

/// One header-inclusion line, without the newline.
pub open spec fn include_line(i: IncludeModel) -> Seq<char> {
    match i {
        IncludeModel::System(s) => "#include <"@ + s + ">"@,
        IncludeModel::Relative(s) => "#include \""@ + s + "\""@,
    }
}

/// A member signature as it appears inside the class: the true return type,
/// with no out-pointer transformation.
pub open spec fn base_fn_def_text(
    name: Seq<char>,
    args: Seq<ArgModel>,
    rtype: Option<TypeModel>,
) -> Seq<char> {
    (match rtype {
        Some(rt) => rt.cpp,
        None => "void"@,
    }) + " "@ + name + "("@ + spec_join(cpp_param_seq(args), ", "@) + ")"@
}

/// One property-introspection line.
pub open spec fn prop_line(p: PropModel) -> Seq<char> {
    "  Q_PROPERTY("@ + p.type_ref.cpp + " "@ + p.name + (match p.getter {
        Some(g) => " READ "@ + g,
        None => Seq::empty(),
    }) + (match p.setter {
        Some(st) => " WRITE "@ + st,
        None => Seq::empty(),
    }) + (match p.signal {
        Some(sg) => " NOTIFY "@ + sg,
        None => Seq::empty(),
    }) + (if p.const_ {
        " CONSTANT"@
    } else {
        Seq::empty()
    }) + ");\n"@
}

/// The body of a member: a proxy forwards to the base implementation, every
/// other member delegates through its crossing function, binding an
/// out-pointer temporary when the return type is not return-safe.
pub open spec fn ffi_impl_text(m: MethodModel) -> Seq<char> {
    if m.proxy_class is Some {
        "return "@ + m.proxy_class->0 + "::"@ + m.name + "("@ + spec_join(
            name_seq(m.args),
            ", "@,
        ) + ");"@
    } else {
        let params = seq!["_d"@] + name_seq(m.args);
        match m.rtype {
            Some(rt) => if rt.return_safe {
                "return "@ + m.ffi_name->0 + "("@ + spec_join(params, ", "@) + ");"@
            } else {
                rt.cpp + " out__;\n    "@ + m.ffi_name->0 + "("@ + spec_join(
                    params.push("&out__"@),
                    ", "@,
                ) + ");\n    return out__;"@
            },
            None => m.ffi_name->0 + "("@ + spec_join(params, ", "@) + ");"@,
        }
    }
}

/// A member rendered inside the class, qualifiers and glue body included.
pub open spec fn method_impl_text(m: MethodModel) -> Seq<char> {
    "  "@ + (if m.scriptable {
        "Q_SCRIPTABLE "@
    } else {
        Seq::empty()
    }) + (if m.invokable {
        "Q_INVOKABLE "@
    } else {
        Seq::empty()
    }) + base_fn_def_text(m.name, m.args, m.rtype) + (if m.const_ {
        " const"@
    } else {
        Seq::empty()
    }) + (if m.override_ {
        " override"@
    } else {
        Seq::empty()
    }) + " {\n    "@ + ffi_impl_text(m) + "\n  }"@
}

/// A signal prototype.
pub open spec fn signal_text(s: SignalModel) -> Seq<char> {
    base_fn_def_text(s.name, s.args, None) + ";"@
}

/// The C++ body of a C++-authored member crossing.
pub open spec fn cpp_meth_call_text(m: MethodModel) -> Seq<char> {
    match m.rtype {
        Some(rt) => if !rt.return_safe {
            "new(out__) "@ + rt.cpp + "(std::move(self_."@ + m.name + "("@ + spec_join(
                name_seq(m.args),
                ", "@,
            ) + ")));"@
        } else {
            "return self_."@ + m.name + "("@ + spec_join(name_seq(m.args), ", "@) + ");"@
        },
        None => "return self_."@ + m.name + "("@ + spec_join(name_seq(m.args), ", "@) + ");"@,
    }
}

/// The Rust body of a Rust-authored member crossing.
pub open spec fn rust_meth_call_text(cls: Seq<char>, m: MethodModel) -> Seq<char> {
    "unsafe { "@ + (match m.rtype {
        Some(rt) => if !rt.return_safe {
            "*out__ = "@
        } else {
            Seq::empty()
        },
        None => Seq::empty(),
    }) + "(*(self_ as *mut "@ + cls + "Private))."@ + spec_to_snake_case(m.name) + "("@
        + spec_join(name_seq(m.args), ", "@) + ") }"@
}

/// The argument names of `args`, ready for joining.
fn names_vec(args: &Vec<(String, TypeRef)>) -> (r: Vec<String>)
    ensures
        r.deep_view() == name_seq(args.deep_view()),
{
    let mut r: Vec<String> = Vec::new();
    let mut i: usize = 0;
    while i < args.len()
        invariant
            i <= args.len(),
            r.deep_view() =~= name_seq(args.deep_view().take(i as int)),
        decreases args.len() - i,
    {
        let ghost pre = r.deep_view();
        r.push(args[i].0.clone());
        proof {
            let all = args.deep_view();
            assert(r.deep_view() =~= pre.push(all[i as int].0));
            assert(name_seq(all.take(i + 1)) =~= name_seq(all.take(i as int)).push(
                all[i as int].0,
            ));
        }
        i = i + 1;
    }
    proof {
        assert(args.deep_view().take(args.len() as int) =~= args.deep_view());
    }
    r
}

/// Renders one header-inclusion line.
pub fn generate_include(dep: &Include) -> (r: String)
    ensures
        r@ == include_line(dep@),
{
    match dep {
        Include::System(name) => {
            let mut r = String::from_str("#include <");
            r.append(name.as_str());
            r.append(">");
            proof {
                assert(r@ =~= include_line(dep@));
            }
            r
        },
        Include::Relative(name) => {
            let mut r = String::from_str("#include \"");
            r.append(name.as_str());
            r.append("\"");
            proof {
                assert(r@ =~= include_line(dep@));
            }
            r
        },
    }
}

/// Renders a member signature with its true return type.
#[verifier::rlimit(60)]
pub fn generate_base_function_def(
    name: &str,
    args: &Vec<(String, TypeRef)>,
    rtype: &Option<TypeRef>,
) -> (r: String)
    ensures
        r@ == base_fn_def_text(name@, args.deep_view(), rtype.deep_view()),
{
    let mut r = match rtype {
        Some(rt) => String::from_str(rt.cpp_type()),
        None => String::from_str("void"),
    };
    let mut parts: Vec<String> = Vec::new();
    let mut i: usize = 0;
    while i < args.len()
        invariant
            i <= args.len(),
            parts.deep_view() =~= cpp_param_seq(args.deep_view().take(i as int)),
        decreases args.len() - i,
    {
        let a = &args[i];
        let mut p = String::from_str(a.1.cpp_type());
        p.append(" ");
        p.append(a.0.as_str());
        let ghost pre = parts.deep_view();
        parts.push(p);
        proof {
            let all = args.deep_view();
            assert(p@ =~= crate::ffi::cpp_param(all[i as int]));
            assert(parts.deep_view() =~= pre.push(crate::ffi::cpp_param(all[i as int])));
            assert(cpp_param_seq(all.take(i + 1)) =~= cpp_param_seq(all.take(i as int)).push(
                crate::ffi::cpp_param(all[i as int]),
            ));
        }
        i = i + 1;
    }
    proof {
        assert(args.deep_view().take(args.len() as int) =~= args.deep_view());
    }
    let joined = join_strings(&parts, ", ");
    r.append(" ");
    r.append(name);
    r.append("(");
    r.append(joined.as_str());
    r.append(")");
    proof {
        assert(r@ =~= base_fn_def_text(name@, args.deep_view(), rtype.deep_view()));
    }
    r
}

/// Appends one property-introspection line.
pub fn generate_prop_def(writer: &mut String, prop: &QObjectProp)
    ensures
        final(writer)@ == old(writer)@ + prop_line(prop@),
{
    let ghost w0 = old(writer)@;
    let ghost p = prop@;
    writer.append("  Q_PROPERTY(");
    writer.append(prop.type_ref().cpp_type());
    proof {
        vstd::seq_lib::lemma_concat_associative(w0, "  Q_PROPERTY("@, p.type_ref.cpp);
    }
    writer.append(" ");
    proof {
        vstd::seq_lib::lemma_concat_associative(w0, "  Q_PROPERTY("@ + p.type_ref.cpp, " "@);
    }
    writer.append(prop.name_ref().as_str());
    proof {
        vstd::seq_lib::lemma_concat_associative(
            w0,
            "  Q_PROPERTY("@ + p.type_ref.cpp + " "@,
            p.name,
        );
    }
    let ghost s1 = "  Q_PROPERTY("@ + p.type_ref.cpp + " "@ + p.name;
    match prop.getter_ref() {
        Some(g) => {
            writer.append(" READ ");
            writer.append(g.as_str());
            proof {
                vstd::seq_lib::lemma_concat_associative(w0, s1, " READ "@);
                vstd::seq_lib::lemma_concat_associative(w0, s1 + " READ "@, g@);
                vstd::seq_lib::lemma_concat_associative(s1, " READ "@, g@);
            }
        },
        None => {
            proof {
                assert(s1 + Seq::<char>::empty() =~= s1);
            }
        },
    }
    let ghost s2 = s1 + (match p.getter {
        Some(g) => " READ "@ + g,
        None => Seq::<char>::empty(),
    });
    proof {
        assert(writer@ == w0 + s2);
    }
    match prop.setter_ref() {
        Some(st) => {
            writer.append(" WRITE ");
            writer.append(st.as_str());
            proof {
                vstd::seq_lib::lemma_concat_associative(w0, s2, " WRITE "@);
                vstd::seq_lib::lemma_concat_associative(w0, s2 + " WRITE "@, st@);
                vstd::seq_lib::lemma_concat_associative(s2, " WRITE "@, st@);
            }
        },
        None => {
            proof {
                assert(s2 + Seq::<char>::empty() =~= s2);
            }
        },
    }
    let ghost s3 = s2 + (match p.setter {
        Some(st) => " WRITE "@ + st,
        None => Seq::<char>::empty(),
    });
    proof {
        assert(writer@ == w0 + s3);
    }
    match prop.signal_ref() {
        Some(sg) => {
            writer.append(" NOTIFY ");
            writer.append(sg.as_str());
            proof {
                vstd::seq_lib::lemma_concat_associative(w0, s3, " NOTIFY "@);
                vstd::seq_lib::lemma_concat_associative(w0, s3 + " NOTIFY "@, sg@);
                vstd::seq_lib::lemma_concat_associative(s3, " NOTIFY "@, sg@);
            }
        },
        None => {
            proof {
                assert(s3 + Seq::<char>::empty() =~= s3);
            }
        },
    }
    let ghost s4 = s3 + (match p.signal {
        Some(sg) => " NOTIFY "@ + sg,
        None => Seq::<char>::empty(),
    });
    proof {
        assert(writer@ == w0 + s4);
    }
    if prop.is_const() {
        writer.append(" CONSTANT");
        proof {
            vstd::seq_lib::lemma_concat_associative(w0, s4, " CONSTANT"@);
        }
    } else {
        proof {
            assert(s4 + Seq::<char>::empty() =~= s4);
        }
    }
    let ghost s5 = s4 + (if p.const_ {
        " CONSTANT"@
    } else {
        Seq::<char>::empty()
    });
    proof {
        assert(writer@ == w0 + s5);
    }
    writer.append(");\n");
    proof {
        vstd::seq_lib::lemma_concat_associative(w0, s5, ");\n"@);
        assert(s5 + ");\n"@ == prop_line(p));
    }
}

/// Renders the glue body of a member.
#[verifier::rlimit(60)]
pub fn generate_ffi_impl(meth: &QObjectMethod) -> (r: String)
    requires
        meth@.proxy_class is Some || meth@.ffi_name is Some,
    ensures
        r@ == ffi_impl_text(meth@),
{
    let names = names_vec(meth.args_ref());
    if let Some(proxy_class) = meth.proxy_ref() {
        let joined = join_strings(&names, ", ");
        let mut r = String::from_str("return ");
        r.append(proxy_class.as_str());
        r.append("::");
        r.append(meth.name_ref().as_str());
        r.append("(");
        r.append(joined.as_str());
        r.append(");");
        proof {
            assert(r@ =~= ffi_impl_text(meth@));
        }
        return r;
    }
    let mut params: Vec<String> = Vec::new();
    params.push(String::from_str("_d"));
    let mut i: usize = 0;
    while i < names.len()
        invariant
            i <= names.len(),
            params.deep_view() =~= seq!["_d"@] + names.deep_view().take(i as int),
        decreases names.len() - i,
    {
        let ghost pre = params.deep_view();
        params.push(names[i].clone());
        proof {
            assert(params.deep_view() =~= pre.push(names.deep_view()[i as int]));
            assert(seq!["_d"@] + names.deep_view().take(i + 1) =~= (seq!["_d"@]
                + names.deep_view().take(i as int)).push(names.deep_view()[i as int]));
        }
        i = i + 1;
    }
    proof {
        assert(names.deep_view().take(names.len() as int) =~= names.deep_view());
        assert(params.deep_view() =~= seq!["_d"@] + name_seq(meth@.args));
    }
    match meth.rtype_ref() {
        Some(rty) => {
            if rty.return_safe() {
                let joined = join_strings(&params, ", ");
                let mut r = String::from_str("return ");
                r.append(meth.get_ffi_name());
                r.append("(");
                r.append(joined.as_str());
                r.append(");");
                proof {
                    assert(r@ =~= ffi_impl_text(meth@));
                }
                r
            } else {
                let ghost pre = params.deep_view();
                params.push(String::from_str("&out__"));
                proof {
                    assert(params.deep_view() =~= pre.push("&out__"@));
                }
                let joined = join_strings(&params, ", ");
                let mut r = String::from_str(rty.cpp_type());
                r.append(" out__;\n    ");
                r.append(meth.get_ffi_name());
                r.append("(");
                r.append(joined.as_str());
                r.append(");\n    return out__;");
                proof {
                    assert(r@ =~= ffi_impl_text(meth@));
                }
                r
            }
        },
        None => {
            let joined = join_strings(&params, ", ");
            let mut r = String::from_str(meth.get_ffi_name());
            r.append("(");
            r.append(joined.as_str());
            r.append(");");
            proof {
                assert(r@ =~= ffi_impl_text(meth@));
            }
            r
        },
    }
}

/// Renders a member with its qualifiers and glue body.
#[verifier::rlimit(60)]
pub fn generate_method_impl(meth: &QObjectMethod) -> (r: String)
    requires
        meth@.proxy_class is Some || meth@.ffi_name is Some,
    ensures
        r@ == method_impl_text(meth@),
{
    let mut r = String::from_str("  ");
    if meth.is_scriptable() {
        r.append("Q_SCRIPTABLE ");
    }
    if meth.is_invokable() {
        r.append("Q_INVOKABLE ");
    }
    let def = generate_base_function_def(
        meth.name_ref().as_str(),
        meth.args_ref(),
        meth.rtype_ref(),
    );
    r.append(def.as_str());
    if meth.is_const() {
        r.append(" const");
    }
    if meth.is_override() {
        r.append(" override");
    }
    r.append(" {\n    ");
    let body = generate_ffi_impl(meth);
    r.append(body.as_str());
    r.append("\n  }");
    proof {
        assert(r@ =~= method_impl_text(meth@));
    }
    r
}

/// Renders a signal prototype.
pub fn generate_signal(signal: &QObjectSignal) -> (r: String)
    ensures
        r@ == signal_text(signal@),
{
    let def = generate_base_function_def(signal.name_ref().as_str(), signal.args_ref(), &None);
    let mut r = def;
    r.append(";");
    proof {
        assert(r@ =~= signal_text(signal@));
    }
    r
}

/// Renders the C++ body of a C++-authored member crossing.
pub fn gen_cpp_meth_call(meth: &QObjectMethod) -> (r: String)
    ensures
        r@ == cpp_meth_call_text(meth@),
{
    let names = names_vec(meth.args_ref());
    let joined = join_strings(&names, ", ");
    match meth.rtype_ref() {
        Some(rty) => {
            if !rty.return_safe() {
                let mut r = String::from_str("new(out__) ");
                r.append(rty.cpp_type());
                r.append("(std::move(self_.");
                r.append(meth.name_ref().as_str());
                r.append("(");
                r.append(joined.as_str());
                r.append(")));");
                proof {
                    assert(r@ =~= cpp_meth_call_text(meth@));
                }
                return r;
            }
        },
        None => {},
    }
    let mut r = String::from_str("return self_.");
    r.append(meth.name_ref().as_str());
    r.append("(");
    r.append(joined.as_str());
    r.append(");");
    proof {
        assert(r@ =~= cpp_meth_call_text(meth@));
    }
    r
}

/// Renders the Rust body of a Rust-authored member crossing.
#[verifier::rlimit(60)]
pub fn gen_rust_meth_call(cls: &str, meth: &QObjectMethod) -> (r: String)
    ensures
        r@ == rust_meth_call_text(cls@, meth@),
{
    let names = names_vec(meth.args_ref());
    let joined = join_strings(&names, ", ");
    let mut r = String::from_str("unsafe { ");
    match meth.rtype_ref() {
        Some(rty) => {
            if !rty.return_safe() {
                r.append("*out__ = ");
            }
        },
        None => {},
    }
    r.append("(*(self_ as *mut ");
    r.append(cls);
    r.append("Private)).");
    let snake = to_snake_case(meth.name_ref().as_str());
    r.append(snake.as_str());
    r.append("(");
    r.append(joined.as_str());
    r.append(") }");
    proof {
        assert(r@ =~= rust_meth_call_text(cls@, meth@));
    }
    r
}

} // verus!

verus! {

/// The concrete class type: spelled by its name, not return-safe.
pub open spec fn class_type_model(cls: Seq<char>) -> TypeModel {
    TypeModel { cpp: cls, rust: cls, return_safe: false, dependency: None }
}

/// The opaque handle type.
pub open spec fn void_ptr_model() -> TypeModel {
    crate::typeref::plain_model("void*"@, "*mut std::ffi::c_void"@)
}

/// The Rust-authored crossing of a member implemented on the Rust side.
pub open spec fn method_rust_fn(cls: Seq<char>, m: MethodModel) -> FuncModel {
    FuncModel {
        name: m.ffi_name->0,
        args: seq![("self_"@, void_ptr_model())] + m.args,
        rtype: m.rtype,
        body: CodeModel::Rust(rust_meth_call_text(cls, m)),
        friend_class: None,
    }
}

/// The C++-authored crossing of a proxy member.
pub open spec fn method_cpp_fn(cls: Seq<char>, m: MethodModel) -> FuncModel {
    FuncModel {
        name: m.ffi_name->0,
        args: seq![
            (
                "self_"@,
                if m.const_ {
                    crate::typeref::const_ref_model(class_type_model(cls))
                } else {
                    crate::typeref::mut_ref_model(class_type_model(cls))
                },
            ),
        ] + m.args,
        rtype: m.rtype,
        body: CodeModel::Cpp(cpp_meth_call_text(m)),
        friend_class: None,
    }
}

/// The Rust-authored crossings of a run of members.
pub open spec fn methods_rust_fns(cls: Seq<char>, ms: Seq<MethodModel>) -> Seq<FuncModel>
    decreases ms.len(),
{
    if ms.len() == 0 {
        Seq::empty()
    } else {
        methods_rust_fns(cls, ms.drop_last()) + (if ms.last().proxy_class is None {
            seq![method_rust_fn(cls, ms.last())]
        } else {
            Seq::empty()
        })
    }
}

/// The C++-authored crossings of a run of members.
pub open spec fn methods_cpp_fns(cls: Seq<char>, ms: Seq<MethodModel>) -> Seq<FuncModel>
    decreases ms.len(),
{
    if ms.len() == 0 {
        Seq::empty()
    } else {
        methods_cpp_fns(cls, ms.drop_last()) + (if ms.last().proxy_class is Some {
            seq![method_cpp_fn(cls, ms.last())]
        } else {
            Seq::empty()
        })
    }
}

/// The private-state constructor crossing.
pub open spec fn private_new_fn(cls: Seq<char>) -> FuncModel {
    FuncModel {
        name: "Qffi_"@ + cls + "_private_new"@,
        args: seq![
            ("qobject"@, crate::typeref::mut_ptr_model(crate::typeref::generated_model(cls))),
        ],
        rtype: Some(void_ptr_model()),
        body: CodeModel::Rust(
            "Box::into_raw(Box::new("@ + cls
                + "Private::new(qobject))) as *mut std::ffi::c_void"@,
        ),
        friend_class: None,
    }
}

/// The private-state destructor crossing.
pub open spec fn private_delete_fn(cls: Seq<char>) -> FuncModel {
    FuncModel {
        name: "Qffi_"@ + cls + "_private_delete"@,
        args: seq![("self_"@, void_ptr_model())],
        rtype: None,
        body: CodeModel::Rust(
            "unsafe { drop(Box::from_raw(self_ as *mut "@ + cls + "Private)) };"@,
        ),
        friend_class: None,
    }
}

/// The native-object constructor crossing: returns a pointer, so it is
/// return-safe.
pub open spec fn new_fn(cls: Seq<char>) -> FuncModel {
    FuncModel {
        name: "Qffi_"@ + cls + "_new"@,
        args: seq![("parent"@, crate::typeref::qobject_ptr_model())],
        rtype: Some(crate::typeref::mut_ptr_model(class_type_model(cls))),
        body: CodeModel::Cpp("return new "@ + cls + "(parent);"@),
        friend_class: None,
    }
}

/// The accessor for the private-state handle.
pub open spec fn get_private_fn(cls: Seq<char>) -> FuncModel {
    FuncModel {
        name: "Qffi_"@ + cls + "_get_private"@,
        args: seq![("self_"@, crate::typeref::mut_ptr_model(class_type_model(cls)))],
        rtype: Some(void_ptr_model()),
        body: CodeModel::Cpp("return self_->_d;"@),
        friend_class: None,
    }
}

/// The crossing that triggers one signal; its body needs privileged access,
/// so it carries the owning class as its associated scope.
pub open spec fn signal_fn(cls: Seq<char>, s: SignalModel) -> FuncModel {
    FuncModel {
        name: "Qffi_"@ + cls + "_"@ + s.name,
        args: seq![
            ("self_"@, crate::typeref::mut_ptr_model(crate::typeref::generated_model(cls))),
        ] + s.args,
        rtype: None,
        body: CodeModel::Cpp(
            "Q_EMIT self_->"@ + s.name + "("@ + spec_join(name_seq(s.args), ", "@) + ");"@,
        ),
        friend_class: Some(cls),
    }
}

/// The signal crossings of a run of signals.
pub open spec fn signals_fns(cls: Seq<char>, ss: Seq<SignalModel>) -> Seq<FuncModel>
    decreases ss.len(),
{
    if ss.len() == 0 {
        Seq::empty()
    } else {
        signals_fns(cls, ss.drop_last()) + seq![signal_fn(cls, ss.last())]
    }
}

/// The dynamic-registration crossing.
pub open spec fn register_fn(cls: Seq<char>) -> FuncModel {
    FuncModel {
        name: "Qffi_"@ + cls + "_registerType"@,
        args: seq![
            (
                "uri"@,
                crate::typeref::primitive_model(crate::typeref::PrimitiveKind::ConstCharPtr),
            ),
            (
                "version_major"@,
                crate::typeref::primitive_model(crate::typeref::PrimitiveKind::Int32),
            ),
            (
                "version_minor"@,
                crate::typeref::primitive_model(crate::typeref::PrimitiveKind::Int32),
            ),
            (
                "qml_name"@,
                crate::typeref::primitive_model(crate::typeref::PrimitiveKind::ConstCharPtr),
            ),
        ],
        rtype: Some(crate::typeref::primitive_model(crate::typeref::PrimitiveKind::Int32)),
        body: CodeModel::Cpp(
            "return qmlRegisterType<"@ + cls
                + ">(uri, version_major, version_minor, qml_name);"@,
        ),
        friend_class: None,
    }
}

/// Every Rust-authored crossing an object implies.
pub open spec fn object_rust_fns(c: ConfigModel) -> Seq<FuncModel> {
    methods_rust_fns(c.name, c.methods + c.slots) + seq![
        private_new_fn(c.name),
        private_delete_fn(c.name),
    ]
}

/// Every C++-authored crossing an object implies.
pub open spec fn object_cpp_fns(c: ConfigModel) -> Seq<FuncModel> {
    methods_cpp_fns(c.name, c.methods + c.slots) + seq![new_fn(c.name), get_private_fn(c.name)]
        + signals_fns(c.name, c.signals) + (if c.qml {
        seq![register_fn(c.name)]
    } else {
        Seq::empty()
    })
}

/// Copy of an optional type descriptor.
fn dup_opt_type(t: &Option<TypeRef>) -> (r: Option<TypeRef>)
    ensures
        r.deep_view() == t.deep_view(),
{
    match t {
        Some(ty) => Some(ty.dup()),
        None => None,
    }
}

/// An argument list with a leading typed self parameter, copied.
fn args_with_self(lead_name: &str, lead_ty: TypeRef, args: &Vec<(String, TypeRef)>) -> (r: Vec<
    (String, TypeRef),
>)
    ensures
        r.deep_view() == seq![(lead_name@, lead_ty@)] + args.deep_view(),
{
    let ghost lead_model = lead_ty@;
    let mut r: Vec<(String, TypeRef)> = Vec::new();
    r.push((String::from_str(lead_name), lead_ty));
    let mut i: usize = 0;
    while i < args.len()
        invariant
            i <= args.len(),
            r.deep_view() =~= seq![(lead_name@, lead_model)] + args.deep_view().take(i as int),
        decreases args.len() - i,
    {
        let ghost pre = r.deep_view();
        let a = &args[i];
        r.push((a.0.clone(), a.1.dup()));
        proof {
            let all = args.deep_view();
            assert(r.deep_view() =~= pre.push(all[i as int]));
            assert(seq![(lead_name@, lead_model)] + all.take(i + 1) =~= (seq![
                (lead_name@, lead_model),
            ] + all.take(i as int)).push(all[i as int]));
        }
        i = i + 1;
    }
    proof {
        assert(args.deep_view().take(args.len() as int) =~= args.deep_view());
    }
    r
}

impl QObjectConfig {
    /// Registers the member crossings of one member list.
    fn fill_member_fns(&self, ms: &Vec<QObjectMethod>, ffi: &mut FfiBridge)
        requires
            forall|i: int|
                0 <= i < ms.deep_view().len() ==> (#[trigger] ms.deep_view()[i]).ffi_name
                    is Some,
        ensures
            final(ffi)@.rust_functions == old(ffi)@.rust_functions + methods_rust_fns(
                self@.name,
                ms.deep_view(),
            ),
            final(ffi)@.cpp_functions == old(ffi)@.cpp_functions + methods_cpp_fns(
                self@.name,
                ms.deep_view(),
            ),
    {
        let ghost cls = self@.name;
        let ghost all = ms.deep_view();
        let mut i: usize = 0;
        while i < ms.len()
            invariant
                i <= ms.len(),
                all == ms.deep_view(),
                cls == self@.name,
                forall|k: int| 0 <= k < all.len() ==> (#[trigger] all[k]).ffi_name is Some,
                ffi@.rust_functions =~= old(ffi)@.rust_functions + methods_rust_fns(
                    cls,
                    all.take(i as int),
                ),
                ffi@.cpp_functions =~= old(ffi)@.cpp_functions + methods_cpp_fns(
                    cls,
                    all.take(i as int),
                ),
            decreases ms.len() - i,
        {
            let meth = &ms[i];
            let ghost m = all[i as int];
            proof {
                assert(all.take(i + 1).drop_last() =~= all.take(i as int));
                assert(all.take(i + 1).last() == m);
            }
            match meth.proxy_ref() {
                Some(_proxy_class) => {
                    let class_type = TypeRef::new(
                        self.name_ref().as_str(),
                        self.name_ref().as_str(),
                        false,
                        None,
                    );
                    let cls_ref = if meth.is_const() {
                        class_type.with_const_ref()
                    } else {
                        class_type.with_mut_ref()
                    };
                    let args = args_with_self("self_", cls_ref, meth.args_ref());
                    let body = gen_cpp_meth_call(meth);
                    let func = FfiFunction::new_complete(
                        meth.get_ffi_name(),
                        args,
                        dup_opt_type(meth.rtype_ref()),
                        ImplCode::Cpp(body),
                        None,
                    );
                    proof {
                        assert(func@ =~= method_cpp_fn(cls, m));
                    }
                    ffi.cpp_function(func);
                    proof {
                        assert(methods_cpp_fns(cls, all.take(i + 1)) =~= methods_cpp_fns(
                            cls,
                            all.take(i as int),
                        ) + seq![method_cpp_fn(cls, m)]);
                        assert(methods_rust_fns(cls, all.take(i + 1)) =~= methods_rust_fns(
                            cls,
                            all.take(i as int),
                        ));
                        assert(ffi@.cpp_functions =~= old(ffi)@.cpp_functions + methods_cpp_fns(
                            cls,
                            all.take(i + 1),
                        ));
                    }
                },
                None => {
                    let args = args_with_self("self_", TypeRef::void_mut_ptr(), meth.args_ref());
                    let body = gen_rust_meth_call(self.name_ref().as_str(), meth);
                    let func = FfiFunction::new_complete(
                        meth.get_ffi_name(),
                        args,
                        dup_opt_type(meth.rtype_ref()),
                        ImplCode::Rust(body),
                        None,
                    );
                    proof {
                        assert(func@ =~= method_rust_fn(cls, m));
                    }
                    ffi.rust_function(func);
                    proof {
                        assert(methods_rust_fns(cls, all.take(i + 1)) =~= methods_rust_fns(
                            cls,
                            all.take(i as int),
                        ) + seq![method_rust_fn(cls, m)]);
                        assert(methods_cpp_fns(cls, all.take(i + 1)) =~= methods_cpp_fns(
                            cls,
                            all.take(i as int),
                        ));
                        assert(ffi@.rust_functions =~= old(ffi)@.rust_functions
                            + methods_rust_fns(cls, all.take(i + 1)));
                    }
                },
            }
            i = i + 1;
        }
        proof {
            assert(all.take(ms.len() as int) =~= all);
        }
    }
}

/// Splitting the member run splits its crossings.
proof fn lemma_methods_fns_append(cls: Seq<char>, a: Seq<MethodModel>, b: Seq<MethodModel>)
    ensures
        methods_rust_fns(cls, a + b) == methods_rust_fns(cls, a) + methods_rust_fns(cls, b),
        methods_cpp_fns(cls, a + b) == methods_cpp_fns(cls, a) + methods_cpp_fns(cls, b),
    decreases b.len(),
{
    if b.len() == 0 {
        assert(a + b =~= a);
        assert(methods_rust_fns(cls, a) + methods_rust_fns(cls, b) =~= methods_rust_fns(cls, a));
        assert(methods_cpp_fns(cls, a) + methods_cpp_fns(cls, b) =~= methods_cpp_fns(cls, a));
    } else {
        lemma_methods_fns_append(cls, a, b.drop_last());
        assert((a + b).drop_last() =~= a + b.drop_last());
        assert((a + b).last() == b.last());
        assert(methods_rust_fns(cls, a + b) =~= methods_rust_fns(cls, a) + methods_rust_fns(
            cls,
            b,
        ));
        assert(methods_cpp_fns(cls, a + b) =~= methods_cpp_fns(cls, a) + methods_cpp_fns(
            cls,
            b,
        ));
    }
}

} // verus!

verus! {

impl QObjectConfig {
    /// Derives every crossing this object implies and registers it: one per
    /// method and slot, the private-state constructor and destructor, the
    /// native-object constructor, the private-state accessor, one per
    /// signal, and the registration entry point when asked for.
    pub fn fill_ffi_functions(&self, ffi: &mut FfiBridge)
        requires
            crate::qobject::config_attached(self@),
        ensures
            final(ffi)@.rust_functions == old(ffi)@.rust_functions + object_rust_fns(self@),
            final(ffi)@.cpp_functions == old(ffi)@.cpp_functions + object_cpp_fns(self@),
    {
        let ghost c = self@;
        proof {
            lemma_methods_fns_append(c.name, c.methods, c.slots);
        }
        self.fill_member_fns(self.methods_ref(), ffi);
        self.fill_member_fns(self.slots_ref(), ffi);
        let ghost r0 = ffi@.rust_functions;
        let ghost p0 = ffi@.cpp_functions;

        let mut name = String::from_str("Qffi_");
        name.append(self.name_ref().as_str());
        name.append("_private_new");
        let mut body = String::from_str("Box::into_raw(Box::new(");
        body.append(self.name_ref().as_str());
        body.append("Private::new(qobject))) as *mut std::ffi::c_void");
        let mut args: Vec<(String, TypeRef)> = Vec::new();
        args.push((
            String::from_str("qobject"),
            TypeRef::generated(self.name_ref().as_str()).with_mut_ptr(),
        ));
        let func = FfiFunction::new_complete(
            name.as_str(),
            args,
            Some(TypeRef::void_mut_ptr()),
            ImplCode::Rust(body),
            None,
        );
        proof {
            assert(func@.args =~= private_new_fn(c.name).args);
            assert(func@ =~= private_new_fn(c.name));
        }
        ffi.rust_function(func);

        let mut name = String::from_str("Qffi_");
        name.append(self.name_ref().as_str());
        name.append("_private_delete");
        let mut body = String::from_str("unsafe { drop(Box::from_raw(self_ as *mut ");
        body.append(self.name_ref().as_str());
        body.append("Private)) };");
        let mut args: Vec<(String, TypeRef)> = Vec::new();
        args.push((String::from_str("self_"), TypeRef::void_mut_ptr()));
        let func = FfiFunction::new_complete(name.as_str(), args, None, ImplCode::Rust(body), None);
        proof {
            assert(func@.args =~= private_delete_fn(c.name).args);
            assert(func@.body->Rust_0 =~= private_delete_fn(c.name).body->Rust_0);
            assert(func@ =~= private_delete_fn(c.name));
        }
        ffi.rust_function(func);
        proof {
            assert(ffi@.rust_functions =~= old(ffi)@.rust_functions + object_rust_fns(c));
        }

        let mut name = String::from_str("Qffi_");
        name.append(self.name_ref().as_str());
        name.append("_new");
        let mut body = String::from_str("return new ");
        body.append(self.name_ref().as_str());
        body.append("(parent);");
        let mut args: Vec<(String, TypeRef)> = Vec::new();
        args.push((String::from_str("parent"), TypeRef::qobject_ptr()));
        let class_type = TypeRef::new(
            self.name_ref().as_str(),
            self.name_ref().as_str(),
            false,
            None,
        );
        let func = FfiFunction::new_complete(
            name.as_str(),
            args,
            Some(class_type.with_mut_ptr()),
            ImplCode::Cpp(body),
            None,
        );
        proof {
            assert(func@.args =~= new_fn(c.name).args);
            assert(func@ =~= new_fn(c.name));
        }
        ffi.cpp_function(func);

        let mut name = String::from_str("Qffi_");
        name.append(self.name_ref().as_str());
        name.append("_get_private");
        let class_type = TypeRef::new(
            self.name_ref().as_str(),
            self.name_ref().as_str(),
            false,
            None,
        );
        let mut args: Vec<(String, TypeRef)> = Vec::new();
        args.push((String::from_str("self_"), class_type.with_mut_ptr()));
        let func = FfiFunction::new_complete(
            name.as_str(),
            args,
            Some(TypeRef::void_mut_ptr()),
            ImplCode::Cpp(String::from_str("return self_->_d;")),
            None,
        );
        proof {
            assert(func@.args =~= get_private_fn(c.name).args);
            assert(func@ =~= get_private_fn(c.name));
        }
        ffi.cpp_function(func);
        let ghost p1 = p0 + seq![new_fn(c.name), get_private_fn(c.name)];
        proof {
            assert(ffi@.cpp_functions =~= p1);
        }

        let signals = self.signals_ref();
        let mut i: usize = 0;
        while i < signals.len()
            invariant
                i <= signals.len(),
                signals.deep_view() == c.signals,
                c == self@,
                ffi@.cpp_functions =~= p1 + signals_fns(c.name, c.signals.take(i as int)),
                ffi@.rust_functions == old(ffi)@.rust_functions + object_rust_fns(c),
            decreases signals.len() - i,
        {
            let signal = &signals[i];
            let ghost sm = c.signals[i as int];
            let args = args_with_self(
                "self_",
                TypeRef::generated(self.name_ref().as_str()).with_mut_ptr(),
                signal.args_ref(),
            );
            let names = names_vec(signal.args_ref());
            let joined = join_strings(&names, ", ");
            let mut body = String::from_str("Q_EMIT self_->");
            body.append(signal.name_ref().as_str());
            body.append("(");
            body.append(joined.as_str());
            body.append(");");
            let mut name = String::from_str("Qffi_");
            name.append(self.name_ref().as_str());
            name.append("_");
            name.append(signal.name_ref().as_str());
            let func = FfiFunction::new_complete(
                name.as_str(),
                args,
                None,
                ImplCode::Cpp(body),
                Some(self.name_ref().clone()),
            );
            proof {
                assert(func@.args =~= signal_fn(c.name, sm).args);
                assert(func@.body->Cpp_0 =~= signal_fn(c.name, sm).body->Cpp_0);
                assert(func@.name =~= signal_fn(c.name, sm).name);
                assert(func@ =~= signal_fn(c.name, sm));
            }
            ffi.cpp_function(func);
            proof {
                assert(c.signals.take(i + 1).drop_last() =~= c.signals.take(i as int));
                assert(c.signals.take(i + 1).last() == sm);
                assert(ffi@.cpp_functions =~= p1 + signals_fns(c.name, c.signals.take(i + 1)));
            }
            i = i + 1;
        }
        proof {
            assert(c.signals.take(signals.len() as int) =~= c.signals);
        }

        if self.qml_flag() {
            let mut name = String::from_str("Qffi_");
            name.append(self.name_ref().as_str());
            name.append("_registerType");
            let mut body = String::from_str("return qmlRegisterType<");
            body.append(self.name_ref().as_str());
            body.append(">(uri, version_major, version_minor, qml_name);");
            let func = FfiFunction::new(name.as_str())
                .arg_with_type("uri", TypeRef::primitive(crate::typeref::PrimitiveKind::ConstCharPtr))
                .arg_with_type(
                "version_major",
                TypeRef::primitive(crate::typeref::PrimitiveKind::Int32),
            ).arg_with_type(
                "version_minor",
                TypeRef::primitive(crate::typeref::PrimitiveKind::Int32),
            ).arg_with_type(
                "qml_name",
                TypeRef::primitive(crate::typeref::PrimitiveKind::ConstCharPtr),
            ).ret_type(TypeRef::primitive(crate::typeref::PrimitiveKind::Int32)).cpp_impl(
                body.as_str(),
            );
            proof {
                assert(func@.args =~= register_fn(c.name).args);
                assert(func@.name =~= register_fn(c.name).name);
                assert(func@.body->Cpp_0 =~= register_fn(c.name).body->Cpp_0);
                assert(func@ =~= register_fn(c.name));
            }
            ffi.cpp_function(func);
        }
        proof {
            if c.qml {
                assert(ffi@.cpp_functions =~= old(ffi)@.cpp_functions + object_cpp_fns(c));
            } else {
                assert(object_cpp_fns(c) =~= methods_cpp_fns(c.name, c.methods + c.slots) + seq![
                    new_fn(c.name),
                    get_private_fn(c.name),
                ] + signals_fns(c.name, c.signals));
                assert(ffi@.cpp_functions =~= old(ffi)@.cpp_functions + object_cpp_fns(c));
            }
        }
    }
}

} // verus!

verus! {

/// The models of a run of object descriptions.
pub open spec fn objs_models(s: Seq<&QObjectConfig>) -> Seq<ConfigModel> {
    Seq::new(s.len(), |i: int| s[i]@)
}

/// The header dependencies of a run of objects, in collection order.
pub open spec fn collect_objs_deps(objs: Seq<ConfigModel>) -> Seq<IncludeModel>
    decreases objs.len(),
{
    if objs.len() == 0 {
        Seq::empty()
    } else {
        insert_deps(collect_objs_deps(objs.drop_last()), config_deps(objs.last()))
    }
}

/// The sorted inclusion lines, one per dependency.
pub open spec fn includes_lines(is: Seq<IncludeModel>) -> Seq<char>
    decreases is.len(),
{
    if is.len() == 0 {
        Seq::empty()
    } else {
        includes_lines(is.drop_last()) + include_line(is.last()) + "\n"@
    }
}

/// One forward declaration per object.
pub open spec fn forward_defs(objs: Seq<ConfigModel>) -> Seq<char>
    decreases objs.len(),
{
    if objs.len() == 0 {
        Seq::empty()
    } else {
        forward_defs(objs.drop_last()) + "class "@ + objs.last().name + ";\n"@
    }
}

/// The extern declarations of a run of crossings, one blank line after each.
pub open spec fn fn_defs_text(fs: Seq<FuncModel>) -> Seq<char>
    decreases fs.len(),
{
    if fs.len() == 0 {
        Seq::empty()
    } else {
        fn_defs_text(fs.drop_last()) + spec_cpp_def(fs.last()) + "\n\n"@
    }
}

/// The property-introspection block.
pub open spec fn props_text(ps: Seq<PropModel>) -> Seq<char>
    decreases ps.len(),
{
    if ps.len() == 0 {
        Seq::empty()
    } else {
        props_text(ps.drop_last()) + prop_line(ps.last())
    }
}

/// The member block: one rendered member per line.
pub open spec fn methods_text(ms: Seq<MethodModel>) -> Seq<char>
    decreases ms.len(),
{
    if ms.len() == 0 {
        Seq::empty()
    } else {
        methods_text(ms.drop_last()) + method_impl_text(ms.last()) + "\n"@
    }
}

/// The signal block: one prototype per line.
pub open spec fn signals_text(ss: Seq<SignalModel>) -> Seq<char>
    decreases ss.len(),
{
    if ss.len() == 0 {
        Seq::empty()
    } else {
        signals_text(ss.drop_last()) + signal_text(ss.last()) + "\n"@
    }
}

/// The friend definitions placed inside a class.
pub open spec fn friends_text(fs: Seq<FuncModel>) -> Seq<char>
    decreases fs.len(),
{
    if fs.len() == 0 {
        Seq::empty()
    } else {
        friends_text(fs.drop_last()) + spec_friend_cpp_impl(fs.last()) + "\n"@
    }
}

/// The crossings whose associated scope is the named class.
pub open spec fn friend_fns(fs: Seq<FuncModel>, name: Seq<char>) -> Seq<FuncModel>
    decreases fs.len(),
{
    if fs.len() == 0 {
        Seq::empty()
    } else {
        friend_fns(fs.drop_last(), name) + (if fs.last().friend_class == Some(name) {
            seq![fs.last()]
        } else {
            Seq::empty()
        })
    }
}

/// One class block.
pub open spec fn class_text(c: ConfigModel, friends: Seq<FuncModel>) -> Seq<char> {
    "class "@ + c.name + " : public "@ + c.base_class.cpp + " {\n  Q_OBJECT\n\n"@ + props_text(
        c.properties,
    ) + "\npublic:\n  "@ + c.name + "(QObject* parent = nullptr) : "@ + c.base_class.cpp
        + "(parent) { _d = Qffi_"@ + c.name + "_private_new(this); }\n\n  ~"@ + c.name
        + "() { Qffi_"@ + c.name + "_private_delete(_d); }\n\n"@ + methods_text(c.methods)
        + "\nQ_SIGNALS:\n"@ + signals_text(c.signals) + "\npublic Q_SLOTS:\n"@ + methods_text(
        c.slots,
    ) + "\npublic:\n  void* _d;\n\n"@ + friends_text(friends) + "};\n"@
}

/// The class blocks of every object, each with its friend definitions.
pub open spec fn classes_text(objs: Seq<ConfigModel>, cpp_fns: Seq<FuncModel>) -> Seq<char>
    decreases objs.len(),
{
    if objs.len() == 0 {
        Seq::empty()
    } else {
        classes_text(objs.drop_last(), cpp_fns) + class_text(
            objs.last(),
            friend_fns(cpp_fns, objs.last().name),
        )
    }
}

/// The file-scope definitions: every C++-authored crossing without an
/// associated scope.
pub open spec fn impls_text(fs: Seq<FuncModel>) -> Seq<char>
    decreases fs.len(),
{
    if fs.len() == 0 {
        Seq::empty()
    } else {
        impls_text(fs.drop_last()) + (if fs.last().friend_class is None {
            spec_cpp_impl(fs.last()) + "\n"@
        } else {
            Seq::empty()
        })
    }
}

/// The whole native-surface text.
pub open spec fn spec_generate_cpp(
    moc_name: Seq<char>,
    objs: Seq<ConfigModel>,
    b: crate::ffi::BridgeModel,
) -> Seq<char> {
    "// Generated by qobject compiler\n\n"@ + includes_lines(
        sort_deps(collect_objs_deps(objs)),
    ) + "\n"@ + forward_defs(objs) + fn_defs_text(b.rust_functions) + fn_defs_text(
        b.cpp_functions,
    ) + "\n"@ + classes_text(objs, b.cpp_functions) + "\n"@ + impls_text(b.cpp_functions)
        + "\n#include \""@ + moc_name + "\"\n"@
}

} // verus!

verus! {

/// All Rust-authored crossings of a run of objects.
pub open spec fn all_rust_fns(objs: Seq<ConfigModel>) -> Seq<FuncModel>
    decreases objs.len(),
{
    if objs.len() == 0 {
        Seq::empty()
    } else {
        all_rust_fns(objs.drop_last()) + object_rust_fns(objs.last())
    }
}

/// All C++-authored crossings of a run of objects.
pub open spec fn all_cpp_fns(objs: Seq<ConfigModel>) -> Seq<FuncModel>
    decreases objs.len(),
{
    if objs.len() == 0 {
        Seq::empty()
    } else {
        all_cpp_fns(objs.drop_last()) + object_cpp_fns(objs.last())
    }
}

/// The registry implied by a run of objects.
pub open spec fn bridge_of(objs: Seq<ConfigModel>) -> crate::ffi::BridgeModel {
    crate::ffi::BridgeModel {
        rust_functions: all_rust_fns(objs),
        cpp_functions: all_cpp_fns(objs),
    }
}

/// Every member crossing is authored on the side that registers it.
proof fn lemma_methods_fns_bodies(cls: Seq<char>, ms: Seq<MethodModel>)
    ensures
        forall|k: int|
            0 <= k < methods_rust_fns(cls, ms).len() ==> (#[trigger] methods_rust_fns(
                cls,
                ms,
            )[k]).body is Rust,
        forall|k: int|
            0 <= k < methods_cpp_fns(cls, ms).len() ==> (#[trigger] methods_cpp_fns(
                cls,
                ms,
            )[k]).body is Cpp,
    decreases ms.len(),
{
    if ms.len() > 0 {
        lemma_methods_fns_bodies(cls, ms.drop_last());
    }
}

proof fn lemma_signals_fns_bodies(cls: Seq<char>, ss: Seq<SignalModel>)
    ensures
        forall|k: int|
            0 <= k < signals_fns(cls, ss).len() ==> (#[trigger] signals_fns(cls, ss)[k]).body
                is Cpp,
    decreases ss.len(),
{
    if ss.len() > 0 {
        lemma_signals_fns_bodies(cls, ss.drop_last());
    }
}

/// Every crossing of an object is authored on the side that holds it.
proof fn lemma_object_fns_bodies(c: ConfigModel)
    ensures
        forall|k: int|
            0 <= k < object_rust_fns(c).len() ==> (#[trigger] object_rust_fns(c)[k]).body
                is Rust,
        forall|k: int|
            0 <= k < object_cpp_fns(c).len() ==> (#[trigger] object_cpp_fns(c)[k]).body is Cpp,
{
    lemma_methods_fns_bodies(c.name, c.methods + c.slots);
    lemma_signals_fns_bodies(c.name, c.signals);
}

/// The same, over a run of objects.
proof fn lemma_all_fns_bodies(objs: Seq<ConfigModel>)
    ensures
        forall|k: int|
            0 <= k < all_rust_fns(objs).len() ==> (#[trigger] all_rust_fns(objs)[k]).body
                is Rust,
        forall|k: int|
            0 <= k < all_cpp_fns(objs).len() ==> (#[trigger] all_cpp_fns(objs)[k]).body is Cpp,
    decreases objs.len(),
{
    if objs.len() > 0 {
        lemma_all_fns_bodies(objs.drop_last());
        lemma_object_fns_bodies(objs.last());
    }
}

/// Selecting the friends of a class keeps the authoring side.
proof fn lemma_friend_fns_cpp(fs: Seq<FuncModel>, name: Seq<char>)
    requires
        forall|k: int| 0 <= k < fs.len() ==> (#[trigger] fs[k]).body is Cpp,
    ensures
        forall|k: int|
            0 <= k < friend_fns(fs, name).len() ==> (#[trigger] friend_fns(fs, name)[k]).body
                is Cpp,
    decreases fs.len(),
{
    if fs.len() > 0 {
        assert(forall|k: int|
            0 <= k < fs.drop_last().len() ==> (#[trigger] fs.drop_last()[k]).body is Cpp);
        lemma_friend_fns_cpp(fs.drop_last(), name);
    }
}

/// The crossings whose associated scope is the named class, in order.
fn collect_friends<'a>(fs: &'a Vec<FfiFunction>, name: &str) -> (r: Vec<&'a FfiFunction>)
    ensures
        r.deep_view() == friend_fns(fs.deep_view(), name@),
{
    let mut r: Vec<&'a FfiFunction> = Vec::new();
    let mut i: usize = 0;
    while i < fs.len()
        invariant
            i <= fs.len(),
            r.deep_view() =~= friend_fns(fs.deep_view().take(i as int), name@),
        decreases fs.len() - i,
    {
        let ghost all = fs.deep_view();
        proof {
            assert(all.take(i + 1).drop_last() =~= all.take(i as int));
            assert(all.take(i + 1).last() == all[i as int]);
        }
        let is_friend = match fs[i].get_friend_class() {
            Some(fc) => crate::strutil::str_eq(fc, name),
            None => false,
        };
        if is_friend {
            let ghost pre = r.deep_view();
            r.push(&fs[i]);
            proof {
                assert(r.deep_view() =~= pre.push(all[i as int]));
                assert(friend_fns(all.take(i + 1), name@) =~= friend_fns(
                    all.take(i as int),
                    name@,
                ).push(all[i as int]));
            }
        } else {
            proof {
                assert(friend_fns(all.take(i + 1), name@) =~= friend_fns(
                    all.take(i as int),
                    name@,
                ));
            }
        }
        i = i + 1;
    }
    proof {
        assert(fs.deep_view().take(fs.len() as int) =~= fs.deep_view());
    }
    r
}

impl QObjectConfig {
    /// Renders this object's class block, with its friend definitions.
    fn generate_class_block(&self, friends: &Vec<&FfiFunction>) -> (r: String)
        requires
            crate::qobject::config_attached(self@),
            forall|k: int|
                0 <= k < friends.deep_view().len() ==> (#[trigger] friends.deep_view()[k]).body
                    is Cpp,
        ensures
            r@ == class_text(self@, friends.deep_view()),
    {
        let ghost c = self@;
        let name = self.name_ref().as_str();
        let mut r = String::from_str("class ");
        r.append(name);
        r.append(" : public ");
        r.append(self.base_class_ref().cpp_type());
        r.append(" {\n  Q_OBJECT\n\n");
        let ghost h0 = "class "@ + c.name + " : public "@ + c.base_class.cpp
            + " {\n  Q_OBJECT\n\n"@;
        proof {
            assert(r@ == h0);
        }

        let props = self.properties_ref();
        let mut i: usize = 0;
        while i < props.len()
            invariant
                i <= props.len(),
                props.deep_view() == c.properties,
                c == self@,
                h0 == "class "@ + c.name + " : public "@ + c.base_class.cpp
                    + " {\n  Q_OBJECT\n\n"@,
                r@ == h0 + props_text(c.properties.take(i as int)),
            decreases props.len() - i,
        {
            generate_prop_def(&mut r, &props[i]);
            proof {
                assert(c.properties.take(i + 1).drop_last() =~= c.properties.take(i as int));
                assert(c.properties.take(i + 1).last() == c.properties[i as int]);
                vstd::seq_lib::lemma_concat_associative(
                    h0,
                    props_text(c.properties.take(i as int)),
                    prop_line(c.properties[i as int]),
                );
                assert(r@ == h0 + props_text(c.properties.take(i + 1)));
            }
            i = i + 1;
        }
        proof {
            assert(c.properties.take(props.len() as int) =~= c.properties);
        }
        let ghost h1 = h0 + props_text(c.properties);

        r.append("\npublic:\n  ");
        r.append(name);
        r.append("(QObject* parent = nullptr) : ");
        r.append(self.base_class_ref().cpp_type());
        r.append("(parent) { _d = Qffi_");
        r.append(name);
        r.append("_private_new(this); }\n\n  ~");
        r.append(name);
        r.append("() { Qffi_");
        r.append(name);
        r.append("_private_delete(_d); }\n\n");
        let ghost h2 = h1 + "\npublic:\n  "@ + c.name + "(QObject* parent = nullptr) : "@
            + c.base_class.cpp + "(parent) { _d = Qffi_"@ + c.name + "_private_new(this); }\n\n  ~"@
            + c.name + "() { Qffi_"@ + c.name + "_private_delete(_d); }\n\n"@;
        proof {
            assert(r@ == h2);
        }

        let methods = self.methods_ref();
        let mut i: usize = 0;
        while i < methods.len()
            invariant
                i <= methods.len(),
                methods.deep_view() == c.methods,
                c == self@,
                crate::qobject::config_attached(c),
                h2 == h1 + "\npublic:\n  "@ + c.name + "(QObject* parent = nullptr) : "@
                    + c.base_class.cpp + "(parent) { _d = Qffi_"@ + c.name
                    + "_private_new(this); }\n\n  ~"@ + c.name + "() { Qffi_"@ + c.name
                    + "_private_delete(_d); }\n\n"@,
                r@ == h2 + methods_text(c.methods.take(i as int)),
            decreases methods.len() - i,
        {
            let ghost m = c.methods[i as int];
            let imp = generate_method_impl(&methods[i]);
            r.append(imp.as_str());
            r.append("\n");
            proof {
                assert(c.methods.take(i + 1).drop_last() =~= c.methods.take(i as int));
                assert(c.methods.take(i + 1).last() == m);
                vstd::seq_lib::lemma_concat_associative(
                    h2,
                    methods_text(c.methods.take(i as int)),
                    method_impl_text(m),
                );
                vstd::seq_lib::lemma_concat_associative(
                    h2,
                    methods_text(c.methods.take(i as int)) + method_impl_text(m),
                    "\n"@,
                );
                assert(r@ == h2 + methods_text(c.methods.take(i + 1)));
            }
            i = i + 1;
        }
        proof {
            assert(c.methods.take(methods.len() as int) =~= c.methods);
        }
        let ghost h3 = h2 + methods_text(c.methods);

        r.append("\nQ_SIGNALS:\n");
        let ghost h4 = h3 + "\nQ_SIGNALS:\n"@;
        proof {
            assert(r@ == h4);
        }
        let signals = self.signals_ref();
        let mut i: usize = 0;
        while i < signals.len()
            invariant
                i <= signals.len(),
                signals.deep_view() == c.signals,
                c == self@,
                h4 == h3 + "\nQ_SIGNALS:\n"@,
                r@ == h4 + signals_text(c.signals.take(i as int)),
            decreases signals.len() - i,
        {
            let ghost sm = c.signals[i as int];
            let sig = generate_signal(&signals[i]);
            r.append(sig.as_str());
            r.append("\n");
            proof {
                assert(c.signals.take(i + 1).drop_last() =~= c.signals.take(i as int));
                assert(c.signals.take(i + 1).last() == sm);
                vstd::seq_lib::lemma_concat_associative(
                    h4,
                    signals_text(c.signals.take(i as int)),
                    signal_text(sm),
                );
                vstd::seq_lib::lemma_concat_associative(
                    h4,
                    signals_text(c.signals.take(i as int)) + signal_text(sm),
                    "\n"@,
                );
                assert(r@ == h4 + signals_text(c.signals.take(i + 1)));
            }
            i = i + 1;
        }
        proof {
            assert(c.signals.take(signals.len() as int) =~= c.signals);
        }
        let ghost h5 = h4 + signals_text(c.signals);

        r.append("\npublic Q_SLOTS:\n");
        let ghost h6 = h5 + "\npublic Q_SLOTS:\n"@;
        proof {
            assert(r@ == h6);
        }
        let slots = self.slots_ref();
        let mut i: usize = 0;
        while i < slots.len()
            invariant
                i <= slots.len(),
                slots.deep_view() == c.slots,
                c == self@,
                crate::qobject::config_attached(c),
                h6 == h5 + "\npublic Q_SLOTS:\n"@,
                r@ == h6 + methods_text(c.slots.take(i as int)),
            decreases slots.len() - i,
        {
            let ghost m = c.slots[i as int];
            let imp = generate_method_impl(&slots[i]);
            r.append(imp.as_str());
            r.append("\n");
            proof {
                assert(c.slots.take(i + 1).drop_last() =~= c.slots.take(i as int));
                assert(c.slots.take(i + 1).last() == m);
                vstd::seq_lib::lemma_concat_associative(
                    h6,
                    methods_text(c.slots.take(i as int)),
                    method_impl_text(m),
                );
                vstd::seq_lib::lemma_concat_associative(
                    h6,
                    methods_text(c.slots.take(i as int)) + method_impl_text(m),
                    "\n"@,
                );
                assert(r@ == h6 + methods_text(c.slots.take(i + 1)));
            }
            i = i + 1;
        }
        proof {
            assert(c.slots.take(slots.len() as int) =~= c.slots);
        }
        let ghost h7 = h6 + methods_text(c.slots);

        r.append("\npublic:\n  void* _d;\n\n");
        let ghost h8 = h7 + "\npublic:\n  void* _d;\n\n"@;
        proof {
            assert(r@ == h8);
        }
        let ghost fr = friends.deep_view();
        let mut i: usize = 0;
        while i < friends.len()
            invariant
                i <= friends.len(),
                fr == friends.deep_view(),
                forall|k: int| 0 <= k < fr.len() ==> (#[trigger] fr[k]).body is Cpp,
                h8 == h7 + "\npublic:\n  void* _d;\n\n"@,
                r@ == h8 + friends_text(fr.take(i as int)),
            decreases friends.len() - i,
        {
            proof {
                assert(fr[i as int] == friends@[i as int]@);
            }
            let imp = friends[i].generate_friend_cpp_impl();
            r.append(imp.as_str());
            r.append("\n");
            proof {
                assert(fr.take(i + 1).drop_last() =~= fr.take(i as int));
                assert(fr.take(i + 1).last() == fr[i as int]);
                vstd::seq_lib::lemma_concat_associative(
                    h8,
                    friends_text(fr.take(i as int)),
                    crate::ffi::spec_friend_cpp_impl(fr[i as int]),
                );
                vstd::seq_lib::lemma_concat_associative(
                    h8,
                    friends_text(fr.take(i as int)) + crate::ffi::spec_friend_cpp_impl(
                        fr[i as int],
                    ),
                    "\n"@,
                );
                assert(r@ == h8 + friends_text(fr.take(i + 1)));
            }
            i = i + 1;
        }
        proof {
            assert(fr.take(friends.len() as int) =~= fr);
        }
        r.append("};\n");
        proof {
            assert(r@ == class_text(c, fr));
        }
        r
    }
}

/// Renders the native-surface text.
fn generate_cpp(moc_name: &str, objects: &[&QObjectConfig], ffi: &FfiBridge) -> (r: String)
    requires
        forall|i: int|
            0 <= i < objects@.len() ==> crate::qobject::config_attached(
                #[trigger] objects@[i]@,
            ),
        forall|i: int|
            0 <= i < ffi@.cpp_functions.len() ==> (#[trigger] ffi@.cpp_functions[i]).body
                is Cpp,
    ensures
        r@ == spec_generate_cpp(moc_name@, objs_models(objects@), ffi@),
{
    let ghost models = objs_models(objects@);
    let mut result = String::from_str("// Generated by qobject compiler\n\n");
    let ghost g0 = "// Generated by qobject compiler\n\n"@;

    let mut includes = IncludeSet::new();
    let mut i: usize = 0;
    while i < objects.len()
        invariant
            i <= objects.len(),
            models == objs_models(objects@),
            includes@ == collect_objs_deps(models.take(i as int)),
        decreases objects.len() - i,
    {
        objects[i].dependencies(&mut includes);
        proof {
            assert(models.take(i + 1).drop_last() =~= models.take(i as int));
            assert(models.take(i + 1).last() == models[i as int]);
            assert(models[i as int] == objects@[i as int]@);
            assert(includes@ == collect_objs_deps(models.take(i + 1)));
        }
        i = i + 1;
    }
    proof {
        assert(models.take(objects.len() as int) =~= models);
    }
    let sorted = includes.sorted_items();
    let ghost sortseq = sort_deps(collect_objs_deps(models));
    let mut i: usize = 0;
    while i < sorted.len()
        invariant
            i <= sorted.len(),
            sorted.deep_view() == sortseq,
            g0 == "// Generated by qobject compiler\n\n"@,
            result@ == g0 + includes_lines(sortseq.take(i as int)),
        decreases sorted.len() - i,
    {
        proof {
            assert(sortseq[i as int] == sorted@[i as int]@);
        }
        let line = generate_include(&sorted[i]);
        result.append(line.as_str());
        result.append("\n");
        proof {
            assert(sortseq.take(i + 1).drop_last() =~= sortseq.take(i as int));
            assert(sortseq.take(i + 1).last() == sortseq[i as int]);
            vstd::seq_lib::lemma_concat_associative(
                g0,
                includes_lines(sortseq.take(i as int)),
                include_line(sortseq[i as int]),
            );
            vstd::seq_lib::lemma_concat_associative(
                g0,
                includes_lines(sortseq.take(i as int)) + include_line(sortseq[i as int]),
                "\n"@,
            );
            assert(result@ == g0 + includes_lines(sortseq.take(i + 1)));
        }
        i = i + 1;
    }
    proof {
        assert(sortseq.take(sorted.len() as int) =~= sortseq);
    }
    result.append("\n");
    let ghost g1 = g0 + includes_lines(sortseq) + "\n"@;
    proof {
        vstd::seq_lib::lemma_concat_associative(g0, includes_lines(sortseq), "\n"@);
        assert(result@ == g1);
    }

    let mut i: usize = 0;
    while i < objects.len()
        invariant
            i <= objects.len(),
            models == objs_models(objects@),
            g1 == g0 + includes_lines(sortseq) + "\n"@,
            result@ == g1 + forward_defs(models.take(i as int)),
        decreases objects.len() - i,
    {
        let mut line = String::from_str("class ");
        line.append(objects[i].name_ref().as_str());
        line.append(";\n");
        result.append(line.as_str());
        proof {
            assert(models.take(i + 1).drop_last() =~= models.take(i as int));
            assert(models.take(i + 1).last() == models[i as int]);
            assert(models[i as int] == objects@[i as int]@);
            assert(line@ =~= "class "@ + models[i as int].name + ";\n"@);
            vstd::seq_lib::lemma_concat_associative(
                g1,
                forward_defs(models.take(i as int)),
                "class "@ + models[i as int].name + ";\n"@,
            );
            assert(forward_defs(models.take(i + 1)) =~= forward_defs(models.take(i as int)) + (
            "class "@ + models[i as int].name + ";\n"@));
            assert(result@ == g1 + forward_defs(models.take(i + 1)));
        }
        i = i + 1;
    }
    proof {
        assert(models.take(objects.len() as int) =~= models);
    }
    let ghost g2 = g1 + forward_defs(models);

    let rust_fns = ffi.get_rust_functions();
    let mut i: usize = 0;
    while i < rust_fns.len()
        invariant
            i <= rust_fns.len(),
            rust_fns.deep_view() == ffi@.rust_functions,
            g2 == g1 + forward_defs(models),
            result@ == g2 + fn_defs_text(ffi@.rust_functions.take(i as int)),
        decreases rust_fns.len() - i,
    {
        let def = rust_fns[i].generate_cpp_def();
        result.append(def.as_str());
        result.append("\n\n");
        proof {
            let all = ffi@.rust_functions;
            assert(all[i as int] == rust_fns@[i as int]@);
            assert(all.take(i + 1).drop_last() =~= all.take(i as int));
            assert(all.take(i + 1).last() == all[i as int]);
            vstd::seq_lib::lemma_concat_associative(
                g2,
                fn_defs_text(all.take(i as int)),
                spec_cpp_def(all[i as int]),
            );
            vstd::seq_lib::lemma_concat_associative(
                g2,
                fn_defs_text(all.take(i as int)) + spec_cpp_def(all[i as int]),
                "\n\n"@,
            );
            assert(result@ == g2 + fn_defs_text(all.take(i + 1)));
        }
        i = i + 1;
    }
    proof {
        assert(ffi@.rust_functions.take(rust_fns.len() as int) =~= ffi@.rust_functions);
    }
    let ghost g3 = g2 + fn_defs_text(ffi@.rust_functions);

    let cpp_fns = ffi.get_cpp_functions();
    let mut i: usize = 0;
    while i < cpp_fns.len()
        invariant
            i <= cpp_fns.len(),
            cpp_fns.deep_view() == ffi@.cpp_functions,
            g3 == g2 + fn_defs_text(ffi@.rust_functions),
            result@ == g3 + fn_defs_text(ffi@.cpp_functions.take(i as int)),
        decreases cpp_fns.len() - i,
    {
        let def = cpp_fns[i].generate_cpp_def();
        result.append(def.as_str());
        result.append("\n\n");
        proof {
            let all = ffi@.cpp_functions;
            assert(all[i as int] == cpp_fns@[i as int]@);
            assert(all.take(i + 1).drop_last() =~= all.take(i as int));
            assert(all.take(i + 1).last() == all[i as int]);
            vstd::seq_lib::lemma_concat_associative(
                g3,
                fn_defs_text(all.take(i as int)),
                spec_cpp_def(all[i as int]),
            );
            vstd::seq_lib::lemma_concat_associative(
                g3,
                fn_defs_text(all.take(i as int)) + spec_cpp_def(all[i as int]),
                "\n\n"@,
            );
            assert(result@ == g3 + fn_defs_text(all.take(i + 1)));
        }
        i = i + 1;
    }
    proof {
        assert(ffi@.cpp_functions.take(cpp_fns.len() as int) =~= ffi@.cpp_functions);
    }
    result.append("\n");
    let ghost g4 = g3 + fn_defs_text(ffi@.cpp_functions) + "\n"@;
    proof {
        vstd::seq_lib::lemma_concat_associative(g3, fn_defs_text(ffi@.cpp_functions), "\n"@);
        assert(result@ == g4);
    }

    let mut i: usize = 0;
    while i < objects.len()
        invariant
            i <= objects.len(),
            models == objs_models(objects@),
            forall|k: int|
                0 <= k < objects@.len() ==> crate::qobject::config_attached(
                    #[trigger] objects@[k]@,
                ),
            forall|k: int|
                0 <= k < ffi@.cpp_functions.len() ==> (#[trigger] ffi@.cpp_functions[k]).body
                    is Cpp,
            cpp_fns.deep_view() == ffi@.cpp_functions,
            g4 == g3 + fn_defs_text(ffi@.cpp_functions) + "\n"@,
            result@ == g4 + classes_text(models.take(i as int), ffi@.cpp_functions),
        decreases objects.len() - i,
    {
        let friends = collect_friends(cpp_fns, objects[i].name_ref().as_str());
        proof {
            assert(models[i as int] == objects@[i as int]@);
            lemma_friend_fns_cpp(ffi@.cpp_functions, models[i as int].name);
        }
        let block = objects[i].generate_class_block(&friends);
        result.append(block.as_str());
        proof {
            assert(models.take(i + 1).drop_last() =~= models.take(i as int));
            assert(models.take(i + 1).last() == models[i as int]);
            vstd::seq_lib::lemma_concat_associative(
                g4,
                classes_text(models.take(i as int), ffi@.cpp_functions),
                class_text(
                    models[i as int],
                    friend_fns(ffi@.cpp_functions, models[i as int].name),
                ),
            );
            assert(result@ == g4 + classes_text(models.take(i + 1), ffi@.cpp_functions));
        }
        i = i + 1;
    }
    proof {
        assert(models.take(objects.len() as int) =~= models);
    }
    result.append("\n");
    let ghost g5 = g4 + classes_text(models, ffi@.cpp_functions) + "\n"@;
    proof {
        vstd::seq_lib::lemma_concat_associative(
            g4,
            classes_text(models, ffi@.cpp_functions),
            "\n"@,
        );
        assert(result@ == g5);
    }

    let mut i: usize = 0;
    while i < cpp_fns.len()
        invariant
            i <= cpp_fns.len(),
            cpp_fns.deep_view() == ffi@.cpp_functions,
            forall|k: int|
                0 <= k < ffi@.cpp_functions.len() ==> (#[trigger] ffi@.cpp_functions[k]).body
                    is Cpp,
            g5 == g4 + classes_text(models, ffi@.cpp_functions) + "\n"@,
            result@ == g5 + impls_text(ffi@.cpp_functions.take(i as int)),
        decreases cpp_fns.len() - i,
    {
        let ghost all = ffi@.cpp_functions;
        proof {
            assert(all[i as int] == cpp_fns@[i as int]@);
            assert(all.take(i + 1).drop_last() =~= all.take(i as int));
            assert(all.take(i + 1).last() == all[i as int]);
        }
        let no_friend = match cpp_fns[i].get_friend_class() {
            Some(_) => false,
            None => true,
        };
        if no_friend {
            let imp = cpp_fns[i].generate_cpp_impl();
            result.append(imp.as_str());
            result.append("\n");
            proof {
                vstd::seq_lib::lemma_concat_associative(
                    g5,
                    impls_text(all.take(i as int)),
                    spec_cpp_impl(all[i as int]),
                );
                vstd::seq_lib::lemma_concat_associative(
                    g5,
                    impls_text(all.take(i as int)) + spec_cpp_impl(all[i as int]),
                    "\n"@,
                );
                assert(result@ == g5 + impls_text(all.take(i + 1)));
            }
        } else {
            proof {
                assert(impls_text(all.take(i + 1)) =~= impls_text(all.take(i as int)));
            }
        }
        i = i + 1;
    }
    proof {
        assert(ffi@.cpp_functions.take(cpp_fns.len() as int) =~= ffi@.cpp_functions);
    }
    let ghost g6 = g5 + impls_text(ffi@.cpp_functions);

    result.append("\n#include \"");
    result.append(moc_name);
    result.append("\"\n");
    proof {
        vstd::seq_lib::lemma_concat_associative(g6, "\n#include \""@, moc_name@);
        vstd::seq_lib::lemma_concat_associative(g6, "\n#include \""@ + moc_name@, "\"\n"@);
        assert(result@ == spec_generate_cpp(moc_name@, models, ffi@));
    }
    result
}

/// Turns a run of object descriptions into the native-surface text and the
/// embedding-surface text. The two surfaces render every crossing from the
/// same descriptors, so their declarations agree by construction.
pub fn generate(moc_name: &str, objects: &[&QObjectConfig]) -> (r: (String, String))
    requires
        forall|i: int|
            0 <= i < objects@.len() ==> crate::qobject::config_attached(
                #[trigger] objects@[i]@,
            ),
    ensures
        r.0@ == spec_generate_cpp(
            moc_name@,
            objs_models(objects@),
            bridge_of(objs_models(objects@)),
        ),
        r.1@ == spec_generate_rust(objs_models(objects@), bridge_of(objs_models(objects@))),
{
    let ghost models = objs_models(objects@);
    let mut ffi = FfiBridge::new();
    let mut i: usize = 0;
    while i < objects.len()
        invariant
            i <= objects.len(),
            models == objs_models(objects@),
            forall|k: int|
                0 <= k < objects@.len() ==> crate::qobject::config_attached(
                    #[trigger] objects@[k]@,
                ),
            ffi@.rust_functions =~= all_rust_fns(models.take(i as int)),
            ffi@.cpp_functions =~= all_cpp_fns(models.take(i as int)),
        decreases objects.len() - i,
    {
        proof {
            assert(models[i as int] == objects@[i as int]@);
        }
        objects[i].fill_ffi_functions(&mut ffi);
        proof {
            assert(models.take(i + 1).drop_last() =~= models.take(i as int));
            assert(models.take(i + 1).last() == models[i as int]);
            assert(ffi@.rust_functions =~= all_rust_fns(models.take(i + 1)));
            assert(ffi@.cpp_functions =~= all_cpp_fns(models.take(i + 1)));
        }
        i = i + 1;
    }
    proof {
        assert(models.take(objects.len() as int) =~= models);
        lemma_all_fns_bodies(models);
        assert(ffi@ =~= bridge_of(models));
    }
    let cpp = generate_cpp(moc_name, objects, &ffi);
    let rust = generate_rust(objects, &ffi);
    (cpp, rust)
}

} // verus!
