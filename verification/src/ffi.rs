//! Cross-boundary function descriptors and the registry that partitions them
//! by which side authors the executable body.
//!
//! A descriptor whose return type is not return-safe is rendered, on both
//! surfaces alike, with a trailing out-pointer parameter and a void-equivalent
//! return, so the arities of the two declarations always agree.

use vstd::prelude::*;

use crate::qobject::ArgModel;
use crate::strutil::{join_strings, spec_join};
use crate::typeref::{TypeModel, TypeRef, TypeRefTrait};

verus! {

/// Which side supplies the executable body of a crossing.
#[derive(Clone, Debug)]
pub enum ImplCode {
    Cpp(String),
    Rust(String),
    Extern,
}

/// Mathematical value of [`ImplCode`].
#[verifier::ext_equal]
pub enum CodeModel {
    Cpp(Seq<char>),
    Rust(Seq<char>),
    Extern,
}

impl View for ImplCode {
    type V = CodeModel;

    open spec fn view(&self) -> CodeModel {
        match self {
            ImplCode::Cpp(s) => CodeModel::Cpp(s@),
            ImplCode::Rust(s) => CodeModel::Rust(s@),
            ImplCode::Extern => CodeModel::Extern,
        }
    }
}

impl DeepView for ImplCode {
    type V = CodeModel;

    open spec fn deep_view(&self) -> CodeModel {
        self.view()
    }
}

/// One callable crossing the boundary.
#[derive(Clone, Debug)]
pub struct FfiFunction {
    name: String,
    args: Vec<(String, TypeRef)>,
    rtype: Option<TypeRef>,
    body: ImplCode,
    friend_class: Option<String>,
}

/// Mathematical value of [`FfiFunction`].
#[verifier::ext_equal]
pub struct FuncModel {
    pub name: Seq<char>,
    pub args: Seq<ArgModel>,
    pub rtype: Option<TypeModel>,
    pub body: CodeModel,
    pub friend_class: Option<Seq<char>>,
}

impl View for FfiFunction {
    type V = FuncModel;

    closed spec fn view(&self) -> FuncModel {
        FuncModel {
            name: self.name@,
            args: self.args.deep_view(),
            rtype: self.rtype.deep_view(),
            body: self.body@,
            friend_class: self.friend_class.deep_view(),
        }
    }
}

impl DeepView for FfiFunction {
    type V = FuncModel;

    open spec fn deep_view(&self) -> FuncModel {
        self.view()
    }
}

/// The type descriptors of a declared argument list.
pub open spec fn arg_type_seq(args: Seq<ArgModel>) -> Seq<TypeModel> {
    Seq::new(args.len(), |i: int| args[i].1)
}

/// Whether the rendered form needs the trailing out-pointer.
pub open spec fn needs_out_param(f: FuncModel) -> bool {
    match f.rtype {
        Some(rty) => !rty.return_safe,
        None => false,
    }
}

/// C++ spelling of one declared parameter.
pub open spec fn cpp_param(a: ArgModel) -> Seq<char> {
    a.1.cpp + " "@ + a.0
}

/// The C++ spellings of a declared argument list.
pub open spec fn cpp_param_seq(args: Seq<ArgModel>) -> Seq<Seq<char>> {
    Seq::new(args.len(), |i: int| cpp_param(args[i]))
}

/// The full C++ parameter list, out-pointer included.
pub open spec fn cpp_params(f: FuncModel) -> Seq<Seq<char>> {
    let base = cpp_param_seq(f.args);
    if needs_out_param(f) {
        base.push(f.rtype->0.cpp + "* out__"@)
    } else {
        base
    }
}

/// The rendered C++ return type: void unless the type is return-safe.
pub open spec fn cpp_ret(f: FuncModel) -> Seq<char> {
    match f.rtype {
        Some(rty) => if rty.return_safe {
            rty.cpp
        } else {
            "void"@
        },
        None => "void"@,
    }
}

/// The C++ signature of a crossing.
pub open spec fn spec_cpp_sig(f: FuncModel) -> Seq<char> {
    cpp_ret(f) + " "@ + f.name + "("@ + spec_join(cpp_params(f), ", "@) + ")"@
}

/// The C++ extern declaration.
pub open spec fn spec_cpp_def(f: FuncModel) -> Seq<char> {
    "extern \"C\" "@ + spec_cpp_sig(f) + ";"@
}

/// The C++ definition, for a C++-authored body.
pub open spec fn spec_cpp_impl(f: FuncModel) -> Seq<char> {
    "extern \"C\" "@ + spec_cpp_sig(f) + " {\n  "@ + f.body->Cpp_0 + "\n}"@
}

/// The C++ friend definition, for a body placed inside its class.
pub open spec fn spec_friend_cpp_impl(f: FuncModel) -> Seq<char> {
    "friend "@ + spec_cpp_sig(f) + " {\n  "@ + f.body->Cpp_0 + "\n}"@
}

/// Rust spelling of one declared parameter.
pub open spec fn rust_param(a: ArgModel) -> Seq<char> {
    a.0 + ": "@ + a.1.rust
}

/// The Rust spellings of a declared argument list.
pub open spec fn rust_param_seq(args: Seq<ArgModel>) -> Seq<Seq<char>> {
    Seq::new(args.len(), |i: int| rust_param(args[i]))
}

/// The full Rust parameter list, out-pointer included.
pub open spec fn rust_params(f: FuncModel) -> Seq<Seq<char>> {
    let base = rust_param_seq(f.args);
    if needs_out_param(f) {
        base.push("out__: *mut "@ + f.rtype->0.rust)
    } else {
        base
    }
}

/// The rendered Rust return type: unit unless the type is return-safe.
pub open spec fn rust_ret(f: FuncModel) -> Seq<char> {
    match f.rtype {
        Some(rty) => if rty.return_safe {
            rty.rust
        } else {
            "()"@
        },
        None => "()"@,
    }
}

/// The Rust signature of a crossing.
pub open spec fn spec_rust_sig(f: FuncModel) -> Seq<char> {
    "fn "@ + f.name + "("@ + spec_join(rust_params(f), ", "@) + ") -> "@ + rust_ret(f)
}

/// The Rust extern declaration.
pub open spec fn spec_rust_def(f: FuncModel) -> Seq<char> {
    "  pub "@ + spec_rust_sig(f) + ";"@
}

/// The Rust definition, for a Rust-authored body.
pub open spec fn spec_rust_impl(f: FuncModel) -> Seq<char> {
    "#[no_mangle] pub extern \"C\" "@ + spec_rust_sig(f) + " {\n  "@ + f.body->Rust_0 + "\n}"@
}

/// Arity parity: the two surfaces declare the same number of parameters,
/// namely the descriptor's own arguments plus one out-pointer exactly when
/// the return type is not return-safe.
pub proof fn lemma_arity_parity(f: FuncModel)
    ensures
        cpp_params(f).len() == rust_params(f).len(),
        cpp_params(f).len() == f.args.len() + if needs_out_param(f) {
            1int
        } else {
            0int
        },
{
}

impl FfiFunction {
    /// A crossing with no arguments, no return and an extern-only body.
    pub fn new(name: &str) -> (r: Self)
        ensures
            r@ == (FuncModel {
                name: name@,
                args: Seq::empty(),
                rtype: None,
                body: CodeModel::Extern,
                friend_class: None,
            }),
    {
        let r = Self {
            name: String::from_str(name),
            args: Vec::new(),
            rtype: None,
            body: ImplCode::Extern,
            friend_class: None,
        };
        proof {
            assert(r@.args =~= Seq::<ArgModel>::empty());
        }
        r
    }

    /// A complete crossing, stated in one construction.
    pub fn new_complete(
        name: &str,
        args: Vec<(String, TypeRef)>,
        rtype: Option<TypeRef>,
        body: ImplCode,
        friend_class: Option<String>,
    ) -> (r: Self)
        ensures
            r@ == (FuncModel {
                name: name@,
                args: args.deep_view(),
                rtype: rtype.deep_view(),
                body: body@,
                friend_class: friend_class.deep_view(),
            }),
    {
        Self { name: String::from_str(name), args, rtype, body, friend_class }
    }

    /// Appends an argument whose type is carried by `T`.
    pub fn arg<T: TypeRefTrait>(self, name: &str) -> (r: Self)
        ensures
            r@ == (FuncModel { args: self@.args.push((name@, T::model())), ..self@ }),
    {
        self.arg_with_type(name, T::type_ref())
    }

    /// Appends an argument with an explicit type descriptor.
    pub fn arg_with_type(self, name: &str, ty: TypeRef) -> (r: Self)
        ensures
            r@ == (FuncModel { args: self@.args.push((name@, ty@)), ..self@ }),
    {
        let mut args = self.args;
        let ghost old_args = args.deep_view();
        args.push((String::from_str(name), ty));
        let r = Self { args, ..self };
        proof {
            assert(r@.args =~= old_args.push((name@, ty@)));
        }
        r
    }

    /// Gives the crossing a Rust-authored body.
    pub fn rust_impl(self, body: &str) -> (r: Self)
        ensures
            r@ == (FuncModel { body: CodeModel::Rust(body@), ..self@ }),
    {
        Self { body: ImplCode::Rust(String::from_str(body)), ..self }
    }

    /// Gives the crossing a C++-authored body.
    pub fn cpp_impl(self, body: &str) -> (r: Self)
        ensures
            r@ == (FuncModel { body: CodeModel::Cpp(body@), ..self@ }),
    {
        Self { body: ImplCode::Cpp(String::from_str(body)), ..self }
    }

    /// Sets the return type from `T`.
    pub fn ret<T: TypeRefTrait>(self) -> (r: Self)
        ensures
            r@ == (FuncModel { rtype: Some(T::model()), ..self@ }),
    {
        self.ret_type(T::type_ref())
    }

    /// Sets the return type explicitly.
    pub fn ret_type(self, ty: TypeRef) -> (r: Self)
        ensures
            r@ == (FuncModel { rtype: Some(ty@), ..self@ }),
    {
        Self { rtype: Some(ty), ..self }
    }

    /// Tags the crossing with the class that grants it friend access.
    pub fn friend_class(self, cls: &str) -> (r: Self)
        ensures
            r@ == (FuncModel { friend_class: Some(cls@), ..self@ }),
    {
        Self { friend_class: Some(String::from_str(cls)), ..self }
    }

    /// The friend tag, if any.
    pub fn get_friend_class(&self) -> (r: Option<&str>)
        ensures
            r.deep_view() == self@.friend_class,
    {
        match &self.friend_class {
            Some(c) => Some(c.as_str()),
            None => None,
        }
    }

    /// All type descriptors the crossing mentions: the arguments in order,
    /// then the return type if there is one.
    pub fn get_type_refs(&self) -> (r: Vec<TypeRef>)
        ensures
            r.deep_view() == arg_type_seq(self@.args) + match self@.rtype {
                Some(rty) => seq![rty],
                None => Seq::<TypeModel>::empty(),
            },
    {
        let mut result: Vec<TypeRef> = Vec::new();
        let mut i: usize = 0;
        while i < self.args.len()
            invariant
                i <= self.args.len(),
                result.deep_view() =~= arg_type_seq(self@.args.take(i as int)),
            decreases self.args.len() - i,
        {
            let ghost pre = result.deep_view();
            result.push(self.args[i].1.dup());
            proof {
                assert(result.deep_view() =~= pre.push(self@.args[i as int].1));
                assert(arg_type_seq(self@.args.take(i + 1)) =~= arg_type_seq(
                    self@.args.take(i as int),
                ).push(self@.args[i as int].1));
                assert(result.deep_view() =~= arg_type_seq(self@.args.take(i + 1)));
            }
            i = i + 1;
        }
        proof {
            assert(self@.args.take(self.args.len() as int) =~= self@.args);
        }
        if let Some(rtype) = &self.rtype {
            result.push(rtype.dup());
        }
        proof {
            assert(result.deep_view() =~= arg_type_seq(self@.args) + match self@.rtype {
                Some(rty) => seq![rty],
                None => Seq::<TypeModel>::empty(),
            });
        }
        result
    }

    /// Renders the C++ signature.
    pub fn generate_cpp_sig(&self) -> (r: String)
        ensures
            r@ == spec_cpp_sig(self@),
    {
        let mut args: Vec<String> = Vec::new();
        let mut i: usize = 0;
        while i < self.args.len()
            invariant
                i <= self.args.len(),
                args.deep_view() =~= cpp_param_seq(self@.args.take(i as int)),
            decreases self.args.len() - i,
        {
            let a = &self.args[i];
            let mut p = String::from_str(a.1.cpp_type());
            p.append(" ");
            p.append(a.0.as_str());
            let ghost pre = args.deep_view();
            args.push(p);
            proof {
                assert(p@ =~= cpp_param(self@.args[i as int]));
                assert(args.deep_view() =~= pre.push(p@));
                assert(cpp_param_seq(self@.args.take(i + 1)) =~= cpp_param_seq(
                    self@.args.take(i as int),
                ).push(cpp_param(self@.args[i as int])));
                assert(args.deep_view() =~= cpp_param_seq(self@.args.take(i + 1)));
            }
            i = i + 1;
        }
        proof {
            assert(self@.args.take(self.args.len() as int) =~= self@.args);
        }
        let rtype: String = match &self.rtype {
            Some(rty) => {
                if rty.return_safe() {
                    String::from_str(rty.cpp_type())
                } else {
                    let mut out = String::from_str(rty.cpp_type());
                    out.append("* out__");
                    args.push(out);
                    String::from_str("void")
                }
            },
            None => String::from_str("void"),
        };
        proof {
            assert(args.deep_view() =~= cpp_params(self@));
        }
        let joined = join_strings(&args, ", ");
        let mut r = rtype;
        r.append(" ");
        r.append(self.name.as_str());
        r.append("(");
        r.append(joined.as_str());
        r.append(")");
        proof {
            assert(r@ =~= spec_cpp_sig(self@));
        }
        r
    }

    /// Renders the C++ extern declaration.
    pub fn generate_cpp_def(&self) -> (r: String)
        ensures
            r@ == spec_cpp_def(self@),
    {
        let sig = self.generate_cpp_sig();
        let mut r = String::from_str("extern \"C\" ");
        r.append(sig.as_str());
        r.append(";");
        proof {
            assert(r@ =~= spec_cpp_def(self@));
        }
        r
    }

    /// Renders the C++ definition; the body must be C++-authored.
    pub fn generate_cpp_impl(&self) -> (r: String)
        requires
            self@.body is Cpp,
        ensures
            r@ == spec_cpp_impl(self@),
    {
        let body: &String = match &self.body {
            ImplCode::Cpp(body) => body,
            _ => unreached(),
        };
        let sig = self.generate_cpp_sig();
        let mut r = String::from_str("extern \"C\" ");
        r.append(sig.as_str());
        r.append(" {\n  ");
        r.append(body.as_str());
        r.append("\n}");
        proof {
            assert(r@ =~= spec_cpp_impl(self@));
        }
        r
    }

    /// Renders the friend definition; the body must be C++-authored.
    pub fn generate_friend_cpp_impl(&self) -> (r: String)
        requires
            self@.body is Cpp,
        ensures
            r@ == spec_friend_cpp_impl(self@),
    {
        let body: &String = match &self.body {
            ImplCode::Cpp(body) => body,
            _ => unreached(),
        };
        let sig = self.generate_cpp_sig();
        let mut r = String::from_str("friend ");
        r.append(sig.as_str());
        r.append(" {\n  ");
        r.append(body.as_str());
        r.append("\n}");
        proof {
            assert(r@ =~= spec_friend_cpp_impl(self@));
        }
        r
    }

    /// Renders the Rust signature.
    pub fn generate_rust_sig(&self) -> (r: String)
        ensures
            r@ == spec_rust_sig(self@),
    {
        let mut args: Vec<String> = Vec::new();
        let mut i: usize = 0;
        while i < self.args.len()
            invariant
                i <= self.args.len(),
                args.deep_view() =~= rust_param_seq(self@.args.take(i as int)),
            decreases self.args.len() - i,
        {
            let a = &self.args[i];
            let mut p = a.0.clone();
            p.append(": ");
            p.append(a.1.rust_type());
            let ghost pre = args.deep_view();
            args.push(p);
            proof {
                assert(p@ =~= rust_param(self@.args[i as int]));
                assert(args.deep_view() =~= pre.push(p@));
                assert(rust_param_seq(self@.args.take(i + 1)) =~= rust_param_seq(
                    self@.args.take(i as int),
                ).push(rust_param(self@.args[i as int])));
                assert(args.deep_view() =~= rust_param_seq(self@.args.take(i + 1)));
            }
            i = i + 1;
        }
        proof {
            assert(self@.args.take(self.args.len() as int) =~= self@.args);
        }
        let rtype: String = match &self.rtype {
            Some(rty) => {
                if rty.return_safe() {
                    String::from_str(rty.rust_type())
                } else {
                    let mut out = String::from_str("out__: *mut ");
                    out.append(rty.rust_type());
                    args.push(out);
                    String::from_str("()")
                }
            },
            None => String::from_str("()"),
        };
        proof {
            assert(args.deep_view() =~= rust_params(self@));
        }
        let joined = join_strings(&args, ", ");
        let mut r = String::from_str("fn ");
        r.append(self.name.as_str());
        r.append("(");
        r.append(joined.as_str());
        r.append(") -> ");
        r.append(rtype.as_str());
        proof {
            assert(r@ =~= spec_rust_sig(self@));
        }
        r
    }

    /// Renders the Rust extern declaration.
    pub fn generate_rust_def(&self) -> (r: String)
        ensures
            r@ == spec_rust_def(self@),
    {
        let sig = self.generate_rust_sig();
        let mut r = String::from_str("  pub ");
        r.append(sig.as_str());
        r.append(";");
        proof {
            assert(r@ =~= spec_rust_def(self@));
        }
        r
    }

    /// Renders the Rust definition; the body must be Rust-authored.
    pub fn generate_rust_impl(&self) -> (r: String)
        requires
            self@.body is Rust,
        ensures
            r@ == spec_rust_impl(self@),
    {
        let body: &String = match &self.body {
            ImplCode::Rust(body) => body,
            _ => unreached(),
        };
        let sig = self.generate_rust_sig();
        let mut r = String::from_str("#[no_mangle] pub extern \"C\" ");
        r.append(sig.as_str());
        r.append(" {\n  ");
        r.append(body.as_str());
        r.append("\n}");
        proof {
            assert(r@ =~= spec_rust_impl(self@));
        }
        r
    }
}

/// The registry of crossings, partitioned by the authoring side.
pub struct FfiBridge {
    rust_functions: Vec<FfiFunction>,
    cpp_functions: Vec<FfiFunction>,
}

/// Mathematical value of [`FfiBridge`].
#[verifier::ext_equal]
pub struct BridgeModel {
    pub rust_functions: Seq<FuncModel>,
    pub cpp_functions: Seq<FuncModel>,
}

impl View for FfiBridge {
    type V = BridgeModel;

    closed spec fn view(&self) -> BridgeModel {
        BridgeModel {
            rust_functions: self.rust_functions.deep_view(),
            cpp_functions: self.cpp_functions.deep_view(),
        }
    }
}

impl FfiBridge {
    pub fn new() -> (r: Self)
        ensures
            r@ == (BridgeModel { rust_functions: Seq::empty(), cpp_functions: Seq::empty() }),
    {
        let r = Self { rust_functions: Vec::new(), cpp_functions: Vec::new() };
        proof {
            assert(r@ =~= (BridgeModel {
                rust_functions: Seq::empty(),
                cpp_functions: Seq::empty(),
            }));
        }
        r
    }

    /// Registers a Rust-authored crossing.
    pub fn rust_function(&mut self, func: FfiFunction)
        ensures
            final(self)@ == (BridgeModel {
                rust_functions: old(self)@.rust_functions.push(func@),
                ..old(self)@
            }),
    {
        self.rust_functions.push(func);
        proof {
            assert(self@ =~= (BridgeModel {
                rust_functions: old(self)@.rust_functions.push(func@),
                ..old(self)@
            }));
        }
    }

    /// Registers a C++-authored crossing.
    pub fn cpp_function(&mut self, func: FfiFunction)
        ensures
            final(self)@ == (BridgeModel {
                cpp_functions: old(self)@.cpp_functions.push(func@),
                ..old(self)@
            }),
    {
        self.cpp_functions.push(func);
        proof {
            assert(self@ =~= (BridgeModel {
                cpp_functions: old(self)@.cpp_functions.push(func@),
                ..old(self)@
            }));
        }
    }

    /// The Rust-authored crossings, in registration order.
    pub fn get_rust_functions(&self) -> (r: &Vec<FfiFunction>)
        ensures
            r.deep_view() == self@.rust_functions,
    {
        &self.rust_functions
    }

    /// The C++-authored crossings, in registration order.
    pub fn get_cpp_functions(&self) -> (r: &Vec<FfiFunction>)
        ensures
            r.deep_view() == self@.cpp_functions,
    {
        &self.cpp_functions
    }
}

} // verus!
