//! The managed-side wrapper generator.
//!
//! For each opaque, non-generic, non-copy type implemented on the Rust side
//! it emits a three-class hierarchy — a read-only-borrow base class, a
//! mutable-borrow class extending it, and an owning class extending that —
//! and places every method on the class its receiver calls for.  An
//! owned-self method lives only on the owning class and clears that
//! instance's ownership flag as it hands the pointer away; the owning
//! class's deinitializer frees the handle if and only if the flag is still
//! set.

use crate::header::link_name_text;
use crate::model::{
    CodegenConfig, FunctionDeclaration, Module, OpaqueType, Primitive, ReceiverKind,
    TypeDeclaration, TypeRef,
};
use vstd::prelude::*;
use vstd::string::StringExecFns;

verus! {

broadcast use crate::model::lemma_add_assoc;

/// The Swift spelling of a fixed-width scalar.
pub open spec fn prim_swift(p: Primitive) -> Seq<char> {
    match p {
        Primitive::U8 => "UInt8"@,
        Primitive::I8 => "Int8"@,
        Primitive::U16 => "UInt16"@,
        Primitive::I16 => "Int16"@,
        Primitive::U32 => "UInt32"@,
        Primitive::I32 => "Int32"@,
        Primitive::U64 => "UInt64"@,
        Primitive::I64 => "Int64"@,
        Primitive::Usize => "UInt"@,
        Primitive::Isize => "Int"@,
        Primitive::Bool => "Bool"@,
        Primitive::F32 => "Float"@,
        Primitive::F64 => "Double"@,
    }
}

/// The Swift-side spelling of a type reference: scalars by their Swift
/// names, declared types by their wrapper class or mirrored struct name,
/// containers through the fixed support generics.
pub open spec fn swift_of_ref(ty: TypeRef, types: Seq<TypeDeclaration>) -> Seq<char>
    decreases ty,
{
    match ty {
        TypeRef::Prim(p) => prim_swift(p),
        TypeRef::Str => "RustString"@,
        TypeRef::Named(n) => n@,
        TypeRef::Opt(inner) => "Optional<"@ + swift_of_ref(*inner, types) + ">"@,
        TypeRef::Slice(inner) => "UnsafeBufferPointer<"@ + swift_of_ref(*inner, types) + ">"@,
        TypeRef::Vector(inner) => "RustVec<"@ + swift_of_ref(*inner, types) + ">"@,
        TypeRef::Res(ok, err) => "RustResult<"@ + swift_of_ref(*ok, types) + ", "@ + swift_of_ref(
            *err,
            types,
        ) + ">"@,
        TypeRef::Callback(_, _) => "UnsafeMutableRawPointer"@,
    }
}

fn prim_swift_str(p: Primitive) -> (r: &'static str)
    ensures
        r@ == prim_swift(p),
{
    match p {
        Primitive::U8 => "UInt8",
        Primitive::I8 => "Int8",
        Primitive::U16 => "UInt16",
        Primitive::I16 => "Int16",
        Primitive::U32 => "UInt32",
        Primitive::I32 => "Int32",
        Primitive::U64 => "UInt64",
        Primitive::I64 => "Int64",
        Primitive::Usize => "UInt",
        Primitive::Isize => "Int",
        Primitive::Bool => "Bool",
        Primitive::F32 => "Float",
        Primitive::F64 => "Double",
    }
}

/// Appends the Swift spelling of `ty`.
fn push_swift_spelling(out: &mut String, ty: &TypeRef, types: &Vec<TypeDeclaration>)
    ensures
        final(out)@ == old(out)@ + swift_of_ref(*ty, types@),
    decreases *ty,
{
    match ty {
        TypeRef::Prim(p) => out.append(prim_swift_str(*p)),
        TypeRef::Str => out.append("RustString"),
        TypeRef::Named(n) => out.append(n.as_str()),
        TypeRef::Opt(inner) => {
            out.append("Optional<");
            push_swift_spelling(out, &**inner, types);
            out.append(">");
        },
        TypeRef::Slice(inner) => {
            out.append("UnsafeBufferPointer<");
            push_swift_spelling(out, &**inner, types);
            out.append(">");
        },
        TypeRef::Vector(inner) => {
            out.append("RustVec<");
            push_swift_spelling(out, &**inner, types);
            out.append(">");
        },
        TypeRef::Res(ok, err) => {
            out.append("RustResult<");
            push_swift_spelling(out, &**ok, types);
            out.append(", ");
            push_swift_spelling(out, &**err, types);
            out.append(">");
        },
        TypeRef::Callback(_, _) => out.append("UnsafeMutableRawPointer"),
    }
}

/// True when `f` is a Rust-implemented method of the type named `ty` taking
/// its receiver by `kind`.
pub open spec fn is_group_method(f: FunctionDeclaration, ty: Seq<char>, kind: ReceiverKind) -> bool {
    &&& !f.host_lang.spec_is_swift()
    &&& match f.receiver {
        Some(r) => r.ty_name@ == ty && r.kind == kind,
        None => false,
    }
}

/// True when one of the first `i` functions is a method of the group.
pub open spec fn group_has_earlier(
    fns: Seq<FunctionDeclaration>,
    ty: Seq<char>,
    kind: ReceiverKind,
    i: int,
) -> bool {
    exists|j: int| 0 <= j < i && is_group_method(#[trigger] fns[j], ty, kind)
}

/// The argument handed to the glue call for the receiver itself.  Calling an
/// owned-self method transfers the handle away: the wrapper clears its
/// ownership flag in the same expression, so the finalizer will not free a
/// pointer it no longer owns.
pub open spec fn receiver_arg_text(kind: ReceiverKind) -> Seq<char> {
    match kind {
        ReceiverKind::Owned => "{isOwned = false; return ptr;}()"@,
        ReceiverKind::RefMut => "ptr"@,
        ReceiverKind::RefShared => "ptr"@,
    }
}

pub open spec fn swift_params_text(f: FunctionDeclaration, types: Seq<TypeDeclaration>) -> Seq<
    char,
>
    decreases f.params@.len(),
{
    crate::header::comma_joined(
        Seq::new(
            f.params@.len(),
            |i: int| "_ "@ + f.params@[i].name@ + ": "@ + swift_of_ref(f.params@[i].ty, types),
        ),
    )
}

pub open spec fn swift_args_text(f: FunctionDeclaration, kind: ReceiverKind) -> Seq<char> {
    crate::header::comma_joined(
        seq![receiver_arg_text(kind)] + Seq::new(f.params@.len(), |i: int| f.params@[i].name@),
    )
}

/// One method inside a wrapper class extension.
#[verifier::opaque]
pub open spec fn method_text(f: FunctionDeclaration, types: Seq<TypeDeclaration>) -> Seq<char> {
    let kind = match f.receiver {
        Some(r) => r.kind,
        None => ReceiverKind::RefShared,
    };
    "    internal func "@ + f.name@ + "("@ + swift_params_text(f, types) + ")"@ + (match f.ret {
        None => Seq::<char>::empty(),
        Some(t) => " -> "@ + swift_of_ref(t, types),
    }) + " {\n        "@ + link_name_text(f) + "("@ + swift_args_text(f, kind) + ")\n    }\n"@
}

/// The class that methods of this receiver kind are placed on.
pub open spec fn ext_class_name(ty: Seq<char>, kind: ReceiverKind) -> Seq<char> {
    match kind {
        ReceiverKind::Owned => ty,
        ReceiverKind::RefMut => ty + "RefMut"@,
        ReceiverKind::RefShared => ty + "Ref"@,
    }
}

/// The methods of one receiver group, in declaration order, blank-line
/// separated.
pub open spec fn group_parts(
    fns: Seq<FunctionDeclaration>,
    types: Seq<TypeDeclaration>,
    ty: Seq<char>,
    kind: ReceiverKind,
) -> Seq<Seq<char>> {
    Seq::new(
        fns.len(),
        |i: int|
            if is_group_method(fns[i], ty, kind) {
                (if group_has_earlier(fns, ty, kind, i) {
                    "\n"@
                } else {
                    Seq::<char>::empty()
                }) + method_text(fns[i], types)
            } else {
                Seq::<char>::empty()
            },
    )
}

/// The extension holding one receiver group; nothing when the group is
/// empty.
#[verifier::opaque]
pub open spec fn extension_text(
    fns: Seq<FunctionDeclaration>,
    types: Seq<TypeDeclaration>,
    ty: Seq<char>,
    kind: ReceiverKind,
) -> Seq<char> {
    if group_has_earlier(fns, ty, kind, fns.len() as int) {
        "extension "@ + ext_class_name(ty, kind) + " {\n"@ + crate::header::concat_all(
            group_parts(fns, types, ty, kind),
        ) + "}\n"@
    } else {
        Seq::<char>::empty()
    }
}

/// The owning class: it frees the handle on teardown if and only if it still
/// owns it.
#[verifier::opaque]
pub open spec fn owning_class_text(name: Seq<char>) -> Seq<char> {
    "internal class "@ + name + ": "@ + name
        + "RefMut {\n    var isOwned: Bool = true\n\n    internal override init(ptr: UnsafeMutableRawPointer) {\n        super.init(ptr: ptr)\n    }\n\n    deinit {\n        if isOwned {\n            __swift_bridge__$"@
        + name + "$_free(ptr)\n        }\n    }\n}\n"@
}

/// The mutable-borrow class.
#[verifier::opaque]
pub open spec fn refmut_class_text(name: Seq<char>) -> Seq<char> {
    "internal class "@ + name + "RefMut: "@ + name
        + "Ref {\n    internal override init(ptr: UnsafeMutableRawPointer) {\n        super.init(ptr: ptr)\n    }\n}\n"@
}

/// The read-only-borrow base class, which holds the raw pointer.
#[verifier::opaque]
pub open spec fn ref_class_text(name: Seq<char>) -> Seq<char> {
    "internal class "@ + name
        + "Ref {\n    var ptr: UnsafeMutableRawPointer\n\n    internal init(ptr: UnsafeMutableRawPointer) {\n        self.ptr = ptr\n    }\n}\n"@
}

/// The full class triple of one opaque type, owning class first, each class
/// followed by the extension holding its methods.
pub open spec fn opaque_swift_text(
    o: OpaqueType,
    fns: Seq<FunctionDeclaration>,
    types: Seq<TypeDeclaration>,
) -> Seq<char> {
    if o.host_lang.spec_is_swift() || o.already_declared || o.declare_generic || o.copy is Some
        || o.generics@.len() > 0 {
        Seq::<char>::empty()
    } else {
        owning_class_text(o.name@) + extension_text(fns, types, o.name@, ReceiverKind::Owned)
            + refmut_class_text(o.name@) + extension_text(
            fns,
            types,
            o.name@,
            ReceiverKind::RefMut,
        ) + ref_class_text(o.name@) + extension_text(fns, types, o.name@, ReceiverKind::RefShared)
    }
}

pub open spec fn swift_decl_text(
    d: TypeDeclaration,
    fns: Seq<FunctionDeclaration>,
    types: Seq<TypeDeclaration>,
) -> Seq<char> {
    match d {
        TypeDeclaration::Opaque(o) => opaque_swift_text(o, fns, types),
        _ => Seq::<char>::empty(),
    }
}

/// The whole wrapper source for a module: the class triples of its opaque
/// types, in declaration order.
pub open spec fn swift_text(m: Module, config: CodegenConfig) -> Seq<char> {
    if !m.spec_will_be_compiled(&config) {
        Seq::<char>::empty()
    } else {
        crate::header::concat_all(
            Seq::new(m.types@.len(), |i: int| swift_decl_text(m.types@[i], m.functions@, m.types@)),
        )
    }
}

/// True when `f` belongs to the group.
fn is_group_method_exec(f: &FunctionDeclaration, ty: &String, kind: ReceiverKind) -> (r: bool)
    ensures
        r == is_group_method(*f, ty@, kind),
{
    if f.host_lang.is_swift() {
        return false;
    }
    match &f.receiver {
        Some(r) => r.ty_name.eq(ty) && r.kind == kind,
        None => false,
    }
}

/// Appends the comma-separated Swift parameter list of `f`.
#[verifier::rlimit(60)]
fn push_method_params(out: &mut String, f: &FunctionDeclaration, types: &Vec<TypeDeclaration>)
    ensures
        final(out)@ == old(out)@ + swift_params_text(*f, types@),
{
    let ghost pparts = Seq::new(
        f.params@.len(),
        |i: int| "_ "@ + f.params@[i].name@ + ": "@ + swift_of_ref(f.params@[i].ty, types@),
    );
    let mut i: usize = 0;
    proof {
        assert(pparts.take(0).len() == 0);
    }
    while i < f.params.len()
        invariant
            0 <= i <= f.params@.len(),
            pparts == Seq::new(
                f.params@.len(),
                |k: int| "_ "@ + f.params@[k].name@ + ": "@ + swift_of_ref(f.params@[k].ty, types@),
            ),
            out@ == old(out)@ + crate::header::comma_joined(pparts.take(i as int)),
        decreases f.params@.len() - i,
    {
        if i > 0 {
            out.append(", ");
        }
        out.append("_ ");
        out.append(f.params[i].name.as_str());
        out.append(": ");
        push_swift_spelling(out, &f.params[i].ty, types);
        proof {
            assert(pparts[i as int] == "_ "@ + f.params@[i as int].name@ + ": "@ + swift_of_ref(
                f.params@[i as int].ty,
                types@,
            ));
            if i == 0 {
                assert(pparts.take(1).len() == 1);
                assert(pparts.take(1)[0] == pparts[0]);
            } else {
                crate::header::lemma_comma_joined_take_succ(pparts, i as int);
            }
            assert(out@ == old(out)@ + crate::header::comma_joined(pparts.take(i as int + 1)));
        }
        i = i + 1;
    }
    proof {
        assert(pparts.take(f.params@.len() as int) =~= pparts);
    }
}

/// Appends the glue-call argument list: the receiver, then the parameters by
/// name.
#[verifier::rlimit(60)]
fn push_method_args(out: &mut String, f: &FunctionDeclaration, kind: ReceiverKind)
    ensures
        final(out)@ == old(out)@ + swift_args_text(*f, kind),
{
    match kind {
        ReceiverKind::Owned => out.append("{isOwned = false; return ptr;}()"),
        ReceiverKind::RefMut => out.append("ptr"),
        ReceiverKind::RefShared => out.append("ptr"),
    }
    let ghost aparts = seq![receiver_arg_text(kind)] + Seq::new(
        f.params@.len(),
        |i: int| f.params@[i].name@,
    );
    let mut k: usize = 0;
    proof {
        assert(aparts.take(1).len() == 1);
        assert(aparts.take(1)[0] == aparts[0]);
        assert(aparts[0] == receiver_arg_text(kind));
    }
    while k < f.params.len()
        invariant
            0 <= k <= f.params@.len(),
            aparts == seq![receiver_arg_text(kind)] + Seq::new(
                f.params@.len(),
                |j: int| f.params@[j].name@,
            ),
            aparts.len() == 1 + f.params@.len(),
            out@ == old(out)@ + crate::header::comma_joined(aparts.take(k as int + 1)),
        decreases f.params@.len() - k,
    {
        out.append(", ");
        out.append(f.params[k].name.as_str());
        proof {
            assert(aparts[k as int + 1] == f.params@[k as int].name@);
            crate::header::lemma_comma_joined_take_succ(aparts, k + 1);
            assert(out@ == old(out)@ + crate::header::comma_joined(aparts.take(k as int + 2)));
        }
        k = k + 1;
    }
    proof {
        assert(aparts.take(f.params@.len() as int + 1) =~= aparts);
    }
}

/// Emits one method of a wrapper class.
#[verifier::spinoff_prover]
#[verifier::rlimit(100)]
fn push_method(out: &mut String, f: &FunctionDeclaration, types: &Vec<TypeDeclaration>)
    requires
        f.receiver is Some,
    ensures
        final(out)@ == old(out)@ + method_text(*f, types@),
{
    let kind = match &f.receiver {
        Some(r) => r.kind,
        None => ReceiverKind::RefShared,
    };
    out.append("    internal func ");
    out.append(f.name.as_str());
    out.append("(");
    push_method_params(out, f, types);
    out.append(")");
    match &f.ret {
        Some(t) => {
            out.append(" -> ");
            push_swift_spelling(out, t, types);
        },
        None => {},
    }
    out.append(" {\n        ");
    crate::header::push_link_name(out, f);
    out.append("(");
    push_method_args(out, f, kind);
    out.append(")\n    }\n");
    proof {
        assert(final(out)@ == old(out)@ + method_text(*f, types@)) by {
            reveal(method_text);
        }
    }
}

/// Emits the methods of one receiver group, blank-line separated.
fn push_group(
    out: &mut String,
    fns: &Vec<FunctionDeclaration>,
    types: &Vec<TypeDeclaration>,
    ty: &String,
    kind: ReceiverKind,
)
    ensures
        final(out)@ == old(out)@ + crate::header::concat_all(
            group_parts(fns@, types@, ty@, kind),
        ),
{
    let ghost parts = group_parts(fns@, types@, ty@, kind);
    let mut any = false;
    let mut i: usize = 0;
    proof {
        assert(parts.take(0) =~= Seq::<Seq<char>>::empty());
    }
    while i < fns.len()
        invariant
            0 <= i <= fns@.len(),
            parts == group_parts(fns@, types@, ty@, kind),
            any == group_has_earlier(fns@, ty@, kind, i as int),
            out@ == old(out)@ + crate::header::concat_all(parts.take(i as int)),
        decreases fns@.len() - i,
    {
        let ghost before = out@;
        if is_group_method_exec(&fns[i], ty, kind) {
            if any {
                out.append("\n");
            }
            push_method(out, &fns[i], types);
            any = true;
        }
        proof {
            crate::header::lemma_concat_all_take_succ(parts, i as int);
            if is_group_method(fns@[i as int], ty@, kind) {
                assert(group_has_earlier(fns@, ty@, kind, i as int + 1));
            } else {
                assert(out@ + Seq::<char>::empty() =~= out@);
            }
            assert(out@ == old(out)@ + crate::header::concat_all(parts.take(i as int + 1)));
        }
        i = i + 1;
    }
    proof {
        assert(parts.take(fns@.len() as int) =~= parts);
    }
}

/// Emits the extension of one receiver group, or nothing when it is empty.
fn push_extension(
    out: &mut String,
    fns: &Vec<FunctionDeclaration>,
    types: &Vec<TypeDeclaration>,
    ty: &String,
    kind: ReceiverKind,
)
    ensures
        final(out)@ == old(out)@ + extension_text(fns@, types@, ty@, kind),
{
    let mut any = false;
    let mut i: usize = 0;
    while i < fns.len()
        invariant
            0 <= i <= fns@.len(),
            any == group_has_earlier(fns@, ty@, kind, i as int),
        decreases fns@.len() - i,
    {
        if is_group_method_exec(&fns[i], ty, kind) {
            any = true;
            proof {
                assert(group_has_earlier(fns@, ty@, kind, i as int + 1));
            }
        }
        i = i + 1;
    }
    if !any {
        proof {
            assert(extension_text(fns@, types@, ty@, kind) == Seq::<char>::empty()) by {
                reveal(extension_text);
            }
            assert(out@ + Seq::<char>::empty() =~= out@);
        }
        return ;
    }
    out.append("extension ");
    out.append(ty.as_str());
    match kind {
        ReceiverKind::Owned => {},
        ReceiverKind::RefMut => out.append("RefMut"),
        ReceiverKind::RefShared => out.append("Ref"),
    }
    out.append(" {\n");
    push_group(out, fns, types, ty, kind);
    out.append("}\n");
    proof {
        assert(final(out)@ == old(out)@ + extension_text(fns@, types@, ty@, kind)) by {
            reveal(extension_text);
        }
    }
}

/// Emits the three classes of one opaque type with their method extensions.
#[verifier::spinoff_prover]
#[verifier::rlimit(100)]
fn push_class_triple(
    out: &mut String,
    o: &OpaqueType,
    fns: &Vec<FunctionDeclaration>,
    types: &Vec<TypeDeclaration>,
)
    requires
        !o.host_lang.spec_is_swift(),
        !o.already_declared,
        !o.declare_generic,
        o.copy is None,
        o.generics@.len() == 0,
    ensures
        final(out)@ == old(out)@ + opaque_swift_text(*o, fns@, types@),
{
    out.append("internal class ");
    out.append(o.name.as_str());
    out.append(": ");
    out.append(o.name.as_str());
    out.append(
        "RefMut {\n    var isOwned: Bool = true\n\n    internal override init(ptr: UnsafeMutableRawPointer) {\n        super.init(ptr: ptr)\n    }\n\n    deinit {\n        if isOwned {\n            __swift_bridge__$",
    );
    out.append(o.name.as_str());
    out.append("$_free(ptr)\n        }\n    }\n}\n");
    proof {
        assert(out@ == old(out)@ + owning_class_text(o.name@)) by {
            reveal(owning_class_text);
        }
    }
    push_extension(out, fns, types, &o.name, ReceiverKind::Owned);
    out.append("internal class ");
    out.append(o.name.as_str());
    out.append("RefMut: ");
    out.append(o.name.as_str());
    out.append(
        "Ref {\n    internal override init(ptr: UnsafeMutableRawPointer) {\n        super.init(ptr: ptr)\n    }\n}\n",
    );
    proof {
        reveal(refmut_class_text);
    }
    push_extension(out, fns, types, &o.name, ReceiverKind::RefMut);
    out.append("internal class ");
    out.append(o.name.as_str());
    out.append(
        "Ref {\n    var ptr: UnsafeMutableRawPointer\n\n    internal init(ptr: UnsafeMutableRawPointer) {\n        self.ptr = ptr\n    }\n}\n",
    );
    proof {
        reveal(ref_class_text);
    }
    push_extension(out, fns, types, &o.name, ReceiverKind::RefShared);
    proof {
        assert(final(out)@ == old(out)@ + opaque_swift_text(*o, fns@, types@));
    }
}

impl Module {
    /// The managed-side wrapper source for this module: the class triple of
    /// every Rust-implemented opaque handle type, with each method placed on
    /// the class its receiver kind calls for.
    pub fn generate_swift(&self, config: &CodegenConfig) -> (r: String)
        ensures
            r@ == swift_text(*self, *config),
    {
        let ghost m = *self;
        let mut out = String::new();
        if !self.module_will_be_compiled(config) {
            return out;
        }
        let ghost parts = Seq::new(
            m.types@.len(),
            |i: int| swift_decl_text(m.types@[i], m.functions@, m.types@),
        );
        let mut i: usize = 0;
        proof {
            assert(parts.take(0) =~= Seq::<Seq<char>>::empty());
        }
        while i < self.types.len()
            invariant
                0 <= i <= self.types@.len(),
                m == *self,
                parts == Seq::new(
                    m.types@.len(),
                    |k: int| swift_decl_text(m.types@[k], m.functions@, m.types@),
                ),
                out@ == crate::header::concat_all(parts.take(i as int)),
            decreases self.types@.len() - i,
        {
            match &self.types[i] {
                TypeDeclaration::Opaque(o) => {
                    if !o.host_lang.is_swift() && !o.already_declared && !o.declare_generic
                        && o.copy.is_none() && o.generics.len() == 0 {
                        push_class_triple(&mut out, o, &self.functions, &self.types);
                    }
                },
                _ => {},
            }
            proof {
                crate::header::lemma_concat_all_take_succ(parts, i as int);
                assert(parts[i as int] == swift_decl_text(m.types@[i as int], m.functions@,
                    m.types@));
                assert(out@ == crate::header::concat_all(parts.take(i as int + 1)));
            }
            i = i + 1;
        }
        proof {
            assert(parts.take(m.types@.len() as int) =~= parts);
            assert(out@ == swift_text(m, *config));
        }
        out
    }
}

} // verus!
