//! The bridged type model: classifies a type reference into a closed set of
//! representation kinds and exposes, per kind, its spelling in the common
//! ABI and the support headers it needs.
//!
//! Resolution is name-based: a [`TypeRef::Named`] reference is looked up in
//! the module's declarations table.  It fails exactly when the name has no
//! declaration.

use crate::model::{
    decl_name, spec_find_decl, FunctionDeclaration, HostLang, Module, NamedField, Primitive,
    SharedTypeDeclaration, StructFields, TypeDeclaration, TypeRef, UnnamedField,
};
use vstd::prelude::*;
use vstd::string::StringExecFns;

verus! {

/// A resolved type: the representation kind a declared or built-in type maps
/// to, with everything the three backends need to agree on.
pub enum BridgedType {
    Prim(Primitive),
    Str,
    /// An opaque handle: by pointer unless `is_copy`, in which case inline
    /// bytes.
    Opaque { name: String, is_copy: bool, is_generic: bool, host_lang: HostLang },
    SharedStruct { name: String },
    /// `transparent` when no variant carries data.
    SharedEnum { name: String, transparent: bool },
    Opt(Box<BridgedType>),
    Slice(Box<BridgedType>),
    Vector(Box<BridgedType>),
    Res(Box<BridgedType>, Box<BridgedType>),
    Callback(Vec<Primitive>, Option<Primitive>),
}

/// Why a declaration set is rejected at generation time: a referenced type
/// name has no declaration.  Rejection happens when the module is validated,
/// never at the runtime of the generated glue.
pub enum BridgeError {
    UnresolvedType(String),
}

/// True when every name referenced inside `ty` has a declaration in `types`.
pub open spec fn resolvable(ty: TypeRef, types: Seq<TypeDeclaration>) -> bool
    decreases ty,
{
    match ty {
        TypeRef::Prim(_) => true,
        TypeRef::Str => true,
        TypeRef::Named(n) => spec_find_decl(types, n@) is Some,
        TypeRef::Opt(inner) => resolvable(*inner, types),
        TypeRef::Slice(inner) => resolvable(*inner, types),
        TypeRef::Vector(inner) => resolvable(*inner, types),
        TypeRef::Res(ok, err) => resolvable(*ok, types) && resolvable(*err, types),
        TypeRef::Callback(_, _) => true,
    }
}

/// The C spelling of a fixed-width scalar.
pub open spec fn prim_c(p: Primitive) -> Seq<char> {
    match p {
        Primitive::U8 => "uint8_t"@,
        Primitive::I8 => "int8_t"@,
        Primitive::U16 => "uint16_t"@,
        Primitive::I16 => "int16_t"@,
        Primitive::U32 => "uint32_t"@,
        Primitive::I32 => "int32_t"@,
        Primitive::U64 => "uint64_t"@,
        Primitive::I64 => "int64_t"@,
        Primitive::Usize => "uintptr_t"@,
        Primitive::Isize => "intptr_t"@,
        Primitive::Bool => "bool"@,
        Primitive::F32 => "float"@,
        Primitive::F64 => "double"@,
    }
}

/// The scalar's name inside the fixed support library's option wrappers.
pub open spec fn prim_camel(p: Primitive) -> Seq<char> {
    match p {
        Primitive::U8 => "U8"@,
        Primitive::I8 => "I8"@,
        Primitive::U16 => "U16"@,
        Primitive::I16 => "I16"@,
        Primitive::U32 => "U32"@,
        Primitive::I32 => "I32"@,
        Primitive::U64 => "U64"@,
        Primitive::I64 => "I64"@,
        Primitive::Usize => "Usize"@,
        Primitive::Isize => "Isize"@,
        Primitive::Bool => "Bool"@,
        Primitive::F32 => "F32"@,
        Primitive::F64 => "F64"@,
    }
}

pub open spec fn prim_is_integer(p: Primitive) -> bool {
    match p {
        Primitive::Bool => false,
        Primitive::F32 => false,
        Primitive::F64 => false,
        _ => true,
    }
}

/// The C spelling of a declared type when referenced in a signature or a
/// field: shared and by-value types by their ABI typedef, other opaque
/// handles as a raw pointer.
pub open spec fn decl_c(d: TypeDeclaration) -> Seq<char> {
    match d {
        TypeDeclaration::Opaque(o) => if o.copy is Some {
            "__swift_bridge__$"@ + o.name@
        } else {
            "void*"@
        },
        TypeDeclaration::Shared(SharedTypeDeclaration::Struct(s)) => "__swift_bridge__$"@
            + s.name@,
        TypeDeclaration::Shared(SharedTypeDeclaration::Enum(e)) => "__swift_bridge__$"@ + e.name@,
    }
}

/// The C spelling of `Option` of a declared type: the companion option
/// wrapper for by-value types, a nullable pointer otherwise.
pub open spec fn decl_opt_c(d: TypeDeclaration) -> Seq<char> {
    match d {
        TypeDeclaration::Opaque(o) => if o.copy is Some {
            "__swift_bridge__$Option$"@ + o.name@
        } else {
            "void*"@
        },
        TypeDeclaration::Shared(SharedTypeDeclaration::Struct(s)) => "__swift_bridge__$Option$"@
            + s.name@,
        TypeDeclaration::Shared(SharedTypeDeclaration::Enum(e)) => "__swift_bridge__$Option$"@
            + e.name@,
    }
}

/// The spelling of a type reference in the common ABI, resolved against the
/// declarations table.  Meaningful only where [`resolvable`] holds.
pub open spec fn c_of_ref(ty: TypeRef, types: Seq<TypeDeclaration>) -> Seq<char>
    decreases ty,
{
    match ty {
        TypeRef::Prim(p) => prim_c(p),
        TypeRef::Str => "void*"@,
        TypeRef::Named(n) => match spec_find_decl(types, n@) {
            Some(d) => decl_c(d),
            None => Seq::<char>::empty(),
        },
        TypeRef::Opt(inner) => match *inner {
            TypeRef::Prim(p) => "struct __private__Option"@ + prim_camel(p),
            TypeRef::Named(n) => match spec_find_decl(types, n@) {
                Some(d) => decl_opt_c(d),
                None => Seq::<char>::empty(),
            },
            _ => "void*"@,
        },
        TypeRef::Slice(_) => "struct __private__FfiSlice"@,
        TypeRef::Vector(_) => "void*"@,
        TypeRef::Res(_, _) => "struct __private__ResultPtrAndPtr"@,
        TypeRef::Callback(_, _) => "void*"@,
    }
}

/// True when spelling `ty` in a signature requires the fixed-width integer
/// header.
pub open spec fn ref_stdint(ty: TypeRef, types: Seq<TypeDeclaration>) -> bool
    decreases ty,
{
    match ty {
        TypeRef::Prim(p) => prim_is_integer(p),
        TypeRef::Opt(inner) => ref_stdint(*inner, types),
        TypeRef::Slice(_) => true,
        _ => false,
    }
}

/// True when spelling `ty` in a signature requires the boolean header.
pub open spec fn ref_stdbool(ty: TypeRef, types: Seq<TypeDeclaration>) -> bool
    decreases ty,
{
    match ty {
        TypeRef::Prim(p) => p == Primitive::Bool,
        TypeRef::Opt(inner) => ref_stdbool(*inner, types),
        TypeRef::Slice(inner) => ref_stdbool(*inner, types),
        _ => false,
    }
}

/// What it means for `bt` to be the resolution of `ty` against `types`:
/// the relation [`resolve`] establishes for its `Ok` results.
pub open spec fn resolves_to(ty: TypeRef, types: Seq<TypeDeclaration>, bt: BridgedType) -> bool
    decreases ty,
{
    match ty {
        TypeRef::Prim(p) => bt == BridgedType::Prim(p),
        TypeRef::Str => bt == BridgedType::Str,
        TypeRef::Named(n) => match spec_find_decl(types, n@) {
            Some(TypeDeclaration::Opaque(o)) => bt matches BridgedType::Opaque {
                name,
                is_copy,
                is_generic,
                host_lang,
            } && name@ == o.name@ && is_copy == (o.copy is Some) && is_generic == (o.generics@.len()
                > 0) && host_lang == o.host_lang,
            Some(
                TypeDeclaration::Shared(SharedTypeDeclaration::Struct(s)),
            ) => bt matches BridgedType::SharedStruct { name } && name@ == s.name@,
            Some(
                TypeDeclaration::Shared(SharedTypeDeclaration::Enum(e)),
            ) => bt matches BridgedType::SharedEnum { name, transparent } && name@ == e.name@
                && transparent == !e.spec_has_data(),
            None => false,
        },
        TypeRef::Opt(inner) => bt matches BridgedType::Opt(bi) && resolves_to(*inner, types, *bi),
        TypeRef::Slice(inner) => bt matches BridgedType::Slice(bi) && resolves_to(
            *inner,
            types,
            *bi,
        ),
        TypeRef::Vector(inner) => bt matches BridgedType::Vector(bi) && resolves_to(
            *inner,
            types,
            *bi,
        ),
        TypeRef::Res(ok, err) => bt matches BridgedType::Res(x, y) && resolves_to(*ok, types, *x)
            && resolves_to(*err, types, *y),
        TypeRef::Callback(ps, r) => bt matches BridgedType::Callback(qs, s) && qs@ == ps@ && s == r,
    }
}

/// True when `n` names a type referenced inside `ty` that has no
/// declaration.
pub open spec fn has_unresolved(ty: TypeRef, types: Seq<TypeDeclaration>, n: Seq<char>) -> bool
    decreases ty,
{
    match ty {
        TypeRef::Named(m) => m@ == n && spec_find_decl(types, m@) is None,
        TypeRef::Opt(inner) => has_unresolved(*inner, types, n),
        TypeRef::Slice(inner) => has_unresolved(*inner, types, n),
        TypeRef::Vector(inner) => has_unresolved(*inner, types, n),
        TypeRef::Res(ok, err) => has_unresolved(*ok, types, n) || has_unresolved(*err, types, n),
        _ => false,
    }
}

/// Resolves a type reference against the declarations table.  Succeeds for
/// exactly the references whose every name is declared; the error names an
/// undeclared reference.
pub fn resolve(ty: &TypeRef, types: &Vec<TypeDeclaration>) -> (r: Result<BridgedType, BridgeError>)
    ensures
        r is Ok <==> resolvable(*ty, types@),
        r matches Ok(bt) ==> resolves_to(*ty, types@, bt),
        r matches Err(e) ==> e matches BridgeError::UnresolvedType(n) && has_unresolved(
            *ty,
            types@,
            n@,
        ),
    decreases *ty,
{
    match ty {
        TypeRef::Prim(p) => Ok(BridgedType::Prim(*p)),
        TypeRef::Str => Ok(BridgedType::Str),
        TypeRef::Named(n) => match find_decl(types, n) {
            Some(d) => match d {
                TypeDeclaration::Opaque(o) => Ok(
                    BridgedType::Opaque {
                        name: o.name.clone(),
                        is_copy: o.copy.is_some(),
                        is_generic: o.generics.len() > 0,
                        host_lang: o.host_lang,
                    },
                ),
                TypeDeclaration::Shared(SharedTypeDeclaration::Struct(s)) => Ok(
                    BridgedType::SharedStruct { name: s.name.clone() },
                ),
                TypeDeclaration::Shared(SharedTypeDeclaration::Enum(e)) => Ok(
                    BridgedType::SharedEnum {
                        name: e.name.clone(),
                        transparent: !e.has_one_or_more_variants_with_data(),
                    },
                ),
            },
            None => Err(BridgeError::UnresolvedType(n.clone())),
        },
        TypeRef::Opt(inner) => match resolve(&**inner, types) {
            Ok(b) => Ok(BridgedType::Opt(Box::new(b))),
            Err(e) => Err(e),
        },
        TypeRef::Slice(inner) => match resolve(&**inner, types) {
            Ok(b) => Ok(BridgedType::Slice(Box::new(b))),
            Err(e) => Err(e),
        },
        TypeRef::Vector(inner) => match resolve(&**inner, types) {
            Ok(b) => Ok(BridgedType::Vector(Box::new(b))),
            Err(e) => Err(e),
        },
        TypeRef::Res(ok, err) => match resolve(&**ok, types) {
            Ok(x) => match resolve(&**err, types) {
                Ok(y) => Ok(BridgedType::Res(Box::new(x), Box::new(y))),
                Err(e) => Err(e),
            },
            Err(e) => Err(e),
        },
        TypeRef::Callback(ps, r) => {
            let mut qs: Vec<Primitive> = Vec::new();
            let mut i: usize = 0;
            while i < ps.len()
                invariant
                    0 <= i <= ps@.len(),
                    qs@ == ps@.take(i as int),
                decreases ps@.len() - i,
            {
                qs.push(ps[i]);
                proof {
                    assert(qs@ =~= ps@.take(i as int + 1));
                }
                i = i + 1;
            }
            proof {
                assert(ps@.take(ps@.len() as int) =~= ps@);
            }
            Ok(BridgedType::Callback(qs, *r))
        },
    }
}

/// The ABI spelling of a resolvable type reference.
pub fn c_spelling(ty: &TypeRef, types: &Vec<TypeDeclaration>) -> (r: String)
    requires
        resolvable(*ty, types@),
    ensures
        r@ == c_of_ref(*ty, types@),
{
    let mut out = String::new();
    push_c_spelling(&mut out, ty, types);
    out
}

pub open spec fn named_fields_resolvable(fs: Seq<NamedField>, types: Seq<TypeDeclaration>) -> bool {
    forall|i: int| 0 <= i < fs.len() ==> resolvable(#[trigger] fs[i].ty, types)
}

pub open spec fn unnamed_fields_resolvable(
    fs: Seq<UnnamedField>,
    types: Seq<TypeDeclaration>,
) -> bool {
    forall|i: int| 0 <= i < fs.len() ==> resolvable(#[trigger] fs[i].ty, types)
}

/// True when every type reference in the field list resolves.
pub open spec fn fields_resolvable(fields: StructFields, types: Seq<TypeDeclaration>) -> bool {
    match fields {
        StructFields::Named(fs) => named_fields_resolvable(fs@, types),
        StructFields::Unnamed(fs) => unnamed_fields_resolvable(fs@, types),
        StructFields::Unit => true,
    }
}

/// True when every type reference in the signature resolves.
pub open spec fn fn_resolvable(f: FunctionDeclaration, types: Seq<TypeDeclaration>) -> bool {
    &&& forall|i: int| 0 <= i < f.params@.len() ==> resolvable(f.params@[i].ty, types)
    &&& match f.ret {
        Some(t) => resolvable(t, types),
        None => true,
    }
}

/// A validated module: every type reference in a struct field or a function
/// signature resolves against the declarations table.  The front-end parser
/// hands the generators only such modules.
pub open spec fn module_resolvable(m: Module) -> bool {
    &&& forall|i: int|
        0 <= i < m.types@.len() ==> match #[trigger] m.types@[i] {
            TypeDeclaration::Shared(SharedTypeDeclaration::Struct(s)) => fields_resolvable(
                s.fields,
                m.types@,
            ),
            _ => true,
        }
    &&& forall|i: int|
        0 <= i < m.functions@.len() ==> fn_resolvable(#[trigger] m.functions@[i], m.types@)
}

/// Appends the ABI spelling of `ty` to `out`.
pub fn push_c_spelling(out: &mut String, ty: &TypeRef, types: &Vec<TypeDeclaration>)
    requires
        resolvable(*ty, types@),
    ensures
        final(out)@ == old(out)@ + c_of_ref(*ty, types@),
{
    match ty {
        TypeRef::Prim(p) => out.append(prim_c_str(*p)),
        TypeRef::Str => out.append("void*"),
        TypeRef::Named(n) => match find_decl(types, n) {
            Some(d) => match d {
                TypeDeclaration::Opaque(o) => {
                    if o.copy.is_some() {
                        out.append("__swift_bridge__$");
                        out.append(o.name.as_str());
                    } else {
                        out.append("void*");
                    }
                },
                TypeDeclaration::Shared(SharedTypeDeclaration::Struct(s)) => {
                    out.append("__swift_bridge__$");
                    out.append(s.name.as_str());
                },
                TypeDeclaration::Shared(SharedTypeDeclaration::Enum(e)) => {
                    out.append("__swift_bridge__$");
                    out.append(e.name.as_str());
                },
            },
            None => {
                proof {
                    assert(false);
                }
            },
        },
        TypeRef::Opt(inner) => {
            proof {
                assert(resolvable(**inner, types@));
            }
            match &**inner {
            TypeRef::Prim(p) => {
                out.append("struct __private__Option");
                out.append(prim_camel_str(*p));
            },
            TypeRef::Named(n) => match find_decl(types, n) {
                Some(d) => match d {
                    TypeDeclaration::Opaque(o) => {
                        if o.copy.is_some() {
                            out.append("__swift_bridge__$Option$");
                            out.append(o.name.as_str());
                        } else {
                            out.append("void*");
                        }
                    },
                    TypeDeclaration::Shared(SharedTypeDeclaration::Struct(s)) => {
                        out.append("__swift_bridge__$Option$");
                        out.append(s.name.as_str());
                    },
                    TypeDeclaration::Shared(SharedTypeDeclaration::Enum(e)) => {
                        out.append("__swift_bridge__$Option$");
                        out.append(e.name.as_str());
                    },
                },
                None => {
                    proof {
                        assert(false);
                    }
                },
            },
            _ => out.append("void*"),
        }
        },
        TypeRef::Slice(_) => out.append("struct __private__FfiSlice"),
        TypeRef::Vector(_) => out.append("void*"),
        TypeRef::Res(_, _) => out.append("struct __private__ResultPtrAndPtr"),
        TypeRef::Callback(_, _) => out.append("void*"),
    }
}

/// The C spelling of a fixed-width scalar.
pub fn prim_c_str(p: Primitive) -> (r: &'static str)
    ensures
        r@ == prim_c(p),
{
    match p {
        Primitive::U8 => "uint8_t",
        Primitive::I8 => "int8_t",
        Primitive::U16 => "uint16_t",
        Primitive::I16 => "int16_t",
        Primitive::U32 => "uint32_t",
        Primitive::I32 => "int32_t",
        Primitive::U64 => "uint64_t",
        Primitive::I64 => "int64_t",
        Primitive::Usize => "uintptr_t",
        Primitive::Isize => "intptr_t",
        Primitive::Bool => "bool",
        Primitive::F32 => "float",
        Primitive::F64 => "double",
    }
}

/// The scalar's name inside the fixed support library's option wrappers.
pub fn prim_camel_str(p: Primitive) -> (r: &'static str)
    ensures
        r@ == prim_camel(p),
{
    match p {
        Primitive::U8 => "U8",
        Primitive::I8 => "I8",
        Primitive::U16 => "U16",
        Primitive::I16 => "I16",
        Primitive::U32 => "U32",
        Primitive::I32 => "I32",
        Primitive::U64 => "U64",
        Primitive::I64 => "I64",
        Primitive::Usize => "Usize",
        Primitive::Isize => "Isize",
        Primitive::Bool => "Bool",
        Primitive::F32 => "F32",
        Primitive::F64 => "F64",
    }
}

/// The support headers needed to spell `ty`: fixed-width integers, booleans.
pub fn ref_includes(ty: &TypeRef, types: &Vec<TypeDeclaration>) -> (r: (bool, bool))
    ensures
        r.0 == ref_stdint(*ty, types@),
        r.1 == ref_stdbool(*ty, types@),
    decreases *ty,
{
    match ty {
        TypeRef::Prim(p) => (
            !matches!(p, Primitive::Bool | Primitive::F32 | Primitive::F64),
            matches!(p, Primitive::Bool),
        ),
        TypeRef::Opt(inner) => ref_includes(&**inner, types),
        TypeRef::Slice(inner) => {
            let r = ref_includes(&**inner, types);
            (true, r.1)
        },
        _ => (false, false),
    }
}

fn validate_ref(ty: &TypeRef, types: &Vec<TypeDeclaration>) -> (r: Result<(), BridgeError>)
    ensures
        r is Ok <==> resolvable(*ty, types@),
{
    match resolve(ty, types) {
        Ok(_) => Ok(()),
        Err(e) => Err(e),
    }
}

fn validate_fields(fields: &StructFields, types: &Vec<TypeDeclaration>) -> (r: Result<
    (),
    BridgeError,
>)
    ensures
        r is Ok <==> fields_resolvable(*fields, types@),
{
    match fields {
        StructFields::Named(fs) => validate_named_fields(fs, types),
        StructFields::Unnamed(fs) => validate_unnamed_fields(fs, types),
        StructFields::Unit => Ok(()),
    }
}

fn validate_named_fields(fs: &Vec<NamedField>, types: &Vec<TypeDeclaration>) -> (r: Result<
    (),
    BridgeError,
>)
    ensures
        r is Ok <==> named_fields_resolvable(fs@, types@),
{
    let mut i: usize = 0;
    while i < fs.len()
        invariant
            0 <= i <= fs@.len(),
            forall|j: int| 0 <= j < i ==> resolvable(#[trigger] fs@[j].ty, types@),
        decreases fs@.len() - i,
    {
        match validate_ref(&fs[i].ty, types) {
            Ok(_) => {},
            Err(e) => {
                return Err(e);
            },
        }
        i = i + 1;
    }
    Ok(())
}

fn validate_unnamed_fields(fs: &Vec<UnnamedField>, types: &Vec<TypeDeclaration>) -> (r: Result<
    (),
    BridgeError,
>)
    ensures
        r is Ok <==> unnamed_fields_resolvable(fs@, types@),
{
    let mut i: usize = 0;
    while i < fs.len()
        invariant
            0 <= i <= fs@.len(),
            forall|j: int| 0 <= j < i ==> resolvable(#[trigger] fs@[j].ty, types@),
        decreases fs@.len() - i,
    {
        match validate_ref(&fs[i].ty, types) {
            Ok(_) => {},
            Err(e) => {
                return Err(e);
            },
        }
        i = i + 1;
    }
    Ok(())
}

fn validate_fn(f: &FunctionDeclaration, types: &Vec<TypeDeclaration>) -> (r: Result<
    (),
    BridgeError,
>)
    ensures
        r is Ok <==> fn_resolvable(*f, types@),
{
    let mut i: usize = 0;
    while i < f.params.len()
        invariant
            0 <= i <= f.params@.len(),
            forall|j: int| 0 <= j < i ==> resolvable(#[trigger] f.params@[j].ty, types@),
        decreases f.params@.len() - i,
    {
        match validate_ref(&f.params[i].ty, types) {
            Ok(_) => {},
            Err(e) => {
                return Err(e);
            },
        }
        i = i + 1;
    }
    match &f.ret {
        Some(t) => match validate_ref(t, types) {
            Ok(_) => Ok(()),
            Err(e) => Err(e),
        },
        None => Ok(()),
    }
}

/// Checks that every type reference of the module resolves: the generators
/// accept exactly the modules this accepts.  The error names an undeclared
/// reference.
pub fn validate(m: &Module) -> (r: Result<(), BridgeError>)
    ensures
        r is Ok <==> module_resolvable(*m),
{
    let mut i: usize = 0;
    while i < m.types.len()
        invariant
            0 <= i <= m.types@.len(),
            forall|j: int|
                0 <= j < i ==> match #[trigger] m.types@[j] {
                    TypeDeclaration::Shared(SharedTypeDeclaration::Struct(s)) => fields_resolvable(
                        s.fields,
                        m.types@,
                    ),
                    _ => true,
                },
        decreases m.types@.len() - i,
    {
        match &m.types[i] {
            TypeDeclaration::Shared(SharedTypeDeclaration::Struct(s)) => {
                match validate_fields(&s.fields, &m.types) {
                    Ok(_) => {},
                    Err(e) => {
                        proof {
                            assert(!module_resolvable(*m));
                        }
                        return Err(e);
                    },
                }
            },
            _ => {},
        }
        i = i + 1;
    }
    let mut k: usize = 0;
    while k < m.functions.len()
        invariant
            0 <= k <= m.functions@.len(),
            forall|j: int|
                0 <= j < m.types@.len() ==> match #[trigger] m.types@[j] {
                    TypeDeclaration::Shared(SharedTypeDeclaration::Struct(s)) => fields_resolvable(
                        s.fields,
                        m.types@,
                    ),
                    _ => true,
                },
            forall|j: int| 0 <= j < k ==> fn_resolvable(#[trigger] m.functions@[j], m.types@),
        decreases m.functions@.len() - k,
    {
        match validate_fn(&m.functions[k], &m.types) {
            Ok(_) => {},
            Err(e) => {
                proof {
                    assert(!module_resolvable(*m));
                }
                return Err(e);
            },
        }
        k = k + 1;
    }
    Ok(())
}

/// Finds the first declaration registered under `name`.
pub fn find_decl<'a>(types: &'a Vec<TypeDeclaration>, name: &String) -> (r: Option<
    &'a TypeDeclaration,
>)
    ensures
        match r {
            Some(d) => spec_find_decl(types@, name@) == Some(*d),
            None => spec_find_decl(types@, name@) is None,
        },
{
    proof {
        assert(types@.skip(0) =~= types@);
    }
    let mut i: usize = 0;
    while i < types.len()
        invariant
            0 <= i <= types@.len(),
            spec_find_decl(types@, name@) == spec_find_decl(types@.skip(i as int), name@),
        decreases types@.len() - i,
    {
        proof {
            assert(types@.skip(i as int).len() == types@.len() - i);
            assert(types@.skip(i as int)[0] == types@[i as int]);
            assert(types@.skip(i as int).drop_first() =~= types@.skip(i as int + 1));
        }
        let matched = match &types[i] {
            TypeDeclaration::Opaque(o) => o.name.eq(name),
            TypeDeclaration::Shared(SharedTypeDeclaration::Struct(s)) => s.name.eq(name),
            TypeDeclaration::Shared(SharedTypeDeclaration::Enum(e)) => e.name.eq(name),
        };
        if matched {
            proof {
                assert(decl_name(types@[i as int]) == name@);
            }
            return Some(&types[i]);
        }
        i = i + 1;
    }
    proof {
        assert(types@.skip(i as int).len() == 0);
    }
    None
}

} // verus!
