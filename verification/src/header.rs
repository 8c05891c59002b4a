//! The flat-ABI header generator.
//!
//! Walks a module's type and function declarations in order and emits the
//! C declarations every boundary-crossing symbol needs: opaque handle
//! typedefs with their free functions and collection-support bundles,
//! struct and enum layouts with companion option wrappers, function
//! prototypes (synchronous and trampoline-style asynchronous), the
//! trampoline entry points of boxed-closure arguments of Swift-implemented
//! functions, plus the slice typedefs and support includes accumulated over
//! the walk.
//!
//! Every emitted text is pinned by a specification function of the module,
//! so generation is deterministic: the same module always yields the same
//! bytes.

use crate::bridged::{
    c_of_ref, fields_resolvable, fn_resolvable, module_resolvable, prim_c, prim_c_str,
    push_c_spelling, ref_includes, ref_stdbool, ref_stdint, resolvable,
};
use crate::decimal::{dec_str, push_dec, push_dec_usize};
use crate::model::{
    CodegenConfig, FunctionDeclaration, Module, NamedField, OpaqueType, Param, Primitive,
    SharedEnum, SharedStruct, SharedTypeDeclaration, StructFields, TypeDeclaration, TypeRef,
    UnnamedField,
};
use vstd::prelude::*;
use vstd::string::StringExecFns;

verus! {

broadcast use crate::model::lemma_add_assoc;

/// The fixed first line of every generated header.
pub open spec fn notice_text() -> Seq<char> {
    "// File automatically generated by swift-bridge."@
}

/// The fixed first line of every generated header.
pub fn notice_line() -> (r: &'static str)
    ensures
        r@ == notice_text(),
{
    "// File automatically generated by swift-bridge."
}

/// The concatenation of `parts`, in order.
pub open spec fn concat_all(parts: Seq<Seq<char>>) -> Seq<char>
    decreases parts.len(),
{
    if parts.len() == 0 {
        Seq::<char>::empty()
    } else {
        concat_all(parts.drop_last()) + parts.last()
    }
}

pub proof fn lemma_concat_all_take_succ(parts: Seq<Seq<char>>, i: int)
    requires
        0 <= i < parts.len(),
    ensures
        concat_all(parts.take(i + 1)) == concat_all(parts.take(i)) + parts[i],
{
    assert(parts.take(i + 1).drop_last() =~= parts.take(i));
    assert(parts.take(i + 1).last() == parts[i]);
}

/// The ABI name of a shared or by-value type.
pub open spec fn ffi_name_text(name: Seq<char>) -> Seq<char> {
    "__swift_bridge__$"@ + name
}

/// The ABI name of the companion option wrapper.
pub open spec fn ffi_option_name_text(name: Seq<char>) -> Seq<char> {
    "__swift_bridge__$Option$"@ + name
}

// ---------------------------------------------------------------------
// Shared structs
// ---------------------------------------------------------------------
pub open spec fn named_field_repr(f: NamedField, types: Seq<TypeDeclaration>) -> Seq<char> {
    c_of_ref(f.ty, types) + " "@ + f.name@
}

pub open spec fn unnamed_field_repr(
    f: UnnamedField,
    idx: nat,
    types: Seq<TypeDeclaration>,
) -> Seq<char> {
    c_of_ref(f.ty, types) + " _"@ + dec_str(idx)
}

/// The field declarations of a struct's ABI layout.  A struct with no fields
/// gets a single one-byte placeholder so the layout is never empty.
pub open spec fn struct_field_reprs(s: SharedStruct, types: Seq<TypeDeclaration>) -> Seq<
    Seq<char>,
> {
    if s.fields.spec_is_empty() {
        seq!["uint8_t _private"@]
    } else {
        match s.fields {
            StructFields::Named(fs) => Seq::new(fs@.len(), |i: int| named_field_repr(fs@[i], types)),
            StructFields::Unnamed(fs) => Seq::new(
                fs@.len(),
                |i: int| unnamed_field_repr(fs@[i], i as nat, types),
            ),
            StructFields::Unit => seq!["uint8_t _private"@],
        }
    }
}

pub open spec fn terminated(parts: Seq<Seq<char>>) -> Seq<Seq<char>> {
    Seq::new(parts.len(), |i: int| parts[i] + "; "@)
}

pub open spec fn maybe_fields_text(reprs: Seq<Seq<char>>) -> Seq<char> {
    if reprs.len() > 0 {
        " "@ + concat_all(terminated(reprs))
    } else {
        Seq::<char>::empty()
    }
}

#[verifier::opaque]
pub open spec fn struct_text(s: SharedStruct, types: Seq<TypeDeclaration>) -> Seq<char> {
    "typedef struct "@ + ffi_name_text(s.name@) + " {"@ + maybe_fields_text(
        struct_field_reprs(s, types),
    ) + "} "@ + ffi_name_text(s.name@) + ";\ntypedef struct "@ + ffi_option_name_text(s.name@)
        + " { bool is_some; "@ + ffi_name_text(s.name@) + " val; } "@ + ffi_option_name_text(
        s.name@,
    ) + ";"@ + "\n"@
}

// ---------------------------------------------------------------------
// Shared enums
// ---------------------------------------------------------------------
/// The scalar tag enum's ABI name.
pub open spec fn enum_tag_text(name: Seq<char>) -> Seq<char> {
    ffi_name_text(name) + "$Tag"@
}

pub open spec fn variant_parts(e: SharedEnum) -> Seq<Seq<char>> {
    Seq::new(
        e.variants@.len(),
        |i: int| ffi_name_text(e.name@) + "$"@ + e.variants@[i].name@ + ", "@,
    )
}

/// The collection-support bundle for a transparent enum: elements are stored
/// by value, so lookups return the option-wrapped value type.
#[verifier::opaque]
pub open spec fn vec_enum_text(name: Seq<char>) -> Seq<char> {
    "\nvoid* __swift_bridge__$Vec_"@ + name + "$new(void);\nvoid __swift_bridge__$Vec_"@ + name
        + "$drop(void* vec_ptr);\nvoid __swift_bridge__$Vec_"@ + name
        + "$push(void* vec_ptr, __swift_bridge__$"@ + name + " item);\n__swift_bridge__$Option$"@
        + name + " __swift_bridge__$Vec_"@ + name + "$pop(void* vec_ptr);\n__swift_bridge__$Option$"@
        + name + " __swift_bridge__$Vec_"@ + name
        + "$get(void* vec_ptr, uintptr_t index);\n__swift_bridge__$Option$"@ + name
        + " __swift_bridge__$Vec_"@ + name
        + "$get_mut(void* vec_ptr, uintptr_t index);\nuintptr_t __swift_bridge__$Vec_"@ + name
        + "$len(void* vec_ptr);\nvoid* __swift_bridge__$Vec_"@ + name + "$as_ptr(void* vec_ptr);\n"@
}

/// The tag enum, the wrapping struct and the option wrapper of a shared
/// enum.
#[verifier::opaque]
pub open spec fn enum_head_text(e: SharedEnum) -> Seq<char> {
    "typedef enum "@ + enum_tag_text(e.name@) + " { "@ + concat_all(variant_parts(e)) + "} "@
        + enum_tag_text(e.name@) + ";\ntypedef struct "@ + ffi_name_text(e.name@) + " { "@
        + enum_tag_text(e.name@) + " tag; } "@ + ffi_name_text(e.name@) + ";\ntypedef struct "@
        + ffi_option_name_text(e.name@) + " { bool is_some; "@ + ffi_name_text(e.name@)
        + " val; } "@ + ffi_option_name_text(e.name@) + ";"@
}

pub open spec fn enum_text(e: SharedEnum) -> Seq<char> {
    enum_head_text(e) + (if e.spec_has_data() {
        Seq::<char>::empty()
    } else {
        vec_enum_text(e.name@)
    }) + "\n"@
}

// ---------------------------------------------------------------------
// Opaque types
// ---------------------------------------------------------------------
/// A declaration the header walk skips entirely: implemented on the other
/// side, declared by another module, or a generic instance declared
/// elsewhere.
pub open spec fn opaque_suppressed(o: OpaqueType) -> bool {
    o.host_lang.spec_is_swift() || o.already_declared || o.declare_generic
}

pub open spec fn dollar_generics(gs: Seq<String>) -> Seq<char> {
    concat_all(Seq::new(gs.len(), |i: int| "$"@ + gs[i]@))
}

pub open spec fn free_fn_text(o: OpaqueType) -> Seq<char> {
    "void __swift_bridge__$"@ + o.name@ + dollar_generics(o.generics@) + "$_free(void* self);\n"@
}

/// The collection-support bundle for an opaque handle type: elements are
/// stored behind pointers, so lookups take and return pointers.
#[verifier::opaque]
pub open spec fn vec_opaque_text(name: Seq<char>) -> Seq<char> {
    "\nvoid* __swift_bridge__$Vec_"@ + name + "$new(void);\nvoid __swift_bridge__$Vec_"@ + name
        + "$drop(void* vec_ptr);\nvoid __swift_bridge__$Vec_"@ + name
        + "$push(void* vec_ptr, void* item_ptr);\nvoid* __swift_bridge__$Vec_"@ + name
        + "$pop(void* vec_ptr);\nvoid* __swift_bridge__$Vec_"@ + name
        + "$get(void* vec_ptr, uintptr_t index);\nvoid* __swift_bridge__$Vec_"@ + name
        + "$get_mut(void* vec_ptr, uintptr_t index);\nuintptr_t __swift_bridge__$Vec_"@ + name
        + "$len(void* vec_ptr);\nvoid* __swift_bridge__$Vec_"@ + name + "$as_ptr(void* vec_ptr);\n"@
}

pub open spec fn copy_repr_text(name: Seq<char>, size: u64) -> Seq<char> {
    "typedef struct __swift_bridge__$"@ + name + " { uint8_t bytes["@ + dec_str(size as nat)
        + "]; } __swift_bridge__$"@ + name + ";\n"@ + "typedef struct __swift_bridge__$Option$"@
        + name + " { bool is_some; __swift_bridge__$"@ + name + " val; } __swift_bridge__$Option$"@
        + name + ";\n"@
}

/// The header text of an unsuppressed opaque declaration: hash and equality
/// prototypes when asked for; then either the by-value byte-array typedefs
/// (copy types have no free function) or the incomplete handle typedef with
/// its free function; then, for non-generic non-copy types, the
/// collection-support bundle.
#[verifier::opaque]
pub open spec fn opaque_body_text(o: OpaqueType) -> Seq<char> {
    (if o.hashable {
        "uint64_t __swift_bridge__$"@ + o.name@ + "$_hash(void* self);"@
    } else {
        Seq::<char>::empty()
    }) + (if o.equatable {
        "bool __swift_bridge__$"@ + o.name@ + "$_partial_eq(void* lhs, void* rhs);\n"@
    } else {
        Seq::<char>::empty()
    }) + (match o.copy {
        Some(c) => copy_repr_text(o.name@, c.size_bytes),
        None => "typedef struct "@ + o.name@ + " "@ + o.name@ + ";\n"@ + free_fn_text(o),
    }) + (if o.copy is None && o.generics@.len() == 0 {
        vec_opaque_text(o.name@) + "\n"@
    } else {
        Seq::<char>::empty()
    })
}

// ---------------------------------------------------------------------
// Declarations walk
// ---------------------------------------------------------------------
pub open spec fn decl_text(d: TypeDeclaration, types: Seq<TypeDeclaration>) -> Seq<char> {
    match d {
        TypeDeclaration::Shared(SharedTypeDeclaration::Struct(s)) => if s.already_declared {
            Seq::<char>::empty()
        } else {
            struct_text(s, types)
        },
        TypeDeclaration::Shared(SharedTypeDeclaration::Enum(e)) => if e.already_declared {
            Seq::<char>::empty()
        } else {
            enum_text(e)
        },
        TypeDeclaration::Opaque(o) => if opaque_suppressed(o) {
            Seq::<char>::empty()
        } else {
            opaque_body_text(o)
        },
    }
}

pub open spec fn decls_parts(types: Seq<TypeDeclaration>) -> Seq<Seq<char>> {
    Seq::new(types.len(), |i: int| decl_text(types[i], types))
}

// ---------------------------------------------------------------------
// Includes bookkeeping
// ---------------------------------------------------------------------
pub open spec fn any_stdint_named(fs: Seq<NamedField>, types: Seq<TypeDeclaration>) -> bool {
    exists|i: int| 0 <= i < fs.len() && ref_stdint(#[trigger] fs[i].ty, types)
}

pub open spec fn any_stdint_unnamed(fs: Seq<UnnamedField>, types: Seq<TypeDeclaration>) -> bool {
    exists|i: int| 0 <= i < fs.len() && ref_stdint(#[trigger] fs[i].ty, types)
}

pub open spec fn fields_any_stdint(fields: StructFields, types: Seq<TypeDeclaration>) -> bool {
    match fields {
        StructFields::Named(fs) => any_stdint_named(fs@, types),
        StructFields::Unnamed(fs) => any_stdint_unnamed(fs@, types),
        StructFields::Unit => false,
    }
}

/// Whether emitting `d` requires the fixed-width integer header.
pub open spec fn decl_stdint(d: TypeDeclaration, types: Seq<TypeDeclaration>) -> bool {
    match d {
        TypeDeclaration::Shared(SharedTypeDeclaration::Struct(s)) => !s.already_declared && (
        s.fields.spec_is_empty() || fields_any_stdint(s.fields, types)),
        TypeDeclaration::Shared(SharedTypeDeclaration::Enum(_)) => false,
        TypeDeclaration::Opaque(o) => !opaque_suppressed(o) && (o.hashable || o.equatable
            || o.copy is Some),
    }
}

/// Whether emitting `d` requires the boolean header (every shared type's
/// option wrapper does).
pub open spec fn decl_stdbool(d: TypeDeclaration, types: Seq<TypeDeclaration>) -> bool {
    match d {
        TypeDeclaration::Shared(SharedTypeDeclaration::Struct(s)) => !s.already_declared,
        TypeDeclaration::Shared(SharedTypeDeclaration::Enum(e)) => !e.already_declared,
        TypeDeclaration::Opaque(o) => !opaque_suppressed(o) && (o.equatable || o.copy is Some),
    }
}

pub open spec fn fn_stdint(f: FunctionDeclaration, types: Seq<TypeDeclaration>) -> bool {
    !f.host_lang.spec_is_swift() && ((exists|i: int|
        0 <= i < f.params@.len() && ref_stdint(#[trigger] f.params@[i].ty, types)) || (
    match f.ret {
        Some(t) => ref_stdint(t, types),
        None => false,
    }))
}

pub open spec fn fn_stdbool(f: FunctionDeclaration, types: Seq<TypeDeclaration>) -> bool {
    !f.host_lang.spec_is_swift() && ((exists|i: int|
        0 <= i < f.params@.len() && ref_stdbool(#[trigger] f.params@[i].ty, types)) || (
    match f.ret {
        Some(t) => ref_stdbool(t, types),
        None => false,
    }))
}

pub open spec fn module_stdint(m: Module) -> bool {
    (exists|i: int| 0 <= i < m.types@.len() && decl_stdint(#[trigger] m.types@[i], m.types@))
        || (exists|i: int|
        0 <= i < m.functions@.len() && fn_stdint(#[trigger] m.functions@[i], m.types@))
}

pub open spec fn module_stdbool(m: Module) -> bool {
    (exists|i: int| 0 <= i < m.types@.len() && decl_stdbool(#[trigger] m.types@[i], m.types@))
        || (exists|i: int|
        0 <= i < m.functions@.len() && fn_stdbool(#[trigger] m.functions@[i], m.types@))
}

/// The include directives, in the order the final prepending pass leaves
/// them.
pub open spec fn includes_text(stdint: bool, stdbool: bool) -> Seq<char> {
    (if stdint {
        "#include <stdint.h>\n"@
    } else {
        Seq::<char>::empty()
    }) + (if stdbool {
        "#include <stdbool.h>\n"@
    } else {
        Seq::<char>::empty()
    })
}

// ---------------------------------------------------------------------
// Function prototypes
// ---------------------------------------------------------------------
/// The deterministic link name: prefix, then the receiving type when the
/// function is a method, then the function's own name.
pub open spec fn link_name_text(f: FunctionDeclaration) -> Seq<char> {
    "__swift_bridge__$"@ + (match f.receiver {
        Some(r) => r.ty_name@ + "$"@,
        None => Seq::<char>::empty(),
    }) + f.name@
}

pub open spec fn param_piece(p: Param, types: Seq<TypeDeclaration>) -> Seq<char> {
    c_of_ref(p.ty, types) + " "@ + p.name@
}

/// Every parameter's spelling, the receiver first.
pub open spec fn fn_param_pieces(f: FunctionDeclaration, types: Seq<TypeDeclaration>) -> Seq<
    Seq<char>,
> {
    (match f.receiver {
        Some(_) => seq!["void* self"@],
        None => Seq::<Seq<char>>::empty(),
    }) + Seq::new(f.params@.len(), |i: int| param_piece(f.params@[i], types))
}

pub open spec fn comma_joined(ps: Seq<Seq<char>>) -> Seq<char>
    decreases ps.len(),
{
    if ps.len() == 0 {
        Seq::<char>::empty()
    } else if ps.len() == 1 {
        ps[0]
    } else {
        comma_joined(ps.drop_last()) + ", "@ + ps.last()
    }
}

pub proof fn lemma_comma_joined_take_succ(ps: Seq<Seq<char>>, i: int)
    requires
        1 <= i < ps.len(),
    ensures
        comma_joined(ps.take(i + 1)) == comma_joined(ps.take(i)) + ", "@ + ps[i],
{
    assert(ps.take(i + 1).drop_last() =~= ps.take(i));
    assert(ps.take(i + 1).last() == ps[i]);
}

pub open spec fn ret_text(f: FunctionDeclaration, types: Seq<TypeDeclaration>) -> Seq<char> {
    match f.ret {
        None => "void"@,
        Some(t) => c_of_ref(t, types),
    }
}

#[verifier::opaque]
pub open spec fn sync_fn_text(f: FunctionDeclaration, types: Seq<TypeDeclaration>) -> Seq<char> {
    ret_text(f, types) + " "@ + link_name_text(f) + "("@ + (if fn_param_pieces(f, types).len()
        == 0 {
        "void"@
    } else {
        comma_joined(fn_param_pieces(f, types))
    }) + ");\n"@
}

/// The trampoline convention: the caller hands a wrapper pointer and a
/// completion function; the result, if any, arrives as the completion's
/// `ret` parameter.
#[verifier::opaque]
pub open spec fn async_fn_text(f: FunctionDeclaration, types: Seq<TypeDeclaration>) -> Seq<char> {
    "void "@ + link_name_text(f) + "(void* callback_wrapper, void "@ + link_name_text(f)
        + "$async(void* callback_wrapper"@ + (match f.ret {
        None => Seq::<char>::empty(),
        Some(t) => ", "@ + c_of_ref(t, types) + " ret"@,
    }) + ")"@ + (if fn_param_pieces(f, types).len() == 0 {
        Seq::<char>::empty()
    } else {
        ", "@ + comma_joined(fn_param_pieces(f, types))
    }) + ");\n"@
}

/// A boxed closure's own parameters inside its trampoline prototype.
pub open spec fn callback_params_text(ps: Seq<Primitive>) -> Seq<char> {
    concat_all(Seq::new(ps.len(), |j: int| ", "@ + prim_c(ps[j]) + " arg"@ + dec_str(j as nat)))
}

/// The trampoline entry point of the boxed-closure argument at position
/// `idx` of a Swift-implemented function: the caller-supplied wrapper
/// pointer first, then the closure's own parameters; the closure's result is
/// the call's own return.
#[verifier::opaque]
pub open spec fn callback_fn_text(
    f: FunctionDeclaration,
    idx: int,
    ps: Seq<Primitive>,
    ret: Option<Primitive>,
) -> Seq<char> {
    (match ret {
        None => "void"@,
        Some(p) => prim_c(p),
    }) + " "@ + link_name_text(f) + "$param"@ + dec_str(idx as nat) + "(void* callback_wrapper"@
        + callback_params_text(ps) + ");
"@
}

/// What the parameter at position `i` of a Swift-implemented function
/// contributes to the header: a trampoline prototype when it is a boxed
/// closure that takes or returns something, nothing otherwise.
pub open spec fn swift_fn_piece(f: FunctionDeclaration, i: int) -> Seq<char> {
    match f.params@[i].ty {
        TypeRef::Callback(ps, ret) => if ps@.len() == 0 && ret is None {
            Seq::<char>::empty()
        } else {
            callback_fn_text(f, i, ps@, ret)
        },
        _ => Seq::<char>::empty(),
    }
}

/// The header lines of a Swift-implemented function: Rust needs no prototype
/// for the function itself, only a trampoline entry point per boxed-closure
/// argument that carries parameters or a return.
pub open spec fn swift_fn_text(f: FunctionDeclaration) -> Seq<char> {
    concat_all(Seq::new(f.params@.len(), |i: int| swift_fn_piece(f, i)))
}

/// The header lines of one declared function.  A Swift-implemented function
/// contributes only the trampolines of its boxed-closure arguments; an
/// asynchronous function that neither takes nor returns anything emits no
/// line at all.
pub open spec fn fn_text(f: FunctionDeclaration, types: Seq<TypeDeclaration>) -> Seq<char> {
    if f.host_lang.spec_is_swift() {
        swift_fn_text(f)
    } else if f.is_async {
        if fn_param_pieces(f, types).len() == 0 && f.ret is None {
            Seq::<char>::empty()
        } else {
            async_fn_text(f, types)
        }
    } else {
        sync_fn_text(f, types)
    }
}

pub open spec fn fns_parts(fns: Seq<FunctionDeclaration>, types: Seq<TypeDeclaration>) -> Seq<
    Seq<char>,
> {
    Seq::new(fns.len(), |i: int| fn_text(fns[i], types))
}

// ---------------------------------------------------------------------
// Slice bookkeeping
// ---------------------------------------------------------------------
/// The slice element spelling a function's return registers, if any.
pub open spec fn fn_slice_elem(f: FunctionDeclaration, types: Seq<TypeDeclaration>) -> Option<
    Seq<char>,
> {
    if f.host_lang.spec_is_swift() {
        None
    } else {
        match f.ret {
            Some(t) => match t {
                TypeRef::Slice(inner) => Some(c_of_ref(*inner, types)),
                _ => None,
            },
            None => None,
        }
    }
}

/// One step of the slice-table accumulation.
pub open spec fn table_step(t: Seq<Seq<char>>, elem: Option<Seq<char>>) -> Seq<Seq<char>> {
    match elem {
        Some(e) => if t.contains(e) {
            t
        } else {
            t.push(e)
        },
        None => t,
    }
}

/// The deduplicated slice-element table after the first `i` functions, in
/// first-occurrence order.
pub open spec fn slice_table_upto(
    fns: Seq<FunctionDeclaration>,
    types: Seq<TypeDeclaration>,
    i: int,
) -> Seq<Seq<char>>
    decreases i,
{
    if i <= 0 {
        Seq::<Seq<char>>::empty()
    } else {
        table_step(slice_table_upto(fns, types, i - 1), fn_slice_elem(fns[i - 1], types))
    }
}

pub open spec fn slice_line_text(t: Seq<char>) -> Seq<char> {
    "typedef struct FfiSlice_"@ + t + " { "@ + t + "* start; uintptr_t len; } FfiSlice_"@ + t
        + ";\n"@
}

/// The slice typedef section.  Each table entry is prepended in turn, so the
/// last-registered element stands first.
pub open spec fn slice_defs_text(table: Seq<Seq<char>>) -> Seq<char>
    decreases table.len(),
{
    if table.len() == 0 {
        Seq::<char>::empty()
    } else {
        slice_line_text(table.last()) + slice_defs_text(table.drop_last())
    }
}

/// The views of a vector of strings.
pub open spec fn views_of(v: Seq<String>) -> Seq<Seq<char>> {
    Seq::new(v.len(), |i: int| v[i]@)
}

// ---------------------------------------------------------------------
// The whole header
// ---------------------------------------------------------------------
/// Everything below the notice line: includes, slice typedefs, type
/// declarations, then function prototypes.  Empty when the module is not
/// compiled for the current configuration.
pub open spec fn header_inner_text(m: Module, config: CodegenConfig) -> Seq<char> {
    if !m.spec_will_be_compiled(&config) {
        Seq::<char>::empty()
    } else {
        includes_text(module_stdint(m), module_stdbool(m)) + slice_defs_text(
            slice_table_upto(m.functions@, m.types@, m.functions@.len() as int),
        ) + concat_all(decls_parts(m.types@)) + concat_all(fns_parts(m.functions@, m.types@))
    }
}

/// The full header: the notice line, then the declarations.
pub open spec fn header_text(m: Module, config: CodegenConfig) -> Seq<char> {
    notice_text() + "\n"@ + header_inner_text(m, config)
}

// ---------------------------------------------------------------------
// Executable emission
// ---------------------------------------------------------------------
/// The collection-support function bundle for an opaque handle type.
pub fn vec_opaque_rust_type_c_support(ty_name: &str) -> (r: String)
    ensures
        r@ == vec_opaque_text(ty_name@),
{
    let mut out = String::new();
    proof {
        reveal(vec_opaque_text);
    }
    out.append("\nvoid* __swift_bridge__$Vec_");
    out.append(ty_name);
    out.append("$new(void);\nvoid __swift_bridge__$Vec_");
    out.append(ty_name);
    out.append("$drop(void* vec_ptr);\nvoid __swift_bridge__$Vec_");
    out.append(ty_name);
    out.append("$push(void* vec_ptr, void* item_ptr);\nvoid* __swift_bridge__$Vec_");
    out.append(ty_name);
    out.append("$pop(void* vec_ptr);\nvoid* __swift_bridge__$Vec_");
    out.append(ty_name);
    out.append("$get(void* vec_ptr, uintptr_t index);\nvoid* __swift_bridge__$Vec_");
    out.append(ty_name);
    out.append("$get_mut(void* vec_ptr, uintptr_t index);\nuintptr_t __swift_bridge__$Vec_");
    out.append(ty_name);
    out.append("$len(void* vec_ptr);\nvoid* __swift_bridge__$Vec_");
    out.append(ty_name);
    out.append("$as_ptr(void* vec_ptr);\n");
    proof {
        assert(out@ =~= vec_opaque_text(ty_name@));
    }
    out
}

/// The collection-support function bundle for a transparent enum.
pub fn vec_transparent_enum_c_support(enum_name: &str) -> (r: String)
    ensures
        r@ == vec_enum_text(enum_name@),
{
    let mut out = String::new();
    proof {
        reveal(vec_enum_text);
    }
    out.append("\nvoid* __swift_bridge__$Vec_");
    out.append(enum_name);
    out.append("$new(void);\nvoid __swift_bridge__$Vec_");
    out.append(enum_name);
    out.append("$drop(void* vec_ptr);\nvoid __swift_bridge__$Vec_");
    out.append(enum_name);
    out.append("$push(void* vec_ptr, __swift_bridge__$");
    out.append(enum_name);
    out.append(" item);\n__swift_bridge__$Option$");
    out.append(enum_name);
    out.append(" __swift_bridge__$Vec_");
    out.append(enum_name);
    out.append("$pop(void* vec_ptr);\n__swift_bridge__$Option$");
    out.append(enum_name);
    out.append(" __swift_bridge__$Vec_");
    out.append(enum_name);
    out.append("$get(void* vec_ptr, uintptr_t index);\n__swift_bridge__$Option$");
    out.append(enum_name);
    out.append(" __swift_bridge__$Vec_");
    out.append(enum_name);
    out.append("$get_mut(void* vec_ptr, uintptr_t index);\nuintptr_t __swift_bridge__$Vec_");
    out.append(enum_name);
    out.append("$len(void* vec_ptr);\nvoid* __swift_bridge__$Vec_");
    out.append(enum_name);
    out.append("$as_ptr(void* vec_ptr);\n");
    proof {
        assert(out@ =~= vec_enum_text(enum_name@));
    }
    out
}

/// Support-include flags accumulated over one generation pass.
struct IncludeFlags {
    stdint: bool,
    stdbool: bool,
}

/// Emits one shared struct's typedefs and records its includes.
#[verifier::spinoff_prover]
#[verifier::rlimit(100)]
fn push_struct_decl(
    out: &mut String,
    inc: &mut IncludeFlags,
    s: &SharedStruct,
    types: &Vec<TypeDeclaration>,
)
    requires
        fields_resolvable(s.fields, types@),
    ensures
        final(out)@ == old(out)@ + struct_text(*s, types@),
        final(inc).stdint == (old(inc).stdint || s.fields.spec_is_empty() || fields_any_stdint(
            s.fields,
            types@,
        )),
        final(inc).stdbool,
{
    proof {
        reveal(struct_text);
    }
    let ghost reprs = struct_field_reprs(*s, types@);
    inc.stdbool = true;
    out.append("typedef struct ");
    out.append("__swift_bridge__$");
    out.append(s.name.as_str());
    out.append(" {");
    // the field list, each entry terminated by a semicolon
    out.append(" ");
    if s.fields.is_empty() {
        inc.stdint = true;
        out.append("uint8_t _private");
        out.append("; ");
        proof {
            assert(terminated(reprs).len() == 1);
            assert(terminated(reprs).drop_last() =~= Seq::<Seq<char>>::empty());
            assert(terminated(reprs)[0] == "uint8_t _private"@ + "; "@);
            assert(concat_all(Seq::<Seq<char>>::empty()) == Seq::<char>::empty());
            assert(concat_all(terminated(reprs)) == Seq::<char>::empty() + ("uint8_t _private"@ + "; "@));
            assert(Seq::<char>::empty() + ("uint8_t _private"@ + "; "@) =~= "uint8_t _private"@ + "; "@);
            assert(out@ == old(out)@ + "typedef struct "@ + ffi_name_text(s.name@) + " {"@
                + maybe_fields_text(reprs));
        }
    } else {
        match &s.fields {
            StructFields::Named(fs) => {
                let ghost base = out@;
                let mut i: usize = 0;
                proof {
                    assert(terminated(reprs).take(0) =~= Seq::<Seq<char>>::empty());
                }
                while i < fs.len()
                    invariant
                        0 <= i <= fs@.len(),
                        reprs == struct_field_reprs(*s, types@),
                        reprs.len() == fs@.len(),
                        forall|j: int| 0 <= j < fs@.len() ==> reprs[j] == named_field_repr(
                            fs@[j],
                            types@,
                        ),
                        fields_resolvable(s.fields, types@),
                        s.fields == StructFields::Named(*fs),
                        out@ == base + concat_all(terminated(reprs).take(i as int)),
                    decreases fs@.len() - i,
                {
                    push_c_spelling(out, &fs[i].ty, types);
                    out.append(" ");
                    out.append(fs[i].name.as_str());
                    out.append("; ");
                    proof {
                        lemma_concat_all_take_succ(terminated(reprs), i as int);
                        assert(terminated(reprs)[i as int] == named_field_repr(fs@[i as int], types@)
                            + "; "@);
                        assert(out@ == base + concat_all(terminated(reprs).take(i as int + 1)));
                    }
                    i = i + 1;
                }
                proof {
                    assert(terminated(reprs).take(fs@.len() as int) =~= terminated(reprs));
                }
            },
            StructFields::Unnamed(fs) => {
                let ghost base = out@;
                let mut i: usize = 0;
                proof {
                    assert(terminated(reprs).take(0) =~= Seq::<Seq<char>>::empty());
                }
                while i < fs.len()
                    invariant
                        0 <= i <= fs@.len(),
                        reprs == struct_field_reprs(*s, types@),
                        reprs.len() == fs@.len(),
                        forall|j: int| 0 <= j < fs@.len() ==> reprs[j] == unnamed_field_repr(
                            fs@[j],
                            j as nat,
                            types@,
                        ),
                        fields_resolvable(s.fields, types@),
                        s.fields == StructFields::Unnamed(*fs),
                        out@ == base + concat_all(terminated(reprs).take(i as int)),
                    decreases fs@.len() - i,
                {
                    push_c_spelling(out, &fs[i].ty, types);
                    out.append(" _");
                    push_dec_usize(out, i);
                    out.append("; ");
                    proof {
                        lemma_concat_all_take_succ(terminated(reprs), i as int);
                        assert(terminated(reprs)[i as int] == unnamed_field_repr(
                            fs@[i as int],
                            i as nat,
                            types@,
                        ) + "; "@);
                        assert(out@ == base + concat_all(terminated(reprs).take(i as int + 1)));
                    }
                    i = i + 1;
                }
                proof {
                    assert(terminated(reprs).take(fs@.len() as int) =~= terminated(reprs));
                }
            },
            StructFields::Unit => {
                proof {
                    assert(false);
                }
            },
        }
        // whether any field spelling needs the fixed-width integer header
        let any_int = fields_any_stdint_exec(&s.fields, types);
        if any_int {
            inc.stdint = true;
        }
        proof {
            assert(out@ == old(out)@ + "typedef struct "@ + ffi_name_text(s.name@) + " {"@
                + maybe_fields_text(reprs));
        }
    }
    out.append("} ");
    out.append("__swift_bridge__$");
    out.append(s.name.as_str());
    out.append(";\ntypedef struct ");
    out.append("__swift_bridge__$Option$");
    out.append(s.name.as_str());
    out.append(" { bool is_some; ");
    out.append("__swift_bridge__$");
    out.append(s.name.as_str());
    out.append(" val; } ");
    out.append("__swift_bridge__$Option$");
    out.append(s.name.as_str());
    out.append(";");
    out.append("\n");
    proof {
        assert(final(out)@ == old(out)@ + struct_text(*s, types@));
    }
}

fn any_stdint_named_exec(fs: &Vec<NamedField>, types: &Vec<TypeDeclaration>) -> (r: bool)
    ensures
        r == any_stdint_named(fs@, types@),
{
    let mut i: usize = 0;
    while i < fs.len()
        invariant
            0 <= i <= fs@.len(),
            forall|j: int| 0 <= j < i ==> !ref_stdint(#[trigger] fs@[j].ty, types@),
        decreases fs@.len() - i,
    {
        let r = ref_includes(&fs[i].ty, types);
        if r.0 {
            proof {
                assert(ref_stdint(fs@[i as int].ty, types@));
            }
            return true;
        }
        i = i + 1;
    }
    false
}

fn any_stdint_unnamed_exec(fs: &Vec<UnnamedField>, types: &Vec<TypeDeclaration>) -> (r: bool)
    ensures
        r == any_stdint_unnamed(fs@, types@),
{
    let mut i: usize = 0;
    while i < fs.len()
        invariant
            0 <= i <= fs@.len(),
            forall|j: int| 0 <= j < i ==> !ref_stdint(#[trigger] fs@[j].ty, types@),
        decreases fs@.len() - i,
    {
        let r = ref_includes(&fs[i].ty, types);
        if r.0 {
            proof {
                assert(ref_stdint(fs@[i as int].ty, types@));
            }
            return true;
        }
        i = i + 1;
    }
    false
}

/// Whether any field's spelling needs the fixed-width integer header.
fn fields_any_stdint_exec(fields: &StructFields, types: &Vec<TypeDeclaration>) -> (r: bool)
    ensures
        r == fields_any_stdint(*fields, types@),
{
    match fields {
        StructFields::Named(fs) => any_stdint_named_exec(fs, types),
        StructFields::Unnamed(fs) => any_stdint_unnamed_exec(fs, types),
        StructFields::Unit => false,
    }
}

/// Emits the comma-terminated tag constants of an enum, in declaration
/// order.
fn push_enum_variants(out: &mut String, e: &SharedEnum)
    ensures
        final(out)@ == old(out)@ + concat_all(variant_parts(*e)),
{
    let ghost base = out@;
    let mut i: usize = 0;
    proof {
        assert(variant_parts(*e).take(0) =~= Seq::<Seq<char>>::empty());
    }
    while i < e.variants.len()
        invariant
            0 <= i <= e.variants@.len(),
            out@ == base + concat_all(variant_parts(*e).take(i as int)),
        decreases e.variants@.len() - i,
    {
        out.append("__swift_bridge__$");
        out.append(e.name.as_str());
        out.append("$");
        out.append(e.variants[i].name.as_str());
        out.append(", ");
        proof {
            lemma_concat_all_take_succ(variant_parts(*e), i as int);
            assert(variant_parts(*e)[i as int] == ffi_name_text(e.name@) + "$"@
                + e.variants@[i as int].name@ + ", "@);
            assert(out@ == base + concat_all(variant_parts(*e).take(i as int + 1)));
        }
        i = i + 1;
    }
    proof {
        assert(variant_parts(*e).take(e.variants@.len() as int) =~= variant_parts(*e));
    }
}

/// Emits one shared enum's tag, wrapper and option typedefs.
#[verifier::rlimit(100)]
fn push_enum_head(out: &mut String, e: &SharedEnum)
    ensures
        final(out)@ == old(out)@ + enum_head_text(*e),
{
    proof {
        reveal(enum_head_text);
    }
    out.append("typedef enum ");
    out.append("__swift_bridge__$");
    out.append(e.name.as_str());
    out.append("$Tag");
    out.append(" { ");
    push_enum_variants(out, e);
    proof {
        assert(out@ == old(out)@ + ("typedef enum "@ + enum_tag_text(e.name@) + " { "@
            + concat_all(variant_parts(*e))));
    }
    let ghost mark1 = "typedef enum "@ + enum_tag_text(e.name@) + " { "@ + concat_all(
        variant_parts(*e),
    );
    out.append("} ");
    out.append("__swift_bridge__$");
    out.append(e.name.as_str());
    out.append("$Tag");
    out.append(";\ntypedef struct ");
    out.append("__swift_bridge__$");
    out.append(e.name.as_str());
    out.append(" { ");
    proof {
        assert(out@ == old(out)@ + (mark1 + "} "@ + enum_tag_text(e.name@) + ";\ntypedef struct "@
            + ffi_name_text(e.name@) + " { "@));
    }
    let ghost mark2 = mark1 + "} "@ + enum_tag_text(e.name@) + ";\ntypedef struct "@
        + ffi_name_text(e.name@) + " { "@;
    out.append("__swift_bridge__$");
    out.append(e.name.as_str());
    out.append("$Tag");
    out.append(" tag; } ");
    out.append("__swift_bridge__$");
    out.append(e.name.as_str());
    out.append(";\ntypedef struct ");
    out.append("__swift_bridge__$Option$");
    out.append(e.name.as_str());
    out.append(" { bool is_some; ");
    proof {
        assert(out@ == old(out)@ + (mark2 + enum_tag_text(e.name@) + " tag; } "@ + ffi_name_text(
            e.name@,
        ) + ";\ntypedef struct "@ + ffi_option_name_text(e.name@) + " { bool is_some; "@));
    }
    let ghost mark3 = mark2 + enum_tag_text(e.name@) + " tag; } "@ + ffi_name_text(e.name@)
        + ";\ntypedef struct "@ + ffi_option_name_text(e.name@) + " { bool is_some; "@;
    out.append("__swift_bridge__$");
    out.append(e.name.as_str());
    out.append(" val; } ");
    out.append("__swift_bridge__$Option$");
    out.append(e.name.as_str());
    out.append(";");
    proof {
        assert(out@ == old(out)@ + (mark3 + ffi_name_text(e.name@) + " val; } "@
            + ffi_option_name_text(e.name@) + ";"@));
        assert(out@ == old(out)@ + enum_head_text(*e));
    }
}

/// Emits one shared enum's declarations, plus the by-value collection bundle
/// when the enum is transparent.
#[verifier::spinoff_prover]
#[verifier::rlimit(100)]
fn push_enum_decl(out: &mut String, inc: &mut IncludeFlags, e: &SharedEnum)
    ensures
        final(out)@ == old(out)@ + enum_text(*e),
        final(inc).stdint == old(inc).stdint,
        final(inc).stdbool,
{
    inc.stdbool = true;
    push_enum_head(out, e);
    if !e.has_one_or_more_variants_with_data() {
        let bundle = vec_transparent_enum_c_support(e.name.as_str());
        out.append(bundle.as_str());
    }
    out.append("\n");
    proof {
        assert(final(out)@ == old(out)@ + enum_text(*e));
    }
}

/// Emits one unsuppressed opaque type's declarations and records its
/// includes.
#[verifier::spinoff_prover]
#[verifier::rlimit(100)]
fn push_opaque_decl(out: &mut String, inc: &mut IncludeFlags, o: &OpaqueType)
    requires
        !opaque_suppressed(*o),
    ensures
        final(out)@ == old(out)@ + opaque_body_text(*o),
        final(inc).stdint == (old(inc).stdint || o.hashable || o.equatable || o.copy is Some),
        final(inc).stdbool == (old(inc).stdbool || o.equatable || o.copy is Some),
{
    proof {
        reveal(opaque_body_text);
    }
    if o.hashable {
        out.append("uint64_t __swift_bridge__$");
        out.append(o.name.as_str());
        out.append("$_hash(void* self);");
        // the hash prototype spells uint64_t, so the header needs the
        // fixed-width integer include to stay self-contained
        inc.stdint = true;
    }
    if o.equatable {
        out.append("bool __swift_bridge__$");
        out.append(o.name.as_str());
        out.append("$_partial_eq(void* lhs, void* rhs);\n");
        inc.stdint = true;
        inc.stdbool = true;
    }
    match &o.copy {
        Some(c) => {
            inc.stdint = true;
            inc.stdbool = true;
            out.append("typedef struct __swift_bridge__$");
            out.append(o.name.as_str());
            out.append(" { uint8_t bytes[");
            push_dec(out, c.size_bytes);
            out.append("]; } __swift_bridge__$");
            out.append(o.name.as_str());
            out.append(";\n");
            out.append("typedef struct __swift_bridge__$Option$");
            out.append(o.name.as_str());
            out.append(" { bool is_some; __swift_bridge__$");
            out.append(o.name.as_str());
            out.append(" val; } __swift_bridge__$Option$");
            out.append(o.name.as_str());
            out.append(";\n");
        },
        None => {
            out.append("typedef struct ");
            out.append(o.name.as_str());
            out.append(" ");
            out.append(o.name.as_str());
            out.append(";\n");
            out.append("void __swift_bridge__$");
            out.append(o.name.as_str());
            let ghost base = out@;
            let ghost gparts = Seq::new(o.generics@.len(), |i: int| "$"@ + o.generics@[i]@);
            let mut i: usize = 0;
            proof {
                assert(gparts.take(0) =~= Seq::<Seq<char>>::empty());
            }
            while i < o.generics.len()
                invariant
                    0 <= i <= o.generics@.len(),
                    gparts == Seq::new(o.generics@.len(), |k: int| "$"@ + o.generics@[k]@),
                    out@ == base + concat_all(gparts.take(i as int)),
                decreases o.generics@.len() - i,
            {
                out.append("$");
                out.append(o.generics[i].as_str());
                proof {
                    lemma_concat_all_take_succ(gparts, i as int);
                    assert(out@ == base + concat_all(gparts.take(i as int + 1)));
                }
                i = i + 1;
            }
            proof {
                assert(gparts.take(o.generics@.len() as int) =~= gparts);
                assert(out@ == base + dollar_generics(o.generics@));
            }
            out.append("$_free(void* self);\n");
        },
    }
    if o.copy.is_none() && o.generics.len() == 0 {
        let bundle = vec_opaque_rust_type_c_support(o.name.as_str());
        out.append(bundle.as_str());
        out.append("\n");
    }
    proof {
        assert(final(out)@ == old(out)@ + opaque_body_text(*o));
    }
}

/// Appends the deterministic link name of `f`.
pub(crate) fn push_link_name(out: &mut String, f: &FunctionDeclaration)
    ensures
        final(out)@ == old(out)@ + link_name_text(*f),
{
    out.append("__swift_bridge__$");
    match &f.receiver {
        Some(r) => {
            out.append(r.ty_name.as_str());
            out.append("$");
        },
        None => {},
    }
    out.append(f.name.as_str());
}

/// Builds the comma-separated parameter list of `f` (the receiver first) and
/// reports whether there is any parameter at all.
#[verifier::rlimit(60)]
fn build_params(f: &FunctionDeclaration, types: &Vec<TypeDeclaration>) -> (r: (String, bool))
    requires
        fn_resolvable(*f, types@),
    ensures
        r.0@ == comma_joined(fn_param_pieces(*f, types@)),
        r.1 == (fn_param_pieces(*f, types@).len() > 0),
{
    let ghost ps = fn_param_pieces(*f, types@);
    let ghost off: int = if f.receiver is Some {
        1
    } else {
        0
    };
    let mut s = String::new();
    proof {
        assert(ps.len() == off + f.params@.len());
    }
    if f.receiver.is_some() {
        s.append("void* self");
        proof {
            assert(ps[0] == "void* self"@);
            assert(ps.take(1).len() == 1);
            assert(ps.take(1)[0] == ps[0]);
            assert(s@ == comma_joined(ps.take(off)));
        }
    } else {
        proof {
            assert(ps.take(0).len() == 0);
        }
    }
    let mut i: usize = 0;
    while i < f.params.len()
        invariant
            0 <= i <= f.params@.len(),
            ps == fn_param_pieces(*f, types@),
            off == (if f.receiver is Some { 1int } else { 0int }),
            ps.len() == off + f.params@.len(),
            fn_resolvable(*f, types@),
            s@ == comma_joined(ps.take(i + off)),
        decreases f.params@.len() - i,
    {
        if f.receiver.is_some() || i > 0 {
            s.append(", ");
        }
        push_c_spelling(&mut s, &f.params[i].ty, types);
        s.append(" ");
        s.append(f.params[i].name.as_str());
        proof {
            assert(ps[i + off] == param_piece(f.params@[i as int], types@));
            if i + off == 0 {
                assert(ps.take(1).len() == 1);
                assert(ps.take(1)[0] == ps[0]);
                assert(s@ == comma_joined(ps.take(i + off + 1)));
            } else {
                lemma_comma_joined_take_succ(ps, i + off);
                assert(s@ == comma_joined(ps.take(i + off + 1)));
            }
        }
        i = i + 1;
    }
    proof {
        assert(ps.take(f.params@.len() + off) =~= ps);
    }
    let has_any = f.receiver.is_some() || f.params.len() > 0;
    (s, has_any)
}

/// Emits the header line of one function implemented on this side.
#[verifier::spinoff_prover]
#[verifier::rlimit(100)]
fn push_fn_text(out: &mut String, f: &FunctionDeclaration, types: &Vec<TypeDeclaration>)
    requires
        !f.host_lang.spec_is_swift(),
        fn_resolvable(*f, types@),
    ensures
        final(out)@ == old(out)@ + fn_text(*f, types@),
{
    proof {
        reveal(sync_fn_text);
        reveal(async_fn_text);
    }
    let params = build_params(f, types);
    if f.is_async {
        if !params.1 && f.ret.is_none() {
            // the trampoline would carry nothing at all: no prototype
            return ;
        }
        out.append("void ");
        push_link_name(out, f);
        out.append("(void* callback_wrapper, void ");
        push_link_name(out, f);
        out.append("$async(void* callback_wrapper");
        let ghost mark1 = "void "@ + link_name_text(*f) + "(void* callback_wrapper, void "@
            + link_name_text(*f) + "$async(void* callback_wrapper"@;
        proof {
            assert(out@ == old(out)@ + mark1);
        }
        match &f.ret {
            Some(t) => {
                out.append(", ");
                push_c_spelling(out, t, types);
                out.append(" ret");
            },
            None => {},
        }
        out.append(")");
        let ghost mark2 = mark1 + (match &f.ret {
            None => Seq::<char>::empty(),
            Some(t) => ", "@ + c_of_ref(*t, types@) + " ret"@,
        }) + ")"@;
        proof {
            assert(out@ == old(out)@ + mark2);
        }
        if params.1 {
            out.append(", ");
            out.append(params.0.as_str());
        }
        out.append(");\n");
        proof {
            assert(final(out)@ == old(out)@ + async_fn_text(*f, types@));
        }
    } else {
        match &f.ret {
            Some(t) => push_c_spelling(out, t, types),
            None => out.append("void"),
        }
        out.append(" ");
        push_link_name(out, f);
        out.append("(");
        if params.1 {
            out.append(params.0.as_str());
        } else {
            out.append("void");
        }
        out.append(");\n");
        proof {
            assert(final(out)@ == old(out)@ + sync_fn_text(*f, types@));
        }
    }
}

/// Emits the trampoline prototype of one boxed-closure argument.
#[verifier::spinoff_prover]
#[verifier::rlimit(100)]
fn push_callback_fn(
    out: &mut String,
    f: &FunctionDeclaration,
    idx: usize,
    ps: &Vec<Primitive>,
    ret: &Option<Primitive>,
)
    ensures
        final(out)@ == old(out)@ + callback_fn_text(*f, idx as int, ps@, *ret),
{
    match ret {
        Some(p) => out.append(prim_c_str(*p)),
        None => out.append("void"),
    }
    out.append(" ");
    push_link_name(out, f);
    out.append("$param");
    push_dec_usize(out, idx);
    out.append("(void* callback_wrapper");
    let ghost mark = (match *ret {
        None => "void"@,
        Some(p) => prim_c(p),
    }) + " "@ + link_name_text(*f) + "$param"@ + dec_str(idx as nat) + "(void* callback_wrapper"@;
    proof {
        assert(out@ == old(out)@ + mark);
    }
    let ghost cparts = Seq::new(
        ps@.len(),
        |j: int| ", "@ + prim_c(ps@[j]) + " arg"@ + dec_str(j as nat),
    );
    let mut j: usize = 0;
    proof {
        assert(cparts.take(0) =~= Seq::<Seq<char>>::empty());
    }
    while j < ps.len()
        invariant
            0 <= j <= ps@.len(),
            cparts == Seq::new(
                ps@.len(),
                |k: int| ", "@ + prim_c(ps@[k]) + " arg"@ + dec_str(k as nat),
            ),
            out@ == old(out)@ + mark + concat_all(cparts.take(j as int)),
        decreases ps@.len() - j,
    {
        out.append(", ");
        out.append(prim_c_str(ps[j]));
        out.append(" arg");
        push_dec_usize(out, j);
        proof {
            lemma_concat_all_take_succ(cparts, j as int);
            assert(cparts[j as int] == ", "@ + prim_c(ps@[j as int]) + " arg"@ + dec_str(
                j as nat,
            ));
            assert(out@ == old(out)@ + mark + concat_all(cparts.take(j as int + 1)));
        }
        j = j + 1;
    }
    proof {
        assert(cparts.take(ps@.len() as int) =~= cparts);
    }
    out.append(");\n");
    proof {
        assert(final(out)@ == old(out)@ + callback_fn_text(*f, idx as int, ps@, *ret)) by {
            reveal(callback_fn_text);
        }
    }
}

/// Emits the trampoline prototypes of one Swift-implemented function.
fn push_swift_fn_text(out: &mut String, f: &FunctionDeclaration)
    ensures
        final(out)@ == old(out)@ + swift_fn_text(*f),
{
    let ghost parts = Seq::new(f.params@.len(), |i: int| swift_fn_piece(*f, i));
    let mut i: usize = 0;
    proof {
        assert(parts.take(0) =~= Seq::<Seq<char>>::empty());
    }
    while i < f.params.len()
        invariant
            0 <= i <= f.params@.len(),
            parts == Seq::new(f.params@.len(), |k: int| swift_fn_piece(*f, k)),
            out@ == old(out)@ + concat_all(parts.take(i as int)),
        decreases f.params@.len() - i,
    {
        match &f.params[i].ty {
            TypeRef::Callback(ps, ret) => {
                if ps.len() > 0 || ret.is_some() {
                    push_callback_fn(out, f, i, ps, ret);
                } else {
                    proof {
                        assert(out@ + Seq::<char>::empty() =~= out@);
                    }
                }
            },
            _ => {
                proof {
                    assert(out@ + Seq::<char>::empty() =~= out@);
                }
            },
        }
        proof {
            lemma_concat_all_take_succ(parts, i as int);
            assert(parts[i as int] == swift_fn_piece(*f, i as int));
            assert(out@ == old(out)@ + concat_all(parts.take(i as int + 1)));
        }
        i = i + 1;
    }
    proof {
        assert(parts.take(f.params@.len() as int) =~= parts);
    }
}

/// The support headers a function's signature needs.
fn fn_includes(f: &FunctionDeclaration, types: &Vec<TypeDeclaration>) -> (r: (bool, bool))
    ensures
        r.0 == fn_stdint(*f, types@),
        r.1 == fn_stdbool(*f, types@),
{
    if f.host_lang.is_swift() {
        return (false, false);
    }
    let mut a = false;
    let mut b = false;
    let mut i: usize = 0;
    while i < f.params.len()
        invariant
            0 <= i <= f.params@.len(),
            a == exists|j: int| 0 <= j < i && ref_stdint(#[trigger] f.params@[j].ty, types@),
            b == exists|j: int| 0 <= j < i && ref_stdbool(#[trigger] f.params@[j].ty, types@),
        decreases f.params@.len() - i,
    {
        let r = ref_includes(&f.params[i].ty, types);
        proof {
            if r.0 {
                assert(ref_stdint(f.params@[i as int].ty, types@));
            }
            if r.1 {
                assert(ref_stdbool(f.params@[i as int].ty, types@));
            }
        }
        if r.0 {
            a = true;
        }
        if r.1 {
            b = true;
        }
        i = i + 1;
    }
    match &f.ret {
        Some(t) => {
            let r = ref_includes(t, types);
            (a || r.0, b || r.1)
        },
        None => (a, b),
    }
}

/// True when the table holds an entry equal to `e`.
pub(crate) fn table_contains(tbl: &Vec<String>, e: &String) -> (r: bool)
    ensures
        r == views_of(tbl@).contains(e@),
{
    let r = crate::model::contains_string(tbl, e);
    proof {
        if r {
            let j = choose|j: int| 0 <= j < tbl@.len() && tbl@[j]@ == e@;
            assert(views_of(tbl@)[j] == e@);
            assert(views_of(tbl@).contains(e@));
        } else {
            if views_of(tbl@).contains(e@) {
                let j = choose|j: int| 0 <= j < views_of(tbl@).len() && views_of(tbl@)[j] == e@;
                assert(tbl@[j]@ == e@);
                assert(crate::model::seq_has_string(tbl@, e@));
            }
        }
    }
    r
}

/// Registers the slice element a function's return needs, deduplicated.
fn register_slice(tbl: &mut Vec<String>, f: &FunctionDeclaration, types: &Vec<TypeDeclaration>)
    requires
        fn_resolvable(*f, types@),
    ensures
        views_of(final(tbl)@) == table_step(views_of(old(tbl)@), fn_slice_elem(*f, types@)),
{
    if f.host_lang.is_swift() {
        return ;
    }
    match &f.ret {
        Some(t) => match t {
            TypeRef::Slice(inner) => {
                let mut e = String::new();
                push_c_spelling(&mut e, &**inner, types);
                proof {
                    assert(e@ == c_of_ref(**inner, types@));
                }
                if !table_contains(tbl, &e) {
                    let ghost before = tbl@;
                    tbl.push(e);
                    proof {
                        assert(views_of(tbl@) =~= views_of(before).push(c_of_ref(
                            **inner,
                            types@,
                        )));
                    }
                }
            },
            _ => {},
        },
        None => {},
    }
}

/// Whether the struct fields of `d`, if any, resolve.
pub open spec fn decl_fields_resolvable(d: TypeDeclaration, types: Seq<TypeDeclaration>) -> bool {
    match d {
        TypeDeclaration::Shared(SharedTypeDeclaration::Struct(s)) => fields_resolvable(
            s.fields,
            types,
        ),
        _ => true,
    }
}

/// Emits one type declaration (or nothing, when it is suppressed) and folds
/// its includes into the flags.
fn emit_decl(
    out: &mut String,
    inc: &mut IncludeFlags,
    d: &TypeDeclaration,
    types: &Vec<TypeDeclaration>,
)
    requires
        decl_fields_resolvable(*d, types@),
    ensures
        final(out)@ == old(out)@ + decl_text(*d, types@),
        final(inc).stdint == (old(inc).stdint || decl_stdint(*d, types@)),
        final(inc).stdbool == (old(inc).stdbool || decl_stdbool(*d, types@)),
{
    match d {
        TypeDeclaration::Shared(SharedTypeDeclaration::Struct(s)) => {
            proof {
                assert(*d == TypeDeclaration::Shared(SharedTypeDeclaration::Struct(*s)));
            }
            if !s.already_declared {
                push_struct_decl(out, inc, s, types);
            }
        },
        TypeDeclaration::Shared(SharedTypeDeclaration::Enum(e)) => {
            proof {
                assert(*d == TypeDeclaration::Shared(SharedTypeDeclaration::Enum(*e)));
            }
            if !e.already_declared {
                push_enum_decl(out, inc, e);
            }
        },
        TypeDeclaration::Opaque(o) => {
            proof {
                assert(*d == TypeDeclaration::Opaque(*o));
            }
            if !o.host_lang.is_swift() && !o.already_declared && !o.declare_generic {
                push_opaque_decl(out, inc, o);
            }
        },
    }
}

/// Renders the slice typedef section from the accumulated table.
fn build_slice_defs(tbl: &Vec<String>) -> (r: String)
    ensures
        r@ == slice_defs_text(views_of(tbl@)),
{
    let mut defs = String::new();
    let ghost table = views_of(tbl@);
    let mut d: usize = 0;
    proof {
        assert(table.take(0) =~= Seq::<Seq<char>>::empty());
    }
    while d < tbl.len()
        invariant
            0 <= d <= tbl@.len(),
            table == views_of(tbl@),
            defs@ == slice_defs_text(table.take(d as int)),
        decreases tbl@.len() - d,
    {
        let mut line = String::new();
        line.append("typedef struct FfiSlice_");
        line.append(tbl[d].as_str());
        line.append(" { ");
        line.append(tbl[d].as_str());
        line.append("* start; uintptr_t len; } FfiSlice_");
        line.append(tbl[d].as_str());
        line.append(";\n");
        proof {
            assert(line@ == slice_line_text(table[d as int]));
        }
        defs = line.concat(defs.as_str());
        proof {
            assert(table.take(d as int + 1).last() == table[d as int]);
            assert(table.take(d as int + 1).drop_last() =~= table.take(d as int));
            assert(defs@ == slice_defs_text(table.take(d as int + 1)));
        }
        d = d + 1;
    }
    proof {
        assert(table.take(tbl@.len() as int) =~= table);
    }
    defs
}

/// Emits one function's prototype (or nothing) and folds its includes and
/// slice registration into the bookkeeping.
fn emit_fn(
    out: &mut String,
    inc: &mut IncludeFlags,
    tbl: &mut Vec<String>,
    f: &FunctionDeclaration,
    types: &Vec<TypeDeclaration>,
)
    requires
        fn_resolvable(*f, types@),
    ensures
        final(out)@ == old(out)@ + fn_text(*f, types@),
        final(inc).stdint == (old(inc).stdint || fn_stdint(*f, types@)),
        final(inc).stdbool == (old(inc).stdbool || fn_stdbool(*f, types@)),
        views_of(final(tbl)@) == table_step(views_of(old(tbl)@), fn_slice_elem(*f, types@)),
{
    register_slice(tbl, f, types);
    let r = fn_includes(f, types);
    if r.0 {
        inc.stdint = true;
    }
    if r.1 {
        inc.stdbool = true;
    }
    if !f.host_lang.is_swift() {
        push_fn_text(out, f, types);
    } else {
        push_swift_fn_text(out, f);
        proof {
            assert(fn_text(*f, types@) == swift_fn_text(*f));
        }
    }
}

/// Emits every type declaration, in order, folding includes into `inc`.
fn emit_all_decls(types: &Vec<TypeDeclaration>, inc: &mut IncludeFlags) -> (r: String)
    requires
        forall|i: int|
            0 <= i < types@.len() ==> decl_fields_resolvable(#[trigger] types@[i], types@),
    ensures
        r@ == concat_all(decls_parts(types@)),
        final(inc).stdint == (old(inc).stdint || exists|j: int|
            0 <= j < types@.len() && decl_stdint(#[trigger] types@[j], types@)),
        final(inc).stdbool == (old(inc).stdbool || exists|j: int|
            0 <= j < types@.len() && decl_stdbool(#[trigger] types@[j], types@)),
{
    let mut body = String::new();
    proof {
        assert(decls_parts(types@).take(0) =~= Seq::<Seq<char>>::empty());
    }
    let mut i: usize = 0;
    while i < types.len()
        invariant
            0 <= i <= types@.len(),
            forall|j: int|
                0 <= j < types@.len() ==> decl_fields_resolvable(#[trigger] types@[j], types@),
            body@ == concat_all(decls_parts(types@).take(i as int)),
            inc.stdint == (old(inc).stdint || exists|j: int|
                0 <= j < i && decl_stdint(#[trigger] types@[j], types@)),
            inc.stdbool == (old(inc).stdbool || exists|j: int|
                0 <= j < i && decl_stdbool(#[trigger] types@[j], types@)),
        decreases types@.len() - i,
    {
        emit_decl(&mut body, inc, &types[i], types);
        proof {
            lemma_concat_all_take_succ(decls_parts(types@), i as int);
            assert(decls_parts(types@)[i as int] == decl_text(types@[i as int], types@));
            assert(body@ == concat_all(decls_parts(types@).take(i as int + 1)));
        }
        i = i + 1;
    }
    proof {
        assert(decls_parts(types@).take(types@.len() as int) =~= decls_parts(types@));
    }
    body
}

/// Emits every function prototype, in order, folding includes and slice
/// registrations into the bookkeeping.
fn emit_all_fns(
    fns: &Vec<FunctionDeclaration>,
    types: &Vec<TypeDeclaration>,
    inc: &mut IncludeFlags,
    tbl: &mut Vec<String>,
) -> (r: String)
    requires
        forall|i: int| 0 <= i < fns@.len() ==> fn_resolvable(#[trigger] fns@[i], types@),
        old(tbl)@.len() == 0,
    ensures
        r@ == concat_all(fns_parts(fns@, types@)),
        views_of(final(tbl)@) == slice_table_upto(fns@, types@, fns@.len() as int),
        final(inc).stdint == (old(inc).stdint || exists|j: int|
            0 <= j < fns@.len() && fn_stdint(#[trigger] fns@[j], types@)),
        final(inc).stdbool == (old(inc).stdbool || exists|j: int|
            0 <= j < fns@.len() && fn_stdbool(#[trigger] fns@[j], types@)),
{
    let mut body = String::new();
    proof {
        assert(fns_parts(fns@, types@).take(0) =~= Seq::<Seq<char>>::empty());
        assert(views_of(tbl@) =~= slice_table_upto(fns@, types@, 0));
    }
    let mut k: usize = 0;
    while k < fns.len()
        invariant
            0 <= k <= fns@.len(),
            forall|j: int| 0 <= j < fns@.len() ==> fn_resolvable(#[trigger] fns@[j], types@),
            body@ == concat_all(fns_parts(fns@, types@).take(k as int)),
            views_of(tbl@) == slice_table_upto(fns@, types@, k as int),
            inc.stdint == (old(inc).stdint || exists|j: int|
                0 <= j < k && fn_stdint(#[trigger] fns@[j], types@)),
            inc.stdbool == (old(inc).stdbool || exists|j: int|
                0 <= j < k && fn_stdbool(#[trigger] fns@[j], types@)),
        decreases fns@.len() - k,
    {
        emit_fn(&mut body, inc, tbl, &fns[k], types);
        proof {
            lemma_concat_all_take_succ(fns_parts(fns@, types@), k as int);
            assert(fns_parts(fns@, types@)[k as int] == fn_text(fns@[k as int], types@));
            assert(body@ == concat_all(fns_parts(fns@, types@).take(k as int + 1)));
        }
        k = k + 1;
    }
    proof {
        assert(fns_parts(fns@, types@).take(fns@.len() as int) =~= fns_parts(fns@, types@));
    }
    body
}

impl Module {
    /// Everything below the notice line, for this module under `config`.
    #[verifier::spinoff_prover]
    #[verifier::rlimit(100)]
    pub fn generate_c_header_inner(&self, config: &CodegenConfig) -> (r: String)
        requires
            module_resolvable(*self),
        ensures
            r@ == header_inner_text(*self, *config),
    {
        let ghost m = *self;
        let mut header = String::new();
        if !self.module_will_be_compiled(config) {
            return header;
        }
        let mut inc = IncludeFlags { stdint: false, stdbool: false };
        let types_body = emit_all_decls(&self.types, &mut inc);
        let mut tbl: Vec<String> = Vec::new();
        let fns_body = emit_all_fns(&self.functions, &self.types, &mut inc, &mut tbl);
        // the slice typedefs, each prepended in registration order
        let defs = build_slice_defs(&tbl);
        proof {
            assert(inc.stdint == module_stdint(m));
            assert(inc.stdbool == module_stdbool(m));
        }
        // assemble: includes, slice typedefs, types, functions
        if inc.stdint {
            header.append("#include <stdint.h>\n");
        }
        if inc.stdbool {
            header.append("#include <stdbool.h>\n");
        }
        proof {
            assert(header@ == includes_text(module_stdint(m), module_stdbool(m)));
        }
        header.append(defs.as_str());
        header.append(types_body.as_str());
        header.append(fns_body.as_str());
        proof {
            assert(header@ == header_inner_text(m, *config));
        }
        header
    }

    /// The contents of the C header file for this module: the fixed notice
    /// line, then every boundary-crossing declaration.
    pub fn generate_c_header(&self, config: &CodegenConfig) -> (r: String)
        requires
            module_resolvable(*self),
        ensures
            r@ == header_text(*self, *config),
    {
        let mut out = String::new();
        out.append("// File automatically generated by swift-bridge.");
        out.append("\n");
        let inner = self.generate_c_header_inner(config);
        out.append(inner.as_str());
        proof {
            assert(out@ == header_text(*self, *config));
        }
        out
    }
}

} // verus!
