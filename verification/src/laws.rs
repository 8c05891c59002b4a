//! Laws of the generated artifacts, proved over the generation
//! specifications: what is emitted exactly once, what is never emitted, and
//! how the header is laid out.

use crate::header::{
    concat_all, decl_text, decls_parts, enum_head_text, enum_text, fn_slice_elem, fns_parts,
    free_fn_text, header_inner_text, header_text, includes_text, module_stdbool, module_stdint,
    notice_text, opaque_body_text, opaque_suppressed, slice_defs_text, slice_line_text,
    slice_table_upto, struct_field_reprs, struct_text, vec_enum_text, vec_opaque_text,
};
use crate::model::{
    decl_name, CodegenConfig, FunctionDeclaration, Module, SharedTypeDeclaration, TypeDeclaration,
};
use vstd::prelude::*;

verus! {

broadcast use crate::model::lemma_add_assoc;

/// Each declared type name is registered once: the module invariant the
/// declaration registry maintains across a build.
pub open spec fn unique_names(types: Seq<TypeDeclaration>) -> bool {
    forall|i: int, j: int|
        0 <= i < types.len() && 0 <= j < types.len() && i != j ==> decl_name(#[trigger] types[i])
            != decl_name(#[trigger] types[j])
}

/// `needle` occurs contiguously inside `hay`.
pub open spec fn contains_seq(hay: Seq<char>, needle: Seq<char>) -> bool {
    exists|pre: Seq<char>, post: Seq<char>| hay == #[trigger] (pre + needle + post)
}

/// How many declarations satisfy `p`.
pub open spec fn count_decls(
    types: Seq<TypeDeclaration>,
    p: spec_fn(TypeDeclaration) -> bool,
) -> nat
    decreases types.len(),
{
    if types.len() == 0 {
        0
    } else {
        (if p(types[0]) {
            1nat
        } else {
            0nat
        }) + count_decls(types.drop_first(), p)
    }
}

pub proof fn lemma_count_zero(types: Seq<TypeDeclaration>, p: spec_fn(TypeDeclaration) -> bool)
    requires
        forall|j: int| 0 <= j < types.len() ==> !p(#[trigger] types[j]),
    ensures
        count_decls(types, p) == 0,
    decreases types.len(),
{
    if types.len() > 0 {
        assert forall|j: int| 0 <= j < types.drop_first().len() implies !p(
            #[trigger] types.drop_first()[j],
        ) by {
            assert(types.drop_first()[j] == types[j + 1]);
        }
        lemma_count_zero(types.drop_first(), p);
    }
}

pub proof fn lemma_count_one(
    types: Seq<TypeDeclaration>,
    p: spec_fn(TypeDeclaration) -> bool,
    i: int,
)
    requires
        0 <= i < types.len(),
        p(types[i]),
        forall|j: int| 0 <= j < types.len() && j != i ==> !p(#[trigger] types[j]),
    ensures
        count_decls(types, p) == 1,
    decreases types.len(),
{
    if i == 0 {
        assert forall|j: int| 0 <= j < types.drop_first().len() implies !p(
            #[trigger] types.drop_first()[j],
        ) by {
            assert(types.drop_first()[j] == types[j + 1]);
        }
        lemma_count_zero(types.drop_first(), p);
    } else {
        assert(!p(types[0]));
        assert forall|j: int|
            0 <= j < types.drop_first().len() && j != i - 1 implies !p(
            #[trigger] types.drop_first()[j],
        ) by {
            assert(types.drop_first()[j] == types[j + 1]);
        }
        assert(types.drop_first()[i - 1] == types[i]);
        lemma_count_one(types.drop_first(), p, i - 1);
    }
}

/// Each part of a concatenation occurs in it.
pub proof fn lemma_concat_all_split(parts: Seq<Seq<char>>, i: int)
    requires
        0 <= i < parts.len(),
    ensures
        contains_seq(concat_all(parts), parts[i]),
    decreases parts.len(),
{
    if i == parts.len() - 1 {
        let pre = concat_all(parts.drop_last());
        assert(concat_all(parts) =~= pre + parts[i] + Seq::<char>::empty());
    } else {
        lemma_concat_all_split(parts.drop_last(), i);
        assert(parts.drop_last()[i] == parts[i]);
        let (pre, post) = choose|pre: Seq<char>, post: Seq<char>|
            concat_all(parts.drop_last()) == #[trigger] (pre + parts[i] + post);
        assert(concat_all(parts) == pre + parts[i] + (post + parts.last()));
    }
}

/// Containment survives surrounding text.
pub proof fn lemma_contains_within(hay: Seq<char>, needle: Seq<char>, x: Seq<char>, y: Seq<char>)
    requires
        contains_seq(hay, needle),
    ensures
        contains_seq(x + hay + y, needle),
{
    let (pre, post) = choose|pre: Seq<char>, post: Seq<char>|
        hay == #[trigger] (pre + needle + post);
    assert(x + hay + y == (x + pre) + needle + (post + y));
}

/// Containment is transitive through an enclosing piece.
pub proof fn lemma_contains_trans(hay: Seq<char>, mid: Seq<char>, needle: Seq<char>)
    requires
        contains_seq(hay, mid),
        contains_seq(mid, needle),
    ensures
        contains_seq(hay, needle),
{
    let (a, b) = choose|a: Seq<char>, b: Seq<char>| hay == #[trigger] (a + mid + b);
    let (c, d) = choose|c: Seq<char>, d: Seq<char>| mid == #[trigger] (c + needle + d);
    assert(hay == (a + c) + needle + (d + b));
}

/// The header below the notice line splits into its four sections: includes,
/// slice typedefs, type declarations, then function prototypes — so every
/// slice typedef stands before every prototype.
pub proof fn lemma_header_layout(m: Module, config: CodegenConfig)
    requires
        m.spec_will_be_compiled(&config),
    ensures
        header_inner_text(m, config) == includes_text(module_stdint(m), module_stdbool(m))
            + slice_defs_text(slice_table_upto(m.functions@, m.types@, m.functions@.len() as int))
            + concat_all(decls_parts(m.types@)) + concat_all(fns_parts(m.functions@, m.types@)),
{
}

/// Generation is a function of the module and the configuration alone: two
/// runs over the same module yield byte-identical text.
pub proof fn lemma_generation_deterministic(
    m: Module,
    config: CodegenConfig,
    h1: Seq<char>,
    h2: Seq<char>,
)
    requires
        h1 == header_text(m, config),
        h2 == header_text(m, config),
    ensures
        h1 == h2,
{
}

/// A module with no declarations and no functions produces a header whose
/// only content is the fixed notice line.
pub proof fn lemma_empty_module_header(m: Module, config: CodegenConfig)
    requires
        m.types@.len() == 0,
        m.functions@.len() == 0,
    ensures
        header_text(m, config) == notice_text() + "\n"@,
{
    if m.spec_will_be_compiled(&config) {
        assert(decls_parts(m.types@).len() == 0);
        assert(fns_parts(m.functions@, m.types@).len() == 0);
        assert(!module_stdint(m));
        assert(!module_stdbool(m));
        assert(header_inner_text(m, config) =~= Seq::<char>::empty());
    }
    assert(header_text(m, config) =~= notice_text() + "\n"@);
}

/// The declarations that emit a free function for `name`.
pub open spec fn emits_free_fn(d: TypeDeclaration, name: Seq<char>) -> bool {
    match d {
        TypeDeclaration::Opaque(o) => !opaque_suppressed(o) && o.copy is None && o.name@ == name,
        _ => false,
    }
}

/// The declarations that emit the pointer-keyed collection bundle for `name`.
pub open spec fn emits_opaque_bundle(d: TypeDeclaration, name: Seq<char>) -> bool {
    match d {
        TypeDeclaration::Opaque(o) => !opaque_suppressed(o) && o.copy is None && o.generics@.len()
            == 0 && o.name@ == name,
        _ => false,
    }
}

/// The declarations that emit the value-keyed collection bundle for `name`.
pub open spec fn emits_enum_bundle(d: TypeDeclaration, name: Seq<char>) -> bool {
    match d {
        TypeDeclaration::Shared(SharedTypeDeclaration::Enum(e)) => !e.already_declared
            && !e.spec_has_data() && e.name@ == name,
        _ => false,
    }
}

/// The declarations that emit the struct layout for `name`.
pub open spec fn emits_struct_decl(d: TypeDeclaration, name: Seq<char>) -> bool {
    match d {
        TypeDeclaration::Shared(SharedTypeDeclaration::Struct(s)) => !s.already_declared && s.name@
            == name,
        _ => false,
    }
}

/// The emitted text of declaration `i` occurs in the header.
pub proof fn lemma_decl_text_in_header(m: Module, config: CodegenConfig, i: int)
    requires
        m.spec_will_be_compiled(&config),
        0 <= i < m.types@.len(),
    ensures
        contains_seq(header_inner_text(m, config), decl_text(m.types@[i], m.types@)),
{
    assert(decls_parts(m.types@)[i] == decl_text(m.types@[i], m.types@));
    lemma_concat_all_split(decls_parts(m.types@), i);
    lemma_contains_within(
        concat_all(decls_parts(m.types@)),
        decl_text(m.types@[i], m.types@),
        includes_text(module_stdint(m), module_stdbool(m)) + slice_defs_text(
            slice_table_upto(m.functions@, m.types@, m.functions@.len() as int),
        ),
        concat_all(fns_parts(m.functions@, m.types@)),
    );
    lemma_header_layout(m, config);
}

/// Every opaque, non-generic, non-copy type gets exactly one free function
/// and exactly one pointer-keyed collection-support bundle: exactly one
/// declaration emits each, and the emitted texts stand in the header.  The
/// declare-once module invariant ([`unique_names`]) is what makes "exactly
/// one" hold: with a name declared twice, both declarations would emit.
pub proof fn lemma_opaque_type_support(m: Module, config: CodegenConfig, i: int)
    requires
        unique_names(m.types@),
        m.spec_will_be_compiled(&config),
        0 <= i < m.types@.len(),
        m.types@[i] matches TypeDeclaration::Opaque(o) && !opaque_suppressed(o) && o.copy is None
            && o.generics@.len() == 0,
    ensures
        count_decls(m.types@, |d: TypeDeclaration| emits_free_fn(d, decl_name(m.types@[i]))) == 1,
        count_decls(m.types@, |d: TypeDeclaration| emits_opaque_bundle(d, decl_name(m.types@[i])))
            == 1,
        contains_seq(header_inner_text(m, config), free_fn_text(m.types@[i]->Opaque_0)),
        contains_seq(header_inner_text(m, config), vec_opaque_text(decl_name(m.types@[i]))),
{
    let o = m.types@[i]->Opaque_0;
    let name = decl_name(m.types@[i]);
    assert forall|j: int|
        0 <= j < m.types@.len() && j != i implies !emits_free_fn(#[trigger] m.types@[j], name) by {
        assert(decl_name(m.types@[j]) != name);
    }
    lemma_count_one(m.types@, |d: TypeDeclaration| emits_free_fn(d, name), i);
    assert forall|j: int|
        0 <= j < m.types@.len() && j != i implies !emits_opaque_bundle(
        #[trigger] m.types@[j],
        name,
    ) by {
        assert(decl_name(m.types@[j]) != name);
    }
    lemma_count_one(m.types@, |d: TypeDeclaration| emits_opaque_bundle(d, name), i);
    // the free function and the bundle stand inside this declaration's text
    assert(decl_text(m.types@[i], m.types@) == opaque_body_text(o));
    reveal(opaque_body_text);
    let hash_eq = (if o.hashable {
        "uint64_t __swift_bridge__$"@ + o.name@ + "$_hash(void* self);"@
    } else {
        Seq::<char>::empty()
    }) + (if o.equatable {
        "bool __swift_bridge__$"@ + o.name@ + "$_partial_eq(void* lhs, void* rhs);\n"@
    } else {
        Seq::<char>::empty()
    });
    let typedef = "typedef struct "@ + o.name@ + " "@ + o.name@ + ";\n"@;
    assert(opaque_body_text(o) == (hash_eq + typedef) + free_fn_text(o) + (vec_opaque_text(o.name@)
        + "\n"@));
    assert(contains_seq(opaque_body_text(o), free_fn_text(o)));
    assert(opaque_body_text(o) == (hash_eq + typedef + free_fn_text(o)) + vec_opaque_text(o.name@)
        + "\n"@);
    assert(contains_seq(opaque_body_text(o), vec_opaque_text(o.name@)));
    lemma_decl_text_in_header(m, config, i);
    lemma_contains_trans(header_inner_text(m, config), opaque_body_text(o), free_fn_text(o));
    lemma_contains_trans(header_inner_text(m, config), opaque_body_text(o), vec_opaque_text(name));
}

/// A shared struct with no fields is laid out with exactly one one-byte
/// placeholder field, and exactly one declaration emits its layout, which
/// stands in the header.
pub proof fn lemma_empty_struct_placeholder(m: Module, config: CodegenConfig, i: int)
    requires
        unique_names(m.types@),
        m.spec_will_be_compiled(&config),
        0 <= i < m.types@.len(),
        m.types@[i] matches TypeDeclaration::Shared(SharedTypeDeclaration::Struct(s))
            && !s.already_declared && s.fields.spec_is_empty(),
    ensures
        count_decls(m.types@, |d: TypeDeclaration| emits_struct_decl(d, decl_name(m.types@[i])))
            == 1,
        struct_field_reprs(m.types@[i]->Shared_0->Struct_0, m.types@) == seq!["uint8_t _private"@],
        contains_seq(
            header_inner_text(m, config),
            struct_text(m.types@[i]->Shared_0->Struct_0, m.types@),
        ),
{
    let s = m.types@[i]->Shared_0->Struct_0;
    let name = decl_name(m.types@[i]);
    assert forall|j: int|
        0 <= j < m.types@.len() && j != i implies !emits_struct_decl(
        #[trigger] m.types@[j],
        name,
    ) by {
        assert(decl_name(m.types@[j]) != name);
    }
    lemma_count_one(m.types@, |d: TypeDeclaration| emits_struct_decl(d, name), i);
    assert(decl_text(m.types@[i], m.types@) == struct_text(s, m.types@));
    lemma_decl_text_in_header(m, config, i);
}

/// A transparent enum's text is the scalar tag enum, the wrapping struct and
/// the option wrapper, followed by the value-keyed collection bundle; the
/// bundle is emitted by exactly one declaration, and the whole text stands
/// in the header.
pub proof fn lemma_transparent_enum_support(m: Module, config: CodegenConfig, i: int)
    requires
        unique_names(m.types@),
        m.spec_will_be_compiled(&config),
        0 <= i < m.types@.len(),
        m.types@[i] matches TypeDeclaration::Shared(SharedTypeDeclaration::Enum(e))
            && !e.already_declared && !e.spec_has_data(),
    ensures
        count_decls(m.types@, |d: TypeDeclaration| emits_enum_bundle(d, decl_name(m.types@[i])))
            == 1,
        enum_text(m.types@[i]->Shared_0->Enum_0) == enum_head_text(m.types@[i]->Shared_0->Enum_0)
            + vec_enum_text(decl_name(m.types@[i])) + "\n"@,
        contains_seq(header_inner_text(m, config), enum_text(m.types@[i]->Shared_0->Enum_0)),
        contains_seq(header_inner_text(m, config), vec_enum_text(decl_name(m.types@[i]))),
{
    let e = m.types@[i]->Shared_0->Enum_0;
    let name = decl_name(m.types@[i]);
    assert forall|j: int|
        0 <= j < m.types@.len() && j != i implies !emits_enum_bundle(
        #[trigger] m.types@[j],
        name,
    ) by {
        assert(decl_name(m.types@[j]) != name);
    }
    lemma_count_one(m.types@, |d: TypeDeclaration| emits_enum_bundle(d, name), i);
    assert(decl_text(m.types@[i], m.types@) == enum_text(e));
    lemma_decl_text_in_header(m, config, i);
    assert(enum_text(e) == enum_head_text(e) + vec_enum_text(name) + "\n"@);
    assert(contains_seq(enum_text(e), vec_enum_text(name)));
    lemma_contains_trans(header_inner_text(m, config), enum_text(e), vec_enum_text(name));
}

/// A data-carrying enum gets no collection-support bundle: its own text
/// holds none, and under the declare-once module invariant
/// ([`unique_names`]) no declaration at all emits a value-keyed bundle under
/// its name.  The statement is at the emitter level on purpose: names are
/// arbitrary text here, so nothing could rule out another declaration's name
/// spelling the same bundle prototype character for character.
pub proof fn lemma_data_enum_no_bundle(m: Module, i: int)
    requires
        unique_names(m.types@),
        0 <= i < m.types@.len(),
        m.types@[i] matches TypeDeclaration::Shared(SharedTypeDeclaration::Enum(e))
            && e.spec_has_data(),
    ensures
        enum_text(m.types@[i]->Shared_0->Enum_0) == enum_head_text(m.types@[i]->Shared_0->Enum_0)
            + "\n"@,
        count_decls(m.types@, |d: TypeDeclaration| emits_enum_bundle(d, decl_name(m.types@[i])))
            == 0,
{
    let e = m.types@[i]->Shared_0->Enum_0;
    let name = decl_name(m.types@[i]);
    assert(enum_text(e) =~= enum_head_text(e) + "\n"@);
    assert forall|j: int|
        0 <= j < m.types@.len() implies !emits_enum_bundle(#[trigger] m.types@[j], name) by {
        if j != i {
            assert(decl_name(m.types@[j]) != name);
        }
    }
    lemma_count_zero(m.types@, |d: TypeDeclaration| emits_enum_bundle(d, name));
}

/// No two entries of the accumulated slice table are equal.
pub open spec fn no_dups(t: Seq<Seq<char>>) -> bool {
    forall|i: int, j: int| 0 <= i < t.len() && 0 <= j < t.len() && i != j ==> t[i] != t[j]
}

pub proof fn lemma_slice_table_nodup(
    fns: Seq<FunctionDeclaration>,
    types: Seq<TypeDeclaration>,
    i: int,
)
    ensures
        no_dups(slice_table_upto(fns, types, i)),
    decreases i,
{
    if i > 0 {
        lemma_slice_table_nodup(fns, types, i - 1);
        let prev = slice_table_upto(fns, types, i - 1);
        match fn_slice_elem(fns[i - 1], types) {
            Some(e) => {
                if !prev.contains(e) {
                    assert forall|a: int, b: int|
                        0 <= a < prev.push(e).len() && 0 <= b < prev.push(e).len() && a
                            != b implies prev.push(e)[a] != prev.push(e)[b] by {
                        if a < prev.len() && b < prev.len() {
                        } else if a == prev.len() {
                            assert(prev.push(e)[b] == prev[b]);
                            assert(!prev.contains(e));
                        } else {
                            assert(prev.push(e)[a] == prev[a]);
                            assert(!prev.contains(e));
                        }
                    }
                }
            },
            None => {},
        }
    }
}

/// Once a slice element is registered it stays in the table.
pub proof fn lemma_slice_table_monotone(
    fns: Seq<FunctionDeclaration>,
    types: Seq<TypeDeclaration>,
    e: Seq<char>,
    k1: int,
    k2: int,
)
    requires
        0 <= k1 <= k2,
        slice_table_upto(fns, types, k1).contains(e),
    ensures
        slice_table_upto(fns, types, k2).contains(e),
    decreases k2 - k1,
{
    if k1 < k2 {
        let prev = slice_table_upto(fns, types, k2 - 1);
        lemma_slice_table_monotone(fns, types, e, k1, k2 - 1);
        match fn_slice_elem(fns[k2 - 1], types) {
            Some(x) => {
                if !prev.contains(x) {
                    assert(prev.push(x).contains(e)) by {
                        let w = choose|w: int| 0 <= w < prev.len() && prev[w] == e;
                        assert(prev.push(x)[w] == e);
                    }
                }
            },
            None => {},
        }
    }
}

/// Every slice typedef of the table stands in the slice section.
pub proof fn lemma_slice_defs_contains(table: Seq<Seq<char>>, i: int)
    requires
        0 <= i < table.len(),
    ensures
        contains_seq(slice_defs_text(table), slice_line_text(table[i])),
    decreases table.len(),
{
    if i == table.len() - 1 {
        assert(slice_defs_text(table) =~= Seq::<char>::empty() + slice_line_text(table[i])
            + slice_defs_text(table.drop_last()));
    } else {
        lemma_slice_defs_contains(table.drop_last(), i);
        assert(table.drop_last()[i] == table[i]);
        let (pre, post) = choose|pre: Seq<char>, post: Seq<char>|
            slice_defs_text(table.drop_last()) == #[trigger] (pre + slice_line_text(table[i])
                + post);
        assert(slice_defs_text(table) == (slice_line_text(table.last()) + pre) + slice_line_text(
            table[i],
        ) + post);
    }
}

/// Functions returning slices of one element type share a single slice
/// typedef: the element enters the deduplicated table once, its typedef
/// stands in the header, and the whole slice section precedes every
/// prototype (see [`lemma_header_layout`]).
pub proof fn lemma_one_slice_def_per_element(m: Module, config: CodegenConfig, i: int, e: Seq<char>)
    requires
        m.spec_will_be_compiled(&config),
        0 <= i < m.functions@.len(),
        fn_slice_elem(m.functions@[i], m.types@) == Some(e),
    ensures
        slice_table_upto(m.functions@, m.types@, m.functions@.len() as int).contains(e),
        no_dups(slice_table_upto(m.functions@, m.types@, m.functions@.len() as int)),
        contains_seq(header_inner_text(m, config), slice_line_text(e)),
{
    let full = m.functions@.len() as int;
    let prev = slice_table_upto(m.functions@, m.types@, i);
    let next = slice_table_upto(m.functions@, m.types@, i + 1);
    if prev.contains(e) {
        assert(next.contains(e));
    } else {
        assert(next == prev.push(e));
        assert(next[prev.len() as int] == e);
        assert(next.contains(e));
    }
    lemma_slice_table_monotone(m.functions@, m.types@, e, i + 1, full);
    lemma_slice_table_nodup(m.functions@, m.types@, full);
    let table = slice_table_upto(m.functions@, m.types@, full);
    let w = choose|w: int| 0 <= w < table.len() && table[w] == e;
    lemma_slice_defs_contains(table, w);
    lemma_header_layout(m, config);
    lemma_contains_within(
        slice_defs_text(table),
        slice_line_text(e),
        includes_text(module_stdint(m), module_stdbool(m)),
        concat_all(decls_parts(m.types@)) + concat_all(fns_parts(m.functions@, m.types@)),
    );
}

} // verus!
