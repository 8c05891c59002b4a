//! Generation of shared types, copy types, asynchronous prototypes, the
//! feature gate, the resolution errors and the registry, checked on concrete
//! modules.

use swift_bridge_ir::bridged::{c_spelling, resolve, BridgeError, BridgedType};
use swift_bridge_ir::model::{
    CodegenConfig, CopyAttr, EnumVariant, FunctionDeclaration, HostLang, MethodReceiver, Module,
    NamedField, OpaqueType, Param, Primitive, ReceiverKind, SharedEnum, SharedStruct,
    SharedTypeDeclaration, StructFields, TypeDeclaration, TypeRef, UnnamedField,
};
use swift_bridge_ir::registry::DeclarationRegistry;

fn no_features() -> CodegenConfig {
    CodegenConfig::no_features_enabled()
}

fn rust_fn(name: &str) -> FunctionDeclaration {
    FunctionDeclaration {
        name: name.to_string(),
        host_lang: HostLang::Rust,
        is_async: false,
        receiver: None,
        params: Vec::new(),
        ret: None,
    }
}

fn module(types: Vec<TypeDeclaration>, functions: Vec<FunctionDeclaration>) -> Module {
    Module {
        cfg_feature: None,
        types,
        functions,
    }
}

fn plain_opaque(name: &str) -> OpaqueType {
    OpaqueType {
        name: name.to_string(),
        host_lang: HostLang::Rust,
        already_declared: false,
        declare_generic: false,
        copy: None,
        hashable: false,
        equatable: false,
        generics: Vec::new(),
    }
}

fn enum_decl(name: &str, variants: Vec<EnumVariant>) -> TypeDeclaration {
    TypeDeclaration::Shared(SharedTypeDeclaration::Enum(SharedEnum {
        name: name.to_string(),
        already_declared: false,
        variants,
    }))
}

fn variant(name: &str) -> EnumVariant {
    EnumVariant {
        name: name.to_string(),
        fields: Vec::new(),
    }
}

/// A transparent enum gets a scalar tag enum, a wrapping struct, an option
/// wrapper, and the by-value collection bundle.
#[test]
fn transparent_enum_gets_value_keyed_bundle() {
    let m = module(
        vec![enum_decl("Color", vec![variant("Red"), variant("Green")])],
        Vec::new(),
    );
    let header = m.generate_c_header_inner(&no_features());
    let expected = "#include <stdbool.h>\n\
typedef enum __swift_bridge__$Color$Tag { __swift_bridge__$Color$Red, __swift_bridge__$Color$Green, } __swift_bridge__$Color$Tag;\n\
typedef struct __swift_bridge__$Color { __swift_bridge__$Color$Tag tag; } __swift_bridge__$Color;\n\
typedef struct __swift_bridge__$Option$Color { bool is_some; __swift_bridge__$Color val; } __swift_bridge__$Option$Color;\n\
void* __swift_bridge__$Vec_Color$new(void);";
    assert!(header.starts_with(expected), "got:\n{}", header);
    assert!(header.contains(
        "__swift_bridge__$Option$Color __swift_bridge__$Vec_Color$pop(void* vec_ptr);"
    ));
}

/// A data-carrying enum gets no collection-support bundle at all.
#[test]
fn data_carrying_enum_gets_no_bundle() {
    let mut v = variant("Num");
    v.fields.push(TypeRef::Prim(Primitive::U32));
    let m = module(vec![enum_decl("Value", vec![variant("Empty"), v])], Vec::new());
    let header = m.generate_c_header_inner(&no_features());
    assert!(header.contains("typedef enum __swift_bridge__$Value$Tag"));
    assert!(!header.contains("$Vec_Value$"));
}

/// A struct with no fields is laid out with a single one-byte placeholder.
#[test]
fn empty_struct_gets_placeholder_field() {
    let m = module(
        vec![TypeDeclaration::Shared(SharedTypeDeclaration::Struct(SharedStruct {
            name: "Nothing".to_string(),
            already_declared: false,
            fields: StructFields::Unit,
        }))],
        Vec::new(),
    );
    let header = m.generate_c_header_inner(&no_features());
    let expected = "#include <stdint.h>\n#include <stdbool.h>\n\
typedef struct __swift_bridge__$Nothing { uint8_t _private; } __swift_bridge__$Nothing;\n\
typedef struct __swift_bridge__$Option$Nothing { bool is_some; __swift_bridge__$Nothing val; } __swift_bridge__$Option$Nothing;";
    assert_eq!(header.trim(), expected.trim());
}

/// Named and positional fields are spelled with their resolved C types.
#[test]
fn struct_fields_are_spelled() {
    let named = TypeDeclaration::Shared(SharedTypeDeclaration::Struct(SharedStruct {
        name: "Pair".to_string(),
        already_declared: false,
        fields: StructFields::Named(vec![
            NamedField {
                name: "left".to_string(),
                ty: TypeRef::Prim(Primitive::U16),
            },
            NamedField {
                name: "right".to_string(),
                ty: TypeRef::Prim(Primitive::Bool),
            },
        ]),
    }));
    let tuple = TypeDeclaration::Shared(SharedTypeDeclaration::Struct(SharedStruct {
        name: "Point".to_string(),
        already_declared: false,
        fields: StructFields::Unnamed(vec![
            UnnamedField {
                ty: TypeRef::Prim(Primitive::I64),
            },
            UnnamedField {
                ty: TypeRef::Prim(Primitive::I64),
            },
        ]),
    }));
    let header = module(vec![named, tuple], Vec::new()).generate_c_header_inner(&no_features());
    assert!(header.contains(
        "typedef struct __swift_bridge__$Pair { uint16_t left; bool right; } __swift_bridge__$Pair;"
    ));
    assert!(header.contains(
        "typedef struct __swift_bridge__$Point { int64_t _0; int64_t _1; } __swift_bridge__$Point;"
    ));
}

/// A by-value opaque type gets byte-array typedefs and no free function.
#[test]
fn copy_opaque_type_gets_byte_array() {
    let mut o = plain_opaque("Id");
    o.copy = Some(CopyAttr { size_bytes: 16 });
    let m = module(vec![TypeDeclaration::Opaque(o)], Vec::new());
    let header = m.generate_c_header_inner(&no_features());
    assert!(header.contains(
        "typedef struct __swift_bridge__$Id { uint8_t bytes[16]; } __swift_bridge__$Id;"
    ));
    assert!(!header.contains("$_free"));
    assert!(!header.contains("$Vec_Id$"));
}

/// Hashable and equatable opaque types get the extra prototypes.
#[test]
fn equatable_opaque_type_gets_partial_eq() {
    let mut o = plain_opaque("Key");
    o.equatable = true;
    let m = module(vec![TypeDeclaration::Opaque(o)], Vec::new());
    let header = m.generate_c_header_inner(&no_features());
    assert!(header
        .contains("bool __swift_bridge__$Key$_partial_eq(void* lhs, void* rhs);"));
}

/// The hash prototype spells uint64_t, so a hashable type brings the
/// fixed-width integer include with it: the header stays self-contained.
#[test]
fn hashable_opaque_type_brings_stdint_include() {
    let mut o = plain_opaque("Key");
    o.hashable = true;
    let m = module(vec![TypeDeclaration::Opaque(o)], Vec::new());
    let header = m.generate_c_header_inner(&no_features());
    assert!(
        header.starts_with(
            "#include <stdint.h>\nuint64_t __swift_bridge__$Key$_hash(void* self);"
        ),
        "got:\n{}",
        header
    );
}

/// A Swift-implemented function contributes one trampoline prototype per
/// boxed-closure argument that takes or returns something; a closure with
/// neither gets no line, and the function itself gets no prototype.
#[test]
fn swift_function_callback_trampolines() {
    let f = FunctionDeclaration {
        name: "some_function".to_string(),
        host_lang: HostLang::Swift,
        is_async: false,
        receiver: None,
        params: vec![
            Param {
                name: "on_progress".to_string(),
                ty: TypeRef::Callback(vec![Primitive::U8], Some(Primitive::U32)),
            },
            Param {
                name: "on_done".to_string(),
                ty: TypeRef::Callback(Vec::new(), None),
            },
        ],
        ret: None,
    };
    let m = module(Vec::new(), vec![f]);
    let header = m.generate_c_header_inner(&no_features());
    let expected =
        "uint32_t __swift_bridge__$some_function$param0(void* callback_wrapper, uint8_t arg0);";
    assert_eq!(header.trim(), expected, "got:\n{}", header);
    assert!(!header.contains("$param1"));
}

/// An asynchronous function emits the trampoline convention; one that
/// neither takes nor returns anything emits no line at all.
#[test]
fn async_function_uses_trampoline() {
    let mut f = rust_fn("fetch");
    f.is_async = true;
    f.ret = Some(TypeRef::Prim(Primitive::U32));
    let mut silent = rust_fn("ping");
    silent.is_async = true;
    let m = module(Vec::new(), vec![f, silent]);
    let header = m.generate_c_header_inner(&no_features());
    assert!(header.contains(
        "void __swift_bridge__$fetch(void* callback_wrapper, void __swift_bridge__$fetch$async(void* callback_wrapper, uint32_t ret));"
    ));
    assert!(!header.contains("ping"));
}

/// A module gated behind a disabled feature produces nothing below the
/// notice line.
#[test]
fn feature_gated_module_is_skipped() {
    let mut m = module(vec![TypeDeclaration::Opaque(plain_opaque("T"))], Vec::new());
    m.cfg_feature = Some("net".to_string());
    assert_eq!(m.generate_c_header_inner(&no_features()), "");
    let enabled = CodegenConfig {
        enabled_features: vec!["net".to_string()],
    };
    assert!(m.generate_c_header_inner(&enabled).contains("typedef struct T T;"));
}

/// A declaration marked as already declared by another module is suppressed.
#[test]
fn already_declared_type_is_suppressed() {
    let mut o = plain_opaque("Shared");
    o.already_declared = true;
    let m = module(vec![TypeDeclaration::Opaque(o)], Vec::new());
    assert_eq!(m.generate_c_header_inner(&no_features()), "");
}

/// Generating twice from the same module gives byte-identical text.
#[test]
fn generation_is_reproducible() {
    let m = module(
        vec![
            enum_decl("Mode", vec![variant("On"), variant("Off")]),
            TypeDeclaration::Opaque(plain_opaque("Engine")),
        ],
        vec![rust_fn("start"), rust_fn("stop")],
    );
    let first = m.generate_c_header(&no_features());
    let second = m.generate_c_header(&no_features());
    assert_eq!(first, second);
    assert_eq!(m.generate_swift(&no_features()), m.generate_swift(&no_features()));
}

/// Option, string and vector references get their ABI spellings.
#[test]
fn option_string_and_vec_spellings() {
    let mut f = rust_fn("describe");
    f.params.push(Param {
        name: "flag".to_string(),
        ty: TypeRef::Opt(Box::new(TypeRef::Prim(Primitive::Bool))),
    });
    f.params.push(Param {
        name: "text".to_string(),
        ty: TypeRef::Str,
    });
    f.ret = Some(TypeRef::Vector(Box::new(TypeRef::Prim(Primitive::U8))));
    let m = module(Vec::new(), vec![f]);
    let header = m.generate_c_header_inner(&no_features());
    assert!(header.contains(
        "void* __swift_bridge__$describe(struct __private__OptionBool flag, void* text);"
    ));
}

/// Resolution fails exactly on undeclared names, and the error carries the
/// name.
#[test]
fn unresolved_name_is_reported() {
    let types = vec![TypeDeclaration::Opaque(plain_opaque("Known"))];
    match resolve(&TypeRef::Named("Known".to_string()), &types) {
        Ok(BridgedType::Opaque { is_copy, is_generic, .. }) => {
            assert!(!is_copy);
            assert!(!is_generic);
        }
        _ => panic!("a declared name must resolve to its opaque kind"),
    }
    assert_eq!(
        c_spelling(&TypeRef::Named("Known".to_string()), &types),
        "void*"
    );
    match resolve(
        &TypeRef::Opt(Box::new(TypeRef::Named("Mystery".to_string()))),
        &types,
    ) {
        Err(BridgeError::UnresolvedType(n)) => assert_eq!(n, "Mystery"),
        _ => panic!("an undeclared name must be rejected"),
    }
}

/// The registry answers once per name, however many modules consult it.
#[test]
fn registry_deduplicates_across_modules() {
    let mut reg = DeclarationRegistry::new();
    let name = "SharedStruct".to_string();
    let other = "Other".to_string();
    assert!(reg.should_emit(&name));
    assert!(reg.note_declared(&name));
    assert!(!reg.note_declared(&name));
    assert!(!reg.should_emit(&name));
    assert!(reg.should_emit(&other));
}

/// An owned-self method consumes the handle: the wrapper flips the ownership
/// flag off in the call itself, and the finalizer frees only when the flag
/// is still set.
#[test]
fn owned_self_method_clears_ownership_flag() {
    let m = Module {
        cfg_feature: None,
        types: vec![TypeDeclaration::Opaque(plain_opaque("Engine"))],
        functions: vec![FunctionDeclaration {
            name: "into_parts".to_string(),
            host_lang: HostLang::Rust,
            is_async: false,
            receiver: Some(MethodReceiver {
                ty_name: "Engine".to_string(),
                kind: ReceiverKind::Owned,
            }),
            params: Vec::new(),
            ret: None,
        }],
    };
    let swift = m.generate_swift(&no_features());
    assert!(swift.contains(
        "__swift_bridge__$Engine$into_parts({isOwned = false; return ptr;}())"
    ));
    assert!(swift.contains("deinit {\n        if isOwned {\n            __swift_bridge__$Engine$_free(ptr)\n        }\n    }"));
}
