//! Header generation, checked against concrete modules.

use swift_bridge_ir::header::{notice_line, vec_opaque_rust_type_c_support};
use swift_bridge_ir::model::{
    CodegenConfig, FunctionDeclaration, HostLang, MethodReceiver, Module, OpaqueType, Param,
    Primitive, ReceiverKind, TypeDeclaration, TypeRef,
};

fn opaque_type(name: &str, host_lang: HostLang) -> TypeDeclaration {
    TypeDeclaration::Opaque(OpaqueType {
        name: name.to_string(),
        host_lang,
        already_declared: false,
        declare_generic: false,
        copy: None,
        hashable: false,
        equatable: false,
        generics: Vec::new(),
    })
}

fn freestanding_fn(name: &str, host_lang: HostLang) -> FunctionDeclaration {
    FunctionDeclaration {
        name: name.to_string(),
        host_lang,
        is_async: false,
        receiver: None,
        params: Vec::new(),
        ret: None,
    }
}

fn method(name: &str, ty: &str, kind: ReceiverKind) -> FunctionDeclaration {
    FunctionDeclaration {
        name: name.to_string(),
        host_lang: HostLang::Rust,
        is_async: false,
        receiver: Some(MethodReceiver {
            ty_name: ty.to_string(),
            kind,
        }),
        params: Vec::new(),
        ret: None,
    }
}

fn module(types: Vec<TypeDeclaration>, functions: Vec<FunctionDeclaration>) -> Module {
    Module {
        cfg_feature: None,
        types,
        functions,
    }
}

fn no_features() -> CodegenConfig {
    CodegenConfig::no_features_enabled()
}

/// Verify that we generate an empty header file for an empty module.
#[test]
fn generates_empty_header_for_empty_section() {
    let m = module(Vec::new(), Vec::new());

    let header = m.generate_c_header(&no_features());
    assert_eq!(header.trim(), notice_line())
}

/// Verify that we do not generate any headers for Swift-implemented items
/// since Rust does not need any C headers.
#[test]
fn ignores_extern_swift() {
    let m = module(
        vec![opaque_type("Foo", HostLang::Swift)],
        vec![freestanding_fn("bar", HostLang::Swift)],
    );

    let header = m.generate_c_header(&no_features());
    assert_eq!(header.trim(), notice_line())
}

/// Verify that we generate a type definition for a freestanding function that
/// has no args.
#[test]
fn freestanding_function_no_args() {
    let m = module(Vec::new(), vec![freestanding_fn("foo", HostLang::Rust)]);
    let expected = r#"
void __swift_bridge__$foo(void);
        "#;

    assert_eq!(
        m.generate_c_header_inner(&no_features()).trim(),
        expected.trim()
    );
}

/// Verify that we generate a type definition for a freestanding function that
/// has one arg.
#[test]
fn freestanding_function_one_args() {
    let mut f = freestanding_fn("foo", HostLang::Rust);
    f.params.push(Param {
        name: "arg1".to_string(),
        ty: TypeRef::Prim(Primitive::U8),
    });
    let m = module(Vec::new(), vec![f]);
    let expected = "\n#include <stdint.h>\nvoid __swift_bridge__$foo(uint8_t arg1);\n        ";

    assert_eq!(
        m.generate_c_header_inner(&no_features()).trim(),
        expected.trim()
    );
}

/// Verify that we generate a type definition for a freestanding function that
/// returns a value.
#[test]
fn freestanding_function_with_return() {
    let mut f = freestanding_fn("foo", HostLang::Rust);
    f.ret = Some(TypeRef::Prim(Primitive::U8));
    let m = module(Vec::new(), vec![f]);
    let expected = "\n#include <stdint.h>\nuint8_t __swift_bridge__$foo(void);\n        ";

    assert_eq!(
        m.generate_c_header_inner(&no_features()).trim(),
        expected.trim()
    );
}

/// Verify that we include the vector functions in the generated C header for
/// a Rust type.
#[test]
fn type_definition_includes_vec_functions() {
    let m = module(vec![opaque_type("SomeType", HostLang::Rust)], Vec::new());
    let expected = format!(
        r#"
typedef struct SomeType SomeType;
void __swift_bridge__$SomeType$_free(void* self);
{}
"#,
        vec_opaque_rust_type_c_support("SomeType")
    );

    assert_eq!(
        m.generate_c_header_inner(&no_features()).trim(),
        expected.trim()
    );
}

/// Verify that we generate a type definition for a method with no arguments.
#[test]
fn method_no_args() {
    let m = module(
        vec![opaque_type("SomeType", HostLang::Rust)],
        vec![
            method("a", "SomeType", ReceiverKind::Owned),
            method("b", "SomeType", ReceiverKind::Owned),
            method("c", "SomeType", ReceiverKind::RefShared),
            method("d", "SomeType", ReceiverKind::RefShared),
            method("e", "SomeType", ReceiverKind::RefMut),
            method("f", "SomeType", ReceiverKind::RefMut),
        ],
    );
    let expected = r#"
void __swift_bridge__$SomeType$a(void* self);
void __swift_bridge__$SomeType$b(void* self);
void __swift_bridge__$SomeType$c(void* self);
void __swift_bridge__$SomeType$d(void* self);
void __swift_bridge__$SomeType$e(void* self);
void __swift_bridge__$SomeType$f(void* self);
        "#;

    let generated = m.generate_c_header_inner(&no_features());
    assert!(generated.trim().contains(expected.trim()));
}

/// Verify that we generate a type definition for a method with one argument.
#[test]
fn method_one_arg() {
    let mut f = method("foo", "SomeType", ReceiverKind::RefShared);
    f.params.push(Param {
        name: "val".to_string(),
        ty: TypeRef::Prim(Primitive::U8),
    });
    let m = module(vec![opaque_type("SomeType", HostLang::Rust)], vec![f]);
    let expected = format!(
        r#"
#include <stdint.h>
typedef struct SomeType SomeType;
void __swift_bridge__$SomeType$_free(void* self);
{}
void __swift_bridge__$SomeType$foo(void* self, uint8_t val);
        "#,
        vec_opaque_rust_type_c_support("SomeType")
    );

    assert_eq!(
        m.generate_c_header_inner(&no_features()).trim(),
        expected.trim()
    );
}

/// Verify that we generate a type definition for a method with an opaque
/// argument.
#[test]
fn method_one_opaque_arg() {
    let mut f = method("foo", "SomeType", ReceiverKind::RefShared);
    f.params.push(Param {
        name: "val".to_string(),
        ty: TypeRef::Named("SomeType".to_string()),
    });
    let m = module(vec![opaque_type("SomeType", HostLang::Rust)], vec![f]);
    let expected = format!(
        r#"
typedef struct SomeType SomeType;
void __swift_bridge__$SomeType$_free(void* self);
{}
void __swift_bridge__$SomeType$foo(void* self, void* val);
        "#,
        vec_opaque_rust_type_c_support("SomeType")
    );

    assert_eq!(
        m.generate_c_header_inner(&no_features()).trim(),
        expected.trim()
    );
}

/// Verify that we generate a type definition for a method that has a return
/// type.
#[test]
fn method_with_return() {
    let mut f = method("foo", "SomeType", ReceiverKind::RefShared);
    f.ret = Some(TypeRef::Prim(Primitive::U8));
    let m = module(vec![opaque_type("SomeType", HostLang::Rust)], vec![f]);
    let expected = format!(
        r#"
#include <stdint.h>
typedef struct SomeType SomeType;
void __swift_bridge__$SomeType$_free(void* self);
{}
uint8_t __swift_bridge__$SomeType$foo(void* self);
        "#,
        vec_opaque_rust_type_c_support("SomeType")
    );

    assert_eq!(
        m.generate_c_header_inner(&no_features()).trim(),
        expected.trim()
    );
}

/// Verify that we define a slice struct if we return a slice of type T.
/// We make sure to only define one instance even if there are multiple
/// functions that need it.
#[test]
fn slice_return() {
    let mut foo = freestanding_fn("foo", HostLang::Rust);
    foo.ret = Some(TypeRef::Slice(Box::new(TypeRef::Prim(Primitive::U8))));
    let mut bar = freestanding_fn("bar", HostLang::Rust);
    bar.ret = Some(TypeRef::Slice(Box::new(TypeRef::Prim(Primitive::U8))));
    let m = module(Vec::new(), vec![foo, bar]);
    let expected = r#"
#include <stdint.h>
typedef struct FfiSlice_uint8_t { uint8_t* start; uintptr_t len; } FfiSlice_uint8_t;
struct __private__FfiSlice __swift_bridge__$foo(void);
struct __private__FfiSlice __swift_bridge__$bar(void);
        "#;

    assert_eq!(
        m.generate_c_header_inner(&no_features()).trim(),
        expected.trim()
    );
}

/// Verify that we generate a proper header for a Rust function that returns
/// an owned Swift-implemented opaque type.
#[test]
fn extern_rust_fn_returns_extern_swift_owned_opaque_type() {
    let mut f = freestanding_fn("some_function", HostLang::Rust);
    f.ret = Some(TypeRef::Named("Foo".to_string()));
    let m = module(vec![opaque_type("Foo", HostLang::Swift)], vec![f]);
    let expected = r#"
void* __swift_bridge__$some_function(void);
        "#;

    assert_eq!(
        m.generate_c_header_inner(&no_features()).trim(),
        expected.trim()
    );
}
