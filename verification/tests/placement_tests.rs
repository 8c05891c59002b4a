//! Verify that methods get added to the proper Swift class.
//!
//! owned self  -> SomeType
//! borrowed    -> SomeTypeRef
//! mut borrow  -> SomeTypeRefMut

use swift_bridge_ir::fixture::{
    expected_c_header, expected_rust_tokens, expected_swift_code, ExpectedCHeader,
    ExpectedRustTokens, ExpectedSwiftCode,
};
use swift_bridge_ir::model::{
    CodegenConfig, FunctionDeclaration, HostLang, MethodReceiver, Module, OpaqueType,
    ReceiverKind, TypeDeclaration,
};

fn method(name: &str, kind: ReceiverKind) -> FunctionDeclaration {
    FunctionDeclaration {
        name: name.to_string(),
        host_lang: HostLang::Rust,
        is_async: false,
        receiver: Some(MethodReceiver {
            ty_name: "SomeType".to_string(),
            kind,
        }),
        params: Vec::new(),
        ret: None,
    }
}

fn bridge_module() -> Module {
    Module {
        cfg_feature: None,
        types: vec![TypeDeclaration::Opaque(OpaqueType {
            name: "SomeType".to_string(),
            host_lang: HostLang::Rust,
            already_declared: false,
            declare_generic: false,
            copy: None,
            hashable: false,
            equatable: false,
            generics: Vec::new(),
        })],
        functions: vec![
            method("a", ReceiverKind::Owned),
            method("b", ReceiverKind::Owned),
            method("c", ReceiverKind::RefShared),
            method("d", ReceiverKind::RefShared),
            method("e", ReceiverKind::RefMut),
            method("f", ReceiverKind::RefMut),
        ],
    }
}

#[test]
fn extern_rust_fn_return_option_string() {
    let m = bridge_module();
    let config = CodegenConfig::no_features_enabled();

    match expected_rust_tokens() {
        ExpectedRustTokens::Contains(_) => {
            panic!("the placement scenario makes no demand on the Rust glue")
        }
        ExpectedRustTokens::SkipTest => {}
    }

    match expected_swift_code() {
        ExpectedSwiftCode::ContainsAfterTrim(expected) => {
            let generated = m.generate_swift(&config);
            assert!(
                generated.trim().contains(expected.trim()),
                "generated Swift wrapper:\n{}\nexpected to contain:\n{}",
                generated,
                expected
            );
        }
        ExpectedSwiftCode::SkipTest => {}
    }

    match expected_c_header() {
        ExpectedCHeader::ContainsAfterTrim(expected) => {
            let generated = m.generate_c_header_inner(&config);
            assert!(generated.trim().contains(expected.trim()));
        }
        ExpectedCHeader::SkipTest => {}
    }
}
