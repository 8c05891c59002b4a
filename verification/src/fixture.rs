//! The method-placement scenario: what each generated artifact is expected
//! to hold for a module declaring one opaque type with methods of every
//! receiver kind (owned self on the owning class, borrowed self on the
//! read-only-borrow class, mutably borrowed self on the mutable-borrow
//! class).  The test suite drives the generators with this module and holds
//! their output to these expectations.

use vstd::prelude::*;
use vstd::string::StringExecFns;

verus! {

/// What the generated Rust glue is expected to hold.
pub enum ExpectedRustTokens {
    Contains(String),
    SkipTest,
}

/// What the generated Swift wrapper is expected to hold.
pub enum ExpectedSwiftCode {
    ContainsAfterTrim(String),
    SkipTest,
}

/// What the generated C header is expected to hold.
pub enum ExpectedCHeader {
    ContainsAfterTrim(String),
    SkipTest,
}

/// The wrapper text the placement scenario expects, verbatim.
pub open spec fn placement_swift_text() -> Seq<char> {
    r#"
internal class SomeType: SomeTypeRefMut {
    var isOwned: Bool = true

    internal override init(ptr: UnsafeMutableRawPointer) {
        super.init(ptr: ptr)
    }

    deinit {
        if isOwned {
            __swift_bridge__$SomeType$_free(ptr)
        }
    }
}
extension SomeType {
    internal func a() {
        __swift_bridge__$SomeType$a({isOwned = false; return ptr;}())
    }

    internal func b() {
        __swift_bridge__$SomeType$b({isOwned = false; return ptr;}())
    }
}
internal class SomeTypeRefMut: SomeTypeRef {
    internal override init(ptr: UnsafeMutableRawPointer) {
        super.init(ptr: ptr)
    }
}
extension SomeTypeRefMut {
    internal func e() {
        __swift_bridge__$SomeType$e(ptr)
    }

    internal func f() {
        __swift_bridge__$SomeType$f(ptr)
    }
}
internal class SomeTypeRef {
    var ptr: UnsafeMutableRawPointer

    internal init(ptr: UnsafeMutableRawPointer) {
        self.ptr = ptr
    }
}
extension SomeTypeRef {
    internal func c() {
        __swift_bridge__$SomeType$c(ptr)
    }

    internal func d() {
        __swift_bridge__$SomeType$d(ptr)
    }
}
"#@
}

/// The scenario makes no demand on the generated Rust glue.
pub fn expected_rust_tokens() -> (r: ExpectedRustTokens)
    ensures
        r is SkipTest,
{
    ExpectedRustTokens::SkipTest
}

/// The scenario expects the wrapper source to hold the full class triple,
/// with each method on the class its receiver calls for.
pub fn expected_swift_code() -> (r: ExpectedSwiftCode)
    ensures
        r matches ExpectedSwiftCode::ContainsAfterTrim(s) && s@ == placement_swift_text(),
{
    let s = String::from_str(
        r#"
internal class SomeType: SomeTypeRefMut {
    var isOwned: Bool = true

    internal override init(ptr: UnsafeMutableRawPointer) {
        super.init(ptr: ptr)
    }

    deinit {
        if isOwned {
            __swift_bridge__$SomeType$_free(ptr)
        }
    }
}
extension SomeType {
    internal func a() {
        __swift_bridge__$SomeType$a({isOwned = false; return ptr;}())
    }

    internal func b() {
        __swift_bridge__$SomeType$b({isOwned = false; return ptr;}())
    }
}
internal class SomeTypeRefMut: SomeTypeRef {
    internal override init(ptr: UnsafeMutableRawPointer) {
        super.init(ptr: ptr)
    }
}
extension SomeTypeRefMut {
    internal func e() {
        __swift_bridge__$SomeType$e(ptr)
    }

    internal func f() {
        __swift_bridge__$SomeType$f(ptr)
    }
}
internal class SomeTypeRef {
    var ptr: UnsafeMutableRawPointer

    internal init(ptr: UnsafeMutableRawPointer) {
        self.ptr = ptr
    }
}
extension SomeTypeRef {
    internal func c() {
        __swift_bridge__$SomeType$c(ptr)
    }

    internal func d() {
        __swift_bridge__$SomeType$d(ptr)
    }
}
"#,
    );
    ExpectedSwiftCode::ContainsAfterTrim(s)
}

/// The scenario makes no demand on the generated C header.
pub fn expected_c_header() -> (r: ExpectedCHeader)
    ensures
        r is SkipTest,
{
    ExpectedCHeader::SkipTest
}

} // verus!
