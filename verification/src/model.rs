//! The bridge module description: the unit of compilation.
//!
//! A [`Module`] owns an ordered list of type declarations and an ordered list
//! of function declarations.  It is assumed validated: every type reference
//! in a signature or a field resolves against the declarations table (the
//! front-end that builds it has already rejected anything else).

use vstd::prelude::*;

verus! {

/// Concatenation of character sequences associates; letting the solver
/// rewrite with this keeps the emitted-text equalities cheap.
pub broadcast proof fn lemma_add_assoc(a: Seq<char>, b: Seq<char>, c: Seq<char>)
    ensures
        #[trigger] ((a + b) + c) == a + (b + c),
{
    assert((a + b) + c =~= a + (b + c));
}

/// Which language implements a declared item.
#[derive(Clone, Copy, PartialEq, Eq, Structural, Debug)]
pub enum HostLang {
    Rust,
    Swift,
}

impl HostLang {
    pub open spec fn spec_is_swift(&self) -> bool {
        *self == HostLang::Swift
    }

    /// True when the item is implemented on the Swift side.
    #[verifier::when_used_as_spec(spec_is_swift)]
    pub fn is_swift(&self) -> (r: bool)
        ensures
            r == self.spec_is_swift(),
    {
        matches!(self, HostLang::Swift)
    }
}

/// A fixed-width scalar that both sides represent identically.
#[derive(Clone, Copy, PartialEq, Eq, Structural, Debug)]
pub enum Primitive {
    U8,
    I8,
    U16,
    I16,
    U32,
    I32,
    U64,
    I64,
    Usize,
    Isize,
    Bool,
    F32,
    F64,
}

/// A type as it appears in a function signature or a struct field: either a
/// built-in form or a reference, by name, to a declared type.
pub enum TypeRef {
    /// A fixed-width scalar.
    Prim(Primitive),
    /// A string crossing the boundary (an owned handle on the ABI).
    Str,
    /// A reference to a declared opaque type, shared struct or shared enum.
    Named(String),
    /// An optional value of the inner type.
    Opt(Box<TypeRef>),
    /// A borrowed slice of the inner type.
    Slice(Box<TypeRef>),
    /// An owned, growable vector of the inner type.
    Vector(Box<TypeRef>),
    /// A fallible value: the first type on success, the second on failure.
    Res(Box<TypeRef>, Box<TypeRef>),
    /// A boxed callback taking scalar parameters and returning at most one
    /// scalar; passed across the boundary as an opaque pointer.
    Callback(Vec<Primitive>, Option<Primitive>),
}

/// Marks an opaque type as passed by value: a fixed-size byte array instead
/// of a pointer, with no ownership or drop semantics.
pub struct CopyAttr {
    pub size_bytes: u64,
}

/// A boundary-crossing handle type whose real layout stays hidden.
pub struct OpaqueType {
    pub name: String,
    pub host_lang: HostLang,
    /// The type already had its ABI declarations emitted by another module
    /// compiled together with this one; suppress re-emission.
    pub already_declared: bool,
    /// A generic instance whose header declarations are emitted elsewhere.
    pub declare_generic: bool,
    /// Present when the type is passed by value as fixed-size bytes.
    pub copy: Option<CopyAttr>,
    pub hashable: bool,
    pub equatable: bool,
    /// Ordered type parameters of a generic opaque type; empty otherwise.
    pub generics: Vec<String>,
}

/// A named field of a shared struct.
pub struct NamedField {
    pub name: String,
    pub ty: TypeRef,
}

/// A positional field of a shared struct.
pub struct UnnamedField {
    pub ty: TypeRef,
}

/// The field list of a shared struct.
pub enum StructFields {
    Named(Vec<NamedField>),
    Unnamed(Vec<UnnamedField>),
    Unit,
}

impl StructFields {
    pub open spec fn spec_is_empty(&self) -> bool {
        match self {
            StructFields::Named(fs) => fs@.len() == 0,
            StructFields::Unnamed(fs) => fs@.len() == 0,
            StructFields::Unit => true,
        }
    }

    /// True when the struct declares no fields at all.
    #[verifier::when_used_as_spec(spec_is_empty)]
    pub fn is_empty(&self) -> (r: bool)
        ensures
            r == self.spec_is_empty(),
    {
        match self {
            StructFields::Named(fs) => fs.len() == 0,
            StructFields::Unnamed(fs) => fs.len() == 0,
            StructFields::Unit => true,
        }
    }
}

/// A struct whose full layout is mirrored on both sides of the boundary.
pub struct SharedStruct {
    pub name: String,
    pub already_declared: bool,
    pub fields: StructFields,
}

/// One variant of a shared enum, with its associated field types.
pub struct EnumVariant {
    pub name: String,
    pub fields: Vec<TypeRef>,
}

/// An enum whose full layout is mirrored on both sides of the boundary.
pub struct SharedEnum {
    pub name: String,
    pub already_declared: bool,
    pub variants: Vec<EnumVariant>,
}

impl SharedEnum {
    /// A transparent enum carries no data in any variant and is representable
    /// purely as a scalar tag.
    pub open spec fn spec_has_data(&self) -> bool {
        exists|i: int| 0 <= i < self.variants@.len() && self.variants@[i].fields@.len() > 0
    }

    /// True when at least one variant carries associated data.
    #[verifier::when_used_as_spec(spec_has_data)]
    pub fn has_one_or_more_variants_with_data(&self) -> (r: bool)
        ensures
            r == self.spec_has_data(),
    {
        let mut i: usize = 0;
        while i < self.variants.len()
            invariant
                0 <= i <= self.variants@.len(),
                forall|j: int| 0 <= j < i ==> self.variants@[j].fields@.len() == 0,
            decreases self.variants@.len() - i,
        {
            if self.variants[i].fields.len() > 0 {
                return true;
            }
            i = i + 1;
        }
        false
    }
}

/// A type declaration owned by a module: either a shared (mirrored-layout)
/// type or an opaque handle type.
pub enum SharedTypeDeclaration {
    Struct(SharedStruct),
    Enum(SharedEnum),
}

pub enum TypeDeclaration {
    Shared(SharedTypeDeclaration),
    Opaque(OpaqueType),
}

/// The canonical name under which a declaration is registered.
pub open spec fn decl_name(d: TypeDeclaration) -> Seq<char> {
    match d {
        TypeDeclaration::Shared(SharedTypeDeclaration::Struct(s)) => s.name@,
        TypeDeclaration::Shared(SharedTypeDeclaration::Enum(e)) => e.name@,
        TypeDeclaration::Opaque(o) => o.name@,
    }
}

/// The first declaration registered under `name`, if any.
pub open spec fn spec_find_decl(types: Seq<TypeDeclaration>, name: Seq<char>) -> Option<
    TypeDeclaration,
>
    decreases types.len(),
{
    if types.len() == 0 {
        None
    } else if decl_name(types[0]) == name {
        Some(types[0])
    } else {
        spec_find_decl(types.drop_first(), name)
    }
}

/// How a method takes its receiver, driving ownership transfer and wrapper
/// class placement.
#[derive(Clone, Copy, PartialEq, Eq, Structural, Debug)]
pub enum ReceiverKind {
    /// `self`: the call consumes the handle.
    Owned,
    /// `&self`: a read-only borrow.
    RefShared,
    /// `&mut self`: an exclusive borrow.
    RefMut,
}

/// The receiver of a method attached to an opaque type.
pub struct MethodReceiver {
    pub ty_name: String,
    pub kind: ReceiverKind,
}

/// A named parameter of a boundary-crossing function.
pub struct Param {
    pub name: String,
    pub ty: TypeRef,
}

/// A function or method declared to cross the boundary.
pub struct FunctionDeclaration {
    pub name: String,
    pub host_lang: HostLang,
    /// An asynchronous function delivers its result through a caller-supplied
    /// trampoline instead of its own return value.
    pub is_async: bool,
    /// Present when the function is a method of an opaque type.
    pub receiver: Option<MethodReceiver>,
    pub params: Vec<Param>,
    pub ret: Option<TypeRef>,
}

/// Feature flags controlling which modules are compiled for the current
/// target.
pub struct CodegenConfig {
    pub enabled_features: Vec<String>,
}

impl CodegenConfig {
    /// A configuration with every feature switched off.
    pub fn no_features_enabled() -> (r: CodegenConfig)
        ensures
            r.enabled_features@.len() == 0,
    {
        CodegenConfig { enabled_features: Vec::new() }
    }
}

/// The unit of compilation: ordered type declarations and ordered function
/// declarations, plus the feature gate under which the module compiles.
pub struct Module {
    /// When present, the module is compiled only if the named feature is
    /// enabled in the configuration.
    pub cfg_feature: Option<String>,
    pub types: Vec<TypeDeclaration>,
    pub functions: Vec<FunctionDeclaration>,
}

/// True when the sequence of strings holds one whose characters are `s`.
pub open spec fn seq_has_string(v: Seq<String>, s: Seq<char>) -> bool {
    exists|j: int| 0 <= j < v.len() && v[j]@ == s
}

/// True when `v` holds a string equal to `s`.
pub fn contains_string(v: &Vec<String>, s: &String) -> (r: bool)
    ensures
        r == seq_has_string(v@, s@),
{
    let mut i: usize = 0;
    while i < v.len()
        invariant
            0 <= i <= v@.len(),
            forall|j: int| 0 <= j < i ==> v@[j]@ != s@,
        decreases v@.len() - i,
    {
        if v[i].eq(s) {
            return true;
        }
        i = i + 1;
    }
    false
}

impl Module {
    pub open spec fn spec_will_be_compiled(&self, config: &CodegenConfig) -> bool {
        match self.cfg_feature {
            None => true,
            Some(f) => seq_has_string(config.enabled_features@, f@),
        }
    }

    /// True when the feature gate, if any, is enabled in `config`.
    #[verifier::when_used_as_spec(spec_will_be_compiled)]
    pub fn module_will_be_compiled(&self, config: &CodegenConfig) -> (r: bool)
        ensures
            r == self.spec_will_be_compiled(config),
    {
        match &self.cfg_feature {
            None => true,
            Some(f) => contains_string(&config.enabled_features, f),
        }
    }
}

} // verus!
