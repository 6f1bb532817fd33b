//! The definition model: the parsed, structurally validated description of one
//! pallet module, as the upstream parser hands it to the transformation.
//!
//! The model carries plain values only: identifiers and syntactic fragments are
//! strings, the module's top-level items form an ordered sequence, and the
//! primary struct is addressed by its stored index into that sequence.

use vstd::prelude::*;

verus! {

/// One generic parameter of the primary struct: its identifier together with
/// the bounds it carries in declaration position (each bound one fragment).
#[derive(Debug, Clone, PartialEq, Eq)]
pub struct GenericParam {
    pub ident: String,
    pub bounds: Vec<String>,
}

/// The four bound-free capability derives appended to the primary struct.
/// Each is the bound-aware variant of the corresponding structural derive:
/// it does not require the struct's generic parameters to satisfy the
/// derived capability themselves.
#[derive(Debug, Clone, Copy, PartialEq, Eq, Structural)]
pub enum CapabilityDerive {
    CloneNoBound,
    EqNoBound,
    PartialEqNoBound,
    RuntimeDebugNoBound,
}

/// An attribute attached to a parsed item.
#[derive(Debug, Clone, PartialEq, Eq)]
pub enum Attr {
    /// The derive-style capability annotation this transformation appends.
    /// `qualifier` is the external module path under which the derive names
    /// are resolved.
    CapabilityDerives { qualifier: String, derives: Vec<CapabilityDerive> },
    /// An attribute already present on the item, carried through untouched.
    Plain(String),
}

/// The primary struct declaration: the one item the transformation targets.
#[derive(Debug, Clone, PartialEq, Eq)]
pub struct ItemStruct {
    pub ident: String,
    pub attrs: Vec<Attr>,
}

/// A top-level item of the module. Only the primary struct is ever looked
/// into; every other item is carried through verbatim.
#[derive(Debug, Clone, PartialEq, Eq)]
pub enum Item {
    Struct(ItemStruct),
    Verbatim(String),
}

/// Where the primary struct lives: its identifier and its stored position
/// within the module's item sequence.
#[derive(Debug, Clone, PartialEq, Eq)]
pub struct PalletStructDef {
    pub index: usize,
    pub pallet: String,
}

/// The optional associated error declaration: the identifier of a separately
/// declared item whose metadata query the generated code forwards to.
#[derive(Debug, Clone, PartialEq, Eq)]
pub struct ErrorDef {
    pub error: String,
}

/// The configuration fragment of the model that the transformation reads:
/// the optional qualifying clause repeated on every generated implementation.
#[derive(Debug, Clone, PartialEq, Eq)]
pub struct ConfigDef {
    pub where_clause: Option<String>,
}

/// The definition model of one pallet module.
#[derive(Debug, Clone, PartialEq, Eq)]
pub struct Def {
    /// External module path used to qualify emitted support symbols.
    pub frame_support: String,
    /// External module path used to qualify emitted system symbols.
    pub frame_system: String,
    /// Generic parameter declarations of the primary struct.
    pub generics: Vec<GenericParam>,
    /// The module's top-level items, in source order.
    pub items: Vec<Item>,
    /// Locator for the primary struct.
    pub pallet_struct: PalletStructDef,
    /// Configuration fragment: the qualifying clause.
    pub config: ConfigDef,
    /// The associated error declaration, if the module has one.
    pub error: Option<ErrorDef>,
}

/// The struct payload of an item, if the item is struct-shaped.
pub open spec fn struct_item(it: Item) -> Option<ItemStruct> {
    match it {
        Item::Struct(s) => Some(s),
        Item::Verbatim(_) => None,
    }
}

/// Two generic parameters agree as values: same identifier, same bounds.
pub open spec fn param_eq(a: GenericParam, b: GenericParam) -> bool {
    &&& a.ident == b.ident
    &&& a.bounds@ == b.bounds@
}

/// Two parameter sequences agree pointwise.
pub open spec fn params_eq(a: Seq<GenericParam>, b: Seq<GenericParam>) -> bool {
    &&& a.len() == b.len()
    &&& forall|i: int| 0 <= i < a.len() ==> param_eq(a[i], b[i])
}

impl Def {
    /// The structural invariant the upstream parser guarantees: the stored
    /// index addresses an item of the sequence, and that item is a struct.
    pub open spec fn wf(self) -> bool {
        &&& self.pallet_struct.index < self.items@.len()
        &&& self.items@[self.pallet_struct.index as int] is Struct
    }

    /// The use-position projection of the generic parameters: the ordered
    /// identifiers, stripped of their bounds.
    pub open spec fn spec_use_generics(self) -> Seq<String> {
        Seq::new(self.generics@.len(), |i: int| self.generics@[i].ident)
    }

    /// Generic parameters as they must appear when declaring a generated
    /// implementation: identifiers with their bound syntax, in order.
    pub fn type_impl_generics(&self) -> (r: Vec<GenericParam>)
        ensures
            params_eq(r@, self.generics@),
    {
        let mut r: Vec<GenericParam> = Vec::new();
        let mut i: usize = 0;
        while i < self.generics.len()
            invariant
                i <= self.generics@.len(),
                r@.len() == i,
                forall|j: int| 0 <= j < i ==> param_eq(r@[j], self.generics@[j]),
            decreases self.generics@.len() - i,
        {
            let p = &self.generics[i];
            r.push(GenericParam { ident: p.ident.clone(), bounds: copy_strings(&p.bounds) });
            i = i + 1;
        }
        r
    }

    /// Generic parameters as they must appear when instantiating the struct:
    /// the bare identifiers, in order.
    pub fn type_use_generics(&self) -> (r: Vec<String>)
        ensures
            r@ == self.spec_use_generics(),
    {
        let mut r: Vec<String> = Vec::new();
        let mut i: usize = 0;
        while i < self.generics.len()
            invariant
                i <= self.generics@.len(),
                r@.len() == i,
                forall|j: int| 0 <= j < i ==> r@[j] == self.generics@[j].ident,
            decreases self.generics@.len() - i,
        {
            r.push(self.generics[i].ident.clone());
            i = i + 1;
        }
        proof {
            assert(r@ =~= self.spec_use_generics());
        }
        r
    }

    /// The qualifying clause that every generated implementation must repeat,
    /// empty when the primary struct carries none.
    pub fn config_where_clause(&self) -> (r: Option<String>)
        ensures
            r == self.config.where_clause,
    {
        match &self.config.where_clause {
            Some(w) => Some(w.clone()),
            None => None,
        }
    }
}

/// A fresh vector holding the same strings, element for element.
fn copy_strings(v: &Vec<String>) -> (r: Vec<String>)
    ensures
        r@ == v@,
{
    let mut r: Vec<String> = Vec::new();
    let mut i: usize = 0;
    while i < v.len()
        invariant
            i <= v@.len(),
            r@.len() == i,
            forall|j: int| 0 <= j < i ==> r@[j] == v@[j],
        decreases v@.len() - i,
    {
        r.push(v[i].clone());
        i = i + 1;
    }
    proof {
        assert(r@ =~= v@);
    }
    r
}

} // verus!
