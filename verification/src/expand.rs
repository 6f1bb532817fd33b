//! The transformation: decide the capability implementations the primary
//! struct receives, append its derive-style capability annotations, and emit
//! the structural description of the three generated implementation blocks.

use vstd::prelude::*;

use crate::model::{params_eq, struct_item, Attr, CapabilityDerive, Def, GenericParam, Item};

verus! {

/// The body shape of the generated metadata query.
///
/// Presence of the associated error declaration is the sole discriminant:
/// with one, the query forwards verbatim to the error declaration's own
/// metadata query; without one, it yields the fixed empty list.
#[derive(Debug, Clone, PartialEq, Eq)]
pub enum MetadataDispatch {
    /// Forward to the metadata query of the named error declaration,
    /// instantiated at the given use-position generics.
    ForwardToError { error_ident: String, error_use_generics: Vec<String> },
    /// No error declaration: the query yields the empty list.
    EmptyList,
}

/// The emitted output: one structural description from which the three
/// capability implementation blocks — error metadata, version reporting,
/// genesis initialization — are rendered. All three are qualified
/// identically: declared over `impl_generics`, instantiated at
/// `use_generics`, and gated by `where_clause`.
#[derive(Debug, Clone, PartialEq, Eq)]
pub struct PalletStructExpansion {
    /// Generic parameters in declaration position, bounds included.
    pub impl_generics: Vec<GenericParam>,
    /// Identifier of the primary struct the implementations attach to.
    pub self_ident: String,
    /// Generic parameters in use position: bare identifiers.
    pub use_generics: Vec<String>,
    /// The qualifying clause repeated on every implementation block.
    pub where_clause: Option<String>,
    /// External module path qualifying emitted support symbols.
    pub frame_support: String,
    /// External module path qualifying emitted system symbols.
    pub frame_system: String,
    /// Body shape of the metadata query.
    pub metadata: MetadataDispatch,
}

/// The one annotation the transformation appends: the derive-style attribute
/// carrying the four bound-free capability derives, qualified by the support
/// module path `fs`, in this fixed order.
pub open spec fn is_capability_derive_attr(a: Attr, fs: String) -> bool {
    &&& a matches Attr::CapabilityDerives { qualifier, derives }
    &&& qualifier == fs
    &&& derives@ == seq![
        CapabilityDerive::CloneNoBound,
        CapabilityDerive::EqNoBound,
        CapabilityDerive::PartialEqNoBound,
        CapabilityDerive::RuntimeDebugNoBound,
    ]
}

/// The metadata dispatch the model demands: forwarding to the error
/// declaration exactly when one is present, the empty list otherwise.
pub open spec fn metadata_dispatch_of(d: Def, m: MetadataDispatch) -> bool {
    match d.error {
        Some(e) => {
            &&& m matches MetadataDispatch::ForwardToError { error_ident, error_use_generics }
            &&& error_ident == e.error
            &&& error_use_generics@ == d.spec_use_generics()
        },
        None => m is EmptyList,
    }
}

/// The item at the primary-struct index carries exactly one more attribute
/// than before: its previous attributes in order, then the capability-derive
/// annotation qualified by `fs`. Identifier and everything else of the item
/// stay as they were.
pub open spec fn annotated(before: Item, after: Item, fs: String) -> bool {
    &&& struct_item(before) matches Some(s1)
    &&& struct_item(after) matches Some(s2)
    &&& s2.ident == s1.ident
    &&& s2.attrs@.len() == s1.attrs@.len() + 1
    &&& s2.attrs@.subrange(0, s1.attrs@.len() as int) == s1.attrs@
    &&& is_capability_derive_attr(s2.attrs@.last(), fs)
}

/// Transform the definition model: append the capability-derive annotation to
/// the primary struct — the single mutation — and return the structural
/// description of the three capability implementation blocks.
pub fn expand_pallet_struct(def: &mut Def) -> (out: PalletStructExpansion)
    requires
        old(def).wf(),
    ensures
        final(def).wf(),
        final(def).frame_support == old(def).frame_support,
        final(def).frame_system == old(def).frame_system,
        final(def).generics == old(def).generics,
        final(def).pallet_struct == old(def).pallet_struct,
        final(def).config == old(def).config,
        final(def).error == old(def).error,
        final(def).items@.len() == old(def).items@.len(),
        forall|i: int|
            0 <= i < old(def).items@.len() && i != old(def).pallet_struct.index as int
                ==> final(def).items@[i] == old(def).items@[i],
        annotated(
            old(def).items@[old(def).pallet_struct.index as int],
            final(def).items@[old(def).pallet_struct.index as int],
            old(def).frame_support,
        ),
        params_eq(out.impl_generics@, old(def).generics@),
        out.self_ident == old(def).pallet_struct.pallet,
        out.use_generics@ == old(def).spec_use_generics(),
        out.where_clause == old(def).config.where_clause,
        out.frame_support == old(def).frame_support,
        out.frame_system == old(def).frame_system,
        metadata_dispatch_of(*old(def), out.metadata),
{
    let ghost d0 = *def;

    // Read-only projections of the model, taken up front.
    let impl_generics = def.type_impl_generics();
    let use_generics = def.type_use_generics();
    let where_clause = def.config_where_clause();
    let self_ident = def.pallet_struct.pallet.clone();
    let frame_support = def.frame_support.clone();
    let frame_system = def.frame_system.clone();

    // The metadata query forwards to the error declaration exactly when the
    // model has one; otherwise it yields the empty list.
    let metadata = match &def.error {
        Some(e) => MetadataDispatch::ForwardToError {
            error_ident: e.error.clone(),
            error_use_generics: def.type_use_generics(),
        },
        None => MetadataDispatch::EmptyList,
    };

    // The single mutation: append the capability-derive annotation to the
    // primary struct, located by its stored index.
    let mut derives: Vec<CapabilityDerive> = Vec::new();
    derives.push(CapabilityDerive::CloneNoBound);
    derives.push(CapabilityDerive::EqNoBound);
    derives.push(CapabilityDerive::PartialEqNoBound);
    derives.push(CapabilityDerive::RuntimeDebugNoBound);
    let attr = Attr::CapabilityDerives { qualifier: def.frame_support.clone(), derives };
    proof {
        assert(attr->derives@ =~= seq![
            CapabilityDerive::CloneNoBound,
            CapabilityDerive::EqNoBound,
            CapabilityDerive::PartialEqNoBound,
            CapabilityDerive::RuntimeDebugNoBound,
        ]);
    }

    let idx = def.pallet_struct.index;
    let taken = def.items.remove(idx);
    match taken {
        Item::Struct(mut s) => {
            let ghost s0 = s;
            s.attrs.push(attr);
            let ghost s1 = s;
            def.items.insert(idx, Item::Struct(s));
            proof {
                assert(Item::Struct(s0) == d0.items@[idx as int]);
                assert(s1.attrs@ == s0.attrs@.push(attr));
                assert(def.items@[idx as int] == Item::Struct(s1));
                assert(s1.attrs@.subrange(0, s0.attrs@.len() as int) =~= s0.attrs@);
                assert(s1.attrs@.last() == attr);
            }
        },
        Item::Verbatim(_) => {
            // The model invariant pins a struct at the stored index.
            proof {
                assert(false);
            }
        },
    }
    proof {
        assert(def.items@ =~= d0.items@.update(idx as int, def.items@[idx as int]));
    }

    PalletStructExpansion {
        impl_generics,
        self_ident,
        use_generics,
        where_clause,
        frame_support,
        frame_system,
        metadata,
    }
}

} // verus!
