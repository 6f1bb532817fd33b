use pallet_expand::expand::{expand_pallet_struct, MetadataDispatch};
use pallet_expand::model::{
    Attr, CapabilityDerive, ConfigDef, Def, ErrorDef, GenericParam, Item, ItemStruct,
    PalletStructDef,
};

fn sample_def(with_error: bool) -> Def {
    Def {
        frame_support: String::from("frame_support"),
        frame_system: String::from("frame_system"),
        generics: vec![GenericParam {
            ident: String::from("T"),
            bounds: vec![String::from("Config")],
        }],
        items: vec![
            Item::Verbatim(String::from("type Alias = u32;")),
            Item::Struct(ItemStruct {
                ident: String::from("Pallet"),
                attrs: vec![Attr::Plain(String::from("cfg_attr_existing"))],
            }),
            Item::Verbatim(String::from("fn helper() {}")),
        ],
        pallet_struct: PalletStructDef {
            index: 1,
            pallet: String::from("Pallet"),
        },
        config: ConfigDef { where_clause: None },
        error: if with_error {
            Some(ErrorDef {
                error: String::from("Error"),
            })
        } else {
            None
        },
    }
}

fn capability_attr() -> Attr {
    Attr::CapabilityDerives {
        qualifier: String::from("frame_support"),
        derives: vec![
            CapabilityDerive::CloneNoBound,
            CapabilityDerive::EqNoBound,
            CapabilityDerive::PartialEqNoBound,
            CapabilityDerive::RuntimeDebugNoBound,
        ],
    }
}

#[test]
fn appends_exactly_one_annotation_set_and_touches_nothing_else() {
    let mut def = sample_def(false);
    let untouched_before = (def.items[0].clone(), def.items[2].clone());
    let out = expand_pallet_struct(&mut def);

    assert_eq!(def.items.len(), 3);
    assert_eq!(def.items[0], untouched_before.0);
    assert_eq!(def.items[2], untouched_before.1);
    match &def.items[1] {
        Item::Struct(s) => {
            assert_eq!(s.ident, "Pallet");
            assert_eq!(s.attrs.len(), 2);
            assert_eq!(s.attrs[0], Attr::Plain(String::from("cfg_attr_existing")));
            assert_eq!(s.attrs[1], capability_attr());
        }
        other => panic!("primary item is no longer a struct: {:?}", other),
    }
    assert_eq!(out.self_ident, "Pallet");
    assert_eq!(out.frame_support, "frame_support");
    assert_eq!(out.frame_system, "frame_system");
}

#[test]
fn no_error_declaration_yields_empty_metadata() {
    let mut def = sample_def(false);
    let out = expand_pallet_struct(&mut def);
    assert_eq!(out.metadata, MetadataDispatch::EmptyList);
}

#[test]
fn error_declaration_yields_forwarding_metadata() {
    let mut def = sample_def(true);
    let out = expand_pallet_struct(&mut def);
    assert_eq!(
        out.metadata,
        MetadataDispatch::ForwardToError {
            error_ident: String::from("Error"),
            error_use_generics: vec![String::from("T")],
        }
    );
}

#[test]
fn implementations_carry_the_struct_qualification() {
    let mut def = sample_def(true);
    def.config.where_clause = Some(String::from("T::AccountId: From<u64>"));
    let out = expand_pallet_struct(&mut def);
    assert_eq!(
        out.impl_generics,
        vec![GenericParam {
            ident: String::from("T"),
            bounds: vec![String::from("Config")],
        }]
    );
    assert_eq!(out.use_generics, vec![String::from("T")]);
    assert_eq!(
        out.where_clause,
        Some(String::from("T::AccountId: From<u64>"))
    );
}

#[test]
fn accessors_project_declaration_and_use_positions() {
    let def = sample_def(false);
    let impl_gen = def.type_impl_generics();
    assert_eq!(impl_gen.len(), 1);
    assert_eq!(impl_gen[0].ident, "T");
    assert_eq!(impl_gen[0].bounds, vec![String::from("Config")]);
    let use_gen = def.type_use_generics();
    assert_eq!(use_gen, vec![String::from("T")]);
    assert_eq!(def.config_where_clause(), None);
}

#[test]
fn second_application_appends_a_second_annotation_set() {
    // The transformation carries a single-pass contract: it is not
    // idempotent, and the host pipeline must invoke it exactly once per
    // model. A second call visibly appends a second annotation set.
    let mut def = sample_def(false);
    let _ = expand_pallet_struct(&mut def);
    let _ = expand_pallet_struct(&mut def);
    match &def.items[1] {
        Item::Struct(s) => {
            assert_eq!(s.attrs.len(), 3);
            assert_eq!(s.attrs[1], capability_attr());
            assert_eq!(s.attrs[2], capability_attr());
        }
        other => panic!("primary item is no longer a struct: {:?}", other),
    }
}
