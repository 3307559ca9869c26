use frame_assets::call_expansion::{
    expand_call_plan, expand_weight, trim_leading_underscores, variant_plan, CallArgModel,
    CallFieldPlan, CallMethodModel, CallReturnType, CallWeightKind, StorageLayerTypes, WeightPlan,
};

fn method(name: &str, index: u8, explicit: bool, args: &[&str]) -> CallMethodModel {
    CallMethodModel {
        name: name.to_string(),
        call_index: index,
        explicit_call_index: explicit,
        args: args.iter().map(|a| CallArgModel { name: a.to_string(), is_compact: false }).collect(),
        return_type: CallReturnType::DispatchResult,
        weight: CallWeightKind::Inherited,
        has_feeless_check: false,
        authorize: None,
    }
}

#[test]
fn argument_fields_lose_leading_underscores() {
    assert_eq!(trim_leading_underscores("__hash"), "hash");
    assert_eq!(trim_leading_underscores("hash"), "hash");
    assert_eq!(trim_leading_underscores("a_b_"), "a_b_");
    assert_eq!(trim_leading_underscores("___"), "");
}

#[test]
fn weights_follow_their_kind() {
    assert_eq!(expand_weight("", "transfer", CallWeightKind::Inherited), WeightPlan::WeightInfoCall("transfer".to_string()));
    assert_eq!(
        expand_weight("authorize_", "transfer", CallWeightKind::Inherited),
        WeightPlan::WeightInfoCall("authorize_transfer".to_string())
    );
    assert_eq!(expand_weight("", "transfer", CallWeightKind::DevModeDefault), WeightPlan::Zero);
    assert_eq!(expand_weight("", "transfer", CallWeightKind::Immediate), WeightPlan::Immediate);
}

#[test]
fn a_method_becomes_a_variant() {
    let mut m = method("note_preimage", 0, true, &["bytes", "_len"]);
    m.args[0].is_compact = true;
    m.return_type = CallReturnType::DispatchResultWithPostInfo;
    m.authorize = Some(CallWeightKind::Inherited);
    let v = variant_plan(&m);
    assert_eq!(v.name, "note_preimage");
    assert_eq!(v.call_index, 0);
    assert_eq!(v.constructor, "new_call_variant_note_preimage");
    assert_eq!(v.constructor_doc, "Create a call with the variant `note_preimage`.");
    assert_eq!(
        v.fields,
        vec![
            CallFieldPlan { binding: "bytes".to_string(), field: "bytes".to_string(), is_compact: true },
            CallFieldPlan { binding: "_len".to_string(), field: "len".to_string(), is_compact: false },
        ]
    );
    assert_eq!(v.weight, WeightPlan::WeightInfoCall("note_preimage".to_string()));
    assert_eq!(v.authorize, Some(WeightPlan::WeightInfoCall("authorize_note_preimage".to_string())));
    assert_eq!(v.storage_layer, StorageLayerTypes::PostInfoAndErrorWithPostInfo);
    assert!(v.default_feeless);
}

#[test]
fn implicit_indices_are_warned_of_outside_dev_mode() {
    let methods = vec![method("a", 0, true, &[]), method("b", 1, false, &["x"]), method("c", 2, false, &[])];
    let plan = expand_call_plan(&methods, false, true);
    assert_eq!(plan.variants.len(), 3);
    assert_eq!(plan.variants[1].name, "b");
    assert_eq!(plan.variants[1].storage_layer, StorageLayerTypes::UnitAndDispatchError);
    assert_eq!(plan.variants[1].authorize, None);
    assert!(plan.variants[1].default_feeless);
    assert_eq!(plan.implicit_index_warnings, vec!["b".to_string(), "c".to_string()]);
    assert!(plan.call_part_defined);
    let dev = expand_call_plan(&methods, true, true);
    assert!(dev.implicit_index_warnings.is_empty());
    let none = expand_call_plan(&vec![], false, false);
    assert!(none.variants.is_empty());
    assert!(!none.call_part_defined);
}
