use gba::entry::check_attr_whitelist;
use gba::entry::extract_cfgs;
use gba::entry::mangled_entry_name;
use gba::entry::signature_is_valid;
use gba::entry::trampoline_name;
use gba::entry::validate_entry;
use gba::entry::AttrKind;
use gba::entry::EntryError;
use gba::entry::FnShape;
use gba::entry::ReturnShape;

fn required_shape() -> FnShape {
    FnShape {
        is_const: false,
        inherited_visibility: true,
        has_abi_override: false,
        input_count: 1,
        generic_param_count: 0,
        has_where_clause: false,
        has_variadic: false,
        output: ReturnShape::Never,
    }
}

#[test]
fn the_required_shape_is_accepted() {
    assert!(signature_is_valid(&required_shape()));
    assert_eq!(validate_entry(&required_shape(), true, &vec![]), Ok(()));
}

#[test]
fn two_parameters_are_rejected() {
    let shape = FnShape { input_count: 2, ..required_shape() };
    assert_eq!(
        validate_entry(&shape, true, &vec![]),
        Err(EntryError::InvalidSignature)
    );
}

#[test]
fn zero_parameters_are_rejected() {
    let shape = FnShape { input_count: 0, ..required_shape() };
    assert!(!signature_is_valid(&shape));
}

#[test]
fn a_generic_parameter_is_rejected() {
    let shape = FnShape { generic_param_count: 1, ..required_shape() };
    assert_eq!(
        validate_entry(&shape, true, &vec![]),
        Err(EntryError::InvalidSignature)
    );
}

#[test]
fn a_returning_function_is_rejected() {
    let implicit = FnShape { output: ReturnShape::Implicit, ..required_shape() };
    assert_eq!(
        validate_entry(&implicit, true, &vec![]),
        Err(EntryError::InvalidSignature)
    );
    let other = FnShape { output: ReturnShape::Other, ..required_shape() };
    assert_eq!(
        validate_entry(&other, true, &vec![]),
        Err(EntryError::InvalidSignature)
    );
}

#[test]
fn qualifiers_are_rejected() {
    assert!(!signature_is_valid(&FnShape { is_const: true, ..required_shape() }));
    assert!(!signature_is_valid(&FnShape { inherited_visibility: false, ..required_shape() }));
    assert!(!signature_is_valid(&FnShape { has_abi_override: true, ..required_shape() }));
    assert!(!signature_is_valid(&FnShape { has_where_clause: true, ..required_shape() }));
    assert!(!signature_is_valid(&FnShape { has_variadic: true, ..required_shape() }));
}

#[test]
fn the_signature_diagnostic_names_the_required_shape() {
    assert_eq!(
        EntryError::InvalidSignature.diagnostic(),
        "`#[entry]` function must have signature `[unsafe] fn(gba::Gba) -> !`"
    );
}

#[test]
fn adapter_arguments_are_rejected() {
    assert_eq!(
        validate_entry(&required_shape(), false, &vec![]),
        Err(EntryError::UnexpectedArguments)
    );
    assert_eq!(
        EntryError::UnexpectedArguments.diagnostic(),
        "This attribute accepts no arguments"
    );
}

#[test]
fn every_allow_listed_attribute_kind_passes() {
    let attrs = vec![
        AttrKind::Doc,
        AttrKind::LinkSection,
        AttrKind::Cfg,
        AttrKind::Allow,
        AttrKind::Warn,
        AttrKind::Deny,
        AttrKind::Forbid,
        AttrKind::Cold,
    ];
    assert_eq!(check_attr_whitelist(&attrs), Ok(()));
    assert_eq!(validate_entry(&required_shape(), true, &attrs), Ok(()));
}

#[test]
fn the_first_forbidden_attribute_is_reported() {
    let attrs = vec![AttrKind::Doc, AttrKind::Other, AttrKind::Other];
    assert_eq!(check_attr_whitelist(&attrs), Err(1));
    assert_eq!(
        validate_entry(&required_shape(), true, &attrs),
        Err(EntryError::ForbiddenAttribute(1))
    );
    assert_eq!(
        EntryError::ForbiddenAttribute(1).diagnostic(),
        "this attribute is not allowed on a Gba entry point"
    );
}

#[test]
fn the_signature_check_comes_before_the_attribute_check() {
    let shape = FnShape { input_count: 2, ..required_shape() };
    let attrs = vec![AttrKind::Other];
    assert_eq!(validate_entry(&shape, true, &attrs), Err(EntryError::InvalidSignature));
}

#[test]
fn cfgs_are_split_out_in_order() {
    let attrs = vec![AttrKind::Cfg, AttrKind::Doc, AttrKind::Cfg, AttrKind::Cold];
    let (cfgs, others) = extract_cfgs(&attrs);
    assert_eq!(cfgs, vec![AttrKind::Cfg, AttrKind::Cfg]);
    assert_eq!(others, vec![AttrKind::Doc, AttrKind::Cold]);
}

#[test]
fn extract_cfgs_of_nothing_is_nothing() {
    let (cfgs, others) = extract_cfgs(&vec![]);
    assert_eq!(cfgs, vec![]);
    assert_eq!(others, vec![]);
}

#[test]
fn boot_symbol_names() {
    let mangled = mangled_entry_name("main");
    assert_eq!(mangled, "__gba_rt_main");
    assert_eq!(trampoline_name(&mangled), "__gba_rt_main_trampoline");
}
