use memo_policy::config::{
    validate, validate_once, unflaggable_description, BackendFamily, BackendKind, ConfigError,
    KeyPolicy, OnceOptions, Options, return_shape_taggable,
};
use memo_policy::outcome::ResultShape;

fn opts() -> Options {
    Options {
        name: None,
        unbound: false,
        size: None,
        time: None,
        time_refresh: false,
        key: false,
        convert: false,
        result: false,
        option: false,
        sync_writes: false,
        with_cached_flag: false,
        cache_type: false,
        cache_create: false,
        return_type: String::from("u64"),
    }
}

fn once_opts() -> OnceOptions {
    OnceOptions {
        name: None,
        time: None,
        sync_writes: false,
        result: false,
        option: false,
        with_cached_flag: false,
        return_type: String::from("u64"),
    }
}

fn fn_name() -> Vec<u8> {
    "fib".as_bytes().to_vec()
}

#[test]
fn default_backend_is_unbounded() {
    let c = validate(opts(), &fn_name()).unwrap();
    assert_eq!(c.backend, BackendKind::Unbounded);
    assert_eq!(c.key_policy, KeyPolicy::AllArgs);
    assert_eq!(c.shape, ResultShape::Plain);
    assert!(!c.flag_hits);
    assert!(!c.sync_writes);
}

#[test]
fn default_identity_is_uppercased_function_name() {
    let c = validate(opts(), &"fib_2x".as_bytes().to_vec()).unwrap();
    assert_eq!(c.identity, "FIB_2X".as_bytes().to_vec());
}

#[test]
fn explicit_name_is_kept_verbatim() {
    let mut o = opts();
    o.name = Some("MyCache".as_bytes().to_vec());
    let c = validate(o, &fn_name()).unwrap();
    assert_eq!(c.identity, "MyCache".as_bytes().to_vec());
}

#[test]
fn unbound_knob_selects_unbounded() {
    let mut o = opts();
    o.unbound = true;
    let c = validate(o, &fn_name()).unwrap();
    assert_eq!(c.backend, BackendKind::Unbounded);
}

#[test]
fn size_knob_selects_size_bounded() {
    let mut o = opts();
    o.size = Some(100);
    let c = validate(o, &fn_name()).unwrap();
    assert_eq!(c.backend, BackendKind::SizeBounded { capacity: 100 });
}

#[test]
fn time_knob_selects_time_bounded() {
    let mut o = opts();
    o.time = Some(60);
    o.time_refresh = true;
    let c = validate(o, &fn_name()).unwrap();
    assert_eq!(c.backend, BackendKind::TimeBounded { ttl: 60, refresh: true });
}

#[test]
fn size_and_time_combine_into_one_family() {
    let mut o = opts();
    o.size = Some(10);
    o.time = Some(60);
    let c = validate(o, &fn_name()).unwrap();
    assert_eq!(
        c.backend,
        BackendKind::SizeAndTimeBounded { capacity: 10, ttl: 60, refresh: false }
    );
}

#[test]
fn custom_backend_needs_both_parts() {
    let mut o = opts();
    o.cache_type = true;
    o.cache_create = true;
    let c = validate(o, &fn_name()).unwrap();
    assert_eq!(c.backend, BackendKind::Custom);
}

#[test]
fn custom_type_without_create_is_rejected() {
    let mut o = opts();
    o.cache_type = true;
    let e = validate(o, &fn_name()).unwrap_err();
    assert_eq!(e, ConfigError::CustomTypeWithoutConstructor);
    assert_eq!(e.describe(), "type requires create to also be set");
}

#[test]
fn custom_create_without_type_is_rejected() {
    let mut o = opts();
    o.cache_create = true;
    let e = validate(o, &fn_name()).unwrap_err();
    assert_eq!(e, ConfigError::CustomConstructorWithoutType);
    assert_eq!(e.describe(), "create requires type to also be set");
}

#[test]
fn unbound_and_size_conflict_names_both_families() {
    let mut o = opts();
    o.unbound = true;
    o.size = Some(5);
    let e = validate(o, &fn_name()).unwrap_err();
    assert_eq!(
        e,
        ConfigError::ConflictingBackends(BackendFamily::Unbound, BackendFamily::SizeOrTime)
    );
    assert_eq!(
        e.describe(),
        "cache backend families are mutually exclusive: unbound conflicts with size and/or time"
    );
}

#[test]
fn unbound_and_time_conflict_names_both_families() {
    let mut o = opts();
    o.unbound = true;
    o.time = Some(9);
    let e = validate(o, &fn_name()).unwrap_err();
    assert_eq!(
        e,
        ConfigError::ConflictingBackends(BackendFamily::Unbound, BackendFamily::SizeOrTime)
    );
}

#[test]
fn unbound_and_custom_conflict_names_both_families() {
    let mut o = opts();
    o.unbound = true;
    o.cache_type = true;
    o.cache_create = true;
    let e = validate(o, &fn_name()).unwrap_err();
    assert_eq!(
        e,
        ConfigError::ConflictingBackends(BackendFamily::Unbound, BackendFamily::Custom)
    );
}

#[test]
fn size_and_custom_conflict_names_both_families() {
    let mut o = opts();
    o.size = Some(3);
    o.cache_type = true;
    o.cache_create = true;
    let e = validate(o, &fn_name()).unwrap_err();
    assert_eq!(
        e,
        ConfigError::ConflictingBackends(BackendFamily::SizeOrTime, BackendFamily::Custom)
    );
}

#[test]
fn three_families_report_the_first_two() {
    let mut o = opts();
    o.unbound = true;
    o.time = Some(1);
    o.cache_type = true;
    o.cache_create = true;
    let e = validate(o, &fn_name()).unwrap_err();
    assert_eq!(
        e,
        ConfigError::ConflictingBackends(BackendFamily::Unbound, BackendFamily::SizeOrTime)
    );
}

#[test]
fn result_and_option_are_mutually_exclusive() {
    let mut o = opts();
    o.result = true;
    o.option = true;
    o.return_type = String::from("Result<Option<u64>, u64>");
    let e = validate(o, &fn_name()).unwrap_err();
    assert_eq!(e, ConfigError::ConflictingResultShapes);
    assert_eq!(
        e.describe(),
        "the result and option attributes are mutually exclusive"
    );
}

#[test]
fn result_knob_selects_result_shape() {
    let mut o = opts();
    o.result = true;
    o.return_type = String::from("Result<u64, u64>");
    let c = validate(o, &fn_name()).unwrap();
    assert_eq!(c.shape, ResultShape::ResultWrapped);
}

#[test]
fn option_knob_selects_option_shape() {
    let mut o = opts();
    o.option = true;
    o.return_type = String::from("Option<u64>");
    let c = validate(o, &fn_name()).unwrap();
    assert_eq!(c.shape, ResultShape::OptionWrapped);
}

#[test]
fn key_without_convert_is_rejected() {
    let mut o = opts();
    o.key = true;
    let e = validate(o, &fn_name()).unwrap_err();
    assert_eq!(e, ConfigError::KeyWithoutDerivation);
    assert_eq!(e.describe(), "key requires convert to be set");
}

#[test]
fn convert_without_key_or_type_is_rejected() {
    let mut o = opts();
    o.convert = true;
    let e = validate(o, &fn_name()).unwrap_err();
    assert_eq!(e, ConfigError::DerivationWithoutKeyOrBackend);
    assert_eq!(e.describe(), "convert requires key or type to be set");
}

#[test]
fn key_and_convert_select_typed_derivation() {
    let mut o = opts();
    o.key = true;
    o.convert = true;
    let c = validate(o, &fn_name()).unwrap();
    assert_eq!(c.key_policy, KeyPolicy::TypedDerivation);
}

#[test]
fn convert_with_custom_backend_uses_its_key_type() {
    let mut o = opts();
    o.convert = true;
    o.cache_type = true;
    o.cache_create = true;
    let c = validate(o, &fn_name()).unwrap();
    assert_eq!(c.key_policy, KeyPolicy::BackendDerivation);
    assert_eq!(c.backend, BackendKind::Custom);
}

#[test]
fn flag_on_untaggable_return_is_rejected() {
    let mut o = opts();
    o.with_cached_flag = true;
    o.return_type = String::from("u64");
    let e = validate(o, &fn_name()).unwrap_err();
    assert_eq!(e, ConfigError::UnflaggableReturn);
    assert_eq!(
        unflaggable_description("u64"),
        "with_cached_flag requires a return type able to carry the flag: \
         a flagged value, a result of one, or an option of one; found u64"
    );
}

#[test]
fn flag_on_taggable_return_is_accepted() {
    let mut o = opts();
    o.with_cached_flag = true;
    o.return_type = String::from("cached::Return<u64>");
    let c = validate(o, &fn_name()).unwrap();
    assert!(c.flag_hits);
}

#[test]
fn taggable_detection_is_textual() {
    assert!(return_shape_taggable("Return<u64>"));
    assert!(return_shape_taggable("Result<Return<u64>, u64>"));
    assert!(return_shape_taggable("Option<Return<u64>>"));
    assert!(!return_shape_taggable("u64"));
    assert!(!return_shape_taggable("Result<u64, String>"));
    assert!(!return_shape_taggable(""));
}

#[test]
fn sync_writes_is_carried_through() {
    let mut o = opts();
    o.sync_writes = true;
    let c = validate(o, &fn_name()).unwrap();
    assert!(c.sync_writes);
}

#[test]
fn once_result_and_option_are_mutually_exclusive() {
    let mut o = once_opts();
    o.result = true;
    o.option = true;
    let e = validate_once(o, &fn_name()).unwrap_err();
    assert_eq!(e, ConfigError::ConflictingResultShapes);
}

#[test]
fn once_flag_on_untaggable_return_is_rejected() {
    let mut o = once_opts();
    o.with_cached_flag = true;
    let e = validate_once(o, &fn_name()).unwrap_err();
    assert_eq!(e, ConfigError::UnflaggableReturn);
}

#[test]
fn once_time_and_identity_are_carried_through() {
    let mut o = once_opts();
    o.time = Some(30);
    o.sync_writes = true;
    let c = validate_once(o, &"get_config".as_bytes().to_vec()).unwrap();
    assert_eq!(c.ttl, Some(30));
    assert!(c.sync_writes);
    assert_eq!(c.identity, "GET_CONFIG".as_bytes().to_vec());
    assert_eq!(c.shape, ResultShape::Plain);
}
