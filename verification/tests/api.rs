use carteira::error::{AppError, InsertOutcome};
use carteira::routes::api::{
    created_asset, updated_asset, validate_asset_update, validate_new_asset, UnitValue,
};

fn value(v: f64) -> UnitValue {
    UnitValue::from_bits(v.to_bits())
}

#[derive(Debug, PartialEq)]
struct Asset {
    id: i64,
    name: String,
    unit_value: f64,
}

fn expect_input_error<T>(r: Result<T, AppError>, message: &str) {
    match r {
        Err(AppError::InvalidInput(m)) => assert_eq!(m, message),
        Err(e) => panic!("unexpected error {e:?}"),
        Ok(_) => panic!("accepted"),
    }
}

#[test]
fn test_create_asset() {
    let name = validate_new_asset("Bitcoin", value(10.0)).ok().unwrap();
    assert_eq!(name, "Bitcoin");
    let stored = Asset { id: 1, name: name.clone(), unit_value: 10.0 };
    let new_asset = created_asset(&name, InsertOutcome::Inserted(stored)).ok().unwrap();
    assert_eq!(new_asset.id, 1);
    assert_eq!(new_asset.name, "Bitcoin");
    assert_eq!(new_asset.unit_value, 10.0);
}

#[test]
fn test_create_asset_rejects_empty_name() {
    expect_input_error(validate_new_asset("   ", value(10.0)), "o nome do ativo não pode ser vazio");
}

#[test]
fn test_create_asset_rejects_negative_unit_value() {
    expect_input_error(
        validate_new_asset("Bitcoin", value(-1.0)),
        "unit_value precisa ser um número válido e não-negativo",
    );
}

#[test]
fn test_create_asset_rejects_duplicate_name() {
    let name = validate_new_asset("Bitcoin", value(99.0)).ok().unwrap();
    expect_input_error(
        created_asset::<Asset>(&name, InsertOutcome::Duplicate),
        "já existe um ativo chamado 'Bitcoin'",
    );
}

#[test]
fn test_update_asset_not_found() {
    assert!(validate_asset_update(Some("Ethereum"), None).is_ok());
    assert!(matches!(updated_asset::<Asset>(None), Err(AppError::AssetDoesNotExist)));
}

#[test]
fn test_update_asset() {
    assert!(validate_asset_update(Some("Ethereum"), Some(value(20.0))).is_ok());
    let found = Asset { id: 1, name: "Ethereum".to_string(), unit_value: 20.0 };
    let updated = updated_asset(Some(found)).ok().unwrap();
    assert_eq!(updated.id, 1);
    assert_eq!(updated.name, "Ethereum");
    assert_eq!(updated.unit_value, 20.0);
}

#[test]
fn test_update_asset_partial() {
    assert!(validate_asset_update(None, Some(value(15.5))).is_ok());
    let found = Asset { id: 1, name: "Bitcoin".to_string(), unit_value: 15.5 };
    let updated = updated_asset(Some(found)).ok().unwrap();
    assert_eq!(updated.name, "Bitcoin");
    assert_eq!(updated.unit_value, 15.5);
}

#[test]
fn create_asset_trims_the_name() {
    assert_eq!(validate_new_asset("\u{3000} Ouro\n", value(1.0)).ok().unwrap(), "Ouro");
}

#[test]
fn unit_value_rule_on_special_values() {
    assert!(value(0.0).is_acceptable());
    assert!(value(-0.0).is_acceptable());
    assert!(value(f64::MAX).is_acceptable());
    assert!(value(f64::MIN_POSITIVE / 2.0).is_acceptable());
    assert!(!value(-f64::MIN_POSITIVE / 2.0).is_acceptable());
    assert!(!value(f64::INFINITY).is_acceptable());
    assert!(!value(f64::NEG_INFINITY).is_acceptable());
    assert!(!value(f64::NAN).is_acceptable());
    assert!(!value(-f64::NAN).is_acceptable());
    assert!(!value(-1e-300).is_acceptable());
    for v in [0.0, -0.0, 1.5, -1.5, 1e308, -1e308, f64::NAN, f64::INFINITY, 3e-320, -3e-320] {
        assert_eq!(value(v).is_acceptable(), v.is_finite() && !(v < 0.0));
    }
}

#[test]
fn update_checks_name_before_value() {
    expect_input_error(
        validate_asset_update(Some(" "), Some(value(f64::NAN))),
        "o nome do ativo não pode ser vazio",
    );
    expect_input_error(
        validate_asset_update(Some("x"), Some(value(f64::NAN))),
        "unit_value precisa ser um número válido e não-negativo",
    );
    expect_input_error(
        validate_new_asset("", value(-5.0)),
        "o nome do ativo não pode ser vazio",
    );
}
