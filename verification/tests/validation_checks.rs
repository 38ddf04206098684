//! Checks of full and partial record validation against one snapshot.

use person_rules::{
    validate_update, validate_user, Age, Config, DefaultSettings, Email, Name, Pensum, Person,
    UpdatedUser, User, ValidationRules,
};

const GOOD_AHV: &str = "756.1234.5678.97";

fn rules(nm_min: u32, nm_max: u32, ag_min: u32, ag_max: u32, pe_min: u32, pe_max: u32) -> Config {
    Config {
        default_settings: DefaultSettings {
            language: "de".to_string(),
        },
        validation_rules: ValidationRules {
            person: Person {
                name: Name {
                    type_: "string".to_string(),
                    min: nm_min,
                    max: nm_max,
                },
                age: Age {
                    type_: "number".to_string(),
                    min: ag_min,
                    max: ag_max,
                },
                email: Email {
                    type_: "string".to_string(),
                },
                pensum: Pensum {
                    type_: "number".to_string(),
                    min_value: pe_min,
                    max_value: pe_max,
                    default: pe_min,
                },
            },
        },
    }
}

fn standard() -> Config {
    rules(2, 20, 18, 65, 10, 100)
}

fn check_full(
    cfg: Config,
    first: &str,
    last: &str,
    age: &str,
    pensum: &str,
    location: &str,
    occupation: &str,
    ahv: &str,
) -> Result<(), String> {
    validate_user(cfg, first, last, age, pensum, location, occupation, ahv)
}

#[test]
fn record_within_bounds_accepted() {
    let r = check_full(standard(), "Anna", "Muster", "30", "50", "Bern", "Lehrerin", GOOD_AHV);
    assert_eq!(r, Ok(()));
}

#[test]
fn bounds_are_inclusive() {
    let cfg = standard();
    assert!(check_full(cfg.clone(), "An", "Mu", "18", "10", "Be", "Li", GOOD_AHV).is_ok());
    let twenty = "ABCDEFGHIJKLMNOPQRST";
    let fifty_five = "A".repeat(55);
    assert!(check_full(cfg, twenty, twenty, "65", "100", &fifty_five, &fifty_five, GOOD_AHV)
        .is_ok());
}

#[test]
fn first_name_below_minimum_rejected() {
    let r = check_full(standard(), "A", "Muster", "30", "50", "Bern", "Lehrerin", GOOD_AHV);
    assert_eq!(
        r.unwrap_err(),
        "Vorname muss mindestens 2 Buchstaben lang sein und nicht länger als 20 Zeichen."
    );
}

#[test]
fn first_name_above_maximum_rejected() {
    let long = "A".repeat(21);
    let r = check_full(standard(), &long, "Muster", "30", "50", "Bern", "Lehrerin", GOOD_AHV);
    assert_eq!(
        r.unwrap_err(),
        "Vorname muss mindestens 2 Buchstaben lang sein und nicht länger als 20 Zeichen."
    );
}

#[test]
fn last_name_bounds_rejected_with_own_message() {
    let cfg = standard();
    let r = check_full(cfg.clone(), "Anna", "M", "30", "50", "Bern", "Lehrerin", GOOD_AHV);
    assert_eq!(
        r.unwrap_err(),
        "Nachname muss mindestens 2 Buchstaben lang sein und nicht länger als 20 Zeichen."
    );
    let long = "M".repeat(21);
    let r = check_full(cfg, "Anna", &long, "30", "50", "Bern", "Lehrerin", GOOD_AHV);
    assert_eq!(
        r.unwrap_err(),
        "Nachname muss mindestens 2 Buchstaben lang sein und nicht länger als 20 Zeichen."
    );
}

#[test]
fn name_length_counts_bytes_not_characters() {
    // Two umlauts are four bytes; with a maximum of three they overflow.
    let cfg = rules(1, 3, 18, 65, 10, 100);
    let r = check_full(cfg, "äö", "Mu", "30", "50", "Bern", "Lehrerin", GOOD_AHV);
    assert_eq!(
        r.unwrap_err(),
        "Vorname muss mindestens 1 Buchstaben lang sein und nicht länger als 3 Zeichen."
    );
}

#[test]
fn age_one_below_minimum_rejected() {
    let r = check_full(standard(), "Anna", "Muster", "17", "50", "Bern", "Lehrerin", GOOD_AHV);
    assert_eq!(r.unwrap_err(), "Alter muss mindestens 18 sein und nicht über 65.");
}

#[test]
fn age_one_above_maximum_rejected() {
    let r = check_full(standard(), "Anna", "Muster", "66", "50", "Bern", "Lehrerin", GOOD_AHV);
    assert_eq!(r.unwrap_err(), "Alter muss mindestens 18 sein und nicht über 65.");
}

#[test]
fn non_numeric_age_rejected() {
    for bad in ["", "abc", "-1", "12.5", " 30", "30 ", "++3", "+"] {
        let r = check_full(standard(), "Anna", "Muster", bad, "50", "Bern", "Lehrerin", GOOD_AHV);
        assert_eq!(r.unwrap_err(), "Ungültiges Alter.", "{:?}", bad);
    }
}

#[test]
fn age_with_plus_sign_parses() {
    let r = check_full(standard(), "Anna", "Muster", "+30", "50", "Bern", "Lehrerin", GOOD_AHV);
    assert_eq!(r, Ok(()));
}

#[test]
fn age_beyond_u32_rejected_as_non_numeric() {
    let r = check_full(
        standard(),
        "Anna",
        "Muster",
        "4294967296",
        "50",
        "Bern",
        "Lehrerin",
        GOOD_AHV,
    );
    assert_eq!(r.unwrap_err(), "Ungültiges Alter.");
}

#[test]
fn age_with_leading_zeros_parses() {
    let r = check_full(standard(), "Anna", "Muster", "030", "50", "Bern", "Lehrerin", GOOD_AHV);
    assert_eq!(r, Ok(()));
}

#[test]
fn pensum_bounds_rejected() {
    let cfg = standard();
    let r = check_full(cfg.clone(), "Anna", "Muster", "30", "9", "Bern", "Lehrerin", GOOD_AHV);
    assert_eq!(r.unwrap_err(), "Pensum muss mindestens 10 sein und nicht über 100.");
    let r = check_full(cfg, "Anna", "Muster", "30", "101", "Bern", "Lehrerin", GOOD_AHV);
    assert_eq!(r.unwrap_err(), "Pensum muss mindestens 10 sein und nicht über 100.");
}

#[test]
fn non_numeric_pensum_rejected() {
    let r = check_full(standard(), "Anna", "Muster", "30", "halb", "Bern", "Lehrerin", GOOD_AHV);
    assert_eq!(r.unwrap_err(), "Ungültiges Pensum.");
}

#[test]
fn location_bounds_rejected() {
    let cfg = standard();
    let r = check_full(cfg.clone(), "Anna", "Muster", "30", "50", "B", "Lehrerin", GOOD_AHV);
    assert_eq!(
        r.unwrap_err(),
        "Ort muss mindestens 2 Buchstaben lang sein und nicht länger als 55 Zeichen."
    );
    let long = "B".repeat(56);
    let r = check_full(cfg, "Anna", "Muster", "30", "50", &long, "Lehrerin", GOOD_AHV);
    assert_eq!(
        r.unwrap_err(),
        "Ort muss mindestens 2 Buchstaben lang sein und nicht länger als 55 Zeichen."
    );
}

#[test]
fn occupation_bounds_rejected() {
    let r = check_full(standard(), "Anna", "Muster", "30", "50", "Bern", "L", GOOD_AHV);
    assert_eq!(
        r.unwrap_err(),
        "Beruf muss mindestens 2 Buchstaben lang sein und nicht länger als 55 Zeichen."
    );
}

#[test]
fn bad_identifier_rejected_last() {
    let r = check_full(
        standard(),
        "Anna",
        "Muster",
        "30",
        "50",
        "Bern",
        "Lehrerin",
        "756.1234.5678.98",
    );
    assert_eq!(r.unwrap_err(), "Ungültige AHV Nummer.");
}

#[test]
fn first_failure_wins() {
    // Both names and the age are wrong; only the first name is reported.
    let r = check_full(standard(), "A", "M", "abc", "5000", "B", "L", "nonsense");
    assert_eq!(
        r.unwrap_err(),
        "Vorname muss mindestens 2 Buchstaben lang sein und nicht länger als 20 Zeichen."
    );
}

#[test]
fn update_with_all_fields_absent_accepted() {
    let r = validate_update(standard(), &None, &None, &None, &None, &None, &None, &None);
    assert_eq!(r, Ok(()));
}

#[test]
fn update_validates_present_field_alone() {
    let cfg = standard();
    let r = validate_update(
        cfg.clone(),
        &Some("A".to_string()),
        &None,
        &None,
        &None,
        &None,
        &None,
        &None,
    );
    assert_eq!(
        r.unwrap_err(),
        "Vorname muss mindestens 2 Buchstaben lang sein und nicht länger als 20 Zeichen."
    );
    let r = validate_update(
        cfg.clone(),
        &None,
        &None,
        &Some("17".to_string()),
        &None,
        &None,
        &None,
        &None,
    );
    assert_eq!(r.unwrap_err(), "Alter muss mindestens 18 sein und nicht über 65.");
    let r = validate_update(
        cfg,
        &None,
        &None,
        &Some("30".to_string()),
        &None,
        &None,
        &None,
        &None,
    );
    assert_eq!(r, Ok(()));
}

#[test]
fn update_with_all_fields_present_matches_full_validation() {
    let cfg = standard();
    let full = check_full(
        cfg.clone(),
        "Anna",
        "Muster",
        "30",
        "50",
        "Bern",
        "Lehrerin",
        GOOD_AHV,
    );
    let partial = validate_update(
        cfg,
        &Some("Anna".to_string()),
        &Some("Muster".to_string()),
        &Some("30".to_string()),
        &Some("50".to_string()),
        &Some("Bern".to_string()),
        &Some("Lehrerin".to_string()),
        &Some(GOOD_AHV.to_string()),
    );
    assert_eq!(full, partial);
}

#[test]
fn update_rejects_bad_identifier() {
    let r = validate_update(
        standard(),
        &None,
        &None,
        &None,
        &None,
        &None,
        &None,
        &Some("756.1234.5678.98".to_string()),
    );
    assert_eq!(r.unwrap_err(), "Ungültige AHV Nummer.");
}

#[test]
fn user_new_carries_fields_on_success() {
    let u = User::new(
        standard(),
        "Anna".to_string(),
        "Muster".to_string(),
        "30".to_string(),
        "50".to_string(),
        "Bern".to_string(),
        "Lehrerin".to_string(),
        GOOD_AHV.to_string(),
    )
    .unwrap();
    assert_eq!(u.first_name, "Anna");
    assert_eq!(u.last_name, "Muster");
    assert_eq!(u.age, "30");
    assert_eq!(u.pensum, "50");
    assert_eq!(u.location, "Bern");
    assert_eq!(u.occupation, "Lehrerin");
    assert_eq!(u.ahv_nr, GOOD_AHV);
}

#[test]
fn user_new_hands_back_rejection_message() {
    let e = User::new(
        standard(),
        "Anna".to_string(),
        "Muster".to_string(),
        "16".to_string(),
        "50".to_string(),
        "Bern".to_string(),
        "Lehrerin".to_string(),
        GOOD_AHV.to_string(),
    )
    .unwrap_err();
    assert_eq!(e, "Alter muss mindestens 18 sein und nicht über 65.");
}

#[test]
fn updated_user_new_carries_fields() {
    let u = UpdatedUser::new(
        standard(),
        Some("Anna".to_string()),
        None,
        None,
        Some("80".to_string()),
        None,
        None,
        None,
    )
    .unwrap();
    assert_eq!(u.first_name.as_deref(), Some("Anna"));
    assert_eq!(u.last_name, None);
    assert_eq!(u.pensum.as_deref(), Some("80"));
    let e = UpdatedUser::new(
        standard(),
        None,
        None,
        None,
        Some("5".to_string()),
        None,
        None,
        None,
    )
    .unwrap_err();
    assert_eq!(e, "Pensum muss mindestens 10 sein und nicht über 100.");
}
