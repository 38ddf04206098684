//! The validation engine: pure decisions over one configuration snapshot.
//!
//! Rules run in a fixed order and the first violated rule wins; nothing is
//! accumulated. Name, age and workload bounds come from the snapshot, the
//! location and occupation bounds are fixed, and the identifier must pass
//! the check-digit algorithm. Every rejection carries exactly one
//! human-readable message in the document's locale language.

use crate::ahv::{ahv_message, ahv_valid, validate_ahv};
use crate::config::Config;
use crate::numerals::{
    dec_digits, digits_part, is_u32_numeral, parse_u32, str_val, u32_to_string,
};
use vstd::prelude::*;

verus! {

/// The byte length of text: every length rule counts bytes, not
/// characters or graphemes.
pub open spec fn byte_len(s: Seq<char>) -> nat {
    vstd::utf8::encode_utf8(s).len()
}

/// The first rule a candidate record violates, each with the bounds that
/// its message prints.
#[derive(Debug, Clone, Copy, PartialEq, Eq, Structural)]
pub enum ValidationError {
    FirstNameLength { min: u32, max: u32 },
    LastNameLength { min: u32, max: u32 },
    AgeNotNumeric,
    AgeOutOfRange { min: u32, max: u32 },
    PensumNotNumeric,
    PensumOutOfRange { min: u32, max: u32 },
    LocationLength,
    OccupationLength,
    IdentifierInvalid,
}

/// The exact message text of each rejection.
pub open spec fn message_view(e: ValidationError) -> Seq<char> {
    match e {
        ValidationError::FirstNameLength { min, max } => "Vorname muss mindestens "@ + dec_digits(
            min as nat,
        ) + " Buchstaben lang sein und nicht länger als "@ + dec_digits(max as nat)
            + " Zeichen."@,
        ValidationError::LastNameLength { min, max } => "Nachname muss mindestens "@ + dec_digits(
            min as nat,
        ) + " Buchstaben lang sein und nicht länger als "@ + dec_digits(max as nat)
            + " Zeichen."@,
        ValidationError::AgeNotNumeric => "Ungültiges Alter."@,
        ValidationError::AgeOutOfRange { min, max } => "Alter muss mindestens "@ + dec_digits(
            min as nat,
        ) + " sein und nicht über "@ + dec_digits(max as nat) + "."@,
        ValidationError::PensumNotNumeric => "Ungültiges Pensum."@,
        ValidationError::PensumOutOfRange { min, max } => "Pensum muss mindestens "@ + dec_digits(
            min as nat,
        ) + " sein und nicht über "@ + dec_digits(max as nat) + "."@,
        ValidationError::LocationLength
            => "Ort muss mindestens 2 Buchstaben lang sein und nicht länger als 55 Zeichen."@,
        ValidationError::OccupationLength
            => "Beruf muss mindestens 2 Buchstaben lang sein und nicht länger als 55 Zeichen."@,
        ValidationError::IdentifierInvalid => ahv_message(),
    }
}

impl ValidationError {
    /// Renders the rejection message, printing the bounds in decimal.
    pub fn message(&self) -> (r: String)
        ensures
            r@ == message_view(*self),
    {
        match self {
            ValidationError::FirstNameLength { min, max } => {
                let lo = u32_to_string(*min);
                let hi = u32_to_string(*max);
                String::from_str("Vorname muss mindestens ").concat(lo.as_str()).concat(
                    " Buchstaben lang sein und nicht länger als ",
                ).concat(hi.as_str()).concat(" Zeichen.")
            },
            ValidationError::LastNameLength { min, max } => {
                let lo = u32_to_string(*min);
                let hi = u32_to_string(*max);
                String::from_str("Nachname muss mindestens ").concat(lo.as_str()).concat(
                    " Buchstaben lang sein und nicht länger als ",
                ).concat(hi.as_str()).concat(" Zeichen.")
            },
            ValidationError::AgeNotNumeric => String::from_str("Ungültiges Alter."),
            ValidationError::AgeOutOfRange { min, max } => {
                let lo = u32_to_string(*min);
                let hi = u32_to_string(*max);
                String::from_str("Alter muss mindestens ").concat(lo.as_str()).concat(
                    " sein und nicht über ",
                ).concat(hi.as_str()).concat(".")
            },
            ValidationError::PensumNotNumeric => String::from_str("Ungültiges Pensum."),
            ValidationError::PensumOutOfRange { min, max } => {
                let lo = u32_to_string(*min);
                let hi = u32_to_string(*max);
                String::from_str("Pensum muss mindestens ").concat(lo.as_str()).concat(
                    " sein und nicht über ",
                ).concat(hi.as_str()).concat(".")
            },
            ValidationError::LocationLength => String::from_str(
                "Ort muss mindestens 2 Buchstaben lang sein und nicht länger als 55 Zeichen.",
            ),
            ValidationError::OccupationLength => String::from_str(
                "Beruf muss mindestens 2 Buchstaben lang sein und nicht länger als 55 Zeichen.",
            ),
            ValidationError::IdentifierInvalid => String::from_str("Ungültige AHV Nummer."),
        }
    }
}

/// The name rule: byte length within the configured name bounds.
pub open spec fn name_ok(cfg: Config, v: Seq<char>) -> bool {
    &&& cfg.validation_rules.person.name.min as nat <= byte_len(v)
    &&& byte_len(v) <= cfg.validation_rules.person.name.max as nat
}

/// The age range rule, for text that already parses.
pub open spec fn age_in_range(cfg: Config, v: Seq<char>) -> bool {
    &&& cfg.validation_rules.person.age.min as nat <= str_val(digits_part(v))
    &&& str_val(digits_part(v)) <= cfg.validation_rules.person.age.max as nat
}

/// The workload range rule, for text that already parses.
pub open spec fn pensum_in_range(cfg: Config, v: Seq<char>) -> bool {
    &&& cfg.validation_rules.person.pensum.min_value as nat <= str_val(digits_part(v))
    &&& str_val(digits_part(v)) <= cfg.validation_rules.person.pensum.max_value as nat
}

/// The fixed rule for location and occupation: 2 to 55 bytes.
pub open spec fn location_ok(v: Seq<char>) -> bool {
    2 <= byte_len(v) <= 55
}

/// The first rule a full record violates, in evaluation order, or `None`
/// when the record passes every rule.
pub open spec fn user_first_error(
    cfg: Config,
    first_name: Seq<char>,
    last_name: Seq<char>,
    age: Seq<char>,
    pensum: Seq<char>,
    location: Seq<char>,
    occupation: Seq<char>,
    ahv_nr: Seq<char>,
) -> Option<ValidationError> {
    let nm = cfg.validation_rules.person.name;
    let ag = cfg.validation_rules.person.age;
    let pe = cfg.validation_rules.person.pensum;
    if !name_ok(cfg, first_name) {
        Some(ValidationError::FirstNameLength { min: nm.min, max: nm.max })
    } else if !name_ok(cfg, last_name) {
        Some(ValidationError::LastNameLength { min: nm.min, max: nm.max })
    } else if !is_u32_numeral(age) {
        Some(ValidationError::AgeNotNumeric)
    } else if !age_in_range(cfg, age) {
        Some(ValidationError::AgeOutOfRange { min: ag.min, max: ag.max })
    } else if !is_u32_numeral(pensum) {
        Some(ValidationError::PensumNotNumeric)
    } else if !pensum_in_range(cfg, pensum) {
        Some(ValidationError::PensumOutOfRange { min: pe.min_value, max: pe.max_value })
    } else if !location_ok(location) {
        Some(ValidationError::LocationLength)
    } else if !location_ok(occupation) {
        Some(ValidationError::OccupationLength)
    } else if !ahv_valid(ahv_nr) {
        Some(ValidationError::IdentifierInvalid)
    } else {
        None
    }
}

/// Validates a full candidate record against one snapshot: accepts
/// exactly the records that violate no rule, and otherwise rejects with
/// the message of the first violated rule.
pub fn validate_user(
    config: Config,
    first_name: &str,
    last_name: &str,
    age: &str,
    pensum: &str,
    location: &str,
    occupation: &str,
    ahv_nr: &str,
) -> (r: Result<(), String>)
    ensures
        ({
            let fe = user_first_error(
                config,
                first_name@,
                last_name@,
                age@,
                pensum@,
                location@,
                occupation@,
                ahv_nr@,
            );
            &&& (r is Ok <==> fe is None)
            &&& (r matches Err(m) ==> fe matches Some(e) && m@ == message_view(e))
        }),
{
    let nm_min = config.validation_rules.person.name.min;
    let nm_max = config.validation_rules.person.name.max;
    let ag_min = config.validation_rules.person.age.min;
    let ag_max = config.validation_rules.person.age.max;
    let pe_min = config.validation_rules.person.pensum.min_value;
    let pe_max = config.validation_rules.person.pensum.max_value;

    if first_name.as_bytes().len() < nm_min as usize || first_name.as_bytes().len() > nm_max as usize {
        return Err(ValidationError::FirstNameLength { min: nm_min, max: nm_max }.message());
    }
    if last_name.as_bytes().len() < nm_min as usize || last_name.as_bytes().len() > nm_max as usize {
        return Err(ValidationError::LastNameLength { min: nm_min, max: nm_max }.message());
    }
    let age_val = match parse_u32(age) {
        Some(v) => v,
        None => {
            return Err(ValidationError::AgeNotNumeric.message());
        },
    };
    if age_val < ag_min || age_val > ag_max {
        return Err(ValidationError::AgeOutOfRange { min: ag_min, max: ag_max }.message());
    }
    let pensum_val = match parse_u32(pensum) {
        Some(v) => v,
        None => {
            return Err(ValidationError::PensumNotNumeric.message());
        },
    };
    if pensum_val < pe_min || pensum_val > pe_max {
        return Err(ValidationError::PensumOutOfRange { min: pe_min, max: pe_max }.message());
    }
    if location.as_bytes().len() < 2 || location.as_bytes().len() > 55 {
        return Err(ValidationError::LocationLength.message());
    }
    if occupation.as_bytes().len() < 2 || occupation.as_bytes().len() > 55 {
        return Err(ValidationError::OccupationLength.message());
    }
    match validate_ahv(ahv_nr) {
        Ok(()) => Ok(()),
        Err(m) => Err(m),
    }
}

/// The view of an optional field: the text where one is present.
pub open spec fn opt_view(o: Option<String>) -> Option<Seq<char>> {
    match o {
        Some(s) => Some(s@),
        None => None,
    }
}

/// The first rule a partial record violates: a present field is judged by
/// the very rule of the full validation, an absent field is skipped.
pub open spec fn update_first_error(
    cfg: Config,
    first_name: Option<Seq<char>>,
    last_name: Option<Seq<char>>,
    age: Option<Seq<char>>,
    pensum: Option<Seq<char>>,
    location: Option<Seq<char>>,
    occupation: Option<Seq<char>>,
    ahv_nr: Option<Seq<char>>,
) -> Option<ValidationError> {
    let nm = cfg.validation_rules.person.name;
    let ag = cfg.validation_rules.person.age;
    let pe = cfg.validation_rules.person.pensum;
    if first_name matches Some(v) && !name_ok(cfg, v) {
        Some(ValidationError::FirstNameLength { min: nm.min, max: nm.max })
    } else if last_name matches Some(v) && !name_ok(cfg, v) {
        Some(ValidationError::LastNameLength { min: nm.min, max: nm.max })
    } else if age matches Some(v) && !is_u32_numeral(v) {
        Some(ValidationError::AgeNotNumeric)
    } else if age matches Some(v) && !age_in_range(cfg, v) {
        Some(ValidationError::AgeOutOfRange { min: ag.min, max: ag.max })
    } else if pensum matches Some(v) && !is_u32_numeral(v) {
        Some(ValidationError::PensumNotNumeric)
    } else if pensum matches Some(v) && !pensum_in_range(cfg, v) {
        Some(ValidationError::PensumOutOfRange { min: pe.min_value, max: pe.max_value })
    } else if location matches Some(v) && !location_ok(v) {
        Some(ValidationError::LocationLength)
    } else if occupation matches Some(v) && !location_ok(v) {
        Some(ValidationError::OccupationLength)
    } else if ahv_nr matches Some(v) && !ahv_valid(v) {
        Some(ValidationError::IdentifierInvalid)
    } else {
        None
    }
}

/// Validates a partial (update) record against one snapshot: every
/// present field is judged by the same rule as in the full validation,
/// absent fields are skipped, and an all-absent record always passes.
pub fn validate_update(
    config: Config,
    first_name: &Option<String>,
    last_name: &Option<String>,
    age: &Option<String>,
    pensum: &Option<String>,
    location: &Option<String>,
    occupation: &Option<String>,
    ahv_nr: &Option<String>,
) -> (r: Result<(), String>)
    ensures
        ({
            let fe = update_first_error(
                config,
                opt_view(*first_name),
                opt_view(*last_name),
                opt_view(*age),
                opt_view(*pensum),
                opt_view(*location),
                opt_view(*occupation),
                opt_view(*ahv_nr),
            );
            &&& (r is Ok <==> fe is None)
            &&& (r matches Err(m) ==> fe matches Some(e) && m@ == message_view(e))
        }),
{
    let nm_min = config.validation_rules.person.name.min;
    let nm_max = config.validation_rules.person.name.max;
    let ag_min = config.validation_rules.person.age.min;
    let ag_max = config.validation_rules.person.age.max;
    let pe_min = config.validation_rules.person.pensum.min_value;
    let pe_max = config.validation_rules.person.pensum.max_value;

    if let Some(v) = first_name {
        if v.as_str().as_bytes().len() < nm_min as usize || v.as_str().as_bytes().len() > nm_max as usize {
            return Err(ValidationError::FirstNameLength { min: nm_min, max: nm_max }.message());
        }
    }
    if let Some(v) = last_name {
        if v.as_str().as_bytes().len() < nm_min as usize || v.as_str().as_bytes().len() > nm_max as usize {
            return Err(ValidationError::LastNameLength { min: nm_min, max: nm_max }.message());
        }
    }
    if let Some(v) = age {
        let age_val = match parse_u32(v.as_str()) {
            Some(n) => n,
            None => {
                return Err(ValidationError::AgeNotNumeric.message());
            },
        };
        if age_val < ag_min || age_val > ag_max {
            return Err(ValidationError::AgeOutOfRange { min: ag_min, max: ag_max }.message());
        }
    }
    if let Some(v) = pensum {
        let pensum_val = match parse_u32(v.as_str()) {
            Some(n) => n,
            None => {
                return Err(ValidationError::PensumNotNumeric.message());
            },
        };
        if pensum_val < pe_min || pensum_val > pe_max {
            return Err(
                ValidationError::PensumOutOfRange { min: pe_min, max: pe_max }.message(),
            );
        }
    }
    if let Some(v) = location {
        if v.as_str().as_bytes().len() < 2 || v.as_str().as_bytes().len() > 55 {
            return Err(ValidationError::LocationLength.message());
        }
    }
    if let Some(v) = occupation {
        if v.as_str().as_bytes().len() < 2 || v.as_str().as_bytes().len() > 55 {
            return Err(ValidationError::OccupationLength.message());
        }
    }
    if let Some(v) = ahv_nr {
        match validate_ahv(v.as_str()) {
            Ok(()) => {},
            Err(m) => {
                return Err(m);
            },
        }
    }
    Ok(())
}

/// Full validation accepts exactly the records that satisfy every rule,
/// and when a rule fails, the first one in evaluation order names the
/// rejection: its error carries the bounds configured at the time.
pub proof fn lemma_first_failure_attribution(
    cfg: Config,
    first_name: Seq<char>,
    last_name: Seq<char>,
    age: Seq<char>,
    pensum: Seq<char>,
    location: Seq<char>,
    occupation: Seq<char>,
    ahv_nr: Seq<char>,
)
    ensures
        ({
            let fe = user_first_error(
                cfg,
                first_name,
                last_name,
                age,
                pensum,
                location,
                occupation,
                ahv_nr,
            );
            let nm = cfg.validation_rules.person.name;
            let ag = cfg.validation_rules.person.age;
            let pe = cfg.validation_rules.person.pensum;
            &&& (fe is None <==> {
                &&& name_ok(cfg, first_name)
                &&& name_ok(cfg, last_name)
                &&& is_u32_numeral(age)
                &&& age_in_range(cfg, age)
                &&& is_u32_numeral(pensum)
                &&& pensum_in_range(cfg, pensum)
                &&& location_ok(location)
                &&& location_ok(occupation)
                &&& ahv_valid(ahv_nr)
            })
            &&& (!name_ok(cfg, first_name) ==> fe == (Some(
                ValidationError::FirstNameLength { min: nm.min, max: nm.max },
            )))
            &&& (name_ok(cfg, first_name) && !name_ok(cfg, last_name) ==> fe == (Some(
                ValidationError::LastNameLength { min: nm.min, max: nm.max },
            )))
            &&& (name_ok(cfg, first_name) && name_ok(cfg, last_name) && !is_u32_numeral(age)
                ==> fe == (Some(ValidationError::AgeNotNumeric)))
            &&& (name_ok(cfg, first_name) && name_ok(cfg, last_name) && is_u32_numeral(age)
                && !age_in_range(cfg, age) ==> fe == (Some(
                ValidationError::AgeOutOfRange { min: ag.min, max: ag.max },
            )))
            &&& (name_ok(cfg, first_name) && name_ok(cfg, last_name) && is_u32_numeral(age)
                && age_in_range(cfg, age) && !is_u32_numeral(pensum) ==> fe == (Some(
                ValidationError::PensumNotNumeric,
            )))
            &&& (name_ok(cfg, first_name) && name_ok(cfg, last_name) && is_u32_numeral(age)
                && age_in_range(cfg, age) && is_u32_numeral(pensum) && !pensum_in_range(
                cfg,
                pensum,
            ) ==> fe == (Some(
                ValidationError::PensumOutOfRange { min: pe.min_value, max: pe.max_value },
            )))
            &&& (name_ok(cfg, first_name) && name_ok(cfg, last_name) && is_u32_numeral(age)
                && age_in_range(cfg, age) && is_u32_numeral(pensum) && pensum_in_range(cfg, pensum)
                && !location_ok(location) ==> fe == (Some(ValidationError::LocationLength)))
            &&& (name_ok(cfg, first_name) && name_ok(cfg, last_name) && is_u32_numeral(age)
                && age_in_range(cfg, age) && is_u32_numeral(pensum) && pensum_in_range(cfg, pensum)
                && location_ok(location) && !location_ok(occupation) ==> fe == (Some(
                ValidationError::OccupationLength,
            )))
            &&& (name_ok(cfg, first_name) && name_ok(cfg, last_name) && is_u32_numeral(age)
                && age_in_range(cfg, age) && is_u32_numeral(pensum) && pensum_in_range(cfg, pensum)
                && location_ok(location) && location_ok(occupation) && !ahv_valid(ahv_nr) ==> fe
                == (Some(ValidationError::IdentifierInvalid)))
        }),
{
}

/// A partial validation with every field absent accepts: the empty update
/// violates no rule.
pub proof fn lemma_all_absent_accepts(cfg: Config)
    ensures
        update_first_error(cfg, None, None, None, None, None, None, None) is None,
{
}

/// A partial validation with every field present decides exactly as the
/// full validation of the same record.
pub proof fn lemma_partial_matches_full(
    cfg: Config,
    first_name: Seq<char>,
    last_name: Seq<char>,
    age: Seq<char>,
    pensum: Seq<char>,
    location: Seq<char>,
    occupation: Seq<char>,
    ahv_nr: Seq<char>,
)
    ensures
        update_first_error(
            cfg,
            Some(first_name),
            Some(last_name),
            Some(age),
            Some(pensum),
            Some(location),
            Some(occupation),
            Some(ahv_nr),
        ) == user_first_error(
            cfg,
            first_name,
            last_name,
            age,
            pensum,
            location,
            occupation,
            ahv_nr,
        ),
{
}

/// A partial validation judges one present field by exactly the bound
/// logic of the full validation, whatever the other fields would hold.
pub proof fn lemma_partial_single_field(cfg: Config, v: Seq<char>)
    ensures
        update_first_error(cfg, Some(v), None, None, None, None, None, None) is None <==> name_ok(
            cfg,
            v,
        ),
        update_first_error(cfg, None, Some(v), None, None, None, None, None) is None <==> name_ok(
            cfg,
            v,
        ),
        update_first_error(cfg, None, None, Some(v), None, None, None, None) is None <==> (
        is_u32_numeral(v) && age_in_range(cfg, v)),
        update_first_error(cfg, None, None, None, Some(v), None, None, None) is None <==> (
        is_u32_numeral(v) && pensum_in_range(cfg, v)),
        update_first_error(cfg, None, None, None, None, Some(v), None, None) is None
            <==> location_ok(v),
        update_first_error(cfg, None, None, None, None, None, Some(v), None) is None
            <==> location_ok(v),
        update_first_error(cfg, None, None, None, None, None, None, Some(v)) is None <==> ahv_valid(
            v,
        ),
{
}

/// Under the zero-valued model every bound is `0..0`, so an accepted
/// record can only have empty names and an age and workload worth zero:
/// ordinary records are all rejected.
pub proof fn lemma_zero_model_rejects(
    cfg: Config,
    first_name: Seq<char>,
    last_name: Seq<char>,
    age: Seq<char>,
    pensum: Seq<char>,
    location: Seq<char>,
    occupation: Seq<char>,
    ahv_nr: Seq<char>,
)
    requires
        crate::config::is_zero_model(cfg),
        user_first_error(
            cfg,
            first_name,
            last_name,
            age,
            pensum,
            location,
            occupation,
            ahv_nr,
        ) is None,
    ensures
        byte_len(first_name) == 0,
        byte_len(last_name) == 0,
        str_val(digits_part(age)) == 0,
        str_val(digits_part(pensum)) == 0,
{
}

} // verus!
