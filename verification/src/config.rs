//! The snapshot model of the validation rules.
//!
//! One `Config` value mirrors the configuration document: a locale setting
//! and per-field bounds for name length, age and workload percentage
//! (`Pensum`). A value is immutable once built; a reload always swaps in a
//! whole new value. The zero-valued model (every bound `0`, every string
//! empty) is what a failed initial load falls back to.

use vstd::prelude::*;

verus! {

/// Length bounds for the two name fields, with the descriptive type tag
/// that the document carries but the logic never reads.
#[derive(Debug, Clone)]
pub struct Name {
    pub type_: String,
    pub min: u32,
    pub max: u32,
}

/// Bounds for the age field.
#[derive(Debug, Clone)]
pub struct Age {
    pub type_: String,
    pub min: u32,
    pub max: u32,
}

/// The email rule carries only its type tag; no bound is enforced.
#[derive(Debug, Clone)]
pub struct Email {
    pub type_: String,
}

/// Bounds and default value for the workload percentage field.
#[derive(Debug, Clone)]
pub struct Pensum {
    pub type_: String,
    pub min_value: u32,
    pub max_value: u32,
    pub default: u32,
}

/// The per-field rules for one person record.
#[derive(Debug, Clone)]
pub struct Person {
    pub name: Name,
    pub age: Age,
    pub email: Email,
    pub pensum: Pensum,
}

/// The rule section of the configuration document.
#[derive(Debug, Clone)]
pub struct ValidationRules {
    pub person: Person,
}

/// The locale section of the configuration document.
#[derive(Debug, Clone)]
pub struct DefaultSettings {
    pub language: String,
}

/// One immutable snapshot of the validation rules.
#[derive(Debug, Clone)]
pub struct Config {
    pub default_settings: DefaultSettings,
    pub validation_rules: ValidationRules,
}

/// The zero-valued model: every bound is `0` and every string is empty.
/// With these rules every nonempty name and every nonzero age or workload
/// is rejected.
pub open spec fn is_zero_model(c: Config) -> bool {
    &&& c.default_settings.language@ == Seq::<char>::empty()
    &&& c.validation_rules.person.name.type_@ == Seq::<char>::empty()
    &&& c.validation_rules.person.name.min == 0
    &&& c.validation_rules.person.name.max == 0
    &&& c.validation_rules.person.age.type_@ == Seq::<char>::empty()
    &&& c.validation_rules.person.age.min == 0
    &&& c.validation_rules.person.age.max == 0
    &&& c.validation_rules.person.email.type_@ == Seq::<char>::empty()
    &&& c.validation_rules.person.pensum.type_@ == Seq::<char>::empty()
    &&& c.validation_rules.person.pensum.min_value == 0
    &&& c.validation_rules.person.pensum.max_value == 0
    &&& c.validation_rules.person.pensum.default == 0
}

impl Default for Name {
    fn default() -> (r: Self)
        ensures
            r.type_@ == Seq::<char>::empty(),
            r.min == 0,
            r.max == 0,
    {
        Name { type_: String::new(), min: 0, max: 0 }
    }
}

impl Default for Age {
    fn default() -> (r: Self)
        ensures
            r.type_@ == Seq::<char>::empty(),
            r.min == 0,
            r.max == 0,
    {
        Age { type_: String::new(), min: 0, max: 0 }
    }
}

impl Default for Email {
    fn default() -> (r: Self)
        ensures
            r.type_@ == Seq::<char>::empty(),
    {
        Email { type_: String::new() }
    }
}

impl Default for Pensum {
    fn default() -> (r: Self)
        ensures
            r.type_@ == Seq::<char>::empty(),
            r.min_value == 0,
            r.max_value == 0,
            r.default == 0,
    {
        Pensum { type_: String::new(), min_value: 0, max_value: 0, default: 0 }
    }
}

impl Default for Person {
    fn default() -> (r: Self)
        ensures
            r.name.type_@ == Seq::<char>::empty(),
            r.name.min == 0,
            r.name.max == 0,
            r.age.type_@ == Seq::<char>::empty(),
            r.age.min == 0,
            r.age.max == 0,
            r.email.type_@ == Seq::<char>::empty(),
            r.pensum.type_@ == Seq::<char>::empty(),
            r.pensum.min_value == 0,
            r.pensum.max_value == 0,
            r.pensum.default == 0,
    {
        Person {
            name: Name::default(),
            age: Age::default(),
            email: Email::default(),
            pensum: Pensum::default(),
        }
    }
}

impl Default for ValidationRules {
    fn default() -> (r: Self)
        ensures
            r.person.name.type_@ == Seq::<char>::empty(),
            r.person.name.min == 0,
            r.person.name.max == 0,
            r.person.age.type_@ == Seq::<char>::empty(),
            r.person.age.min == 0,
            r.person.age.max == 0,
            r.person.email.type_@ == Seq::<char>::empty(),
            r.person.pensum.type_@ == Seq::<char>::empty(),
            r.person.pensum.min_value == 0,
            r.person.pensum.max_value == 0,
            r.person.pensum.default == 0,
    {
        ValidationRules { person: Person::default() }
    }
}

impl Default for DefaultSettings {
    fn default() -> (r: Self)
        ensures
            r.language@ == Seq::<char>::empty(),
    {
        DefaultSettings { language: String::new() }
    }
}

impl Default for Config {
    fn default() -> (r: Self)
        ensures
            is_zero_model(r),
    {
        Config {
            default_settings: DefaultSettings::default(),
            validation_rules: ValidationRules::default(),
        }
    }
}

} // verus!
