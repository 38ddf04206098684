//! Candidate records: validated construction of users and updates.
//!
//! A [`User`] only comes to exist after full validation against one
//! snapshot, an [`UpdatedUser`] after partial validation; both carry the
//! submitted text fields unchanged. [`MSG`] wraps a message for the
//! response body.

use crate::config::Config;
use crate::validation::{
    message_view, opt_view, update_first_error, user_first_error, validate_update, validate_user,
};
use vstd::prelude::*;

verus! {

/// A full, validated person record, as submitted.
#[derive(Debug, Clone)]
pub struct User {
    pub first_name: String,
    pub last_name: String,
    pub age: String,
    pub pensum: String,
    pub location: String,
    pub occupation: String,
    pub ahv_nr: String,
}

impl User {
    /// Builds a record from submitted fields if and only if the full
    /// validation accepts them; otherwise hands back its rejection
    /// message. The built record carries the fields unchanged.
    pub fn new(
        config: Config,
        first_name: String,
        last_name: String,
        age: String,
        pensum: String,
        location: String,
        occupation: String,
        ahv_nr: String,
    ) -> (r: Result<User, String>)
        ensures
            ({
                let fe = user_first_error(
                    config,
                    first_name@,
                    last_name@,
                    age@,
                    pensum@,
                    location@,
                    occupation@,
                    ahv_nr@,
                );
                &&& (r is Ok <==> fe is None)
                &&& (r matches Ok(u) ==> u.first_name == first_name && u.last_name == last_name
                    && u.age == age && u.pensum == pensum && u.location == location
                    && u.occupation == occupation && u.ahv_nr == ahv_nr)
                &&& (r matches Err(m) ==> fe matches Some(e) && m@ == message_view(e))
            }),
    {
        match validate_user(
            config,
            first_name.as_str(),
            last_name.as_str(),
            age.as_str(),
            pensum.as_str(),
            location.as_str(),
            occupation.as_str(),
            ahv_nr.as_str(),
        ) {
            Ok(()) => Ok(
                User { first_name, last_name, age, pensum, location, occupation, ahv_nr },
            ),
            Err(m) => Err(m),
        }
    }
}

/// A partial person record for an update: absent fields stay unchanged.
#[derive(Debug, Clone)]
pub struct UpdatedUser {
    pub first_name: Option<String>,
    pub last_name: Option<String>,
    pub age: Option<String>,
    pub pensum: Option<String>,
    pub location: Option<String>,
    pub occupation: Option<String>,
    pub ahv_nr: Option<String>,
}

impl UpdatedUser {
    /// Builds an update from submitted optional fields if and only if the
    /// partial validation accepts every present one; otherwise hands back
    /// its rejection message. The built update carries the fields
    /// unchanged.
    pub fn new(
        config: Config,
        first_name: Option<String>,
        last_name: Option<String>,
        age: Option<String>,
        pensum: Option<String>,
        location: Option<String>,
        occupation: Option<String>,
        ahv_nr: Option<String>,
    ) -> (r: Result<UpdatedUser, String>)
        ensures
            ({
                let fe = update_first_error(
                    config,
                    opt_view(first_name),
                    opt_view(last_name),
                    opt_view(age),
                    opt_view(pensum),
                    opt_view(location),
                    opt_view(occupation),
                    opt_view(ahv_nr),
                );
                &&& (r is Ok <==> fe is None)
                &&& (r matches Ok(u) ==> u.first_name == first_name && u.last_name == last_name
                    && u.age == age && u.pensum == pensum && u.location == location
                    && u.occupation == occupation && u.ahv_nr == ahv_nr)
                &&& (r matches Err(m) ==> fe matches Some(e) && m@ == message_view(e))
            }),
    {
        match validate_update(
            config,
            &first_name,
            &last_name,
            &age,
            &pensum,
            &location,
            &occupation,
            &ahv_nr,
        ) {
            Ok(()) => Ok(
                UpdatedUser { first_name, last_name, age, pensum, location, occupation, ahv_nr },
            ),
            Err(m) => Err(m),
        }
    }
}

/// A plain message wrapper for response bodies.
#[derive(Debug, Clone)]
pub struct MSG {
    pub message: String,
}

} // verus!
