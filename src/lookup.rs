use vstd::prelude::*;

use crate::status::str_eq;

verus! {

/// The result of a phone number lookup.
#[derive(Debug, Clone)]
pub struct PhoneNumberInfo {
    pub calling_country_code: String,
    pub country_code: String,
    pub line_type_intelligence: Option<LineTypeIntelligence>,
    pub national_format: String,
    pub phone_number: String,
    pub url: String,
    pub valid: bool,
    pub validation_errors: Vec<ValidationError>,
}

/// What the carrier reports about a number's line.
#[derive(Debug, Clone)]
pub struct LineTypeIntelligence {
    pub carrier_name: String,
    /// A non-zero error code, where the carrier gave one.
    pub error_code: Option<u32>,
    pub mobile_country_code: String,
    pub mobile_network_code: String,
    pub kind: NumberType,
}

#[derive(Debug, Clone, Copy, PartialEq, Eq, Structural)]
pub enum NumberType {
    Landline,
    Mobile,
    FixedVoip,
    NonFixedVoip,
    Personal,
    TollFree,
    Premium,
    SharedCost,
    UniversalAccessNumber,
    Voicemail,
    Pager,
    Unknown,
}

/// The number type with wire name `s`, if any.
pub open spec fn number_type_of_name(s: Seq<char>) -> Option<NumberType> {
    if s == "landline"@ { Some(NumberType::Landline) }
    else if s == "mobile"@ { Some(NumberType::Mobile) }
    else if s == "fixedVoip"@ { Some(NumberType::FixedVoip) }
    else if s == "nonFixedVoip"@ { Some(NumberType::NonFixedVoip) }
    else if s == "personal"@ { Some(NumberType::Personal) }
    else if s == "tollFree"@ { Some(NumberType::TollFree) }
    else if s == "premium"@ { Some(NumberType::Premium) }
    else if s == "sharedCost"@ { Some(NumberType::SharedCost) }
    else if s == "uan"@ { Some(NumberType::UniversalAccessNumber) }
    else if s == "voicemail"@ { Some(NumberType::Voicemail) }
    else if s == "pager"@ { Some(NumberType::Pager) }
    else if s == "unknown"@ { Some(NumberType::Unknown) }
    else { None }
}

impl NumberType {
    /// Reads a number type from its wire name.
    pub fn from_wire(s: &str) -> (r: Option<NumberType>)
        ensures
            r == number_type_of_name(s@),
    {
        if str_eq(s, "landline") { Some(NumberType::Landline) }
        else if str_eq(s, "mobile") { Some(NumberType::Mobile) }
        else if str_eq(s, "fixedVoip") { Some(NumberType::FixedVoip) }
        else if str_eq(s, "nonFixedVoip") { Some(NumberType::NonFixedVoip) }
        else if str_eq(s, "personal") { Some(NumberType::Personal) }
        else if str_eq(s, "tollFree") { Some(NumberType::TollFree) }
        else if str_eq(s, "premium") { Some(NumberType::Premium) }
        else if str_eq(s, "sharedCost") { Some(NumberType::SharedCost) }
        else if str_eq(s, "uan") { Some(NumberType::UniversalAccessNumber) }
        else if str_eq(s, "voicemail") { Some(NumberType::Voicemail) }
        else if str_eq(s, "pager") { Some(NumberType::Pager) }
        else if str_eq(s, "unknown") { Some(NumberType::Unknown) }
        else { None }
    }
}

#[derive(Debug, Clone, Copy, PartialEq, Eq, Structural)]
pub enum ValidationError {
    TooShort,
    TooLong,
    InvalidButPossible,
    InvalidCountryCode,
    InvalidLength,
    NotANumber,
}

/// The validation error with wire name `s`, if any.
pub open spec fn validation_error_of_name(s: Seq<char>) -> Option<ValidationError> {
    if s == "TOO_SHORT"@ { Some(ValidationError::TooShort) }
    else if s == "TOO_LONG"@ { Some(ValidationError::TooLong) }
    else if s == "INVALID_BUT_POSSIBLE"@ { Some(ValidationError::InvalidButPossible) }
    else if s == "INVALID_COUNTRY_CODE"@ { Some(ValidationError::InvalidCountryCode) }
    else if s == "INVALID_LENGTH"@ { Some(ValidationError::InvalidLength) }
    else if s == "NOT_A_NUMBER"@ { Some(ValidationError::NotANumber) }
    else { None }
}

impl ValidationError {
    /// Reads a validation error from its wire name.
    pub fn from_wire(s: &str) -> (r: Option<ValidationError>)
        ensures
            r == validation_error_of_name(s@),
    {
        if str_eq(s, "TOO_SHORT") { Some(ValidationError::TooShort) }
        else if str_eq(s, "TOO_LONG") { Some(ValidationError::TooLong) }
        else if str_eq(s, "INVALID_BUT_POSSIBLE") { Some(ValidationError::InvalidButPossible) }
        else if str_eq(s, "INVALID_COUNTRY_CODE") { Some(ValidationError::InvalidCountryCode) }
        else if str_eq(s, "INVALID_LENGTH") { Some(ValidationError::InvalidLength) }
        else if str_eq(s, "NOT_A_NUMBER") { Some(ValidationError::NotANumber) }
        else { None }
    }
}

} // verus!
