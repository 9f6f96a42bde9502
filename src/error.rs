use vstd::prelude::*;

verus! {

/// Why a document could not be decoded.
#[derive(Debug)]
pub enum WifError {
    MissingRequiredField { section: String, field: String },
    FieldParseError { section: String, field: String, err: Box<WifError> },
    InvalidDate { saw: String },
    InvalidNumber { saw: String },
    InvalidFloat { saw: String },
    ExpectedPair { saw: String },
    ExpectedBool { saw: String },
    ExpectedSymbol { saw: String },
    MissingSection { section: String },
    CouldNotParseTableKey { section: String, key: String },
    LiftPlanDoesNotMatchTreadling,
    ColorsMustBeThreeParts,
}

/// The mathematical value of a [`WifError`]: its texts as character sequences.
pub enum ErrorModel {
    MissingRequiredField { section: Seq<char>, field: Seq<char> },
    FieldParseError { section: Seq<char>, field: Seq<char>, err: Box<ErrorModel> },
    InvalidDate { saw: Seq<char> },
    InvalidNumber { saw: Seq<char> },
    InvalidFloat { saw: Seq<char> },
    ExpectedPair { saw: Seq<char> },
    ExpectedBool { saw: Seq<char> },
    ExpectedSymbol { saw: Seq<char> },
    MissingSection { section: Seq<char> },
    CouldNotParseTableKey { section: Seq<char>, key: Seq<char> },
    LiftPlanDoesNotMatchTreadling,
    ColorsMustBeThreeParts,
}

pub open spec fn error_model(e: WifError) -> ErrorModel
    decreases e,
{
    match e {
        WifError::MissingRequiredField { section, field } => ErrorModel::MissingRequiredField {
            section: section@,
            field: field@,
        },
        WifError::FieldParseError { section, field, err } => ErrorModel::FieldParseError {
            section: section@,
            field: field@,
            err: Box::new(error_model(*err)),
        },
        WifError::InvalidDate { saw } => ErrorModel::InvalidDate { saw: saw@ },
        WifError::InvalidNumber { saw } => ErrorModel::InvalidNumber { saw: saw@ },
        WifError::InvalidFloat { saw } => ErrorModel::InvalidFloat { saw: saw@ },
        WifError::ExpectedPair { saw } => ErrorModel::ExpectedPair { saw: saw@ },
        WifError::ExpectedBool { saw } => ErrorModel::ExpectedBool { saw: saw@ },
        WifError::ExpectedSymbol { saw } => ErrorModel::ExpectedSymbol { saw: saw@ },
        WifError::MissingSection { section } => ErrorModel::MissingSection { section: section@ },
        WifError::CouldNotParseTableKey { section, key } => ErrorModel::CouldNotParseTableKey {
            section: section@,
            key: key@,
        },
        WifError::LiftPlanDoesNotMatchTreadling => ErrorModel::LiftPlanDoesNotMatchTreadling,
        WifError::ColorsMustBeThreeParts => ErrorModel::ColorsMustBeThreeParts,
    }
}

impl View for WifError {
    type V = ErrorModel;

    open spec fn view(&self) -> ErrorModel {
        error_model(*self)
    }
}

/// The model of a decoding outcome.
pub open spec fn outcome<T: View>(r: Result<T, WifError>) -> Result<T::V, ErrorModel> {
    match r {
        Ok(v) => Ok(v@),
        Err(e) => Err(e@),
    }
}

impl WifError {
    /// Wraps a decoding failure with the section and field it was read from.
    pub fn in_field(self, section: &str, field: &str) -> (r: WifError)
        ensures
            r@ == (ErrorModel::FieldParseError {
                section: section@,
                field: field@,
                err: Box::new(self@),
            }),
    {
        WifError::FieldParseError {
            section: section.to_owned(),
            field: field.to_owned(),
            err: Box::new(self),
        }
    }
}

} // verus!
