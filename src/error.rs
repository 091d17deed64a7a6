use vstd::prelude::*;

verus! {

/// A field of the structured digest state.
#[derive(Clone, Copy, Debug, PartialEq, Eq, Structural)]
pub enum Field {
    /// The list of centroid records.
    Centroids,
    /// The mean of one centroid record.
    Mean,
    /// The weight of one centroid record.
    Weight,
}

/// The constraint that an invalid argument broke.
#[derive(Clone, Copy, Debug, PartialEq, Eq, Structural)]
pub enum Violation {
    /// A digest is built from no values.
    EmptyValues,
    /// A digest is imported from no centroids.
    EmptyCentroids,
    /// A cumulative probability lies outside `[0, 1]`.
    QuantileRange,
    /// A percentile lies outside `[0, 100]`.
    PercentileRange,
    /// A trim range is not `0 <= q1 < q2 <= 1`.
    TrimRange,
    /// The digest holds no weight.
    ZeroWeight,
    /// No centroid overlaps the trim range.
    EmptyTrim,
}

/// Why an operation on a digest failed.
#[derive(Clone, Copy, Debug, PartialEq, Eq, Structural)]
pub enum DigestError {
    /// An argument broke a constraint of the operation.
    InvalidArgument(Violation),
    /// Imported state lacks a required field.
    MissingField(Field),
}

/// The text that describes an error to a user.
pub open spec fn message_spec(e: DigestError) -> Seq<char> {
    match e {
        DigestError::MissingField(Field::Centroids) => "Key 'centroids' not found in dictionary"@,
        DigestError::MissingField(Field::Mean) => "Centroid missing 'm' key"@,
        DigestError::MissingField(Field::Weight) => "Centroid missing 'c' key"@,
        DigestError::InvalidArgument(Violation::EmptyValues) => "Values list cannot be empty"@,
        DigestError::InvalidArgument(Violation::EmptyCentroids) => "Centroids list cannot be empty"@,
        DigestError::InvalidArgument(Violation::QuantileRange) => "q must be between 0 and 1."@,
        DigestError::InvalidArgument(Violation::PercentileRange) => "p must be between 0 and 100."@,
        DigestError::InvalidArgument(Violation::TrimRange) => "q1 must be >= 0, q2 must be <= 1, and q1 < q2"@,
        DigestError::InvalidArgument(Violation::ZeroWeight) => "Total weight is zero"@,
        DigestError::InvalidArgument(Violation::EmptyTrim) => "No data in the trimmed range"@,
    }
}

impl DigestError {
    /// The text that describes this error to a user, naming the constraint
    /// that was broken or the field that is missing.
    pub fn message(&self) -> (r: String)
        ensures
            r@ == message_spec(*self),
    {
        match self {
            DigestError::MissingField(Field::Centroids) => String::from_str("Key 'centroids' not found in dictionary"),
            DigestError::MissingField(Field::Mean) => String::from_str("Centroid missing 'm' key"),
            DigestError::MissingField(Field::Weight) => String::from_str("Centroid missing 'c' key"),
            DigestError::InvalidArgument(Violation::EmptyValues) => String::from_str("Values list cannot be empty"),
            DigestError::InvalidArgument(Violation::EmptyCentroids) => String::from_str("Centroids list cannot be empty"),
            DigestError::InvalidArgument(Violation::QuantileRange) => String::from_str("q must be between 0 and 1."),
            DigestError::InvalidArgument(Violation::PercentileRange) => String::from_str("p must be between 0 and 100."),
            DigestError::InvalidArgument(Violation::TrimRange) => String::from_str("q1 must be >= 0, q2 must be <= 1, and q1 < q2"),
            DigestError::InvalidArgument(Violation::ZeroWeight) => String::from_str("Total weight is zero"),
            DigestError::InvalidArgument(Violation::EmptyTrim) => String::from_str("No data in the trimmed range"),
        }
    }
}

} // verus!
