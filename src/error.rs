use vstd::prelude::*;

verus! {

/// Why a decode step failed.
#[derive(Debug, PartialEq, Eq)]
pub enum DeserializeError {
    /// A target that does not accept null met a null field.
    UnexpectedNull,
    /// The row has no field at the given position.
    UnexpectedEndOfRow(usize),
    /// A named lookup found no column of this name.
    ColumnNotFound(String),
    /// A present payload could not be read as the target type; the text
    /// says what was expected and what was found.
    ConversionError(String),
}

/// A decode failure with its text seen as characters.
pub enum ErrorView {
    UnexpectedNull,
    UnexpectedEndOfRow(usize),
    ColumnNotFound(Seq<char>),
    ConversionError(Seq<char>),
}

impl View for DeserializeError {
    type V = ErrorView;

    open spec fn view(&self) -> ErrorView {
        match self {
            DeserializeError::UnexpectedNull => ErrorView::UnexpectedNull,
            DeserializeError::UnexpectedEndOfRow(p) => ErrorView::UnexpectedEndOfRow(*p),
            DeserializeError::ColumnNotFound(n) => ErrorView::ColumnNotFound(n@),
            DeserializeError::ConversionError(m) => ErrorView::ConversionError(m@),
        }
    }
}

impl DeserializeError {
    /// Whether this is `UnexpectedNull`.
    pub fn is_unexpected_null(&self) -> (r: bool)
        ensures
            r == (self@ is UnexpectedNull),
    {
        match self {
            DeserializeError::UnexpectedNull => true,
            _ => false,
        }
    }

    /// The position of an `UnexpectedEndOfRow`, if this is one.
    pub fn end_of_row_position(&self) -> (r: Option<usize>)
        ensures
            match self@ {
                ErrorView::UnexpectedEndOfRow(p) => r == Some(p),
                _ => r is None,
            },
    {
        match self {
            DeserializeError::UnexpectedEndOfRow(p) => Some(*p),
            _ => None,
        }
    }

    /// The text of the error: the missing column's name, the conversion
    /// failure's cause, or a fixed description of the other kinds.
    pub fn message(&self) -> (r: String)
        ensures
            self@ matches ErrorView::ColumnNotFound(n) ==> r@ == n,
            self@ matches ErrorView::ConversionError(m) ==> r@ == m,
    {
        match self {
            DeserializeError::UnexpectedNull => String::from_str("unexpected null"),
            DeserializeError::UnexpectedEndOfRow(_) => String::from_str("unexpected end of row"),
            DeserializeError::ColumnNotFound(n) => n.clone(),
            DeserializeError::ConversionError(m) => m.clone(),
        }
    }
}

/// The outcome of one decode step.
pub type DecodeResult<T> = core::result::Result<T, DeserializeError>;

/// The outcome of one decode step as the contracts see it.
pub type SpecResult<T> = core::result::Result<T, ErrorView>;

/// A decode outcome with the value and the error seen through their views.
pub open spec fn dview<T: DeepView>(r: DecodeResult<T>) -> SpecResult<T::V> {
    match r {
        Ok(v) => Ok(v.deep_view()),
        Err(e) => Err(e@),
    }
}

} // verus!
