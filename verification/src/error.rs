//! The decode-time error taxonomy: every failure names the offending field,
//! tag or value, so a caller can diagnose it without re-running.
use crate::json::JsonVal;
use vstd::prelude::*;

verus! {

/// The fields a decoder may report as missing or of the wrong type.
#[derive(Clone, Copy, Debug, PartialEq, Eq, Structural)]
pub enum FieldName {
    ResourceType,
    ResponseType,
    Items,
    Panel,
    Link,
    SourceMediaId,
    Title,
    Slug,
    Description,
    ButtonText,
    Images,
    LandscapePoster,
    PortraitPoster,
    MobileSmall,
    MobileLarge,
    DesktopSmall,
    DesktopLarge,
    Ids,
    Id,
}

/// Why a raw object could not be decoded.  Unknown tags carry the offending
/// tag and the rest of the raw object for diagnostics.
#[derive(Debug)]
pub enum DecodeError {
    MissingField(FieldName),
    WrongFieldType(FieldName),
    UnknownVariant { tag: String, raw: Vec<(String, JsonVal)> },
    MalformedQueryString,
    MalformedNumericValue,
}

/// The spec-level shape of a `DecodeError`.
pub enum DecodeErrorView {
    MissingField(FieldName),
    WrongFieldType(FieldName),
    UnknownVariant { tag: Seq<char>, raw: Seq<(String, JsonVal)> },
    MalformedQueryString,
    MalformedNumericValue,
}

impl View for DecodeError {
    type V = DecodeErrorView;

    open spec fn view(&self) -> DecodeErrorView {
        match self {
            DecodeError::MissingField(f) => DecodeErrorView::MissingField(*f),
            DecodeError::WrongFieldType(f) => DecodeErrorView::WrongFieldType(*f),
            DecodeError::UnknownVariant { tag, raw } => DecodeErrorView::UnknownVariant {
                tag: tag@,
                raw: raw@,
            },
            DecodeError::MalformedQueryString => DecodeErrorView::MalformedQueryString,
            DecodeError::MalformedNumericValue => DecodeErrorView::MalformedNumericValue,
        }
    }
}

/// An opaque transport-level failure, propagated unchanged: the core places
/// no policy of its own on it.
#[derive(Clone, Debug, PartialEq)]
pub struct TransportError {
    pub message: String,
}

} // verus!
