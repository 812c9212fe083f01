//! What can go wrong.

use crate::catalog::config::{Container, ContainerView, Double};
use crate::time::TimeOverflow;
use vstd::prelude::*;

verus! {

/// The value of a catalog field, in an error.
#[derive(Debug, PartialEq)]
pub enum FieldValue {
    /// A codec, with every parameter written out.
    Codec(String),
    Number(u32),
    Bytes(Vec<u8>),
    Container(Container),
    Rate(Double),
}

/// The mathematical form of a [`FieldValue`].
pub enum FieldView {
    Codec(Seq<char>),
    Number(u32),
    Bytes(Seq<u8>),
    Container(ContainerView),
    Rate(Double),
}

impl View for FieldValue {
    type V = FieldView;

    open spec fn view(&self) -> FieldView {
        match self {
            FieldValue::Codec(detail) => FieldView::Codec(detail@),
            FieldValue::Number(n) => FieldView::Number(*n),
            FieldValue::Bytes(bytes) => FieldView::Bytes(bytes@),
            FieldValue::Container(container) => FieldView::Container(container@),
            FieldValue::Rate(rate) => FieldView::Rate(*rate),
        }
    }
}

/// A field of a config that is not what was expected of it.
pub struct Mismatch {
    pub field: Seq<char>,
    pub actual: FieldView,
    pub expected: FieldView,
}

#[derive(Debug, PartialEq)]
pub enum MuxError {
    /// A config disagrees with a field that the caller provided.
    InitMismatch { field: &'static str, actual: FieldValue, expected: FieldValue },
    /// A timestamp is too large.
    Timestamp(TimeOverflow),
}

impl MuxError {
    /// This error reports exactly `mismatch`.
    pub open spec fn reports(self, mismatch: Mismatch) -> bool {
        self matches MuxError::InitMismatch { field, actual, expected } && field@ == mismatch.field
            && actual@ == mismatch.actual && expected@ == mismatch.expected
    }
}

} // verus!
