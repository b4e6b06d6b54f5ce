//! References from one call of a batch to the results of earlier calls.

use vstd::prelude::*;
use crate::request::method::MethodName;
use crate::types::id::Id;
use crate::types::property::Property;
use crate::types::property::PropertyView;

verus! {

/// One step of a path into a result document.
#[derive(Clone, Debug, PartialEq, Eq)]
pub enum PathItem {
    /// Into the property of that name of an object.
    Property(Property),
    /// Into every item of a list.
    Wildcard,
}

pub enum PathItemView {
    Property(PropertyView),
    Wildcard,
}

impl View for PathItem {
    type V = PathItemView;

    open spec fn view(&self) -> PathItemView {
        match self {
            PathItem::Property(property) => PathItemView::Property(property@),
            PathItem::Wildcard => PathItemView::Wildcard,
        }
    }
}

/// The steps of a path as contracts see them, in order.
pub open spec fn path_view(path: Seq<PathItem>) -> Seq<PathItemView> {
    Seq::new(path.len(), |i: int| path[i]@)
}

/// Names a value in the response of an earlier call of the same batch: the
/// call by its call-id and its method name, the value by a path into the
/// result.
#[derive(Clone, Debug, PartialEq, Eq)]
pub struct ResultReference {
    pub result_of: String,
    pub name: MethodName,
    pub path: Vec<PathItem>,
}

pub struct ResultReferenceView {
    pub result_of: Seq<char>,
    pub name: MethodName,
    pub path: Seq<PathItemView>,
}

impl View for ResultReference {
    type V = ResultReferenceView;

    open spec fn view(&self) -> ResultReferenceView {
        ResultReferenceView {
            result_of: self.result_of@,
            name: self.name,
            path: path_view(self.path@),
        }
    }
}

/// A list of ids, given outright or as a reference to an earlier result.
#[derive(Clone, Debug, PartialEq, Eq)]
pub enum MaybeReference {
    Value(Vec<Id>),
    Reference(ResultReference),
}

/// A list of ids as contracts see it.
pub open spec fn ids_view(ids: Seq<Id>) -> Seq<u64> {
    Seq::new(ids.len(), |i: int| ids[i]@)
}

pub enum IdsView {
    Value(Seq<u64>),
    Reference(ResultReferenceView),
}

impl View for MaybeReference {
    type V = IdsView;

    open spec fn view(&self) -> IdsView {
        match self {
            MaybeReference::Value(ids) => IdsView::Value(ids_view(ids@)),
            MaybeReference::Reference(reference) => IdsView::Reference(reference@),
        }
    }
}

} // verus!
