//! The ownership records of a linked dataset.

use vstd::prelude::*;

verus! {

/// One ownership record of a dataset: who owns which content.
#[derive(Debug, Clone, PartialEq, Eq)]
pub struct DataStructFork {
    /// The identity of the owner.
    pub owner: String,
    /// The reference to the owned content.
    pub cid: String,
    /// The data key under which the record was filed.
    pub data_key: String,
    /// The version of the record; empty where the dataset names none.
    pub version: String,
}

/// An ownership record as a mathematical value.
pub struct RecordView {
    pub owner: Seq<char>,
    pub cid: Seq<char>,
    pub data_key: Seq<char>,
    pub version: Seq<char>,
}

impl View for DataStructFork {
    type V = RecordView;

    open spec fn view(&self) -> RecordView {
        RecordView {
            owner: self.owner@,
            cid: self.cid@,
            data_key: self.data_key@,
            version: self.version@,
        }
    }
}

/// Who owns the content behind a link.
#[derive(Debug, Clone, PartialEq, Eq)]
pub struct BeatOwnership {
    /// The reference to the owned content.
    pub url: String,
    /// The identity of the owner.
    pub owner: String,
}

/// An ownership as a mathematical value.
pub struct OwnershipView {
    pub url: Seq<char>,
    pub owner: Seq<char>,
}

impl View for BeatOwnership {
    type V = OwnershipView;

    open spec fn view(&self) -> OwnershipView {
        OwnershipView { url: self.url@, owner: self.owner@ }
    }
}

impl DataStructFork {
    /// The ownership that the record states: its content reference as the
    /// link, and its owner.
    pub fn ownership(&self) -> (res: BeatOwnership)
        ensures
            res@ == (OwnershipView { url: self.cid@, owner: self.owner@ }),
    {
        BeatOwnership { url: self.cid.clone(), owner: self.owner.clone() }
    }
}

/// A trait of a token as marketplaces display it.
#[derive(Debug, Clone, PartialEq, Eq)]
pub struct OpenSeaAttributes {
    pub display_type: String,
    pub trait_type: String,
    pub value: i32,
}

/// The records of a list as mathematical values, in order.
pub open spec fn record_views(records: Seq<DataStructFork>) -> Seq<RecordView> {
    records.map_values(|r: DataStructFork| r@)
}

} // verus!
