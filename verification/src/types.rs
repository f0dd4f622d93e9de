//! The records that cross the boundary of the pipeline, and their models.

use vstd::prelude::*;

verus! {

/// One emitted attribute of a token.
#[derive(Debug, Clone, PartialEq, Eq)]
pub struct FinalMetadata {
    pub public_key: String,
    pub alias: String,
    pub content: String,
    pub loose: i64,
    pub version: String,
}

/// An attribute as a mathematical value.
pub struct AttributeView {
    pub public_key: Seq<char>,
    pub alias: Seq<char>,
    pub content: Seq<char>,
    pub loose: int,
    pub version: Seq<char>,
}

impl View for FinalMetadata {
    type V = AttributeView;

    open spec fn view(&self) -> AttributeView {
        AttributeView {
            public_key: self.public_key@,
            alias: self.alias@,
            content: self.content@,
            loose: self.loose as int,
            version: self.version@,
        }
    }
}

/// The attributes that a list of records stands for, in order.
pub open spec fn attribute_views(metadatas: Seq<FinalMetadata>) -> Seq<AttributeView> {
    metadatas.map_values(|m: FinalMetadata| m@)
}

/// What `on_execute` and `on_mint` report.
#[derive(Debug, Clone, PartialEq, Eq)]
pub struct MetaContractResult {
    pub result: bool,
    pub metadatas: Vec<FinalMetadata>,
    pub error_string: String,
}

/// An outcome as a mathematical value.
pub struct OutcomeView {
    pub result: bool,
    pub attributes: Seq<AttributeView>,
    pub error: Seq<char>,
}

impl OutcomeView {
    /// The outcome that carries `attributes` and no error.
    pub open spec fn success(attributes: Seq<AttributeView>) -> OutcomeView {
        OutcomeView { result: true, attributes, error: Seq::empty() }
    }

    /// The outcome that carries `error` and no attribute.
    pub open spec fn failure(error: Seq<char>) -> OutcomeView {
        OutcomeView { result: false, attributes: Seq::empty(), error }
    }

    /// A success has no error text; a failure has one and no attribute.
    pub open spec fn well_formed(self) -> bool {
        if self.result {
            self.error.len() == 0
        } else {
            self.attributes.len() == 0 && self.error.len() > 0
        }
    }
}

impl View for MetaContractResult {
    type V = OutcomeView;

    open spec fn view(&self) -> OutcomeView {
        OutcomeView {
            result: self.result,
            attributes: attribute_views(self.metadatas@),
            error: self.error_string@,
        }
    }
}

impl MetaContractResult {
    /// The successful outcome that carries `metadatas`.
    pub fn success(metadatas: Vec<FinalMetadata>) -> (res: MetaContractResult)
        ensures
            res@ == OutcomeView::success(attribute_views(metadatas@)),
            res@.well_formed(),
    {
        MetaContractResult { result: true, metadatas, error_string: String::new() }
    }

    /// The failed outcome that reports `error`.
    pub fn failure(error: String) -> (res: MetaContractResult)
        requires
            error@.len() > 0,
        ensures
            res@ == OutcomeView::failure(error@),
            res@.well_formed(),
    {
        let res = MetaContractResult { result: false, metadatas: Vec::new(), error_string: error };
        assert(attribute_views(res.metadatas@) =~= Seq::empty());
        res
    }
}

/// A stored metadata entry of a token.
#[derive(Debug, Clone, PartialEq, Eq)]
pub struct Metadata {
    pub hash: String,
    pub token_key: String,
    pub data_key: String,
    pub meta_contract_id: String,
    pub token_id: String,
    pub alias: String,
    pub cid: String,
    pub public_key: String,
    pub version: String,
    pub loose: i64,
}

/// One on-chain action.
#[derive(Debug, Clone, PartialEq, Eq)]
pub struct Transaction {
    pub hash: String,
    pub method: String,
    pub meta_contract_id: String,
    pub data_key: String,
    pub token_key: String,
    pub data: String,
    pub public_key: String,
    pub alias: String,
    pub timestamp: u64,
    pub chain_id: String,
    pub token_address: String,
    pub token_id: String,
    pub version: String,
    pub status: i64,
    pub mcdata: String,
}

/// The identity of a metadata contract.
#[derive(Debug, Default, Clone, PartialEq, Eq)]
pub struct MetaContract {
    pub hash: String,
    pub token_key: String,
    pub meta_contract_id: String,
    pub public_key: String,
    pub cid: String,
}

/// The policy fields that a transaction's `mcdata` may carry.
#[derive(Debug, Default, Clone, Copy, PartialEq, Eq)]
pub struct SerdeMetadata {
    pub loose: i64,
}

/// A decoded event log.
#[derive(Debug, Clone, PartialEq, Eq)]
pub struct EventLogParamResult {
    pub event_name: String,
    pub params: Vec<DataLogParam>,
    pub success: bool,
    pub error_msg: String,
    pub data: String,
    pub block_number: u64,
    pub transaction_hash: String,
}

/// One named parameter of an event log.
#[derive(Debug, Clone, PartialEq, Eq)]
pub struct DataLogParam {
    pub name: String,
    pub kind: String,
    pub value: String,
}

/// A log parameter as a mathematical value.
pub struct ParamView {
    pub name: Seq<char>,
    pub kind: Seq<char>,
    pub value: Seq<char>,
}

impl View for DataLogParam {
    type V = ParamView;

    open spec fn view(&self) -> ParamView {
        ParamView { name: self.name@, kind: self.kind@, value: self.value@ }
    }
}

/// The parameters of a log as mathematical values, in order.
pub open spec fn param_views(params: Seq<DataLogParam>) -> Seq<ParamView> {
    params.map_values(|p: DataLogParam| p@)
}

/// What `on_event` reports, once per record of its list.
#[derive(Debug, Clone, PartialEq, Eq)]
pub struct MetaContractEventResult {
    pub result: bool,
    pub metadatas: Vec<FinalMetadata>,
    pub error_string: String,
    pub token_id: String,
    pub meta_contract_id: String,
}

/// An event outcome as a mathematical value.
pub struct EventOutcomeView {
    pub result: bool,
    pub attributes: Seq<AttributeView>,
    pub error: Seq<char>,
    pub token_id: Seq<char>,
    pub meta_contract_id: Seq<char>,
}

impl EventOutcomeView {
    /// A success has no error text; a failure has one and no attribute.
    pub open spec fn well_formed(self) -> bool {
        if self.result {
            self.error.len() == 0
        } else {
            self.attributes.len() == 0 && self.error.len() > 0
        }
    }
}

impl View for MetaContractEventResult {
    type V = EventOutcomeView;

    open spec fn view(&self) -> EventOutcomeView {
        EventOutcomeView {
            result: self.result,
            attributes: attribute_views(self.metadatas@),
            error: self.error_string@,
            token_id: self.token_id@,
            meta_contract_id: self.meta_contract_id@,
        }
    }
}

/// The event outcomes of a list as mathematical values, in order.
pub open spec fn event_outcome_views(outcomes: Seq<MetaContractEventResult>) -> Seq<
    EventOutcomeView,
> {
    outcomes.map_values(|o: MetaContractEventResult| o@)
}

} // verus!
