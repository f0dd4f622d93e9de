//! The metadata pipeline: what a transaction, a mint or an event makes of a
//! token's attributes.
//!
//! No function here performs a fetch. Where a mint or an event links a
//! dataset, the first call ends in a step that holds the command for the
//! content store; the caller runs it and hands the reply to the second call.
//!
//! A mint with data carries the ownerships of its dataset in one strict
//! attribute `beats`, under the contract's public key. An event gives each
//! ownership record an attribute of its own, without alias and under the
//! owner's key. An event reports a list of outcomes: it ends in a success,
//! and a failure stands before that where the enrichment failed.

use crate::beats::{beats_content, beats_text, ownerships, ownerships_of};
use crate::data::{record_views, DataStructFork, RecordView};
use crate::dataset::{dataset_of, records_from, records_result_view};
use crate::decoder::{
    abi_strings, decode_payload, decoded_payload, field_fits, fields_fit, law_decode_keeps_fields,
    read_back, PAYLOAD_FIELDS,
};
use crate::errors::{
    fault_message, lemma_fault_message_nonempty, Fault, PipelineError,
};
use crate::hexcode::{hex_string, is_hex};
use crate::json::{json_member, json_reading, json_result_view, parse_json, Json, JsonView};
use crate::params::{find, find_param, param_value};
use crate::store::{fetched_text, get, get_command, reply_text, ContentReply};
use crate::text::texts;
use crate::types::{
    attribute_views, event_outcome_views, param_views, AttributeView, EventLogParamResult,
    EventOutcomeView, FinalMetadata, MetaContract, MetaContractEventResult, MetaContractResult,
    Metadata, OutcomeView, ParamView, SerdeMetadata, Transaction,
};
use vstd::prelude::*;

verus! {

/// The looseness of an attribute whose transaction names none.
pub const DEFAULT_LOOSE: i64 = 1;

/// The name of the only event that is processed.
pub const EVENT_NAME: &'static str = "NFTify";

/// The routing identifier that every event outcome carries.
pub const META_CONTRACT_ID: &'static str = "0x01";

/// The error text of a failed event.
pub const NOTHING_TO_PROCESS: &'static str = "No event/data to process";

/// What stands before the token identifier in a token's name.
pub const NAME_PREFIX: &'static str = "Collabeat #";

/// The description of every token.
pub const DESCRIPTION: &'static str = "Co-Create, Collaborate and Own The Beat";

/// The image of every token.
pub const IMAGE: &'static str =
    "ipfs://bafkreighs4ragor6ricmcqc6yz73jdd5uo3aalwdcidl3psanpeoprplxm";

// ---------------------------------------------------------------- execute

/// The policy fields of a document: present if the document is an object
/// whose member `loose` is an integer.
pub open spec fn policy_of(tree: JsonView) -> Option<SerdeMetadata> {
    match json_member(tree, "loose"@) {
        Some(JsonView::Number(Some(n))) => Some(SerdeMetadata { loose: n }),
        _ => None,
    }
}

/// The looseness that a parsed `mcdata` asks for: its integer `loose`, and
/// the default where the text is no JSON or names none.
pub open spec fn loose_of(parsed: Result<JsonView, Seq<char>>) -> i64 {
    match parsed {
        Ok(tree) => match policy_of(tree) {
            Some(policy) => policy.loose,
            None => DEFAULT_LOOSE,
        },
        Err(_) => DEFAULT_LOOSE,
    }
}

/// The outcome of an execution: one attribute, made of the transaction's own
/// fields and the given looseness.
pub open spec fn execute_outcome(
    public_key: Seq<char>,
    alias: Seq<char>,
    data: Seq<char>,
    version: Seq<char>,
    loose: i64,
) -> OutcomeView {
    OutcomeView::success(
        seq![AttributeView { public_key, alias, content: data, loose: loose as int, version }],
    )
}

impl SerdeMetadata {
    /// Reads the policy fields of a document.
    pub fn read(tree: &Json) -> (res: Option<SerdeMetadata>)
        ensures
            res == policy_of(tree@),
    {
        match tree.member(&String::from_str("loose")) {
            Some(Json::Number(Some(n))) => Some(SerdeMetadata { loose: *n }),
            _ => None,
        }
    }
}

/// The looseness that a parsed `mcdata` asks for.
pub fn loose_from(parsed: &Result<Json, String>) -> (res: i64)
    ensures
        res == loose_of(json_result_view(*parsed)),
{
    match parsed {
        Ok(tree) => match SerdeMetadata::read(tree) {
            Some(policy) => policy.loose,
            None => DEFAULT_LOOSE,
        },
        Err(_) => DEFAULT_LOOSE,
    }
}

/// Executes a transaction whose `mcdata` has been parsed already.
pub fn execute_with(transaction: Transaction, parsed: &Result<Json, String>) -> (res:
    MetaContractResult)
    ensures
        res@ == execute_outcome(
            transaction.public_key@,
            transaction.alias@,
            transaction.data@,
            transaction.version@,
            loose_of(json_result_view(*parsed)),
        ),
        res@.well_formed(),
{
    let mut finals: Vec<FinalMetadata> = Vec::new();
    finals.push(
        FinalMetadata {
            public_key: transaction.public_key,
            alias: transaction.alias,
            content: transaction.data,
            version: transaction.version,
            loose: loose_from(parsed),
        },
    );
    assert(attribute_views(finals@) =~= seq![finals@[0]@]);
    MetaContractResult::success(finals)
}

/// Executes a transaction: one attribute with the transaction's public key,
/// alias, payload and version. Its looseness is the integer `loose` of the
/// transaction's `mcdata`, and 1 where `mcdata` is no JSON or names none.
pub fn on_execute(contract: MetaContract, metadatas: Vec<Metadata>, transaction: Transaction) -> (res:
    MetaContractResult)
    ensures
        res@ == execute_outcome(
            transaction.public_key@,
            transaction.alias@,
            transaction.data@,
            transaction.version@,
            loose_of(json_reading(transaction.mcdata@)),
        ),
        res@.result,
        res@.attributes.len() == 1,
        res@.well_formed(),
{
    let parsed: Result<Json, String> = parse_json(transaction.mcdata.as_str());
    execute_with(transaction, &parsed)
}

/// The looseness of an executed transaction is 1 unless its `mcdata` is a
/// JSON object with an integer member `loose`, and then it is that integer.
pub proof fn law_execute_looseness(parsed: Result<JsonView, Seq<char>>)
    ensures
        parsed is Err ==> loose_of(parsed) == 1,
        parsed is Ok && policy_of(parsed->Ok_0) is None ==> loose_of(parsed) == 1,
        forall|n: i64|
            parsed is Ok && json_member(parsed->Ok_0, "loose"@) == Some(
                JsonView::Number(Some(n)),
            ) ==> loose_of(parsed) == n,
{
}

/// Whether a contract may be cloned: always.
pub fn on_clone() -> (res: bool)
    ensures
        res,
{
    true
}

// ------------------------------------------------------------------- mint

/// The three attributes that every minted token has: name, description and
/// image, in this order.
pub open spec fn fixed_attributes(public_key: Seq<char>, token_id: Seq<char>) -> Seq<
    AttributeView,
> {
    seq![
        AttributeView {
            public_key,
            alias: "name"@,
            content: NAME_PREFIX@ + token_id,
            loose: 1,
            version: Seq::empty(),
        },
        AttributeView {
            public_key,
            alias: "description"@,
            content: DESCRIPTION@,
            loose: 1,
            version: Seq::empty(),
        },
        AttributeView {
            public_key,
            alias: "image"@,
            content: IMAGE@,
            loose: 1,
            version: Seq::empty(),
        },
    ]
}

/// The attribute that stands for an ownership record in an event: the owner
/// as public key, the content reference as content, no alias, strict.
pub open spec fn record_attribute(record: RecordView) -> AttributeView {
    AttributeView {
        public_key: record.owner,
        alias: Seq::empty(),
        content: record.cid,
        loose: 0,
        version: record.version,
    }
}

/// The attributes that stand for a list of ownership records in an event,
/// one each.
pub open spec fn record_attributes(records: Seq<RecordView>) -> Seq<AttributeView> {
    records.map_values(|r: RecordView| record_attribute(r))
}

/// The attribute that carries the ownerships of a minted token: alias
/// `beats`, the contract's public key, the wire form of the list, strict.
pub open spec fn beats_attribute(public_key: Seq<char>, records: Seq<RecordView>) -> AttributeView {
    AttributeView {
        public_key,
        alias: "beats"@,
        content: beats_text(ownerships_of(records)),
        loose: 0,
        version: Seq::empty(),
    }
}

/// The outcome of a mint without data: the three fixed attributes.
pub open spec fn plain_mint_outcome(public_key: Seq<char>, token_id: Seq<char>) -> OutcomeView {
    OutcomeView::success(fixed_attributes(public_key, token_id))
}

/// The outcome of a mint with data, given what the linked dataset held: the
/// attribute `beats`, then the three fixed ones. A failure of the enrichment
/// fails the mint as a whole.
pub open spec fn mint_outcome(
    public_key: Seq<char>,
    token_id: Seq<char>,
    enrichment: Result<Seq<RecordView>, Fault>,
) -> OutcomeView {
    match enrichment {
        Ok(records) => OutcomeView::success(
            seq![beats_attribute(public_key, records)] + fixed_attributes(public_key, token_id),
        ),
        Err(fault) => OutcomeView::failure(fault_message(fault)),
    }
}

/// The records that a reply of the content store delivers.
pub open spec fn enrichment_of(ret_code: i32, error: Seq<char>, stdout: Seq<u8>) -> Result<
    Seq<RecordView>,
    Fault,
> {
    match reply_text(ret_code, error, stdout) {
        Ok(text) => dataset_of(json_reading(text)),
        Err(fault) => Err(fault),
    }
}

/// A mint with data is all or nothing. Where the enrichment failed, the
/// outcome is a failure without any attribute and with an error text. Where
/// it did not, the outcome is a success with four attributes: `beats`, `name`,
/// `description` and `image`, in this order, each under the contract's public
/// key.
pub proof fn law_mint_all_or_nothing(
    public_key: Seq<char>,
    token_id: Seq<char>,
    enrichment: Result<Seq<RecordView>, Fault>,
)
    ensures
        mint_outcome(public_key, token_id, enrichment).well_formed(),
        mint_outcome(public_key, token_id, enrichment).result == (enrichment is Ok),
        enrichment is Err ==> mint_outcome(public_key, token_id, enrichment).attributes.len()
            == 0,
        enrichment is Ok ==> {
            let attributes = mint_outcome(public_key, token_id, enrichment).attributes;
            &&& attributes.len() == 4
            &&& attributes[0] == beats_attribute(public_key, enrichment->Ok_0)
            &&& attributes.subrange(1, 4) == fixed_attributes(public_key, token_id)
            &&& attributes[0].alias == "beats"@
            &&& attributes[0].loose == 0
            &&& attributes[1].alias == "name"@
            &&& attributes[2].alias == "description"@
            &&& attributes[3].alias == "image"@
            &&& forall|i: int| 0 <= i < 4 ==> (#[trigger] attributes[i]).public_key == public_key
        },
{
    match enrichment {
        Ok(records) => {
            let attributes = mint_outcome(public_key, token_id, enrichment).attributes;
            assert(attributes.subrange(1, 4) =~= fixed_attributes(public_key, token_id));
        },
        Err(fault) => {
            lemma_fault_message_nonempty(fault);
        },
    }
}

/// A mint without data succeeds with `name`, `description` and `image`, in
/// this order, each under the contract's public key.
pub proof fn law_mint_without_data(public_key: Seq<char>, token_id: Seq<char>)
    ensures
        plain_mint_outcome(public_key, token_id).well_formed(),
        plain_mint_outcome(public_key, token_id).result,
        plain_mint_outcome(public_key, token_id).attributes.len() == 3,
        plain_mint_outcome(public_key, token_id).attributes[0].alias == "name"@,
        plain_mint_outcome(public_key, token_id).attributes[1].alias == "description"@,
        plain_mint_outcome(public_key, token_id).attributes[2].alias == "image"@,
        forall|i: int|
            0 <= i < 3 ==> (#[trigger] plain_mint_outcome(
                public_key,
                token_id,
            ).attributes[i]).public_key == public_key,
{
}

/// A mint that waits for its linked dataset.
#[derive(Debug, Clone, PartialEq, Eq)]
pub struct PendingMint {
    /// The public key of the contract.
    pub public_key: String,
    /// The identifier of the token.
    pub token_id: String,
    /// The command that fetches the dataset.
    pub command: Vec<String>,
}

/// A waiting mint as a mathematical value.
pub struct PendingMintView {
    pub public_key: Seq<char>,
    pub token_id: Seq<char>,
    pub command: Seq<Seq<char>>,
}

impl View for PendingMint {
    type V = PendingMintView;

    open spec fn view(&self) -> PendingMintView {
        PendingMintView {
            public_key: self.public_key@,
            token_id: self.token_id@,
            command: texts(self.command@),
        }
    }
}

/// Where a mint stands after its first step.
#[derive(Debug, Clone, PartialEq, Eq)]
pub enum MintStep {
    /// The mint is decided.
    Done(MetaContractResult),
    /// The mint needs the dataset that the command fetches.
    Fetch(PendingMint),
}

/// A step of a mint as a mathematical value.
pub enum MintStepView {
    Done(OutcomeView),
    Fetch(PendingMintView),
}

impl View for MintStep {
    type V = MintStepView;

    open spec fn view(&self) -> MintStepView {
        match self {
            MintStep::Done(outcome) => MintStepView::Done(outcome@),
            MintStep::Fetch(pending) => MintStepView::Fetch(pending@),
        }
    }
}

/// The first step of a mint. Without data the mint is done, with the fixed
/// attributes alone. With data, the payload names the dataset to fetch; a
/// payload that does not decode fails the mint.
pub open spec fn mint_step(public_key: Seq<char>, token_id: Seq<char>, data: Seq<char>) -> MintStepView {
    if data.len() == 0 {
        MintStepView::Done(plain_mint_outcome(public_key, token_id))
    } else {
        match decoded_payload(data) {
            Ok(payload) => MintStepView::Fetch(
                PendingMintView {
                    public_key,
                    token_id,
                    command: get_command(payload.cid, payload.gateway, 0),
                },
            ),
            Err(fault) => MintStepView::Done(mint_outcome(public_key, token_id, Err(fault))),
        }
    }
}

/// The step of a mint that asks for the dataset `cid` at `gateway`.
pub open spec fn fetch_step(
    public_key: Seq<char>,
    token_id: Seq<char>,
    gateway: Seq<char>,
    cid: Seq<char>,
) -> MintStepView {
    MintStepView::Fetch(
        PendingMintView { public_key, token_id, command: get_command(cid, gateway, 0) },
    )
}

/// A mint fetches what its payload names. Where the payload is the string of
/// digits of bytes that hold three strings inside them, and the ABI step
/// reads these three strings back, the mint asks for the dataset that the
/// third string names: the command has seven arguments, the identifier at
/// place 2 and the gateway, unless it is empty, at place 6.
pub proof fn law_mint_fetches_what_the_payload_names(
    public_key: Seq<char>,
    token_id: Seq<char>,
    bytes: Seq<u8>,
    version: Seq<char>,
    gateway: Seq<char>,
    cid: Seq<char>,
)
    ensures
        get_command(cid, gateway, 0).len() == 7,
        get_command(cid, gateway, 0)[2] == cid,
        gateway.len() > 0 ==> get_command(cid, gateway, 0)[6] == gateway,
        fields_fit(PAYLOAD_FIELDS as nat, bytes) && abi_strings(PAYLOAD_FIELDS as nat, bytes)
            == read_back(version, gateway, cid) ==> mint_step(
            public_key,
            token_id,
            hex_string(bytes),
        ) == fetch_step(public_key, token_id, gateway, cid),
{
    law_decode_keeps_fields(bytes, version, gateway, cid);
    if fields_fit(PAYLOAD_FIELDS as nat, bytes) {
        assert(field_fits(bytes, 0));
        assert(hex_string(bytes).len() > 0);
    }
}

fn plain_attribute(public_key: &String, alias: &str, content: String) -> (res: FinalMetadata)
    ensures
        res@ == (AttributeView {
            public_key: public_key@,
            alias: alias@,
            content: content@,
            loose: 1,
            version: Seq::empty(),
        }),
{
    FinalMetadata {
        public_key: public_key.clone(),
        alias: String::from_str(alias),
        content,
        loose: 1,
        version: String::new(),
    }
}

fn push_fixed_attributes(finals: &mut Vec<FinalMetadata>, public_key: &String, token_id: &String)
    ensures
        attribute_views(final(finals)@) == attribute_views(old(finals)@) + fixed_attributes(
            public_key@,
            token_id@,
        ),
{
    let name: String = String::from_str(NAME_PREFIX).concat(token_id.as_str());
    finals.push(plain_attribute(public_key, "name", name));
    finals.push(plain_attribute(public_key, "description", String::from_str(DESCRIPTION)));
    finals.push(plain_attribute(public_key, "image", String::from_str(IMAGE)));
    assert(attribute_views(finals@) =~= attribute_views(old(finals)@) + fixed_attributes(
        public_key@,
        token_id@,
    ));
}

/// Makes the attributes that stand for ownership records in an event.
pub fn attributes_of_records(records: &Vec<DataStructFork>) -> (res: Vec<FinalMetadata>)
    ensures
        attribute_views(res@) == record_attributes(record_views(records@)),
{
    let mut finals: Vec<FinalMetadata> = Vec::new();
    let mut i: usize = 0;
    while i < records.len()
        invariant
            i <= records.len(),
            finals.len() == i,
            forall|j: int| 0 <= j < i ==> (#[trigger] finals[j])@ == record_attribute(records[j]@),
        decreases records.len() - i,
    {
        finals.push(
            FinalMetadata {
                public_key: records[i].owner.clone(),
                alias: String::new(),
                content: records[i].cid.clone(),
                loose: 0,
                version: records[i].version.clone(),
            },
        );
        i += 1;
    }
    assert(attribute_views(finals@) =~= record_attributes(record_views(records@)));
    finals
}

/// Makes the attribute that carries the ownerships of a minted token.
pub fn beats_attribute_of(public_key: &String, records: &Vec<DataStructFork>) -> (res:
    FinalMetadata)
    ensures
        res@ == beats_attribute(public_key@, record_views(records@)),
{
    let beats = ownerships(records);
    FinalMetadata {
        public_key: public_key.clone(),
        alias: String::from_str("beats"),
        content: beats_content(&beats),
        loose: 0,
        version: String::new(),
    }
}

/// Decides a mint without data.
pub fn plain_mint_result(public_key: &String, token_id: &String) -> (res: MetaContractResult)
    ensures
        res@ == plain_mint_outcome(public_key@, token_id@),
        res@.well_formed(),
{
    let mut finals: Vec<FinalMetadata> = Vec::new();
    push_fixed_attributes(&mut finals, public_key, token_id);
    assert(attribute_views(finals@) =~= fixed_attributes(public_key@, token_id@));
    MetaContractResult::success(finals)
}

/// Decides a mint with data, given what its enrichment came to.
pub fn mint_result(
    public_key: &String,
    token_id: &String,
    enrichment: Result<Vec<DataStructFork>, PipelineError>,
) -> (res: MetaContractResult)
    ensures
        res@ == mint_outcome(public_key@, token_id@, records_result_view(enrichment)),
        res@.well_formed(),
{
    match enrichment {
        Ok(records) => {
            let mut finals: Vec<FinalMetadata> = Vec::new();
            finals.push(beats_attribute_of(public_key, &records));
            assert(attribute_views(finals@) =~= seq![
                beats_attribute(public_key@, record_views(records@)),
            ]);
            push_fixed_attributes(&mut finals, public_key, token_id);
            MetaContractResult::success(finals)
        },
        Err(e) => MetaContractResult::failure(e.message()),
    }
}

/// Reads the reply of the content store as a list of ownership records.
pub fn enrich(reply: ContentReply) -> (res: Result<Vec<DataStructFork>, PipelineError>)
    ensures
        records_result_view(res) == enrichment_of(reply.ret_code, reply.error@, reply.stdout@),
{
    match fetched_text(reply) {
        Ok(text) => records_from(parse_json(text.as_str())),
        Err(e) => Err(e),
    }
}

/// The first step of a mint.
///
/// Without data the mint is done: it succeeds with the attributes `name`,
/// `description` and `image`, in this order. With data, the payload is
/// decoded; if that fails the mint is done and has failed, with no attribute
/// at all; otherwise the step holds the command that fetches the dataset
/// which the payload names, from the gateway which it names.
pub fn on_mint(contract: MetaContract, data_key: String, token_id: String, data: String) -> (step:
    MintStep)
    ensures
        step@ == mint_step(contract.public_key@, token_id@, data@),
        data@.len() == 0 ==> step@ == MintStepView::Done(
            OutcomeView::success(fixed_attributes(contract.public_key@, token_id@)),
        ),
        data@.len() > 0 && !is_hex(vstd::utf8::encode_utf8(data@)) ==> step@ is Done
            && !step@->Done_0.result && step@->Done_0.attributes.len() == 0
            && step@->Done_0.error.len() > 0,
        step@ matches MintStepView::Done(outcome) ==> outcome.well_formed(),
{
    if data.as_str().is_empty() {
        MintStep::Done(plain_mint_result(&contract.public_key, &token_id))
    } else {
        match decode_payload(data.as_str()) {
            Ok(payload) => MintStep::Fetch(
                PendingMint {
                    public_key: contract.public_key,
                    token_id,
                    command: get(payload.cid, payload.gateway, 0),
                },
            ),
            Err(e) => MintStep::Done(mint_result(&contract.public_key, &token_id, Err(e))),
        }
    }
}

/// The second step of a mint: the reply of the content store decides it.
///
/// The mint succeeds with the attribute `beats`, which holds the ownerships
/// of the dataset's records in order, then `name`, `description` and `image`.
/// It fails, with no attribute at all, if the fetch failed or the dataset is
/// no list of records.
pub fn finish_mint(pending: PendingMint, reply: ContentReply) -> (res: MetaContractResult)
    ensures
        res@ == mint_outcome(
            pending.public_key@,
            pending.token_id@,
            enrichment_of(reply.ret_code, reply.error@, reply.stdout@),
        ),
        res@.well_formed(),
{
    mint_result(&pending.public_key, &pending.token_id, enrich(reply))
}

// ------------------------------------------------------------------ event

/// The successful outcome of an event.
pub open spec fn event_success(token_id: Seq<char>, attributes: Seq<AttributeView>) -> EventOutcomeView {
    EventOutcomeView {
        result: true,
        attributes,
        error: Seq::empty(),
        token_id,
        meta_contract_id: META_CONTRACT_ID@,
    }
}

/// The failed outcome of an event.
pub open spec fn event_failure(token_id: Seq<char>) -> EventOutcomeView {
    EventOutcomeView {
        result: false,
        attributes: Seq::empty(),
        error: NOTHING_TO_PROCESS@,
        token_id,
        meta_contract_id: META_CONTRACT_ID@,
    }
}

/// The outcomes of an event, given what the linked dataset held. The list
/// ends in a success that carries the records' attributes; where the
/// enrichment failed, that success carries none and a failure stands before
/// it.
pub open spec fn event_outcomes(token_id: Seq<char>, enrichment: Result<Seq<RecordView>, Fault>) -> Seq<
    EventOutcomeView,
> {
    match enrichment {
        Ok(records) => seq![event_success(token_id, record_attributes(records))],
        Err(_) => seq![event_failure(token_id), event_success(token_id, Seq::empty())],
    }
}

/// The outcomes of an event end in a success, and a failure stands before it
/// exactly if the enrichment failed. Every outcome is well formed and carries
/// the token identifier and the routing identifier.
pub proof fn law_event_outcomes(token_id: Seq<char>, enrichment: Result<Seq<RecordView>, Fault>)
    ensures
        event_outcomes(token_id, enrichment).len() == if enrichment is Ok {
            1int
        } else {
            2int
        },
        event_outcomes(token_id, enrichment).last().result,
        enrichment is Err ==> !event_outcomes(token_id, enrichment)[0].result
            && event_outcomes(token_id, enrichment).last().attributes.len() == 0,
        enrichment is Ok ==> event_outcomes(token_id, enrichment).last().attributes
            == record_attributes(enrichment->Ok_0),
        forall|i: int|
            0 <= i < event_outcomes(token_id, enrichment).len() ==> {
                let outcome = #[trigger] event_outcomes(token_id, enrichment)[i];
                &&& outcome.well_formed()
                &&& outcome.token_id == token_id
                &&& outcome.meta_contract_id == META_CONTRACT_ID@
            },
{
    reveal_strlit("No event/data to process");
}

/// An event that waits for its linked dataset.
#[derive(Debug, Clone, PartialEq, Eq)]
pub struct PendingEvent {
    /// The identifier of the token.
    pub token_id: String,
    /// The command that fetches the dataset.
    pub command: Vec<String>,
}

/// A waiting event as a mathematical value.
pub struct PendingEventView {
    pub token_id: Seq<char>,
    pub command: Seq<Seq<char>>,
}

impl View for PendingEvent {
    type V = PendingEventView;

    open spec fn view(&self) -> PendingEventView {
        PendingEventView { token_id: self.token_id@, command: texts(self.command@) }
    }
}

/// Where an event stands after its first step.
#[derive(Debug, Clone, PartialEq, Eq)]
pub enum EventStep {
    /// The event is decided.
    Done(Vec<MetaContractEventResult>),
    /// The event needs the dataset that the command fetches.
    Fetch(PendingEvent),
}

/// A step of an event as a mathematical value.
pub enum EventStepView {
    Done(Seq<EventOutcomeView>),
    Fetch(PendingEventView),
}

impl View for EventStep {
    type V = EventStepView;

    open spec fn view(&self) -> EventStepView {
        match self {
            EventStep::Done(outcomes) => EventStepView::Done(event_outcome_views(outcomes@)),
            EventStep::Fetch(pending) => EventStepView::Fetch(pending@),
        }
    }
}

/// The first step of an event. An event of another name than `NFTify` is
/// done, with one empty success. Otherwise the parameter `tokenId` names the
/// token, and the parameter `data`, if it is there, holds the payload that
/// names the dataset to fetch.
pub open spec fn event_step(event_name: Seq<char>, params: Seq<ParamView>) -> EventStepView {
    if event_name != EVENT_NAME@ {
        EventStepView::Done(event_outcomes(Seq::empty(), Ok(Seq::empty())))
    } else {
        let token_id = param_value(params, "tokenId"@);
        match find_param(params, "data"@) {
            None => EventStepView::Done(event_outcomes(token_id, Ok(Seq::empty()))),
            Some(data) => match decoded_payload(data.value) {
                Ok(payload) => EventStepView::Fetch(
                    PendingEventView {
                        token_id,
                        command: get_command(payload.cid, payload.gateway, 0),
                    },
                ),
                Err(fault) => EventStepView::Done(event_outcomes(token_id, Err(fault))),
            },
        }
    }
}

fn event_record(result: bool, metadatas: Vec<FinalMetadata>, token_id: &String) -> (res:
    MetaContractEventResult)
    ensures
        result ==> res@ == event_success(token_id@, attribute_views(metadatas@)),
        !result && metadatas@.len() == 0 ==> res@ == event_failure(token_id@),
{
    let error_string: String = if result {
        String::new()
    } else {
        String::from_str(NOTHING_TO_PROCESS)
    };
    let res = MetaContractEventResult {
        result,
        metadatas,
        error_string,
        token_id: token_id.clone(),
        meta_contract_id: String::from_str(META_CONTRACT_ID),
    };
    assert(metadatas@.len() == 0 ==> attribute_views(metadatas@) =~= Seq::empty());
    res
}

/// Decides an event, given what its enrichment came to.
pub fn event_results(token_id: &String, enrichment: Result<Vec<DataStructFork>, PipelineError>) -> (res:
    Vec<MetaContractEventResult>)
    ensures
        event_outcome_views(res@) == event_outcomes(token_id@, records_result_view(enrichment)),
{
    let mut out: Vec<MetaContractEventResult> = Vec::new();
    match enrichment {
        Ok(records) => {
            out.push(event_record(true, attributes_of_records(&records), token_id));
            assert(event_outcome_views(out@) =~= event_outcomes(
                token_id@,
                records_result_view(enrichment),
            ));
        },
        Err(_) => {
            out.push(event_record(false, Vec::new(), token_id));
            let nothing: Vec<FinalMetadata> = Vec::new();
            assert(attribute_views(nothing@) =~= Seq::empty());
            out.push(event_record(true, nothing, token_id));
            assert(event_outcome_views(out@) =~= event_outcomes(
                token_id@,
                records_result_view(enrichment),
            ));
        },
    }
    out
}

/// The first step of an event.
///
/// An event of another name than `NFTify` is done: the list holds one
/// success without attributes. For `NFTify`, the token identifier is the
/// value of the parameter `tokenId`, empty if there is none. Without a
/// parameter `data` the event is done in the same way. With one, its value is
/// decoded as a payload; if that fails the event is done and the list holds a
/// failure and then an empty success; otherwise the step holds the command
/// that fetches the dataset.
pub fn on_event(
    event_log: EventLogParamResult,
    contract: MetaContract,
    rpc_url: String,
    abi_url: String,
    chain_id: String,
    contract_address: String,
) -> (step: EventStep)
    ensures
        step@ == event_step(event_log.event_name@, param_views(event_log.params@)),
        event_log.event_name@ != EVENT_NAME@ ==> step@ == EventStepView::Done(
            seq![event_success(Seq::empty(), Seq::empty())],
        ),
{
    let no_records: Vec<DataStructFork> = Vec::new();
    assert(record_views(no_records@) =~= Seq::empty());
    assert(record_attributes(Seq::empty()) =~= Seq::empty());
    if event_log.event_name != String::from_str(EVENT_NAME) {
        return EventStep::Done(event_results(&String::new(), Ok(no_records)));
    }
    let token_id: String = match find(&event_log.params, "tokenId") {
        Some(p) => p.value.clone(),
        None => String::new(),
    };
    match find(&event_log.params, "data") {
        None => EventStep::Done(event_results(&token_id, Ok(no_records))),
        Some(data) => match decode_payload(data.value.as_str()) {
            Ok(payload) => EventStep::Fetch(
                PendingEvent { token_id, command: get(payload.cid, payload.gateway, 0) },
            ),
            Err(e) => EventStep::Done(event_results(&token_id, Err(e))),
        },
    }
}

/// The second step of an event: the reply of the content store decides it.
///
/// The list ends in a success with one attribute for each ownership record
/// of the dataset. If the fetch failed or the dataset is no list of records,
/// that success has no attribute and a failure stands before it.
pub fn finish_event(pending: PendingEvent, reply: ContentReply) -> (res: Vec<
    MetaContractEventResult,
>)
    ensures
        event_outcome_views(res@) == event_outcomes(
            pending.token_id@,
            enrichment_of(reply.ret_code, reply.error@, reply.stdout@),
        ),
{
    event_results(&pending.token_id, enrich(reply))
}

} // verus!
