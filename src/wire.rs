//! The request shape of the DNS provider's record API, as plain values, and
//! the mapping between it and the provider-independent record.
use vstd::prelude::*;
use vstd::string::*;

use crate::record::{
    cname_record, txt_record, Record, RecordData, RecordDataView, RecordView,
};

verus! {

/// Record type and value as the provider's API carries them. Addresses are
/// held as their integer value.
#[derive(Debug, Clone, PartialEq, Eq)]
pub enum WireContent {
    A { content: u32 },
    Aaaa { content: u128 },
    Cname { content: String },
    Ns { content: String },
    Mx { content: String, priority: u16 },
    Txt { content: String },
    Srv { content: String },
}

/// Parameters of the provider's "create DNS record" call. `ttl: None` asks
/// for the provider's default TTL.
#[derive(Debug, Clone, PartialEq, Eq)]
pub struct CreateRecordParams {
    pub ttl: Option<u32>,
    pub priority: Option<u16>,
    pub proxied: Option<bool>,
    pub name: String,
    pub content: WireContent,
}

/// Abstract wire content.
pub ghost enum WireContentView {
    A(u32),
    Aaaa(u128),
    Cname(Seq<char>),
    Ns(Seq<char>),
    Mx(Seq<char>, u16),
    Txt(Seq<char>),
    Srv(Seq<char>),
}

/// Abstract create parameters.
pub ghost struct CreateRecordParamsView {
    pub ttl: Option<u32>,
    pub priority: Option<u16>,
    pub proxied: Option<bool>,
    pub name: Seq<char>,
    pub content: WireContentView,
}

impl View for WireContent {
    type V = WireContentView;

    open spec fn view(&self) -> WireContentView {
        match self {
            WireContent::A { content } => WireContentView::A(*content),
            WireContent::Aaaa { content } => WireContentView::Aaaa(*content),
            WireContent::Cname { content } => WireContentView::Cname(content@),
            WireContent::Ns { content } => WireContentView::Ns(content@),
            WireContent::Mx { content, priority } => WireContentView::Mx(content@, *priority),
            WireContent::Txt { content } => WireContentView::Txt(content@),
            WireContent::Srv { content } => WireContentView::Srv(content@),
        }
    }
}

impl View for CreateRecordParams {
    type V = CreateRecordParamsView;

    open spec fn view(&self) -> CreateRecordParamsView {
        CreateRecordParamsView {
            ttl: self.ttl,
            priority: self.priority,
            proxied: self.proxied,
            name: self.name@,
            content: self.content@,
        }
    }
}

/// TTL 0 means "provider default", which the wire leaves unset.
pub open spec fn wire_ttl(ttl: u32) -> Option<u32> {
    if ttl == 0 {
        None
    } else {
        Some(ttl)
    }
}

/// The wire content of record data; the text is carried exactly.
pub open spec fn wire_content(d: RecordDataView) -> WireContentView {
    match d {
        RecordDataView::Cname(target) => WireContentView::Cname(target),
        RecordDataView::Txt(text) => WireContentView::Txt(text),
    }
}

/// The create parameters for a record.
pub open spec fn wire_params(r: RecordView) -> CreateRecordParamsView {
    CreateRecordParamsView {
        ttl: wire_ttl(r.ttl),
        priority: None,
        proxied: None,
        name: r.owner,
        content: wire_content(r.data),
    }
}

/// The record that create parameters describe; `None` for record types other
/// than CNAME and TXT.
pub open spec fn record_of_params(p: CreateRecordParamsView) -> Option<RecordView> {
    let ttl: u32 = match p.ttl {
        Some(t) => t,
        None => 0,
    };
    match p.content {
        WireContentView::Cname(target) => Some(
            RecordView { owner: p.name, ttl, data: RecordDataView::Cname(target) },
        ),
        WireContentView::Txt(text) => Some(
            RecordView { owner: p.name, ttl, data: RecordDataView::Txt(text) },
        ),
        _ => None,
    }
}

/// The provider's content for a record's data.
pub fn to_wire_content(data: &RecordData) -> (r: WireContent)
    ensures
        r@ == wire_content(data@),
{
    match data {
        RecordData::Cname { target } => WireContent::Cname { content: target.clone() },
        RecordData::Txt { text } => WireContent::Txt { content: text.clone() },
    }
}

/// The provider's create parameters for a record: same name, TTL 0 left
/// unset, no priority or proxying, the data carried exactly.
pub fn to_wire(record: &Record) -> (r: CreateRecordParams)
    ensures
        r@ == wire_params(record@),
{
    let ttl = if record.ttl == 0 {
        None
    } else {
        Some(record.ttl)
    };
    CreateRecordParams {
        ttl,
        priority: None,
        proxied: None,
        name: record.owner.clone(),
        content: to_wire_content(&record.data),
    }
}

/// Reads a record back from create parameters; `None` for record types other
/// than CNAME and TXT.
pub fn from_wire(params: &CreateRecordParams) -> (r: Option<Record>)
    ensures
        r is Some <==> record_of_params(params@) is Some,
        r matches Some(rec) ==> record_of_params(params@) == Some(rec@),
{
    let ttl: u32 = match params.ttl {
        Some(t) => t,
        None => 0,
    };
    let data = match &params.content {
        WireContent::Cname { content } => RecordData::Cname { target: content.clone() },
        WireContent::Txt { content } => RecordData::Txt { text: content.clone() },
        _ => {
            return None;
        },
    };
    Some(Record { owner: params.name.clone(), ttl, data })
}

/// Any record survives the trip to create parameters and back.
pub proof fn lemma_wire_round_trip(r: RecordView)
    ensures
        record_of_params(wire_params(r)) == Some(r),
{
}

/// A CNAME record read back from its create parameters has the same owner and
/// the same target.
pub proof fn lemma_cname_wire_round_trip(owner: Seq<char>, target: Seq<char>)
    ensures
        record_of_params(wire_params(cname_record(owner, target))) == Some(
            cname_record(owner, target),
        ),
{
}

/// A TXT record read back from its create parameters has the same owner and
/// the same text, character for character.
pub proof fn lemma_txt_wire_round_trip(owner: Seq<char>, text: Seq<char>)
    ensures
        record_of_params(wire_params(txt_record(owner, text))) == Some(txt_record(owner, text)),
{
}

} // verus!
