//! The provider-independent DNS record: an owner name, a TTL and CNAME or TXT
//! data, always of class Internet.
use vstd::prelude::*;
use vstd::string::*;
use vstd::utf8::encode_utf8;

verus! {

/// Type-specific record data; only CNAME and TXT records are ever produced.
#[derive(Debug, Clone, PartialEq, Eq)]
pub enum RecordData {
    Cname { target: String },
    Txt { text: String },
}

/// A DNS resource record of class Internet. A `ttl` of 0 means "use the
/// provider's default".
#[derive(Debug, Clone, PartialEq, Eq)]
pub struct Record {
    pub owner: String,
    pub ttl: u32,
    pub data: RecordData,
}

/// Abstract record data.
pub ghost enum RecordDataView {
    Cname(Seq<char>),
    Txt(Seq<char>),
}

/// Abstract record.
pub ghost struct RecordView {
    pub owner: Seq<char>,
    pub ttl: u32,
    pub data: RecordDataView,
}

impl View for RecordData {
    type V = RecordDataView;

    open spec fn view(&self) -> RecordDataView {
        match self {
            RecordData::Cname { target } => RecordDataView::Cname(target@),
            RecordData::Txt { text } => RecordDataView::Txt(text@),
        }
    }
}

impl View for Record {
    type V = RecordView;

    open spec fn view(&self) -> RecordView {
        RecordView { owner: self.owner@, ttl: self.ttl, data: self.data@ }
    }
}

/// Why a record could not be built.
#[derive(Debug, Clone, Copy, PartialEq, Eq, Structural)]
pub enum RecordError {
    /// The TXT content does not fit in a record's data.
    TxtTooLong,
}

/// The CNAME record `owner -> target`, with the provider's default TTL.
pub open spec fn cname_record(owner: Seq<char>, target: Seq<char>) -> RecordView {
    RecordView { owner, ttl: 0, data: RecordDataView::Cname(target) }
}

/// The TXT record holding `text` at `owner`, with the provider's default TTL.
pub open spec fn txt_record(owner: Seq<char>, text: Seq<char>) -> RecordView {
    RecordView { owner, ttl: 0, data: RecordDataView::Txt(text) }
}

/// Whether `n` bytes of text fit in TXT record data: the text is cut into
/// character strings of at most 255 bytes, each led by a length byte, and the
/// whole must stay below 0xFFFF bytes.
pub open spec fn txt_fits(n: nat) -> bool {
    n + (n + 254) / 255 < 0xFFFF
}

/// Whether `text`, as UTF-8, fits in TXT record data.
pub open spec fn txt_text_fits(text: Seq<char>) -> bool {
    txt_fits(encode_utf8(text).len())
}

/// Relies on `domain::rdata::Txt::from_slice`: it cuts the bytes into
/// character strings of at most 255 bytes, each with a length byte, and fails
/// as soon as that encoding would reach 0xFFFF bytes.
#[verifier::external_body]
fn txt_rdata_fits(text: &str) -> (r: bool)
    ensures
        r == txt_fits(text.spec_bytes().len()),
{
    domain::rdata::Txt::<Vec<u8>>::from_slice(text.as_bytes()).is_ok()
}

/// Builds the CNAME record `rname -> target` with the provider's default TTL.
pub fn cname(rname: &str, target: &str) -> (r: Record)
    ensures
        r@ == cname_record(rname@, target@),
{
    Record {
        owner: String::from_str(rname),
        ttl: 0,
        data: RecordData::Cname { target: String::from_str(target) },
    }
}

/// Builds the TXT record holding `text` verbatim at `rname`, with the
/// provider's default TTL; fails when the text is too long for TXT data.
pub fn txt(rname: &str, text: &str) -> (r: Result<Record, RecordError>)
    ensures
        r is Ok <==> txt_text_fits(text@),
        r matches Ok(rec) ==> rec@ == txt_record(rname@, text@),
        r matches Err(e) ==> e == RecordError::TxtTooLong,
{
    if !txt_rdata_fits(text) {
        return Err(RecordError::TxtTooLong);
    }
    Ok(Record {
        owner: String::from_str(rname),
        ttl: 0,
        data: RecordData::Txt { text: String::from_str(text) },
    })
}

} // verus!
