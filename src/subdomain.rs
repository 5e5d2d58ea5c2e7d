//! The add and delete workflows for one vanity subdomain. Each is a state
//! machine: it names the next provider call to make, and the caller reports
//! the call's outcome back, so that every decision stays here.
use vstd::prelude::*;
use vstd::string::*;

use crate::label::{normalize, normalized, LabelError};
use crate::provider::ProviderFailure;
use crate::record::{cname, cname_record, txt, txt_record, txt_text_fits, Record, RecordError, RecordView};

verus! {

/// Host that every vanity CNAME record points at.
pub const REDIRECT_HOST: &'static str = "redirect.kuso.domains";

/// Prefix of the TXT record name that carries a subdomain's destination URL.
pub const TXT_PREFIX: &'static str = "_kuso-domains-to.";

/// The shared parent domain under which subdomains are provisioned.
pub const PARENT_DOMAIN: &'static str = "teleka.su";

/// A subdomain request: the desired label and the destination URL.
#[derive(Debug, Clone, PartialEq, Eq)]
pub struct Subdomain {
    pub subdomain: String,
    pub url: String,
}

/// The fully qualified name of a normalized label under the parent domain.
pub open spec fn host_name(label: Seq<char>) -> Seq<char> {
    label + seq!['.'] + PARENT_DOMAIN@
}

/// `label.` followed by the parent domain.
pub fn qualify(label: &str) -> (r: String)
    ensures
        r@ == host_name(label@),
{
    let dot = ".";
    proof {
        reveal_strlit(".");
    }
    String::from_str(label).concat(dot).concat(PARENT_DOMAIN)
}

/// The TXT record name for an owner name.
pub open spec fn txt_name(owner: Seq<char>) -> Seq<char> {
    TXT_PREFIX@ + owner
}

/// `_kuso-domains-to.` followed by `owner`.
pub fn txt_name_of(owner: &str) -> (r: String)
    ensures
        r@ == txt_name(owner@),
{
    String::from_str(TXT_PREFIX).concat(owner)
}

// ---------------------------------------------------------------- add

/// Why an add request was refused before any provider call.
#[derive(Debug, Clone, Copy, PartialEq, Eq, Structural)]
pub enum AddError {
    Label(LabelError),
    Record(RecordError),
}

/// Progress of an add request: the normalized label, the two records to
/// create, and the outcome of each create attempted so far (CNAME first).
#[derive(Debug)]
pub struct AddWorkflow {
    pub label: String,
    pub cname: Record,
    pub txt: Record,
    pub outcomes: Vec<Result<(), ProviderFailure>>,
}

/// Abstract add progress.
pub ghost struct AddWorkflowView {
    pub label: Seq<char>,
    pub cname: RecordView,
    pub txt: RecordView,
    pub outcomes: Seq<Result<(), ProviderFailure>>,
}

impl View for AddWorkflow {
    type V = AddWorkflowView;

    open spec fn view(&self) -> AddWorkflowView {
        AddWorkflowView {
            label: self.label@,
            cname: self.cname@,
            txt: self.txt@,
            outcomes: self.outcomes@,
        }
    }
}

/// An add of the normalized `label` pointing at `url`, before any call.
pub open spec fn add_start(label: Seq<char>, url: Seq<char>) -> AddWorkflowView {
    AddWorkflowView {
        label,
        cname: cname_record(label, REDIRECT_HOST@),
        txt: txt_record(txt_name(label), url),
        outcomes: seq![],
    }
}

/// The record to create next: the CNAME, then the TXT, then none.
pub open spec fn add_next(w: AddWorkflowView) -> Option<RecordView> {
    if w.outcomes.len() == 0 {
        Some(w.cname)
    } else if w.outcomes.len() == 1 {
        Some(w.txt)
    } else {
        None
    }
}

/// The progress after a create call ended with `outcome`: whatever the
/// outcome, the workflow moves on to the next record.
pub open spec fn add_after(w: AddWorkflowView, outcome: Result<(), ProviderFailure>) -> AddWorkflowView {
    if w.outcomes.len() < 2 {
        AddWorkflowView { outcomes: w.outcomes.push(outcome), ..w }
    } else {
        w
    }
}

/// Starts adding a vanity subdomain: normalizes the label and builds the CNAME
/// record `label -> redirect host` and the TXT record
/// `_kuso-domains-to.label` holding the destination URL verbatim.
pub fn add(subdomain: &str, target_url: &str) -> (r: Result<AddWorkflow, AddError>)
    ensures
        r is Ok <==> normalized(subdomain@) is Some && txt_text_fits(target_url@),
        normalized(subdomain@) is None ==> r == Err::<AddWorkflow, AddError>(
            AddError::Label(LabelError::Unencodable),
        ),
        normalized(subdomain@) is Some && !txt_text_fits(target_url@) ==> r == Err::<
            AddWorkflow,
            AddError,
        >(AddError::Record(RecordError::TxtTooLong)),
        r matches Ok(w) ==> w@ == add_start(normalized(subdomain@)->0, target_url@),
{
    let label = match normalize(subdomain) {
        Ok(l) => l,
        Err(e) => {
            return Err(AddError::Label(e));
        },
    };
    let cname_rec = cname(label.as_str(), REDIRECT_HOST);
    let owner = txt_name_of(label.as_str());
    let txt_rec = match txt(owner.as_str(), target_url) {
        Ok(t) => t,
        Err(e) => {
            return Err(AddError::Record(e));
        },
    };
    let w = AddWorkflow { label, cname: cname_rec, txt: txt_rec, outcomes: Vec::new() };
    assert(w@.outcomes =~= seq![]);
    Ok(w)
}

impl AddWorkflow {
    /// The record to create next, if any.
    pub fn next_record(&self) -> (r: Option<&Record>)
        ensures
            r is Some <==> add_next(self@) is Some,
            r matches Some(rec) ==> add_next(self@) == Some(rec@),
    {
        if self.outcomes.len() == 0 {
            Some(&self.cname)
        } else if self.outcomes.len() == 1 {
            Some(&self.txt)
        } else {
            None
        }
    }

    /// Reports how the last create call ended; a failure is kept and the
    /// workflow moves on all the same.
    pub fn record_outcome(&mut self, outcome: Result<(), ProviderFailure>)
        ensures
            final(self)@ == add_after(old(self)@, outcome),
    {
        if self.outcomes.len() < 2 {
            self.outcomes.push(outcome);
        }
    }

    /// Whether both creates have been attempted.
    pub fn is_finished(&self) -> (r: bool)
        ensures
            r == (add_next(self@) is None),
    {
        self.outcomes.len() >= 2
    }
}

/// An add issues exactly two create calls, whatever their outcomes: first the
/// CNAME record of the label pointing at the redirect host, then the TXT record
/// `_kuso-domains-to.label` holding the destination URL.
pub proof fn lemma_add_creates_two_records(
    label: Seq<char>,
    url: Seq<char>,
    first: Result<(), ProviderFailure>,
    second: Result<(), ProviderFailure>,
)
    ensures
        add_next(add_start(label, url)) == Some(cname_record(label, REDIRECT_HOST@)),
        add_next(add_after(add_start(label, url), first)) == Some(
            txt_record(txt_name(label), url),
        ),
        add_next(add_after(add_after(add_start(label, url), first), second)) is None,
{
}

/// A failed CNAME create does not stop the TXT create from being attempted.
pub proof fn lemma_failed_cname_still_creates_txt(
    label: Seq<char>,
    url: Seq<char>,
    failure: ProviderFailure,
)
    ensures
        add_next(add_after(add_start(label, url), Err(failure))) == Some(
            txt_record(txt_name(label), url),
        ),
{
}

// ---------------------------------------------------------------- delete

/// What a listing of the records under one name calls for.
#[derive(Debug, Clone, PartialEq, Eq)]
pub enum ListVerdict {
    /// No record: nothing to delete.
    Absent,
    /// Exactly one record, to be deleted by this identifier.
    Single(String),
    /// Several records under one name: an invariant violation; none is picked.
    Ambiguous(usize),
}

/// The verdict on the provider identifiers listed under one name.
pub open spec fn listing_verdict(ids: Seq<String>) -> ListVerdict {
    if ids.len() == 0 {
        ListVerdict::Absent
    } else if ids.len() == 1 {
        ListVerdict::Single(ids[0])
    } else {
        ListVerdict::Ambiguous(ids.len() as usize)
    }
}

/// Decides what to do with the records listed under one name.
pub fn match_listing(ids: &Vec<String>) -> (r: ListVerdict)
    ensures
        r == listing_verdict(ids@),
{
    if ids.len() == 0 {
        ListVerdict::Absent
    } else if ids.len() == 1 {
        ListVerdict::Single(ids[0].clone())
    } else {
        ListVerdict::Ambiguous(ids.len())
    }
}

/// How the deletion of one name ended.
#[derive(Debug, Clone, PartialEq, Eq)]
pub enum DeleteOutcome {
    /// No record was listed: treated as already deleted.
    Absent,
    /// The single listed record was deleted.
    Deleted,
    /// The listing call failed.
    ListFailed(ProviderFailure),
    /// The delete call failed.
    DeleteFailed(ProviderFailure),
    /// This many records were listed under the name; the workflow stopped.
    Ambiguous(usize),
}

/// Where a delete workflow stands on its current name.
#[derive(Debug, Clone, PartialEq, Eq)]
pub enum DeleteStage {
    /// The current name is to be listed.
    Listing,
    /// The current name's single record is to be deleted by this identifier.
    Removing(String),
    /// Stopped on an ambiguous listing.
    Halted,
}

/// The next provider call of a delete workflow.
#[derive(Debug, Clone, PartialEq, Eq)]
pub enum DeleteAction {
    /// List the records named exactly `name`.
    List(String),
    /// Delete the record with identifier `id`, listed under `name`.
    Remove { name: String, id: String },
    /// Nothing left to do.
    Finish,
}

/// Progress of a delete request: the names to delete in order (CNAME, then
/// TXT), the index of the current one, its stage, and one outcome per name
/// handled so far.
#[derive(Debug)]
pub struct DeleteWorkflow {
    pub names: Vec<String>,
    pub current: usize,
    pub stage: DeleteStage,
    pub outcomes: Vec<DeleteOutcome>,
}

/// Abstract delete progress.
pub ghost struct DeleteWorkflowView {
    pub names: Seq<String>,
    pub current: nat,
    pub stage: DeleteStage,
    pub outcomes: Seq<DeleteOutcome>,
}

impl View for DeleteWorkflow {
    type V = DeleteWorkflowView;

    open spec fn view(&self) -> DeleteWorkflowView {
        DeleteWorkflowView {
            names: self.names@,
            current: self.current as nat,
            stage: self.stage,
            outcomes: self.outcomes@,
        }
    }
}

/// A delete of the normalized `label`, before any call: first the CNAME name
/// `label.<parent domain>`, then the TXT name in front of it.
pub open spec fn is_delete_start(w: DeleteWorkflowView, label: Seq<char>) -> bool {
    &&& w.names.len() == 2
    &&& w.names[0]@ == host_name(label)
    &&& w.names[1]@ == txt_name(host_name(label))
    &&& w.current == 0
    &&& w.stage == DeleteStage::Listing
    &&& w.outcomes.len() == 0
}

/// Whether the workflow still has a name to handle.
pub open spec fn delete_active(w: DeleteWorkflowView) -> bool {
    w.current < w.names.len() && !(w.stage is Halted)
}

/// The next provider call.
pub open spec fn delete_next(w: DeleteWorkflowView) -> DeleteAction {
    if !delete_active(w) {
        DeleteAction::Finish
    } else {
        match w.stage {
            DeleteStage::Removing(id) => DeleteAction::Remove { name: w.names[w.current as int], id },
            _ => DeleteAction::List(w.names[w.current as int]),
        }
    }
}

/// Closes the current name with `outcome` and moves to the next one.
pub open spec fn delete_advance(w: DeleteWorkflowView, outcome: DeleteOutcome) -> DeleteWorkflowView {
    DeleteWorkflowView {
        current: w.current + 1,
        stage: DeleteStage::Listing,
        outcomes: w.outcomes.push(outcome),
        ..w
    }
}

/// The progress after the current name was listed; a report that does not
/// answer a pending listing changes nothing.
pub open spec fn delete_after_listing(
    w: DeleteWorkflowView,
    listed: Result<Seq<String>, ProviderFailure>,
) -> DeleteWorkflowView {
    if !(delete_active(w) && w.stage is Listing) {
        w
    } else {
        match listed {
            Err(f) => delete_advance(w, DeleteOutcome::ListFailed(f)),
            Ok(ids) => match listing_verdict(ids) {
                ListVerdict::Absent => delete_advance(w, DeleteOutcome::Absent),
                ListVerdict::Single(id) => DeleteWorkflowView { stage: DeleteStage::Removing(id), ..w },
                ListVerdict::Ambiguous(n) => DeleteWorkflowView {
                    stage: DeleteStage::Halted,
                    outcomes: w.outcomes.push(DeleteOutcome::Ambiguous(n)),
                    ..w
                },
            },
        }
    }
}

/// The progress after the current record's delete call; a report that does
/// not answer a pending delete changes nothing.
pub open spec fn delete_after_removal(
    w: DeleteWorkflowView,
    result: Result<(), ProviderFailure>,
) -> DeleteWorkflowView {
    if !(delete_active(w) && w.stage is Removing) {
        w
    } else {
        match result {
            Ok(()) => delete_advance(w, DeleteOutcome::Deleted),
            Err(f) => delete_advance(w, DeleteOutcome::DeleteFailed(f)),
        }
    }
}

/// The listing result as abstract values.
pub open spec fn listing_view(listed: Result<Vec<String>, ProviderFailure>) -> Result<Seq<String>, ProviderFailure> {
    match listed {
        Ok(ids) => Ok(ids@),
        Err(f) => Err(f),
    }
}

/// Starts deleting a vanity subdomain: normalizes the label and names the
/// CNAME record `label.<parent domain>` and the TXT record in front of it.
pub fn delete(subdomain: &str) -> (r: Result<DeleteWorkflow, LabelError>)
    ensures
        r is Ok <==> normalized(subdomain@) is Some,
        r matches Err(e) ==> e == LabelError::Unencodable,
        r matches Ok(w) ==> is_delete_start(w@, normalized(subdomain@)->0),
{
    let label = match normalize(subdomain) {
        Ok(l) => l,
        Err(e) => {
            return Err(e);
        },
    };
    let rname = qualify(label.as_str());
    let tname = txt_name_of(rname.as_str());
    let mut names: Vec<String> = Vec::new();
    names.push(rname);
    names.push(tname);
    Ok(DeleteWorkflow { names, current: 0, stage: DeleteStage::Listing, outcomes: Vec::new() })
}

impl DeleteWorkflow {
    fn is_active(&self) -> (r: bool)
        ensures
            r == delete_active(self@),
    {
        self.current < self.names.len() && !matches!(self.stage, DeleteStage::Halted)
    }

    fn advance(&mut self, outcome: DeleteOutcome)
        requires
            delete_active(old(self)@),
        ensures
            final(self)@ == delete_advance(old(self)@, outcome),
    {
        let n = self.names.len();
        assert(self.current < n);
        self.current = self.current + 1;
        self.stage = DeleteStage::Listing;
        self.outcomes.push(outcome);
    }

    /// The next provider call to make.
    pub fn next_action(&self) -> (r: DeleteAction)
        ensures
            r == delete_next(self@),
    {
        if !self.is_active() {
            return DeleteAction::Finish;
        }
        let name = self.names[self.current].clone();
        match &self.stage {
            DeleteStage::Removing(id) => DeleteAction::Remove { name, id: id.clone() },
            _ => DeleteAction::List(name),
        }
    }

    /// Reports the identifiers of the records listed under the current name,
    /// or the listing's failure.
    pub fn record_listing(&mut self, listed: Result<Vec<String>, ProviderFailure>)
        ensures
            final(self)@ == delete_after_listing(old(self)@, listing_view(listed)),
    {
        if !(self.is_active() && matches!(self.stage, DeleteStage::Listing)) {
            return;
        }
        match listed {
            Err(f) => self.advance(DeleteOutcome::ListFailed(f)),
            Ok(ids) => match match_listing(&ids) {
                ListVerdict::Absent => self.advance(DeleteOutcome::Absent),
                ListVerdict::Single(id) => {
                    self.stage = DeleteStage::Removing(id);
                },
                ListVerdict::Ambiguous(n) => {
                    self.stage = DeleteStage::Halted;
                    self.outcomes.push(DeleteOutcome::Ambiguous(n));
                },
            },
        }
    }

    /// Reports how the delete call for the current record ended.
    pub fn record_removal(&mut self, result: Result<(), ProviderFailure>)
        ensures
            final(self)@ == delete_after_removal(old(self)@, result),
    {
        if !(self.is_active() && matches!(self.stage, DeleteStage::Removing(_))) {
            return;
        }
        match result {
            Ok(()) => self.advance(DeleteOutcome::Deleted),
            Err(f) => self.advance(DeleteOutcome::DeleteFailed(f)),
        }
    }

    /// Whether no provider call is left to make.
    pub fn is_finished(&self) -> (r: bool)
        ensures
            r == (delete_next(self@) == DeleteAction::Finish),
    {
        !self.is_active()
    }
}

/// A name under which no record is listed is never deleted: the workflow
/// records it as absent and moves to the next name (or finishes).
pub proof fn lemma_absent_name_not_deleted(w: DeleteWorkflowView)
    requires
        delete_active(w),
        w.stage is Listing,
    ensures
        ({
            let next = delete_after_listing(w, Ok(seq![]));
            &&& next.current == w.current + 1
            &&& next.stage is Listing
            &&& next.outcomes == w.outcomes.push(DeleteOutcome::Absent)
            &&& !(delete_next(next) is Remove)
        }),
{
}

/// Two or more records listed under one name stop the workflow: no record is
/// picked for deletion, then or on any later report.
pub proof fn lemma_ambiguous_listing_halts(
    w: DeleteWorkflowView,
    ids: Seq<String>,
    listed: Result<Seq<String>, ProviderFailure>,
    removed: Result<(), ProviderFailure>,
)
    requires
        delete_active(w),
        w.stage is Listing,
        ids.len() >= 2,
    ensures
        ({
            let next = delete_after_listing(w, Ok(ids));
            &&& next.stage is Halted
            &&& next.outcomes == w.outcomes.push(DeleteOutcome::Ambiguous(ids.len() as usize))
            &&& delete_next(next) == DeleteAction::Finish
            &&& delete_after_listing(next, listed) == next
            &&& delete_after_removal(next, removed) == next
        }),
{
}

} // verus!
