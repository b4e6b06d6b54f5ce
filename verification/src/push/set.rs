//! The Set pipeline for push subscriptions.
//!
//! The pipeline decides; it does not touch the store. It hands out one task
//! at a time, the caller carries the task out and reports back with an
//! event, and the pipeline answers with the next task until the response is
//! complete. Creates are worked through first, then updates, then destroys,
//! each section in the order of the request.

use vstd::prelude::*;
use crate::auth::AccessToken;
use crate::clock::now;
use crate::config::JMAP;
use crate::error::MethodError;
use crate::error::SetError;
use crate::error::SetErrorType;
use crate::error::SetErrorView;
use crate::method::set::changed_view;
use crate::method::set::ChangesView;
use crate::method::set::creates_view;
use crate::method::set::SetRequest;
use crate::method::set::SetResponse;
use crate::method::set::SetResponseView;
use crate::method::set::updates_view;
use crate::object::format::encode_object;
use crate::object::Object;
use crate::object::ObjectView;
use crate::push::code::is_verification_code;
use crate::push::code::lemma_verification_code_exists;
use crate::push::code::new_verification_code;
use crate::push::plan::plan_create;
use crate::push::plan::plan_update;
use crate::push::plan::seal;
use crate::push::plan::subscription_to_create;
use crate::push::plan::updated_with;
use crate::push::plan::with_code;
use crate::request::reference::ids_view;
use crate::types::collection::Collection;
use crate::types::id::Id;
use crate::types::property::Property;
use crate::types::property::PropertyView;
use crate::types::value::SetValue;
use crate::types::value::Value;

verus! {

/// Selects the primary value slot of a document.
pub const F_VALUE: u32 = 1;

/// Marks a deletion.
pub const F_CLEAR: u32 = 8;

/// What a batch does to its document.
#[derive(Clone, Copy, Debug, PartialEq, Eq, Structural)]
pub enum WriteKind {
    Create,
    Update,
    Delete,
}

/// One batch for the store, to be committed as a whole: a document, and
/// the bytes to put under one of its properties.
#[derive(Debug, PartialEq, Eq)]
pub struct WriteBatch {
    pub account_id: u32,
    pub collection: Collection,
    pub kind: WriteKind,
    pub document_id: u32,
    pub property: Property,
    pub value: Vec<u8>,
    pub flags: u32,
}

pub struct WriteBatchView {
    pub account_id: u32,
    pub collection: Collection,
    pub kind: WriteKind,
    pub document_id: u32,
    pub property: PropertyView,
    pub value: Seq<u8>,
    pub flags: u32,
}

impl View for WriteBatch {
    type V = WriteBatchView;

    open spec fn view(&self) -> WriteBatchView {
        WriteBatchView {
            account_id: self.account_id,
            collection: self.collection,
            kind: self.kind,
            document_id: self.document_id,
            property: self.property@,
            value: self.value@,
            flags: self.flags,
        }
    }
}

/// The batch that stores a subscription: one put of its persisted form in
/// the value slot of its document, under `Value`.
pub open spec fn store_batch(
    account_id: u32,
    kind: WriteKind,
    document_id: u32,
    push: ObjectView,
) -> WriteBatchView {
    WriteBatchView {
        account_id,
        collection: Collection::PushSubscription,
        kind,
        document_id,
        property: Property::Value@,
        value: encode_object(push),
        flags: F_VALUE,
    }
}

/// The batch that deletes a subscription: it clears the value slot of its
/// document.
pub open spec fn delete_batch(account_id: u32, document_id: u32) -> WriteBatchView {
    WriteBatchView {
        account_id,
        collection: Collection::PushSubscription,
        kind: WriteKind::Delete,
        document_id,
        property: Property::Value@,
        value: Seq::empty(),
        flags: F_VALUE | F_CLEAR,
    }
}

/// What the caller is asked to do next.
#[derive(Debug, PartialEq, Eq)]
pub enum PushSetTask {
    /// Assign a document-id in the account's push subscriptions; then
    /// report `DocumentId` with it.
    AssignDocumentId,
    /// Commit the batch; then report `Written`.
    Write(WriteBatch),
    /// Load the subscription stored as `document_id`; then report `Loaded`
    /// with it, or with nothing if there is none.
    Load { document_id: u32 },
    /// Have the push service reread the subscriptions of `account_id`; then
    /// report `Notified`.
    Notify { account_id: u32 },
    /// The response is complete.
    Done,
    /// The event answered no task that was handed out. Nothing changed.
    Refused,
}

pub enum PushSetTaskView {
    AssignDocumentId,
    Write(WriteBatchView),
    Load { document_id: u32 },
    Notify { account_id: u32 },
    Done,
    Refused,
}

impl View for PushSetTask {
    type V = PushSetTaskView;

    open spec fn view(&self) -> PushSetTaskView {
        match self {
            PushSetTask::AssignDocumentId => PushSetTaskView::AssignDocumentId,
            PushSetTask::Write(batch) => PushSetTaskView::Write(batch@),
            PushSetTask::Load { document_id } => PushSetTaskView::Load {
                document_id: *document_id,
            },
            PushSetTask::Notify { account_id } => PushSetTaskView::Notify {
                account_id: *account_id,
            },
            PushSetTask::Done => PushSetTaskView::Done,
            PushSetTask::Refused => PushSetTaskView::Refused,
        }
    }
}

/// What is to be done next, before any code is drawn and any batch made.
pub enum PushSetPlan {
    AssignDocumentId,
    /// Store `push`, once it is given its verification code, as the new
    /// document `document_id`.
    Create { document_id: u32, push: ObjectView },
    Load { document_id: u32 },
    /// Store `push` in place of the document `document_id`.
    Update { document_id: u32, push: ObjectView },
    /// Delete the document `document_id`.
    Destroy { document_id: u32 },
    Notify { account_id: u32 },
    Done,
    Refused,
}

/// The task that carries out a plan for the account `account_id`, with
/// `code` as the verification code of the subscription that it creates, if
/// it creates one.
pub open spec fn task_of(plan: PushSetPlan, account_id: u32, code: Seq<char>) -> PushSetTaskView {
    match plan {
        PushSetPlan::AssignDocumentId => PushSetTaskView::AssignDocumentId,
        PushSetPlan::Create { document_id, push } => PushSetTaskView::Write(
            store_batch(account_id, WriteKind::Create, document_id, with_code(push, code)),
        ),
        PushSetPlan::Load { document_id } => PushSetTaskView::Load { document_id },
        PushSetPlan::Update { document_id, push } => PushSetTaskView::Write(
            store_batch(account_id, WriteKind::Update, document_id, push),
        ),
        PushSetPlan::Destroy { document_id } => PushSetTaskView::Write(
            delete_batch(account_id, document_id),
        ),
        PushSetPlan::Notify { account_id } => PushSetTaskView::Notify { account_id },
        PushSetPlan::Done => PushSetTaskView::Done,
        PushSetPlan::Refused => PushSetTaskView::Refused,
    }
}

/// What the caller reports.
#[derive(Debug, PartialEq, Eq)]
pub enum PushSetEvent {
    /// Nothing yet: asks for the first task.
    Begin,
    DocumentId(u32),
    Loaded(Option<Object<Value>>),
    Written,
    Notified,
}

pub enum PushSetEventView {
    Begin,
    DocumentId(u32),
    Loaded(Option<ObjectView>),
    Written,
    Notified,
}

impl View for PushSetEvent {
    type V = PushSetEventView;

    open spec fn view(&self) -> PushSetEventView {
        match self {
            PushSetEvent::Begin => PushSetEventView::Begin,
            PushSetEvent::DocumentId(document_id) => PushSetEventView::DocumentId(*document_id),
            PushSetEvent::Loaded(stored) => PushSetEventView::Loaded(changed_view(*stored)),
            PushSetEvent::Written => PushSetEventView::Written,
            PushSetEvent::Notified => PushSetEventView::Notified,
        }
    }
}

/// The task that the pipeline has handed out and waits to hear of.
#[derive(Debug, PartialEq, Eq)]
pub enum Waiting {
    Idle,
    /// A document-id for the subscription `push`, submitted as `id`.
    Assign { id: String, push: Object<Value> },
    /// The write of the subscription submitted as `id`.
    Create { id: String, document_id: u32 },
    Load { id: Id, changes: Object<SetValue> },
    Update { id: Id },
    Destroy { id: Id },
    Notify,
    Finished,
}

pub enum WaitingView {
    Idle,
    Assign { id: Seq<char>, push: ObjectView },
    Create { id: Seq<char>, document_id: u32 },
    Load { id: u64, changes: ChangesView },
    Update { id: u64 },
    Destroy { id: u64 },
    Notify,
    Finished,
}

impl View for Waiting {
    type V = WaitingView;

    open spec fn view(&self) -> WaitingView {
        match self {
            Waiting::Idle => WaitingView::Idle,
            Waiting::Assign { id, push } => WaitingView::Assign { id: id@, push: push@ },
            Waiting::Create { id, document_id } => WaitingView::Create {
                id: id@,
                document_id: *document_id,
            },
            Waiting::Load { id, changes } => WaitingView::Load { id: id@, changes: changes@ },
            Waiting::Update { id } => WaitingView::Update { id: id@ },
            Waiting::Destroy { id } => WaitingView::Destroy { id: id@ },
            Waiting::Notify => WaitingView::Notify,
            Waiting::Finished => WaitingView::Finished,
        }
    }
}

/// The state of one Set call on push subscriptions.
#[derive(Debug)]
pub struct PushSubscriptionSet {
    account_id: u32,
    creates: Vec<(String, Object<SetValue>)>,
    updates: Vec<(Id, Object<SetValue>)>,
    destroys: Vec<Id>,
    will_destroy: Vec<Id>,
    push_ids: Vec<u32>,
    push_max_total: usize,
    response: SetResponse,
    waiting: Waiting,
}

/// The state as contracts see it: the creates, updates and destroys still to
/// be worked through, every id that the request destroys, the document-ids
/// of the account's subscriptions, the response so far, and the task that
/// is out.
pub struct PushSetView {
    pub account_id: u32,
    pub creates: Seq<(Seq<char>, ChangesView)>,
    pub updates: Seq<(u64, ChangesView)>,
    pub destroys: Seq<u64>,
    pub will_destroy: Seq<u64>,
    pub push_ids: Seq<u32>,
    pub push_max_total: nat,
    pub response: SetResponseView,
    pub waiting: WaitingView,
}

impl View for PushSubscriptionSet {
    type V = PushSetView;

    closed spec fn view(&self) -> PushSetView {
        PushSetView {
            account_id: self.account_id,
            creates: creates_view(self.creates@),
            updates: updates_view(self.updates@),
            destroys: ids_view(self.destroys@),
            will_destroy: ids_view(self.will_destroy@),
            push_ids: self.push_ids@,
            push_max_total: self.push_max_total as nat,
            response: self.response@,
            waiting: self.waiting@,
        }
    }
}

/// The document that an id names: its low 32 bits.
pub open spec fn document_of(id: u64) -> u32 {
    (id % 0x1_0000_0000) as u32
}

/// The ids with `id` among them, once.
pub open spec fn with_document(ids: Seq<u32>, id: u32) -> Seq<u32> {
    if ids.contains(id) {
        ids
    } else {
        ids.push(id)
    }
}

impl PushSetView {
    /// The state when the task that is out is settled and `response` is the
    /// response so far.
    pub open spec fn settled(self, response: SetResponseView) -> PushSetView {
        PushSetView { response, waiting: WaitingView::Idle, ..self }
    }

    /// The state with `waiting` as the task that is out.
    pub open spec fn awaiting(self, waiting: WaitingView) -> PushSetView {
        PushSetView { waiting, ..self }
    }

    /// The state with one more create reported as rejected.
    pub open spec fn not_created(self, id: Seq<char>, error: SetErrorView) -> PushSetView {
        self.settled(
            SetResponseView {
                not_created: self.response.not_created.push((id, error)),
                ..self.response
            },
        )
    }

    /// The state with one more update reported as rejected.
    pub open spec fn not_updated(self, id: u64, error: SetErrorView) -> PushSetView {
        self.settled(
            SetResponseView {
                not_updated: self.response.not_updated.push((id, error)),
                ..self.response
            },
        )
    }

    /// The state with one more destroy reported as rejected.
    pub open spec fn not_destroyed(self, id: u64, error: SetErrorView) -> PushSetView {
        self.settled(
            SetResponseView {
                not_destroyed: self.response.not_destroyed.push((id, error)),
                ..self.response
            },
        )
    }

    /// The state with the create submitted as `id` reported as done, its
    /// document counted among the account's subscriptions.
    pub open spec fn created(self, id: Seq<char>, document_id: u32) -> PushSetView {
        PushSetView {
            push_ids: with_document(self.push_ids, document_id),
            ..self.settled(
                SetResponseView {
                    created: self.response.created.push(
                        (id, SetResponseView::created_object(document_id as u64)),
                    ),
                    ..self.response
                },
            )
        }
    }

    /// The state with the update of `id` reported as done.
    pub open spec fn updated(self, id: u64) -> PushSetView {
        self.settled(
            SetResponseView { updated: self.response.updated.push((id, None)), ..self.response },
        )
    }

    /// The state with the destroy of `id` reported as done.
    pub open spec fn destroyed(self, id: u64) -> PushSetView {
        self.settled(
            SetResponseView { destroyed: self.response.destroyed.push(id), ..self.response },
        )
    }

    /// Number of creates, updates and destroys still to be worked through.
    pub open spec fn remaining(self) -> nat {
        self.creates.len() + self.updates.len() + self.destroys.len()
    }

    /// The next task when none is out, and the state once it is handed out.
    ///
    /// For the first create that is not rejected a document-id is asked
    /// for; the creates before it are reported as not created. With no create left,
    /// the first update whose id the request does not also destroy becomes
    /// a `Load`; the updates before it are reported as not updated,
    /// for they will be destroyed. With no update left, the first destroy
    /// of a document that the account has becomes a `Destroy`; the
    /// destroys before it are reported as not found. With nothing left, the
    /// push service is notified if the response reports a change, and the
    /// call is done if it reports none.
    pub open spec fn next_task(self, now: u64) -> (PushSetView, PushSetPlan)
        decreases self.remaining(),
    {
        if self.creates.len() > 0 {
            let id = self.creates[0].0;
            let rest = PushSetView { creates: self.creates.drop_first(), ..self };
            match subscription_to_create(
                self.creates[0].1,
                self.response.created,
                self.push_ids.len(),
                self.push_max_total,
                now,
            ) {
                Ok(push) => (
                    rest.awaiting(WaitingView::Assign { id, push }),
                    PushSetPlan::AssignDocumentId,
                ),
                Err(error) => rest.not_created(id, error).next_task(now),
            }
        } else if self.updates.len() > 0 {
            let id = self.updates[0].0;
            let rest = PushSetView { updates: self.updates.drop_first(), ..self };
            if self.will_destroy.contains(id) {
                rest.not_updated(id, SetErrorView::bare(SetErrorType::WillDestroy)).next_task(now)
            } else {
                (
                    rest.awaiting(WaitingView::Load { id, changes: self.updates[0].1 }),
                    PushSetPlan::Load { document_id: document_of(id) },
                )
            }
        } else if self.destroys.len() > 0 {
            let id = self.destroys[0];
            let rest = PushSetView { destroys: self.destroys.drop_first(), ..self };
            if self.push_ids.contains(document_of(id)) {
                (
                    rest.awaiting(WaitingView::Destroy { id }),
                    PushSetPlan::Destroy { document_id: document_of(id) },
                )
            } else {
                rest.not_destroyed(id, SetErrorView::bare(SetErrorType::NotFound)).next_task(now)
            }
        } else if self.response.has_changes() {
            (
                self.awaiting(WaitingView::Notify),
                PushSetPlan::Notify { account_id: self.account_id },
            )
        } else {
            (self.awaiting(WaitingView::Finished), PushSetPlan::Done)
        }
    }

    /// The state after `event` is reported at time `now`, and what is to
    /// be done next.
    ///
    /// An event that answers the task that is out settles it. A document-id
    /// that was asked for leads to the write of the new subscription under
    /// it. A write that was committed is reported in the response; a
    /// created document is also counted among the account's subscriptions.
    /// A loaded subscription is updated as submitted and written back, or
    /// the update is reported as not updated when a property is rejected or
    /// nothing was loaded. Then the next task is looked for. Any other
    /// event is refused and changes nothing.
    pub open spec fn step(self, event: PushSetEventView, now: u64) -> (PushSetView, PushSetPlan) {
        match (self.waiting, event) {
            (WaitingView::Idle, PushSetEventView::Begin) => self.next_task(now),
            (WaitingView::Assign { id, push }, PushSetEventView::DocumentId(document_id)) => (
                self.awaiting(WaitingView::Create { id, document_id }),
                PushSetPlan::Create { document_id, push },
            ),
            (WaitingView::Create { id, document_id }, PushSetEventView::Written) => self.created(
                id,
                document_id,
            ).next_task(now),
            (WaitingView::Load { id, changes }, PushSetEventView::Loaded(Some(stored))) => {
                match updated_with(changes, stored, self.response.created, now) {
                    Ok(push) => (
                        self.awaiting(WaitingView::Update { id }),
                        PushSetPlan::Update { document_id: document_of(id), push },
                    ),
                    Err(error) => self.not_updated(id, error).next_task(now),
                }
            },
            (WaitingView::Load { id, changes }, PushSetEventView::Loaded(None)) => self.not_updated(
                id,
                SetErrorView::bare(SetErrorType::NotFound),
            ).next_task(now),
            (WaitingView::Update { id }, PushSetEventView::Written) => self.updated(id).next_task(
                now,
            ),
            (WaitingView::Destroy { id }, PushSetEventView::Written) => self.destroyed(
                id,
            ).next_task(now),
            (WaitingView::Notify, PushSetEventView::Notified) => (
                self.awaiting(WaitingView::Finished),
                PushSetPlan::Done,
            ),
            _ => (self, PushSetPlan::Refused),
        }
    }

    /// The state in which the pipeline starts on `request`.
    pub open spec fn initial(
        request: SetRequest,
        account_id: u32,
        push_ids: Seq<u32>,
        push_max_total: nat,
    ) -> PushSetView {
        PushSetView {
            account_id,
            creates: match request.create {
                Some(create) => creates_view(create@),
                None => Seq::empty(),
            },
            updates: match request.update {
                Some(update) => updates_view(update@),
                None => Seq::empty(),
            },
            destroys: destroy_section(request),
            will_destroy: destroy_section(request),
            push_ids,
            push_max_total,
            response: SetResponseView::empty(request.account_id@),
            waiting: WaitingView::Idle,
        }
    }
}

/// The ids that a request destroys; none where the section is missing or
/// still a reference.
pub open spec fn destroy_section(request: SetRequest) -> Seq<u64> {
    match request.destroy {
        Some(crate::request::reference::MaybeReference::Value(ids)) => ids_view(ids@),
        _ => Seq::empty(),
    }
}

/// Whether `drawn` may be the code in use: the one given, or any of the
/// right form where none is given and one is drawn.
pub open spec fn code_in_use(given: Option<String>, drawn: Seq<char>) -> bool {
    match given {
        Some(code) => drawn == code@,
        None => is_verification_code(drawn),
    }
}

fn holds_id(ids: &Vec<Id>, id: Id) -> (r: bool)
    ensures
        r == ids_view(ids@).contains(id@),
{
    let ghost model = ids_view(ids@);
    let mut i: usize = 0;
    while i < ids.len()
        invariant
            i <= ids@.len(),
            model == ids_view(ids@),
            forall|j: int| 0 <= j < i ==> model[j] != id@,
        decreases ids@.len() - i,
    {
        if ids[i].id() == id.id() {
            assert(model[i as int] == id@);
            return true;
        }
        i += 1;
    }
    false
}

fn holds_document(ids: &Vec<u32>, id: u32) -> (r: bool)
    ensures
        r == ids@.contains(id),
{
    let mut i: usize = 0;
    while i < ids.len()
        invariant
            i <= ids@.len(),
            forall|j: int| 0 <= j < i ==> ids@[j] != id,
        decreases ids@.len() - i,
    {
        if ids[i] == id {
            return true;
        }
        i += 1;
    }
    false
}

impl PushSubscriptionSet {
    /// Starts the pipeline on `request` for the account `account_id`, whose
    /// subscriptions are the documents `push_ids`. No more than
    /// `set_max_objects` objects may be named in the request, and the
    /// account may have no more than `push_max_total` subscriptions.
    pub fn new(
        request: SetRequest,
        account_id: u32,
        push_ids: Vec<u32>,
        set_max_objects: usize,
        push_max_total: usize,
    ) -> (r: Result<PushSubscriptionSet, MethodError>)
        ensures
            match r {
                Ok(pipeline) => request.spec_len() <= set_max_objects && pipeline@
                    == PushSetView::initial(request, account_id, push_ids@, push_max_total as nat),
                Err(error) => request.spec_len() > set_max_objects && error
                    == MethodError::RequestTooLarge,
            },
    {
        let response = match SetResponse::from_request(&request, set_max_objects) {
            Ok(response) => response,
            Err(error) => {
                return Err(error);
            },
        };
        let mut sections = request;
        let will_destroy = sections.unwrap_destroy();
        assert(sections.create == request.create);
        let creates = sections.unwrap_create();
        assert(creates@ == match request.create {
                Some(create) => create@,
                None => Seq::empty(),
            });
        let updates = sections.unwrap_update();
        let mut destroys: Vec<Id> = Vec::new();
        let mut i: usize = 0;
        while i < will_destroy.len()
            invariant
                i <= will_destroy@.len(),
                destroys@ == will_destroy@.subrange(0, i as int),
            decreases will_destroy@.len() - i,
        {
            destroys.push(will_destroy[i]);
            i += 1;
            assert(destroys@ =~= will_destroy@.subrange(0, i as int));
        }
        assert(destroys@ =~= will_destroy@);
        let pipeline = PushSubscriptionSet {
            account_id,
            creates,
            updates,
            destroys,
            will_destroy,
            push_ids,
            push_max_total,
            response,
            waiting: Waiting::Idle,
        };
        proof {
            let wanted = PushSetView::initial(request, account_id, push_ids@, push_max_total as nat);
            assert(pipeline@.creates =~= wanted.creates);
            assert(pipeline@.updates =~= wanted.updates);
            assert(pipeline@.destroys =~= wanted.destroys);
            assert(pipeline@.will_destroy =~= wanted.will_destroy);
        }
        Ok(pipeline)
    }

    /// The response so far.
    pub fn response(&self) -> (r: &SetResponse)
        ensures
            r@ == self@.response,
    {
        &self.response
    }

    /// The response, once the pipeline is through with it.
    pub fn into_response(self) -> (r: SetResponse)
        ensures
            r@ == self@.response,
    {
        self.response
    }

    /// Whether the pipeline has said `Done`.
    pub fn is_finished(&self) -> (r: bool)
        ensures
            r == (self@.waiting is Finished),
    {
        match self.waiting {
            Waiting::Finished => true,
            _ => false,
        }
    }

    fn proceed(&mut self, now: u64) -> (task: PushSetTask)
        requires
            old(self)@.waiting is Idle,
        ensures
            final(self)@ == old(self)@.next_task(now).0,
            !(old(self)@.next_task(now).1 is Create),
            task@ == task_of(old(self)@.next_task(now).1, old(self)@.account_id, Seq::empty()),
    {
        loop
            invariant
                self@.waiting is Idle,
                self@.account_id == old(self)@.account_id,
                old(self)@.next_task(now) == self@.next_task(now),
            decreases self@.remaining(),
        {
            let ghost before = self@;
            if self.creates.len() > 0 {
                let (id, object) = self.creates.remove(0);
                assert(creates_view(self.creates@) =~= before.creates.drop_first());
                match plan_create(
                    object,
                    &self.response,
                    self.push_ids.len(),
                    self.push_max_total,
                    now,
                ) {
                    Ok(push) => {
                        self.waiting = Waiting::Assign { id, push };
                        return PushSetTask::AssignDocumentId;
                    },
                    Err(error) => {
                        self.response.not_created(id, error);
                    },
                }
            } else if self.updates.len() > 0 {
                let (id, changes) = self.updates.remove(0);
                assert(updates_view(self.updates@) =~= before.updates.drop_first());
                if holds_id(&self.will_destroy, id) {
                    self.response.not_updated(id, SetError::will_destroy());
                } else {
                    let document_id = id.document_id();
                    self.waiting = Waiting::Load { id, changes };
                    return PushSetTask::Load { document_id };
                }
            } else if self.destroys.len() > 0 {
                let id = self.destroys.remove(0);
                assert(ids_view(self.destroys@) =~= before.destroys.drop_first());
                let document_id = id.document_id();
                if holds_document(&self.push_ids, document_id) {
                    self.waiting = Waiting::Destroy { id };
                    return PushSetTask::Write(self.delete(document_id));
                } else {
                    self.response.not_destroyed(id, SetError::not_found());
                }
            } else if self.response.has_changes() {
                self.waiting = Waiting::Notify;
                return PushSetTask::Notify { account_id: self.account_id };
            } else {
                self.waiting = Waiting::Finished;
                return PushSetTask::Done;
            }
        }
    }

    /// The batch that stores `push` as the document `document_id`.
    fn store(&self, kind: WriteKind, document_id: u32, push: &Object<Value>) -> (batch: WriteBatch)
        ensures
            batch@ == store_batch(self@.account_id, kind, document_id, push@),
    {
        WriteBatch {
            account_id: self.account_id,
            collection: Collection::PushSubscription,
            kind,
            document_id,
            property: Property::Value,
            value: push.serialize(),
            flags: F_VALUE,
        }
    }

    /// The batch that deletes the document `document_id`.
    fn delete(&self, document_id: u32) -> (batch: WriteBatch)
        ensures
            batch@ == delete_batch(self@.account_id, document_id),
    {
        WriteBatch {
            account_id: self.account_id,
            collection: Collection::PushSubscription,
            kind: WriteKind::Delete,
            document_id,
            property: Property::Value,
            value: Vec::new(),
            flags: F_VALUE | F_CLEAR,
        }
    }

    fn advance(&mut self, event: PushSetEvent, now: u64, code: Option<String>) -> (task:
        PushSetTask)
        ensures
            final(self)@ == old(self)@.step(event@, now).0,
            exists|drawn: Seq<char>|
                code_in_use(code, drawn) && task@ == #[trigger] task_of(
                    old(self)@.step(event@, now).1,
                    old(self)@.account_id,
                    drawn,
                ),
    {
        let ghost plan = self@.step(event@, now).1;
        let ghost account_id = self@.account_id;
        let mut waiting = Waiting::Idle;
        std::mem::swap(&mut waiting, &mut self.waiting);
        match (waiting, event) {
            (Waiting::Idle, PushSetEvent::Begin) => {},
            (Waiting::Assign { id, push }, PushSetEvent::DocumentId(document_id)) => {
                let code_text = match code {
                    Some(given) => given,
                    None => new_verification_code(),
                };
                let ghost drawn = code_text@;
                let push = seal(push, code_text);
                let batch = self.store(WriteKind::Create, document_id, &push);
                self.waiting = Waiting::Create { id, document_id };
                let task = PushSetTask::Write(batch);
                assert(task@ == task_of(plan, account_id, drawn));
                return task;
            },
            (Waiting::Create { id, document_id }, PushSetEvent::Written) => {
                if !holds_document(&self.push_ids, document_id) {
                    self.push_ids.push(document_id);
                }
                self.response.created(id, document_id);
            },
            (Waiting::Load { id, changes }, PushSetEvent::Loaded(Some(stored))) => {
                match plan_update(changes, stored, &self.response, now) {
                    Ok(push) => {
                        let document_id = id.document_id();
                        let batch = self.store(WriteKind::Update, document_id, &push);
                        self.waiting = Waiting::Update { id };
                        let task = PushSetTask::Write(batch);
                        proof {
                            let drawn = witness_code(code);
                            assert(task@ == task_of(plan, account_id, drawn));
                        }
                        return task;
                    },
                    Err(error) => {
                        self.response.not_updated(id, error);
                    },
                }
            },
            (Waiting::Load { id, changes }, PushSetEvent::Loaded(None)) => {
                self.response.not_updated(id, SetError::not_found());
            },
            (Waiting::Update { id }, PushSetEvent::Written) => {
                self.response.updated(id, None);
            },
            (Waiting::Destroy { id }, PushSetEvent::Written) => {
                self.response.destroyed(id);
            },
            (Waiting::Notify, PushSetEvent::Notified) => {
                self.waiting = Waiting::Finished;
                let task = PushSetTask::Done;
                proof {
                    let drawn = witness_code(code);
                    assert(task@ == task_of(plan, account_id, drawn));
                }
                return task;
            },
            (waiting, _) => {
                self.waiting = waiting;
                let task = PushSetTask::Refused;
                proof {
                    let drawn = witness_code(code);
                    assert(task@ == task_of(plan, account_id, drawn));
                }
                return task;
            },
        }
        let task = self.proceed(now);
        proof {
            let drawn = witness_code(code);
            assert(task@ == task_of(plan, account_id, drawn));
        }
        task
    }

    /// Takes the report of what was done and says what to do next. The
    /// time is read from the system clock, and the verification code of a
    /// new subscription is drawn at random.
    pub fn step(&mut self, event: PushSetEvent) -> (task: PushSetTask)
        ensures
            exists|now: u64, drawn: Seq<char>|
                is_verification_code(drawn) && final(self)@ == old(self)@.step(event@, now).0
                    && task@ == #[trigger] task_of(
                    old(self)@.step(event@, now).1,
                    old(self)@.account_id,
                    drawn,
                ),
    {
        let now = now();
        self.advance(event, now, None)
    }

    /// Takes the report of what was done at time `now` and says what to do
    /// next; `code` is the verification code of the new subscription, if
    /// the next task creates one.
    pub fn step_with(&mut self, event: PushSetEvent, now: u64, code: String) -> (task:
        PushSetTask)
        ensures
            final(self)@ == old(self)@.step(event@, now).0,
            task@ == task_of(old(self)@.step(event@, now).1, old(self)@.account_id, code@),
    {
        self.advance(event, now, Some(code))
    }
}

/// Some code that may be in use.
proof fn witness_code(given: Option<String>) -> (drawn: Seq<char>)
    ensures
        code_in_use(given, drawn),
{
    match given {
        Some(code) => code@,
        None => lemma_verification_code_exists(),
    }
}

impl JMAP {
    /// Starts the Set pipeline for the push subscriptions of the client's
    /// own account, whose subscriptions are the documents `push_ids`, under
    /// the engine's limits. The caller then drives the pipeline with
    /// [`PushSubscriptionSet::step`].
    pub fn push_subscription_set(
        &self,
        request: SetRequest,
        access_token: &AccessToken,
        push_ids: Vec<u32>,
    ) -> (r: Result<PushSubscriptionSet, MethodError>)
        ensures
            match r {
                Ok(pipeline) => request.spec_len() <= self.config.set_max_objects && pipeline@
                    == PushSetView::initial(
                    request,
                    access_token.primary_id,
                    push_ids@,
                    self.config.push_max_total as nat,
                ),
                Err(error) => request.spec_len() > self.config.set_max_objects && error
                    == MethodError::RequestTooLarge,
            },
    {
        PushSubscriptionSet::new(
            request,
            access_token.primary_id(),
            push_ids,
            self.config.set_max_objects,
            self.config.push_max_total,
        )
    }
}

} // verus!
