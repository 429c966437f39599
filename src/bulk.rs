//! Typed layer over a document store's bulk protocol: the decisions taken on
//! the store's answers to ping and index creation, the framing of bulk
//! operations, and the projection of a bulk response to per-item statuses.

use vstd::prelude::*;
use crate::json::{encode_json_string, encode_json_value, json_string_of};

verus! {

/// The substring of a 400 answer that marks an index which already exists.
pub const ALREADY_EXISTS_MARKER: &'static str = "resource_already_exists_exception";

/// The status code of a request that the store found malformed.
pub const BAD_REQUEST: u16 = 400;

pub open spec fn is_success_status(code: u16) -> bool {
    200 <= code && code <= 299
}

/// Whether an HTTP status code is a success (2xx).
pub fn is_success(code: u16) -> (r: bool)
    ensures
        r == is_success_status(code),
{
    200 <= code && code <= 299
}

pub open spec fn has_substring(s: Seq<char>, pat: Seq<char>) -> bool {
    exists|i: int| 0 <= i && i + pat.len() <= s.len() && #[trigger] s.subrange(i, i + pat.len()) == pat
}

/// Relies on `str::contains` with a `&str` pattern: whether `pat` occurs in
/// `s` as a run of consecutive characters.
#[verifier::external_body]
fn contains_str(s: &str, pat: &str) -> (r: bool)
    ensures
        r == has_substring(s@, pat@),
{
    s.contains(pat)
}

/// The user name and password for basic authentication with the store, or
/// none where no user name is configured (the store is then reached
/// without authentication).
pub fn basic_auth_credentials(username: &String, password: &String) -> (r: Option<(String, String)>)
    ensures
        username@.len() == 0 ==> r is None,
        username@.len() > 0 ==> (r matches Some(c) && c.0@ == username@ && c.1@ == password@),
{
    if username.as_str().is_empty() {
        None
    } else {
        Some((username.clone(), password.clone()))
    }
}

/// Why a ping of the store failed; `E` is the transport's error.
pub enum PingError<E> {
    Failed(E),
    ErrorStatusCode(u16),
}

/// Outcome of a ping, from the transport's answer (a status code or an
/// error).
pub fn ping_outcome<E>(response: Result<u16, E>) -> (r: Result<(), PingError<E>>)
    ensures
        match response {
            Ok(code) => if is_success_status(code) {
                r is Ok
            } else {
                r == Err::<(), PingError<E>>(PingError::ErrorStatusCode(code))
            },
            Err(e) => r == Err::<(), PingError<E>>(PingError::Failed(e)),
        },
{
    match response {
        Ok(code) => if is_success(code) {
            Ok(())
        } else {
            Err(PingError::ErrorStatusCode(code))
        },
        Err(e) => Err(PingError::Failed(e)),
    }
}

#[derive(Clone, Copy, Debug, PartialEq, Eq, Structural)]
pub enum IndexStatus {
    CreatedSuccessfully,
    AlreadyExists,
}

/// Why an index could not be ensured; `E` is the transport's error.
pub enum EnsureIndexExistsError<E> {
    Failed(E),
    BodyReadFailure(E),
    ErrorStatusCode(u16),
}

/// What to do after the store answered an index creation request.
pub enum IndexCreationStep<E> {
    /// The outcome is known.
    Done(Result<IndexStatus, EnsureIndexExistsError<E>>),
    /// The answer's body decides; read it and hand it to
    /// `index_creation_outcome` with this status code.
    ReadBody(u16),
}

pub open spec fn index_creation_step_spec<E>(response: Result<u16, E>) -> IndexCreationStep<E> {
    match response {
        Ok(code) => if is_success_status(code) {
            IndexCreationStep::Done(Ok(IndexStatus::CreatedSuccessfully))
        } else {
            IndexCreationStep::ReadBody(code)
        },
        Err(e) => IndexCreationStep::Done(Err(EnsureIndexExistsError::Failed(e))),
    }
}

/// First decision on an index creation request (`PUT /<index>`), from the
/// transport's answer: a 2xx creates, a transport error fails, any other
/// status needs the body.
pub fn index_creation_step<E>(response: Result<u16, E>) -> (r: IndexCreationStep<E>)
    ensures
        r == index_creation_step_spec(response),
{
    match response {
        Ok(code) => if is_success(code) {
            IndexCreationStep::Done(Ok(IndexStatus::CreatedSuccessfully))
        } else {
            IndexCreationStep::ReadBody(code)
        },
        Err(e) => IndexCreationStep::Done(Err(EnsureIndexExistsError::Failed(e))),
    }
}

pub open spec fn index_creation_outcome_spec<E>(status: u16, body: Result<Seq<char>, E>) -> Result<
    IndexStatus,
    EnsureIndexExistsError<E>,
> {
    match body {
        Err(e) => Err(EnsureIndexExistsError::BodyReadFailure(e)),
        Ok(text) => if status == BAD_REQUEST && has_substring(text, ALREADY_EXISTS_MARKER@) {
            Ok(IndexStatus::AlreadyExists)
        } else {
            Err(EnsureIndexExistsError::ErrorStatusCode(status))
        },
    }
}

pub open spec fn body_view<E>(body: Result<String, E>) -> Result<Seq<char>, E> {
    match body {
        Ok(text) => Ok(text@),
        Err(e) => Err(e),
    }
}

/// Second decision on an index creation request, from the status code of a
/// non-2xx answer and the attempt to read its body: a 400 whose body holds
/// the marker means that the index already exists.
pub fn index_creation_outcome<E>(status: u16, body: Result<String, E>) -> (r: Result<
    IndexStatus,
    EnsureIndexExistsError<E>,
>)
    ensures
        r == index_creation_outcome_spec(status, body_view(body)),
{
    match body {
        Err(e) => Err(EnsureIndexExistsError::BodyReadFailure(e)),
        Ok(text) => {
            if status == BAD_REQUEST && contains_str(text.as_str(), ALREADY_EXISTS_MARKER) {
                Ok(IndexStatus::AlreadyExists)
            } else {
                Err(EnsureIndexExistsError::ErrorStatusCode(status))
            }
        },
    }
}

/// Index creation is idempotent: the store's first answer (a 2xx) yields
/// `CreatedSuccessfully`, and every later answer for the same name (a 400
/// whose body holds the marker, whatever settings were sent) yields
/// `AlreadyExists`.
pub proof fn index_creation_is_idempotent<E>(first: u16, later_body: Seq<char>)
    requires
        is_success_status(first),
        has_substring(later_body, ALREADY_EXISTS_MARKER@),
    ensures
        index_creation_step_spec::<E>(Ok(first)) == IndexCreationStep::<E>::Done(
            Ok(IndexStatus::CreatedSuccessfully),
        ),
        index_creation_step_spec::<E>(Ok(BAD_REQUEST)) == IndexCreationStep::<E>::ReadBody(
            BAD_REQUEST,
        ),
        index_creation_outcome_spec::<E>(BAD_REQUEST, Ok(later_body)) == Ok::<
            IndexStatus,
            EnsureIndexExistsError<E>,
        >(IndexStatus::AlreadyExists),
{
}

/// One operation of a bulk request, already serialized: the action line and,
/// but for a delete, the source line.
pub struct BulkOperation {
    action: Vec<u8>,
    source: Option<Vec<u8>>,
}

/// Why a bulk operation could not be made.
pub enum MakeBulkOperationError {
    ActionSerializationFailure(serde_json::Error),
    SourceSerializationFailure(serde_json::Error),
}

/// Opening bytes of a create action line: `{"create":{"_id":`.
pub open spec fn create_action_prefix() -> Seq<u8> {
    seq![123u8, 34, 99, 114, 101, 97, 116, 101, 34, 58, 123, 34, 95, 105, 100, 34, 58]
}

/// Closing bytes of a create action line: `}}`.
pub open spec fn create_action_suffix() -> Seq<u8> {
    seq![125u8, 125]
}

/// The action line `{"create":{"_id":<id>}}` for a document id.
pub open spec fn create_action_line(id: Seq<char>) -> Seq<u8> {
    create_action_prefix() + json_string_of(id) + create_action_suffix()
}

fn push_all(out: &mut Vec<u8>, bytes: &Vec<u8>)
    ensures
        final(out)@ == old(out)@ + bytes@,
{
    let mut i: usize = 0;
    while i < bytes.len()
        invariant
            i <= bytes.len(),
            out@ == old(out)@ + bytes@.subrange(0, i as int),
        decreases bytes.len() - i,
    {
        out.push(bytes[i]);
        i = i + 1;
    }
    assert(bytes@.subrange(0, bytes.len() as int) =~= bytes@);
}

impl BulkOperation {
    pub closed spec fn action_line(&self) -> Seq<u8> {
        self.action@
    }

    pub closed spec fn source_line(&self) -> Option<Seq<u8>> {
        match self.source {
            Some(s) => Some(s@),
            None => None,
        }
    }

    /// The lines that this operation contributes to a bulk request body.
    pub open spec fn lines(&self) -> Seq<Seq<u8>> {
        match self.source_line() {
            Some(s) => seq![self.action_line(), s],
            None => seq![self.action_line()],
        }
    }

    /// A create operation for a document under `id`: the action line is
    /// `{"create":{"_id":<id>}}`, the source line the document's JSON text.
    /// It always succeeds: neither a string nor a JSON value can fail to
    /// serialize, so neither error is ever returned.
    pub fn create(id: &str, document: &serde_json::Value) -> (r: Result<
        BulkOperation,
        MakeBulkOperationError,
    >)
        ensures
            r is Ok,
            r is Ok ==> r->Ok_0.action_line() == create_action_line(id@),
            r is Ok ==> r->Ok_0.source_line() is Some,
    {
        let quoted = match encode_json_string(id) {
            Ok(bytes) => bytes,
            Err(err) => {
                return Err(MakeBulkOperationError::ActionSerializationFailure(err));
            },
        };
        let mut action: Vec<u8> = vec![123u8, 34, 99, 114, 101, 97, 116, 101, 34, 58, 123, 34, 95, 105, 100, 34, 58];
        push_all(&mut action, &quoted);
        action.push(125u8);
        action.push(125u8);
        assert(action@ =~= create_action_line(id@));
        let source = match encode_json_value(document) {
            Ok(bytes) => bytes,
            Err(err) => {
                return Err(MakeBulkOperationError::SourceSerializationFailure(err));
            },
        };
        Ok(BulkOperation { action, source: Some(source) })
    }

    /// A copy of the action line.
    pub fn action(&self) -> (r: Vec<u8>)
        ensures
            r@ == self.action_line(),
    {
        let mut r: Vec<u8> = Vec::new();
        push_all(&mut r, &self.action);
        r
    }

    /// A copy of the source line, if any.
    pub fn source(&self) -> (r: Option<Vec<u8>>)
        ensures
            match r {
                Some(v) => self.source_line() == Some(v@),
                None => self.source_line() is None,
            },
    {
        match &self.source {
            Some(s) => {
                let mut r: Vec<u8> = Vec::new();
                push_all(&mut r, s);
                Some(r)
            },
            None => None,
        }
    }
}

/// The lines of a bulk request body for `ops`, in order: each operation's
/// action line, followed by its source line where it has one.
pub open spec fn bulk_lines_spec(ops: Seq<BulkOperation>) -> Seq<Seq<u8>>
    decreases ops.len(),
{
    if ops.len() == 0 {
        Seq::empty()
    } else {
        bulk_lines_spec(ops.drop_last()) + ops.last().lines()
    }
}

/// The lines of the body of a bulk request for `ops` (the store joins them
/// with newlines).
pub fn bulk_lines(ops: &Vec<BulkOperation>) -> (r: Vec<Vec<u8>>)
    ensures
        r@.map_values(|l: Vec<u8>| l@) == bulk_lines_spec(ops@),
{
    let mut r: Vec<Vec<u8>> = Vec::new();
    let mut i: usize = 0;
    while i < ops.len()
        invariant
            i <= ops.len(),
            r@.map_values(|l: Vec<u8>| l@) == bulk_lines_spec(ops@.subrange(0, i as int)),
        decreases ops.len() - i,
    {
        let op = &ops[i];
        let ghost before = r@;
        r.push(op.action());
        match op.source() {
            Some(s) => r.push(s),
            None => {},
        }
        assert(ops@.subrange(0, i + 1).drop_last() =~= ops@.subrange(0, i as int));
        assert(r@.map_values(|l: Vec<u8>| l@) =~= before.map_values(|l: Vec<u8>| l@) + op.lines());
        i = i + 1;
    }
    assert(ops@.subrange(0, ops.len() as int) =~= ops@);
    r
}

/// The store's answer for one action of a bulk request.
pub struct ResultItemAction {
    /// Id of the document that the action concerned.
    pub id: String,
    /// Name of the index.
    pub index: String,
    /// HTTP status code of the action.
    pub status: u16,
    /// The error payload's JSON text, where the action failed.
    pub error: Option<String>,
}

/// One item of a bulk response: the store fills at most one of the actions.
pub struct ResultItem {
    pub create: Option<ResultItemAction>,
    pub delete: Option<ResultItemAction>,
    pub index: Option<ResultItemAction>,
    pub update: Option<ResultItemAction>,
}

/// A bulk response as the store sends it.
pub struct BulkResponse {
    pub took: i64,
    pub errors: bool,
    pub items: Vec<ResultItem>,
}

/// The status of one action of a bulk request.
pub enum BulkItem {
    Create(ResultItemAction),
    Delete(ResultItemAction),
    Index(ResultItemAction),
    Update(ResultItemAction),
}

/// Aggregate status of a bulk request: per-item errors stand in `items`.
pub struct BulkStatus {
    pub took: i64,
    pub errors: bool,
    pub items: Vec<BulkItem>,
}

/// Why a bulk request failed as a whole; `E` is the transport's error.
pub enum BulkError<E> {
    Failure(E),
    FailedToDecode(E),
}

impl BulkItem {
    pub open spec fn action(&self) -> ResultItemAction {
        match self {
            BulkItem::Create(a) => *a,
            BulkItem::Delete(a) => *a,
            BulkItem::Index(a) => *a,
            BulkItem::Update(a) => *a,
        }
    }

    /// The id of the document that the item concerns.
    pub fn id(&self) -> (r: &String)
        ensures
            *r == self.action().id,
    {
        match self {
            BulkItem::Create(a) => &a.id,
            BulkItem::Delete(a) => &a.id,
            BulkItem::Index(a) => &a.id,
            BulkItem::Update(a) => &a.id,
        }
    }
}

/// The status that an action present in a response item yields; `kind`
/// 0, 1, 2, 3 stands for create, delete, index, update.
pub open spec fn tagged(o: Option<ResultItemAction>, kind: u8) -> Seq<BulkItem> {
    match o {
        Some(a) => seq![
            if kind == 0 {
                BulkItem::Create(a)
            } else if kind == 1 {
                BulkItem::Delete(a)
            } else if kind == 2 {
                BulkItem::Index(a)
            } else {
                BulkItem::Update(a)
            },
        ],
        None => Seq::empty(),
    }
}

impl ResultItem {
    /// The statuses that the item yields: one per action present, in the
    /// order create, delete, index, update.
    pub open spec fn projected(&self) -> Seq<BulkItem> {
        tagged(self.create, 0) + tagged(self.delete, 1) + tagged(self.index, 2) + tagged(self.update, 3)
    }

    pub open spec fn action_count_spec(&self) -> nat {
        (if self.create is Some { 1nat } else { 0nat }) + (if self.delete is Some { 1nat } else { 0nat })
            + (if self.index is Some { 1nat } else { 0nat }) + (if self.update is Some { 1nat } else { 0nat })
    }

    /// How many actions the item holds.
    pub fn action_count(&self) -> (r: usize)
        ensures
            r == self.action_count_spec(),
    {
        let mut n: usize = 0;
        if self.create.is_some() {
            n = n + 1;
        }
        if self.delete.is_some() {
            n = n + 1;
        }
        if self.index.is_some() {
            n = n + 1;
        }
        if self.update.is_some() {
            n = n + 1;
        }
        n
    }
}

/// The statuses of a sequence of response items, in order.
pub open spec fn project_items(items: Seq<ResultItem>) -> Seq<BulkItem>
    decreases items.len(),
{
    if items.len() == 0 {
        Seq::empty()
    } else {
        project_items(items.drop_last()) + items.last().projected()
    }
}

/// Positions of the items that hold more than one action.
pub fn multi_action_items(items: &Vec<ResultItem>) -> (r: Vec<usize>)
    ensures
        forall|k: int| 0 <= k < r.len() ==> #[trigger] r[k] < items.len() && items[r[k] as int].action_count_spec() > 1,
        forall|j: int| 0 <= j < items.len() && #[trigger] items[j].action_count_spec() > 1 ==> r@.contains(j as usize),
        forall|k1: int, k2: int| 0 <= k1 < k2 < r.len() ==> r[k1] < r[k2],
{
    let mut r: Vec<usize> = Vec::new();
    let mut i: usize = 0;
    while i < items.len()
        invariant
            i <= items.len(),
            forall|k: int| 0 <= k < r.len() ==> #[trigger] r[k] < i && items[r[k] as int].action_count_spec() > 1,
            forall|j: int| 0 <= j < i && #[trigger] items[j].action_count_spec() > 1 ==> r@.contains(j as usize),
            forall|k1: int, k2: int| 0 <= k1 < k2 < r.len() ==> r[k1] < r[k2],
        decreases items.len() - i,
    {
        let ghost prev = r@;
        if items[i].action_count() > 1 {
            r.push(i);
            assert(r@[r.len() - 1] == i);
        }
        assert forall|j: int| 0 <= j < i + 1 && #[trigger] items[j].action_count_spec() > 1 implies r@.contains(
            j as usize,
        ) by {
            if j < i {
                let k = choose|k: int| 0 <= k < prev.len() && prev[k] == j as usize;
                assert(r@[k] == j as usize);
            } else {
                assert(r@[r.len() - 1] == i);
            }
        }
        i = i + 1;
    }
    r
}

fn push_action(items: &mut Vec<BulkItem>, action: Option<ResultItemAction>, kind: u8)
    requires
        kind < 4,
    ensures
        final(items)@ == old(items)@ + tagged(action, kind),
{
    match action {
        Some(a) => {
            let item = if kind == 0 {
                BulkItem::Create(a)
            } else if kind == 1 {
                BulkItem::Delete(a)
            } else if kind == 2 {
                BulkItem::Index(a)
            } else {
                BulkItem::Update(a)
            };
            items.push(item);
            assert(tagged(Some(a), kind) =~= seq![item]);
        },
        None => {
            assert(items@ =~= items@ + Seq::<BulkItem>::empty());
        },
    }
}

/// Folds a bulk response into a `BulkStatus`: each item contributes one
/// status per action present, in the order create, delete, index, update,
/// and an item with no action contributes nothing.
pub fn convert_to_status(response: BulkResponse) -> (r: BulkStatus)
    ensures
        r.took == response.took,
        r.errors == response.errors,
        r.items@ == project_items(response.items@),
{
    let BulkResponse { took, errors, items: raw_items } = response;
    let ghost raw = raw_items@;
    let mut items: Vec<BulkItem> = Vec::new();
    for raw_item in it: raw_items.into_iter()
        invariant
            it.seq() == raw,
            items@ == project_items(raw.subrange(0, it.index() as int)),
    {
        let ghost k = it.index();
        let ResultItem { create, delete, index, update } = raw_item;
        let ghost before = items@;
        push_action(&mut items, create, 0);
        push_action(&mut items, delete, 1);
        push_action(&mut items, index, 2);
        push_action(&mut items, update, 3);
        assert(raw.subrange(0, k + 1).drop_last() =~= raw.subrange(0, k as int));
        assert(items@ =~= before + raw[k as int].projected());
    }
    assert(raw.subrange(0, raw.len() as int) =~= raw);
    BulkStatus { took, errors, items }
}

impl ResultItem {
    /// The first action present in the item, in the order create, delete,
    /// index, update.
    pub open spec fn first_action(&self) -> Option<ResultItemAction> {
        if self.create is Some {
            self.create
        } else if self.delete is Some {
            self.delete
        } else if self.index is Some {
            self.index
        } else {
            self.update
        }
    }
}

proof fn single_action_projects_to_one(item: ResultItem)
    requires
        item.action_count_spec() == 1,
    ensures
        item.projected().len() == 1,
        item.first_action() == Some(item.projected()[0].action()),
{
    assert(item.projected() =~= tagged(item.create, 0) + tagged(item.delete, 1) + tagged(item.index, 2)
        + tagged(item.update, 3));
}

/// Order of a bulk request is kept: where the store answers with one item of
/// exactly one action per operation, the action of item `i` concerning
/// document `ids[i]`, the status at position `i` concerns `ids[i]`.
pub proof fn bulk_order_preserved(raw: Seq<ResultItem>, ids: Seq<Seq<char>>)
    requires
        raw.len() == ids.len(),
        forall|i: int| 0 <= i < raw.len() ==> (#[trigger] raw[i]).action_count_spec() == 1,
        forall|i: int| 0 <= i < raw.len() ==> (#[trigger] raw[i]).first_action()->Some_0.id@ == ids[i],
    ensures
        project_items(raw).len() == raw.len(),
        forall|i: int| 0 <= i < raw.len() ==> (#[trigger] project_items(raw)[i]).action().id@ == ids[i],
    decreases raw.len(),
{
    if raw.len() > 0 {
        let init = raw.drop_last();
        assert forall|i: int| 0 <= i < init.len() implies (#[trigger] init[i]).action_count_spec() == 1 by {
            assert(init[i] == raw[i]);
        }
        assert forall|i: int| 0 <= i < init.len() implies (#[trigger] init[i]).first_action()->Some_0.id@
            == ids.drop_last()[i] by {
            assert(init[i] == raw[i]);
        }
        bulk_order_preserved(init, ids.drop_last());
        single_action_projects_to_one(raw.last());
        assert(raw.last() == raw[raw.len() - 1]);
        assert forall|i: int| 0 <= i < raw.len() implies (#[trigger] project_items(raw)[i]).action().id@
            == ids[i] by {
            if i < raw.len() - 1 {
                assert(project_items(raw)[i] == project_items(init)[i]);
                assert(init[i] == raw[i]);
            }
        }
    }
}

} // verus!
