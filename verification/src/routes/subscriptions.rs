//! The subscription form and the handler that takes it in.

use crate::clock::utc_now;
use crate::clock::Timestamp;
use crate::form::first_value;
use crate::form::has_key;
use crate::form::has_key_before;
use crate::form::is_first_with_key;
use crate::form::is_only_with_key;
use crate::form::lemma_first_with_key_is_unique;
use crate::form::parse_pairs;
use crate::form::urlencoded_pairs;
use crate::identity::random_id;
use crate::identity::Id;
use crate::response::HttpOutcome;
use crate::response::STATUS_BAD_REQUEST;
use crate::response::STATUS_INTERNAL_SERVER_ERROR;
use crate::response::STATUS_OK;
use crate::telemetry::tagged_event;
use crate::telemetry::Level;
use crate::telemetry::LogEvent;
use crate::telemetry::LogEventView;
use crate::telemetry::RequestContext;
use vstd::prelude::*;
use vstd::string::StringExecFns;

verus! {

/// One of the two fields that a subscription form must hold.
#[derive(Clone, Copy, Debug, PartialEq, Eq, Structural)]
pub enum FormField {
    Email,
    Name,
}

/// Why a sequence of pairs is no subscription form.
#[derive(Clone, Copy, Debug, PartialEq, Eq, Structural)]
pub enum FormError {
    /// The field occurs in no pair.
    Missing(FormField),
    /// The field occurs in more than one pair.
    Duplicate(FormField),
}

/// A submitted subscription form. Both fields are kept as they were sent: no
/// validation is made of either.
#[derive(Clone, Debug, PartialEq, Eq)]
pub struct FormData {
    pub email: String,
    pub name: String,
}

/// What a form holds, as two sequences of characters.
pub ghost struct FormView {
    pub email: Seq<char>,
    pub name: Seq<char>,
}

impl View for FormData {
    type V = FormView;

    open spec fn view(&self) -> FormView {
        FormView { email: self.email@, name: self.name@ }
    }
}

/// The field that a key names, if it names one.
pub open spec fn key_field(key: Seq<char>) -> Option<FormField> {
    if key == "email"@ {
        Some(FormField::Email)
    } else if key == "name"@ {
        Some(FormField::Name)
    } else {
        None
    }
}

/// Whether pair `j` names a field that an earlier pair names too.
pub open spec fn repeats_at(pairs: Seq<(Seq<char>, Seq<char>)>, j: int) -> bool {
    &&& 0 <= j < pairs.len()
    &&& key_field(pairs[j].0) is Some
    &&& has_key_before(pairs, pairs[j].0, j)
}

/// Whether pair `j` is the first one that names a field a second time.
pub open spec fn is_first_repeat(pairs: Seq<(Seq<char>, Seq<char>)>, j: int) -> bool {
    &&& repeats_at(pairs, j)
    &&& forall|k: int| 0 <= k < j ==> !#[trigger] repeats_at(pairs, k)
}

/// The form that a sequence of pairs holds.
///
/// The pairs are taken in order. A pair whose key is neither `email` nor
/// `name` is passed over. The first pair that names a field for the second
/// time makes the whole sequence invalid. Where no field is named twice, both
/// must be named: `email` is looked for first, then `name`.
pub open spec fn decode_fields(pairs: Seq<(Seq<char>, Seq<char>)>) -> Result<FormView, FormError> {
    if exists|j: int| is_first_repeat(pairs, j) {
        let j = choose|j: int| is_first_repeat(pairs, j);
        Err(FormError::Duplicate(key_field(pairs[j].0)->0))
    } else if !has_key(pairs, "email"@) {
        Err(FormError::Missing(FormField::Email))
    } else if !has_key(pairs, "name"@) {
        Err(FormError::Missing(FormField::Name))
    } else {
        Ok(FormView { email: first_value(pairs, "email"@), name: first_value(pairs, "name"@) })
    }
}

/// The view of a decoding result: the form by its view, the error as it is.
pub open spec fn decoded_view(r: Result<FormData, FormError>) -> Result<FormView, FormError> {
    match r {
        Ok(form) => Ok(form@),
        Err(e) => Err(e),
    }
}

impl FormData {
    /// Picks the form's two fields out of decoded pairs.
    pub fn from_pairs(pairs: &Vec<(String, String)>) -> (r: Result<FormData, FormError>)
        ensures
            decoded_view(r) == decode_fields(pairs.deep_view()),
    {
        let ghost dv = pairs.deep_view();
        let email_key = String::from_str("email");
        let name_key = String::from_str("name");
        proof {
            reveal_strlit("email");
            reveal_strlit("name");
            assert("email"@.len() == 5);
            assert("name"@.len() == 4);
        }
        let mut email: Option<String> = None;
        let mut name: Option<String> = None;
        let ghost mut email_at: int = -1;
        let ghost mut name_at: int = -1;
        let mut i: usize = 0;
        while i < pairs.len()
            invariant
                i <= pairs.len(),
                dv == pairs.deep_view(),
                dv.len() == pairs.len(),
                email_key@ == "email"@,
                name_key@ == "name"@,
                "email"@ != "name"@,
                forall|k: int| 0 <= k < i ==> !#[trigger] repeats_at(dv, k),
                email is Some <==> has_key_before(dv, "email"@, i as int),
                name is Some <==> has_key_before(dv, "name"@, i as int),
                email matches Some(e) ==> is_first_with_key(dv, "email"@, email_at) && e@
                    == dv[email_at].1,
                name matches Some(n) ==> is_first_with_key(dv, "name"@, name_at) && n@
                    == dv[name_at].1,
            decreases pairs.len() - i,
        {
            let pair = &pairs[i];
            assert(dv[i as int] == (pair.0@, pair.1@));
            if pair.0 == email_key {
                if email.is_some() {
                    proof {
                        lemma_first_repeat_is_unique(dv, i as int);
                    }
                    return Err(FormError::Duplicate(FormField::Email));
                }
                email = Some(pair.1.clone());
                proof {
                    email_at = i as int;
                }
            } else if pair.0 == name_key {
                if name.is_some() {
                    proof {
                        lemma_first_repeat_is_unique(dv, i as int);
                    }
                    return Err(FormError::Duplicate(FormField::Name));
                }
                name = Some(pair.1.clone());
                proof {
                    name_at = i as int;
                }
            }
            i += 1;
        }
        match email {
            None => Err(FormError::Missing(FormField::Email)),
            Some(email) => match name {
                None => Err(FormError::Missing(FormField::Name)),
                Some(name) => {
                    proof {
                        lemma_first_with_key_is_unique(dv, "email"@, email_at);
                        lemma_first_with_key_is_unique(dv, "name"@, name_at);
                    }
                    Ok(FormData { email, name })
                },
            },
        }
    }

    /// Decodes a form-encoded body into a subscription form.
    pub fn from_body(body: &[u8]) -> (r: Result<FormData, FormError>)
        ensures
            decoded_view(r) == decode_fields(urlencoded_pairs(body@)),
    {
        let pairs = parse_pairs(body);
        FormData::from_pairs(&pairs)
    }
}

/// The statement that stores one subscriber. Its four parameters are, in
/// order, the fields of [`NewSubscriber`]: `id`, `email`, `name` and
/// `subscribed_at`.
pub const INSERT_SUBSCRIBER: &'static str =
    "INSERT INTO subscriptions (id, email, name, subscribed_at) VALUES ($1, $2, $3, $4)";

/// The row of a subscriber that is about to be stored.
#[derive(Clone, Debug, PartialEq, Eq)]
pub struct NewSubscriber {
    pub id: Id,
    pub email: String,
    pub name: String,
    pub subscribed_at: Timestamp,
}

/// What a row holds, its texts as sequences of characters.
pub ghost struct NewSubscriberView {
    pub id: Id,
    pub email: Seq<char>,
    pub name: Seq<char>,
    pub subscribed_at: Timestamp,
}

impl View for NewSubscriber {
    type V = NewSubscriberView;

    open spec fn view(&self) -> NewSubscriberView {
        NewSubscriberView {
            id: self.id,
            email: self.email@,
            name: self.name@,
            subscribed_at: self.subscribed_at,
        }
    }
}

/// A submission that was decoded and now waits for the store: the context
/// of its request, which tags the request's log lines, and the one row to
/// insert.
#[derive(Clone, Debug, PartialEq, Eq)]
pub struct Subscription {
    pub context: RequestContext,
    pub subscriber: NewSubscriber,
}

/// What a waiting submission holds.
pub ghost struct SubscriptionView {
    pub context: RequestContext,
    pub subscriber: NewSubscriberView,
}

impl View for Subscription {
    type V = SubscriptionView;

    open spec fn view(&self) -> SubscriptionView {
        SubscriptionView { context: self.context, subscriber: self.subscriber@ }
    }
}

/// How the store answered the insert of one row.
#[derive(Clone, Debug, PartialEq, Eq)]
pub enum StoreOutcome {
    /// The row exists.
    Saved,
    /// The row does not exist; the text says what the store reported.
    Failed(String),
}

/// The end of a submission that reached the store: the answer to the client
/// and the line to log.
#[derive(Debug)]
pub struct Conclusion {
    pub response: HttpOutcome,
    pub log: LogEvent,
}

/// What a conclusion holds.
pub ghost struct ConclusionView {
    pub status: u16,
    pub body: Seq<u8>,
    pub log: LogEventView,
}

impl View for Conclusion {
    type V = ConclusionView;

    open spec fn view(&self) -> ConclusionView {
        ConclusionView {
            status: self.response.status,
            body: self.response.body@,
            log: self.log@,
        }
    }
}

/// The submission that a decoded form becomes, given the two identifiers and
/// the time that were drawn for it.
pub open spec fn accepted(
    form: FormView,
    request_id: Id,
    subscriber_id: Id,
    now: Timestamp,
) -> SubscriptionView {
    SubscriptionView {
        context: RequestContext { request_id },
        subscriber: NewSubscriberView {
            id: subscriber_id,
            email: form.email,
            name: form.name,
            subscribed_at: now,
        },
    }
}

/// What is logged when the row was stored.
pub open spec fn saved_text() -> Seq<char> {
    "successfully saved new subscriber details to database"@
}

/// What is logged when the store failed: what it reported, after a fixed
/// lead.
pub open spec fn failed_text(detail: Seq<char>) -> Seq<char> {
    "failed to execute query to insert new subscriber: "@ + detail
}

/// How a submission ends, given the store's answer: 200 and a line at level
/// info where the row was stored, 500 and a line at level error where it was
/// not. The line is tagged with the request's identifier. The body is empty
/// either way, so nothing of a failure reaches the client.
pub open spec fn conclusion(context: RequestContext, outcome: StoreOutcome) -> ConclusionView {
    match outcome {
        StoreOutcome::Saved => ConclusionView {
            status: STATUS_OK,
            body: Seq::empty(),
            log: tagged_event(context.request_id, Level::Info, saved_text()),
        },
        StoreOutcome::Failed(detail) => ConclusionView {
            status: STATUS_INTERNAL_SERVER_ERROR,
            body: Seq::empty(),
            log: tagged_event(context.request_id, Level::Error, failed_text(detail@)),
        },
    }
}

/// The answer to a payload that is no subscription form: 400 with an empty
/// body, whatever the payload lacked.
pub fn reject(error: FormError) -> (out: HttpOutcome)
    ensures
        out.status == STATUS_BAD_REQUEST,
        out.body@ == Seq::<u8>::empty(),
{
    HttpOutcome::with_status(STATUS_BAD_REQUEST)
}

impl Subscription {
    /// The submission that waits for the store, made of a decoded form, the
    /// two identifiers drawn for it and the time of the insert.
    pub fn new(form: FormData, request_id: Id, subscriber_id: Id, now: Timestamp) -> (s:
        Subscription)
        ensures
            s@ == accepted(form@, request_id, subscriber_id, now),
    {
        Subscription {
            context: RequestContext::new(request_id),
            subscriber: NewSubscriber {
                id: subscriber_id,
                email: form.email,
                name: form.name,
                subscribed_at: now,
            },
        }
    }

    /// Ends the submission with the store's answer.
    pub fn conclude(&self, outcome: StoreOutcome) -> (c: Conclusion)
        ensures
            c@ == conclusion(self.context, outcome),
    {
        match outcome {
            StoreOutcome::Saved => Conclusion {
                response: HttpOutcome::with_status(STATUS_OK),
                log: self.context.event(
                    Level::Info,
                    "successfully saved new subscriber details to database",
                ),
            },
            StoreOutcome::Failed(detail) => {
                let mut text = String::from_str(
                    "failed to execute query to insert new subscriber: ",
                );
                text.append(detail.as_str());
                Conclusion {
                    response: HttpOutcome::with_status(STATUS_INTERNAL_SERVER_ERROR),
                    log: self.context.event(Level::Error, text.as_str()),
                }
            },
        }
    }
}

/// Takes in one submission, up to the point where the store is needed.
///
/// A body that is no subscription form is answered at once with 400: no
/// identifier is drawn for it and nothing is to be stored. Any other body
/// gives the row to insert, with the two fields as they were sent, a fresh
/// identifier of its own, the time of the call, and a second fresh
/// identifier for the request's log lines.
pub fn subscribe(body: &[u8]) -> (r: Result<Subscription, HttpOutcome>)
    ensures
        match decode_fields(urlencoded_pairs(body@)) {
            Ok(form) => {
                &&& r matches Ok(s)
                &&& s.subscriber.email@ == form.email
                &&& s.subscriber.name@ == form.name
                &&& s.subscriber.id.is_random()
                &&& s.subscriber.subscribed_at.is_clock_reading()
                &&& s.context.request_id.is_random()
            },
            Err(_) => {
                &&& r matches Err(out)
                &&& out.status == STATUS_BAD_REQUEST
                &&& out.body@ == Seq::<u8>::empty()
            },
        },
{
    match FormData::from_body(body) {
        Err(error) => Err(reject(error)),
        Ok(form) => {
            let request_id = random_id();
            let subscriber_id = random_id();
            let now = utc_now();
            Ok(Subscription::new(form, request_id, subscriber_id, now))
        },
    }
}

/// At most one pair is the first to name a field a second time.
pub proof fn lemma_first_repeat_is_unique(pairs: Seq<(Seq<char>, Seq<char>)>, j: int)
    requires
        is_first_repeat(pairs, j),
    ensures
        (choose|k: int| is_first_repeat(pairs, k)) == j,
{
    let k = choose|k: int| is_first_repeat(pairs, k);
    assert(is_first_repeat(pairs, k));
    if k < j {
        assert(!repeats_at(pairs, k));
    } else if j < k {
        assert(!repeats_at(pairs, j));
    }
}

/// Where some pair names a field a second time, one pair is the first to do
/// so.
pub proof fn lemma_repeat_has_first(pairs: Seq<(Seq<char>, Seq<char>)>, j: int)
    requires
        repeats_at(pairs, j),
    ensures
        exists|k: int| 0 <= k <= j && is_first_repeat(pairs, k),
    decreases j,
{
    if exists|k: int| 0 <= k < j && repeats_at(pairs, k) {
        let k = choose|k: int| 0 <= k < j && repeats_at(pairs, k);
        lemma_repeat_has_first(pairs, k);
    } else {
        assert(is_first_repeat(pairs, j));
    }
}

/// A sequence of pairs holds a form exactly when each of the two fields is
/// sent once: then the form's fields are the values of those two pairs.
pub proof fn lemma_form_is_decoded_iff_each_field_once(pairs: Seq<(Seq<char>, Seq<char>)>)
    ensures
        decode_fields(pairs) is Ok <==> (exists|i: int| is_only_with_key(pairs, "email"@, i)) && (
        exists|j: int| is_only_with_key(pairs, "name"@, j)),
        forall|i: int, j: int|
            is_only_with_key(pairs, "email"@, i) && is_only_with_key(pairs, "name"@, j)
                ==> decode_fields(pairs) == Ok::<FormView, FormError>(
                FormView { email: pairs[i].1, name: pairs[j].1 },
            ),
{
    assert forall|i: int, j: int|
        is_only_with_key(pairs, "email"@, i) && is_only_with_key(pairs, "name"@, j) implies (
    decode_fields(pairs) == Ok::<FormView, FormError>(
        FormView { email: pairs[i].1, name: pairs[j].1 },
    )) by {
        lemma_each_field_once_is_decoded(pairs, i, j);
    }
    if decode_fields(pairs) is Ok {
        assert forall|k: int| !repeats_at(pairs, k) by {
            if repeats_at(pairs, k) {
                lemma_repeat_has_first(pairs, k);
            }
        }
        lemma_key_without_repeat_is_alone(pairs, "email"@);
        lemma_key_without_repeat_is_alone(pairs, "name"@);
    }
}

/// Where a field's key occurs and no pair names a field a second time, one
/// pair alone has that key.
proof fn lemma_key_without_repeat_is_alone(pairs: Seq<(Seq<char>, Seq<char>)>, key: Seq<char>)
    requires
        key_field(key) is Some,
        has_key(pairs, key),
        forall|k: int| !repeats_at(pairs, k),
    ensures
        exists|i: int| is_only_with_key(pairs, key, i),
{
    let i = choose|i: int| 0 <= i < pairs.len() && (#[trigger] pairs[i]).0 == key;
    assert forall|k: int| 0 <= k < pairs.len() && k != i implies (#[trigger] pairs[k]).0
        != key by {
        if pairs[k].0 == key {
            if k < i {
                assert(repeats_at(pairs, i));
            } else {
                assert(repeats_at(pairs, k));
            }
        }
    }
    assert(is_only_with_key(pairs, key, i));
}

/// Where each of the two fields is sent once, in the pairs `i` and `j`, the
/// form holds the values of those pairs.
proof fn lemma_each_field_once_is_decoded(pairs: Seq<(Seq<char>, Seq<char>)>, i: int, j: int)
    requires
        is_only_with_key(pairs, "email"@, i),
        is_only_with_key(pairs, "name"@, j),
    ensures
        decode_fields(pairs) == Ok::<FormView, FormError>(
            FormView { email: pairs[i].1, name: pairs[j].1 },
        ),
{
    assert forall|k: int| !is_first_repeat(pairs, k) by {
        if repeats_at(pairs, k) {
            let earlier = choose|e: int|
                0 <= e < k && e < pairs.len() && (#[trigger] pairs[e]).0 == pairs[k].0;
            assert(pairs[earlier].0 == pairs[k].0);
        }
    }
    assert(has_key(pairs, "email"@));
    assert(has_key(pairs, "name"@));
    assert(is_first_with_key(pairs, "email"@, i));
    assert(is_first_with_key(pairs, "name"@, j));
    lemma_first_with_key_is_unique(pairs, "email"@, i);
    lemma_first_with_key_is_unique(pairs, "name"@, j);
}

/// A submission that sends each field once is taken in and, once the store
/// has saved it, answered with 200 and an empty body. The one row handed to
/// the store holds the two fields as they were sent, with the identifier and
/// the time that were drawn for it.
pub proof fn lemma_valid_submission_is_stored(
    pairs: Seq<(Seq<char>, Seq<char>)>,
    i: int,
    j: int,
    request_id: Id,
    subscriber_id: Id,
    now: Timestamp,
)
    requires
        is_only_with_key(pairs, "email"@, i),
        is_only_with_key(pairs, "name"@, j),
    ensures
        decode_fields(pairs) is Ok,
        accepted(decode_fields(pairs)->Ok_0, request_id, subscriber_id, now).subscriber == (
        NewSubscriberView {
            id: subscriber_id,
            email: pairs[i].1,
            name: pairs[j].1,
            subscribed_at: now,
        }),
        conclusion(RequestContext { request_id }, StoreOutcome::Saved).status == STATUS_OK,
        conclusion(RequestContext { request_id }, StoreOutcome::Saved).body == Seq::<u8>::empty(),
{
    lemma_each_field_once_is_decoded(pairs, i, j);
}

/// A submission that lacks `email`, `name` or both holds no form: nothing is
/// handed to the store, and the answer is that of [`reject`], 400.
pub proof fn lemma_missing_field_is_rejected(pairs: Seq<(Seq<char>, Seq<char>)>)
    requires
        !has_key(pairs, "email"@) || !has_key(pairs, "name"@),
    ensures
        decode_fields(pairs) is Err,
{
}

/// Nothing is remembered between submissions: a form that was taken in once
/// is taken in again, and with another identifier it makes another row, which
/// holds the same two fields.
pub proof fn lemma_resubmission_makes_another_row(
    form: FormView,
    first_request: Id,
    first_id: Id,
    first_time: Timestamp,
    second_request: Id,
    second_id: Id,
    second_time: Timestamp,
)
    requires
        first_id != second_id,
    ensures
        accepted(form, first_request, first_id, first_time).subscriber != accepted(
            form,
            second_request,
            second_id,
            second_time,
        ).subscriber,
        accepted(form, first_request, first_id, first_time).subscriber.email == accepted(
            form,
            second_request,
            second_id,
            second_time,
        ).subscriber.email,
        accepted(form, first_request, first_id, first_time).subscriber.name == accepted(
            form,
            second_request,
            second_id,
            second_time,
        ).subscriber.name,
{
}

} // verus!
