use vstd::prelude::*;

use crate::clock::{micros_of_reading, read_clock, reading_micros};
use crate::http::{empty_reply, HttpReply, ReplyBody, BAD_REQUEST, INTERNAL_SERVER_ERROR, OK};

verus! {

// ---------------------------------------------------------------------
// The submitted form
// ---------------------------------------------------------------------

/// The key of the subscriber's name in a submitted form.
pub open spec fn name_key() -> Seq<char> {
    seq!['n', 'a', 'm', 'e']
}

/// The key of the subscriber's email in a submitted form.
pub open spec fn email_key() -> Seq<char> {
    seq!['e', 'm', 'a', 'i', 'l']
}

/// The decoded key/value pairs of a form, as character sequences.
pub open spec fn pairs_view(pairs: Seq<(String, String)>) -> Seq<(Seq<char>, Seq<char>)> {
    pairs.map_values(|p: (String, String)| (p.0@, p.1@))
}

/// How many pairs of `pairs` have the key `key`.
pub open spec fn key_count(pairs: Seq<(Seq<char>, Seq<char>)>, key: Seq<char>) -> nat
    decreases pairs.len(),
{
    if pairs.len() == 0 {
        0
    } else {
        key_count(pairs.drop_last(), key) + if pairs.last().0 == key {
            1nat
        } else {
            0nat
        }
    }
}

/// The value of the last pair of `pairs` with the key `key` (empty when
/// there is none).
pub open spec fn value_of(pairs: Seq<(Seq<char>, Seq<char>)>, key: Seq<char>) -> Seq<char>
    decreases pairs.len(),
{
    if pairs.len() == 0 {
        Seq::empty()
    } else if pairs.last().0 == key {
        pairs.last().1
    } else {
        value_of(pairs.drop_last(), key)
    }
}

/// Why a submitted form is refused.
#[derive(Debug, Clone, Copy, PartialEq, Eq, Structural)]
pub enum FormError {
    /// The body is not `application/x-www-form-urlencoded` data.
    Malformed,
    /// A field (`name` or `email`) is given more than once.
    DuplicateField,
    /// There is no `name` field.
    MissingName,
    /// There is no `email` field.
    MissingEmail,
}

/// The fields of a form, as character sequences.
pub struct FormFields {
    pub name: Seq<char>,
    pub email: Seq<char>,
}

/// The outcome of reading a form made of `pairs`: each of `name` and
/// `email` must occur exactly once; other keys are ignored. A repeated field
/// is reported before a missing one, and a missing name before a missing
/// email.
pub open spec fn form_fields(pairs: Seq<(Seq<char>, Seq<char>)>) -> Result<FormFields, FormError> {
    if key_count(pairs, name_key()) >= 2 || key_count(pairs, email_key()) >= 2 {
        Err(FormError::DuplicateField)
    } else if key_count(pairs, name_key()) == 0 {
        Err(FormError::MissingName)
    } else if key_count(pairs, email_key()) == 0 {
        Err(FormError::MissingEmail)
    } else {
        Ok(FormFields { name: value_of(pairs, name_key()), email: value_of(pairs, email_key()) })
    }
}

/// The key/value pairs that `application/x-www-form-urlencoded` decoding
/// gives for `body`, or `None` where decoding fails.
pub uninterp spec fn urlencoded_pairs(body: Seq<u8>) -> Option<Seq<(Seq<char>, Seq<char>)>>;

/// Decodes `body` with `serde_urlencoded::from_bytes` into a list of
/// key/value pairs (percent-decoding, `+` as space). The contract claims
/// that the outcome is a function of the bytes alone, named
/// `urlencoded_pairs`; it does not say what that function is.
#[verifier::external_body]
fn decode_urlencoded(body: &[u8]) -> (pairs: Option<Vec<(String, String)>>)
    ensures
        pairs.is_some() == urlencoded_pairs(body@).is_some(),
        pairs matches Some(p) ==> pairs_view(p@) == urlencoded_pairs(body@).unwrap(),
{
    serde_urlencoded::from_bytes::<Vec<(String, String)>>(body).ok()
}

/// The form submitted to subscribe: a name and an email.
#[derive(Debug, PartialEq, Eq)]
pub struct FormData {
    name: String,
    email: String,
}

impl View for FormData {
    type V = FormFields;

    closed spec fn view(&self) -> FormFields {
        FormFields { name: self.name@, email: self.email@ }
    }
}

/// Every pair counted in a prefix of `pairs` is counted in `pairs`.
proof fn lemma_prefix_count(pairs: Seq<(Seq<char>, Seq<char>)>, i: int, key: Seq<char>)
    requires
        0 <= i <= pairs.len(),
    ensures
        key_count(pairs.take(i), key) <= key_count(pairs, key),
    decreases pairs.len(),
{
    if i < pairs.len() {
        assert(pairs.drop_last().take(i) =~= pairs.take(i));
        lemma_prefix_count(pairs.drop_last(), i, key);
    } else {
        assert(pairs.take(i) =~= pairs);
    }
}

proof fn lemma_count_concat(a: Seq<(Seq<char>, Seq<char>)>, b: Seq<(Seq<char>, Seq<char>)>, key: Seq<char>)
    ensures
        key_count(a + b, key) == key_count(a, key) + key_count(b, key),
        value_of(a + b, key) == if key_count(b, key) > 0 {
            value_of(b, key)
        } else {
            value_of(a, key)
        },
    decreases b.len(),
{
    if b.len() == 0 {
        assert(a + b =~= a);
    } else {
        lemma_count_concat(a, b.drop_last(), key);
        assert((a + b).drop_last() =~= a + b.drop_last());
        assert((a + b).last() == b.last());
        if b.last().0 != key && key_count(b.drop_last(), key) == 0 {
            assert(key_count(b, key) == 0);
        }
    }
}

/// Keys other than `name` and `email` do not change how a form reads: a
/// pair with another key, added at the end, leaves the outcome as it was.
pub proof fn lemma_unknown_fields_ignored(
    pairs: Seq<(Seq<char>, Seq<char>)>,
    key: Seq<char>,
    value: Seq<char>,
)
    requires
        key != name_key(),
        key != email_key(),
    ensures
        form_fields(pairs.push((key, value))) == form_fields(pairs),
{
    assert(pairs.push((key, value)).drop_last() =~= pairs);
}

/// The order of the fields does not matter: a form read from `a` followed
/// by `b` has the same outcome as one read from `b` followed by `a`.
pub proof fn lemma_field_order_irrelevant(
    a: Seq<(Seq<char>, Seq<char>)>,
    b: Seq<(Seq<char>, Seq<char>)>,
)
    ensures
        form_fields(a + b) == form_fields(b + a),
{
    lemma_count_concat(a, b, name_key());
    lemma_count_concat(b, a, name_key());
    lemma_count_concat(a, b, email_key());
    lemma_count_concat(b, a, email_key());
}

impl FormData {
    /// The name field.
    pub fn name(&self) -> (name: &str)
        ensures
            name@ == self@.name,
    {
        self.name.as_str()
    }

    /// The email field.
    pub fn email(&self) -> (email: &str)
        ensures
            email@ == self@.email,
    {
        self.email.as_str()
    }

    /// Reads a form from its decoded key/value pairs, as the `FormData`
    /// extractor of the service does: `name` and `email` must each occur
    /// once; other keys are ignored.
    pub fn from_pairs(pairs: &Vec<(String, String)>) -> (form: Result<FormData, FormError>)
        ensures
            match form_fields(pairs_view(pairs@)) {
                Ok(fields) => form matches Ok(f) && f@ == fields,
                Err(e) => form == Err::<FormData, FormError>(e),
            },
    {
        let ghost v = pairs_view(pairs@);
        let name_field = "name".to_owned();
        let email_field = "email".to_owned();
        proof {
            reveal_strlit("name");
            reveal_strlit("email");
        }
        let mut name: Option<String> = None;
        let mut email: Option<String> = None;
        let mut i: usize = 0;
        assert(v.take(0) =~= Seq::<(Seq<char>, Seq<char>)>::empty());
        while i < pairs.len()
            invariant
                i <= pairs.len(),
                v == pairs_view(pairs@),
                name_field@ == name_key(),
                email_field@ == email_key(),
                key_count(v.take(i as int), name_key()) <= 1,
                key_count(v.take(i as int), email_key()) <= 1,
                name is Some <==> key_count(v.take(i as int), name_key()) == 1,
                email is Some <==> key_count(v.take(i as int), email_key()) == 1,
                name matches Some(n) ==> n@ == value_of(v.take(i as int), name_key()),
                email matches Some(e) ==> e@ == value_of(v.take(i as int), email_key()),
            decreases pairs.len() - i,
        {
            let key = &pairs[i].0;
            let value = &pairs[i].1;
            let ghost next = v.take(i + 1);
            proof {
                assert(next.drop_last() =~= v.take(i as int));
                assert(next.last() == (key@, value@));
            }
            if *key == name_field {
                if name.is_some() {
                    proof {
                        lemma_prefix_count(v, i + 1, name_key());
                    }
                    return Err(FormError::DuplicateField);
                }
                name = Some(value.clone());
            } else if *key == email_field {
                if email.is_some() {
                    proof {
                        lemma_prefix_count(v, i + 1, email_key());
                    }
                    return Err(FormError::DuplicateField);
                }
                email = Some(value.clone());
            }
            i = i + 1;
        }
        assert(v.take(i as int) =~= v);
        match name {
            None => Err(FormError::MissingName),
            Some(n) => match email {
                None => Err(FormError::MissingEmail),
                Some(e) => Ok(FormData { name: n, email: e }),
            },
        }
    }

    /// Reads a form from a request body in
    /// `application/x-www-form-urlencoded` format.
    pub fn from_urlencoded(body: &[u8]) -> (form: Result<FormData, FormError>)
        ensures
            match urlencoded_pairs(body@) {
                None => form == Err::<FormData, FormError>(FormError::Malformed),
                Some(pairs) => match form_fields(pairs) {
                    Ok(fields) => form matches Ok(f) && f@ == fields,
                    Err(e) => form == Err::<FormData, FormError>(e),
                },
            },
    {
        match decode_urlencoded(body) {
            None => Err(FormError::Malformed),
            Some(pairs) => FormData::from_pairs(&pairs),
        }
    }
}

// ---------------------------------------------------------------------
// The stored subscriber
// ---------------------------------------------------------------------

/// Whether `id`, read as a big-endian UUID, is a random (version 4) UUID of
/// the RFC 4122 variant: its version nibble is 4 and its two variant bits
/// are `10`.
pub open spec fn is_v4_uuid(id: u128) -> bool {
    &&& (id >> 76u128) & 0xfu128 == 4u128
    &&& (id >> 62u128) & 0x3u128 == 2u128
}

/// Draws a fresh identifier with `uuid::Uuid::new_v4` and returns it as a
/// big-endian `u128` (`Uuid::as_u128`). The bits come from the system's
/// random generator; the contract claims only what `new_v4` fixes in every
/// outcome: the version nibble 4 and the variant bits `10`.
#[verifier::external_body]
fn new_v4_uuid() -> (id: u128)
    ensures
        is_v4_uuid(id),
{
    uuid::Uuid::new_v4().as_u128()
}

/// A subscriber as stored and as listed.
pub struct SubscriberView {
    pub id: u128,
    pub name: Seq<char>,
    pub email: Seq<char>,
    pub subscribed_at: i64,
}

/// A row of the `subscriptions` table.
#[derive(Debug, PartialEq, Eq)]
pub struct Subscriber {
    id: u128,
    name: String,
    email: String,
    subscribed_at: i64,
}

impl View for Subscriber {
    type V = SubscriberView;

    closed spec fn view(&self) -> SubscriberView {
        SubscriberView {
            id: self.id,
            name: self.name@,
            email: self.email@,
            subscribed_at: self.subscribed_at,
        }
    }
}

impl Subscriber {
    /// A subscriber with the given identifier (a UUID as a big-endian
    /// `u128`), name, email and subscription time (microseconds since the
    /// Unix epoch), as read back from storage.
    pub fn new(id: u128, name: String, email: String, subscribed_at: i64) -> (s: Subscriber)
        ensures
            s@ == (SubscriberView { id, name: name@, email: email@, subscribed_at }),
    {
        Subscriber { id, name, email, subscribed_at }
    }

    /// The identifier, a UUID as a big-endian `u128`.
    pub fn id(&self) -> (id: u128)
        ensures
            id == self@.id,
    {
        self.id
    }

    /// The subscriber's name.
    pub fn name(&self) -> (name: &str)
        ensures
            name@ == self@.name,
    {
        self.name.as_str()
    }

    /// The subscriber's email.
    pub fn email(&self) -> (email: &str)
        ensures
            email@ == self@.email,
    {
        self.email.as_str()
    }

    /// When the subscription was made, in microseconds since the Unix epoch.
    pub fn subscribed_at(&self) -> (at: i64)
        ensures
            at == self@.subscribed_at,
    {
        self.subscribed_at
    }
}

// ---------------------------------------------------------------------
// The handlers
// ---------------------------------------------------------------------

/// The row for `form` with the identifier `id` and the subscription time
/// `subscribed_at`: the form's name and email, and the two values as given.
pub fn subscriber_row(form: FormData, id: u128, subscribed_at: i64) -> (row: Subscriber)
    ensures
        row@ == (SubscriberView { id, name: form@.name, email: form@.email, subscribed_at }),
{
    Subscriber::new(id, form.name, form.email, subscribed_at)
}

/// The row for `form` with the identifier `id` and the clock `reading`
/// (seconds and nanoseconds since the Unix epoch): `subscriber_row` of the
/// form, `id` and the reading in microseconds, or `None` when the reading is
/// not a time that chrono represents (see `micros_of_reading`).
pub fn subscriber_at(form: FormData, id: u128, reading: Option<(u64, u32)>) -> (row: Option<Subscriber>)
    ensures
        match reading_micros(reading) {
            Some(m) => row matches Some(r) && {
                &&& r@.id == id
                &&& r@.name == form@.name
                &&& r@.email == form@.email
                &&& r@.subscribed_at == m
            },
            None => row is None,
        },
{
    match micros_of_reading(reading) {
        Some(subscribed_at) => Some(subscriber_row(form, id, subscribed_at)),
        None => None,
    }
}

/// The row that saving `form` inserts: `subscriber_at` of the form, a
/// freshly drawn random (version 4) identifier and the current reading of
/// the clock; `None` when the clock cannot be read as such a time.
pub fn insert_subscriber(form: FormData) -> (row: Option<Subscriber>)
    ensures
        row matches Some(r) ==> {
            &&& r@.name == form@.name
            &&& r@.email == form@.email
            &&& is_v4_uuid(r@.id)
            &&& r@.subscribed_at >= 0
        },
{
    let id = new_v4_uuid();
    let reading = read_clock();
    subscriber_at(form, id, reading)
}

/// What the handler of `POST /subscriptions` does with a submitted form.
#[derive(Debug, PartialEq, Eq)]
pub enum SubscribeAction {
    /// Answer at once with this reply.
    Respond(HttpReply),
    /// Insert this row, then answer with `subscription_stored`.
    Store(Subscriber),
}

/// Whether `action` is a proper answer of `POST /subscriptions` to a form
/// made of `pairs`: a form without exactly one name and one email is
/// refused with 400 Bad Request; otherwise the subscriber is to be stored,
/// with the submitted name and email, a fresh version 4 identifier and a
/// time not before the epoch, unless the clock cannot be read, which is
/// answered with 500.
pub open spec fn subscribe_answers(pairs: Seq<(Seq<char>, Seq<char>)>, action: SubscribeAction) -> bool {
    match form_fields(pairs) {
        Err(_) => action == SubscribeAction::Respond(empty_reply(BAD_REQUEST)),
        Ok(fields) => {
            ||| action == SubscribeAction::Respond(empty_reply(INTERNAL_SERVER_ERROR))
            ||| action matches SubscribeAction::Store(row) && {
                &&& row@.name == fields.name
                &&& row@.email == fields.email
                &&& is_v4_uuid(row@.id)
                &&& row@.subscribed_at >= 0
            }
        },
    }
}

/// Handles `POST /subscriptions` with the decoded form `pairs`.
pub fn subscribe(pairs: &Vec<(String, String)>) -> (action: SubscribeAction)
    ensures
        subscribe_answers(pairs_view(pairs@), action),
        key_count(pairs_view(pairs@), name_key()) == 0 || key_count(pairs_view(pairs@), email_key()) == 0
            ==> action == SubscribeAction::Respond(empty_reply(BAD_REQUEST)),
{
    match FormData::from_pairs(pairs) {
        Err(_) => SubscribeAction::Respond(HttpReply::empty(BAD_REQUEST)),
        Ok(form) => match insert_subscriber(form) {
            Some(row) => SubscribeAction::Store(row),
            None => SubscribeAction::Respond(HttpReply::empty(INTERNAL_SERVER_ERROR)),
        },
    }
}

/// Handles `POST /subscriptions` with the raw `application/x-www-form-urlencoded`
/// body: a body that does not decode is refused with 400 Bad Request;
/// otherwise the decoded pairs are handled as by `subscribe`.
pub fn subscribe_body(body: &[u8]) -> (action: SubscribeAction)
    ensures
        match urlencoded_pairs(body@) {
            None => action == SubscribeAction::Respond(empty_reply(BAD_REQUEST)),
            Some(pairs) => subscribe_answers(pairs, action),
        },
{
    match decode_urlencoded(body) {
        None => SubscribeAction::Respond(HttpReply::empty(BAD_REQUEST)),
        Some(pairs) => subscribe(&pairs),
    }
}

/// The reply of `POST /subscriptions` once the insert has run: 200 when the
/// row was stored, 500 when storing failed; no body either way.
pub fn subscription_stored(stored: bool) -> (reply: HttpReply)
    ensures
        reply == empty_reply(if stored { OK } else { INTERNAL_SERVER_ERROR }),
{
    if stored {
        HttpReply::empty(OK)
    } else {
        HttpReply::empty(INTERNAL_SERVER_ERROR)
    }
}

/// Answers `GET /subscribers` from what the query returned: the rows, sent
/// with 200, or `None` when the query failed, answered with 500 and no
/// body.
pub fn get_subscribers(fetched: Option<Vec<Subscriber>>) -> (reply: HttpReply)
    ensures
        match fetched {
            Some(rows) => reply == (HttpReply { status: OK, body: ReplyBody::Subscribers(rows) }),
            None => reply == empty_reply(INTERNAL_SERVER_ERROR),
        },
{
    match fetched {
        Some(rows) => HttpReply { status: OK, body: ReplyBody::Subscribers(rows) },
        None => HttpReply::empty(INTERNAL_SERVER_ERROR),
    }
}

} // verus!
