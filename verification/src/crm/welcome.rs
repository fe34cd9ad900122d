//! The decisions of the welcome campaign: which users to greet, with which
//! contents, and what to answer.

use vstd::prelude::*;

use crate::metadata::MaterializeRequest;
use crate::status::Status;
use crate::time::{days_span_in_range, seconds_per_day, utc_checked_add_days, utc_checked_sub_days, utc_in_range, Timestamp};
use crate::user_stat::User;

verus! {

/// Greet the users who signed up `interval` days ago with the given contents.
#[derive(Debug)]
pub struct WelcomeRequest {
    pub id: String,
    pub interval: u32,
    pub content_ids: Vec<u32>,
}

/// The answer to a welcome request: its id.
#[derive(Debug)]
pub struct WelcomeResponse {
    pub id: String,
}

/// One welcome e-mail as it is handed to the notification service: its
/// subject, its sender and its one recipient.
#[derive(Debug)]
pub struct WelcomeNotice {
    pub subject: String,
    pub sender: String,
    pub recipients: Vec<String>,
}

/// The subject of every welcome e-mail.
pub open spec fn welcome_subject() -> Seq<char> {
    "Welcome"@
}

/// Whether the sign-up window of a welcome request lies in chrono's range:
/// `now` is a whole instant and both ends of the window exist.
pub open spec fn window_defined(now: Timestamp, interval: u32) -> bool {
    &&& 0 <= now.nanos < 1_000_000_000
    &&& utc_in_range(now.seconds as int)
    &&& utc_in_range(now.seconds - interval * seconds_per_day())
    &&& utc_in_range(now.seconds - interval * seconds_per_day() + seconds_per_day())
}

/// The sign-up window of a request exists exactly when chrono can represent
/// all it involves: `now` is a whole instant within chrono's range, and so
/// are the instant `interval` days of 86400 seconds before it and the instant
/// one day after that; no interval is ruled out for any other reason.
pub proof fn lemma_window_defined_by_chrono_range(now: Timestamp, interval: u32)
    ensures
        window_defined(now, interval) <==> {
            &&& 0 <= now.nanos < 1_000_000_000
            &&& utc_in_range(now.seconds as int)
            &&& utc_in_range(now.seconds - 86400 * interval)
            &&& utc_in_range(now.seconds - 86400 * interval + 86400)
        },
{
}

/// Decides `window_defined`.
pub fn window_ok(now: Timestamp, interval: u32) -> (b: bool)
    ensures
        b == window_defined(now, interval),
{
    let start: i128 = now.seconds as i128 - interval as i128 * 86400;
    let end: i128 = start + 86400;
    0 <= now.nanos && now.nanos < 1_000_000_000 && -8334601228800 <= now.seconds && now.seconds
        <= 8210266876799 && -8334601228800 <= start && start <= 8210266876799 && -8334601228800
        <= end && end <= 8210266876799
}

/// The sign-up window of users to greet: the day that starts `interval` days
/// before `now`.
pub fn welcome_window(now: Timestamp, interval: u32) -> (r: (Timestamp, Timestamp))
    requires
        window_defined(now, interval),
    ensures
        r.0.seconds == now.seconds - interval * seconds_per_day(),
        r.1.seconds == r.0.seconds + seconds_per_day(),
        r.0.nanos == now.nanos,
        r.1.nanos == now.nanos,
{
    let days: i64 = interval as i64;
    assert(days_span_in_range(days as int));
    assert(days_span_in_range(1));
    let nanos: u32 = now.nanos as u32;
    let start = utc_checked_sub_days(now.seconds, nanos, days).unwrap();
    let end = utc_checked_add_days(start.0, start.1, 1).unwrap();
    (Timestamp { seconds: start.0, nanos: start.1 as i32 }, Timestamp { seconds: end.0, nanos: end.1 as i32 })
}

/// The requests for the contents of a welcome request, one per content id, in
/// order.
pub fn materialize_requests(content_ids: &Vec<u32>) -> (r: Vec<MaterializeRequest>)
    ensures
        r@.len() == content_ids@.len(),
        forall|i: int| 0 <= i < r@.len() ==> #[trigger] r@[i].id == content_ids@[i],
{
    let mut r: Vec<MaterializeRequest> = Vec::new();
    for i in 0..content_ids.len()
        invariant
            r@.len() == i,
            forall|j: int| 0 <= j < i ==> #[trigger] r@[j].id == content_ids@[j],
    {
        r.push(MaterializeRequest { id: content_ids[i] });
    }
    r
}

/// The values of the successful results, in order; failed results are
/// skipped.
pub open spec fn successes<T, E>(results: Seq<Result<T, E>>) -> Seq<T>
    decreases results.len(),
{
    if results.len() == 0 {
        Seq::<T>::empty()
    } else {
        match results.last() {
            Ok(v) => successes(results.drop_last()).push(v),
            Err(_) => successes(results.drop_last()),
        }
    }
}

/// The contents that the metadata service delivered: every successful answer,
/// in order, skipping the failed ones.
pub fn received_contents<T, E>(answers: Vec<Result<T, E>>) -> (r: Vec<T>)
    ensures
        r@ == successes(answers@),
{
    let ghost all = answers@;
    let mut r: Vec<T> = Vec::new();
    for answer in it: answers
        invariant
            it.seq() == all,
            r@ == successes(all.take(it.index() as int)),
    {
        proof {
            assert(all.take(it.index() + 1).drop_last() =~= all.take(it.index() as int));
        }
        match answer {
            Ok(content) => r.push(content),
            Err(_) => {},
        }
    }
    proof {
        assert(all.take(all.len() as int) =~= all);
    }
    r
}

/// Whether a welcome e-mail greets one user: the welcome subject, from
/// `sender`, to the user's address alone.
pub open spec fn greets(notice: WelcomeNotice, user: User, sender: Seq<char>) -> bool {
    &&& notice.subject@ == welcome_subject()
    &&& notice.sender@ == sender
    &&& notice.recipients@.len() == 1
    &&& notice.recipients@[0]@ == user.email@
}

/// Whether `notices` greet, from `sender`, exactly the users of a stream
/// that arrive before its first failure, one e-mail per user, in order.
pub open spec fn greets_leading_users<E>(users: Seq<Result<User, E>>, sender: Seq<char>, notices: Seq<WelcomeNotice>) -> bool {
    &&& notices.len() <= users.len()
    &&& notices.len() == users.len() || users[notices.len() as int] is Err
    &&& forall|i: int| 0 <= i < notices.len() ==> (#[trigger] users[i]) is Ok
    &&& forall|i: int| 0 <= i < notices.len() ==> greets(#[trigger] notices[i], users[i]->Ok_0, sender)
}

/// The welcome e-mails for a stream of users: one per user, from `sender` to
/// the user's address, for the users that arrive before the first failure.
pub fn welcome_notices<E>(users: &Vec<Result<User, E>>, sender: &String) -> (r: Vec<WelcomeNotice>)
    ensures
        greets_leading_users(users@, sender@, r@),
{
    let mut r: Vec<WelcomeNotice> = Vec::new();
    let mut i: usize = 0;
    while i < users.len()
        invariant_except_break
            i <= users@.len(),
            r@.len() == i,
            forall|j: int| 0 <= j < i ==> (#[trigger] users@[j]) is Ok,
            forall|j: int| 0 <= j < i ==> greets(#[trigger] r@[j], users@[j]->Ok_0, sender@),
        ensures
            r@.len() <= users@.len(),
            r@.len() == users@.len() || users@[r@.len() as int] is Err,
            forall|j: int| 0 <= j < r@.len() ==> (#[trigger] users@[j]) is Ok,
            forall|j: int| 0 <= j < r@.len() ==> greets(#[trigger] r@[j], users@[j]->Ok_0, sender@),
        decreases users@.len() - i,
    {
        match &users[i] {
            Ok(u) => {
                let mut recipients: Vec<String> = Vec::new();
                recipients.push(u.email.clone());
                let notice = WelcomeNotice { subject: "Welcome".to_string(), sender: sender.clone(), recipients };
                r.push(notice);
            },
            Err(_) => {
                break;
            },
        }
        i = i + 1;
    }
    r
}

/// The answer to a welcome request once its e-mails are handed over.
pub fn welcome_response(request_id: String) -> (r: WelcomeResponse)
    ensures
        r.id == request_id,
{
    WelcomeResponse { id: request_id }
}

/// What the campaign waits for next, with what it keeps until then.
#[derive(Debug)]
pub enum WelcomeStage<E> {
    /// The users of the sign-up window were asked for.
    AwaitingUsers { request: WelcomeRequest, sender: String },
    /// The contents were asked for; the users' answers are kept.
    AwaitingContents { request_id: String, sender: String, users: Vec<Result<User, E>> },
    /// The e-mails were handed to the notification service.
    AwaitingDelivery { request_id: String },
    /// The request is answered.
    Finished,
}

/// What one call to another service gave back.
#[derive(Debug)]
pub enum WelcomeEvent<C, E> {
    /// The user statistics service answered the query for the window.
    UsersFound(Result<Vec<Result<User, E>>, E>),
    /// The metadata service answered the content requests.
    ContentsFound(Result<Vec<Result<C, E>>, E>),
    /// The notification service took the e-mails, or refused them.
    Delivered(Result<(), E>),
}

/// What to do next.
#[derive(Debug)]
pub enum WelcomeAction<C, E> {
    /// Ask the user statistics service for the users created in the window.
    QueryUsers { from: Timestamp, to: Timestamp },
    /// Ask the metadata service for the contents.
    Materialize { requests: Vec<MaterializeRequest> },
    /// Hand the e-mails, each with the contents, to the notification service.
    Send { notices: Vec<WelcomeNotice>, contents: Vec<C> },
    /// Answer the request.
    Reply(Result<WelcomeResponse, E>),
}

/// Whether an event answers what a stage waits for.
pub open spec fn answers<C, E>(stage: WelcomeStage<E>, event: WelcomeEvent<C, E>) -> bool {
    match stage {
        WelcomeStage::AwaitingUsers { .. } => event is UsersFound,
        WelcomeStage::AwaitingContents { .. } => event is ContentsFound,
        WelcomeStage::AwaitingDelivery { .. } => event is Delivered,
        WelcomeStage::Finished => false,
    }
}

/// Starts a welcome request: asks for the users who signed up in the window
/// that `now` and the request's interval give.
pub fn welcome_start<C, E>(request: WelcomeRequest, sender: String, now: Timestamp) -> (r: (WelcomeStage<E>, WelcomeAction<C, E>))
    requires
        window_defined(now, request.interval),
    ensures
        r.0 == (WelcomeStage::<E>::AwaitingUsers { request, sender }),
        r.1 matches WelcomeAction::QueryUsers { from, to } && from.seconds == now.seconds - request.interval
            * seconds_per_day() && to.seconds == from.seconds + seconds_per_day() && from.nanos == now.nanos
            && to.nanos == now.nanos,
{
    let (from, to) = welcome_window(now, request.interval);
    (WelcomeStage::AwaitingUsers { request, sender }, WelcomeAction::QueryUsers { from, to })
}

/// Takes the campaign one step on: a failed call answers the request with its
/// error; the users lead to the content requests, the contents to the
/// e-mails for the users before the first failed one, and the delivery to the
/// answer with the request's id.
pub fn welcome_step<C, E>(stage: WelcomeStage<E>, event: WelcomeEvent<C, E>) -> (r: (WelcomeStage<E>, WelcomeAction<C, E>))
    requires
        answers(stage, event),
    ensures
        match (stage, event) {
            (WelcomeStage::AwaitingUsers { request, sender }, WelcomeEvent::UsersFound(Ok(users))) => {
                &&& r.0 == (WelcomeStage::AwaitingContents { request_id: request.id, sender, users })
                &&& r.1 matches WelcomeAction::Materialize { requests } && requests@.len()
                    == request.content_ids@.len() && forall|i: int|
                    0 <= i < requests@.len() ==> #[trigger] requests@[i].id == request.content_ids@[i]
            },
            (WelcomeStage::AwaitingContents { request_id, sender, users }, WelcomeEvent::ContentsFound(Ok(answers))) => {
                &&& r.0 == (WelcomeStage::<E>::AwaitingDelivery { request_id })
                &&& r.1 matches WelcomeAction::Send { notices, contents } && greets_leading_users(
                    users@,
                    sender@,
                    notices@,
                ) && contents@ == successes(answers@)
            },
            (WelcomeStage::AwaitingDelivery { request_id }, WelcomeEvent::Delivered(Ok(()))) => {
                &&& r.0 == WelcomeStage::<E>::Finished
                &&& r.1 matches WelcomeAction::Reply(Ok(response)) && response.id == request_id
            },
            (_, WelcomeEvent::UsersFound(Err(s))) => r.0 == WelcomeStage::<E>::Finished && r.1 == WelcomeAction::<C, E>::Reply(Err(s)),
            (_, WelcomeEvent::ContentsFound(Err(s))) => r.0 == WelcomeStage::<E>::Finished && r.1 == WelcomeAction::<C, E>::Reply(Err(s)),
            (_, WelcomeEvent::Delivered(Err(s))) => r.0 == WelcomeStage::<E>::Finished && r.1 == WelcomeAction::<C, E>::Reply(Err(s)),
            _ => false,
        },
{
    match (stage, event) {
        (_, WelcomeEvent::UsersFound(Err(s))) => (WelcomeStage::Finished, WelcomeAction::Reply(Err(s))),
        (_, WelcomeEvent::ContentsFound(Err(s))) => (WelcomeStage::Finished, WelcomeAction::Reply(Err(s))),
        (_, WelcomeEvent::Delivered(Err(s))) => (WelcomeStage::Finished, WelcomeAction::Reply(Err(s))),
        (WelcomeStage::AwaitingUsers { request, sender }, WelcomeEvent::UsersFound(Ok(users))) => {
            let requests = materialize_requests(&request.content_ids);
            (
                WelcomeStage::AwaitingContents { request_id: request.id, sender, users },
                WelcomeAction::Materialize { requests },
            )
        },
        (WelcomeStage::AwaitingContents { request_id, sender, users }, WelcomeEvent::ContentsFound(Ok(answers))) => {
            let notices = welcome_notices(&users, &sender);
            let contents = received_contents(answers);
            (WelcomeStage::AwaitingDelivery { request_id }, WelcomeAction::Send { notices, contents })
        },
        (WelcomeStage::AwaitingDelivery { request_id }, WelcomeEvent::Delivered(Ok(()))) => {
            (WelcomeStage::Finished, WelcomeAction::Reply(Ok(welcome_response(request_id))))
        },
        (stage, _) => {
            // `answers` rules out every other pairing.
            proof {
                assert(false);
            }
            (stage, WelcomeAction::Materialize { requests: Vec::new() })
        },
    }
}

} // verus!
