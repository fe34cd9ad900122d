use crm::crm::welcome::{
    materialize_requests, received_contents, welcome_notices, welcome_response, welcome_start, welcome_step, welcome_window,
    window_ok, WelcomeAction, WelcomeEvent, WelcomeRequest, WelcomeStage,
};
use crm::status::{Code, Status};
use crm::time::Timestamp;
use crm::user_stat::User;

fn user(email: &str) -> Result<User, Status> {
    Ok(User { email: email.to_string(), name: "n".to_string() })
}

#[test]
fn window_is_one_day_interval_days_ago() {
    let now = Timestamp { seconds: 1_715_040_000, nanos: 123 };
    let (from, to) = welcome_window(now, 30);
    assert_eq!(from, Timestamp { seconds: 1_715_040_000 - 30 * 86_400, nanos: 123 });
    assert_eq!(to, Timestamp { seconds: 1_715_040_000 - 29 * 86_400, nanos: 123 });
    let (from, to) = welcome_window(now, 0);
    assert_eq!(from, now);
    assert_eq!(to.seconds, now.seconds + 86_400);
}

#[test]
fn one_materialize_request_per_content() {
    let ids: Vec<u32> = materialize_requests(&vec![1, 2, 3]).iter().map(|r| r.id).collect();
    assert_eq!(ids, vec![1, 2, 3]);
    assert!(materialize_requests(&vec![]).is_empty());
}

#[test]
fn failed_contents_are_skipped() {
    let answers: Vec<Result<u32, Status>> = vec![Ok(1), Err(Status::internal("x")), Ok(3)];
    assert_eq!(received_contents(answers), vec![1, 3]);
}

#[test]
fn notices_stop_at_the_first_failed_user() {
    let users = vec![user("a@x.com"), user("b@x.com"), Err(Status::internal("boom")), user("c@x.com")];
    let notices = welcome_notices(&users, &"crm@x.com".to_string());
    assert_eq!(notices.len(), 2);
    assert_eq!(notices[0].recipients, vec!["a@x.com".to_string()]);
    assert_eq!(notices[1].recipients, vec!["b@x.com".to_string()]);
    for n in &notices {
        assert_eq!(n.subject, "Welcome");
        assert_eq!(n.sender, "crm@x.com");
    }
}

#[test]
fn notices_for_all_users_without_failure() {
    let users = vec![user("a@x.com"), user("b@x.com")];
    assert_eq!(welcome_notices(&users, &"s".to_string()).len(), 2);
    assert!(welcome_notices::<Status>(&vec![], &"s".to_string()).is_empty());
}

#[test]
fn response_carries_the_request_id() {
    assert_eq!(welcome_response("req-1".to_string()).id, "req-1");
}

#[test]
fn window_is_decided_within_chrono_range() {
    assert!(window_ok(Timestamp { seconds: 1_715_040_000, nanos: 0 }, 30));
    assert!(window_ok(Timestamp { seconds: 1_715_040_000, nanos: 999_999_999 }, 3_000_000));
    assert!(!window_ok(Timestamp { seconds: 1_715_040_000, nanos: 0 }, u32::MAX));
    assert!(!window_ok(Timestamp { seconds: 1_715_040_000, nanos: 1_000_000_000 }, 1));
    assert!(!window_ok(Timestamp { seconds: -8_334_601_228_800, nanos: 0 }, 1));
    assert!(window_ok(Timestamp { seconds: -8_334_601_228_800, nanos: 0 }, 0));
    assert!(!window_ok(Timestamp { seconds: 8_210_266_876_799, nanos: 0 }, 0));
    assert!(window_ok(Timestamp { seconds: 8_210_266_876_799, nanos: 0 }, 1));
}

fn request() -> WelcomeRequest {
    WelcomeRequest { id: "req-7".to_string(), interval: 2, content_ids: vec![4, 5] }
}

#[test]
fn campaign_asks_users_then_contents_then_sends_then_answers() {
    let now = Timestamp { seconds: 1_715_040_000, nanos: 9 };
    let (stage, action) = welcome_start::<u32, Status>(request(), "crm@x.com".to_string(), now);
    match action {
        WelcomeAction::QueryUsers { from, to } => {
            assert_eq!(from, Timestamp { seconds: 1_715_040_000 - 2 * 86_400, nanos: 9 });
            assert_eq!(to, Timestamp { seconds: 1_715_040_000 - 86_400, nanos: 9 });
        }
        other => panic!("unexpected action {:?}", other),
    }
    let users = vec![user("a@x.com"), Err(Status::internal("gone")), user("b@x.com")];
    let (stage, action) = welcome_step(stage, WelcomeEvent::<u32, Status>::UsersFound(Ok(users)));
    match action {
        WelcomeAction::Materialize { requests } => {
            assert_eq!(requests.iter().map(|r| r.id).collect::<Vec<u32>>(), vec![4, 5]);
        }
        other => panic!("unexpected action {:?}", other),
    }
    let answers: Vec<Result<u32, Status>> = vec![Err(Status::internal("missing")), Ok(5)];
    let (stage, action) = welcome_step(stage, WelcomeEvent::<u32, Status>::ContentsFound(Ok(answers)));
    match action {
        WelcomeAction::Send { notices, contents } => {
            assert_eq!(notices.len(), 1);
            assert_eq!(notices[0].recipients, vec!["a@x.com".to_string()]);
            assert_eq!(notices[0].sender, "crm@x.com");
            assert_eq!(notices[0].subject, "Welcome");
            assert_eq!(contents, vec![5]);
        }
        other => panic!("unexpected action {:?}", other),
    }
    let (stage, action) = welcome_step(stage, WelcomeEvent::<u32, Status>::Delivered(Ok(())));
    assert!(matches!(stage, WelcomeStage::Finished));
    match action {
        WelcomeAction::Reply(Ok(response)) => assert_eq!(response.id, "req-7"),
        other => panic!("unexpected action {:?}", other),
    }
}

#[test]
fn a_failed_call_answers_the_request_with_its_error() {
    let now = Timestamp { seconds: 1_715_040_000, nanos: 0 };
    let (stage, _) = welcome_start::<u32, Status>(request(), "s".to_string(), now);
    let (stage, action) = welcome_step(stage, WelcomeEvent::<u32, Status>::UsersFound(Err(Status::unauthenticated("no"))));
    assert!(matches!(stage, WelcomeStage::Finished));
    match action {
        WelcomeAction::Reply(Err(e)) => {
            assert_eq!(e.code, Code::Unauthenticated);
            assert_eq!(e.message, "no");
        }
        other => panic!("unexpected action {:?}", other),
    }

    let (stage, _) = welcome_start::<u32, Status>(request(), "s".to_string(), now);
    let (stage, _) = welcome_step(stage, WelcomeEvent::<u32, Status>::UsersFound(Ok(vec![user("a@x.com")])));
    let (stage, action) = welcome_step(stage, WelcomeEvent::<u32, Status>::ContentsFound(Err(Status::internal("down"))));
    assert!(matches!(stage, WelcomeStage::Finished));
    assert!(matches!(action, WelcomeAction::Reply(Err(_))));

    let (stage, _) = welcome_start::<u32, Status>(request(), "s".to_string(), now);
    let (stage, _) = welcome_step(stage, WelcomeEvent::<u32, Status>::UsersFound(Ok(vec![])));
    let (stage, _) = welcome_step(stage, WelcomeEvent::<u32, Status>::ContentsFound(Ok(vec![])));
    let (_, action) = welcome_step::<u32, Status>(stage, WelcomeEvent::Delivered(Err(Status::internal("full"))));
    match action {
        WelcomeAction::Reply(Err(e)) => {
            assert_eq!(e.code, Code::Internal);
            assert_eq!(e.message, "full");
        }
        other => panic!("unexpected action {:?}", other),
    }
}
