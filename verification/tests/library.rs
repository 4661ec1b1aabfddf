use uuid::{Uuid, Variant, Version};
use zero2prod::gibberish::{do_it, Closure, Testing};
use zero2prod::http::{HttpReply, ReplyBody, BAD_REQUEST, INTERNAL_SERVER_ERROR, OK};
use zero2prod::routes::{
    get_subscribers, insert_subscriber, subscribe, subscribe_body, subscriber_row, subscription_stored, FormData,
    FormError,
    SubscribeAction, Subscriber,
};
use zero2prod::startup::{listen_address, push_decimal, BASE_URL};
use zero2prod::utils::env::get_env;

fn pairs(items: &[(&str, &str)]) -> Vec<(String, String)> {
    items.iter().map(|(k, v)| (k.to_string(), v.to_string())).collect()
}

#[test]
fn listen_address_names_host_and_port() {
    assert_eq!(BASE_URL, "127.0.0.1");
    assert_eq!(listen_address(8000), "127.0.0.1:8000");
    assert_eq!(listen_address(0), "127.0.0.1:0");
    assert_eq!(listen_address(7), "127.0.0.1:7");
    assert_eq!(listen_address(10), "127.0.0.1:10");
    assert_eq!(listen_address(65535), "127.0.0.1:65535");
}

#[test]
fn decimal_digits_appended() {
    let mut s = String::from("port ");
    push_decimal(&mut s, 1203);
    assert_eq!(s, "port 1203");
}

#[test]
fn distinct_ports_give_distinct_addresses() {
    assert_ne!(listen_address(80), listen_address(8));
    assert_ne!(listen_address(100), listen_address(10));
}

#[test]
fn form_from_pairs_reads_both_fields() {
    let form = FormData::from_pairs(&pairs(&[("email", "a@b.c"), ("name", "Ann")])).unwrap();
    assert_eq!(form.name(), "Ann");
    assert_eq!(form.email(), "a@b.c");
}

#[test]
fn form_errors() {
    assert_eq!(
        FormData::from_pairs(&pairs(&[("email", "a@b.c")])),
        Err(FormError::MissingName)
    );
    assert_eq!(
        FormData::from_pairs(&pairs(&[("name", "Ann")])),
        Err(FormError::MissingEmail)
    );
    assert_eq!(FormData::from_pairs(&pairs(&[])), Err(FormError::MissingName));
    assert_eq!(
        FormData::from_pairs(&pairs(&[("name", "Ann"), ("email", "x"), ("name", "Bob")])),
        Err(FormError::DuplicateField)
    );
    // A repeated field is reported before a missing one.
    assert_eq!(
        FormData::from_pairs(&pairs(&[("email", "x"), ("email", "y")])),
        Err(FormError::DuplicateField)
    );
}

#[test]
fn unknown_fields_are_ignored() {
    let with = FormData::from_pairs(&pairs(&[("name", "Ann"), ("age", "3"), ("email", "e")]));
    let without = FormData::from_pairs(&pairs(&[("name", "Ann"), ("email", "e")]));
    assert_eq!(with, without);
}

#[test]
fn field_order_does_not_matter() {
    let a = FormData::from_pairs(&pairs(&[("name", "Ann"), ("email", "e")]));
    let b = FormData::from_pairs(&pairs(&[("email", "e"), ("name", "Ann")]));
    assert_eq!(a, b);
    assert!(a.is_ok());
}

#[test]
fn urlencoded_body_is_decoded() {
    let form = FormData::from_urlencoded(b"name=le%20guin&email=ursula%40example.com").unwrap();
    assert_eq!(form.name(), "le guin");
    assert_eq!(form.email(), "ursula@example.com");
    let plus = FormData::from_urlencoded(b"email=x&name=a+b").unwrap();
    assert_eq!(plus.name(), "a b");
    assert_eq!(
        FormData::from_urlencoded(b"name=a"),
        Err(FormError::MissingEmail)
    );
}

#[test]
fn stored_row_has_random_v4_id() {
    let form = FormData::from_pairs(&pairs(&[("name", "Ann"), ("email", "e")])).unwrap();
    let row = insert_subscriber(form).expect("the clock reads after the epoch");
    assert_eq!(row.name(), "Ann");
    assert_eq!(row.email(), "e");
    let id = Uuid::from_u128(row.id());
    assert_eq!(id.get_version(), Some(Version::Random));
    assert_eq!(id.get_variant(), Variant::RFC4122);
    assert!(row.subscribed_at() >= 0);
}

#[test]
fn subscribe_refuses_bad_form_with_400() {
    match subscribe(&pairs(&[("name", "Ann")])) {
        SubscribeAction::Respond(reply) => {
            assert_eq!(reply, HttpReply { status: BAD_REQUEST, body: ReplyBody::Empty })
        }
        SubscribeAction::Store(_) => panic!("stored an incomplete form"),
    }
    match subscribe(&pairs(&[("name", "Ann"), ("name", "Bob"), ("email", "e")])) {
        SubscribeAction::Respond(reply) => assert_eq!(reply.status, 400),
        SubscribeAction::Store(_) => panic!("stored a form with a repeated field"),
    }
}

#[test]
fn subscribe_stores_valid_form() {
    match subscribe(&pairs(&[("name", "Ann"), ("email", "e"), ("x", "y")])) {
        SubscribeAction::Store(row) => {
            assert_eq!(row.name(), "Ann");
            assert_eq!(row.email(), "e");
            assert_eq!(Uuid::from_u128(row.id()).get_version(), Some(Version::Random));
        }
        SubscribeAction::Respond(reply) => panic!("refused with {}", reply.status),
    }
}

#[test]
fn stored_outcome_replies() {
    assert_eq!(subscription_stored(true), HttpReply { status: OK, body: ReplyBody::Empty });
    assert_eq!(
        subscription_stored(false),
        HttpReply { status: INTERNAL_SERVER_ERROR, body: ReplyBody::Empty }
    );
}

#[test]
fn get_subscribers_replies() {
    let row = Subscriber::new(7, "Ann".to_string(), "e".to_string(), 1_700_000_000_000_000);
    let reply = get_subscribers(Some(vec![row]));
    assert_eq!(reply.status, 200);
    assert_eq!(reply.content_length(), None);
    match &reply.body {
        ReplyBody::Subscribers(rows) => {
            assert_eq!(rows.len(), 1);
            assert_eq!(rows[0].id(), 7);
            assert_eq!(rows[0].name(), "Ann");
            assert_eq!(rows[0].email(), "e");
            assert_eq!(rows[0].subscribed_at(), 1_700_000_000_000_000);
        }
        ReplyBody::Empty => panic!("rows missing"),
    }
    let failed = get_subscribers(None);
    assert_eq!(failed, HttpReply { status: 500, body: ReplyBody::Empty });
    assert!(!failed.is_success());
}

#[test]
fn empty_reply_has_no_body() {
    let reply = HttpReply::empty(404);
    assert_eq!(reply.status, 404);
    assert_eq!(reply.content_length(), Some(0));
    assert!(!reply.is_success());
}

#[test]
fn env_keeps_log_filter() {
    let env = get_env("info".to_string());
    assert_eq!(env.rust_log, "info");
}

#[test]
fn closure_picks_first_component() {
    let clo = Closure::new((0, 1), do_it);
    assert_eq!(*clo.call(), 0);
    let other = Closure::new((9, 300), do_it);
    assert_eq!(*other.call(), 9);
    assert_eq!(*do_it(&(4, 5)), 4);
}

#[test]
fn testing_calls_function() {
    let t = Testing::new(|a: u8, b: u16| a.wrapping_add(b as u8));
    assert_eq!(t.call(2, 3), 5);
}

#[test]
fn subscriber_row_keeps_given_values() {
    let form = FormData::from_pairs(&pairs(&[("name", "Ann"), ("email", "e")])).unwrap();
    let row = subscriber_row(form, 42, 1_000_000);
    assert_eq!(row.id(), 42);
    assert_eq!(row.name(), "Ann");
    assert_eq!(row.email(), "e");
    assert_eq!(row.subscribed_at(), 1_000_000);
}

#[test]
fn subscribe_body_decodes_then_decides() {
    match subscribe_body(b"name=le%20guin&email=ursula%40example.com") {
        SubscribeAction::Store(row) => {
            assert_eq!(row.name(), "le guin");
            assert_eq!(row.email(), "ursula@example.com");
            assert!(row.subscribed_at() >= 0);
        }
        SubscribeAction::Respond(reply) => panic!("refused with {}", reply.status),
    }
    assert_eq!(
        subscribe_body(b"email=ursula%40example.com"),
        SubscribeAction::Respond(HttpReply { status: BAD_REQUEST, body: ReplyBody::Empty })
    );
    assert_eq!(
        subscribe_body(b""),
        SubscribeAction::Respond(HttpReply { status: BAD_REQUEST, body: ReplyBody::Empty })
    );
}
