use std::sync::RwLock;

use chattium_oxide_lib::json::{FromJsonnable, ToJsonnable};
use chattium_oxide_lib::{ChatMessage, ChatUser, Kind, MarshalError, Timestamp, Value, NSEC_PER_SEC};
use rand::distributions::Alphanumeric;
use rand::Rng;

fn random_ip<R: Rng>(rng: &mut R) -> String {
    format!("{}.{}.{}.{}:{}", rng.gen::<u8>(), rng.gen::<u8>(), rng.gen::<u8>(), rng.gen::<u8>(), rng.gen::<u16>())
}

fn random_name<R: Rng>(rng: &mut R) -> String {
    rng.sample_iter(&Alphanumeric).take(10).map(char::from).collect()
}

fn random_text<R: Rng>(rng: &mut R) -> String {
    rng.sample_iter(&Alphanumeric).take(100).map(char::from).collect()
}

fn object(members: Vec<(&str, Value)>) -> Value {
    Value::Object(members.into_iter().map(|(k, v)| (k.to_string(), v)).collect())
}

fn string(s: &str) -> Value {
    Value::String(s.to_string())
}

fn member<'a>(v: &'a Value, key: &str) -> Option<&'a Value> {
    v.get(key)
}

fn fixed_message(id: u64) -> ChatMessage {
    ChatMessage {
        sender: ChatUser::me("alice".to_string()),
        value: "hello".to_string(),
        time_posted: Timestamp::new(1_500_000_000, 250),
        id,
    }
}

#[test]
fn lib_self_eq_self() {
    let mut rng = rand::thread_rng();
    for _ in 1..1000 {
        let message = ChatMessage::new(ChatUser::get(random_name(&mut rng), Some(random_ip(&mut rng))), random_text(&mut rng));
        assert_eq!(message, message);
    }
}

#[test]
fn user_of_instance_from_new_is_equal_to_passed_user() {
    let mut rng = rand::thread_rng();
    for _ in 1..1000 {
        let sender = ChatUser::get(random_name(&mut rng), Some(random_ip(&mut rng)));
        let message = ChatMessage::new(sender.clone(), random_text(&mut rng));
        assert_eq!(message.sender, sender);
    }
}

#[test]
fn content_of_instance_from_new_is_equal_to_passed_content() {
    let mut rng = rand::thread_rng();
    for _ in 1..1000 {
        let value = random_text(&mut rng);
        let message = ChatMessage::new(ChatUser::get(random_name(&mut rng), Some(random_ip(&mut rng))), value.clone());
        assert_eq!(message.value, value);
    }
}

#[test]
fn lib_cloner_eq_clonee() {
    let mut rng = rand::thread_rng();
    let message = ChatMessage::new(ChatUser::get(random_name(&mut rng), Some(random_ip(&mut rng))), random_text(&mut rng));
    let clone = message.clone();
    assert_eq!(message, clone);
}

#[test]
fn ip_filler_properly_increases_and_sets() {
    let mut rng = rand::thread_rng();
    let id_lock = RwLock::new(1u64);
    for time in 1..1000u64 {
        let mut message = ChatMessage::new(ChatUser::get(random_name(&mut rng), Some(random_ip(&mut rng))), random_text(&mut rng));
        message.fill_id(&mut *id_lock.write().unwrap());
        assert_eq!(message.id, time);
        assert_eq!(*id_lock.read().unwrap(), time + 1);
    }
}

#[test]
fn lib_full_transserializes_properly() {
    let mut rng = rand::thread_rng();
    for _ in 1..1000 {
        let mut message = ChatMessage::new(ChatUser::get(random_name(&mut rng), Some(random_ip(&mut rng))), random_text(&mut rng));
        message.fill_id(&mut rng.gen_range(0..u64::MAX));
        let trans = ChatMessage::from_json(message.to_json()).expect("Full transserialization via ChatMessage");
        assert_eq!(message, trans);
    }
}

#[test]
fn lib_ipless_transserializes_properly() {
    let mut rng = rand::thread_rng();
    for _ in 1..1000 {
        let mut message = ChatMessage::new(ChatUser::me(random_name(&mut rng)), random_text(&mut rng));
        message.fill_id(&mut rng.gen_range(0..u64::MAX));
        let trans = ChatMessage::from_json(message.to_json()).expect("IP-less transserialization via ChatMessage");
        assert_eq!(message, trans);
    }
}

#[test]
fn lib_deserialization_from_malformed_fails() {
    let malformed = object(vec![("user", string("you"))]);
    let err = ChatMessage::from_json(malformed).unwrap_err();
    assert_eq!(err, MarshalError::MissingField("sender"));
}

#[test]
fn new_message_is_unnumbered_and_stamped_now() {
    let message = ChatMessage::new(ChatUser::me("zed".to_string()), "hi".to_string());
    assert_eq!(message.id, 0);
    assert!(message.time_posted.nsec >= 0 && message.time_posted.nsec < NSEC_PER_SEC);
    assert!(message.time_posted.sec > 1_600_000_000);
}

#[test]
fn unnumbered_message_has_no_id_member() {
    let json = fixed_message(0).to_json();
    assert!(member(&json, "id").is_none());
    let expected = object(vec![
        ("sender", string("alice")),
        ("value", string("hello")),
        ("time_posted", object(vec![("sec", Value::I64(1_500_000_000)), ("nsec", Value::I64(250))])),
    ]);
    assert_eq!(json, expected);
    let back = ChatMessage::from_json(json).unwrap();
    assert_eq!(back.id, 0);
    assert_eq!(back, fixed_message(0));
}

#[test]
fn numbered_message_has_id_member() {
    let json = fixed_message(7).to_json();
    assert_eq!(member(&json, "id"), Some(&Value::U64(7)));
    let back = ChatMessage::from_json(json).unwrap();
    assert_eq!(back.id, 7);
    assert_eq!(back, fixed_message(7));
}

#[test]
fn sequential_ids_from_one() {
    let mut counter: u64 = 1;
    let mut ids = Vec::new();
    for _ in 0..50 {
        let mut message = fixed_message(0);
        message.fill_id(&mut counter);
        ids.push(message.id);
    }
    assert_eq!(ids, (1..=50).collect::<Vec<u64>>());
    assert_eq!(counter, 51);
}

#[test]
fn fill_id_keeps_other_fields() {
    let mut message = fixed_message(0);
    let mut counter: u64 = 41;
    message.fill_id(&mut counter);
    assert_eq!(message.id, 41);
    assert_eq!(counter, 42);
    assert_eq!(message.value, "hello");
    assert_eq!(message.time_posted, Timestamp::new(1_500_000_000, 250));
    assert_eq!(message.sender.name, "alice");
}

fn good_members() -> Vec<(String, Value)> {
    vec![
        ("sender".to_string(), string("alice")),
        ("value".to_string(), string("hello")),
        ("time_posted".to_string(), object(vec![("sec", Value::I64(1_500_000_000)), ("nsec", Value::I64(250))])),
    ]
}

fn without(key: &str) -> Value {
    Value::Object(good_members().into_iter().filter(|(k, _)| k != key).collect())
}

fn replacing(key: &str, v: Value) -> Value {
    let mut members: Vec<(String, Value)> = good_members().into_iter().filter(|(k, _)| k != key).collect();
    members.push((key.to_string(), v));
    Value::Object(members)
}

#[test]
fn message_missing_members() {
    assert_eq!(ChatMessage::from_json(without("sender")).unwrap_err(), MarshalError::MissingField("sender"));
    assert_eq!(ChatMessage::from_json(without("value")).unwrap_err(), MarshalError::MissingField("value"));
    assert_eq!(ChatMessage::from_json(without("time_posted")).unwrap_err(), MarshalError::MissingField("time_posted"));
}

#[test]
fn message_with_wrong_member_types() {
    assert_eq!(ChatMessage::from_json(replacing("value", Value::I64(1))).unwrap_err(), MarshalError::TypeMismatch(Kind::Str));
    assert_eq!(ChatMessage::from_json(replacing("id", Value::I64(3))).unwrap_err(), MarshalError::TypeMismatch(Kind::U64));
    assert_eq!(ChatMessage::from_json(replacing("sender", Value::Bool(true))).unwrap_err(), MarshalError::TypeMismatch(Kind::Struct));
    assert_eq!(ChatMessage::from_json(replacing("time_posted", string("now"))).unwrap_err(), MarshalError::TypeMismatch(Kind::Struct));
    assert_eq!(ChatMessage::from_json(Value::Array(vec![])).unwrap_err(), MarshalError::TypeMismatch(Kind::Struct));
}

#[test]
fn message_errors_from_nested_values_propagate() {
    let bad_sender = replacing("sender", object(vec![("name", string("x"))]));
    assert_eq!(ChatMessage::from_json(bad_sender).unwrap_err(), MarshalError::MissingField("poster"));
    let bad_time = replacing("time_posted", object(vec![("sec", Value::I64(1))]));
    assert_eq!(ChatMessage::from_json(bad_time).unwrap_err(), MarshalError::MissingField("nsec"));
}

#[test]
fn message_first_error_wins() {
    let both_bad = object(vec![("value", Value::Null), ("time_posted", Value::Null)]);
    assert_eq!(ChatMessage::from_json(both_bad).unwrap_err(), MarshalError::MissingField("sender"));
    let later_bad = object(vec![("sender", string("a")), ("value", Value::Null)]);
    assert_eq!(ChatMessage::from_json(later_bad).unwrap_err(), MarshalError::TypeMismatch(Kind::Str));
}

#[test]
fn message_id_absent_reads_as_zero() {
    let back = ChatMessage::from_json(without("id")).unwrap();
    assert_eq!(back.id, 0);
    let numbered = replacing("id", Value::U64(12));
    assert_eq!(ChatMessage::from_json(numbered).unwrap().id, 12);
}

#[test]
fn message_equality_compares_sender_by_name() {
    let mut a = fixed_message(3);
    let b = fixed_message(3);
    a.sender.fill_ip(Some("1.1.1.1:1".to_string()));
    assert_eq!(a, b);
    let mut c = fixed_message(3);
    c.value = "other".to_string();
    assert!(c != b);
}

#[test]
fn fill_ids_numbers_a_batch_in_order() {
    let batch: Vec<ChatMessage> = (0..20).map(|_| fixed_message(0)).collect();
    let mut counter: u64 = 1;
    let numbered = ChatMessage::fill_ids(batch, &mut counter);
    assert_eq!(numbered.len(), 20);
    for (k, m) in numbered.iter().enumerate() {
        assert_eq!(m.id, k as u64 + 1);
        assert_eq!(m.value, "hello");
    }
    assert_eq!(counter, 21);
    let none = ChatMessage::fill_ids(Vec::new(), &mut counter);
    assert!(none.is_empty());
    assert_eq!(counter, 21);
}
