use chattium_oxide_lib::json::{FromJsonnable, ToJsonnable};
use chattium_oxide_lib::primitive::float_bits_from_json;
use chattium_oxide_lib::{Kind, MarshalError, Timestamp, Value};
use rand::Rng;

fn object(members: Vec<(&str, Value)>) -> Value {
    Value::Object(members.into_iter().map(|(k, v)| (k.to_string(), v)).collect())
}

fn random_time<R: Rng>(rng: &mut R) -> Timestamp {
    Timestamp::new(rng.gen_range(1420070400..1893456000), rng.gen_range(0..1000000000))
}

#[test]
fn time_transserializes_properly() {
    let mut rng = rand::thread_rng();
    for _ in 1..1000 {
        let time = random_time(&mut rng);
        let trans = Timestamp::from_json(time.to_json()).expect("Full transserialization via Timestamp");
        assert_eq!(time, trans);
    }
}

#[test]
fn vec_transserializes_properly() {
    let mut rng = rand::thread_rng();
    for size in 1..1000 {
        let vec: Vec<i32> = (1..size).map(|_| rng.gen()).collect();
        let trans: Vec<i32> = FromJsonnable::from_json(vec.to_json()).expect("Full transserialization via Vec");
        assert_eq!(vec, trans);
    }
}

#[test]
fn i8_transserializes_properly() {
    let mut rng = rand::thread_rng();
    for _ in 1..1000 {
        let n: i8 = rng.gen();
        assert_eq!(i8::from_json(n.to_json()).unwrap(), n);
    }
    assert_eq!(i8::from_json(i8::MIN.to_json()).unwrap(), i8::MIN);
}

#[test]
fn i16_transserializes_properly() {
    let mut rng = rand::thread_rng();
    for _ in 1..1000 {
        let n: i16 = rng.gen();
        assert_eq!(i16::from_json(n.to_json()).unwrap(), n);
    }
}

#[test]
fn i32_transserializes_properly() {
    let mut rng = rand::thread_rng();
    for _ in 1..1000 {
        let n: i32 = rng.gen();
        assert_eq!(i32::from_json(n.to_json()).unwrap(), n);
    }
}

#[test]
fn i64_transserializes_properly() {
    let mut rng = rand::thread_rng();
    for _ in 1..1000 {
        let n: i64 = rng.gen();
        assert_eq!(i64::from_json(n.to_json()).unwrap(), n);
    }
    assert_eq!(i64::from_json(i64::MAX.to_json()).unwrap(), i64::MAX);
}

#[test]
fn u8_transserializes_properly() {
    for n in 0..=u8::MAX {
        assert_eq!(u8::from_json(n.to_json()).unwrap(), n);
    }
}

#[test]
fn u16_transserializes_properly() {
    let mut rng = rand::thread_rng();
    for _ in 1..1000 {
        let n: u16 = rng.gen();
        assert_eq!(u16::from_json(n.to_json()).unwrap(), n);
    }
}

#[test]
fn u32_transserializes_properly() {
    let mut rng = rand::thread_rng();
    for _ in 1..1000 {
        let n: u32 = rng.gen();
        assert_eq!(u32::from_json(n.to_json()).unwrap(), n);
    }
}

#[test]
fn u64_transserializes_properly() {
    let mut rng = rand::thread_rng();
    for _ in 1..1000 {
        let n: u64 = rng.gen();
        assert_eq!(u64::from_json(n.to_json()).unwrap(), n);
    }
    assert_eq!(u64::from_json(u64::MAX.to_json()).unwrap(), u64::MAX);
}

#[test]
fn integers_are_written_by_signedness() {
    assert_eq!((-5i8).to_json(), Value::I64(-5));
    assert_eq!(300i16.to_json(), Value::I64(300));
    assert_eq!(7i32.to_json(), Value::I64(7));
    assert_eq!(200u8.to_json(), Value::U64(200));
    assert_eq!(70000u32.to_json(), Value::U64(70000));
    assert_eq!(u64::MAX.to_json(), Value::U64(u64::MAX));
}

#[test]
fn signed_accepts_unsigned_by_casting() {
    assert_eq!(i32::from_json(Value::U64(42)).unwrap(), 42);
    assert_eq!(i64::from_json(Value::U64(u64::MAX)).unwrap(), -1);
    assert_eq!(i8::from_json(Value::U64(200)).unwrap(), -56);
}

#[test]
fn narrowing_truncates() {
    assert_eq!(u8::from_json(Value::U64(300)).unwrap(), 44);
    assert_eq!(i8::from_json(Value::I64(-129)).unwrap(), 127);
    assert_eq!(i16::from_json(Value::I64(65537)).unwrap(), 1);
}

#[test]
fn unsigned_refuses_signed_variant() {
    assert_eq!(u8::from_json(Value::I64(5)).unwrap_err(), MarshalError::TypeMismatch(Kind::U64));
    assert_eq!(u64::from_json(Value::I64(0)).unwrap_err(), MarshalError::TypeMismatch(Kind::U64));
}

#[test]
fn integers_refuse_other_kinds() {
    assert_eq!(i32::from_json(Value::F64(0)).unwrap_err(), MarshalError::TypeMismatch(Kind::I64));
    assert_eq!(i64::from_json(Value::String("1".to_string())).unwrap_err(), MarshalError::TypeMismatch(Kind::I64));
    assert_eq!(u16::from_json(Value::Bool(true)).unwrap_err(), MarshalError::TypeMismatch(Kind::U64));
    assert_eq!(u32::from_json(Value::Null).unwrap_err(), MarshalError::TypeMismatch(Kind::U64));
}

#[test]
fn float_bits_only_from_float_variant() {
    let bits = 1.5f64.to_bits();
    assert_eq!(float_bits_from_json(Value::F64(bits)).unwrap(), bits);
    assert_eq!(f64::from_bits(float_bits_from_json(Value::F64(bits)).unwrap()), 1.5);
    assert_eq!(float_bits_from_json(Value::I64(1)).unwrap_err(), MarshalError::TypeMismatch(Kind::F64));
    assert_eq!(float_bits_from_json(Value::U64(1)).unwrap_err(), MarshalError::TypeMismatch(Kind::F64));
}

#[test]
fn vec_is_written_in_order() {
    let v: Vec<u8> = vec![3, 1, 2];
    assert_eq!(v.to_json(), Value::Array(vec![Value::U64(3), Value::U64(1), Value::U64(2)]));
    let empty: Vec<i64> = vec![];
    assert_eq!(empty.to_json(), Value::Array(vec![]));
    let back: Vec<i64> = FromJsonnable::from_json(Value::Array(vec![])).unwrap();
    assert!(back.is_empty());
}

#[test]
fn vec_of_vecs_round_trips() {
    let v: Vec<Vec<u16>> = vec![vec![], vec![1], vec![2, 3]];
    let back: Vec<Vec<u16>> = FromJsonnable::from_json(v.to_json()).unwrap();
    assert_eq!(back, v);
}

#[test]
fn vec_refuses_non_array() {
    let r: Result<Vec<i32>, MarshalError> = FromJsonnable::from_json(Value::I64(1));
    assert_eq!(r.unwrap_err(), MarshalError::TypeMismatch(Kind::Sequence));
    let r: Result<Vec<i32>, MarshalError> = FromJsonnable::from_json(object(vec![]));
    assert_eq!(r.unwrap_err(), MarshalError::TypeMismatch(Kind::Sequence));
}

#[test]
fn vec_stops_at_first_bad_element() {
    let items = Value::Array(vec![
        Value::U64(1),
        Value::String("x".to_string()),
        Value::Null,
    ]);
    let r: Result<Vec<u32>, MarshalError> = FromJsonnable::from_json(items);
    assert_eq!(r.unwrap_err(), MarshalError::TypeMismatch(Kind::U64));
    let nested = Value::Array(vec![Value::Array(vec![]), Value::U64(1)]);
    let r: Result<Vec<Vec<u32>>, MarshalError> = FromJsonnable::from_json(nested);
    assert_eq!(r.unwrap_err(), MarshalError::TypeMismatch(Kind::Sequence));
}

#[test]
fn timestamp_is_written_as_sec_and_nsec() {
    let t = Timestamp::new(-3, 999_999_999);
    assert_eq!(t.to_json(), object(vec![("sec", Value::I64(-3)), ("nsec", Value::I64(999_999_999))]));
}

#[test]
fn timestamp_accepts_unsigned_members() {
    let json = object(vec![("nsec", Value::U64(5)), ("sec", Value::U64(1_000))]);
    assert_eq!(Timestamp::from_json(json).unwrap(), Timestamp::new(1_000, 5));
    let wrapped = object(vec![("sec", Value::U64(u64::MAX)), ("nsec", Value::U64((1u64 << 32) + 7))]);
    assert_eq!(Timestamp::from_json(wrapped).unwrap(), Timestamp::new(-1, 7));
}

#[test]
fn timestamp_errors() {
    assert_eq!(Timestamp::from_json(Value::I64(0)).unwrap_err(), MarshalError::TypeMismatch(Kind::Struct));
    assert_eq!(
        Timestamp::from_json(object(vec![("nsec", Value::I64(0))])).unwrap_err(),
        MarshalError::MissingField("sec")
    );
    assert_eq!(
        Timestamp::from_json(object(vec![("sec", Value::I64(0))])).unwrap_err(),
        MarshalError::MissingField("nsec")
    );
    assert_eq!(
        Timestamp::from_json(object(vec![("sec", Value::Null), ("nsec", Value::I64(0))])).unwrap_err(),
        MarshalError::TypeMismatch(Kind::I64)
    );
    assert_eq!(
        Timestamp::from_json(object(vec![("sec", Value::I64(0)), ("nsec", Value::F64(0))])).unwrap_err(),
        MarshalError::TypeMismatch(Kind::I32)
    );
}

#[test]
fn timestamp_refuses_out_of_range_nanoseconds() {
    let too_big = object(vec![("sec", Value::I64(0)), ("nsec", Value::I64(1_000_000_000))]);
    assert_eq!(Timestamp::from_json(too_big).unwrap_err(), MarshalError::TypeMismatch(Kind::I32));
    let negative = object(vec![("sec", Value::I64(0)), ("nsec", Value::I64(-1))]);
    assert_eq!(Timestamp::from_json(negative).unwrap_err(), MarshalError::TypeMismatch(Kind::I32));
}

#[test]
fn value_get_reads_first_member_of_objects_only() {
    let obj = object(vec![("a", Value::U64(1)), ("b", Value::U64(2)), ("a", Value::U64(3))]);
    assert_eq!(obj.get("a"), Some(&Value::U64(1)));
    assert_eq!(obj.get("b"), Some(&Value::U64(2)));
    assert_eq!(obj.get("c"), None);
    assert_eq!(Value::Array(vec![]).get("a"), None);
}
