use test_addon::bridge::{PendingComputation, Settlement};
use test_addon::marshal::{
    i32_from_host, i32_seq_from_host, i32_seq_to_host, i32_to_host, option_i32_from_host,
    option_i32_to_host, option_string_from_host, person_from_host, person_to_host,
    string_from_host, string_to_host, u32_from_host, HostField, HostValue,
};
use test_addon::text::decimal_string;
use test_addon::{
    add, array_length, async_add, async_divide, async_sum, call_with_value, create_person,
    describe_person, divide, double_array, from_host_exception, get_magic_number, greet,
    greet_optional, map_and_sum, maybe_double, settle_outcome, sum_all, to_host_error, CallError,
    Counter, DomainError, Error, HostException, MarshalError, Person,
};

fn text(s: &str) -> HostValue {
    HostValue::Text(s.as_bytes().to_vec())
}

fn field(key: &str, value: HostValue) -> HostField {
    HostField { key: key.to_string(), value }
}

#[test]
fn add_sums_two_numbers() {
    assert_eq!(add(2, 3), 5);
    assert_eq!(add(-7, 4), -3);
    assert_eq!(async_add(i32::MAX - 1, 1), i32::MAX);
}

#[test]
fn greets_by_name() {
    assert_eq!(greet("World".to_string()), "Hello, World!");
    assert_eq!(greet(String::new()), "Hello, !");
}

#[test]
fn greets_optional_name_or_stranger() {
    assert_eq!(greet_optional(Some("Ann".to_string())), "Hello, Ann!");
    assert_eq!(greet_optional(None), "Hello, stranger!");
}

#[test]
fn magic_number_is_forty_two() {
    assert_eq!(get_magic_number(), 42);
}

#[test]
fn person_is_created_and_described() {
    let p = create_person("Alice".to_string(), 30);
    assert_eq!(p.name, "Alice");
    assert_eq!(p.age, 30);
    assert_eq!(describe_person(p), "Alice is 30 years old");
    assert_eq!(
        describe_person(create_person("Bob".to_string(), 0)),
        "Bob is 0 years old"
    );
    assert_eq!(
        describe_person(create_person("Max".to_string(), u32::MAX)),
        "Max is 4294967295 years old"
    );
}

#[test]
fn decimal_writes_digits() {
    assert_eq!(decimal_string(0), "0");
    assert_eq!(decimal_string(7), "7");
    assert_eq!(decimal_string(1204), "1204");
    assert_eq!(decimal_string(u64::MAX), "18446744073709551615");
}

#[test]
fn call_with_value_calls_once() {
    assert_eq!(call_with_value(|x: i32| Ok(x + 1), 41), Ok(42));
    let thrown = call_with_value(
        |_x: i32| Err(Error::Call(CallError::HostThrew("boom".to_string()))),
        1,
    );
    assert_eq!(thrown, Err(Error::Call(CallError::HostThrew("boom".to_string()))));
}

#[test]
fn map_and_sum_sums_mapped_values() {
    assert_eq!(map_and_sum(vec![1, 2, 3], |x: i32| Ok(x * 10)), Ok(60));
    assert_eq!(map_and_sum(vec![], |x: i32| Ok(x * 10)), Ok(0));
    let numbers = vec![4, -2, 9, 0];
    let expected: i32 = numbers.iter().map(|x| x * x - 1).sum();
    assert_eq!(map_and_sum(numbers, |x: i32| Ok(x * x - 1)), Ok(expected));
}

#[test]
fn map_and_sum_calls_in_order_and_stops_at_failure() {
    let seen = std::cell::RefCell::new(Vec::new());
    let r = map_and_sum(vec![5, 6, 7, 8], |x: i32| {
        seen.borrow_mut().push(x);
        if x == 7 {
            Err(Error::Call(CallError::BadReturnType))
        } else {
            Ok(x)
        }
    });
    assert_eq!(r, Err(Error::Call(CallError::BadReturnType)));
    assert_eq!(*seen.borrow(), vec![5, 6, 7]);
}

#[test]
fn map_and_sum_reports_overflow() {
    let r = map_and_sum(vec![i32::MAX, 1], |x: i32| Ok(x));
    assert_eq!(r, Err(Error::Domain(DomainError::SumOverflow)));
    let r = map_and_sum(vec![i32::MAX, 1, -1], |x: i32| Ok(x));
    assert_eq!(r, Ok(i32::MAX));
}

#[test]
fn double_array_doubles_each() {
    assert_eq!(double_array(vec![1, -2, 3]), vec![2, -4, 6]);
    assert_eq!(double_array(vec![]), Vec::<i32>::new());
}

#[test]
fn array_length_counts() {
    assert_eq!(array_length(vec![]), 0);
    assert_eq!(array_length(vec![9, 9, 9]), 3);
}

#[test]
fn counter_methods() {
    let mut c = Counter::new(None);
    assert_eq!(c.value(), 0);
    let mut c5 = Counter::new(Some(5));
    assert_eq!(c5.value(), 5);
    c5.increment();
    assert_eq!(c5.value(), 6);
    c5.decrement();
    c5.decrement();
    assert_eq!(c5.value(), 4);
    c5.add(-10);
    assert_eq!(c5.value(), -6);
    c5.set_value(100);
    assert_eq!(c5.value(), 100);
    c5.reset();
    assert_eq!(c5.value(), 0);
    c.add(3);
    assert_eq!(c.value(), 3);
}

#[test]
fn counter_net_count_with_reads_between() {
    let mut c = Counter::new(Some(10));
    c.increment();
    assert_eq!(c.value(), 11);
    c.decrement();
    c.increment();
    assert_eq!(c.value(), 11);
    c.increment();
    c.decrement();
    c.decrement();
    c.increment();
    assert_eq!(c.value(), 11);
    c.increment();
    assert_eq!(c.value(), 12);
}

#[test]
fn divide_truncates_toward_zero() {
    assert_eq!(divide(10, 2), Ok(5));
    assert_eq!(divide(7, 2), Ok(3));
    assert_eq!(divide(-7, 2), Ok(-3));
    assert_eq!(divide(7, -2), Ok(-3));
    assert_eq!(divide(-7, -2), Ok(3));
    assert_eq!(divide(i32::MIN, 1), Ok(i32::MIN));
    assert_eq!(divide(i32::MIN, 2), Ok(-1073741824));
}

#[test]
fn divide_by_zero_fails() {
    let r = divide(1, 0);
    assert_eq!(r, Err(Error::Domain(DomainError::DivisionByZero)));
    assert_eq!(to_host_error(&r.unwrap_err()).message, "Division by zero");
}

#[test]
fn sync_and_async_divide_agree() {
    for (a, b) in [(10, 3), (-10, 3), (0, 5), (i32::MAX, -1), (9, 0), (0, 0)] {
        assert_eq!(divide(a, b), async_divide(a, b));
        let thrown = match divide(a, b) {
            Ok(v) => Ok(v),
            Err(e) => Err(to_host_error(&e).message),
        };
        let settled = match settle_outcome(async_divide(a, b)) {
            Settlement::Resolved(v) => Ok(v),
            Settlement::Rejected(m) => Err(m),
            Settlement::Pending => panic!("a finished computation left the handle pending"),
        };
        assert_eq!(thrown, settled);
    }
}

#[test]
fn maybe_double_present_or_absent() {
    assert_eq!(maybe_double(0), Some(0));
    assert_eq!(maybe_double(21), Some(42));
    assert_eq!(maybe_double(i32::MAX / 2), Some(i32::MAX - 1));
    assert_eq!(maybe_double(-1), None);
    assert_eq!(maybe_double(i32::MIN), None);
}

#[test]
fn async_sum_sums_or_overflows() {
    assert_eq!(async_sum(vec![1, 2, 3, 4]), Ok(10));
    assert_eq!(async_sum(vec![]), Ok(0));
    assert_eq!(async_sum(vec![i32::MIN, -1]), Err(Error::Domain(DomainError::SumOverflow)));
    assert_eq!(sum_all(&vec![i32::MAX, i32::MAX, i32::MIN, i32::MIN]), Ok(-2));
}

#[test]
fn error_messages_cross_the_boundary() {
    let cases = [
        (Error::Domain(DomainError::SumOverflow), "Sum overflow"),
        (Error::Marshal(MarshalError::TypeMismatch), "Type mismatch"),
        (Error::Marshal(MarshalError::InvalidEncoding), "Invalid encoding"),
        (
            Error::Marshal(MarshalError::MissingField("age".to_string())),
            "Missing field: age",
        ),
        (
            Error::Marshal(MarshalError::InvalidElement(12)),
            "Invalid element at index 12",
        ),
        (Error::Call(CallError::BadReturnType), "Bad return type"),
        (Error::Call(CallError::HostThrew("nope".to_string())), "nope"),
    ];
    for (e, m) in cases {
        assert_eq!(to_host_error(&e).message, m);
    }
    let back = from_host_exception(HostException { message: "thrown".to_string() });
    assert_eq!(back, Error::Call(CallError::HostThrew("thrown".to_string())));
}

#[test]
fn pending_settles_once() {
    let mut p = PendingComputation::new();
    assert!(p.is_pending());
    assert_eq!(p.observe(), Settlement::Pending);
    assert!(p.settle(Ok(7)));
    assert_eq!(p.observe(), Settlement::Resolved(7));
    assert!(!p.settle(Ok(8)));
    assert!(!p.settle(Err(Error::Domain(DomainError::DivisionByZero))));
    assert_eq!(p.observe(), Settlement::Resolved(7));
    assert_eq!(p.observe(), Settlement::Resolved(7));
}

#[test]
fn rejected_stays_rejected() {
    let mut p = PendingComputation::new();
    assert!(p.settle(Err(Error::Domain(DomainError::DivisionByZero))));
    assert_eq!(p.observe(), Settlement::Rejected("Division by zero".to_string()));
    assert!(!p.settle(Ok(1)));
    assert_eq!(p.observe(), Settlement::Rejected("Division by zero".to_string()));
    assert!(!p.is_pending());
}

#[test]
fn scalars_marshal() {
    assert_eq!(i32_to_host(-5), HostValue::Number(-5));
    assert_eq!(i32_from_host(&HostValue::Number(-5)), Ok(-5));
    assert_eq!(
        i32_from_host(&HostValue::Number(1 << 40)),
        Err(MarshalError::TypeMismatch)
    );
    assert_eq!(i32_from_host(&HostValue::Boolean(true)), Err(MarshalError::TypeMismatch));
    assert_eq!(u32_from_host(&HostValue::Number(4294967295)), Ok(u32::MAX));
    assert_eq!(u32_from_host(&HostValue::Number(-1)), Err(MarshalError::TypeMismatch));
}

#[test]
fn text_marshals_as_utf8() {
    let s = "h\u{e9}llo \u{1F600}".to_string();
    let h = string_to_host(&s);
    assert_eq!(h, HostValue::Text(s.as_bytes().to_vec()));
    assert_eq!(string_from_host(&h), Ok(s));
    assert_eq!(
        string_from_host(&HostValue::Text(vec![0xC3, 0xA9])),
        Ok("\u{e9}".to_string())
    );
    assert_eq!(
        string_from_host(&HostValue::Text(vec![0x66, 0xFF, 0x66])),
        Err(MarshalError::InvalidEncoding)
    );
    assert_eq!(string_from_host(&HostValue::Number(3)), Err(MarshalError::TypeMismatch));
}

#[test]
fn sequences_marshal_in_order() {
    let v = vec![3, -1, 4];
    let h = i32_seq_to_host(&v);
    assert_eq!(
        h,
        HostValue::Array(vec![
            HostValue::Number(3),
            HostValue::Number(-1),
            HostValue::Number(4)
        ])
    );
    assert_eq!(i32_seq_from_host(&h), Ok(v));
    let bad = HostValue::Array(vec![HostValue::Number(1), HostValue::Null, text("x")]);
    assert_eq!(i32_seq_from_host(&bad), Err(MarshalError::InvalidElement(1)));
    assert_eq!(i32_seq_from_host(&HostValue::Null), Err(MarshalError::TypeMismatch));
}

#[test]
fn optionals_marshal() {
    assert_eq!(option_i32_to_host(None), HostValue::Null);
    assert_eq!(option_i32_to_host(Some(2)), HostValue::Number(2));
    assert_eq!(option_i32_from_host(&HostValue::Undefined), Ok(None));
    assert_eq!(option_i32_from_host(&HostValue::Null), Ok(None));
    assert_eq!(option_i32_from_host(&HostValue::Number(9)), Ok(Some(9)));
    assert_eq!(option_i32_from_host(&text("9")), Err(MarshalError::TypeMismatch));
    assert_eq!(option_string_from_host(&HostValue::Null), Ok(None));
    assert_eq!(option_string_from_host(&text("Zoe")), Ok(Some("Zoe".to_string())));
}

#[test]
fn person_round_trips() {
    let p = Person { name: "Ren\u{e9}e".to_string(), age: 77 };
    let h = person_to_host(&p);
    assert_eq!(
        h,
        HostValue::Object(vec![field("name", text("Ren\u{e9}e")), field("age", HostValue::Number(77))])
    );
    assert_eq!(person_from_host(&h), Ok(p));
}

#[test]
fn person_fields_found_by_name() {
    let h = HostValue::Object(vec![
        field("extra", HostValue::Boolean(false)),
        field("age", HostValue::Number(5)),
        field("name", text("Kim")),
        field("name", text("ignored")),
    ]);
    assert_eq!(person_from_host(&h), Ok(Person { name: "Kim".to_string(), age: 5 }));
}

#[test]
fn person_marshal_errors() {
    let no_name = HostValue::Object(vec![field("age", HostValue::Number(5))]);
    assert_eq!(
        person_from_host(&no_name),
        Err(MarshalError::MissingField("name".to_string()))
    );
    let no_age = HostValue::Object(vec![field("name", text("Kim"))]);
    assert_eq!(
        person_from_host(&no_age),
        Err(MarshalError::MissingField("age".to_string()))
    );
    let bad_age = HostValue::Object(vec![field("name", text("Kim")), field("age", text("5"))]);
    assert_eq!(person_from_host(&bad_age), Err(MarshalError::TypeMismatch));
    let bad_name = HostValue::Object(vec![
        field("name", HostValue::Text(vec![0xC0])),
        field("age", HostValue::Number(5)),
    ]);
    assert_eq!(person_from_host(&bad_name), Err(MarshalError::InvalidEncoding));
    assert_eq!(person_from_host(&HostValue::Number(1)), Err(MarshalError::TypeMismatch));
}
