use cfddns::error::UpdateError;
use cfddns::record::{
    create_record, reconcile, update_record, Field, FieldValue, Member, RecordType, Target, Write,
};

fn target(ttl: Option<u32>, proxied: bool) -> Target {
    Target {
        domain: "home.example.com".to_string(),
        record_type: RecordType::A,
        proxied,
        ttl,
    }
}

fn text(field: Field, s: &str) -> Member {
    Member { field, value: FieldValue::Text(s.to_string()) }
}

fn body_of(w: &Write) -> &Vec<Member> {
    match w {
        Write::Create { body, .. } => body,
        Write::Update { body, .. } => body,
    }
}

#[test]
fn no_record_creates_one() {
    let w = reconcile("Z1", &target(None, false), "203.0.113.7", vec![]).unwrap();
    assert_eq!(
        w,
        Write::Create {
            zone_id: "Z1".to_string(),
            body: vec![
                text(Field::Name, "home.example.com"),
                text(Field::Type, "A"),
                text(Field::Content, "203.0.113.7"),
                Member { field: Field::Proxied, value: FieldValue::Flag(false) },
            ],
        }
    );
}

#[test]
fn one_record_is_updated_in_place() {
    let w = reconcile("Z1", &target(None, false), "203.0.113.8", vec!["R1".to_string()]).unwrap();
    assert_eq!(
        w,
        Write::Update {
            zone_id: "Z1".to_string(),
            record_id: "R1".to_string(),
            body: vec![
                text(Field::Content, "203.0.113.8"),
                Member { field: Field::Proxied, value: FieldValue::Flag(false) },
            ],
        }
    );
}

#[test]
fn several_records_are_refused() {
    let r = reconcile("Z1", &target(None, false), "203.0.113.8", vec!["R1".to_string(), "R2".to_string()]);
    assert_eq!(r, Err(UpdateError::MultipleRecordsFound));
    let r = reconcile(
        "Z1",
        &target(Some(60), true),
        "203.0.113.8",
        vec!["R1".to_string(), "R2".to_string(), "R3".to_string()],
    );
    assert_eq!(r, Err(UpdateError::MultipleRecordsFound));
}

#[test]
fn ttl_and_proxy_are_sent_when_set() {
    let t = Target {
        domain: "v6.example.org".to_string(),
        record_type: RecordType::Aaaa,
        proxied: true,
        ttl: Some(300),
    };
    let w = create_record("Z2", &t, "2001:db8::1");
    assert_eq!(
        body_of(&w),
        &vec![
            text(Field::Name, "v6.example.org"),
            text(Field::Type, "AAAA"),
            text(Field::Content, "2001:db8::1"),
            Member { field: Field::Ttl, value: FieldValue::Number(300) },
            Member { field: Field::Proxied, value: FieldValue::Flag(true) },
        ]
    );
    let u = update_record("Z2", "R7".to_string(), &t, "2001:db8::2");
    assert_eq!(
        body_of(&u),
        &vec![
            text(Field::Content, "2001:db8::2"),
            Member { field: Field::Ttl, value: FieldValue::Number(300) },
            Member { field: Field::Proxied, value: FieldValue::Flag(true) },
        ]
    );
}

#[test]
fn update_body_never_names_the_record() {
    for ttl in [None, Some(1), Some(u32::MAX)] {
        for proxied in [false, true] {
            let u = update_record("Z", "R".to_string(), &target(ttl, proxied), "198.51.100.1");
            assert!(body_of(&u).iter().all(|m| m.field != Field::Name && m.field != Field::Type));
            let c = create_record("Z", &target(ttl, proxied), "198.51.100.1");
            assert!(body_of(&c).iter().any(|m| m.field == Field::Name));
            assert!(body_of(&c).iter().any(|m| m.field == Field::Type));
        }
    }
}

#[test]
fn reconciling_twice_creates_once() {
    let t = target(None, false);
    let mut records: Vec<String> = vec![];
    let mut creates = 0;
    let mut updates = 0;
    for _ in 0..3 {
        match reconcile("Z1", &t, "203.0.113.7", records.clone()).unwrap() {
            Write::Create { .. } => {
                creates += 1;
                records.push("NEW".to_string());
            }
            Write::Update { record_id, .. } => {
                assert_eq!(record_id, "NEW");
                updates += 1;
            }
        }
    }
    assert_eq!(creates, 1);
    assert_eq!(updates, 2);
    assert_eq!(records.len(), 1);
}

#[test]
fn record_type_and_field_names() {
    assert_eq!(RecordType::A.as_str(), "A");
    assert_eq!(RecordType::Aaaa.as_str(), "AAAA");
    assert_eq!(Field::Name.key(), "name");
    assert_eq!(Field::Type.key(), "type");
    assert_eq!(Field::Content.key(), "content");
    assert_eq!(Field::Ttl.key(), "ttl");
    assert_eq!(Field::Proxied.key(), "proxied");
}
