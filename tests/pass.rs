use cfddns::error::UpdateError;
use cfddns::pass::{pass_start, pass_step, PassAction, PassEvent, PassState};
use cfddns::record::{Field, FieldValue, Member, RecordType, Target, Write};

fn target() -> Target {
    Target {
        domain: "home.example.com".to_string(),
        record_type: RecordType::A,
        proxied: false,
        ttl: None,
    }
}

fn step(t: &Target, s: PassState, e: PassEvent) -> (PassState, PassAction) {
    assert!(s.expects(&e));
    pass_step(t, s, e)
}

#[test]
fn full_pass_creates_missing_record() {
    let t = target();
    let (s, a) = pass_start();
    assert_eq!(a, PassAction::LookUpAddress);
    let (s, a) = step(&t, s, PassEvent::Address("203.0.113.7".to_string()));
    assert_eq!(a, PassAction::QueryZones("home.example.com".to_string()));
    let (s, a) = step(&t, s, PassEvent::Zones(vec![]));
    assert_eq!(a, PassAction::QueryZones("example.com".to_string()));
    let (s, a) = step(&t, s, PassEvent::Zones(vec!["Z1".to_string()]));
    assert_eq!(a, PassAction::ListRecords("Z1".to_string()));
    let (s, a) = step(&t, s, PassEvent::Records(vec![]));
    let expected = Write::Create {
        zone_id: "Z1".to_string(),
        body: vec![
            Member { field: Field::Name, value: FieldValue::Text("home.example.com".to_string()) },
            Member { field: Field::Type, value: FieldValue::Text("A".to_string()) },
            Member { field: Field::Content, value: FieldValue::Text("203.0.113.7".to_string()) },
            Member { field: Field::Proxied, value: FieldValue::Flag(false) },
        ],
    };
    assert_eq!(a, PassAction::Send(expected));
    let (s, a) = step(&t, s, PassEvent::Written);
    assert_eq!(s, PassState::Done);
    assert_eq!(a, PassAction::Finish(Ok("203.0.113.7".to_string())));
}

#[test]
fn pass_updates_single_record() {
    let t = target();
    let s = PassState::ListingRecords { address: "203.0.113.9".to_string(), zone_id: "Z1".to_string() };
    let (_, a) = step(&t, s, PassEvent::Records(vec!["R1".to_string()]));
    match a {
        PassAction::Send(Write::Update { zone_id, record_id, body }) => {
            assert_eq!(zone_id, "Z1");
            assert_eq!(record_id, "R1");
            assert_eq!(body[0], Member { field: Field::Content, value: FieldValue::Text("203.0.113.9".to_string()) });
        }
        other => panic!("expected an update, got {:?}", other),
    }
}

#[test]
fn pass_stops_on_conflicts_and_failures() {
    let t = target();
    let s = PassState::ListingRecords { address: "203.0.113.9".to_string(), zone_id: "Z1".to_string() };
    let (s2, a) = step(&t, s, PassEvent::Records(vec!["R1".to_string(), "R2".to_string()]));
    assert_eq!((s2, a), (PassState::Done, PassAction::Finish(Err(UpdateError::MultipleRecordsFound))));

    let s = PassState::FindingZone { address: "x".to_string(), domain: "com".to_string() };
    let (_, a) = step(&t, s, PassEvent::Zones(vec![]));
    assert_eq!(a, PassAction::Finish(Err(UpdateError::NoZoneFound)));

    let s = PassState::FindingZone { address: "x".to_string(), domain: "example.com".to_string() };
    let (_, a) = step(&t, s, PassEvent::Zones(vec!["Z1".to_string(), "Z2".to_string()]));
    assert_eq!(a, PassAction::Finish(Err(UpdateError::AmbiguousZone)));

    let failure = UpdateError::Lookup("no route".to_string());
    let (s, a) = step(&t, PassState::LookingUp, PassEvent::Failed(failure.clone()));
    assert_eq!((s, a), (PassState::Done, PassAction::Finish(Err(failure))));
}

#[test]
fn pass_expects_only_its_answers() {
    assert!(PassState::LookingUp.expects(&PassEvent::Address("1.2.3.4".to_string())));
    assert!(!PassState::LookingUp.expects(&PassEvent::Written));
    assert!(!PassState::Done.expects(&PassEvent::Failed(UpdateError::NoZoneFound)));
    assert!(PassState::Writing { address: "a".to_string() }.expects(&PassEvent::Written));
    assert!(!PassState::Writing { address: "a".to_string() }.expects(&PassEvent::Records(vec![])));
}
