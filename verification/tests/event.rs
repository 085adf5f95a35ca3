use celcat::entities::{DecodeError, EntityId, EntityType, RawCode, RawId, ResourceId};
use celcat::event::{
    Element, Elements, ElementsError, Event, EventError, EventRequest, RawLabel, RawRecord,
};

fn rec(
    label: RawLabel,
    content: Option<&str>,
    federation_id: RawId,
    entity_type: u64,
    assignment_context: Option<&str>,
    is_notes: bool,
) -> RawRecord {
    RawRecord {
        label,
        content: content.map(|s| s.to_owned()),
        federation_id,
        entity_type: RawCode::Int(entity_type),
        assignment_context: assignment_context.map(|s| s.to_owned()),
        contains_hyperlinks: false,
        is_notes,
        is_student_specific: false,
    }
}

fn label(s: &str) -> RawLabel {
    RawLabel::Text(s.to_owned())
}

fn text(s: &str) -> RawId {
    RawId::Text(s.to_owned())
}

#[test]
fn deserialize_element() {
    let records = vec![
        rec(
            label("Time"),
            Some("11/9/2021 2:01 PM-5:16 PM"),
            RawId::Null,
            0,
            None,
            false,
        ),
        rec(label("Catégorie"), Some("TD"), RawId::Null, 0, None, false),
        rec(
            label("Matière"),
            Some("Anglais [DPGANG3D]"),
            text("DPGANG3D"),
            100,
            Some("a-start-end"),
            false,
        ),
        rec(
            label("Salles"),
            Some("A ROOM"),
            text("1172982"),
            102,
            Some("a-start"),
            false,
        ),
        rec(
            RawLabel::Missing,
            Some("AN ANOTHER ROOM"),
            text("1172981"),
            102,
            Some("a"),
            false,
        ),
        rec(
            RawLabel::Missing,
            Some("YET AN ANOTHER ROOM"),
            text("1172977"),
            102,
            Some("a-end-0"),
            false,
        ),
        rec(
            label("Enseignants"),
            Some("SOME BODY"),
            text("012345"),
            101,
            Some("a-start"),
            false,
        ),
        rec(
            RawLabel::Missing,
            Some("SOMEBODY ELSE"),
            text("54321"),
            101,
            Some("a-end-0"),
            false,
        ),
        rec(label("Notes"), None, RawId::Null, 0, None, true),
        rec(label("Name"), None, RawId::Null, 0, None, false),
    ];
    let decoded = Elements::decode(&records).unwrap();
    assert!(matches!(
        decoded.0[..],
        [
            Element::Time(_),
            Element::Category(_),
            Element::Module(_),
            Element::Room(_),
            Element::Room(_),
            Element::Room(_),
            Element::Teacher(_),
            Element::Teacher(_),
            Element::Grade(_),
            Element::Name(_),
        ]
    ));
}

#[test]
fn deserialize_event() {
    Event::decode(RawId::Null, RawCode::Int(0), &vec![]).unwrap();
}

#[test]
fn mixed_literal_sequence() {
    let records = vec![
        rec(label("Time"), Some("9:00-10:00"), RawId::Null, 0, None, false),
        rec(label("Catégorie"), Some("TD"), RawId::Null, 0, None, false),
        rec(
            label("Matière"),
            Some("Anglais [DPGANG3D]"),
            text("DPGANG3D"),
            100,
            None,
            false,
        ),
        rec(label("Salles"), Some("A ROOM"), text("1172982"), 102, None, false),
        rec(
            RawLabel::Missing,
            Some("AN ANOTHER ROOM"),
            text("1172981"),
            102,
            None,
            false,
        ),
    ];
    let decoded = Elements::decode(&records).unwrap();
    assert!(matches!(
        decoded.0[..],
        [
            Element::Time(_),
            Element::Category(_),
            Element::Module(_),
            Element::Room(_),
            Element::Room(_),
        ]
    ));
}

#[test]
fn sticky_carry_over_after_room() {
    let records = vec![
        rec(label("Salle"), Some("A ROOM"), text("1"), 102, None, false),
        rec(RawLabel::Missing, Some("B ROOM"), text("2"), 102, None, false),
    ];
    let decoded = Elements::decode(&records).unwrap();
    assert!(matches!(
        decoded.0[..],
        [Element::Room(_), Element::Room(_)]
    ));
    if let Element::Room(el) = &decoded.0[1] {
        assert_eq!(el.entity_type, EntityType::Room);
        assert_eq!(el.federation_id, EntityId::Text("2".to_owned()));
        assert_eq!(el.content, Some("B ROOM".to_owned()));
    } else {
        unreachable!();
    }
}

#[test]
fn empty_array_decodes_empty() {
    let decoded = Elements::decode(&vec![]).unwrap();
    assert!(decoded.0.is_empty());
}

#[test]
fn unlabeled_first_element_fails() {
    let records = vec![rec(RawLabel::Missing, None, RawId::Null, 0, None, false)];
    assert_eq!(
        Elements::decode(&records),
        Err(ElementsError::UnlabeledFirst)
    );
}

#[test]
fn unknown_label_fails() {
    let records = vec![
        rec(label("Time"), None, RawId::Null, 0, None, false),
        rec(label("salles"), Some("A ROOM"), text("1"), 102, None, false),
    ];
    assert_eq!(
        Elements::decode(&records),
        Err(ElementsError::UnknownLabel {
            position: 1,
            label: "salles".to_owned(),
        })
    );
}

#[test]
fn non_string_label_fails() {
    let records = vec![rec(RawLabel::Other, None, RawId::Null, 0, None, false)];
    assert_eq!(
        Elements::decode(&records),
        Err(ElementsError::LabelShape { position: 0 })
    );
}

#[test]
fn record_failure_names_position_and_kind() {
    let records = vec![
        rec(label("Time"), None, RawId::Null, 0, None, false),
        rec(label("Salles"), Some("A ROOM"), text("1"), 101, None, false),
    ];
    assert_eq!(
        Elements::decode(&records),
        Err(ElementsError::Record {
            position: 1,
            kind: EntityType::Room,
            cause: DecodeError::CodeMismatch {
                expected: EntityType::Room,
                found: 101,
            },
        })
    );
}

#[test]
fn identifier_shape_failure_is_contextual() {
    let records = vec![rec(label("Matière"), None, RawId::Null, 100, None, false)];
    assert_eq!(
        Elements::decode(&records),
        Err(ElementsError::Record {
            position: 0,
            kind: EntityType::Module,
            cause: DecodeError::IdShape {
                kind: EntityType::Module
            },
        })
    );
}

#[test]
fn event_header_code_mismatch_fails() {
    let err = Event::decode(RawId::Null, RawCode::Int(5), &vec![]).unwrap_err();
    assert_eq!(
        err,
        EventError::Header(DecodeError::CodeMismatch {
            expected: EntityType::Unknown,
            found: 5,
        })
    );
}

#[test]
fn event_element_failure_propagates() {
    let records = vec![rec(RawLabel::Missing, None, RawId::Null, 0, None, false)];
    assert_eq!(
        Event::decode(RawId::Null, RawCode::Int(0), &records),
        Err(EventError::Elements(ElementsError::UnlabeledFirst))
    );
}

#[test]
fn event_request_form_field() {
    let req = EventRequest {
        event_id: ResourceId("-1347128091:-662573064:1:42367:4".to_owned()),
    };
    let form = req.form();
    assert_eq!(
        form,
        vec![(
            "eventId".to_owned(),
            "-1347128091:-662573064:1:42367:4".to_owned()
        )]
    );
}
