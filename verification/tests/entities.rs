use celcat::entities::{DecodeError, EntityId, EntityType, RawCode, RawId, ResourceType};

#[test]
fn serialize_entity_type() {
    assert_eq!(EntityType::Unknown.code(), 0);
    assert_eq!(EntityType::Student.code(), 104);
}

#[test]
fn deserialize_entity_type() {
    EntityType::Unknown.decode(RawCode::Int(0)).unwrap();
    EntityType::Group.decode(RawCode::Int(103)).unwrap();
    EntityType::Unknown.decode(RawCode::Int(100)).unwrap_err();
    EntityType::Staff.decode(RawCode::Other).unwrap_err();
}

#[test]
fn serialize_unknown_id() {
    assert_eq!(EntityId::Unit.encode(), RawId::Null);
}

#[test]
fn deserialize_unknown_id() {
    EntityId::decode(EntityType::Unknown, RawId::Null).unwrap();
    EntityId::decode(EntityType::Unknown, RawId::Other).unwrap_err();
}

#[test]
fn serialize_room_id() {
    assert_eq!(
        EntityId::Text("1173077".to_owned()).encode(),
        RawId::Text("1173077".to_owned())
    );
}

#[test]
fn deserialize_room_id() {
    assert_eq!(
        EntityId::decode(EntityType::Room, RawId::Text("1172947".to_owned())),
        Ok(EntityId::Text("1172947".to_owned()))
    );
    EntityId::decode(EntityType::Room, RawId::Other).unwrap_err();
}

#[test]
fn kind_codes_are_fixed() {
    assert_eq!(EntityType::Unknown.code(), 0);
    assert_eq!(EntityType::Module.code(), 100);
    assert_eq!(EntityType::Staff.code(), 101);
    assert_eq!(EntityType::Room.code(), 102);
    assert_eq!(EntityType::Group.code(), 103);
    assert_eq!(EntityType::Student.code(), 104);
    assert_eq!(EntityType::Team.code(), 105);
    assert_eq!(EntityType::Equipment.code(), 106);
    assert_eq!(EntityType::Course.code(), 107);
}

#[test]
fn code_round_trip_every_kind() {
    let kinds = [
        EntityType::Unknown,
        EntityType::Module,
        EntityType::Staff,
        EntityType::Room,
        EntityType::Group,
        EntityType::Student,
        EntityType::Team,
        EntityType::Equipment,
        EntityType::Course,
    ];
    for kind in kinds {
        assert_eq!(kind.decode(RawCode::Int(kind.code() as u64)), Ok(kind));
        assert_eq!(
            kind.decode(RawCode::Int(255)),
            Err(DecodeError::CodeMismatch {
                expected: kind,
                found: 255
            })
        );
    }
}

#[test]
fn room_code_mismatch_is_descriptive() {
    assert_eq!(
        EntityType::Room.decode(RawCode::Int(100)),
        Err(DecodeError::CodeMismatch {
            expected: EntityType::Room,
            found: 100
        })
    );
}

#[test]
fn non_integer_code_is_a_shape_error() {
    assert_eq!(
        EntityType::Staff.decode(RawCode::Other),
        Err(DecodeError::CodeShape {
            expected: EntityType::Staff
        })
    );
}

#[test]
fn unknown_id_rejects_text() {
    assert_eq!(
        EntityId::decode(EntityType::Unknown, RawId::Text("X".to_owned())),
        Err(DecodeError::IdShape {
            kind: EntityType::Unknown
        })
    );
}

#[test]
fn resource_kind_subset() {
    assert_eq!(ResourceType::from_entity_type(EntityType::Unknown), None);
    let kinds = [
        EntityType::Module,
        EntityType::Staff,
        EntityType::Room,
        EntityType::Group,
        EntityType::Student,
        EntityType::Team,
        EntityType::Equipment,
        EntityType::Course,
    ];
    for kind in kinds {
        let rt = ResourceType::from_entity_type(kind).unwrap();
        assert_eq!(rt.entity_type(), kind);
        assert_eq!(rt.code(), kind.code());
        assert!(kind.is_resource());
    }
    assert!(!EntityType::Unknown.is_resource());
}
