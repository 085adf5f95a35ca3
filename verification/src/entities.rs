//! *Resources* and *entities*: the kind registry.
//!
//! The service often requires a *resource* kind (like [`ResourceType::Student`])
//! in a request to know what it must send back. It sends back *entities*,
//! identified by an *entity* kind and an identifier. Every entity kind except
//! the unknown one is also a resource kind; the unknown kind carries the unit
//! identifier (`null` on the wire), every other kind an opaque string
//! identifier. The pairing of kind, numeric wire code and identifier shape is
//! total and immutable, and no two kinds share a code.

use vstd::prelude::*;

verus! {

/// A kind of entity the service can send back.
///
/// The set of kinds is closed: every kind, its numeric wire code and its
/// identifier shape stand in this one enumeration, so no caller can introduce
/// a new kind or change a pairing.
#[derive(Clone, Copy, PartialEq, Eq, Structural, Debug)]
pub enum EntityType {
    Unknown,
    Module,
    Staff,
    Room,
    Group,
    Student,
    Team,
    Equipment,
    Course,
}

/// The shape of the identifier associated with an entity kind.
#[derive(Clone, Copy, PartialEq, Eq, Structural, Debug)]
pub enum IdShape {
    /// The unit identifier; its wire form is `null`.
    Unit,
    /// An opaque string identifier; its wire form is a string.
    Text,
}

/// An identifier value, of either shape.
#[derive(Debug, PartialEq)]
pub enum EntityId {
    /// The unit identifier of the unknown kind.
    Unit,
    /// The string identifier of every other kind.
    Text(String),
}

/// An entity kind that may also be used as the filter parameter of a listing
/// request: every kind except the unknown one. Requests take this type, so a
/// request filtered by the unknown kind cannot even be written.
#[derive(Clone, Copy, PartialEq, Eq, Structural, Debug)]
pub enum ResourceType {
    Module,
    Staff,
    Room,
    Group,
    Student,
    Team,
    Equipment,
    Course,
}

/// The string identifier of a resource.
#[derive(Debug, PartialEq)]
pub struct ResourceId(pub String);

/// The wire form of an identifier field: `null`, a string, or any other
/// JSON value.
#[derive(Debug, PartialEq)]
pub enum RawId {
    Null,
    Text(String),
    Other,
}

/// The wire form of an entity-type field: a non-negative integer, or any
/// other JSON value.
#[derive(Clone, Copy, PartialEq, Eq, Structural, Debug)]
pub enum RawCode {
    Int(u64),
    Other,
}

/// Why a kind code or an identifier failed to decode.
#[derive(Clone, Copy, PartialEq, Eq, Structural, Debug)]
pub enum DecodeError {
    /// The numeric code on the wire is not the expected kind's code.
    CodeMismatch { expected: EntityType, found: u64 },
    /// The entity-type field does not hold a non-negative integer.
    CodeShape { expected: EntityType },
    /// The identifier field does not hold the shape the kind requires.
    IdShape { kind: EntityType },
}

impl EntityType {
    /// The fixed numeric wire code of this kind.
    pub open spec fn spec_code(self) -> u8 {
        match self {
            EntityType::Unknown => 0,
            EntityType::Module => 100,
            EntityType::Staff => 101,
            EntityType::Room => 102,
            EntityType::Group => 103,
            EntityType::Student => 104,
            EntityType::Team => 105,
            EntityType::Equipment => 106,
            EntityType::Course => 107,
        }
    }

    /// Encoding a kind emits its numeric wire code.
    pub fn code(self) -> (r: u8)
        ensures
            r == self.spec_code(),
    {
        match self {
            EntityType::Unknown => 0,
            EntityType::Module => 100,
            EntityType::Staff => 101,
            EntityType::Room => 102,
            EntityType::Group => 103,
            EntityType::Student => 104,
            EntityType::Team => 105,
            EntityType::Equipment => 106,
            EntityType::Course => 107,
        }
    }

    /// The identifier shape associated with this kind.
    pub open spec fn spec_id_shape(self) -> IdShape {
        if self == EntityType::Unknown {
            IdShape::Unit
        } else {
            IdShape::Text
        }
    }

    /// The identifier shape associated with this kind.
    pub fn id_shape(self) -> (r: IdShape)
        ensures
            r == self.spec_id_shape(),
    {
        if let EntityType::Unknown = self {
            IdShape::Unit
        } else {
            IdShape::Text
        }
    }

    /// Whether this kind satisfies the resource-kind capability.
    pub open spec fn spec_is_resource(self) -> bool {
        self != EntityType::Unknown
    }

    /// Whether this kind satisfies the resource-kind capability.
    pub fn is_resource(self) -> (r: bool)
        ensures
            r == self.spec_is_resource(),
    {
        if let EntityType::Unknown = self {
            false
        } else {
            true
        }
    }

    /// What decoding a wire code against an expected kind yields: the kind
    /// itself on an exact code match, a descriptive error otherwise.
    pub open spec fn spec_decode(expected: EntityType, raw: RawCode) -> Result<EntityType, DecodeError> {
        match raw {
            RawCode::Int(n) => if n == expected.spec_code() as u64 {
                Ok(expected)
            } else {
                Err(DecodeError::CodeMismatch { expected, found: n })
            },
            RawCode::Other => Err(DecodeError::CodeShape { expected }),
        }
    }

    /// Validate a wire code against this expected kind. Succeeds exactly on
    /// this kind's own code; any other value is a mismatch, not a coercion.
    pub fn decode(self, raw: RawCode) -> (r: Result<EntityType, DecodeError>)
        ensures
            r == Self::spec_decode(self, raw),
    {
        match raw {
            RawCode::Int(n) => {
                if n == self.code() as u64 {
                    Ok(self)
                } else {
                    Err(DecodeError::CodeMismatch { expected: self, found: n })
                }
            },
            RawCode::Other => Err(DecodeError::CodeShape { expected: self }),
        }
    }
}

/// Law: no two kinds share a numeric wire code.
pub proof fn lemma_codes_distinct(a: EntityType, b: EntityType)
    ensures
        a.spec_code() == b.spec_code() ==> a == b,
{
}

/// Law: for every registered kind, the round trip encode-then-decode of its
/// numeric code is the identity, and decoding any other integer fails.
pub proof fn lemma_code_round_trip(kind: EntityType)
    ensures
        EntityType::spec_decode(kind, RawCode::Int(kind.spec_code() as u64)) == Ok::<EntityType, DecodeError>(kind),
        forall|n: u64|
            n != kind.spec_code() as u64 ==> #[trigger] EntityType::spec_decode(
                kind,
                RawCode::Int(n),
            ) is Err,
{
}

impl ResourceType {
    /// The entity kind this resource kind stands for.
    pub open spec fn spec_entity_type(self) -> EntityType {
        match self {
            ResourceType::Module => EntityType::Module,
            ResourceType::Staff => EntityType::Staff,
            ResourceType::Room => EntityType::Room,
            ResourceType::Group => EntityType::Group,
            ResourceType::Student => EntityType::Student,
            ResourceType::Team => EntityType::Team,
            ResourceType::Equipment => EntityType::Equipment,
            ResourceType::Course => EntityType::Course,
        }
    }

    /// The entity kind this resource kind stands for.
    pub fn entity_type(self) -> (r: EntityType)
        ensures
            r == self.spec_entity_type(),
    {
        match self {
            ResourceType::Module => EntityType::Module,
            ResourceType::Staff => EntityType::Staff,
            ResourceType::Room => EntityType::Room,
            ResourceType::Group => EntityType::Group,
            ResourceType::Student => EntityType::Student,
            ResourceType::Team => EntityType::Team,
            ResourceType::Equipment => EntityType::Equipment,
            ResourceType::Course => EntityType::Course,
        }
    }

    /// The numeric wire code of this resource kind.
    pub fn code(self) -> (r: u8)
        ensures
            r == self.spec_entity_type().spec_code(),
    {
        self.entity_type().code()
    }

    /// The resource kind standing for an entity kind, if there is one: every
    /// kind but the unknown one has exactly one.
    pub fn from_entity_type(t: EntityType) -> (r: Option<ResourceType>)
        ensures
            match r {
                Some(rt) => rt.spec_entity_type() == t && t.spec_is_resource(),
                None => !t.spec_is_resource(),
            },
    {
        match t {
            EntityType::Unknown => None,
            EntityType::Module => Some(ResourceType::Module),
            EntityType::Staff => Some(ResourceType::Staff),
            EntityType::Room => Some(ResourceType::Room),
            EntityType::Group => Some(ResourceType::Group),
            EntityType::Student => Some(ResourceType::Student),
            EntityType::Team => Some(ResourceType::Team),
            EntityType::Equipment => Some(ResourceType::Equipment),
            EntityType::Course => Some(ResourceType::Course),
        }
    }
}

/// Law: every resource kind satisfies the resource-kind capability, so the
/// unknown kind is statically inadmissible wherever a resource kind is
/// required.
pub proof fn lemma_resource_kinds(rt: ResourceType)
    ensures
        rt.spec_entity_type().spec_is_resource(),
{
}

impl EntityId {
    /// The shape of this identifier value.
    pub open spec fn spec_shape(&self) -> IdShape {
        match self {
            EntityId::Unit => IdShape::Unit,
            EntityId::Text(_) => IdShape::Text,
        }
    }

    /// What encoding an identifier emits on the wire: `null` for the unit
    /// identifier, the string itself otherwise.
    pub open spec fn spec_encode(self) -> RawId {
        match self {
            EntityId::Unit => RawId::Null,
            EntityId::Text(s) => RawId::Text(s),
        }
    }

    /// Encode this identifier into its wire form.
    pub fn encode(self) -> (r: RawId)
        ensures
            r == self.spec_encode(),
    {
        match self {
            EntityId::Unit => RawId::Null,
            EntityId::Text(s) => RawId::Text(s),
        }
    }

    /// What decoding an identifier field against a kind yields: the unknown
    /// kind accepts exactly `null`, every other kind exactly a string.
    pub open spec fn spec_decode(kind: EntityType, raw: RawId) -> Result<EntityId, DecodeError> {
        match raw {
            RawId::Null => if kind == EntityType::Unknown {
                Ok(EntityId::Unit)
            } else {
                Err(DecodeError::IdShape { kind })
            },
            RawId::Text(s) => if kind == EntityType::Unknown {
                Err(DecodeError::IdShape { kind })
            } else {
                Ok(EntityId::Text(s))
            },
            RawId::Other => Err(DecodeError::IdShape { kind }),
        }
    }

    /// Decode an identifier field against the kind it must belong to.
    pub fn decode(kind: EntityType, raw: RawId) -> (r: Result<EntityId, DecodeError>)
        ensures
            r == Self::spec_decode(kind, raw),
            r matches Ok(id) ==> id.spec_shape() == kind.spec_id_shape(),
    {
        let unknown = kind.id_shape();
        match raw {
            RawId::Null => {
                if let IdShape::Unit = unknown {
                    Ok(EntityId::Unit)
                } else {
                    Err(DecodeError::IdShape { kind })
                }
            },
            RawId::Text(s) => {
                if let IdShape::Unit = unknown {
                    Err(DecodeError::IdShape { kind })
                } else {
                    Ok(EntityId::Text(s))
                }
            },
            RawId::Other => Err(DecodeError::IdShape { kind }),
        }
    }
}

/// Law: decoding `null` succeeds only against the unit identifier shape of
/// the unknown kind; a non-`null` value fails for it; and a non-string value
/// fails for every other kind.
pub proof fn lemma_id_decode_shapes(kind: EntityType, raw: RawId)
    ensures
        (EntityId::spec_decode(kind, raw) is Ok) <==> (if kind == EntityType::Unknown {
            raw is Null
        } else {
            raw is Text
        }),
{
}

/// Law: an identifier whose shape matches a kind's shape decodes back from
/// its own encoding, unchanged.
pub proof fn lemma_id_round_trip(kind: EntityType, id: EntityId)
    requires
        id.spec_shape() == kind.spec_id_shape(),
    ensures
        EntityId::spec_decode(kind, id.spec_encode()) == Ok::<EntityId, DecodeError>(id),
{
}

} // verus!
