//! Event details: the heterogeneous, order-dependent element decoder.
//!
//! An event-detail payload carries an array of records, each tagged by a
//! human-readable label. A label is often omitted (absent or `null`) on a
//! record that continues the block started by the previous labeled record;
//! such a record inherits the tag carried over from its predecessor. The
//! first record must be labeled. Each record's remaining fields decode
//! against the entity kind the resolved tag dictates.

use vstd::prelude::*;

use crate::entities::{DecodeError, EntityId, EntityType, RawCode, RawId, ResourceId};

verus! {

/// The tag of one element of an event detail, resolved from its label or
/// inherited from the previous element.
#[derive(Clone, Copy, PartialEq, Eq, Structural, Debug)]
pub enum Tag {
    Time,
    Category,
    Module,
    Room,
    Teacher,
    Grade,
    Name,
}

/// The wire form of a record's label field: absent or `null`, a string, or
/// any other JSON value.
#[derive(Debug, PartialEq)]
pub enum RawLabel {
    /// The label is absent or `null`: the record inherits the current tag.
    Missing,
    Text(String),
    Other,
}

/// One still-undecoded record of an event-detail array.
#[derive(Debug, PartialEq)]
pub struct RawRecord {
    pub label: RawLabel,
    pub content: Option<String>,
    pub federation_id: RawId,
    pub entity_type: RawCode,
    pub assignment_context: Option<String>,
    pub contains_hyperlinks: bool,
    pub is_notes: bool,
    pub is_student_specific: bool,
}

/// One decoded element of an event detail: its identifier has the shape the
/// element's kind requires.
#[derive(Debug, PartialEq)]
pub struct RawElement {
    pub content: Option<String>,
    pub federation_id: EntityId,
    pub entity_type: EntityType,
    pub assignment_context: Option<String>,
    pub contains_hyperlinks: bool,
    pub is_notes: bool,
    pub is_student_specific: bool,
}

/// A decoded element together with its resolved tag. The tag dictates the
/// kind of the contained element: this pairing is fixed.
#[derive(Debug, PartialEq)]
pub enum Element {
    Time(RawElement),
    Category(RawElement),
    Module(RawElement),
    Room(RawElement),
    Teacher(RawElement),
    Grade(RawElement),
    Name(RawElement),
}

/// The ordered sequence of decoded elements of one event detail.
#[derive(Debug, PartialEq)]
pub struct Elements(pub Vec<Element>);

/// Why an event-detail array failed to decode. No partial result is
/// produced: one failing record fails the whole array.
#[derive(Debug, PartialEq)]
pub enum ElementsError {
    /// The first record has no label, so there is no tag to inherit.
    UnlabeledFirst,
    /// A record's label stands in no entry of the label dictionary.
    UnknownLabel { position: usize, label: String },
    /// A record's label is neither absent, `null`, nor a string.
    LabelShape { position: usize },
    /// A record's fields failed to decode against its resolved kind.
    Record { position: usize, kind: EntityType, cause: DecodeError },
}

/// A decoded event detail: a header of the unknown kind, and the decoded
/// element sequence.
#[derive(Debug, PartialEq)]
pub struct Event {
    pub federation_id: EntityId,
    pub entity_type: EntityType,
    pub elements: Elements,
}

/// Why a whole event detail failed to decode.
#[derive(Debug, PartialEq)]
pub enum EventError {
    /// The event header failed to decode against the unknown kind.
    Header(DecodeError),
    /// The element array failed to decode.
    Elements(ElementsError),
}

/// The request for one event detail, by the identifier of a course.
#[derive(Debug, PartialEq)]
pub struct EventRequest {
    pub event_id: ResourceId,
}

impl EventRequest {
    /// The form fields of this request, under the service's field name.
    pub fn form(&self) -> (r: Vec<(String, String)>)
        ensures
            r@.len() == 1,
            r@[0].0@ == "eventId"@,
            r@[0].1@ == self.event_id.0@,
    {
        let mut form: Vec<(String, String)> = Vec::new();
        form.push(("eventId".to_owned(), self.event_id.0.clone()));
        form
    }
}

/// The label dictionary: exact, case- and accent-sensitive string matching,
/// with a singular and a plural spelling accepted for some labels.
#[verifier::opaque]
pub open spec fn spec_label_tag(s: Seq<char>) -> Option<Tag> {
    if s == "Time"@ {
        Some(Tag::Time)
    } else if s == "Catégorie"@ {
        Some(Tag::Category)
    } else if s == "Matière"@ {
        Some(Tag::Module)
    } else if s == "Salle"@ || s == "Salles"@ {
        Some(Tag::Room)
    } else if s == "Enseignant"@ || s == "Enseignants"@ {
        Some(Tag::Teacher)
    } else if s == "Note"@ || s == "Notes"@ {
        Some(Tag::Grade)
    } else if s == "Name"@ {
        Some(Tag::Name)
    } else {
        None
    }
}

/// Exact string equality: the label dictionary does no case folding and no
/// accent folding.
fn str_eq(a: &str, b: &str) -> (r: bool)
    ensures
        r == (a@ == b@),
{
    let sa = a.to_owned();
    let sb = b.to_owned();
    sa == sb
}

impl Tag {
    /// Look a label up in the dictionary.
    pub fn from_label(label: &str) -> (r: Option<Tag>)
        ensures
            r == spec_label_tag(label@),
    {
        proof {
            reveal(spec_label_tag);
        }
        if str_eq(label, "Time") {
            Some(Tag::Time)
        } else if str_eq(label, "Catégorie") {
            Some(Tag::Category)
        } else if str_eq(label, "Matière") {
            Some(Tag::Module)
        } else if str_eq(label, "Salle") || str_eq(label, "Salles") {
            Some(Tag::Room)
        } else if str_eq(label, "Enseignant") || str_eq(label, "Enseignants") {
            Some(Tag::Teacher)
        } else if str_eq(label, "Note") || str_eq(label, "Notes") {
            Some(Tag::Grade)
        } else if str_eq(label, "Name") {
            Some(Tag::Name)
        } else {
            None
        }
    }

    /// The entity kind a tag dictates for its element.
    pub open spec fn spec_kind(self) -> EntityType {
        match self {
            Tag::Time => EntityType::Unknown,
            Tag::Category => EntityType::Unknown,
            Tag::Module => EntityType::Module,
            Tag::Room => EntityType::Room,
            Tag::Teacher => EntityType::Staff,
            Tag::Grade => EntityType::Unknown,
            Tag::Name => EntityType::Unknown,
        }
    }

    /// The entity kind a tag dictates for its element.
    pub fn kind(self) -> (r: EntityType)
        ensures
            r == self.spec_kind(),
    {
        match self {
            Tag::Time => EntityType::Unknown,
            Tag::Category => EntityType::Unknown,
            Tag::Module => EntityType::Module,
            Tag::Room => EntityType::Room,
            Tag::Teacher => EntityType::Staff,
            Tag::Grade => EntityType::Unknown,
            Tag::Name => EntityType::Unknown,
        }
    }
}

impl RawElement {
    /// The identifier of an element has the shape its kind requires.
    pub open spec fn wf(&self) -> bool {
        self.federation_id.spec_shape() == self.entity_type.spec_id_shape()
    }
}

impl Element {
    /// The tag of this element variant.
    pub open spec fn tag(&self) -> Tag {
        match self {
            Element::Time(_) => Tag::Time,
            Element::Category(_) => Tag::Category,
            Element::Module(_) => Tag::Module,
            Element::Room(_) => Tag::Room,
            Element::Teacher(_) => Tag::Teacher,
            Element::Grade(_) => Tag::Grade,
            Element::Name(_) => Tag::Name,
        }
    }

    /// The contained element.
    pub open spec fn raw(&self) -> RawElement {
        match self {
            Element::Time(e) => *e,
            Element::Category(e) => *e,
            Element::Module(e) => *e,
            Element::Room(e) => *e,
            Element::Teacher(e) => *e,
            Element::Grade(e) => *e,
            Element::Name(e) => *e,
        }
    }

    /// The contained element carries exactly the kind the variant dictates,
    /// with an identifier of that kind's shape.
    pub open spec fn wf(&self) -> bool {
        self.raw().wf() && self.raw().entity_type == self.tag().spec_kind()
    }
}

/// The element variant a tag selects.
pub open spec fn spec_make_element(tag: Tag, el: RawElement) -> Element {
    match tag {
        Tag::Time => Element::Time(el),
        Tag::Category => Element::Category(el),
        Tag::Module => Element::Module(el),
        Tag::Room => Element::Room(el),
        Tag::Teacher => Element::Teacher(el),
        Tag::Grade => Element::Grade(el),
        Tag::Name => Element::Name(el),
    }
}

fn make_element(tag: Tag, el: RawElement) -> (r: Element)
    ensures
        r == spec_make_element(tag, el),
{
    match tag {
        Tag::Time => Element::Time(el),
        Tag::Category => Element::Category(el),
        Tag::Module => Element::Module(el),
        Tag::Room => Element::Room(el),
        Tag::Teacher => Element::Teacher(el),
        Tag::Grade => Element::Grade(el),
        Tag::Name => Element::Name(el),
    }
}

/// What decoding one record's fields against a resolved tag yields: the
/// kind code must match the tag's kind exactly, and the identifier must have
/// that kind's shape; a failure names the record's position and kind.
#[verifier::opaque]
pub open spec fn spec_decode_record(tag: Tag, rec: RawRecord, pos: usize) -> Result<
    RawElement,
    ElementsError,
> {
    let kind = tag.spec_kind();
    match EntityType::spec_decode(kind, rec.entity_type) {
        Err(e) => Err(ElementsError::Record { position: pos, kind, cause: e }),
        Ok(_) => match EntityId::spec_decode(kind, rec.federation_id) {
            Err(e) => Err(ElementsError::Record { position: pos, kind, cause: e }),
            Ok(id) => Ok(
                RawElement {
                    content: rec.content,
                    federation_id: id,
                    entity_type: kind,
                    assignment_context: rec.assignment_context,
                    contains_hyperlinks: rec.contains_hyperlinks,
                    is_notes: rec.is_notes,
                    is_student_specific: rec.is_student_specific,
                },
            ),
        },
    }
}

fn clone_opt_string(o: &Option<String>) -> (r: Option<String>)
    ensures
        r == *o,
{
    match o {
        Option::None => Option::None,
        Option::Some(s) => Option::Some(s.clone()),
    }
}

impl RawId {
    /// A copy equal to this wire identifier.
    pub fn dup(&self) -> (r: RawId)
        ensures
            r == *self,
    {
        match self {
            RawId::Null => RawId::Null,
            RawId::Text(s) => RawId::Text(s.clone()),
            RawId::Other => RawId::Other,
        }
    }
}

/// Decode one record's fields against a resolved tag.
fn decode_record(tag: Tag, rec: &RawRecord, pos: usize) -> (r: Result<RawElement, ElementsError>)
    ensures
        r == spec_decode_record(tag, *rec, pos),
{
    proof {
        reveal(spec_decode_record);
    }
    let kind = tag.kind();
    match kind.decode(rec.entity_type) {
        Err(e) => Err(ElementsError::Record { position: pos, kind, cause: e }),
        Ok(_) => match EntityId::decode(kind, rec.federation_id.dup()) {
            Err(e) => Err(ElementsError::Record { position: pos, kind, cause: e }),
            Ok(id) => Ok(
                RawElement {
                    content: clone_opt_string(&rec.content),
                    federation_id: id,
                    entity_type: kind,
                    assignment_context: clone_opt_string(&rec.assignment_context),
                    contains_hyperlinks: rec.contains_hyperlinks,
                    is_notes: rec.is_notes,
                    is_student_specific: rec.is_student_specific,
                },
            ),
        },
    }
}

/// What one step of the decoder yields on one record: the tag it resolves
/// (from the record's own label, or carried over), and the decoded element.
#[verifier::opaque]
pub open spec fn spec_step(rec: RawRecord, pos: usize, cur: Option<Tag>) -> Result<
    (Tag, Element),
    ElementsError,
> {
    let tag_or: Result<Tag, ElementsError> = match rec.label {
        RawLabel::Missing => match cur {
            Some(t) => Ok(t),
            None => Err(ElementsError::UnlabeledFirst),
        },
        RawLabel::Text(s) => match spec_label_tag(s@) {
            Some(t) => Ok(t),
            None => Err(ElementsError::UnknownLabel { position: pos, label: s }),
        },
        RawLabel::Other => Err(ElementsError::LabelShape { position: pos }),
    };
    match tag_or {
        Err(e) => Err(e),
        Ok(t) => match spec_decode_record(t, rec, pos) {
            Err(e) => Err(e),
            Ok(el) => Ok((t, spec_make_element(t, el))),
        },
    }
}

/// Decode one record, resolving its tag from its label or from the tag
/// carried over from the previous record.
pub fn decode_step(rec: &RawRecord, pos: usize, cur: Option<Tag>) -> (r: Result<
    (Tag, Element),
    ElementsError,
>)
    ensures
        r == spec_step(*rec, pos, cur),
{
    proof {
        reveal(spec_step);
    }
    let tag: Tag = match &rec.label {
        RawLabel::Missing => match cur {
            Some(t) => t,
            None => {
                return Err(ElementsError::UnlabeledFirst);
            },
        },
        RawLabel::Text(s) => match Tag::from_label(s.as_str()) {
            Some(t) => t,
            None => {
                return Err(ElementsError::UnknownLabel { position: pos, label: s.clone() });
            },
        },
        RawLabel::Other => {
            return Err(ElementsError::LabelShape { position: pos });
        },
    };
    match decode_record(tag, rec, pos) {
        Err(e) => Err(e),
        Ok(el) => Ok((tag, make_element(tag, el))),
    }
}

/// What decoding the records from position `i` on yields, entering with the
/// carried-over tag `cur`.
pub open spec fn spec_decode_from(records: Seq<RawRecord>, i: int, cur: Option<Tag>) -> Result<
    Seq<Element>,
    ElementsError,
>
    decreases records.len() - i,
{
    if i < 0 || i >= records.len() {
        Ok(Seq::empty())
    } else {
        match spec_step(records[i], i as usize, cur) {
            Err(e) => Err(e),
            Ok(p) => match spec_decode_from(records, i + 1, Some(p.0)) {
                Err(e) => Err(e),
                Ok(rest) => Ok(seq![p.1] + rest),
            },
        }
    }
}

/// What decoding a whole event-detail array yields: a fold over the records
/// threading the carried-over tag, initially unset.
pub open spec fn spec_decode_elements(records: Seq<RawRecord>) -> Result<
    Seq<Element>,
    ElementsError,
> {
    spec_decode_from(records, 0, None)
}

impl Elements {
    /// Decode an event-detail array into its ordered element sequence,
    /// resolving absent or `null` labels by carry-over from the previous
    /// record. An empty array decodes to an empty sequence; an unlabeled
    /// first record is a structural error.
    pub fn decode(records: &Vec<RawRecord>) -> (r: Result<Elements, ElementsError>)
        ensures
            match r {
                Ok(es) => spec_decode_elements(records@) == Ok::<Seq<Element>, ElementsError>(
                    es.0@,
                ),
                Err(e) => spec_decode_elements(records@) == Err::<Seq<Element>, ElementsError>(e),
            },
            records@.len() == 0 ==> (r matches Ok(es) && es.0@.len() == 0),
            records@.len() > 0 && records@[0].label is Missing ==> r == Err::<
                Elements,
                ElementsError,
            >(ElementsError::UnlabeledFirst),
    {
        let mut out: Vec<Element> = Vec::new();
        let mut cur: Option<Tag> = None;
        let mut i: usize = 0;
        while i < records.len()
            invariant
                i <= records@.len(),
                out@.len() == i,
                spec_decode_elements(records@) == (match spec_decode_from(
                    records@,
                    i as int,
                    cur,
                ) {
                    Ok(rest) => Ok::<Seq<Element>, ElementsError>(out@ + rest),
                    Err(e) => Err::<Seq<Element>, ElementsError>(e),
                }),
            decreases records@.len() - i,
        {
            match decode_step(&records[i], i, cur) {
                Err(e) => {
                    proof {
                        reveal(spec_step);
                    }
                    return Err(e);
                },
                Ok(p) => {
                    let (t, el) = p;
                    proof {
                        let rest_or = spec_decode_from(records@, i + 1 as int, Some(t));
                        if rest_or is Ok {
                            assert(out@ + (seq![el] + rest_or->Ok_0) =~= out@.push(el)
                                + rest_or->Ok_0);
                        }
                    }
                    out.push(el);
                    cur = Some(t);
                    i = i + 1;
                },
            }
        }
        proof {
            reveal(spec_step);
            assert(out@ + Seq::<Element>::empty() =~= out@);
        }
        Ok(Elements(out))
    }
}

impl Event {
    /// Decode a whole event detail: the header against the unknown kind (its
    /// code must be the unknown kind's, its identifier `null`), then the
    /// element array.
    pub fn decode(federation_id: RawId, entity_type: RawCode, elements: &Vec<RawRecord>) -> (r:
        Result<Event, EventError>)
        ensures
            match r {
                Ok(ev) => EntityType::spec_decode(EntityType::Unknown, entity_type) == Ok::<
                    EntityType,
                    DecodeError,
                >(EntityType::Unknown) && EntityId::spec_decode(EntityType::Unknown, federation_id)
                    == Ok::<EntityId, DecodeError>(EntityId::Unit) && ev.entity_type
                    == EntityType::Unknown && ev.federation_id == EntityId::Unit
                    && spec_decode_elements(elements@) == Ok::<Seq<Element>, ElementsError>(
                    ev.elements.0@,
                ),
                Err(EventError::Header(e)) => EntityType::spec_decode(
                    EntityType::Unknown,
                    entity_type,
                ) == Err::<EntityType, DecodeError>(e) || (EntityType::spec_decode(
                    EntityType::Unknown,
                    entity_type,
                ) is Ok && EntityId::spec_decode(EntityType::Unknown, federation_id) == Err::<
                    EntityId,
                    DecodeError,
                >(e)),
                Err(EventError::Elements(e)) => EntityType::spec_decode(
                    EntityType::Unknown,
                    entity_type,
                ) is Ok && EntityId::spec_decode(EntityType::Unknown, federation_id) is Ok
                    && spec_decode_elements(elements@) == Err::<Seq<Element>, ElementsError>(e),
            },
    {
        let kind = EntityType::Unknown;
        match kind.decode(entity_type) {
            Err(e) => Err(EventError::Header(e)),
            Ok(_) => match EntityId::decode(kind, federation_id) {
                Err(e) => Err(EventError::Header(e)),
                Ok(id) => match Elements::decode(elements) {
                    Err(e) => Err(EventError::Elements(e)),
                    Ok(es) => Ok(Event { federation_id: id, entity_type: kind, elements: es }),
                },
            },
        }
    }
}

proof fn lemma_record_element_wf(tag: Tag, rec: RawRecord, pos: usize)
    ensures
        spec_decode_record(tag, rec, pos) matches Ok(el) ==> el.wf() && el.entity_type
            == tag.spec_kind(),
{
    reveal(spec_decode_record);
}

proof fn lemma_make_element_shape(tag: Tag, el: RawElement)
    ensures
        spec_make_element(tag, el).tag() == tag,
        spec_make_element(tag, el).raw() == el,
{
}

proof fn lemma_step_element(rec: RawRecord, pos: usize, cur: Option<Tag>)
    ensures
        spec_step(rec, pos, cur) matches Ok(p) ==> p.1.wf() && p.1.tag() == p.0,
        (spec_step(rec, pos, cur) is Ok && rec.label is Missing) ==> cur == Some(
            spec_step(rec, pos, cur)->Ok_0.0,
        ),
{
    reveal(spec_step);
    if spec_step(rec, pos, cur) is Ok {
        let p = spec_step(rec, pos, cur)->Ok_0;
        let el = spec_decode_record(p.0, rec, pos)->Ok_0;
        lemma_record_element_wf(p.0, rec, pos);
        lemma_make_element_shape(p.0, el);
    }
}

proof fn lemma_decode_from_len_wf(
    records: Seq<RawRecord>,
    i: int,
    cur: Option<Tag>,
    s: Seq<Element>,
)
    requires
        0 <= i <= records.len(),
        spec_decode_from(records, i, cur) == Ok::<Seq<Element>, ElementsError>(s),
    ensures
        s.len() == records.len() - i,
        forall|j: int| 0 <= j < s.len() ==> (#[trigger] s[j]).wf(),
    decreases records.len() - i,
{
    if i < records.len() {
        let step = spec_step(records[i], i as usize, cur);
        let t = step->Ok_0.0;
        let el = step->Ok_0.1;
        lemma_step_element(records[i], i as usize, cur);
        let rest = spec_decode_from(records, i + 1, Some(t))->Ok_0;
        lemma_decode_from_len_wf(records, i + 1, Some(t), rest);
        assert(s == seq![el] + rest);
        assert forall|j: int| 0 <= j < s.len() implies (#[trigger] s[j]).wf() by {
            if j > 0 {
                assert(s[j] == rest[j - 1]);
            } else {
                assert(s[0] == el);
            }
        }
    }
}

proof fn lemma_from_carry(
    records: Seq<RawRecord>,
    k: int,
    cur: Option<Tag>,
    s: Seq<Element>,
    p: int,
)
    requires
        0 <= k <= records.len(),
        spec_decode_from(records, k, cur) == Ok::<Seq<Element>, ElementsError>(s),
        k <= p < records.len(),
        records[p].label is Missing,
    ensures
        s.len() == records.len() - k,
        p == k ==> cur == Some(s[0].tag()),
        p > k ==> s[p - k].tag() == s[p - k - 1].tag(),
    decreases records.len() - k,
{
    let step = spec_step(records[k], k as usize, cur);
    let t = step->Ok_0.0;
    let el = step->Ok_0.1;
    lemma_step_element(records[k], k as usize, cur);
    let rest = spec_decode_from(records, k + 1, Some(t))->Ok_0;
    assert(s == seq![el] + rest);
    assert(s[0] == el);
    if p == k {
        lemma_decode_from_len_wf(records, k + 1, Some(t), rest);
    } else {
        lemma_from_carry(records, k + 1, Some(t), rest, p);
        assert(s[p - k] == rest[p - k - 1]);
        if p == k + 1 {
            assert(Some(t) == Some(rest[0].tag()));
        } else {
            assert(s[p - k - 1] == rest[p - k - 2]);
        }
    }
}

/// Law: a successful decode yields exactly one element per record, and every
/// element's contained kind is the kind its variant dictates, with an
/// identifier of that kind's shape.
pub proof fn lemma_decode_elements_wf(records: Seq<RawRecord>, es: Seq<Element>)
    requires
        spec_decode_elements(records) == Ok::<Seq<Element>, ElementsError>(es),
    ensures
        es.len() == records.len(),
        forall|j: int| 0 <= j < es.len() ==> (#[trigger] es[j]).wf(),
{
    lemma_decode_from_len_wf(records, 0, None, es);
}

/// Law: sticky carry-over. In a successfully decoded sequence, an element
/// whose record had an absent or `null` label carries the same tag as the
/// element before it.
pub proof fn lemma_carry_over(records: Seq<RawRecord>, es: Seq<Element>, i: int)
    requires
        spec_decode_elements(records) == Ok::<Seq<Element>, ElementsError>(es),
        0 < i < records.len(),
        records[i].label is Missing,
    ensures
        es.len() == records.len(),
        es[i].tag() == es[i - 1].tag(),
{
    lemma_from_carry(records, 0, None, es, i);
}

} // verus!

