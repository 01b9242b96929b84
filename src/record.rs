//! Reconciling the address record: create it where none exists, update it in
//! place where one does, and refuse where several do.
use vstd::prelude::*;
use crate::error::UpdateError;
use crate::zone::views;

verus! {

/// The kind of address record.
#[derive(Debug, Clone, Copy, PartialEq, Eq, Structural)]
pub enum RecordType {
    /// An IPv4 address record.
    A,
    /// An IPv6 address record.
    Aaaa,
}

impl RecordType {
    /// The record type's name as the provider spells it.
    pub open spec fn name(&self) -> Seq<char> {
        match self {
            RecordType::A => seq!['A'],
            RecordType::Aaaa => seq!['A', 'A', 'A', 'A'],
        }
    }

    /// The record type's name as the provider spells it.
    pub fn as_str(&self) -> (r: &'static str)
        ensures
            r@ == self.name(),
    {
        proof {
            reveal_strlit("A");
            reveal_strlit("AAAA");
        }
        match self {
            RecordType::A => {
                assert("A"@ =~= seq!['A']);
                "A"
            },
            RecordType::Aaaa => {
                assert("AAAA"@ =~= seq!['A', 'A', 'A', 'A']);
                "AAAA"
            },
        }
    }
}

/// The record to keep in place: fixed for a run.
#[derive(Debug, Clone)]
pub struct Target {
    /// The fully qualified domain name of the record.
    pub domain: String,
    pub record_type: RecordType,
    /// Whether the provider proxies traffic for the record.
    pub proxied: bool,
    /// An explicit time to live; the provider's default where `None`.
    pub ttl: Option<u32>,
}

/// A member of a record request body.
#[derive(Debug, Clone, Copy, PartialEq, Eq, Structural)]
pub enum Field {
    Name,
    Type,
    Content,
    Ttl,
    Proxied,
}

impl Field {
    /// The member's key in the request body.
    pub open spec fn key_text(&self) -> Seq<char> {
        match self {
            Field::Name => "name"@,
            Field::Type => "type"@,
            Field::Content => "content"@,
            Field::Ttl => "ttl"@,
            Field::Proxied => "proxied"@,
        }
    }

    /// The member's key in the request body.
    pub fn key(&self) -> (r: &'static str)
        ensures
            r@ == self.key_text(),
    {
        match self {
            Field::Name => "name",
            Field::Type => "type",
            Field::Content => "content",
            Field::Ttl => "ttl",
            Field::Proxied => "proxied",
        }
    }
}

/// The value of a request body member.
#[derive(Debug, Clone, PartialEq, Eq)]
pub enum FieldValue {
    Text(String),
    Number(u32),
    Flag(bool),
}

/// The mathematical form of [`FieldValue`].
pub enum FieldValueView {
    Text(Seq<char>),
    Number(u32),
    Flag(bool),
}

impl View for FieldValue {
    type V = FieldValueView;

    open spec fn view(&self) -> FieldValueView {
        match self {
            FieldValue::Text(s) => FieldValueView::Text(s@),
            FieldValue::Number(n) => FieldValueView::Number(*n),
            FieldValue::Flag(b) => FieldValueView::Flag(*b),
        }
    }
}

/// One member of a request body, in the order it is sent.
#[derive(Debug, Clone, PartialEq, Eq)]
pub struct Member {
    pub field: Field,
    pub value: FieldValue,
}

impl View for Member {
    type V = (Field, FieldValueView);

    open spec fn view(&self) -> (Field, FieldValueView) {
        (self.field, self.value@)
    }
}

/// The views of the members of a body.
pub open spec fn body_view(b: Seq<Member>) -> Seq<(Field, FieldValueView)> {
    b.map_values(|m: Member| m@)
}

/// A write request to the provider.
#[derive(Debug, Clone, PartialEq, Eq)]
pub enum Write {
    /// Create a record in the zone.
    Create { zone_id: String, body: Vec<Member> },
    /// Change the record with the given id in the zone.
    Update { zone_id: String, record_id: String, body: Vec<Member> },
}

/// The mathematical form of [`Write`].
pub enum WriteView {
    Create { zone_id: Seq<char>, body: Seq<(Field, FieldValueView)> },
    Update { zone_id: Seq<char>, record_id: Seq<char>, body: Seq<(Field, FieldValueView)> },
}

impl View for Write {
    type V = WriteView;

    open spec fn view(&self) -> WriteView {
        match self {
            Write::Create { zone_id, body } => WriteView::Create {
                zone_id: zone_id@,
                body: body_view(body@),
            },
            Write::Update { zone_id, record_id, body } => WriteView::Update {
                zone_id: zone_id@,
                record_id: record_id@,
                body: body_view(body@),
            },
        }
    }
}

/// The members that set a record's address: its content, the time to live
/// where one is given, and the proxy flag.
pub open spec fn address_members(address: Seq<char>, target: Target) -> Seq<(Field, FieldValueView)> {
    seq![(Field::Content, FieldValueView::Text(address))] + match target.ttl {
        Some(t) => seq![(Field::Ttl, FieldValueView::Number(t))],
        None => Seq::empty(),
    } + seq![(Field::Proxied, FieldValueView::Flag(target.proxied))]
}

/// The body that creates a record: name and type, then the address members.
pub open spec fn create_body(address: Seq<char>, target: Target) -> Seq<(Field, FieldValueView)> {
    seq![
        (Field::Name, FieldValueView::Text(target.domain@)),
        (Field::Type, FieldValueView::Text(target.record_type.name())),
    ] + address_members(address, target)
}

/// Whether a body holds a member for `f`.
pub open spec fn has_field(body: Seq<(Field, FieldValueView)>, f: Field) -> bool {
    exists|i: int| 0 <= i < body.len() && (#[trigger] body[i]).0 == f
}

fn address_member_vec(address: &str, target: &Target) -> (r: Vec<Member>)
    ensures
        body_view(r@) == address_members(address@, *target),
{
    let mut r: Vec<Member> = Vec::new();
    r.push(Member { field: Field::Content, value: FieldValue::Text(String::from_str(address)) });
    match target.ttl {
        Some(t) => r.push(Member { field: Field::Ttl, value: FieldValue::Number(t) }),
        None => {},
    }
    r.push(Member { field: Field::Proxied, value: FieldValue::Flag(target.proxied) });
    assert(body_view(r@) =~= address_members(address@, *target));
    r
}

/// The request that creates the target's record in the zone, pointed at `address`.
pub fn create_record(zone_id: &str, target: &Target, address: &str) -> (r: Write)
    ensures
        r@ == (WriteView::Create { zone_id: zone_id@, body: create_body(address@, *target) }),
        has_field(create_body(address@, *target), Field::Name),
        has_field(create_body(address@, *target), Field::Type),
{
    let mut body: Vec<Member> = Vec::new();
    body.push(Member { field: Field::Name, value: FieldValue::Text(target.domain.clone()) });
    body.push(
        Member {
            field: Field::Type,
            value: FieldValue::Text(String::from_str(target.record_type.as_str())),
        },
    );
    let mut rest = address_member_vec(address, target);
    body.append(&mut rest);
    let ghost b = create_body(address@, *target);
    assert(body_view(body@) =~= b);
    assert(b[0].0 == Field::Name);
    assert(b[1].0 == Field::Type);
    Write::Create { zone_id: String::from_str(zone_id), body }
}

/// The request that points the record `record_id` of the zone at `address`.
/// Its body leaves the name and the type out.
pub fn update_record(zone_id: &str, record_id: String, target: &Target, address: &str) -> (r: Write)
    ensures
        r@ == (WriteView::Update {
            zone_id: zone_id@,
            record_id: record_id@,
            body: address_members(address@, *target),
        }),
        !has_field(address_members(address@, *target), Field::Name),
        !has_field(address_members(address@, *target), Field::Type),
{
    let body = address_member_vec(address, target);
    Write::Update { zone_id: String::from_str(zone_id), record_id, body }
}

/// The write that a pass owes, given the ids of the records that already have
/// the target's name and type; `None` where there are several.
pub open spec fn reconcile_of(
    zone_id: Seq<char>,
    target: Target,
    address: Seq<char>,
    ids: Seq<Seq<char>>,
) -> Option<WriteView> {
    if ids.len() == 0 {
        Some(WriteView::Create { zone_id, body: create_body(address, target) })
    } else if ids.len() == 1 {
        Some(
            WriteView::Update { zone_id, record_id: ids[0], body: address_members(address, target) },
        )
    } else {
        None
    }
}

/// Decides the write for the target's record in the zone, given the ids of
/// the records that the provider listed for the target's name and type.
pub fn reconcile(zone_id: &str, target: &Target, address: &str, record_ids: Vec<String>) -> (r:
    Result<Write, UpdateError>)
    ensures
        match r {
            Ok(w) => reconcile_of(zone_id@, *target, address@, views(record_ids@)) == Some(w@),
            Err(e) => e == UpdateError::MultipleRecordsFound,
        },
        r is Err <==> record_ids@.len() >= 2,
{
    let mut record_ids = record_ids;
    if record_ids.len() == 0 {
        Ok(create_record(zone_id, target, address))
    } else if record_ids.len() == 1 {
        let id = record_ids.pop().unwrap();
        Ok(update_record(zone_id, id, target, address))
    } else {
        Err(UpdateError::MultipleRecordsFound)
    }
}

/// The record ids after the provider carried out `w`, where a created record gets `new_id`.
pub open spec fn after_write(ids: Seq<Seq<char>>, w: WriteView, new_id: Seq<char>) -> Seq<Seq<char>> {
    match w {
        WriteView::Create { .. } => ids.push(new_id),
        WriteView::Update { .. } => ids,
    }
}

/// Reconciling twice with the same address, with nothing else changing the
/// records in between, creates at most once: the first pass creates only
/// where no record existed, the second updates the one record then there,
/// and one record is left.
pub proof fn lemma_reconcile_twice(
    zone_id: Seq<char>,
    target: Target,
    address: Seq<char>,
    ids: Seq<Seq<char>>,
    new_id: Seq<char>,
)
    requires
        ids.len() <= 1,
    ensures
        reconcile_of(zone_id, target, address, ids) matches Some(first) && (first is Create
            <==> ids.len() == 0) && ({
            let ids1 = after_write(ids, first, new_id);
            reconcile_of(zone_id, target, address, ids1) matches Some(second) && second is Update
                && after_write(ids1, second, new_id).len() == 1
        }),
{
}

} // verus!
