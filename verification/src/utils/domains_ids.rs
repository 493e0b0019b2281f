//! Identifiers of the stored documents: the twelve bytes of a BSON object id,
//! written as twenty-four hexadecimal digits in text.
use vstd::prelude::*;

verus! {

/// The twelve bytes of a BSON object id.
#[derive(Clone, Copy, Debug)]
pub struct EntityId {
    pub bytes: [u8; 12],
}

pub type TenantID = EntityId;

pub type OrganizationID = EntityId;

pub type AgencyID = EntityId;

pub type PlanID = EntityId;

pub type MenuItemID = EntityId;

impl View for EntityId {
    type V = Seq<u8>;

    open spec fn view(&self) -> Seq<u8> {
        self.bytes@
    }
}

/// The value of a hexadecimal digit, either case.
pub open spec fn hex_digit_value(c: char) -> Option<int> {
    if '0' <= c && c <= '9' {
        Some(c as int - '0' as int)
    } else if 'a' <= c && c <= 'f' {
        Some(c as int - 'a' as int + 10)
    } else if 'A' <= c && c <= 'F' {
        Some(c as int - 'A' as int + 10)
    } else {
        None
    }
}

/// The lower-case hexadecimal digit of a value below sixteen.
pub open spec fn hex_digit_lower(v: int) -> char {
    if v < 10 {
        (v + '0' as int) as char
    } else {
        (v - 10 + 'a' as int) as char
    }
}

/// Lower-case hexadecimal text of a byte string: two digits per byte, high half first.
pub open spec fn hex_encode(bytes: Seq<u8>) -> Seq<char> {
    Seq::new(
        2 * bytes.len(),
        |i: int|
            if i % 2 == 0 {
                hex_digit_lower(bytes[i / 2] as int / 16)
            } else {
                hex_digit_lower(bytes[i / 2] as int % 16)
            },
    )
}

/// The object id that a text names: exactly twenty-four hexadecimal digits,
/// two per byte, high half first.
pub open spec fn hex_decode_id(text: Seq<char>) -> Option<Seq<u8>> {
    if text.len() == 24 && forall|i: int| 0 <= i < 24 ==> #[trigger] hex_digit_value(text[i]) is Some {
        Some(
            Seq::new(
                12,
                |i: int|
                    (hex_digit_value(text[2 * i])->0 * 16 + hex_digit_value(text[2 * i + 1])->0) as u8,
            ),
        )
    } else {
        None
    }
}

/// `ObjectId::parse_str` of the bson crate (through mongodb): the text is decoded
/// as hex (either case) and must give exactly twelve bytes.
#[verifier::external_body]
fn bson_parse_object_id(text: &str) -> (res: Option<[u8; 12]>)
    ensures
        res is Some <==> hex_decode_id(text@) is Some,
        res matches Some(b) ==> b@ == hex_decode_id(text@)->0,
{
    match mongodb::bson::oid::ObjectId::parse_str(text) {
        Ok(oid) => Some(oid.bytes()),
        Err(_) => None,
    }
}

/// `ObjectId::to_hex` of the bson crate (through mongodb): the lower-case hex
/// encoding of the twelve bytes.
#[verifier::external_body]
fn bson_object_id_hex(bytes: [u8; 12]) -> (res: String)
    ensures
        res@ == hex_encode(bytes@),
{
    mongodb::bson::oid::ObjectId::from_bytes(bytes).to_hex()
}

/// `ObjectId::new` of the bson crate (through mongodb): a fresh id made of the
/// clock, a value drawn once per process and a counter. Nothing is claimed of
/// its bytes. The call panics when the system clock reads a time before 1970
/// or after 2106, a condition on the machine that no `requires` can name.
#[verifier::external_body]
fn bson_new_object_id() -> (bytes: [u8; 12]) {
    mongodb::bson::oid::ObjectId::new().bytes()
}

impl EntityId {
    /// A fresh id for a document about to be stored for the first time.
    pub fn new() -> (id: EntityId) {
        EntityId { bytes: bson_new_object_id() }
    }

    /// Reads an id from its hexadecimal text.
    pub fn parse_str(text: &str) -> (res: Option<EntityId>)
        ensures
            res is Some <==> hex_decode_id(text@) is Some,
            res matches Some(id) ==> id@ == hex_decode_id(text@)->0,
    {
        match bson_parse_object_id(text) {
            Some(bytes) => Some(EntityId { bytes }),
            None => None,
        }
    }

    /// The lower-case hexadecimal text of the id.
    pub fn to_hex(&self) -> (res: String)
        ensures
            res@ == hex_encode(self@),
    {
        bson_object_id_hex(self.bytes)
    }

    /// Whether two ids name the same document.
    pub fn same_as(&self, other: &EntityId) -> (res: bool)
        ensures
            res == (self@ == other@),
    {
        let mut i: usize = 0;
        while i < 12
            invariant
                i <= 12,
                self@.len() == 12,
                other@.len() == 12,
                forall|j: int| 0 <= j < i ==> self@[j] == other@[j],
            decreases 12 - i,
        {
            if self.bytes[i] != other.bytes[i] {
                return false;
            }
            i = i + 1;
        }
        assert(self@ =~= other@);
        true
    }
}

/// Every id reads back from its own text: parsing the hex text of an id gives the id.
pub proof fn lemma_hex_round_trip(id: EntityId)
    ensures
        hex_decode_id(hex_encode(id@)) == Some(id@),
{
    let b = id@;
    let t = hex_encode(b);
    assert(b.len() == 12);
    assert forall|i: int| 0 <= i < 24 implies #[trigger] hex_digit_value(t[i]) is Some by {
        lemma_digit_round_trip(b[i / 2] as int / 16);
        lemma_digit_round_trip(b[i / 2] as int % 16);
    }
    let d = hex_decode_id(t)->0;
    assert forall|i: int| 0 <= i < 12 implies d[i] == b[i] by {
        lemma_digit_round_trip(b[i] as int / 16);
        lemma_digit_round_trip(b[i] as int % 16);
        assert(t[2 * i] == hex_digit_lower(b[(2 * i) / 2] as int / 16));
        assert((2 * i) / 2 == i);
        assert((2 * i + 1) / 2 == i);
        assert((2 * i + 1) % 2 == 1);
        assert((2 * i) % 2 == 0);
        assert(t[2 * i + 1] == hex_digit_lower(b[(2 * i + 1) / 2] as int % 16));
        assert(b[i] as int / 16 * 16 + b[i] as int % 16 == b[i] as int);
    }
    assert(d =~= b);
}

proof fn lemma_digit_round_trip(v: int)
    requires
        0 <= v < 16,
    ensures
        hex_digit_value(hex_digit_lower(v)) == Some(v),
{
}

} // verus!

verus! {

/// The bytes of an optional id.
pub open spec fn opt_id_view(id: Option<EntityId>) -> Option<Seq<u8>> {
    match id {
        Some(i) => Some(i@),
        None => None,
    }
}

} // verus!
