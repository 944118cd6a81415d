use vstd::prelude::*;
use vstd::std_specs::cmp::PartialEqSpecImpl;
use crate::constants::Coordinates;
use crate::text::{decimal, signed_decimal, prefixed_lower_hex, push_decimal,
    push_signed_decimal, push_prefixed_lower_hex, digits_value, radix_digits, all_decimal_digits, all_hex_digits, reads_as_signed,
    lemma_radix_digits_read_back, lemma_signed_decimal_reads_back};

verus! {

/// What kind of check a location is.
#[derive(Debug, Clone, Copy, PartialEq, Eq, Structural)]
pub enum LocationType {
    Standard,
    MissionComplete,
    SSRank,
    PurchaseItem,
}

/// A location check that the game reports to the Archipelago server.
#[derive(Debug, Clone, Copy)]
pub struct Location {
    pub location_type: LocationType,
    pub item_id: u32,
    pub room: i32,
    pub mission: u32,
    pub coordinates: Coordinates,
    pub to_display: bool,
}

impl Location {
    /// Two checks are the same check when they are at the same coordinates in
    /// the same room and hold the same item; the kind, the mission and the
    /// display flag play no part.
    pub open spec fn same_check(self, other: Location) -> bool {
        &&& self.coordinates == other.coordinates
        &&& self.room == other.room
        &&& self.item_id == other.item_id
    }

    /// The text a location is shown and logged with.
    pub open spec fn display_text(self) -> Seq<char> {
        "Mission: "@ + decimal(self.mission as nat) + " Room ID: "@ + signed_decimal(
            self.room as int,
        ) + " Item ID: "@ + prefixed_lower_hex(self.item_id as nat)
    }

    /// `Mission: {mission} Room ID: {room} Item ID: {item_id:#x}`.
    pub fn to_display_string(&self) -> (s: String)
        ensures
            s@ == self.display_text(),
    {
        let mut s = String::new();
        s.append("Mission: ");
        push_decimal(&mut s, self.mission as u64);
        s.append(" Room ID: ");
        push_signed_decimal(&mut s, self.room as i64);
        s.append(" Item ID: ");
        push_prefixed_lower_hex(&mut s, self.item_id as u64);
        assert(s@ =~= self.display_text());
        s
    }
}

impl PartialEq for Location {
    fn eq(&self, other: &Self) -> (r: bool) {
        self.coordinates == other.coordinates && self.room == other.room && self.item_id
            == other.item_id
    }
}

impl PartialEqSpecImpl for Location {
    open spec fn obeys_eq_spec() -> bool {
        true
    }

    open spec fn eq_spec(&self, other: &Location) -> bool {
        self.same_check(*other)
    }
}

/// Being the same check is an equivalence: reflexive, symmetric and transitive.
pub proof fn lemma_same_check_is_equivalence(a: Location, b: Location, c: Location)
    ensures
        a.same_check(a),
        a.same_check(b) == b.same_check(a),
        a.same_check(b) && b.same_check(c) ==> a.same_check(c),
{
}

/// Changing a location's kind, mission or display flag leaves it the same check.
pub proof fn lemma_same_check_ignores_metadata(
    a: Location,
    location_type: LocationType,
    mission: u32,
    to_display: bool,
)
    ensures
        a.same_check(Location { location_type, mission, to_display, ..a }),
{
}

/// Two locations are the same check exactly when all three coordinates, the
/// room and the item id agree.
pub proof fn lemma_same_check_compares_all_of_place_room_item(a: Location, b: Location)
    ensures
        a.same_check(b) <==> (a.coordinates.x == b.coordinates.x && a.coordinates.y
            == b.coordinates.y && a.coordinates.z == b.coordinates.z && a.room == b.room
            && a.item_id == b.item_id),
{
}

/// The display text is `Mission: `, the mission in decimal, ` Room ID: `, the
/// room as a signed decimal, ` Item ID: 0x` and the item id in hex digits:
/// each field reads back as the location's value.
pub proof fn lemma_display_text_reads_back(loc: Location)
    ensures
        exists|m: Seq<char>, r: Seq<char>, h: Seq<char>|
            {
                &&& loc.display_text() == "Mission: "@ + m + " Room ID: "@ + r + " Item ID: 0x"@ + h
                &&& all_decimal_digits(m) && digits_value(m, 10) == loc.mission
                &&& reads_as_signed(r, loc.room as int)
                &&& all_hex_digits(h) && digits_value(h, 16) == loc.item_id
            },
{
    let m = radix_digits(loc.mission as nat, 10);
    let r = signed_decimal(loc.room as int);
    let h = radix_digits(loc.item_id as nat, 16);
    lemma_radix_digits_read_back(loc.mission as nat, 10);
    lemma_radix_digits_read_back(loc.item_id as nat, 16);
    lemma_signed_decimal_reads_back(loc.room as int);
    if loc.room < 0 {
        lemma_radix_digits_read_back((-loc.room) as nat, 10);
        assert(r.drop_first() =~= radix_digits((-loc.room) as nat, 10));
    } else {
        lemma_radix_digits_read_back(loc.room as nat, 10);
    }
    reveal_strlit(" Item ID: ");
    reveal_strlit(" Item ID: 0x");
    assert(" Item ID: "@ + prefixed_lower_hex(loc.item_id as nat) =~= " Item ID: 0x"@ + h);
    assert(loc.display_text() =~= "Mission: "@ + m + " Room ID: "@ + r + " Item ID: 0x"@ + h);
}

} // verus!
