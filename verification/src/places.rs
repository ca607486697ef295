//! The table of prominent places the map can label behind the `p` key:
//! cities and ground stations, each with its position in hundredths of a
//! degree and a prominence tier. The table is kept in tier order, so the
//! map's label walk spends the few slots a whole-world view has on the most
//! prominent places first, with no sort of its own.

use vstd::prelude::*;

verus! {

/// What a place is, which picks its glyph on the map.
#[derive(Clone, Copy, Debug, PartialEq, Eq, Structural)]
pub enum Kind {
    /// A city, drawn `·`.
    City,
    /// A satellite ground or tracking station, drawn `+`.
    Station,
}

/// A reference point: its name, position (hundredths of a degree, north and
/// east positive) and prominence tier, 0 highest.
#[derive(Clone, Copy, Debug, PartialEq, Eq)]
pub struct Place {
    pub name: &'static str,
    pub lat_cdeg: i32,
    pub lon_cdeg: i32,
    pub kind: Kind,
    pub tier: u8,
}

impl Place {
    /// The map glyph for this place's kind.
    pub fn glyph(&self) -> (g: &'static str)
        ensures
            g@ == (if self.kind == Kind::City { "·"@ } else { "+"@ }),
    {
        match self.kind {
            Kind::City => "·",
            Kind::Station => "+",
        }
    }
}

/// Whether `p` lies on the globe.
pub open spec fn on_globe(p: Place) -> bool {
    -9000 <= p.lat_cdeg <= 9000 && -18000 <= p.lon_cdeg <= 18000
}

/// Every place in `s` lies on the globe and the tiers never go back down,
/// so walking the table in order is walking it in prominence order.
#[verifier::opaque]
pub open spec fn well_ordered(s: Seq<Place>) -> bool {
    &&& forall|i: int| 0 <= i < s.len() ==> on_globe(#[trigger] s[i])
    &&& forall|i: int, j: int| 0 <= i <= j < s.len() ==> #[trigger] s[i].tier <= #[trigger] s[j].tier
}

fn put(v: &mut Vec<Place>, p: Place)
    requires
        on_globe(p),
        old(v)@.len() > 0 ==> old(v)@.last().tier <= p.tier,
    ensures
        final(v)@ == old(v)@.push(p),
        well_ordered(old(v)@) ==> well_ordered(final(v)@),
{
    v.push(p);
    proof {
        reveal(well_ordered);
        if well_ordered(old(v)@) {
            assert forall|i: int, j: int| 0 <= i <= j < v@.len() implies #[trigger] v@[i].tier <= #[trigger] v@[j].tier by {
                if j == v@.len() - 1 && i < j {
                    assert(v@[i] == old(v)@[i]);
                    assert(old(v)@[i].tier <= old(v)@.last().tier);
                } else if j < v@.len() - 1 {
                    assert(v@[i] == old(v)@[i] && v@[j] == old(v)@[j]);
                }
            }
            assert forall|i: int| 0 <= i < v@.len() implies on_globe(#[trigger] v@[i]) by {
                if i < v@.len() - 1 {
                    assert(v@[i] == old(v)@[i]);
                }
            }
        }
    }
}

/// Number of places in the table.
pub const PLACE_COUNT: usize = 176;

/// The tier-0 places, in table order.
pub open spec fn tier_0_places() -> Seq<Place> {
    seq![
        Place { name: "Tokyo", lat_cdeg: 3568, lon_cdeg: 13977, kind: Kind::City, tier: 0 },
        Place { name: "London", lat_cdeg: 5151, lon_cdeg: -13i32, kind: Kind::City, tier: 0 },
        Place { name: "New York", lat_cdeg: 4071, lon_cdeg: -7401i32, kind: Kind::City, tier: 0 },
        Place { name: "Beijing", lat_cdeg: 3990, lon_cdeg: 11641, kind: Kind::City, tier: 0 },
        Place { name: "Moscow", lat_cdeg: 5576, lon_cdeg: 3762, kind: Kind::City, tier: 0 },
        Place { name: "Delhi", lat_cdeg: 2861, lon_cdeg: 7721, kind: Kind::City, tier: 0 },
        Place { name: "São Paulo", lat_cdeg: -2355i32, lon_cdeg: -4663i32, kind: Kind::City, tier: 0 },
        Place { name: "Cairo", lat_cdeg: 3004, lon_cdeg: 3124, kind: Kind::City, tier: 0 },
        Place { name: "Lagos", lat_cdeg: 652, lon_cdeg: 338, kind: Kind::City, tier: 0 },
        Place { name: "Sydney", lat_cdeg: -3387i32, lon_cdeg: 15121, kind: Kind::City, tier: 0 },
        Place { name: "Los Angeles", lat_cdeg: 3405, lon_cdeg: -11824i32, kind: Kind::City, tier: 0 },
        Place { name: "Mexico City", lat_cdeg: 1943, lon_cdeg: -9913i32, kind: Kind::City, tier: 0 },
    ]
}

/// Tier 0: A dozen anchors spread right round the globe.
fn tier_0(v: &mut Vec<Place>)
    requires
        old(v)@.len() > 0 ==> old(v)@.last().tier <= 0,
    ensures
        final(v)@ == old(v)@ + tier_0_places(),
        final(v)@.last().tier == 0,
        well_ordered(old(v)@) ==> well_ordered(final(v)@),
{
    let ghost start = v@;
    put(v, Place { name: "Tokyo", lat_cdeg: 3568, lon_cdeg: 13977, kind: Kind::City, tier: 0 });
    put(v, Place { name: "London", lat_cdeg: 5151, lon_cdeg: -13, kind: Kind::City, tier: 0 });
    put(v, Place { name: "New York", lat_cdeg: 4071, lon_cdeg: -7401, kind: Kind::City, tier: 0 });
    put(v, Place { name: "Beijing", lat_cdeg: 3990, lon_cdeg: 11641, kind: Kind::City, tier: 0 });
    put(v, Place { name: "Moscow", lat_cdeg: 5576, lon_cdeg: 3762, kind: Kind::City, tier: 0 });
    put(v, Place { name: "Delhi", lat_cdeg: 2861, lon_cdeg: 7721, kind: Kind::City, tier: 0 });
    put(v, Place { name: "São Paulo", lat_cdeg: -2355, lon_cdeg: -4663, kind: Kind::City, tier: 0 });
    put(v, Place { name: "Cairo", lat_cdeg: 3004, lon_cdeg: 3124, kind: Kind::City, tier: 0 });
    put(v, Place { name: "Lagos", lat_cdeg: 652, lon_cdeg: 338, kind: Kind::City, tier: 0 });
    put(v, Place { name: "Sydney", lat_cdeg: -3387, lon_cdeg: 15121, kind: Kind::City, tier: 0 });
    put(v, Place { name: "Los Angeles", lat_cdeg: 3405, lon_cdeg: -11824, kind: Kind::City, tier: 0 });
    put(v, Place { name: "Mexico City", lat_cdeg: 1943, lon_cdeg: -9913, kind: Kind::City, tier: 0 });
    assert(v@ =~= start + tier_0_places());
}

/// The tier-1 places, in table order.
pub open spec fn tier_1_places() -> Seq<Place> {
    seq![
        Place { name: "Paris", lat_cdeg: 4886, lon_cdeg: 235, kind: Kind::City, tier: 1 },
        Place { name: "Berlin", lat_cdeg: 5252, lon_cdeg: 1340, kind: Kind::City, tier: 1 },
        Place { name: "Madrid", lat_cdeg: 4042, lon_cdeg: -370i32, kind: Kind::City, tier: 1 },
        Place { name: "Rome", lat_cdeg: 4190, lon_cdeg: 1250, kind: Kind::City, tier: 1 },
        Place { name: "Istanbul", lat_cdeg: 4101, lon_cdeg: 2898, kind: Kind::City, tier: 1 },
        Place { name: "Kyiv", lat_cdeg: 5045, lon_cdeg: 3052, kind: Kind::City, tier: 1 },
        Place { name: "Lisbon", lat_cdeg: 3872, lon_cdeg: -914i32, kind: Kind::City, tier: 1 },
        Place { name: "Amsterdam", lat_cdeg: 5237, lon_cdeg: 490, kind: Kind::City, tier: 1 },
        Place { name: "Stockholm", lat_cdeg: 5933, lon_cdeg: 1806, kind: Kind::City, tier: 1 },
        Place { name: "Warsaw", lat_cdeg: 5223, lon_cdeg: 2101, kind: Kind::City, tier: 1 },
        Place { name: "Athens", lat_cdeg: 3798, lon_cdeg: 2373, kind: Kind::City, tier: 1 },
        Place { name: "Tehran", lat_cdeg: 3569, lon_cdeg: 5139, kind: Kind::City, tier: 1 },
        Place { name: "Riyadh", lat_cdeg: 2471, lon_cdeg: 4668, kind: Kind::City, tier: 1 },
        Place { name: "Dubai", lat_cdeg: 2520, lon_cdeg: 5527, kind: Kind::City, tier: 1 },
        Place { name: "Baghdad", lat_cdeg: 3331, lon_cdeg: 4436, kind: Kind::City, tier: 1 },
        Place { name: "Karachi", lat_cdeg: 2486, lon_cdeg: 6701, kind: Kind::City, tier: 1 },
        Place { name: "Mumbai", lat_cdeg: 1908, lon_cdeg: 7288, kind: Kind::City, tier: 1 },
        Place { name: "Kolkata", lat_cdeg: 2257, lon_cdeg: 8836, kind: Kind::City, tier: 1 },
        Place { name: "Dhaka", lat_cdeg: 2381, lon_cdeg: 9041, kind: Kind::City, tier: 1 },
        Place { name: "Bangkok", lat_cdeg: 1376, lon_cdeg: 10050, kind: Kind::City, tier: 1 },
        Place { name: "Singapore", lat_cdeg: 135, lon_cdeg: 10382, kind: Kind::City, tier: 1 },
        Place { name: "Jakarta", lat_cdeg: -621i32, lon_cdeg: 10685, kind: Kind::City, tier: 1 },
        Place { name: "Manila", lat_cdeg: 1460, lon_cdeg: 12098, kind: Kind::City, tier: 1 },
        Place { name: "Shanghai", lat_cdeg: 3123, lon_cdeg: 12147, kind: Kind::City, tier: 1 },
        Place { name: "Hong Kong", lat_cdeg: 2232, lon_cdeg: 11417, kind: Kind::City, tier: 1 },
        Place { name: "Seoul", lat_cdeg: 3757, lon_cdeg: 12698, kind: Kind::City, tier: 1 },
        Place { name: "Toronto", lat_cdeg: 4365, lon_cdeg: -7938i32, kind: Kind::City, tier: 1 },
        Place { name: "Chicago", lat_cdeg: 4188, lon_cdeg: -8763i32, kind: Kind::City, tier: 1 },
        Place { name: "Houston", lat_cdeg: 2976, lon_cdeg: -9537i32, kind: Kind::City, tier: 1 },
        Place { name: "San Francisco", lat_cdeg: 3777, lon_cdeg: -12242i32, kind: Kind::City, tier: 1 },
        Place { name: "Vancouver", lat_cdeg: 4928, lon_cdeg: -12312i32, kind: Kind::City, tier: 1 },
        Place { name: "Bogotá", lat_cdeg: 471, lon_cdeg: -7407i32, kind: Kind::City, tier: 1 },
        Place { name: "Lima", lat_cdeg: -1205i32, lon_cdeg: -7704i32, kind: Kind::City, tier: 1 },
        Place { name: "Santiago", lat_cdeg: -3345i32, lon_cdeg: -7067i32, kind: Kind::City, tier: 1 },
        Place { name: "Buenos Aires", lat_cdeg: -3460i32, lon_cdeg: -5838i32, kind: Kind::City, tier: 1 },
        Place { name: "Rio de Janeiro", lat_cdeg: -2291i32, lon_cdeg: -4317i32, kind: Kind::City, tier: 1 },
        Place { name: "Johannesburg", lat_cdeg: -2620i32, lon_cdeg: 2805, kind: Kind::City, tier: 1 },
        Place { name: "Nairobi", lat_cdeg: -129i32, lon_cdeg: 3682, kind: Kind::City, tier: 1 },
        Place { name: "Kinshasa", lat_cdeg: -432i32, lon_cdeg: 1531, kind: Kind::City, tier: 1 },
        Place { name: "Casablanca", lat_cdeg: 3357, lon_cdeg: -759i32, kind: Kind::City, tier: 1 },
        Place { name: "Addis Ababa", lat_cdeg: 903, lon_cdeg: 3874, kind: Kind::City, tier: 1 },
        Place { name: "Goldstone DSN", lat_cdeg: 3543, lon_cdeg: -11689i32, kind: Kind::Station, tier: 1 },
        Place { name: "Madrid DSN", lat_cdeg: 4043, lon_cdeg: -425i32, kind: Kind::Station, tier: 1 },
        Place { name: "Canberra DSN", lat_cdeg: -3540i32, lon_cdeg: 14898, kind: Kind::Station, tier: 1 },
        Place { name: "Kourou", lat_cdeg: 510, lon_cdeg: -5265i32, kind: Kind::Station, tier: 1 },
        Place { name: "New Norcia DSA-1", lat_cdeg: -3105i32, lon_cdeg: 11619, kind: Kind::Station, tier: 1 },
        Place { name: "Malargüe DSA-3", lat_cdeg: -3578i32, lon_cdeg: -6940i32, kind: Kind::Station, tier: 1 },
        Place { name: "Hartebeesthoek", lat_cdeg: -2589i32, lon_cdeg: 2769, kind: Kind::Station, tier: 1 },
        Place { name: "Svalbard (SvalSat)", lat_cdeg: 7823, lon_cdeg: 1539, kind: Kind::Station, tier: 1 },
        Place { name: "Kiruna (Esrange)", lat_cdeg: 6788, lon_cdeg: 2107, kind: Kind::Station, tier: 1 },
    ]
}

/// Tier 1: The rest of the major capitals and metros.
#[verifier::rlimit(100)]
fn tier_1(v: &mut Vec<Place>)
    requires
        old(v)@.len() > 0 ==> old(v)@.last().tier <= 1,
    ensures
        final(v)@ == old(v)@ + tier_1_places(),
        final(v)@.last().tier == 1,
        well_ordered(old(v)@) ==> well_ordered(final(v)@),
{
    let ghost start = v@;
    put(v, Place { name: "Paris", lat_cdeg: 4886, lon_cdeg: 235, kind: Kind::City, tier: 1 });
    put(v, Place { name: "Berlin", lat_cdeg: 5252, lon_cdeg: 1340, kind: Kind::City, tier: 1 });
    put(v, Place { name: "Madrid", lat_cdeg: 4042, lon_cdeg: -370, kind: Kind::City, tier: 1 });
    put(v, Place { name: "Rome", lat_cdeg: 4190, lon_cdeg: 1250, kind: Kind::City, tier: 1 });
    put(v, Place { name: "Istanbul", lat_cdeg: 4101, lon_cdeg: 2898, kind: Kind::City, tier: 1 });
    put(v, Place { name: "Kyiv", lat_cdeg: 5045, lon_cdeg: 3052, kind: Kind::City, tier: 1 });
    put(v, Place { name: "Lisbon", lat_cdeg: 3872, lon_cdeg: -914, kind: Kind::City, tier: 1 });
    put(v, Place { name: "Amsterdam", lat_cdeg: 5237, lon_cdeg: 490, kind: Kind::City, tier: 1 });
    put(v, Place { name: "Stockholm", lat_cdeg: 5933, lon_cdeg: 1806, kind: Kind::City, tier: 1 });
    put(v, Place { name: "Warsaw", lat_cdeg: 5223, lon_cdeg: 2101, kind: Kind::City, tier: 1 });
    put(v, Place { name: "Athens", lat_cdeg: 3798, lon_cdeg: 2373, kind: Kind::City, tier: 1 });
    put(v, Place { name: "Tehran", lat_cdeg: 3569, lon_cdeg: 5139, kind: Kind::City, tier: 1 });
    put(v, Place { name: "Riyadh", lat_cdeg: 2471, lon_cdeg: 4668, kind: Kind::City, tier: 1 });
    put(v, Place { name: "Dubai", lat_cdeg: 2520, lon_cdeg: 5527, kind: Kind::City, tier: 1 });
    put(v, Place { name: "Baghdad", lat_cdeg: 3331, lon_cdeg: 4436, kind: Kind::City, tier: 1 });
    put(v, Place { name: "Karachi", lat_cdeg: 2486, lon_cdeg: 6701, kind: Kind::City, tier: 1 });
    put(v, Place { name: "Mumbai", lat_cdeg: 1908, lon_cdeg: 7288, kind: Kind::City, tier: 1 });
    put(v, Place { name: "Kolkata", lat_cdeg: 2257, lon_cdeg: 8836, kind: Kind::City, tier: 1 });
    put(v, Place { name: "Dhaka", lat_cdeg: 2381, lon_cdeg: 9041, kind: Kind::City, tier: 1 });
    put(v, Place { name: "Bangkok", lat_cdeg: 1376, lon_cdeg: 10050, kind: Kind::City, tier: 1 });
    put(v, Place { name: "Singapore", lat_cdeg: 135, lon_cdeg: 10382, kind: Kind::City, tier: 1 });
    put(v, Place { name: "Jakarta", lat_cdeg: -621, lon_cdeg: 10685, kind: Kind::City, tier: 1 });
    put(v, Place { name: "Manila", lat_cdeg: 1460, lon_cdeg: 12098, kind: Kind::City, tier: 1 });
    put(v, Place { name: "Shanghai", lat_cdeg: 3123, lon_cdeg: 12147, kind: Kind::City, tier: 1 });
    put(v, Place { name: "Hong Kong", lat_cdeg: 2232, lon_cdeg: 11417, kind: Kind::City, tier: 1 });
    put(v, Place { name: "Seoul", lat_cdeg: 3757, lon_cdeg: 12698, kind: Kind::City, tier: 1 });
    put(v, Place { name: "Toronto", lat_cdeg: 4365, lon_cdeg: -7938, kind: Kind::City, tier: 1 });
    put(v, Place { name: "Chicago", lat_cdeg: 4188, lon_cdeg: -8763, kind: Kind::City, tier: 1 });
    put(v, Place { name: "Houston", lat_cdeg: 2976, lon_cdeg: -9537, kind: Kind::City, tier: 1 });
    put(v, Place { name: "San Francisco", lat_cdeg: 3777, lon_cdeg: -12242, kind: Kind::City, tier: 1 });
    put(v, Place { name: "Vancouver", lat_cdeg: 4928, lon_cdeg: -12312, kind: Kind::City, tier: 1 });
    put(v, Place { name: "Bogotá", lat_cdeg: 471, lon_cdeg: -7407, kind: Kind::City, tier: 1 });
    put(v, Place { name: "Lima", lat_cdeg: -1205, lon_cdeg: -7704, kind: Kind::City, tier: 1 });
    put(v, Place { name: "Santiago", lat_cdeg: -3345, lon_cdeg: -7067, kind: Kind::City, tier: 1 });
    put(v, Place { name: "Buenos Aires", lat_cdeg: -3460, lon_cdeg: -5838, kind: Kind::City, tier: 1 });
    put(v, Place { name: "Rio de Janeiro", lat_cdeg: -2291, lon_cdeg: -4317, kind: Kind::City, tier: 1 });
    put(v, Place { name: "Johannesburg", lat_cdeg: -2620, lon_cdeg: 2805, kind: Kind::City, tier: 1 });
    put(v, Place { name: "Nairobi", lat_cdeg: -129, lon_cdeg: 3682, kind: Kind::City, tier: 1 });
    put(v, Place { name: "Kinshasa", lat_cdeg: -432, lon_cdeg: 1531, kind: Kind::City, tier: 1 });
    put(v, Place { name: "Casablanca", lat_cdeg: 3357, lon_cdeg: -759, kind: Kind::City, tier: 1 });
    put(v, Place { name: "Addis Ababa", lat_cdeg: 903, lon_cdeg: 3874, kind: Kind::City, tier: 1 });
    put(v, Place { name: "Goldstone DSN", lat_cdeg: 3543, lon_cdeg: -11689, kind: Kind::Station, tier: 1 });
    put(v, Place { name: "Madrid DSN", lat_cdeg: 4043, lon_cdeg: -425, kind: Kind::Station, tier: 1 });
    put(v, Place { name: "Canberra DSN", lat_cdeg: -3540, lon_cdeg: 14898, kind: Kind::Station, tier: 1 });
    put(v, Place { name: "Kourou", lat_cdeg: 510, lon_cdeg: -5265, kind: Kind::Station, tier: 1 });
    put(v, Place { name: "New Norcia DSA-1", lat_cdeg: -3105, lon_cdeg: 11619, kind: Kind::Station, tier: 1 });
    put(v, Place { name: "Malargüe DSA-3", lat_cdeg: -3578, lon_cdeg: -6940, kind: Kind::Station, tier: 1 });
    put(v, Place { name: "Hartebeesthoek", lat_cdeg: -2589, lon_cdeg: 2769, kind: Kind::Station, tier: 1 });
    put(v, Place { name: "Svalbard (SvalSat)", lat_cdeg: 7823, lon_cdeg: 1539, kind: Kind::Station, tier: 1 });
    put(v, Place { name: "Kiruna (Esrange)", lat_cdeg: 6788, lon_cdeg: 2107, kind: Kind::Station, tier: 1 });
    assert(v@ =~= start + tier_1_places());
}

/// The tier-2 places, in table order.
pub open spec fn tier_2_places() -> Seq<Place> {
    seq![
        Place { name: "Vienna", lat_cdeg: 4821, lon_cdeg: 1637, kind: Kind::City, tier: 2 },
        Place { name: "Prague", lat_cdeg: 5008, lon_cdeg: 1444, kind: Kind::City, tier: 2 },
        Place { name: "Budapest", lat_cdeg: 4750, lon_cdeg: 1904, kind: Kind::City, tier: 2 },
        Place { name: "Bucharest", lat_cdeg: 4443, lon_cdeg: 2610, kind: Kind::City, tier: 2 },
        Place { name: "Copenhagen", lat_cdeg: 5568, lon_cdeg: 1257, kind: Kind::City, tier: 2 },
        Place { name: "Oslo", lat_cdeg: 5991, lon_cdeg: 1075, kind: Kind::City, tier: 2 },
        Place { name: "Helsinki", lat_cdeg: 6017, lon_cdeg: 2494, kind: Kind::City, tier: 2 },
        Place { name: "Dublin", lat_cdeg: 5335, lon_cdeg: -626i32, kind: Kind::City, tier: 2 },
        Place { name: "Brussels", lat_cdeg: 5085, lon_cdeg: 435, kind: Kind::City, tier: 2 },
        Place { name: "Zurich", lat_cdeg: 4737, lon_cdeg: 854, kind: Kind::City, tier: 2 },
        Place { name: "Minsk", lat_cdeg: 5390, lon_cdeg: 2757, kind: Kind::City, tier: 2 },
        Place { name: "St Petersburg", lat_cdeg: 5994, lon_cdeg: 3031, kind: Kind::City, tier: 2 },
        Place { name: "Ankara", lat_cdeg: 3993, lon_cdeg: 3286, kind: Kind::City, tier: 2 },
        Place { name: "Tel Aviv", lat_cdeg: 3209, lon_cdeg: 3478, kind: Kind::City, tier: 2 },
        Place { name: "Amman", lat_cdeg: 3195, lon_cdeg: 3593, kind: Kind::City, tier: 2 },
        Place { name: "Algiers", lat_cdeg: 3675, lon_cdeg: 304, kind: Kind::City, tier: 2 },
        Place { name: "Tunis", lat_cdeg: 3681, lon_cdeg: 1018, kind: Kind::City, tier: 2 },
        Place { name: "Tripoli", lat_cdeg: 3289, lon_cdeg: 1319, kind: Kind::City, tier: 2 },
        Place { name: "Khartoum", lat_cdeg: 1550, lon_cdeg: 3256, kind: Kind::City, tier: 2 },
        Place { name: "Abuja", lat_cdeg: 906, lon_cdeg: 750, kind: Kind::City, tier: 2 },
        Place { name: "Accra", lat_cdeg: 556, lon_cdeg: -20i32, kind: Kind::City, tier: 2 },
        Place { name: "Dakar", lat_cdeg: 1472, lon_cdeg: -1747i32, kind: Kind::City, tier: 2 },
        Place { name: "Cape Town", lat_cdeg: -3392i32, lon_cdeg: 1842, kind: Kind::City, tier: 2 },
        Place { name: "Luanda", lat_cdeg: -884i32, lon_cdeg: 1323, kind: Kind::City, tier: 2 },
        Place { name: "Dar es Salaam", lat_cdeg: -679i32, lon_cdeg: 3921, kind: Kind::City, tier: 2 },
        Place { name: "Lusaka", lat_cdeg: -1542i32, lon_cdeg: 2828, kind: Kind::City, tier: 2 },
        Place { name: "Kabul", lat_cdeg: 3453, lon_cdeg: 6917, kind: Kind::City, tier: 2 },
        Place { name: "Tashkent", lat_cdeg: 4131, lon_cdeg: 6924, kind: Kind::City, tier: 2 },
        Place { name: "Almaty", lat_cdeg: 4324, lon_cdeg: 7695, kind: Kind::City, tier: 2 },
        Place { name: "Lahore", lat_cdeg: 3155, lon_cdeg: 7434, kind: Kind::City, tier: 2 },
        Place { name: "Chennai", lat_cdeg: 1308, lon_cdeg: 8027, kind: Kind::City, tier: 2 },
        Place { name: "Bengaluru", lat_cdeg: 1297, lon_cdeg: 7759, kind: Kind::City, tier: 2 },
        Place { name: "Hyderabad", lat_cdeg: 1738, lon_cdeg: 7849, kind: Kind::City, tier: 2 },
        Place { name: "Colombo", lat_cdeg: 693, lon_cdeg: 7985, kind: Kind::City, tier: 2 },
        Place { name: "Kathmandu", lat_cdeg: 2772, lon_cdeg: 8532, kind: Kind::City, tier: 2 },
        Place { name: "Yangon", lat_cdeg: 1687, lon_cdeg: 9620, kind: Kind::City, tier: 2 },
        Place { name: "Hanoi", lat_cdeg: 2103, lon_cdeg: 10585, kind: Kind::City, tier: 2 },
        Place { name: "Ho Chi Minh City", lat_cdeg: 1082, lon_cdeg: 10663, kind: Kind::City, tier: 2 },
        Place { name: "Kuala Lumpur", lat_cdeg: 315, lon_cdeg: 10169, kind: Kind::City, tier: 2 },
        Place { name: "Taipei", lat_cdeg: 2503, lon_cdeg: 12157, kind: Kind::City, tier: 2 },
        Place { name: "Osaka", lat_cdeg: 3469, lon_cdeg: 13550, kind: Kind::City, tier: 2 },
        Place { name: "Chengdu", lat_cdeg: 3066, lon_cdeg: 10407, kind: Kind::City, tier: 2 },
        Place { name: "Guangzhou", lat_cdeg: 2313, lon_cdeg: 11326, kind: Kind::City, tier: 2 },
        Place { name: "Ürümqi", lat_cdeg: 4383, lon_cdeg: 8762, kind: Kind::City, tier: 2 },
        Place { name: "Novosibirsk", lat_cdeg: 5503, lon_cdeg: 8292, kind: Kind::City, tier: 2 },
        Place { name: "Yekaterinburg", lat_cdeg: 5684, lon_cdeg: 6061, kind: Kind::City, tier: 2 },
        Place { name: "Irkutsk", lat_cdeg: 5229, lon_cdeg: 10430, kind: Kind::City, tier: 2 },
        Place { name: "Vladivostok", lat_cdeg: 4312, lon_cdeg: 13189, kind: Kind::City, tier: 2 },
        Place { name: "Ulaanbaatar", lat_cdeg: 4789, lon_cdeg: 10691, kind: Kind::City, tier: 2 },
        Place { name: "Auckland", lat_cdeg: -3685i32, lon_cdeg: 17476, kind: Kind::City, tier: 2 },
        Place { name: "Melbourne", lat_cdeg: -3781i32, lon_cdeg: 14496, kind: Kind::City, tier: 2 },
        Place { name: "Brisbane", lat_cdeg: -2747i32, lon_cdeg: 15303, kind: Kind::City, tier: 2 },
        Place { name: "Perth", lat_cdeg: -3195i32, lon_cdeg: 11586, kind: Kind::City, tier: 2 },
        Place { name: "Port Moresby", lat_cdeg: -944i32, lon_cdeg: 14718, kind: Kind::City, tier: 2 },
        Place { name: "Montréal", lat_cdeg: 4550, lon_cdeg: -7357i32, kind: Kind::City, tier: 2 },
        Place { name: "Washington", lat_cdeg: 3890, lon_cdeg: -7704i32, kind: Kind::City, tier: 2 },
        Place { name: "Miami", lat_cdeg: 2576, lon_cdeg: -8019i32, kind: Kind::City, tier: 2 },
        Place { name: "Denver", lat_cdeg: 3974, lon_cdeg: -10499i32, kind: Kind::City, tier: 2 },
        Place { name: "Seattle", lat_cdeg: 4761, lon_cdeg: -12233i32, kind: Kind::City, tier: 2 },
        Place { name: "Havana", lat_cdeg: 2311, lon_cdeg: -8237i32, kind: Kind::City, tier: 2 },
        Place { name: "Panama City", lat_cdeg: 898, lon_cdeg: -7952i32, kind: Kind::City, tier: 2 },
        Place { name: "Caracas", lat_cdeg: 1049, lon_cdeg: -6688i32, kind: Kind::City, tier: 2 },
        Place { name: "Quito", lat_cdeg: -18i32, lon_cdeg: -7847i32, kind: Kind::City, tier: 2 },
        Place { name: "La Paz", lat_cdeg: -1650i32, lon_cdeg: -6815i32, kind: Kind::City, tier: 2 },
        Place { name: "Brasília", lat_cdeg: -1579i32, lon_cdeg: -4788i32, kind: Kind::City, tier: 2 },
        Place { name: "Manaus", lat_cdeg: -312i32, lon_cdeg: -6002i32, kind: Kind::City, tier: 2 },
        Place { name: "Montevideo", lat_cdeg: -3490i32, lon_cdeg: -5616i32, kind: Kind::City, tier: 2 },
        Place { name: "Ny-Ålesund", lat_cdeg: 7893, lon_cdeg: 1187, kind: Kind::Station, tier: 2 },
        Place { name: "Tromsø (KSAT)", lat_cdeg: 6966, lon_cdeg: 1894, kind: Kind::Station, tier: 2 },
        Place { name: "Inuvik", lat_cdeg: 6836, lon_cdeg: -13372i32, kind: Kind::Station, tier: 2 },
        Place { name: "Poker Flat", lat_cdeg: 6513, lon_cdeg: -14747i32, kind: Kind::Station, tier: 2 },
        Place { name: "Wallops", lat_cdeg: 3794, lon_cdeg: -7547i32, kind: Kind::Station, tier: 2 },
        Place { name: "Kaena Point", lat_cdeg: 2157, lon_cdeg: -15827i32, kind: Kind::Station, tier: 2 },
        Place { name: "Redu", lat_cdeg: 5000, lon_cdeg: 515, kind: Kind::Station, tier: 2 },
        Place { name: "Weilheim", lat_cdeg: 4788, lon_cdeg: 1108, kind: Kind::Station, tier: 2 },
        Place { name: "Cebreros DSA-2", lat_cdeg: 4045, lon_cdeg: -437i32, kind: Kind::Station, tier: 2 },
        Place { name: "Usuda", lat_cdeg: 3613, lon_cdeg: 13836, kind: Kind::Station, tier: 2 },
        Place { name: "Dongara", lat_cdeg: -2905i32, lon_cdeg: 11535, kind: Kind::Station, tier: 2 },
        Place { name: "Awarua", lat_cdeg: -4653i32, lon_cdeg: 16838, kind: Kind::Station, tier: 2 },
        Place { name: "Troll (Antarctica)", lat_cdeg: -7201i32, lon_cdeg: 253, kind: Kind::Station, tier: 2 },
        Place { name: "McMurdo Station", lat_cdeg: -7785i32, lon_cdeg: 16667, kind: Kind::Station, tier: 2 },
    ]
}

/// Tier 2: Regional cities and the satellite ground stations.
#[verifier::rlimit(100)]
fn tier_2(v: &mut Vec<Place>)
    requires
        old(v)@.len() > 0 ==> old(v)@.last().tier <= 2,
    ensures
        final(v)@ == old(v)@ + tier_2_places(),
        final(v)@.last().tier == 2,
        well_ordered(old(v)@) ==> well_ordered(final(v)@),
{
    let ghost start = v@;
    put(v, Place { name: "Vienna", lat_cdeg: 4821, lon_cdeg: 1637, kind: Kind::City, tier: 2 });
    put(v, Place { name: "Prague", lat_cdeg: 5008, lon_cdeg: 1444, kind: Kind::City, tier: 2 });
    put(v, Place { name: "Budapest", lat_cdeg: 4750, lon_cdeg: 1904, kind: Kind::City, tier: 2 });
    put(v, Place { name: "Bucharest", lat_cdeg: 4443, lon_cdeg: 2610, kind: Kind::City, tier: 2 });
    put(v, Place { name: "Copenhagen", lat_cdeg: 5568, lon_cdeg: 1257, kind: Kind::City, tier: 2 });
    put(v, Place { name: "Oslo", lat_cdeg: 5991, lon_cdeg: 1075, kind: Kind::City, tier: 2 });
    put(v, Place { name: "Helsinki", lat_cdeg: 6017, lon_cdeg: 2494, kind: Kind::City, tier: 2 });
    put(v, Place { name: "Dublin", lat_cdeg: 5335, lon_cdeg: -626, kind: Kind::City, tier: 2 });
    put(v, Place { name: "Brussels", lat_cdeg: 5085, lon_cdeg: 435, kind: Kind::City, tier: 2 });
    put(v, Place { name: "Zurich", lat_cdeg: 4737, lon_cdeg: 854, kind: Kind::City, tier: 2 });
    put(v, Place { name: "Minsk", lat_cdeg: 5390, lon_cdeg: 2757, kind: Kind::City, tier: 2 });
    put(v, Place { name: "St Petersburg", lat_cdeg: 5994, lon_cdeg: 3031, kind: Kind::City, tier: 2 });
    put(v, Place { name: "Ankara", lat_cdeg: 3993, lon_cdeg: 3286, kind: Kind::City, tier: 2 });
    put(v, Place { name: "Tel Aviv", lat_cdeg: 3209, lon_cdeg: 3478, kind: Kind::City, tier: 2 });
    put(v, Place { name: "Amman", lat_cdeg: 3195, lon_cdeg: 3593, kind: Kind::City, tier: 2 });
    put(v, Place { name: "Algiers", lat_cdeg: 3675, lon_cdeg: 304, kind: Kind::City, tier: 2 });
    put(v, Place { name: "Tunis", lat_cdeg: 3681, lon_cdeg: 1018, kind: Kind::City, tier: 2 });
    put(v, Place { name: "Tripoli", lat_cdeg: 3289, lon_cdeg: 1319, kind: Kind::City, tier: 2 });
    put(v, Place { name: "Khartoum", lat_cdeg: 1550, lon_cdeg: 3256, kind: Kind::City, tier: 2 });
    put(v, Place { name: "Abuja", lat_cdeg: 906, lon_cdeg: 750, kind: Kind::City, tier: 2 });
    put(v, Place { name: "Accra", lat_cdeg: 556, lon_cdeg: -20, kind: Kind::City, tier: 2 });
    put(v, Place { name: "Dakar", lat_cdeg: 1472, lon_cdeg: -1747, kind: Kind::City, tier: 2 });
    put(v, Place { name: "Cape Town", lat_cdeg: -3392, lon_cdeg: 1842, kind: Kind::City, tier: 2 });
    put(v, Place { name: "Luanda", lat_cdeg: -884, lon_cdeg: 1323, kind: Kind::City, tier: 2 });
    put(v, Place { name: "Dar es Salaam", lat_cdeg: -679, lon_cdeg: 3921, kind: Kind::City, tier: 2 });
    put(v, Place { name: "Lusaka", lat_cdeg: -1542, lon_cdeg: 2828, kind: Kind::City, tier: 2 });
    put(v, Place { name: "Kabul", lat_cdeg: 3453, lon_cdeg: 6917, kind: Kind::City, tier: 2 });
    put(v, Place { name: "Tashkent", lat_cdeg: 4131, lon_cdeg: 6924, kind: Kind::City, tier: 2 });
    put(v, Place { name: "Almaty", lat_cdeg: 4324, lon_cdeg: 7695, kind: Kind::City, tier: 2 });
    put(v, Place { name: "Lahore", lat_cdeg: 3155, lon_cdeg: 7434, kind: Kind::City, tier: 2 });
    put(v, Place { name: "Chennai", lat_cdeg: 1308, lon_cdeg: 8027, kind: Kind::City, tier: 2 });
    put(v, Place { name: "Bengaluru", lat_cdeg: 1297, lon_cdeg: 7759, kind: Kind::City, tier: 2 });
    put(v, Place { name: "Hyderabad", lat_cdeg: 1738, lon_cdeg: 7849, kind: Kind::City, tier: 2 });
    put(v, Place { name: "Colombo", lat_cdeg: 693, lon_cdeg: 7985, kind: Kind::City, tier: 2 });
    put(v, Place { name: "Kathmandu", lat_cdeg: 2772, lon_cdeg: 8532, kind: Kind::City, tier: 2 });
    put(v, Place { name: "Yangon", lat_cdeg: 1687, lon_cdeg: 9620, kind: Kind::City, tier: 2 });
    put(v, Place { name: "Hanoi", lat_cdeg: 2103, lon_cdeg: 10585, kind: Kind::City, tier: 2 });
    put(v, Place { name: "Ho Chi Minh City", lat_cdeg: 1082, lon_cdeg: 10663, kind: Kind::City, tier: 2 });
    put(v, Place { name: "Kuala Lumpur", lat_cdeg: 315, lon_cdeg: 10169, kind: Kind::City, tier: 2 });
    put(v, Place { name: "Taipei", lat_cdeg: 2503, lon_cdeg: 12157, kind: Kind::City, tier: 2 });
    put(v, Place { name: "Osaka", lat_cdeg: 3469, lon_cdeg: 13550, kind: Kind::City, tier: 2 });
    put(v, Place { name: "Chengdu", lat_cdeg: 3066, lon_cdeg: 10407, kind: Kind::City, tier: 2 });
    put(v, Place { name: "Guangzhou", lat_cdeg: 2313, lon_cdeg: 11326, kind: Kind::City, tier: 2 });
    put(v, Place { name: "Ürümqi", lat_cdeg: 4383, lon_cdeg: 8762, kind: Kind::City, tier: 2 });
    put(v, Place { name: "Novosibirsk", lat_cdeg: 5503, lon_cdeg: 8292, kind: Kind::City, tier: 2 });
    put(v, Place { name: "Yekaterinburg", lat_cdeg: 5684, lon_cdeg: 6061, kind: Kind::City, tier: 2 });
    put(v, Place { name: "Irkutsk", lat_cdeg: 5229, lon_cdeg: 10430, kind: Kind::City, tier: 2 });
    put(v, Place { name: "Vladivostok", lat_cdeg: 4312, lon_cdeg: 13189, kind: Kind::City, tier: 2 });
    put(v, Place { name: "Ulaanbaatar", lat_cdeg: 4789, lon_cdeg: 10691, kind: Kind::City, tier: 2 });
    put(v, Place { name: "Auckland", lat_cdeg: -3685, lon_cdeg: 17476, kind: Kind::City, tier: 2 });
    put(v, Place { name: "Melbourne", lat_cdeg: -3781, lon_cdeg: 14496, kind: Kind::City, tier: 2 });
    put(v, Place { name: "Brisbane", lat_cdeg: -2747, lon_cdeg: 15303, kind: Kind::City, tier: 2 });
    put(v, Place { name: "Perth", lat_cdeg: -3195, lon_cdeg: 11586, kind: Kind::City, tier: 2 });
    put(v, Place { name: "Port Moresby", lat_cdeg: -944, lon_cdeg: 14718, kind: Kind::City, tier: 2 });
    put(v, Place { name: "Montréal", lat_cdeg: 4550, lon_cdeg: -7357, kind: Kind::City, tier: 2 });
    put(v, Place { name: "Washington", lat_cdeg: 3890, lon_cdeg: -7704, kind: Kind::City, tier: 2 });
    put(v, Place { name: "Miami", lat_cdeg: 2576, lon_cdeg: -8019, kind: Kind::City, tier: 2 });
    put(v, Place { name: "Denver", lat_cdeg: 3974, lon_cdeg: -10499, kind: Kind::City, tier: 2 });
    put(v, Place { name: "Seattle", lat_cdeg: 4761, lon_cdeg: -12233, kind: Kind::City, tier: 2 });
    put(v, Place { name: "Havana", lat_cdeg: 2311, lon_cdeg: -8237, kind: Kind::City, tier: 2 });
    put(v, Place { name: "Panama City", lat_cdeg: 898, lon_cdeg: -7952, kind: Kind::City, tier: 2 });
    put(v, Place { name: "Caracas", lat_cdeg: 1049, lon_cdeg: -6688, kind: Kind::City, tier: 2 });
    put(v, Place { name: "Quito", lat_cdeg: -18, lon_cdeg: -7847, kind: Kind::City, tier: 2 });
    put(v, Place { name: "La Paz", lat_cdeg: -1650, lon_cdeg: -6815, kind: Kind::City, tier: 2 });
    put(v, Place { name: "Brasília", lat_cdeg: -1579, lon_cdeg: -4788, kind: Kind::City, tier: 2 });
    put(v, Place { name: "Manaus", lat_cdeg: -312, lon_cdeg: -6002, kind: Kind::City, tier: 2 });
    put(v, Place { name: "Montevideo", lat_cdeg: -3490, lon_cdeg: -5616, kind: Kind::City, tier: 2 });
    put(v, Place { name: "Ny-Ålesund", lat_cdeg: 7893, lon_cdeg: 1187, kind: Kind::Station, tier: 2 });
    put(v, Place { name: "Tromsø (KSAT)", lat_cdeg: 6966, lon_cdeg: 1894, kind: Kind::Station, tier: 2 });
    put(v, Place { name: "Inuvik", lat_cdeg: 6836, lon_cdeg: -13372, kind: Kind::Station, tier: 2 });
    put(v, Place { name: "Poker Flat", lat_cdeg: 6513, lon_cdeg: -14747, kind: Kind::Station, tier: 2 });
    put(v, Place { name: "Wallops", lat_cdeg: 3794, lon_cdeg: -7547, kind: Kind::Station, tier: 2 });
    put(v, Place { name: "Kaena Point", lat_cdeg: 2157, lon_cdeg: -15827, kind: Kind::Station, tier: 2 });
    put(v, Place { name: "Redu", lat_cdeg: 5000, lon_cdeg: 515, kind: Kind::Station, tier: 2 });
    put(v, Place { name: "Weilheim", lat_cdeg: 4788, lon_cdeg: 1108, kind: Kind::Station, tier: 2 });
    put(v, Place { name: "Cebreros DSA-2", lat_cdeg: 4045, lon_cdeg: -437, kind: Kind::Station, tier: 2 });
    put(v, Place { name: "Usuda", lat_cdeg: 3613, lon_cdeg: 13836, kind: Kind::Station, tier: 2 });
    put(v, Place { name: "Dongara", lat_cdeg: -2905, lon_cdeg: 11535, kind: Kind::Station, tier: 2 });
    put(v, Place { name: "Awarua", lat_cdeg: -4653, lon_cdeg: 16838, kind: Kind::Station, tier: 2 });
    put(v, Place { name: "Troll (Antarctica)", lat_cdeg: -7201, lon_cdeg: 253, kind: Kind::Station, tier: 2 });
    put(v, Place { name: "McMurdo Station", lat_cdeg: -7785, lon_cdeg: 16667, kind: Kind::Station, tier: 2 });
    assert(v@ =~= start + tier_2_places());
}

/// The tier-3 places, in table order.
pub open spec fn tier_3_places() -> Seq<Place> {
    seq![
        Place { name: "Reykjavík", lat_cdeg: 6413, lon_cdeg: -2190i32, kind: Kind::City, tier: 3 },
        Place { name: "Tórshavn", lat_cdeg: 6201, lon_cdeg: -677i32, kind: Kind::City, tier: 3 },
        Place { name: "Nuuk", lat_cdeg: 6418, lon_cdeg: -5172i32, kind: Kind::City, tier: 3 },
        Place { name: "Longyearbyen", lat_cdeg: 7822, lon_cdeg: 1563, kind: Kind::City, tier: 3 },
        Place { name: "Anchorage", lat_cdeg: 6122, lon_cdeg: -14990i32, kind: Kind::City, tier: 3 },
        Place { name: "Fairbanks", lat_cdeg: 6484, lon_cdeg: -14772i32, kind: Kind::City, tier: 3 },
        Place { name: "Utqiaġvik", lat_cdeg: 7129, lon_cdeg: -15679i32, kind: Kind::City, tier: 3 },
        Place { name: "Nome", lat_cdeg: 6450, lon_cdeg: -16541i32, kind: Kind::City, tier: 3 },
        Place { name: "Yellowknife", lat_cdeg: 6245, lon_cdeg: -11437i32, kind: Kind::City, tier: 3 },
        Place { name: "Iqaluit", lat_cdeg: 6375, lon_cdeg: -6852i32, kind: Kind::City, tier: 3 },
        Place { name: "Murmansk", lat_cdeg: 6897, lon_cdeg: 3309, kind: Kind::City, tier: 3 },
        Place { name: "Norilsk", lat_cdeg: 6935, lon_cdeg: 8820, kind: Kind::City, tier: 3 },
        Place { name: "Yakutsk", lat_cdeg: 6203, lon_cdeg: 12973, kind: Kind::City, tier: 3 },
        Place { name: "Tiksi", lat_cdeg: 7164, lon_cdeg: 12887, kind: Kind::City, tier: 3 },
        Place { name: "Magadan", lat_cdeg: 5956, lon_cdeg: 15080, kind: Kind::City, tier: 3 },
        Place { name: "Petropavlovsk", lat_cdeg: 5302, lon_cdeg: 15865, kind: Kind::City, tier: 3 },
        Place { name: "Honolulu", lat_cdeg: 2131, lon_cdeg: -15786i32, kind: Kind::City, tier: 3 },
        Place { name: "Midway", lat_cdeg: 2821, lon_cdeg: -17737i32, kind: Kind::City, tier: 3 },
        Place { name: "Papeete", lat_cdeg: -1754i32, lon_cdeg: -14957i32, kind: Kind::City, tier: 3 },
        Place { name: "Suva", lat_cdeg: -1814i32, lon_cdeg: 17844, kind: Kind::City, tier: 3 },
        Place { name: "Nouméa", lat_cdeg: -2228i32, lon_cdeg: 16646, kind: Kind::City, tier: 3 },
        Place { name: "Apia", lat_cdeg: -1383i32, lon_cdeg: -17177i32, kind: Kind::City, tier: 3 },
        Place { name: "Galápagos", lat_cdeg: -74i32, lon_cdeg: -9031i32, kind: Kind::City, tier: 3 },
        Place { name: "Ponta Delgada", lat_cdeg: 3774, lon_cdeg: -2567i32, kind: Kind::City, tier: 3 },
        Place { name: "Malé", lat_cdeg: 418, lon_cdeg: 7351, kind: Kind::City, tier: 3 },
        Place { name: "Diego Garcia", lat_cdeg: -731i32, lon_cdeg: 7241, kind: Kind::City, tier: 3 },
        Place { name: "Antananarivo", lat_cdeg: -1888i32, lon_cdeg: 4751, kind: Kind::City, tier: 3 },
        Place { name: "Saint-Denis", lat_cdeg: -2088i32, lon_cdeg: 5545, kind: Kind::City, tier: 3 },
        Place { name: "Port Louis", lat_cdeg: -2016i32, lon_cdeg: 5750, kind: Kind::City, tier: 3 },
        Place { name: "Punta Arenas", lat_cdeg: -5316i32, lon_cdeg: -7091i32, kind: Kind::City, tier: 3 },
        Place { name: "Ushuaia", lat_cdeg: -5480i32, lon_cdeg: -6830i32, kind: Kind::City, tier: 3 },
        Place { name: "Stanley", lat_cdeg: -5169i32, lon_cdeg: -5785i32, kind: Kind::City, tier: 3 },
        Place { name: "Hobart", lat_cdeg: -4288i32, lon_cdeg: 14733, kind: Kind::City, tier: 3 },
    ]
}

/// Tier 3: Anchors for the sparse regions a plain city list leaves empty: open ocean and the far north and south.
fn tier_3(v: &mut Vec<Place>)
    requires
        old(v)@.len() > 0 ==> old(v)@.last().tier <= 3,
    ensures
        final(v)@ == old(v)@ + tier_3_places(),
        final(v)@.last().tier == 3,
        well_ordered(old(v)@) ==> well_ordered(final(v)@),
{
    let ghost start = v@;
    put(v, Place { name: "Reykjavík", lat_cdeg: 6413, lon_cdeg: -2190, kind: Kind::City, tier: 3 });
    put(v, Place { name: "Tórshavn", lat_cdeg: 6201, lon_cdeg: -677, kind: Kind::City, tier: 3 });
    put(v, Place { name: "Nuuk", lat_cdeg: 6418, lon_cdeg: -5172, kind: Kind::City, tier: 3 });
    put(v, Place { name: "Longyearbyen", lat_cdeg: 7822, lon_cdeg: 1563, kind: Kind::City, tier: 3 });
    put(v, Place { name: "Anchorage", lat_cdeg: 6122, lon_cdeg: -14990, kind: Kind::City, tier: 3 });
    put(v, Place { name: "Fairbanks", lat_cdeg: 6484, lon_cdeg: -14772, kind: Kind::City, tier: 3 });
    put(v, Place { name: "Utqiaġvik", lat_cdeg: 7129, lon_cdeg: -15679, kind: Kind::City, tier: 3 });
    put(v, Place { name: "Nome", lat_cdeg: 6450, lon_cdeg: -16541, kind: Kind::City, tier: 3 });
    put(v, Place { name: "Yellowknife", lat_cdeg: 6245, lon_cdeg: -11437, kind: Kind::City, tier: 3 });
    put(v, Place { name: "Iqaluit", lat_cdeg: 6375, lon_cdeg: -6852, kind: Kind::City, tier: 3 });
    put(v, Place { name: "Murmansk", lat_cdeg: 6897, lon_cdeg: 3309, kind: Kind::City, tier: 3 });
    put(v, Place { name: "Norilsk", lat_cdeg: 6935, lon_cdeg: 8820, kind: Kind::City, tier: 3 });
    put(v, Place { name: "Yakutsk", lat_cdeg: 6203, lon_cdeg: 12973, kind: Kind::City, tier: 3 });
    put(v, Place { name: "Tiksi", lat_cdeg: 7164, lon_cdeg: 12887, kind: Kind::City, tier: 3 });
    put(v, Place { name: "Magadan", lat_cdeg: 5956, lon_cdeg: 15080, kind: Kind::City, tier: 3 });
    put(v, Place { name: "Petropavlovsk", lat_cdeg: 5302, lon_cdeg: 15865, kind: Kind::City, tier: 3 });
    put(v, Place { name: "Honolulu", lat_cdeg: 2131, lon_cdeg: -15786, kind: Kind::City, tier: 3 });
    put(v, Place { name: "Midway", lat_cdeg: 2821, lon_cdeg: -17737, kind: Kind::City, tier: 3 });
    put(v, Place { name: "Papeete", lat_cdeg: -1754, lon_cdeg: -14957, kind: Kind::City, tier: 3 });
    put(v, Place { name: "Suva", lat_cdeg: -1814, lon_cdeg: 17844, kind: Kind::City, tier: 3 });
    put(v, Place { name: "Nouméa", lat_cdeg: -2228, lon_cdeg: 16646, kind: Kind::City, tier: 3 });
    put(v, Place { name: "Apia", lat_cdeg: -1383, lon_cdeg: -17177, kind: Kind::City, tier: 3 });
    put(v, Place { name: "Galápagos", lat_cdeg: -74, lon_cdeg: -9031, kind: Kind::City, tier: 3 });
    put(v, Place { name: "Ponta Delgada", lat_cdeg: 3774, lon_cdeg: -2567, kind: Kind::City, tier: 3 });
    put(v, Place { name: "Malé", lat_cdeg: 418, lon_cdeg: 7351, kind: Kind::City, tier: 3 });
    put(v, Place { name: "Diego Garcia", lat_cdeg: -731, lon_cdeg: 7241, kind: Kind::City, tier: 3 });
    put(v, Place { name: "Antananarivo", lat_cdeg: -1888, lon_cdeg: 4751, kind: Kind::City, tier: 3 });
    put(v, Place { name: "Saint-Denis", lat_cdeg: -2088, lon_cdeg: 5545, kind: Kind::City, tier: 3 });
    put(v, Place { name: "Port Louis", lat_cdeg: -2016, lon_cdeg: 5750, kind: Kind::City, tier: 3 });
    put(v, Place { name: "Punta Arenas", lat_cdeg: -5316, lon_cdeg: -7091, kind: Kind::City, tier: 3 });
    put(v, Place { name: "Ushuaia", lat_cdeg: -5480, lon_cdeg: -6830, kind: Kind::City, tier: 3 });
    put(v, Place { name: "Stanley", lat_cdeg: -5169, lon_cdeg: -5785, kind: Kind::City, tier: 3 });
    put(v, Place { name: "Hobart", lat_cdeg: -4288, lon_cdeg: 14733, kind: Kind::City, tier: 3 });
    assert(v@ =~= start + tier_3_places());
}

/// The whole table, tier by tier.
pub open spec fn place_table() -> Seq<Place> {
    tier_0_places() + tier_1_places() + tier_2_places() + tier_3_places()
}

/// Whether `p` lies in the box `lat_lo..=lat_hi`, `lon_lo..=lon_hi`
/// (hundredths of a degree).
pub open spec fn in_box(p: Place, lat_lo: int, lat_hi: int, lon_lo: int, lon_hi: int) -> bool {
    lat_lo <= p.lat_cdeg <= lat_hi && lon_lo <= p.lon_cdeg <= lon_hi
}

/// Whether some place of `s` lies in the box.
pub open spec fn anchored(s: Seq<Place>, lat_lo: int, lat_hi: int, lon_lo: int, lon_hi: int) -> bool {
    exists|i: int| 0 <= i < s.len() && #[trigger] in_box(s[i], lat_lo, lat_hi, lon_lo, lon_hi)
}

/// The regions a plain city list leaves empty, each with something to
/// label: both polar caps in either hemisphere, the western and central
/// Pacific, the North Atlantic, the southern Indian Ocean and Siberia.
pub open spec fn sparse_regions_anchored(s: Seq<Place>) -> bool {
    &&& anchored(s, 6600, 9000, -18000, 0)
    &&& anchored(s, 6600, 9000, 0, 18000)
    &&& anchored(s, -9000, -5000, -18000, 0)
    &&& anchored(s, -9000, -5000, 0, 18000)
    &&& anchored(s, -3000, 3000, 15000, 18000)
    &&& anchored(s, -3000, 3000, -18000, -14000)
    &&& anchored(s, 3000, 6600, -4000, -1000)
    &&& anchored(s, -4000, 0, 4000, 9500)
    &&& anchored(s, 5000, 7500, 9000, 16000)
}

/// The table, in ascending tier, every place on the globe, with an anchor
/// in every sparse region.
pub fn places() -> (v: Vec<Place>)
    ensures
        v@ == place_table(),
        v@.len() == PLACE_COUNT,
        well_ordered(v@),
        sparse_regions_anchored(v@),
{
    let mut v: Vec<Place> = Vec::new();
    proof { reveal(well_ordered); }
    tier_0(&mut v);
    tier_1(&mut v);
    tier_2(&mut v);
    tier_3(&mut v);
    proof {
        let t = place_table();
        assert(v@ =~= t);
        assert(in_box(t[131], 6600, 9000, -18000, 0));
        assert(in_box(t[60], 6600, 9000, 0, 18000));
        assert(in_box(t[172], -9000, -5000, -18000, 0));
        assert(in_box(t[141], -9000, -5000, 0, 18000));
        assert(in_box(t[113], -3000, 3000, 15000, 18000));
        assert(in_box(t[134], -3000, 3000, -18000, -14000));
        assert(in_box(t[143], 3000, 6600, -4000, -1000));
        assert(in_box(t[168], -4000, 0, 4000, 9500));
        assert(in_box(t[108], 5000, 7500, 9000, 16000));
    }
    v
}

} // verus!
