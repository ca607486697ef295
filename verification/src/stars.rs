//! The table of the brightest stars the sky plot draws behind a pass: each
//! with its J2000 right ascension and declination in hundredths of a degree
//! and its magnitude in hundredths. Kept brightest first, so the plot's few
//! name labels go to the brightest stars without a sort.

use vstd::prelude::*;

verus! {

/// One star: its name, J2000 position and apparent visual magnitude (lower
/// is brighter), all in hundredths.
#[derive(Clone, Copy, Debug, PartialEq, Eq)]
pub struct Star {
    pub name: &'static str,
    pub ra_cdeg: i32,
    pub dec_cdeg: i32,
    pub mag_centi: i32,
}

/// Whether `s` lies on the celestial sphere: right ascension in `[0, 360)`,
/// declination in `[-90, 90]`.
pub open spec fn on_sphere(s: Star) -> bool {
    0 <= s.ra_cdeg < 36000 && -9000 <= s.dec_cdeg <= 9000
}

/// Every star in `s` lies on the sphere and they come brightest first.
#[verifier::opaque]
pub open spec fn brightest_first(s: Seq<Star>) -> bool {
    &&& forall|i: int| 0 <= i < s.len() ==> on_sphere(#[trigger] s[i])
    &&& forall|i: int, j: int| 0 <= i <= j < s.len() ==> #[trigger] s[i].mag_centi <= #[trigger] s[j].mag_centi
}

fn put(v: &mut Vec<Star>, s: Star)
    requires
        on_sphere(s),
        old(v)@.len() > 0 ==> old(v)@.last().mag_centi <= s.mag_centi,
    ensures
        final(v)@ == old(v)@.push(s),
        brightest_first(old(v)@) ==> brightest_first(final(v)@),
{
    v.push(s);
    proof {
        reveal(brightest_first);
        if brightest_first(old(v)@) {
            assert forall|i: int, j: int| 0 <= i <= j < v@.len() implies #[trigger] v@[i].mag_centi <= #[trigger] v@[j].mag_centi by {
                if j == v@.len() - 1 && i < j {
                    assert(v@[i] == old(v)@[i]);
                    assert(old(v)@[i].mag_centi <= old(v)@.last().mag_centi);
                } else if j < v@.len() - 1 {
                    assert(v@[i] == old(v)@[i] && v@[j] == old(v)@[j]);
                }
            }
            assert forall|i: int| 0 <= i < v@.len() implies on_sphere(#[trigger] v@[i]) by {
                if i < v@.len() - 1 {
                    assert(v@[i] == old(v)@[i]);
                }
            }
        }
    }
}

/// Number of stars in the table.
pub const STAR_COUNT: usize = 42;

/// The table as it stands, brightest first, Polaris last.
pub open spec fn star_table() -> Seq<Star> {
    seq![
        Star { name: "Sirius", ra_cdeg: 10129, dec_cdeg: -1672i32, mag_centi: -146i32 },
        Star { name: "Canopus", ra_cdeg: 9599, dec_cdeg: -5270i32, mag_centi: -74i32 },
        Star { name: "Rigil Kent.", ra_cdeg: 21990, dec_cdeg: -6083i32, mag_centi: -27i32 },
        Star { name: "Arcturus", ra_cdeg: 21392, dec_cdeg: 1918, mag_centi: -5i32 },
        Star { name: "Vega", ra_cdeg: 27923, dec_cdeg: 3878, mag_centi: 3 },
        Star { name: "Capella", ra_cdeg: 7917, dec_cdeg: 4600, mag_centi: 8 },
        Star { name: "Rigel", ra_cdeg: 7863, dec_cdeg: -820i32, mag_centi: 13 },
        Star { name: "Procyon", ra_cdeg: 11483, dec_cdeg: 522, mag_centi: 34 },
        Star { name: "Achernar", ra_cdeg: 2443, dec_cdeg: -5724i32, mag_centi: 46 },
        Star { name: "Betelgeuse", ra_cdeg: 8879, dec_cdeg: 741, mag_centi: 50 },
        Star { name: "Hadar", ra_cdeg: 21096, dec_cdeg: -6037i32, mag_centi: 61 },
        Star { name: "Altair", ra_cdeg: 29770, dec_cdeg: 887, mag_centi: 76 },
        Star { name: "Acrux", ra_cdeg: 18665, dec_cdeg: -6310i32, mag_centi: 77 },
        Star { name: "Aldebaran", ra_cdeg: 6898, dec_cdeg: 1651, mag_centi: 85 },
        Star { name: "Antares", ra_cdeg: 24735, dec_cdeg: -2643i32, mag_centi: 91 },
        Star { name: "Spica", ra_cdeg: 20130, dec_cdeg: -1116i32, mag_centi: 97 },
        Star { name: "Pollux", ra_cdeg: 11633, dec_cdeg: 2803, mag_centi: 114 },
        Star { name: "Fomalhaut", ra_cdeg: 34441, dec_cdeg: -2962i32, mag_centi: 116 },
        Star { name: "Deneb", ra_cdeg: 31036, dec_cdeg: 4528, mag_centi: 125 },
        Star { name: "Mimosa", ra_cdeg: 19193, dec_cdeg: -5969i32, mag_centi: 125 },
        Star { name: "Regulus", ra_cdeg: 15209, dec_cdeg: 1197, mag_centi: 135 },
        Star { name: "Adhara", ra_cdeg: 10466, dec_cdeg: -2897i32, mag_centi: 150 },
        Star { name: "Castor", ra_cdeg: 11365, dec_cdeg: 3189, mag_centi: 158 },
        Star { name: "Gacrux", ra_cdeg: 18779, dec_cdeg: -5711i32, mag_centi: 159 },
        Star { name: "Shaula", ra_cdeg: 26340, dec_cdeg: -3710i32, mag_centi: 162 },
        Star { name: "Bellatrix", ra_cdeg: 8128, dec_cdeg: 635, mag_centi: 163 },
        Star { name: "Elnath", ra_cdeg: 8157, dec_cdeg: 2861, mag_centi: 165 },
        Star { name: "Miaplacidus", ra_cdeg: 13830, dec_cdeg: -6972i32, mag_centi: 167 },
        Star { name: "Alnilam", ra_cdeg: 8405, dec_cdeg: -120i32, mag_centi: 169 },
        Star { name: "Alnitak", ra_cdeg: 8519, dec_cdeg: -194i32, mag_centi: 172 },
        Star { name: "Alioth", ra_cdeg: 19351, dec_cdeg: 5596, mag_centi: 176 },
        Star { name: "Dubhe", ra_cdeg: 16593, dec_cdeg: 6175, mag_centi: 179 },
        Star { name: "Mirfak", ra_cdeg: 5108, dec_cdeg: 4986, mag_centi: 179 },
        Star { name: "Kaus Aust.", ra_cdeg: 27604, dec_cdeg: -3438i32, mag_centi: 179 },
        Star { name: "Wezen", ra_cdeg: 10710, dec_cdeg: -2639i32, mag_centi: 183 },
        Star { name: "Avior", ra_cdeg: 12563, dec_cdeg: -5951i32, mag_centi: 186 },
        Star { name: "Alkaid", ra_cdeg: 20689, dec_cdeg: 4931, mag_centi: 186 },
        Star { name: "Alnair", ra_cdeg: 33206, dec_cdeg: -4696i32, mag_centi: 187 },
        Star { name: "Sargas", ra_cdeg: 26433, dec_cdeg: -4300i32, mag_centi: 187 },
        Star { name: "Menkalinan", ra_cdeg: 8988, dec_cdeg: 4495, mag_centi: 190 },
        Star { name: "Merak", ra_cdeg: 16546, dec_cdeg: 5638, mag_centi: 237 },
        Star { name: "Polaris", ra_cdeg: 3795, dec_cdeg: 8926, mag_centi: 198 },
    ]
}

/// No two stars of the table share a name.
pub open spec fn names_distinct(s: Seq<Star>) -> bool {
    forall|i: int, j: int| 0 <= i < j < s.len() ==> (#[trigger] s[i]).name@ != (#[trigger] s[j]).name@
}

/// Star `k`'s name differs from those of stars `i..k`.
pub open spec fn unlike_those_before(s: Seq<Star>, i: int, k: int) -> bool
    decreases k - i,
{
    if i >= k { true } else { s[i].name@ != s[k].name@ && unlike_those_before(s, i + 1, k) }
}

proof fn lemma_unlike_those_before(s: Seq<Star>, i: int, k: int)
    requires
        unlike_those_before(s, i, k),
    ensures
        forall|j: int| i <= j < k ==> (#[trigger] s[j]).name@ != s[k].name@,
    decreases k - i,
{
    if i < k {
        lemma_unlike_those_before(s, i + 1, k);
    }
}

#[verifier::rlimit(100)]
proof fn lemma_star_names_distinct()
    ensures
        names_distinct(star_table()),
{
    let t = star_table();
    assert(t[0].name@ == "Sirius"@);
    assert(t[1].name@ == "Canopus"@);
    assert(t[2].name@ == "Rigil Kent."@);
    assert(t[3].name@ == "Arcturus"@);
    assert(t[4].name@ == "Vega"@);
    assert(t[5].name@ == "Capella"@);
    assert(t[6].name@ == "Rigel"@);
    assert(t[7].name@ == "Procyon"@);
    assert(t[8].name@ == "Achernar"@);
    assert(t[9].name@ == "Betelgeuse"@);
    assert(t[10].name@ == "Hadar"@);
    assert(t[11].name@ == "Altair"@);
    assert(t[12].name@ == "Acrux"@);
    assert(t[13].name@ == "Aldebaran"@);
    assert(t[14].name@ == "Antares"@);
    assert(t[15].name@ == "Spica"@);
    assert(t[16].name@ == "Pollux"@);
    assert(t[17].name@ == "Fomalhaut"@);
    assert(t[18].name@ == "Deneb"@);
    assert(t[19].name@ == "Mimosa"@);
    assert(t[20].name@ == "Regulus"@);
    assert(t[21].name@ == "Adhara"@);
    assert(t[22].name@ == "Castor"@);
    assert(t[23].name@ == "Gacrux"@);
    assert(t[24].name@ == "Shaula"@);
    assert(t[25].name@ == "Bellatrix"@);
    assert(t[26].name@ == "Elnath"@);
    assert(t[27].name@ == "Miaplacidus"@);
    assert(t[28].name@ == "Alnilam"@);
    assert(t[29].name@ == "Alnitak"@);
    assert(t[30].name@ == "Alioth"@);
    assert(t[31].name@ == "Dubhe"@);
    assert(t[32].name@ == "Mirfak"@);
    assert(t[33].name@ == "Kaus Aust."@);
    assert(t[34].name@ == "Wezen"@);
    assert(t[35].name@ == "Avior"@);
    assert(t[36].name@ == "Alkaid"@);
    assert(t[37].name@ == "Alnair"@);
    assert(t[38].name@ == "Sargas"@);
    assert(t[39].name@ == "Menkalinan"@);
    assert(t[40].name@ == "Merak"@);
    assert(t[41].name@ == "Polaris"@);
    reveal_strlit("Sirius");
    reveal_strlit("Canopus");
    reveal_strlit("Rigil Kent.");
    reveal_strlit("Arcturus");
    reveal_strlit("Vega");
    reveal_strlit("Capella");
    reveal_strlit("Rigel");
    reveal_strlit("Procyon");
    reveal_strlit("Achernar");
    reveal_strlit("Betelgeuse");
    reveal_strlit("Hadar");
    reveal_strlit("Altair");
    reveal_strlit("Acrux");
    reveal_strlit("Aldebaran");
    reveal_strlit("Antares");
    reveal_strlit("Spica");
    reveal_strlit("Pollux");
    reveal_strlit("Fomalhaut");
    reveal_strlit("Deneb");
    reveal_strlit("Mimosa");
    reveal_strlit("Regulus");
    reveal_strlit("Adhara");
    reveal_strlit("Castor");
    reveal_strlit("Gacrux");
    reveal_strlit("Shaula");
    reveal_strlit("Bellatrix");
    reveal_strlit("Elnath");
    reveal_strlit("Miaplacidus");
    reveal_strlit("Alnilam");
    reveal_strlit("Alnitak");
    reveal_strlit("Alioth");
    reveal_strlit("Dubhe");
    reveal_strlit("Mirfak");
    reveal_strlit("Kaus Aust.");
    reveal_strlit("Wezen");
    reveal_strlit("Avior");
    reveal_strlit("Alkaid");
    reveal_strlit("Alnair");
    reveal_strlit("Sargas");
    reveal_strlit("Menkalinan");
    reveal_strlit("Merak");
    reveal_strlit("Polaris");
    assert(unlike_those_before(t, 0, 1)) by { reveal_with_fuel(unlike_those_before, 2); }
    lemma_unlike_those_before(t, 0, 1);
    assert(unlike_those_before(t, 0, 2)) by { reveal_with_fuel(unlike_those_before, 3); }
    lemma_unlike_those_before(t, 0, 2);
    assert(unlike_those_before(t, 0, 3)) by { reveal_with_fuel(unlike_those_before, 4); }
    lemma_unlike_those_before(t, 0, 3);
    assert(unlike_those_before(t, 0, 4)) by { reveal_with_fuel(unlike_those_before, 5); }
    lemma_unlike_those_before(t, 0, 4);
    assert(unlike_those_before(t, 0, 5)) by { reveal_with_fuel(unlike_those_before, 6); assert(t[1].name@[2] != t[5].name@[2]); }
    lemma_unlike_those_before(t, 0, 5);
    assert(unlike_those_before(t, 0, 6)) by { reveal_with_fuel(unlike_those_before, 7); }
    lemma_unlike_those_before(t, 0, 6);
    assert(unlike_those_before(t, 0, 7)) by { reveal_with_fuel(unlike_those_before, 8); assert(t[1].name@[0] != t[7].name@[0]); assert(t[5].name@[0] != t[7].name@[0]); }
    lemma_unlike_those_before(t, 0, 7);
    assert(unlike_those_before(t, 0, 8)) by { reveal_with_fuel(unlike_those_before, 9); assert(t[3].name@[1] != t[8].name@[1]); }
    lemma_unlike_those_before(t, 0, 8);
    assert(unlike_those_before(t, 0, 9)) by { reveal_with_fuel(unlike_those_before, 10); }
    lemma_unlike_those_before(t, 0, 9);
    assert(unlike_those_before(t, 0, 10)) by { reveal_with_fuel(unlike_those_before, 11); assert(t[6].name@[0] != t[10].name@[0]); }
    lemma_unlike_those_before(t, 0, 10);
    assert(unlike_those_before(t, 0, 11)) by { reveal_with_fuel(unlike_those_before, 12); assert(t[0].name@[0] != t[11].name@[0]); }
    lemma_unlike_those_before(t, 0, 11);
    assert(unlike_those_before(t, 0, 12)) by { reveal_with_fuel(unlike_those_before, 13); assert(t[6].name@[0] != t[12].name@[0]); assert(t[10].name@[0] != t[12].name@[0]); }
    lemma_unlike_those_before(t, 0, 12);
    assert(unlike_those_before(t, 0, 13)) by { reveal_with_fuel(unlike_those_before, 14); }
    lemma_unlike_those_before(t, 0, 13);
    assert(unlike_those_before(t, 0, 14)) by { reveal_with_fuel(unlike_those_before, 15); assert(t[1].name@[0] != t[14].name@[0]); assert(t[5].name@[0] != t[14].name@[0]); assert(t[7].name@[0] != t[14].name@[0]); }
    lemma_unlike_those_before(t, 0, 14);
    assert(unlike_those_before(t, 0, 15)) by { reveal_with_fuel(unlike_those_before, 16); assert(t[6].name@[0] != t[15].name@[0]); assert(t[10].name@[0] != t[15].name@[0]); assert(t[12].name@[0] != t[15].name@[0]); }
    lemma_unlike_those_before(t, 0, 15);
    assert(unlike_those_before(t, 0, 16)) by { reveal_with_fuel(unlike_those_before, 17); assert(t[0].name@[0] != t[16].name@[0]); assert(t[11].name@[0] != t[16].name@[0]); }
    lemma_unlike_those_before(t, 0, 16);
    assert(unlike_those_before(t, 0, 17)) by { reveal_with_fuel(unlike_those_before, 18); assert(t[13].name@[0] != t[17].name@[0]); }
    lemma_unlike_those_before(t, 0, 17);
    assert(unlike_those_before(t, 0, 18)) by { reveal_with_fuel(unlike_those_before, 19); assert(t[6].name@[0] != t[18].name@[0]); assert(t[10].name@[0] != t[18].name@[0]); assert(t[12].name@[0] != t[18].name@[0]); assert(t[15].name@[0] != t[18].name@[0]); }
    lemma_unlike_those_before(t, 0, 18);
    assert(unlike_those_before(t, 0, 19)) by { reveal_with_fuel(unlike_those_before, 20); assert(t[0].name@[0] != t[19].name@[0]); assert(t[11].name@[0] != t[19].name@[0]); assert(t[16].name@[0] != t[19].name@[0]); }
    lemma_unlike_those_before(t, 0, 19);
    assert(unlike_those_before(t, 0, 20)) by { reveal_with_fuel(unlike_those_before, 21); assert(t[1].name@[0] != t[20].name@[0]); assert(t[5].name@[0] != t[20].name@[0]); assert(t[7].name@[0] != t[20].name@[0]); assert(t[14].name@[0] != t[20].name@[0]); }
    lemma_unlike_those_before(t, 0, 20);
    assert(unlike_those_before(t, 0, 21)) by { reveal_with_fuel(unlike_those_before, 22); assert(t[0].name@[0] != t[21].name@[0]); assert(t[11].name@[1] != t[21].name@[1]); assert(t[16].name@[0] != t[21].name@[0]); assert(t[19].name@[0] != t[21].name@[0]); }
    lemma_unlike_those_before(t, 0, 21);
    assert(unlike_those_before(t, 0, 22)) by { reveal_with_fuel(unlike_those_before, 23); assert(t[0].name@[0] != t[22].name@[0]); assert(t[11].name@[0] != t[22].name@[0]); assert(t[16].name@[0] != t[22].name@[0]); assert(t[19].name@[0] != t[22].name@[0]); assert(t[21].name@[0] != t[22].name@[0]); }
    lemma_unlike_those_before(t, 0, 22);
    assert(unlike_those_before(t, 0, 23)) by { reveal_with_fuel(unlike_those_before, 24); assert(t[0].name@[0] != t[23].name@[0]); assert(t[11].name@[0] != t[23].name@[0]); assert(t[16].name@[0] != t[23].name@[0]); assert(t[19].name@[0] != t[23].name@[0]); assert(t[21].name@[0] != t[23].name@[0]); assert(t[22].name@[0] != t[23].name@[0]); }
    lemma_unlike_those_before(t, 0, 23);
    assert(unlike_those_before(t, 0, 24)) by { reveal_with_fuel(unlike_those_before, 25); assert(t[0].name@[1] != t[24].name@[1]); assert(t[11].name@[0] != t[24].name@[0]); assert(t[16].name@[0] != t[24].name@[0]); assert(t[19].name@[0] != t[24].name@[0]); assert(t[21].name@[0] != t[24].name@[0]); assert(t[22].name@[0] != t[24].name@[0]); assert(t[23].name@[0] != t[24].name@[0]); }
    lemma_unlike_those_before(t, 0, 24);
    assert(unlike_those_before(t, 0, 25)) by { reveal_with_fuel(unlike_those_before, 26); assert(t[13].name@[0] != t[25].name@[0]); assert(t[17].name@[0] != t[25].name@[0]); }
    lemma_unlike_those_before(t, 0, 25);
    assert(unlike_those_before(t, 0, 26)) by { reveal_with_fuel(unlike_those_before, 27); assert(t[0].name@[0] != t[26].name@[0]); assert(t[11].name@[0] != t[26].name@[0]); assert(t[16].name@[0] != t[26].name@[0]); assert(t[19].name@[0] != t[26].name@[0]); assert(t[21].name@[0] != t[26].name@[0]); assert(t[22].name@[0] != t[26].name@[0]); assert(t[23].name@[0] != t[26].name@[0]); assert(t[24].name@[0] != t[26].name@[0]); }
    lemma_unlike_those_before(t, 0, 26);
    assert(unlike_those_before(t, 0, 27)) by { reveal_with_fuel(unlike_those_before, 28); assert(t[2].name@[0] != t[27].name@[0]); }
    lemma_unlike_those_before(t, 0, 27);
    assert(unlike_those_before(t, 0, 28)) by { reveal_with_fuel(unlike_those_before, 29); assert(t[1].name@[0] != t[28].name@[0]); assert(t[5].name@[0] != t[28].name@[0]); assert(t[7].name@[0] != t[28].name@[0]); assert(t[14].name@[1] != t[28].name@[1]); assert(t[20].name@[0] != t[28].name@[0]); }
    lemma_unlike_those_before(t, 0, 28);
    assert(unlike_those_before(t, 0, 29)) by { reveal_with_fuel(unlike_those_before, 30); assert(t[1].name@[0] != t[29].name@[0]); assert(t[5].name@[0] != t[29].name@[0]); assert(t[7].name@[0] != t[29].name@[0]); assert(t[14].name@[1] != t[29].name@[1]); assert(t[20].name@[0] != t[29].name@[0]); assert(t[28].name@[4] != t[29].name@[4]); }
    lemma_unlike_those_before(t, 0, 29);
    assert(unlike_those_before(t, 0, 30)) by { reveal_with_fuel(unlike_those_before, 31); assert(t[0].name@[0] != t[30].name@[0]); assert(t[11].name@[2] != t[30].name@[2]); assert(t[16].name@[0] != t[30].name@[0]); assert(t[19].name@[0] != t[30].name@[0]); assert(t[21].name@[1] != t[30].name@[1]); assert(t[22].name@[0] != t[30].name@[0]); assert(t[23].name@[0] != t[30].name@[0]); assert(t[24].name@[0] != t[30].name@[0]); assert(t[26].name@[0] != t[30].name@[0]); }
    lemma_unlike_those_before(t, 0, 30);
    assert(unlike_those_before(t, 0, 31)) by { reveal_with_fuel(unlike_those_before, 32); assert(t[6].name@[0] != t[31].name@[0]); assert(t[10].name@[0] != t[31].name@[0]); assert(t[12].name@[0] != t[31].name@[0]); assert(t[15].name@[0] != t[31].name@[0]); assert(t[18].name@[1] != t[31].name@[1]); }
    lemma_unlike_those_before(t, 0, 31);
    assert(unlike_those_before(t, 0, 32)) by { reveal_with_fuel(unlike_those_before, 33); assert(t[0].name@[0] != t[32].name@[0]); assert(t[11].name@[0] != t[32].name@[0]); assert(t[16].name@[0] != t[32].name@[0]); assert(t[19].name@[2] != t[32].name@[2]); assert(t[21].name@[0] != t[32].name@[0]); assert(t[22].name@[0] != t[32].name@[0]); assert(t[23].name@[0] != t[32].name@[0]); assert(t[24].name@[0] != t[32].name@[0]); assert(t[26].name@[0] != t[32].name@[0]); assert(t[30].name@[0] != t[32].name@[0]); }
    lemma_unlike_those_before(t, 0, 32);
    assert(unlike_those_before(t, 0, 33)) by { reveal_with_fuel(unlike_those_before, 34); assert(t[9].name@[0] != t[33].name@[0]); }
    lemma_unlike_those_before(t, 0, 33);
    assert(unlike_those_before(t, 0, 34)) by { reveal_with_fuel(unlike_those_before, 35); assert(t[6].name@[0] != t[34].name@[0]); assert(t[10].name@[0] != t[34].name@[0]); assert(t[12].name@[0] != t[34].name@[0]); assert(t[15].name@[0] != t[34].name@[0]); assert(t[18].name@[0] != t[34].name@[0]); assert(t[31].name@[0] != t[34].name@[0]); }
    lemma_unlike_those_before(t, 0, 34);
    assert(unlike_those_before(t, 0, 35)) by { reveal_with_fuel(unlike_those_before, 36); assert(t[6].name@[0] != t[35].name@[0]); assert(t[10].name@[0] != t[35].name@[0]); assert(t[12].name@[1] != t[35].name@[1]); assert(t[15].name@[0] != t[35].name@[0]); assert(t[18].name@[0] != t[35].name@[0]); assert(t[31].name@[0] != t[35].name@[0]); assert(t[34].name@[0] != t[35].name@[0]); }
    lemma_unlike_those_before(t, 0, 35);
    assert(unlike_those_before(t, 0, 36)) by { reveal_with_fuel(unlike_those_before, 37); assert(t[0].name@[0] != t[36].name@[0]); assert(t[11].name@[2] != t[36].name@[2]); assert(t[16].name@[0] != t[36].name@[0]); assert(t[19].name@[0] != t[36].name@[0]); assert(t[21].name@[1] != t[36].name@[1]); assert(t[22].name@[0] != t[36].name@[0]); assert(t[23].name@[0] != t[36].name@[0]); assert(t[24].name@[0] != t[36].name@[0]); assert(t[26].name@[0] != t[36].name@[0]); assert(t[30].name@[2] != t[36].name@[2]); assert(t[32].name@[0] != t[36].name@[0]); }
    lemma_unlike_those_before(t, 0, 36);
    assert(unlike_those_before(t, 0, 37)) by { reveal_with_fuel(unlike_those_before, 38); assert(t[0].name@[0] != t[37].name@[0]); assert(t[11].name@[2] != t[37].name@[2]); assert(t[16].name@[0] != t[37].name@[0]); assert(t[19].name@[0] != t[37].name@[0]); assert(t[21].name@[1] != t[37].name@[1]); assert(t[22].name@[0] != t[37].name@[0]); assert(t[23].name@[0] != t[37].name@[0]); assert(t[24].name@[0] != t[37].name@[0]); assert(t[26].name@[0] != t[37].name@[0]); assert(t[30].name@[2] != t[37].name@[2]); assert(t[32].name@[0] != t[37].name@[0]); assert(t[36].name@[2] != t[37].name@[2]); }
    lemma_unlike_those_before(t, 0, 37);
    assert(unlike_those_before(t, 0, 38)) by { reveal_with_fuel(unlike_those_before, 39); assert(t[0].name@[1] != t[38].name@[1]); assert(t[11].name@[0] != t[38].name@[0]); assert(t[16].name@[0] != t[38].name@[0]); assert(t[19].name@[0] != t[38].name@[0]); assert(t[21].name@[0] != t[38].name@[0]); assert(t[22].name@[0] != t[38].name@[0]); assert(t[23].name@[0] != t[38].name@[0]); assert(t[24].name@[1] != t[38].name@[1]); assert(t[26].name@[0] != t[38].name@[0]); assert(t[30].name@[0] != t[38].name@[0]); assert(t[32].name@[0] != t[38].name@[0]); assert(t[36].name@[0] != t[38].name@[0]); assert(t[37].name@[0] != t[38].name@[0]); }
    lemma_unlike_those_before(t, 0, 38);
    assert(unlike_those_before(t, 0, 39)) by { reveal_with_fuel(unlike_those_before, 40); assert(t[9].name@[0] != t[39].name@[0]); assert(t[33].name@[0] != t[39].name@[0]); }
    lemma_unlike_those_before(t, 0, 39);
    assert(unlike_those_before(t, 0, 40)) by { reveal_with_fuel(unlike_those_before, 41); assert(t[6].name@[0] != t[40].name@[0]); assert(t[10].name@[0] != t[40].name@[0]); assert(t[12].name@[0] != t[40].name@[0]); assert(t[15].name@[0] != t[40].name@[0]); assert(t[18].name@[0] != t[40].name@[0]); assert(t[31].name@[0] != t[40].name@[0]); assert(t[34].name@[0] != t[40].name@[0]); assert(t[35].name@[0] != t[40].name@[0]); }
    lemma_unlike_those_before(t, 0, 40);
    assert(unlike_those_before(t, 0, 41)) by { reveal_with_fuel(unlike_those_before, 42); assert(t[1].name@[0] != t[41].name@[0]); assert(t[5].name@[0] != t[41].name@[0]); assert(t[7].name@[1] != t[41].name@[1]); assert(t[14].name@[0] != t[41].name@[0]); assert(t[20].name@[0] != t[41].name@[0]); assert(t[28].name@[0] != t[41].name@[0]); assert(t[29].name@[0] != t[41].name@[0]); }
    lemma_unlike_those_before(t, 0, 41);
    assert forall|i: int, j: int| 0 <= i < j < t.len() implies (#[trigger] t[i]).name@ != (#[trigger] t[j]).name@ by {
        lemma_unlike_those_before(t, 0, j);
    }
}

/// The brightest stars visible from Earth, brightest first, then Polaris:
/// it earns its place on position rather than brightness, within a degree
/// of the north celestial pole and so barely moving all night, and comes
/// last so it never takes a label from a brighter star.
pub fn stars() -> (v: Vec<Star>)
    ensures
        v@ == star_table(),
        v@.len() == STAR_COUNT,
        brightest_first(v@.drop_last()),
        v@.last().name@ == "Polaris"@,
        on_sphere(v@.last()),
        names_distinct(v@),
{
    let mut v: Vec<Star> = Vec::new();
    proof { reveal(brightest_first); }
    put(&mut v, Star { name: "Sirius", ra_cdeg: 10129, dec_cdeg: -1672, mag_centi: -146 });
    put(&mut v, Star { name: "Canopus", ra_cdeg: 9599, dec_cdeg: -5270, mag_centi: -74 });
    put(&mut v, Star { name: "Rigil Kent.", ra_cdeg: 21990, dec_cdeg: -6083, mag_centi: -27 });
    put(&mut v, Star { name: "Arcturus", ra_cdeg: 21392, dec_cdeg: 1918, mag_centi: -5 });
    put(&mut v, Star { name: "Vega", ra_cdeg: 27923, dec_cdeg: 3878, mag_centi: 3 });
    put(&mut v, Star { name: "Capella", ra_cdeg: 7917, dec_cdeg: 4600, mag_centi: 8 });
    put(&mut v, Star { name: "Rigel", ra_cdeg: 7863, dec_cdeg: -820, mag_centi: 13 });
    put(&mut v, Star { name: "Procyon", ra_cdeg: 11483, dec_cdeg: 522, mag_centi: 34 });
    put(&mut v, Star { name: "Achernar", ra_cdeg: 2443, dec_cdeg: -5724, mag_centi: 46 });
    put(&mut v, Star { name: "Betelgeuse", ra_cdeg: 8879, dec_cdeg: 741, mag_centi: 50 });
    put(&mut v, Star { name: "Hadar", ra_cdeg: 21096, dec_cdeg: -6037, mag_centi: 61 });
    put(&mut v, Star { name: "Altair", ra_cdeg: 29770, dec_cdeg: 887, mag_centi: 76 });
    put(&mut v, Star { name: "Acrux", ra_cdeg: 18665, dec_cdeg: -6310, mag_centi: 77 });
    put(&mut v, Star { name: "Aldebaran", ra_cdeg: 6898, dec_cdeg: 1651, mag_centi: 85 });
    put(&mut v, Star { name: "Antares", ra_cdeg: 24735, dec_cdeg: -2643, mag_centi: 91 });
    put(&mut v, Star { name: "Spica", ra_cdeg: 20130, dec_cdeg: -1116, mag_centi: 97 });
    put(&mut v, Star { name: "Pollux", ra_cdeg: 11633, dec_cdeg: 2803, mag_centi: 114 });
    put(&mut v, Star { name: "Fomalhaut", ra_cdeg: 34441, dec_cdeg: -2962, mag_centi: 116 });
    put(&mut v, Star { name: "Deneb", ra_cdeg: 31036, dec_cdeg: 4528, mag_centi: 125 });
    put(&mut v, Star { name: "Mimosa", ra_cdeg: 19193, dec_cdeg: -5969, mag_centi: 125 });
    put(&mut v, Star { name: "Regulus", ra_cdeg: 15209, dec_cdeg: 1197, mag_centi: 135 });
    put(&mut v, Star { name: "Adhara", ra_cdeg: 10466, dec_cdeg: -2897, mag_centi: 150 });
    put(&mut v, Star { name: "Castor", ra_cdeg: 11365, dec_cdeg: 3189, mag_centi: 158 });
    put(&mut v, Star { name: "Gacrux", ra_cdeg: 18779, dec_cdeg: -5711, mag_centi: 159 });
    put(&mut v, Star { name: "Shaula", ra_cdeg: 26340, dec_cdeg: -3710, mag_centi: 162 });
    put(&mut v, Star { name: "Bellatrix", ra_cdeg: 8128, dec_cdeg: 635, mag_centi: 163 });
    put(&mut v, Star { name: "Elnath", ra_cdeg: 8157, dec_cdeg: 2861, mag_centi: 165 });
    put(&mut v, Star { name: "Miaplacidus", ra_cdeg: 13830, dec_cdeg: -6972, mag_centi: 167 });
    put(&mut v, Star { name: "Alnilam", ra_cdeg: 8405, dec_cdeg: -120, mag_centi: 169 });
    put(&mut v, Star { name: "Alnitak", ra_cdeg: 8519, dec_cdeg: -194, mag_centi: 172 });
    put(&mut v, Star { name: "Alioth", ra_cdeg: 19351, dec_cdeg: 5596, mag_centi: 176 });
    put(&mut v, Star { name: "Dubhe", ra_cdeg: 16593, dec_cdeg: 6175, mag_centi: 179 });
    put(&mut v, Star { name: "Mirfak", ra_cdeg: 5108, dec_cdeg: 4986, mag_centi: 179 });
    put(&mut v, Star { name: "Kaus Aust.", ra_cdeg: 27604, dec_cdeg: -3438, mag_centi: 179 });
    put(&mut v, Star { name: "Wezen", ra_cdeg: 10710, dec_cdeg: -2639, mag_centi: 183 });
    put(&mut v, Star { name: "Avior", ra_cdeg: 12563, dec_cdeg: -5951, mag_centi: 186 });
    put(&mut v, Star { name: "Alkaid", ra_cdeg: 20689, dec_cdeg: 4931, mag_centi: 186 });
    put(&mut v, Star { name: "Alnair", ra_cdeg: 33206, dec_cdeg: -4696, mag_centi: 187 });
    put(&mut v, Star { name: "Sargas", ra_cdeg: 26433, dec_cdeg: -4300, mag_centi: 187 });
    put(&mut v, Star { name: "Menkalinan", ra_cdeg: 8988, dec_cdeg: 4495, mag_centi: 190 });
    put(&mut v, Star { name: "Merak", ra_cdeg: 16546, dec_cdeg: 5638, mag_centi: 237 });
    let ghost bright = v@;
    let polaris = Star { name: "Polaris", ra_cdeg: 3795, dec_cdeg: 8926, mag_centi: 198 };
    v.push(polaris);
    proof {
        assert(v@.drop_last() == bright);
        assert(v@ =~= star_table());
        lemma_star_names_distinct();
    }
    v
}

} // verus!
