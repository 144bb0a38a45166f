//! Data regions and the rule that assigns a country to one of them.

use vstd::prelude::*;
use vstd::string::*;
use crate::text::{same_text, to_uppercase, uppercase};

verus! {

/// The data regions a user's records can be stored in.
#[derive(Debug, Clone, Copy, PartialEq, Eq, Hash, Structural)]
pub enum DataRegion {
    /// European Union.
    EU,
    /// United States.
    US,
    /// Asia Pacific.
    APAC,
}

/// The name under which a region is stored.
pub open spec fn region_name(region: DataRegion) -> Seq<char> {
    match region {
        DataRegion::EU => "EU"@,
        DataRegion::US => "US"@,
        DataRegion::APAC => "APAC"@,
    }
}

/// The region that a stored name stands for, if any.
pub open spec fn region_named(name: Seq<char>) -> Option<DataRegion> {
    if name == "EU"@ {
        Some(DataRegion::EU)
    } else if name == "US"@ {
        Some(DataRegion::US)
    } else if name == "APAC"@ {
        Some(DataRegion::APAC)
    } else {
        None
    }
}

impl DataRegion {
    /// The name under which the region is stored.
    pub fn to_string(&self) -> (name: String)
        ensures
            name@ == region_name(*self),
    {
        match self {
            DataRegion::EU => String::from_str("EU"),
            DataRegion::US => String::from_str("US"),
            DataRegion::APAC => String::from_str("APAC"),
        }
    }

    /// Reads a stored name back; any other text gives `None`.
    pub fn from_string(s: &str) -> (region: Option<DataRegion>)
        ensures
            region == region_named(s@),
    {
        if same_text(s, "EU") {
            Some(DataRegion::EU)
        } else if same_text(s, "US") {
            Some(DataRegion::US)
        } else if same_text(s, "APAC") {
            Some(DataRegion::APAC)
        } else {
            None
        }
    }
}

/// Reading back the name of a region gives that region.
pub proof fn lemma_region_name_round_trip(region: DataRegion)
    ensures
        region_named(region_name(region)) == Some(region),
{
    reveal_strlit("EU");
    reveal_strlit("US");
    reveal_strlit("APAC");
    assert("EU"@.len() == 2 && "US"@.len() == 2 && "APAC"@.len() == 4);
    assert("EU"@[0] == 'E' && "US"@[0] == 'U');
}

/// Countries of the European Union and the European countries that follow
/// its data-protection rules.
pub open spec fn eu_countries() -> Seq<Seq<char>> {
    seq![
        "AT"@, "BE"@, "BG"@, "CY"@, "CZ"@, "DE"@, "DK"@, "EE"@, "ES"@, "FI"@,
        "FR"@, "GR"@, "HR"@, "HU"@, "IE"@, "IT"@, "LT"@, "LU"@, "LV"@, "MT"@,
        "NL"@, "PL"@, "PT"@, "RO"@, "SE"@, "SI"@, "SK"@, "GB"@, "UK"@, "IS"@,
        "LI"@, "NO"@, "CH"@, "AL"@, "BA"@, "BY"@, "MD"@, "ME"@, "MK"@, "RS"@,
        "UA"@, "XK"@,
    ]
}

/// Countries of Asia and the Pacific.
pub open spec fn apac_countries() -> Seq<Seq<char>> {
    seq![
        "AU"@, "JP"@, "KR"@, "SG"@, "HK"@, "TW"@, "NZ"@, "MY"@, "TH"@, "ID"@,
        "PH"@, "VN"@, "IN"@, "BD"@, "LK"@, "MM"@, "KH"@, "LA"@, "BN"@, "MN"@,
        "KZ"@, "KG"@, "TJ"@, "TM"@, "UZ"@, "AF"@, "PK"@, "NP"@, "BT"@, "MV"@,
        "CN"@, "FJ"@, "PG"@, "SB"@, "VU"@, "NC"@, "PF"@, "WS"@, "TO"@, "KI"@,
        "NR"@, "TV"@, "FM"@, "MH"@, "PW"@, "CK"@, "NU"@, "TK"@, "WF"@, "AS"@,
        "GU"@, "MP"@,
    ]
}

/// Countries of the Americas.
pub open spec fn us_countries() -> Seq<Seq<char>> {
    seq![
        "US"@, "CA"@, "MX"@, "BR"@, "AR"@, "CL"@, "CO"@, "PE"@, "VE"@, "EC"@,
        "BO"@, "UY"@, "PY"@, "GY"@, "SR"@, "FK"@, "GF"@, "GT"@, "HN"@, "SV"@,
        "NI"@, "CR"@, "PA"@, "BZ"@, "JM"@, "HT"@, "DO"@, "TT"@, "BB"@, "GD"@,
        "LC"@, "VC"@, "AG"@, "DM"@, "KN"@, "BS"@, "CU"@, "PR"@, "VI"@, "VG"@,
        "AI"@, "MS"@, "KY"@, "TC"@, "BM"@, "GL"@, "PM"@, "BQ"@, "CW"@, "AW"@,
        "SX"@, "MQ"@, "GP"@, "BL"@, "MF"@,
    ]
}

/// Countries of the Middle East and Africa, whose records are kept with the
/// European ones.
pub open spec fn mea_countries() -> Seq<Seq<char>> {
    seq![
        "AE"@, "SA"@, "QA"@, "KW"@, "BH"@, "OM"@, "JO"@, "LB"@, "SY"@, "IQ"@,
        "IR"@, "IL"@, "PS"@, "TR"@, "EG"@, "LY"@, "TN"@, "DZ"@, "MA"@, "SD"@,
        "SS"@, "ET"@, "ER"@, "DJ"@, "SO"@, "KE"@, "UG"@, "TZ"@, "RW"@, "BI"@,
        "CD"@, "CF"@, "CM"@, "TD"@, "NE"@, "NG"@, "BJ"@, "TG"@, "GH"@, "BF"@,
        "CI"@, "LR"@, "SL"@, "GN"@, "GW"@, "GM"@, "SN"@, "MR"@, "ML"@, "CV"@,
        "ST"@, "GQ"@, "GA"@, "CG"@, "AO"@, "ZM"@, "MW"@, "MZ"@, "ZW"@, "BW"@,
        "NA"@, "ZA"@, "LS"@, "SZ"@, "MG"@, "MU"@, "SC"@, "KM"@, "YT"@, "RE"@,
        "SH"@, "YE"@, "GE"@, "AM"@, "AZ"@,
    ]
}

/// One row for each code of `codes`, all with the same region.
pub open spec fn tagged(codes: Seq<Seq<char>>, region: DataRegion) -> Seq<(Seq<char>, DataRegion)> {
    codes.map_values(|code: Seq<char>| (code, region))
}

/// The rows of the country table in the order in which they are entered:
/// Europe, Asia Pacific, the Americas, then the Middle East and Africa.
pub open spec fn country_region_table() -> Seq<(Seq<char>, DataRegion)> {
    tagged(eu_countries(), DataRegion::EU) + tagged(apac_countries(), DataRegion::APAC) + tagged(
        us_countries(),
        DataRegion::US,
    ) + tagged(mea_countries(), DataRegion::EU)
}

/// What a table says of a code: its last row for that code decides, as a
/// later entry replaces an earlier one.
pub open spec fn table_lookup(table: Seq<(Seq<char>, DataRegion)>, code: Seq<char>) -> Option<
    DataRegion,
>
    decreases table.len(),
{
    if table.len() == 0 {
        None
    } else if table.last().0 == code {
        Some(table.last().1)
    } else {
        table_lookup(table.drop_last(), code)
    }
}

/// The region of an upper-case country code; a code that the table does not
/// hold belongs to the United States.
pub open spec fn region_of(code: Seq<char>) -> DataRegion {
    match table_lookup(country_region_table(), code) {
        Some(region) => region,
        None => DataRegion::US,
    }
}

/// The content of a table held in memory.
pub open spec fn table_view(rows: Seq<(&'static str, DataRegion)>) -> Seq<(Seq<char>, DataRegion)> {
    rows.map_values(|row: (&'static str, DataRegion)| (row.0@, row.1))
}

/// A lookup in two tables joined end to end asks the second one first.
pub proof fn lemma_lookup_concat(
    first: Seq<(Seq<char>, DataRegion)>,
    second: Seq<(Seq<char>, DataRegion)>,
    code: Seq<char>,
)
    ensures
        table_lookup(first + second, code) == match table_lookup(second, code) {
            Some(region) => Some(region),
            None => table_lookup(first, code),
        },
    decreases second.len(),
{
    if second.len() == 0 {
        assert(first + second =~= first);
    } else {
        assert((first + second).drop_last() =~= first + second.drop_last());
        assert((first + second).last() == second.last());
        lemma_lookup_concat(first, second.drop_last(), code);
    }
}

/// A table whose rows all carry one region answers with that region exactly
/// for the codes it lists.
pub proof fn lemma_lookup_tagged(codes: Seq<Seq<char>>, region: DataRegion, code: Seq<char>)
    ensures
        table_lookup(tagged(codes, region), code) == if codes.contains(code) {
            Some(region)
        } else {
            None
        },
    decreases codes.len(),
{
    let table = tagged(codes, region);
    if codes.len() == 0 {
    } else {
        assert(table.drop_last() =~= tagged(codes.drop_last(), region));
        lemma_lookup_tagged(codes.drop_last(), region, code);
        if codes.last() == code {
            assert(codes[codes.len() - 1] == code);
        } else if codes.contains(code) {
            let i = choose|i: int| 0 <= i < codes.len() && codes[i] == code;
            assert(codes.drop_last()[i] == code);
        } else if codes.drop_last().contains(code) {
            let i = choose|i: int| 0 <= i < codes.drop_last().len() && codes.drop_last()[i] == code;
            assert(codes[i] == code);
        }
    }
}

/// The country rule by lists: the Middle East and Africa and Europe belong
/// to the EU region, Asia and the Pacific to APAC, every other code to the US.
pub proof fn lemma_region_of_by_list(code: Seq<char>)
    ensures
        region_of(code) == if mea_countries().contains(code) {
            DataRegion::EU
        } else if us_countries().contains(code) {
            DataRegion::US
        } else if apac_countries().contains(code) {
            DataRegion::APAC
        } else if eu_countries().contains(code) {
            DataRegion::EU
        } else {
            DataRegion::US
        },
{
    let eu = tagged(eu_countries(), DataRegion::EU);
    let apac = tagged(apac_countries(), DataRegion::APAC);
    let us = tagged(us_countries(), DataRegion::US);
    let mea = tagged(mea_countries(), DataRegion::EU);
    lemma_lookup_concat(eu + apac + us, mea, code);
    lemma_lookup_concat(eu + apac, us, code);
    lemma_lookup_concat(eu, apac, code);
    lemma_lookup_tagged(eu_countries(), DataRegion::EU, code);
    lemma_lookup_tagged(apac_countries(), DataRegion::APAC, code);
    lemma_lookup_tagged(us_countries(), DataRegion::US, code);
    lemma_lookup_tagged(mea_countries(), DataRegion::EU, code);
}

fn eu_codes() -> (codes: Vec<&'static str>)
    ensures
        codes.deep_view() == eu_countries(),
{
    let codes: Vec<&'static str> = vec![
        "AT", "BE", "BG", "CY", "CZ", "DE", "DK", "EE", "ES", "FI",
        "FR", "GR", "HR", "HU", "IE", "IT", "LT", "LU", "LV", "MT",
        "NL", "PL", "PT", "RO", "SE", "SI", "SK", "GB", "UK", "IS",
        "LI", "NO", "CH", "AL", "BA", "BY", "MD", "ME", "MK", "RS",
        "UA", "XK",
    ];
    assert(codes.deep_view() =~= eu_countries());
    codes
}

fn apac_codes() -> (codes: Vec<&'static str>)
    ensures
        codes.deep_view() == apac_countries(),
{
    let codes: Vec<&'static str> = vec![
        "AU", "JP", "KR", "SG", "HK", "TW", "NZ", "MY", "TH", "ID",
        "PH", "VN", "IN", "BD", "LK", "MM", "KH", "LA", "BN", "MN",
        "KZ", "KG", "TJ", "TM", "UZ", "AF", "PK", "NP", "BT", "MV",
        "CN", "FJ", "PG", "SB", "VU", "NC", "PF", "WS", "TO", "KI",
        "NR", "TV", "FM", "MH", "PW", "CK", "NU", "TK", "WF", "AS",
        "GU", "MP",
    ];
    assert(codes.deep_view() =~= apac_countries());
    codes
}

fn us_codes() -> (codes: Vec<&'static str>)
    ensures
        codes.deep_view() == us_countries(),
{
    let codes: Vec<&'static str> = vec![
        "US", "CA", "MX", "BR", "AR", "CL", "CO", "PE", "VE", "EC",
        "BO", "UY", "PY", "GY", "SR", "FK", "GF", "GT", "HN", "SV",
        "NI", "CR", "PA", "BZ", "JM", "HT", "DO", "TT", "BB", "GD",
        "LC", "VC", "AG", "DM", "KN", "BS", "CU", "PR", "VI", "VG",
        "AI", "MS", "KY", "TC", "BM", "GL", "PM", "BQ", "CW", "AW",
        "SX", "MQ", "GP", "BL", "MF",
    ];
    assert(codes.deep_view() =~= us_countries());
    codes
}

fn mea_codes() -> (codes: Vec<&'static str>)
    ensures
        codes.deep_view() == mea_countries(),
{
    let codes: Vec<&'static str> = vec![
        "AE", "SA", "QA", "KW", "BH", "OM", "JO", "LB", "SY", "IQ",
        "IR", "IL", "PS", "TR", "EG", "LY", "TN", "DZ", "MA", "SD",
        "SS", "ET", "ER", "DJ", "SO", "KE", "UG", "TZ", "RW", "BI",
        "CD", "CF", "CM", "TD", "NE", "NG", "BJ", "TG", "GH", "BF",
        "CI", "LR", "SL", "GN", "GW", "GM", "SN", "MR", "ML", "CV",
        "ST", "GQ", "GA", "CG", "AO", "ZM", "MW", "MZ", "ZW", "BW",
        "NA", "ZA", "LS", "SZ", "MG", "MU", "SC", "KM", "YT", "RE",
        "SH", "YE", "GE", "AM", "AZ",
    ];
    assert(codes.deep_view() =~= mea_countries());
    codes
}

/// Enters one row for each code of `codes` at the end of `table`.
fn add_countries(
    table: &mut Vec<(&'static str, DataRegion)>,
    codes: &Vec<&'static str>,
    region: DataRegion,
)
    ensures
        table_view(final(table)@) == table_view(old(table)@) + tagged(codes.deep_view(), region),
{
    let mut i: usize = 0;
    while i < codes.len()
        invariant
            i <= codes.len(),
            table_view(table@) == table_view(old(table)@) + tagged(
                codes.deep_view().subrange(0, i as int),
                region,
            ),
        decreases codes.len() - i,
    {
        let ghost before = table@;
        table.push((codes[i], region));
        proof {
            let prefix = codes.deep_view().subrange(0, i as int);
            let next = codes.deep_view().subrange(0, i + 1);
            assert(codes.deep_view()[i as int] == codes@[i as int]@);
            assert(next =~= prefix.push(codes@[i as int]@));
            assert(table_view(table@) =~= table_view(before).push((codes@[i as int]@, region)));
            assert(tagged(next, region) =~= tagged(prefix, region).push((codes@[i as int]@, region)));
            assert(table_view(table@) =~= table_view(old(table)@) + tagged(next, region));
        }
        i += 1;
    }
    assert(codes.deep_view().subrange(0, i as int) =~= codes.deep_view());
}

/// Looks a code up as [`table_lookup`] says: the last row for it decides.
fn find_region(table: &Vec<(&'static str, DataRegion)>, code: &str) -> (found: Option<DataRegion>)
    ensures
        found == table_lookup(table_view(table@), code@),
{
    let mut found: Option<DataRegion> = None;
    let mut i: usize = 0;
    while i < table.len()
        invariant
            i <= table.len(),
            found == table_lookup(table_view(table@).subrange(0, i as int), code@),
        decreases table.len() - i,
    {
        proof {
            let next = table_view(table@).subrange(0, i + 1);
            assert(next.drop_last() =~= table_view(table@).subrange(0, i as int));
            assert(next.last() == (table@[i as int].0@, table@[i as int].1));
        }
        if same_text(table[i].0, code) {
            found = Some(table[i].1);
        }
        i += 1;
    }
    assert(table_view(table@).subrange(0, i as int) =~= table_view(table@));
    found
}

/// Assigns countries to data regions.
pub struct RegionService;

impl RegionService {
    /// The region in which the records of a country's users are kept. The
    /// code is read without regard to case; an unknown one gives the US.
    pub fn get_region_for_country(country_code: &str) -> (region: DataRegion)
        ensures
            region == region_of(uppercase(country_code@)),
    {
        let upper = to_uppercase(country_code);
        Self::region_for_code(upper.as_str())
    }

    /// The region of a country code that is in upper case already: what the
    /// country table says of it, and the US where the table does not hold it.
    pub fn region_for_code(code: &str) -> (region: DataRegion)
        ensures
            region == region_of(code@),
    {
        let table = Self::create_country_region_map();
        match find_region(&table, code) {
            Some(region) => region,
            None => DataRegion::US,
        }
    }

    /// The country table, row by row: Europe, Asia Pacific, the Americas,
    /// then the Middle East and Africa, which are kept with Europe.
    pub fn create_country_region_map() -> (table: Vec<(&'static str, DataRegion)>)
        ensures
            table_view(table@) == country_region_table(),
    {
        let mut table: Vec<(&'static str, DataRegion)> = Vec::new();
        assert(table_view(table@) =~= Seq::empty());
        add_countries(&mut table, &eu_codes(), DataRegion::EU);
        add_countries(&mut table, &apac_codes(), DataRegion::APAC);
        add_countries(&mut table, &us_codes(), DataRegion::US);
        add_countries(&mut table, &mea_codes(), DataRegion::EU);
        assert(table_view(table@) =~= country_region_table());
        table
    }

    /// All regions, in the order EU, US, APAC.
    pub fn get_all_regions() -> (regions: Vec<DataRegion>)
        ensures
            regions@ == seq![DataRegion::EU, DataRegion::US, DataRegion::APAC],
    {
        let mut regions: Vec<DataRegion> = Vec::new();
        regions.push(DataRegion::EU);
        regions.push(DataRegion::US);
        regions.push(DataRegion::APAC);
        assert(regions@ =~= seq![DataRegion::EU, DataRegion::US, DataRegion::APAC]);
        regions
    }

    /// Whether a country's records must stay in their region: this holds of
    /// the countries of the EU region.
    pub fn requires_strict_residency(country_code: &str) -> (strict: bool)
        ensures
            strict == (region_of(uppercase(country_code@)) == DataRegion::EU),
    {
        let region = Self::get_region_for_country(country_code);
        region == DataRegion::EU
    }
}

} // verus!
