use sof_chargen::careers::{get_affiliation, get_careers, get_rank, Affiliation, CareerTableEntry, CareerTableStar};
use sof_chargen::locations::{
    associated_faith, further_afield_culture, get_culture, get_faith, location_table, CareerTable,
    Culture, Demographic, Faith,
};
use sof_chargen::BirthOmen;

#[test]
fn location_table_rows() {
    let capital = location_table((1, 1, 1), 1);
    assert_eq!(capital.name, "The Imperial Capital of Duruza");
    assert_eq!(capital.career_table, CareerTable::ValiantEmpire);
    assert_eq!(capital.culture, Culture::Varlish);
    assert_eq!(capital.faith, Faith::Accorder);
    assert_eq!(capital.demographic, Demographic::Urban);
    assert!(!capital.far_afield);

    let sorrow = location_table((3, 5, 1), 1);
    assert_eq!(sorrow.name, "In the barren, hilly Sorrow");
    assert_eq!(sorrow.career_table, CareerTable::Nivena);
    assert_eq!(sorrow.secondary_faith, Faith::Accorder);
    assert_eq!(sorrow.demographic, Demographic::Border);

    let far = location_table((6, 2, 1), 3);
    assert!(far.far_afield);
    assert_eq!(far.culture, Culture::Kremish);
    assert_eq!(far.faith, Faith::Gytungrug);
    assert_eq!(far.secondary_faith, Faith::Gytungrug);
    assert_eq!(far.demographic, Demographic::Border);

    let deep = location_table((6, 6, 6), 1);
    assert_eq!(deep.name, "The brackish jungles of Rezankath");
    assert_eq!(deep.culture, Culture::Torienne);
    assert_eq!(deep.faith, Faith::TempleOfSeraf);
}

#[test]
fn culture_and_faith_lookups() {
    assert_eq!(further_afield_culture((1, 1)), Culture::Kremish);
    assert_eq!(further_afield_culture((4, 1)), Culture::Myrsc(Faith::KeystonePantheon));
    assert_eq!(further_afield_culture((6, 6)), Culture::Torienne);

    assert_eq!(associated_faith(Culture::Varlish), Faith::Accorder);
    assert_eq!(associated_faith(Culture::Kremish), Faith::Gytungrug);
    assert_eq!(
        associated_faith(Culture::Myrsc(Faith::UnseenHand)),
        Faith::UnseenHand
    );

    let loc = location_table((1, 1, 1), 1);
    assert_eq!(get_culture(&loc, (2, 1, 1, 1)), Culture::Varlish);
    assert_eq!(get_culture(&loc, (4, 1, 1, 1)), Culture::Kremish);
    assert_eq!(get_culture(&loc, (6, 4, 1, 1)), Culture::Revic);

    // a Kremish upbringing turns the local-faith row into Gytungrug
    assert_eq!(get_faith(&loc, Culture::Kremish, (1, 1)), Faith::Gytungrug);
    assert_eq!(get_faith(&loc, Culture::Varlish, (1, 1)), Faith::Accorder);
    assert_eq!(get_faith(&loc, Culture::Varlish, (3, 1)), Faith::IdealLodges);
    assert_eq!(get_faith(&loc, Culture::Revic, (4, 1)), Faith::OrodTast);
    assert_eq!(get_faith(&loc, Culture::Varlish, (6, 6)), Faith::TempleOfSeraf);
}

#[test]
fn affiliation_bands() {
    let urban = location_table((1, 1, 1), 1);
    assert_eq!(get_affiliation(&urban, 91), Affiliation::Slumfolk);
    assert_eq!(get_affiliation(&urban, 90), Affiliation::Criminals);
    assert_eq!(get_affiliation(&urban, 76), Affiliation::Criminals);
    assert_eq!(get_affiliation(&urban, 75), Affiliation::Vagabonds);
    assert_eq!(get_affiliation(&urban, 51), Affiliation::Performers);
    assert_eq!(get_affiliation(&urban, 28), Affiliation::Watch);
    assert_eq!(get_affiliation(&urban, 11), Affiliation::Scholars);
    assert_eq!(get_affiliation(&urban, 10), Affiliation::Gentry);
    assert_eq!(get_affiliation(&urban, 1), Affiliation::Gentry);
}

#[test]
fn rank_die_columns() {
    let urban = location_table((1, 1, 1), 1);
    // the rank die under an affiliation: a halved die for most columns
    assert_eq!(get_rank(&urban, Affiliation::Slumfolk, 1), 1);
    assert_eq!(get_rank(&urban, Affiliation::Slumfolk, 6), 3);
    assert_eq!(get_rank(&urban, Affiliation::Plebeians, 6), 6);
    assert_eq!(get_rank(&urban, Affiliation::Scholars, 6), 7);
    assert_eq!(get_rank(&urban, Affiliation::Gentry, 6), 6);
    // every column lands within the valid rank band
    for aff in [
        Affiliation::Slumfolk,
        Affiliation::Criminals,
        Affiliation::Vagabonds,
        Affiliation::Peasantry,
        Affiliation::Performers,
        Affiliation::Plebeians,
        Affiliation::Watch,
        Affiliation::Army,
        Affiliation::Scholars,
        Affiliation::Gentry,
    ] {
        for d6 in 1..=6 {
            let r = get_rank(&urban, aff, d6);
            assert!((0..=9).contains(&r));
        }
    }
}

#[test]
fn career_table_entries() {
    let urban = location_table((1, 1, 1), 1);
    match get_careers(&urban, Affiliation::Slumfolk, 0) {
        CareerTableEntry::Career(c, CareerTableStar::Open) => {
            assert_eq!(c.name, "Outcast");
        }
        _ => panic!("expected the rank-zero slumfolk career"),
    }
    match get_careers(&urban, Affiliation::Slumfolk, 3) {
        CareerTableEntry::Careers((c1, _), (c2, s2)) => {
            assert_eq!(c1.name, "Peddler");
            assert_eq!(c2.name, "Dewisetic");
            assert_eq!(
                s2,
                CareerTableStar::NeedsFaithAndCulture(Faith::Gytungrug, Culture::Kremish)
            );
        }
        _ => panic!("expected the gated pair"),
    }
    assert!(matches!(
        get_careers(&urban, Affiliation::Slumfolk, 7),
        CareerTableEntry::ChangeAffiliation(Affiliation::Plebeians)
    ));
    assert!(matches!(
        get_careers(&urban, Affiliation::Criminals, 8),
        CareerTableEntry::RemainAtRank(5)
    ));
    assert!(matches!(
        get_careers(&urban, Affiliation::Gentry, 2),
        CareerTableEntry::Reroll
    ));
    assert!(matches!(
        get_careers(&urban, Affiliation::Plebeians, 0),
        CareerTableEntry::RerollWithDisadvantage
    ));
}

#[test]
fn omen_descriptions() {
    assert_eq!(
        BirthOmen::PropheticSigns(2).describe(),
        "Prophetic Signs (uses: 2)"
    );
    assert_eq!(BirthOmen::PropheticSigns(0).describe(), "Prophetic Signs");
    assert_eq!(
        BirthOmen::ProsperousConstellations.describe(),
        "Prosperous Constellations"
    );
    assert_eq!(BirthOmen::PracticallyMinded.describe(), "Practically-Minded");
}
