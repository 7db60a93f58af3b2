//! Birthplace data: cultures, faiths and the location table, with the
//! dice-keyed lookup functions that pick a birthplace, an upbringing
//! culture and an upbringing faith. Each lookup is a pure function of the
//! dice handed to it, stated exactly by its spec mirror.

use vstd::prelude::*;

verus! {

#[derive(Copy, Clone, Debug, PartialEq, Eq, Structural)]
pub enum Faith {
    Accorder,
    IdealLodges,
    Gytungrug,
    OrodTast,
    Blaithsworn,
    KeystonePantheon,
    Grevite,
    Flametouched,
    AmberheartCult,
    UnseenHand,
    TempleOfSeraf,
    Irreligious,
}

#[derive(Copy, Clone, Debug, PartialEq, Eq, Structural)]
pub enum Culture {
    Varlish,
    Kremish,
    Revic,
    Myrsc(Faith),
    Clovienne,
    Grevolin,
    Shander,
    Torienne,
}

#[derive(Copy, Clone, Debug, PartialEq, Eq, Structural)]
pub enum Demographic {
    Urban,
    Rural,
    Border,
}

#[derive(Copy, Clone, Debug, PartialEq, Eq, Structural)]
pub enum CareerTable {
    ValiantEmpire,
    Nivena,
    Marolaw,
}

#[derive(Copy, Clone, Debug)]
pub struct Location {
    pub name: &'static str,
    pub culture: Culture,
    pub secondary_culture: Culture,
    pub faith: Faith,
    pub secondary_faith: Faith,
    pub demographic: Demographic,
    pub career_table: CareerTable,
    pub far_afield: bool,
}

pub open spec fn spec_faith_name(f: Faith) -> Seq<char> {
    match f {
        Faith::Accorder => "White Flame Accord"@,
        Faith::IdealLodges => "Ideal Lodges"@,
        Faith::Gytungrug => "Gytungrug"@,
        Faith::OrodTast => "Orod Tâst"@,
        Faith::Blaithsworn => "Blaithsworn"@,
        Faith::KeystonePantheon => "Keystone Pantheon"@,
        Faith::Grevite => "Grevite"@,
        Faith::Flametouched => "Flametouched"@,
        Faith::AmberheartCult => "Amberheart Cult"@,
        Faith::UnseenHand => "The Unseen Hand"@,
        Faith::TempleOfSeraf => "The Temple of Seraf"@,
        Faith::Irreligious => "Irreligious"@,
    }
}

impl Faith {
    /// The faith's full name as shown to the player.
    pub fn name(&self) -> (r: &'static str)
        ensures
            r@ == spec_faith_name(*self),
    {
        match self {
            Faith::Accorder => "White Flame Accord",
            Faith::IdealLodges => "Ideal Lodges",
            Faith::Gytungrug => "Gytungrug",
            Faith::OrodTast => "Orod Tâst",
            Faith::Blaithsworn => "Blaithsworn",
            Faith::KeystonePantheon => "Keystone Pantheon",
            Faith::Grevite => "Grevite",
            Faith::Flametouched => "Flametouched",
            Faith::AmberheartCult => "Amberheart Cult",
            Faith::UnseenHand => "The Unseen Hand",
            Faith::TempleOfSeraf => "The Temple of Seraf",
            Faith::Irreligious => "Irreligious",
        }
    }
}

/// The bare variant name of a faith, as used in career-gate questions.
pub open spec fn spec_faith_variant(f: Faith) -> Seq<char> {
    match f {
        Faith::Accorder => "Accorder"@,
        Faith::IdealLodges => "IdealLodges"@,
        Faith::Gytungrug => "Gytungrug"@,
        Faith::OrodTast => "OrodTast"@,
        Faith::Blaithsworn => "Blaithsworn"@,
        Faith::KeystonePantheon => "KeystonePantheon"@,
        Faith::Grevite => "Grevite"@,
        Faith::Flametouched => "Flametouched"@,
        Faith::AmberheartCult => "AmberheartCult"@,
        Faith::UnseenHand => "UnseenHand"@,
        Faith::TempleOfSeraf => "TempleOfSeraf"@,
        Faith::Irreligious => "Irreligious"@,
    }
}

impl Faith {
    /// The faith's bare variant name.
    pub fn variant_name(&self) -> (r: &'static str)
        ensures
            r@ == spec_faith_variant(*self),
    {
        match self {
            Faith::Accorder => "Accorder",
            Faith::IdealLodges => "IdealLodges",
            Faith::Gytungrug => "Gytungrug",
            Faith::OrodTast => "OrodTast",
            Faith::Blaithsworn => "Blaithsworn",
            Faith::KeystonePantheon => "KeystonePantheon",
            Faith::Grevite => "Grevite",
            Faith::Flametouched => "Flametouched",
            Faith::AmberheartCult => "AmberheartCult",
            Faith::UnseenHand => "UnseenHand",
            Faith::TempleOfSeraf => "TempleOfSeraf",
            Faith::Irreligious => "Irreligious",
        }
    }
}

pub open spec fn spec_culture_name(c: Culture) -> Seq<char> {
    match c {
        Culture::Varlish => "Varlish"@,
        Culture::Kremish => "Kremish"@,
        Culture::Revic => "Revic"@,
        Culture::Myrsc(_) => "Myrsc"@,
        Culture::Clovienne => "Clovienne"@,
        Culture::Grevolin => "Grevolin"@,
        Culture::Shander => "Shander"@,
        Culture::Torienne => "Torienne"@,
    }
}

impl Culture {
    /// The culture's name as shown to the player; the Myrsc variants all
    /// read as Myrsc, whatever faith they carry.
    pub fn name(&self) -> (r: &'static str)
        ensures
            r@ == spec_culture_name(*self),
    {
        match self {
            Culture::Varlish => "Varlish",
            Culture::Kremish => "Kremish",
            Culture::Revic => "Revic",
            Culture::Myrsc(_) => "Myrsc",
            Culture::Clovienne => "Clovienne",
            Culture::Grevolin => "Grevolin",
            Culture::Shander => "Shander",
            Culture::Torienne => "Torienne",
        }
    }
}

/// The faith most closely tied to a culture.
pub open spec fn spec_associated_faith(culture: Culture) -> Faith {
    match culture {
        Culture::Varlish => Faith::Accorder,
        Culture::Kremish => Faith::Gytungrug,
        Culture::Revic => Faith::OrodTast,
        Culture::Myrsc(faith) => faith,
        Culture::Clovienne => Faith::Accorder,
        Culture::Grevolin => Faith::Grevite,
        Culture::Shander => Faith::Accorder,
        Culture::Torienne => Faith::TempleOfSeraf,
    }
}

pub fn associated_faith(culture: Culture) -> (r: Faith)
    ensures
        r == spec_associated_faith(culture),
{
    match culture {
        Culture::Varlish => Faith::Accorder,
        Culture::Kremish => Faith::Gytungrug,
        Culture::Revic => Faith::OrodTast,
        Culture::Myrsc(faith) => faith,
        Culture::Clovienne => Faith::Accorder,
        Culture::Grevolin => Faith::Grevite,
        Culture::Shander => Faith::Accorder,
        Culture::Torienne => Faith::TempleOfSeraf,
    }
}

/// The culture drawn when an upbringing reaches past the three local
/// powers, keyed by one die and, on its highest face, a second.
pub open spec fn spec_further_afield_culture(d6s: (i8, i8)) -> Culture {
    if d6s.0 == 1 || d6s.0 == 2 {
        Culture::Kremish
    } else if d6s.0 == 3 {
        Culture::Revic
    } else if d6s.0 == 4 {
        Culture::Myrsc(Faith::KeystonePantheon)
    } else if d6s.0 == 5 {
        Culture::Clovienne
    } else {
        if d6s.1 == 1 || d6s.1 == 2 {
            Culture::Grevolin
        } else if d6s.1 == 3 {
            Culture::Myrsc(Faith::AmberheartCult)
        } else if d6s.1 == 4 {
            Culture::Shander
        } else if d6s.1 == 5 {
            Culture::Myrsc(Faith::AmberheartCult)
        } else {
            Culture::Torienne
        }
    }
}

pub fn further_afield_culture(d6s: (i8, i8)) -> (r: Culture)
    requires
        1 <= d6s.0 <= 6,
        1 <= d6s.1 <= 6,
    ensures
        r == spec_further_afield_culture(d6s),
{
    match d6s.0 {
        1 | 2 => Culture::Kremish,
        3 => Culture::Revic,
        4 => Culture::Myrsc(Faith::KeystonePantheon),
        5 => Culture::Clovienne,
        _ => match d6s.1 {
            1 | 2 => Culture::Grevolin,
            3 => Culture::Myrsc(Faith::AmberheartCult),
            4 => Culture::Shander,
            5 => Culture::Myrsc(Faith::AmberheartCult),
            _ => Culture::Torienne,
        },
    }
}

/// The birthplace table, keyed by three six-sided dice; a fourth,
/// three-sided die picks the demographic of the far-afield homelands,
/// which never use the secondary faith or culture mechanic and so repeat
/// their primary entries there.
pub open spec fn spec_location_table(d6s: (i8, i8, i8), d3: i8) -> Location {
    if d6s.0 == 1 || d6s.0 == 2 {
        let base = Location {
            name: "",
            culture: Culture::Varlish,
            secondary_culture: Culture::Kremish,
            faith: Faith::Accorder,
            secondary_faith: Faith::IdealLodges,
            demographic: Demographic::Urban,
            career_table: CareerTable::ValiantEmpire,
            far_afield: false,
        };
        if d6s.1 == 1 {
            Location { name: "The Imperial Capital of Duruza", ..base }
        } else if d6s.1 == 2 {
            Location { name: "Luruna, the North Sentinel", ..base }
        } else if d6s.1 == 3 {
            Location {
                name: "The volcanic farmlands around Caldis",
                demographic: Demographic::Rural,
                ..base
            }
        } else if d6s.1 == 4 {
            Location {
                name: "The treacherous Mervaal marshes",
                demographic: Demographic::Rural,
                ..base
            }
        } else if d6s.1 == 5 {
            Location {
                name: "Along the dusty Bone Road to Orvaal",
                secondary_culture: Culture::Revic,
                demographic: Demographic::Border,
                ..base
            }
        } else {
            Location {
                name: "In the shadow of Mount Cothornis",
                secondary_culture: Culture::Revic,
                demographic: Demographic::Border,
                ..base
            }
        }
    } else if d6s.0 == 3 {
        let base = Location {
            name: "",
            culture: Culture::Varlish,
            secondary_culture: Culture::Kremish,
            faith: Faith::IdealLodges,
            secondary_faith: Faith::Gytungrug,
            demographic: Demographic::Urban,
            career_table: CareerTable::Nivena,
            far_afield: false,
        };
        if d6s.1 == 1 {
            Location { name: "Niiva, City of Intrigues", ..base }
        } else if d6s.1 == 2 {
            Location {
                name: "The Fortified Port of Murga",
                secondary_culture: Culture::Revic,
                secondary_faith: Faith::OrodTast,
                ..base
            }
        } else if d6s.1 == 3 {
            Location {
                name: "The riverlands around Faraxi",
                demographic: Demographic::Rural,
                ..base
            }
        } else if d6s.1 == 4 {
            Location {
                name: "Around the Chalys Pinewoods",
                demographic: Demographic::Rural,
                ..base
            }
        } else if d6s.1 == 5 {
            Location {
                name: "In the barren, hilly Sorrow",
                secondary_faith: Faith::Accorder,
                demographic: Demographic::Border,
                ..base
            }
        } else {
            Location {
                name: "A colony on an island or by Suruso",
                secondary_culture: Culture::Revic,
                secondary_faith: Faith::OrodTast,
                demographic: Demographic::Border,
                ..base
            }
        }
    } else if d6s.0 == 4 || d6s.0 == 5 {
        let base = Location {
            name: "",
            culture: Culture::Revic,
            secondary_culture: Culture::Varlish,
            faith: Faith::Accorder,
            secondary_faith: Faith::OrodTast,
            demographic: Demographic::Urban,
            career_table: CareerTable::Marolaw,
            far_afield: false,
        };
        if d6s.1 == 1 {
            Location { name: "The Administrative Capital at Marodell", ..base }
        } else if d6s.1 == 2 {
            Location { name: "Varnoss, the Bloody Bulwark", ..base }
        } else if d6s.1 == 3 {
            Location {
                name: "Stravarn and the lush southeast coast",
                demographic: Demographic::Rural,
                ..base
            }
        } else if d6s.1 == 4 {
            Location {
                name: "The rugged woodland of the Harsten Vale",
                demographic: Demographic::Rural,
                ..base
            }
        } else if d6s.1 == 5 {
            Location {
                name: "The sun-bleached Dry Coast",
                secondary_faith: Faith::IdealLodges,
                demographic: Demographic::Border,
                ..base
            }
        } else {
            Location {
                name: "The wood and marshland of the Rimelight",
                secondary_faith: Faith::IdealLodges,
                demographic: Demographic::Border,
                ..base
            }
        }
    } else {
        let demographic = if d3 == 1 {
            Demographic::Urban
        } else if d3 == 2 {
            Demographic::Rural
        } else {
            Demographic::Border
        };
        let (name, culture, faith, career_table): (&'static str, Culture, Faith, CareerTable) = if d6s.1
            == 1 {
            ("The Fallen Kingdom of  Kr’meche", Culture::Kremish, Faith::Gytungrug, CareerTable::ValiantEmpire)
        } else if d6s.1 == 2 {
            ("Gollg’rym, the frost-bitten wastes", Culture::Kremish, Faith::Gytungrug, CareerTable::Marolaw)
        } else if d6s.1 == 3 {
            ("The Ash Mountains, or the Sea of Shades", Culture::Revic, Faith::OrodTast, CareerTable::Marolaw)
        } else if d6s.1 == 4 {
            ("The isles of the Carmine Sea Compact", Culture::Myrsc(Faith::KeystonePantheon), Faith::KeystonePantheon, CareerTable::Nivena)
        } else if d6s.1 == 5 {
            ("The bustling Thousand Spires Coast", Culture::Clovienne, Faith::Accorder, CareerTable::ValiantEmpire)
        } else {
            if d6s.2 == 1 {
                ("The hidebound, riven Rose Coast", Culture::Grevolin, Faith::Grevite, CareerTable::Nivena)
            } else if d6s.2 == 2 {
                ("The plague-blighted Crown Coast", Culture::Grevolin, Faith::Flametouched, CareerTable::Nivena)
            } else if d6s.2 == 3 {
                ("A city clinging to the Umbral Coast", Culture::Myrsc(Faith::AmberheartCult), Faith::AmberheartCult, CareerTable::Nivena)
            } else if d6s.2 == 4 {
                ("The blasted dunes of the Great Flat", Culture::Shander, Faith::Accorder, CareerTable::Marolaw)
            } else if d6s.2 == 5 {
                ("Neminyah, the rotting heart", Culture::Myrsc(Faith::UnseenHand), Faith::UnseenHand, CareerTable::Marolaw)
            } else {
                ("The brackish jungles of Rezankath", Culture::Torienne, Faith::TempleOfSeraf, CareerTable::ValiantEmpire)
            }
        };
        Location {
            name,
            culture,
            secondary_culture: culture,
            faith,
            secondary_faith: faith,
            demographic,
            career_table,
            far_afield: true,
        }
    }
}

pub fn location_table(d6s: (i8, i8, i8), d3: i8) -> (r: Location)
    requires
        1 <= d6s.0 <= 6,
        1 <= d6s.1 <= 6,
        1 <= d6s.2 <= 6,
        1 <= d3 <= 3,
    ensures
        r == spec_location_table(d6s, d3),
{
    if d6s.0 <= 2 {
        let base = Location {
            name: "",
            culture: Culture::Varlish,
            secondary_culture: Culture::Kremish,
            faith: Faith::Accorder,
            secondary_faith: Faith::IdealLodges,
            demographic: Demographic::Urban,
            career_table: CareerTable::ValiantEmpire,
            far_afield: false,
        };
        match d6s.1 {
            1 => Location { name: "The Imperial Capital of Duruza", ..base },
            2 => Location { name: "Luruna, the North Sentinel", ..base },
            3 => Location {
                name: "The volcanic farmlands around Caldis",
                demographic: Demographic::Rural,
                ..base
            },
            4 => Location {
                name: "The treacherous Mervaal marshes",
                demographic: Demographic::Rural,
                ..base
            },
            5 => Location {
                name: "Along the dusty Bone Road to Orvaal",
                secondary_culture: Culture::Revic,
                demographic: Demographic::Border,
                ..base
            },
            _ => Location {
                name: "In the shadow of Mount Cothornis",
                secondary_culture: Culture::Revic,
                demographic: Demographic::Border,
                ..base
            },
        }
    } else if d6s.0 == 3 {
        let base = Location {
            name: "",
            culture: Culture::Varlish,
            secondary_culture: Culture::Kremish,
            faith: Faith::IdealLodges,
            secondary_faith: Faith::Gytungrug,
            demographic: Demographic::Urban,
            career_table: CareerTable::Nivena,
            far_afield: false,
        };
        match d6s.1 {
            1 => Location { name: "Niiva, City of Intrigues", ..base },
            2 => Location {
                name: "The Fortified Port of Murga",
                secondary_culture: Culture::Revic,
                secondary_faith: Faith::OrodTast,
                ..base
            },
            3 => Location {
                name: "The riverlands around Faraxi",
                demographic: Demographic::Rural,
                ..base
            },
            4 => Location {
                name: "Around the Chalys Pinewoods",
                demographic: Demographic::Rural,
                ..base
            },
            5 => Location {
                name: "In the barren, hilly Sorrow",
                secondary_faith: Faith::Accorder,
                demographic: Demographic::Border,
                ..base
            },
            _ => Location {
                name: "A colony on an island or by Suruso",
                secondary_culture: Culture::Revic,
                secondary_faith: Faith::OrodTast,
                demographic: Demographic::Border,
                ..base
            },
        }
    } else if d6s.0 <= 5 {
        let base = Location {
            name: "",
            culture: Culture::Revic,
            secondary_culture: Culture::Varlish,
            faith: Faith::Accorder,
            secondary_faith: Faith::OrodTast,
            demographic: Demographic::Urban,
            career_table: CareerTable::Marolaw,
            far_afield: false,
        };
        match d6s.1 {
            1 => Location { name: "The Administrative Capital at Marodell", ..base },
            2 => Location { name: "Varnoss, the Bloody Bulwark", ..base },
            3 => Location {
                name: "Stravarn and the lush southeast coast",
                demographic: Demographic::Rural,
                ..base
            },
            4 => Location {
                name: "The rugged woodland of the Harsten Vale",
                demographic: Demographic::Rural,
                ..base
            },
            5 => Location {
                name: "The sun-bleached Dry Coast",
                secondary_faith: Faith::IdealLodges,
                demographic: Demographic::Border,
                ..base
            },
            _ => Location {
                name: "The wood and marshland of the Rimelight",
                secondary_faith: Faith::IdealLodges,
                demographic: Demographic::Border,
                ..base
            },
        }
    } else {
        let demographic = match d3 {
            1 => Demographic::Urban,
            2 => Demographic::Rural,
            _ => Demographic::Border,
        };
        let (name, culture, faith, career_table): (&'static str, Culture, Faith, CareerTable) =
            match d6s.1 {
            1 => (
                "The Fallen Kingdom of  Kr’meche",
                Culture::Kremish,
                Faith::Gytungrug,
                CareerTable::ValiantEmpire,
            ),
            2 => (
                "Gollg’rym, the frost-bitten wastes",
                Culture::Kremish,
                Faith::Gytungrug,
                CareerTable::Marolaw,
            ),
            3 => (
                "The Ash Mountains, or the Sea of Shades",
                Culture::Revic,
                Faith::OrodTast,
                CareerTable::Marolaw,
            ),
            4 => (
                "The isles of the Carmine Sea Compact",
                Culture::Myrsc(Faith::KeystonePantheon),
                Faith::KeystonePantheon,
                CareerTable::Nivena,
            ),
            5 => (
                "The bustling Thousand Spires Coast",
                Culture::Clovienne,
                Faith::Accorder,
                CareerTable::ValiantEmpire,
            ),
            _ => match d6s.2 {
                1 => (
                    "The hidebound, riven Rose Coast",
                    Culture::Grevolin,
                    Faith::Grevite,
                    CareerTable::Nivena,
                ),
                2 => (
                    "The plague-blighted Crown Coast",
                    Culture::Grevolin,
                    Faith::Flametouched,
                    CareerTable::Nivena,
                ),
                3 => (
                    "A city clinging to the Umbral Coast",
                    Culture::Myrsc(Faith::AmberheartCult),
                    Faith::AmberheartCult,
                    CareerTable::Nivena,
                ),
                4 => (
                    "The blasted dunes of the Great Flat",
                    Culture::Shander,
                    Faith::Accorder,
                    CareerTable::Marolaw,
                ),
                5 => (
                    "Neminyah, the rotting heart",
                    Culture::Myrsc(Faith::UnseenHand),
                    Faith::UnseenHand,
                    CareerTable::Marolaw,
                ),
                _ => (
                    "The brackish jungles of Rezankath",
                    Culture::Torienne,
                    Faith::TempleOfSeraf,
                    CareerTable::ValiantEmpire,
                ),
            },
        };
        Location {
            name,
            culture,
            secondary_culture: culture,
            faith,
            secondary_faith: faith,
            demographic,
            career_table,
            far_afield: true,
        }
    }
}

/// The upbringing culture for a birthplace, keyed by up to four six-sided
/// dice: the far-afield homelands fix it, elsewhere the first die picks the
/// local, secondary or a further-afield culture.
pub open spec fn spec_get_culture(location: Location, d6s: (i8, i8, i8, i8)) -> Culture {
    if location.far_afield {
        location.culture
    } else if d6s.0 <= 3 {
        location.culture
    } else if d6s.0 <= 5 {
        location.secondary_culture
    } else {
        if d6s.1 <= 3 {
            Culture::Varlish
        } else if d6s.1 == 4 {
            Culture::Revic
        } else if d6s.1 == 5 {
            Culture::Kremish
        } else {
            spec_further_afield_culture((d6s.2, d6s.3))
        }
    }
}

pub fn get_culture(location: &Location, d6s: (i8, i8, i8, i8)) -> (r: Culture)
    requires
        1 <= d6s.0 <= 6,
        1 <= d6s.1 <= 6,
        1 <= d6s.2 <= 6,
        1 <= d6s.3 <= 6,
    ensures
        r == spec_get_culture(*location, d6s),
{
    if location.far_afield {
        return location.culture;
    }
    match d6s.0 {
        1 | 2 | 3 => location.culture,
        4 | 5 => location.secondary_culture,
        _ => match d6s.1 {
            1 | 2 | 3 => Culture::Varlish,
            4 => Culture::Revic,
            5 => Culture::Kremish,
            _ => further_afield_culture((d6s.2, d6s.3)),
        },
    }
}

/// The upbringing faith for a birthplace and culture, keyed by up to two
/// six-sided dice; a Kremish upbringing turns the local-faith row into
/// Gytungrug.
pub open spec fn spec_get_faith(location: Location, culture: Culture, d6s: (i8, i8)) -> Faith {
    if location.far_afield {
        location.faith
    } else if d6s.0 <= 2 {
        if culture == Culture::Kremish {
            Faith::Gytungrug
        } else {
            location.faith
        }
    } else if d6s.0 == 3 {
        location.secondary_faith
    } else if d6s.0 <= 5 {
        spec_associated_faith(culture)
    } else {
        if d6s.1 <= 3 {
            Faith::Accorder
        } else if d6s.1 <= 5 {
            Faith::Irreligious
        } else {
            Faith::TempleOfSeraf
        }
    }
}

pub fn get_faith(location: &Location, culture: Culture, d6s: (i8, i8)) -> (r: Faith)
    requires
        1 <= d6s.0 <= 6,
        1 <= d6s.1 <= 6,
    ensures
        r == spec_get_faith(*location, culture, d6s),
{
    if location.far_afield {
        return location.faith;
    }
    match d6s.0 {
        1 | 2 => {
            if culture == Culture::Kremish {
                Faith::Gytungrug
            } else {
                location.faith
            }
        },
        3 => location.secondary_faith,
        4 | 5 => associated_faith(culture),
        _ => match d6s.1 {
            1 | 2 | 3 => Faith::Accorder,
            4 | 5 => Faith::Irreligious,
            _ => Faith::TempleOfSeraf,
        },
    }
}

} // verus!
