use vstd::prelude::*;

use crate::chess_structs::{InteractionType, PokemonType};
use rand::seq::SliceRandom;

verus! {

/// The type-effectiveness table: what happens when a piece of affinity
/// `attacker` moves onto a square whose content has affinity `defender`.
/// A neutral defender (an empty square) always gives `Normal`.
pub open spec fn matchup(attacker: PokemonType, defender: PokemonType) -> InteractionType {
    match attacker {
        PokemonType::Normal => match defender {
            PokemonType::Rock | PokemonType::Steel => InteractionType::NotVeryEffective,
            PokemonType::GhostType => InteractionType::NoEffect,
            _ => InteractionType::Normal,
        },
        PokemonType::Fire => match defender {
            PokemonType::Grass | PokemonType::Ice | PokemonType::Bug | PokemonType::Steel => InteractionType::SuperEffective,
            PokemonType::Fire | PokemonType::Water | PokemonType::Rock | PokemonType::Dragon => InteractionType::NotVeryEffective,
            _ => InteractionType::Normal,
        },
        PokemonType::Water => match defender {
            PokemonType::Fire | PokemonType::Ground | PokemonType::Rock => InteractionType::SuperEffective,
            PokemonType::Water | PokemonType::Grass | PokemonType::Dragon => InteractionType::NotVeryEffective,
            _ => InteractionType::Normal,
        },
        PokemonType::Electric => match defender {
            PokemonType::Water | PokemonType::Flying => InteractionType::SuperEffective,
            PokemonType::Electric | PokemonType::Grass | PokemonType::Dragon => InteractionType::NotVeryEffective,
            PokemonType::Ground => InteractionType::NoEffect,
            _ => InteractionType::Normal,
        },
        PokemonType::Grass => match defender {
            PokemonType::Water | PokemonType::Ground | PokemonType::Rock => InteractionType::SuperEffective,
            PokemonType::Fire | PokemonType::Grass | PokemonType::Poison | PokemonType::Flying | PokemonType::Bug | PokemonType::Dragon | PokemonType::Steel => InteractionType::NotVeryEffective,
            _ => InteractionType::Normal,
        },
        PokemonType::Ice => match defender {
            PokemonType::Grass | PokemonType::Ground | PokemonType::Flying | PokemonType::Dragon => InteractionType::SuperEffective,
            PokemonType::Fire | PokemonType::Water | PokemonType::Ice | PokemonType::Steel => InteractionType::NotVeryEffective,
            _ => InteractionType::Normal,
        },
        PokemonType::Fighting => match defender {
            PokemonType::Normal | PokemonType::Ice | PokemonType::Rock | PokemonType::Dark | PokemonType::Steel => InteractionType::SuperEffective,
            PokemonType::Poison | PokemonType::Flying | PokemonType::Psychic | PokemonType::Bug | PokemonType::Fairy => InteractionType::NotVeryEffective,
            PokemonType::GhostType => InteractionType::NoEffect,
            _ => InteractionType::Normal,
        },
        PokemonType::Poison => match defender {
            PokemonType::Grass | PokemonType::Fairy => InteractionType::SuperEffective,
            PokemonType::Poison | PokemonType::Ground | PokemonType::Rock | PokemonType::GhostType => InteractionType::NotVeryEffective,
            PokemonType::Steel => InteractionType::NoEffect,
            _ => InteractionType::Normal,
        },
        PokemonType::Ground => match defender {
            PokemonType::Fire | PokemonType::Electric | PokemonType::Poison | PokemonType::Rock | PokemonType::Steel => InteractionType::SuperEffective,
            PokemonType::Grass | PokemonType::Bug => InteractionType::NotVeryEffective,
            PokemonType::Flying => InteractionType::NoEffect,
            _ => InteractionType::Normal,
        },
        PokemonType::Flying => match defender {
            PokemonType::Grass | PokemonType::Fighting | PokemonType::Bug => InteractionType::SuperEffective,
            PokemonType::Electric | PokemonType::Rock | PokemonType::Steel => InteractionType::NotVeryEffective,
            _ => InteractionType::Normal,
        },
        PokemonType::Psychic => match defender {
            PokemonType::Fighting | PokemonType::Poison => InteractionType::SuperEffective,
            PokemonType::Psychic | PokemonType::Steel => InteractionType::NotVeryEffective,
            PokemonType::Dark => InteractionType::NoEffect,
            _ => InteractionType::Normal,
        },
        PokemonType::Bug => match defender {
            PokemonType::Grass | PokemonType::Psychic | PokemonType::Dark => InteractionType::SuperEffective,
            PokemonType::Fire | PokemonType::Fighting | PokemonType::Poison | PokemonType::Flying | PokemonType::GhostType | PokemonType::Steel | PokemonType::Fairy => InteractionType::NotVeryEffective,
            _ => InteractionType::Normal,
        },
        PokemonType::Rock => match defender {
            PokemonType::Fire | PokemonType::Ice | PokemonType::Flying | PokemonType::Bug => InteractionType::SuperEffective,
            PokemonType::Fighting | PokemonType::Ground | PokemonType::Steel => InteractionType::NotVeryEffective,
            _ => InteractionType::Normal,
        },
        PokemonType::GhostType => match defender {
            PokemonType::Psychic | PokemonType::GhostType => InteractionType::SuperEffective,
            PokemonType::Dark => InteractionType::NotVeryEffective,
            PokemonType::Normal => InteractionType::NoEffect,
            _ => InteractionType::Normal,
        },
        PokemonType::Dragon => match defender {
            PokemonType::Dragon => InteractionType::SuperEffective,
            PokemonType::Steel => InteractionType::NotVeryEffective,
            PokemonType::Fairy => InteractionType::NoEffect,
            _ => InteractionType::Normal,
        },
        PokemonType::Dark => match defender {
            PokemonType::Psychic | PokemonType::GhostType => InteractionType::SuperEffective,
            PokemonType::Fighting | PokemonType::Dark | PokemonType::Fairy => InteractionType::NotVeryEffective,
            _ => InteractionType::Normal,
        },
        PokemonType::Steel => match defender {
            PokemonType::Ice | PokemonType::Rock | PokemonType::Fairy => InteractionType::SuperEffective,
            PokemonType::Fire | PokemonType::Water | PokemonType::Electric | PokemonType::Steel => InteractionType::NotVeryEffective,
            _ => InteractionType::Normal,
        },
        PokemonType::Fairy => match defender {
            PokemonType::Fighting | PokemonType::Dragon | PokemonType::Dark => InteractionType::SuperEffective,
            PokemonType::Fire | PokemonType::Poison | PokemonType::Steel => InteractionType::NotVeryEffective,
            _ => InteractionType::Normal,
        },
        PokemonType::NoType => InteractionType::Normal,
    }
}

/// The affinity at position `i` of the declaration order; the neutral
/// affinity comes last.
pub open spec fn affinity_at(i: int) -> PokemonType {
    if i == 0 {
        PokemonType::Normal
    } else if i == 1 {
        PokemonType::Fire
    } else if i == 2 {
        PokemonType::Water
    } else if i == 3 {
        PokemonType::Electric
    } else if i == 4 {
        PokemonType::Grass
    } else if i == 5 {
        PokemonType::Ice
    } else if i == 6 {
        PokemonType::Fighting
    } else if i == 7 {
        PokemonType::Poison
    } else if i == 8 {
        PokemonType::Ground
    } else if i == 9 {
        PokemonType::Flying
    } else if i == 10 {
        PokemonType::Psychic
    } else if i == 11 {
        PokemonType::Bug
    } else if i == 12 {
        PokemonType::Rock
    } else if i == 13 {
        PokemonType::GhostType
    } else if i == 14 {
        PokemonType::Dragon
    } else if i == 15 {
        PokemonType::Dark
    } else if i == 16 {
        PokemonType::Steel
    } else if i == 17 {
        PokemonType::Fairy
    } else {
        PokemonType::NoType
    }
}

/// The eighteen affinities that a piece can carry.
pub open spec fn is_real_affinity(t: PokemonType) -> bool {
    t != PokemonType::NoType
}

/// Relies on rand's `SliceRandom::choose` with the thread-local generator:
/// it returns one of the slice's items, and one whenever the slice is not empty.
#[verifier::external_body]
fn choose_affinity(v: &Vec<PokemonType>) -> (r: Option<PokemonType>)
    ensures
        v@.len() > 0 <==> r is Some,
        r matches Some(t) ==> v@.contains(t),
{
    v.choose(&mut rand::thread_rng()).copied()
}

impl PokemonType {
    fn from_index(i: usize) -> (r: PokemonType)
        requires
            i < 19,
        ensures
            r == affinity_at(i as int),
    {
        match i {
            0 => PokemonType::Normal,
            1 => PokemonType::Fire,
            2 => PokemonType::Water,
            3 => PokemonType::Electric,
            4 => PokemonType::Grass,
            5 => PokemonType::Ice,
            6 => PokemonType::Fighting,
            7 => PokemonType::Poison,
            8 => PokemonType::Ground,
            9 => PokemonType::Flying,
            10 => PokemonType::Psychic,
            11 => PokemonType::Bug,
            12 => PokemonType::Rock,
            13 => PokemonType::GhostType,
            14 => PokemonType::Dragon,
            15 => PokemonType::Dark,
            16 => PokemonType::Steel,
            17 => PokemonType::Fairy,
            _ => PokemonType::NoType,
        }
    }

    /// The whole table, indexed by declaration order of the attacker (row)
    /// and the defender (column).
    pub fn get_type_chart() -> (r: [[InteractionType; 19]; 19])
        ensures
            forall|a: int, d: int|
                0 <= a < 19 && 0 <= d < 19 ==> #[trigger] r[a][d] == matchup(
                    affinity_at(a),
                    affinity_at(d),
                ),
    {
        let mut chart = [[InteractionType::Normal; 19]; 19];
        for a in 0..19
            invariant
                forall|x: int, d: int|
                    0 <= x < a && 0 <= d < 19 ==> #[trigger] chart[x][d] == matchup(
                        affinity_at(x),
                        affinity_at(d),
                    ),
        {
            let attacker = Self::from_index(a);
            let mut row = [InteractionType::Normal; 19];
            for d in 0..19
                invariant
                    attacker == affinity_at(a as int),
                    forall|y: int|
                        0 <= y < d ==> #[trigger] row[y] == matchup(attacker, affinity_at(y)),
            {
                row[d] = Self::type_matchup(attacker, Self::from_index(d));
            }
            chart[a] = row;
        }
        chart
    }

    pub fn type_matchup(type1: PokemonType, type2: PokemonType) -> (r: InteractionType)
        ensures
            r == matchup(type1, type2),
    {
        let defender = type2;
        match type1 {
            PokemonType::Normal => match defender {
                PokemonType::Rock | PokemonType::Steel => InteractionType::NotVeryEffective,
                PokemonType::GhostType => InteractionType::NoEffect,
                _ => InteractionType::Normal,
            },
            PokemonType::Fire => match defender {
                PokemonType::Grass | PokemonType::Ice | PokemonType::Bug | PokemonType::Steel => InteractionType::SuperEffective,
                PokemonType::Fire | PokemonType::Water | PokemonType::Rock | PokemonType::Dragon => InteractionType::NotVeryEffective,
                _ => InteractionType::Normal,
            },
            PokemonType::Water => match defender {
                PokemonType::Fire | PokemonType::Ground | PokemonType::Rock => InteractionType::SuperEffective,
                PokemonType::Water | PokemonType::Grass | PokemonType::Dragon => InteractionType::NotVeryEffective,
                _ => InteractionType::Normal,
            },
            PokemonType::Electric => match defender {
                PokemonType::Water | PokemonType::Flying => InteractionType::SuperEffective,
                PokemonType::Electric | PokemonType::Grass | PokemonType::Dragon => InteractionType::NotVeryEffective,
                PokemonType::Ground => InteractionType::NoEffect,
                _ => InteractionType::Normal,
            },
            PokemonType::Grass => match defender {
                PokemonType::Water | PokemonType::Ground | PokemonType::Rock => InteractionType::SuperEffective,
                PokemonType::Fire | PokemonType::Grass | PokemonType::Poison | PokemonType::Flying | PokemonType::Bug | PokemonType::Dragon | PokemonType::Steel => InteractionType::NotVeryEffective,
                _ => InteractionType::Normal,
            },
            PokemonType::Ice => match defender {
                PokemonType::Grass | PokemonType::Ground | PokemonType::Flying | PokemonType::Dragon => InteractionType::SuperEffective,
                PokemonType::Fire | PokemonType::Water | PokemonType::Ice | PokemonType::Steel => InteractionType::NotVeryEffective,
                _ => InteractionType::Normal,
            },
            PokemonType::Fighting => match defender {
                PokemonType::Normal | PokemonType::Ice | PokemonType::Rock | PokemonType::Dark | PokemonType::Steel => InteractionType::SuperEffective,
                PokemonType::Poison | PokemonType::Flying | PokemonType::Psychic | PokemonType::Bug | PokemonType::Fairy => InteractionType::NotVeryEffective,
                PokemonType::GhostType => InteractionType::NoEffect,
                _ => InteractionType::Normal,
            },
            PokemonType::Poison => match defender {
                PokemonType::Grass | PokemonType::Fairy => InteractionType::SuperEffective,
                PokemonType::Poison | PokemonType::Ground | PokemonType::Rock | PokemonType::GhostType => InteractionType::NotVeryEffective,
                PokemonType::Steel => InteractionType::NoEffect,
                _ => InteractionType::Normal,
            },
            PokemonType::Ground => match defender {
                PokemonType::Fire | PokemonType::Electric | PokemonType::Poison | PokemonType::Rock | PokemonType::Steel => InteractionType::SuperEffective,
                PokemonType::Grass | PokemonType::Bug => InteractionType::NotVeryEffective,
                PokemonType::Flying => InteractionType::NoEffect,
                _ => InteractionType::Normal,
            },
            PokemonType::Flying => match defender {
                PokemonType::Grass | PokemonType::Fighting | PokemonType::Bug => InteractionType::SuperEffective,
                PokemonType::Electric | PokemonType::Rock | PokemonType::Steel => InteractionType::NotVeryEffective,
                _ => InteractionType::Normal,
            },
            PokemonType::Psychic => match defender {
                PokemonType::Fighting | PokemonType::Poison => InteractionType::SuperEffective,
                PokemonType::Psychic | PokemonType::Steel => InteractionType::NotVeryEffective,
                PokemonType::Dark => InteractionType::NoEffect,
                _ => InteractionType::Normal,
            },
            PokemonType::Bug => match defender {
                PokemonType::Grass | PokemonType::Psychic | PokemonType::Dark => InteractionType::SuperEffective,
                PokemonType::Fire | PokemonType::Fighting | PokemonType::Poison | PokemonType::Flying | PokemonType::GhostType | PokemonType::Steel | PokemonType::Fairy => InteractionType::NotVeryEffective,
                _ => InteractionType::Normal,
            },
            PokemonType::Rock => match defender {
                PokemonType::Fire | PokemonType::Ice | PokemonType::Flying | PokemonType::Bug => InteractionType::SuperEffective,
                PokemonType::Fighting | PokemonType::Ground | PokemonType::Steel => InteractionType::NotVeryEffective,
                _ => InteractionType::Normal,
            },
            PokemonType::GhostType => match defender {
                PokemonType::Psychic | PokemonType::GhostType => InteractionType::SuperEffective,
                PokemonType::Dark => InteractionType::NotVeryEffective,
                PokemonType::Normal => InteractionType::NoEffect,
                _ => InteractionType::Normal,
            },
            PokemonType::Dragon => match defender {
                PokemonType::Dragon => InteractionType::SuperEffective,
                PokemonType::Steel => InteractionType::NotVeryEffective,
                PokemonType::Fairy => InteractionType::NoEffect,
                _ => InteractionType::Normal,
            },
            PokemonType::Dark => match defender {
                PokemonType::Psychic | PokemonType::GhostType => InteractionType::SuperEffective,
                PokemonType::Fighting | PokemonType::Dark | PokemonType::Fairy => InteractionType::NotVeryEffective,
                _ => InteractionType::Normal,
            },
            PokemonType::Steel => match defender {
                PokemonType::Ice | PokemonType::Rock | PokemonType::Fairy => InteractionType::SuperEffective,
                PokemonType::Fire | PokemonType::Water | PokemonType::Electric | PokemonType::Steel => InteractionType::NotVeryEffective,
                _ => InteractionType::Normal,
            },
            PokemonType::Fairy => match defender {
                PokemonType::Fighting | PokemonType::Dragon | PokemonType::Dark => InteractionType::SuperEffective,
                PokemonType::Fire | PokemonType::Poison | PokemonType::Steel => InteractionType::NotVeryEffective,
                _ => InteractionType::Normal,
            },
            PokemonType::NoType => InteractionType::Normal,
        }
    }

    /// An affinity drawn at random among the eighteen real ones.
    pub fn random() -> (r: Self)
        ensures
            is_real_affinity(r),
    {
        let variants = vec![
            PokemonType::Normal,
            PokemonType::Fire,
            PokemonType::Water,
            PokemonType::Electric,
            PokemonType::Grass,
            PokemonType::Ice,
            PokemonType::Fighting,
            PokemonType::Poison,
            PokemonType::Ground,
            PokemonType::Flying,
            PokemonType::Psychic,
            PokemonType::Bug,
            PokemonType::Rock,
            PokemonType::GhostType,
            PokemonType::Dragon,
            PokemonType::Dark,
            PokemonType::Steel,
            PokemonType::Fairy
        ];
        match choose_affinity(&variants) {
            Some(t) => t,
            None => PokemonType::Normal,
        }
    }
}

} // verus!
