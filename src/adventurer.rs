use vstd::prelude::*;

use crate::stats::IvStats;

verus! {

#[derive(Clone, Copy, Debug, PartialEq, Eq)]
pub enum Race {
    Jiaodan,
    JiaodanHumain,
    JiaodanDragon,
    Marwoeth,
    Demon,
    Elfe,
    Ange,
    FerosumPassif,
    FerosumExtreme,
    Horya,
    Humain,
    Gwisin,
    Stens,
}

/// The name under which a race's baseline is filed. A Jiaodan uses its
/// human form; the two forms named on their own have no entry of their own.
pub open spec fn race_label(r: Race) -> Seq<char> {
    match r {
        Race::Jiaodan => "JiaodanHumain"@,
        Race::Marwoeth => "Marwoeth"@,
        Race::Demon => "Demon"@,
        Race::Elfe => "Elfe"@,
        Race::Ange => "Ange"@,
        Race::FerosumPassif => "Ferosum Passif"@,
        Race::FerosumExtreme => "Ferosum Extreme"@,
        Race::Horya => "Horya"@,
        Race::Humain => "Humain"@,
        Race::Gwisin => "Gwisin"@,
        Race::Stens => "Stens"@,
        Race::JiaodanHumain | Race::JiaodanDragon => "None"@,
    }
}

impl Race {
    /// The name under which the race's baseline is filed.
    pub fn name(&self) -> (r: String)
        ensures
            r@ == race_label(*self),
    {
        match self {
            Race::Jiaodan => "JiaodanHumain".to_owned(),
            Race::Marwoeth => "Marwoeth".to_owned(),
            Race::Demon => "Demon".to_owned(),
            Race::Elfe => "Elfe".to_owned(),
            Race::Ange => "Ange".to_owned(),
            Race::FerosumPassif => "Ferosum Passif".to_owned(),
            Race::FerosumExtreme => "Ferosum Extreme".to_owned(),
            Race::Horya => "Horya".to_owned(),
            Race::Humain => "Humain".to_owned(),
            Race::Gwisin => "Gwisin".to_owned(),
            Race::Stens => "Stens".to_owned(),
            Race::JiaodanHumain | Race::JiaodanDragon => "None".to_owned(),
        }
    }
}

/// What combat needs to know of a character.
pub struct Adventurer {
    pub name: String,
    pub race: Race,
    pub level: u8,
    pub iv: IvStats,
}

/// Whether `i` is the first character of `roster` that carries `name`.
pub open spec fn first_named_at(roster: Seq<Adventurer>, name: Seq<char>, i: int) -> bool {
    &&& 0 <= i < roster.len()
    &&& roster[i].name@ == name
    &&& forall|j: int| 0 <= j < i ==> roster[j].name@ != name
}

/// Whether some character of `roster` carries `name`.
pub open spec fn is_known(roster: Seq<Adventurer>, name: Seq<char>) -> bool {
    exists|i: int| 0 <= i < roster.len() && roster[i].name@ == name
}

/// The position of the first character named `name`, if there is one.
pub fn find_adventurer(roster: &Vec<Adventurer>, name: &String) -> (r: Option<usize>)
    ensures
        match r {
            Some(i) => first_named_at(roster@, name@, i as int),
            None => !is_known(roster@, name@),
        },
{
    let mut i: usize = 0;
    while i < roster.len()
        invariant
            0 <= i <= roster@.len(),
            forall|j: int| 0 <= j < i ==> roster@[j].name@ != name@,
        decreases roster@.len() - i,
    {
        if roster[i].name == *name {
            return Some(i);
        }
        i = i + 1;
    }
    None
}

/// The first character named `name`, if there is one.
pub fn get_adventurer<'a>(roster: &'a Vec<Adventurer>, name: &String) -> (r: Option<&'a Adventurer>)
    ensures
        match r {
            Some(a) => exists|i: int| first_named_at(roster@, name@, i) && *a == roster@[i],
            None => !is_known(roster@, name@),
        },
{
    match find_adventurer(roster, name) {
        Some(i) => Some(&roster[i]),
        None => None,
    }
}

} // verus!
