use vstd::prelude::*;

use crate::quarter::{
    fits, lemma_trunc_div_shrinks, round_up_quarter, round_up_spec, Fraction,
};

verus! {

/// The category of a weapon, as named by the token after `-weapon`.
#[derive(Clone, Copy, Debug, PartialEq, Eq, Structural)]
pub enum Weapon {
    Leger,
    Moyen,
    Lourd,
    /// Any other token: an improvised weapon.
    Improvise,
}

/// The category that a token names; matching is case-sensitive and any other
/// token, a typo included, names an improvised weapon.
pub open spec fn weapon_of(tok: Seq<char>) -> Weapon {
    if tok == "Leger"@ {
        Weapon::Leger
    } else if tok == "Moyen"@ {
        Weapon::Moyen
    } else if tok == "Lourd"@ {
        Weapon::Lourd
    } else {
        Weapon::Improvise
    }
}

impl Weapon {
    pub fn from_token(tok: &String) -> (r: Weapon)
        ensures
            r == weapon_of(tok@),
    {
        if *tok == "Leger".to_owned() {
            Weapon::Leger
        } else if *tok == "Moyen".to_owned() {
            Weapon::Moyen
        } else if *tok == "Lourd".to_owned() {
            Weapon::Lourd
        } else {
            Weapon::Improvise
        }
    }
}

/// Force and speed of a combatant while weapons are applied, as exact
/// fractions of quarters.
#[derive(Clone, Copy, Debug, PartialEq, Eq)]
pub struct Armed {
    pub force: Fraction,
    pub vitesse: Fraction,
}

/// The exact state of `Armed`: force numerator and denominator, then speed's.
pub type ArmedModel = (int, int, int, int);

impl Armed {
    pub open spec fn wf(self) -> bool {
        self.force.wf() && self.vitesse.wf()
    }

    pub open spec fn model(self) -> ArmedModel {
        (self.force.num as int, self.force.den as int, self.vitesse.num as int, self.vitesse.den as int)
    }
}

/// `n / d` multiplied by `a / b`, when both products fit the machine range.
pub open spec fn scale_spec(n: int, d: int, a: int, b: int) -> Option<(int, int)> {
    if fits(n * a) && fits(d * b) {
        Some((n * a, d * b))
    } else {
        None
    }
}

/// The effect of one weapon. `Moyen` changes nothing; `Leger` takes force to
/// 0.9 times and speed to 1.05 times, and rounds force up onto the quarter
/// grid at once (it is rounded again with speed once all weapons are applied); `Lourd` takes force to 1.1 times
/// and speed to 0.9 times; an improvised weapon takes force to 0.85 times and
/// speed to 1.075 times. `None` when an exact value leaves the machine range.
pub open spec fn step_spec(s: ArmedModel, w: Weapon) -> Option<ArmedModel> {
    let (fnum, fden, snum, sden) = s;
    let (fa, fb, sa, sb) = match w {
        Weapon::Moyen => (1int, 1int, 1int, 1int),
        Weapon::Leger => (9, 10, 21, 20),
        Weapon::Lourd => (11, 10, 9, 10),
        Weapon::Improvise => (17, 20, 43, 40),
    };
    match (scale_spec(fnum, fden, fa, fb), scale_spec(snum, sden, sa, sb)) {
        (Some(f), Some(v)) => if w == Weapon::Leger {
            Some((round_up_spec(f.0, f.1), 1, v.0, v.1))
        } else {
            Some((f.0, f.1, v.0, v.1))
        },
        _ => None,
    }
}

fn scale(f: Fraction, a: i128, b: i128) -> (r: Option<Fraction>)
    requires
        f.wf(),
        1 <= a <= 100,
        1 <= b <= 100,
    ensures
        match r {
            Some(g) => g.wf() && scale_spec(f.num as int, f.den as int, a as int, b as int) == Some(
                (g.num as int, g.den as int),
            ),
            None => scale_spec(f.num as int, f.den as int, a as int, b as int) is None,
        },
{
    match (f.num.checked_mul(a), f.den.checked_mul(b)) {
        (Some(n), Some(d)) => {
            if n > -i128::MAX && n < i128::MAX && d < i128::MAX {
                assert(d > 0) by (nonlinear_arith)
                    requires d == f.den * b, f.den > 0, b > 0;
                Some(Fraction { num: n, den: d })
            } else {
                None
            }
        },
        _ => None,
    }
}

/// Applies one weapon to a combatant's force and speed.
pub fn apply_weapon(s: Armed, w: Weapon) -> (r: Option<Armed>)
    requires
        s.wf(),
    ensures
        match r {
            Some(t) => t.wf() && step_spec(s.model(), w) == Some(t.model()),
            None => step_spec(s.model(), w) is None,
        },
{
    let (fa, fb, sa, sb): (i128, i128, i128, i128) = match w {
        Weapon::Moyen => (1, 1, 1, 1),
        Weapon::Leger => (9, 10, 21, 20),
        Weapon::Lourd => (11, 10, 9, 10),
        Weapon::Improvise => (17, 20, 43, 40),
    };
    match (scale(s.force, fa, fb), scale(s.vitesse, sa, sb)) {
        (Some(f), Some(v)) => {
            if w == Weapon::Leger {
                let q = round_up_quarter(f);
                proof {
                    assert(f.den >= 10) by (nonlinear_arith)
                        requires f.den == s.force.den * 10, s.force.den >= 1;
                    lemma_trunc_div_shrinks(f.num as int, f.den as int, 10);
                }
                Some(Armed { force: Fraction { num: q, den: 1 }, vitesse: v })
            } else {
                Some(Armed { force: f, vitesse: v })
            }
        },
        _ => None,
    }
}

/// The stats after the final pass that rounds force and speed up onto the
/// quarter grid, in quarters.
pub open spec fn settled(s: ArmedModel) -> (int, int) {
    (round_up_spec(s.0, s.1), round_up_spec(s.2, s.3))
}

/// From whole-quarter force `f` and speed `v`, after the final rounding pass,
/// a heavy weapon gives strictly more force and strictly less speed than a
/// medium one, as soon as force is at least 10 quarters and speed positive.
pub proof fn lemma_heavy_against_medium(f: int, v: int)
    requires
        f >= 10,
        v >= 1,
    ensures
        step_spec((f, 1, v, 1), Weapon::Lourd) matches Some(h) ==> step_spec(
            (f, 1, v, 1),
            Weapon::Moyen,
        ) matches Some(m) ==> settled(h).0 > settled(m).0 && settled(h).1 < settled(m).1,
{
    assert((f * 11) / 10 >= f + 1) by (nonlinear_arith)
        requires f >= 10;
    assert((v * 9) / 10 < v) by (nonlinear_arith)
        requires v >= 1;
}

/// From whole-quarter force `f` and speed `v`, after the final rounding pass,
/// a light weapon gives strictly less force and strictly more speed than a
/// medium one, as soon as force is at least 11 quarters and speed at least
/// 20 quarters.
pub proof fn lemma_light_against_medium(f: int, v: int)
    requires
        f >= 11,
        v >= 20,
    ensures
        step_spec((f, 1, v, 1), Weapon::Leger) matches Some(l) ==> step_spec(
            (f, 1, v, 1),
            Weapon::Moyen,
        ) matches Some(m) ==> settled(l).0 < settled(m).0 && settled(l).1 > settled(m).1,
{
    assert((f * 9) / 10 + 1 < f) by (nonlinear_arith)
        requires f >= 11;
    assert((v * 21) / 20 >= v + 1) by (nonlinear_arith)
        requires v >= 20;
}

/// Two tokens that name none of the known categories have the same effect.
pub proof fn lemma_unknown_tokens_agree(s: ArmedModel, t1: Seq<char>, t2: Seq<char>)
    requires
        t1 != "Leger"@ && t1 != "Moyen"@ && t1 != "Lourd"@,
        t2 != "Leger"@ && t2 != "Moyen"@ && t2 != "Lourd"@,
    ensures
        step_spec(s, weapon_of(t1)) == step_spec(s, weapon_of(t2)),
{
}

} // verus!
