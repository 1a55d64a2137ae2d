//! Pure pixel-colour classification predicates.
//!
//! The screen-reading collaborator samples pixels and averages regions; the
//! rules that turn a sampled colour into a game fact live here, on plain
//! channel values.

use vstd::prelude::*;
use crate::enemy::EnemyClass;

verus! {

/// Whether a colour belongs to an HP bar: green when full, yellow at medium
/// HP, red when low.
pub open spec fn spec_is_hp_bar_color(r: u8, g: u8, b: u8) -> bool {
    ||| (g > 150 && g > r && g > b)
    ||| (r > 150 && g > 150 && b < 100)
    ||| (r > 150 && g < 100 && b < 100)
}

/// Check if a colour is part of an HP bar.
pub fn is_hp_bar_color(r: u8, g: u8, b: u8) -> (res: bool)
    ensures
        res == spec_is_hp_bar_color(r, g, b),
{
    let is_green = g > 150 && g > r && g > b;
    let is_yellow = r > 150 && g > 150 && b < 100;
    let is_red = r > 150 && g < 100 && b < 100;
    is_green || is_yellow || is_red
}

/// Check if an averaged colour is reddish, as the attack button is.
pub fn is_reddish(color: &(u8, u8, u8)) -> (res: bool)
    ensures
        res == (color.0 > 150 && color.0 > color.1 + 30 && color.0 > color.2 + 30),
{
    color.0 > 150 && (color.1 as u16) + 30 < (color.0 as u16)
        && (color.2 as u16) + 30 < (color.0 as u16)
}

/// Check if an averaged colour is colourful (a wide channel spread), as a
/// row of command cards is.
pub fn is_colorful(color: &(u8, u8, u8)) -> (res: bool)
    ensures
        res == ({
            let max = spec_max3(color.0, color.1, color.2);
            let min = spec_min3(color.0, color.1, color.2);
            max - min > 50
        }),
{
    let max = max3(color.0, color.1, color.2);
    let min = min3(color.0, color.1, color.2);
    max - min > 50
}

/// The largest of three channel values.
pub open spec fn spec_max3(a: u8, b: u8, c: u8) -> u8 {
    let ab = if a >= b { a } else { b };
    if ab >= c { ab } else { c }
}

/// The smallest of three channel values.
pub open spec fn spec_min3(a: u8, b: u8, c: u8) -> u8 {
    let ab = if a <= b { a } else { b };
    if ab <= c { ab } else { c }
}

fn max3(a: u8, b: u8, c: u8) -> (m: u8)
    ensures
        m == spec_max3(a, b, c),
{
    let ab = if a >= b { a } else { b };
    if ab >= c { ab } else { c }
}

fn min3(a: u8, b: u8, c: u8) -> (m: u8)
    ensures
        m == spec_min3(a, b, c),
        m <= spec_max3(a, b, c),
{
    let ab = if a <= b { a } else { b };
    if ab <= c { ab } else { c }
}

/// The enemy class a class-icon colour stands for.
pub open spec fn spec_color_to_class(r: u8, g: u8, b: u8) -> EnemyClass {
    if r > 200 && g < 150 && b < 150 {
        EnemyClass::Archer
    } else if b > 200 && r < 150 {
        EnemyClass::Lancer
    } else if r > 150 && g > 100 && b > 200 {
        EnemyClass::Caster
    } else if r < 100 && g < 100 && b < 150 {
        EnemyClass::Assassin
    } else if r > 150 && r < 200 && g < 100 && b < 100 {
        EnemyClass::Berserker
    } else {
        EnemyClass::Unknown
    }
}

/// Map a class-icon colour to an enemy class.
pub fn color_to_class(r: u8, g: u8, b: u8) -> (c: EnemyClass)
    ensures
        c == spec_color_to_class(r, g, b),
{
    if r > 200 && g < 150 && b < 150 {
        EnemyClass::Archer
    } else if b > 200 && r < 150 {
        EnemyClass::Lancer
    } else if r > 150 && g > 100 && b > 200 {
        EnemyClass::Caster
    } else if r < 100 && g < 100 && b < 150 {
        EnemyClass::Assassin
    } else if r > 150 && r < 200 && g < 100 && b < 100 {
        EnemyClass::Berserker
    } else {
        EnemyClass::Unknown
    }
}

} // verus!
