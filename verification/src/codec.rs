//! A lossless transport encoding for actions.
//!
//! Cross-process transports carry an action as one fixed-width word: an
//! 8-bit tag and five 24-bit parameter fields packed into 128 bits. Every
//! variant's populated parameters survive the round trip exactly; the bit
//! layout is a transport concern and no part of the decision contracts.

use vstd::prelude::*;
use crate::ShebaAction;

verus! {

/// The bounds under which an action fits the 24-bit parameter fields:
/// coordinates and durations are non-negative and below 2^24, indices are
/// below 2^24, a card selection holds at most three slots, and a skill
/// target is below the 255 marker that stands for "no target".
pub open spec fn spec_action_wf(a: ShebaAction) -> bool {
    match a {
        ShebaAction::NoOp => true,
        ShebaAction::Tap { x, y } => 0 <= x < 0x1000000 && 0 <= y < 0x1000000,
        ShebaAction::Swipe { start_x, start_y, end_x, end_y, duration_ms } => {
            &&& 0 <= start_x < 0x1000000
            &&& 0 <= start_y < 0x1000000
            &&& 0 <= end_x < 0x1000000
            &&& 0 <= end_y < 0x1000000
            &&& duration_ms < 0x1000000
        }
        ShebaAction::Wait { duration_ms } => duration_ms < 0x1000000,
        ShebaAction::SelectCards { card_indices } => card_indices@.len() <= 3
            && (forall|i: int| 0 <= i < card_indices@.len()
                ==> (#[trigger] card_indices@[i]) < 0x1000000),
        ShebaAction::UseSkill { servant_idx, skill_idx, target } => {
            &&& servant_idx < 0x1000000
            &&& skill_idx < 0x1000000
            &&& (target matches Some(t) ==> t < 255)
        }
        ShebaAction::UseNP { servant_idx } => servant_idx < 0x1000000,
        ShebaAction::TargetEnemy { enemy_idx } => enemy_idx < 0x1000000,
        ShebaAction::TapAttack => true,
        ShebaAction::UseMasterSkill { skill_idx, target } => skill_idx < 0x1000000
            && (target matches Some(t) ==> t < 255),
    }
}

/// Pack a tag and five 24-bit parameters into one word.
pub open spec fn spec_pack(t: u128, a: u128, b: u128, c: u128, d: u128, e: u128) -> u128 {
    t | (a << 8) | (b << 32) | (c << 56) | (d << 80) | (e << 104)
}

pub open spec fn spec_tag(w: u128) -> u128 {
    w & 0xFF
}

pub open spec fn spec_field1(w: u128) -> u128 {
    (w >> 8) & 0xFFFFFF
}

pub open spec fn spec_field2(w: u128) -> u128 {
    (w >> 32) & 0xFFFFFF
}

pub open spec fn spec_field3(w: u128) -> u128 {
    (w >> 56) & 0xFFFFFF
}

pub open spec fn spec_field4(w: u128) -> u128 {
    (w >> 80) & 0xFFFFFF
}

pub open spec fn spec_field5(w: u128) -> u128 {
    (w >> 104) & 0xFFFFFF
}

/// Unpacking a packed word yields the packed tag and fields.
proof fn lemma_pack_unpack(t: u128, a: u128, b: u128, c: u128, d: u128, e: u128)
    requires
        t < 0x100,
        a < 0x1000000,
        b < 0x1000000,
        c < 0x1000000,
        d < 0x1000000,
        e < 0x1000000,
    ensures
        spec_tag(spec_pack(t, a, b, c, d, e)) == t,
        spec_field1(spec_pack(t, a, b, c, d, e)) == a,
        spec_field2(spec_pack(t, a, b, c, d, e)) == b,
        spec_field3(spec_pack(t, a, b, c, d, e)) == c,
        spec_field4(spec_pack(t, a, b, c, d, e)) == d,
        spec_field5(spec_pack(t, a, b, c, d, e)) == e,
{
    assert((t | (a << 8) | (b << 32) | (c << 56) | (d << 80) | (e << 104)) & 0xFF == t
        && ((t | (a << 8) | (b << 32) | (c << 56) | (d << 80) | (e << 104)) >> 8) & 0xFFFFFF
            == a
        && ((t | (a << 8) | (b << 32) | (c << 56) | (d << 80) | (e << 104)) >> 32) & 0xFFFFFF
            == b
        && ((t | (a << 8) | (b << 32) | (c << 56) | (d << 80) | (e << 104)) >> 56) & 0xFFFFFF
            == c
        && ((t | (a << 8) | (b << 32) | (c << 56) | (d << 80) | (e << 104)) >> 80) & 0xFFFFFF
            == d
        && ((t | (a << 8) | (b << 32) | (c << 56) | (d << 80) | (e << 104)) >> 104) & 0xFFFFFF
            == e) by (bit_vector)
        requires t < 0x100, a < 0x1000000, b < 0x1000000, c < 0x1000000, d < 0x1000000,
            e < 0x1000000;
}

/// Every unpacked field is below 2^24 and the tag below 2^8.
proof fn lemma_unpack_bounds(w: u128)
    ensures
        spec_tag(w) < 0x100,
        spec_field1(w) < 0x1000000,
        spec_field2(w) < 0x1000000,
        spec_field3(w) < 0x1000000,
        spec_field4(w) < 0x1000000,
        spec_field5(w) < 0x1000000,
{
    assert(w & 0xFF < 0x100 && (w >> 8) & 0xFFFFFF < 0x1000000 && (w >> 32) & 0xFFFFFF
        < 0x1000000 && (w >> 56) & 0xFFFFFF < 0x1000000 && (w >> 80) & 0xFFFFFF < 0x1000000
        && (w >> 104) & 0xFFFFFF < 0x1000000) by (bit_vector);
}

/// The skill-target parameter: the 255 marker stands for "no target".
pub open spec fn spec_target_param(t: Option<usize>) -> u128 {
    match t {
        Some(v) => v as u128,
        None => 255,
    }
}

/// The word a well-formed action encodes to.
pub open spec fn spec_encode_action(a: ShebaAction) -> u128 {
    match a {
        ShebaAction::NoOp => spec_pack(0, 0, 0, 0, 0, 0),
        ShebaAction::Tap { x, y } => spec_pack(1, x as u128, y as u128, 0, 0, 0),
        ShebaAction::Swipe { start_x, start_y, end_x, end_y, duration_ms } => spec_pack(2,
            start_x as u128, start_y as u128, end_x as u128, end_y as u128,
            duration_ms as u128),
        ShebaAction::Wait { duration_ms } => spec_pack(3, duration_ms as u128, 0, 0, 0, 0),
        ShebaAction::SelectCards { card_indices } => spec_pack(4,
            if card_indices@.len() > 0 { card_indices@[0] as u128 } else { 0 },
            if card_indices@.len() > 1 { card_indices@[1] as u128 } else { 0 },
            if card_indices@.len() > 2 { card_indices@[2] as u128 } else { 0 },
            card_indices@.len() as u128, 0),
        ShebaAction::UseSkill { servant_idx, skill_idx, target } => spec_pack(5,
            servant_idx as u128, skill_idx as u128, spec_target_param(target), 0, 0),
        ShebaAction::UseNP { servant_idx } => spec_pack(6, servant_idx as u128, 0, 0, 0, 0),
        ShebaAction::TargetEnemy { enemy_idx } => spec_pack(7, enemy_idx as u128, 0, 0, 0, 0),
        ShebaAction::TapAttack => spec_pack(8, 0, 0, 0, 0, 0),
        ShebaAction::UseMasterSkill { skill_idx, target } => spec_pack(9, skill_idx as u128,
            spec_target_param(target), 0, 0, 0),
    }
}

/// The card-slot list a decoded selection carries.
pub open spec fn spec_decoded_slots(p1: u128, p2: u128, p3: u128, count: u128) -> Seq<usize> {
    if count == 0 {
        Seq::empty()
    } else if count == 1 {
        seq![p1 as usize]
    } else if count == 2 {
        seq![p1 as usize, p2 as usize]
    } else {
        seq![p1 as usize, p2 as usize, p3 as usize]
    }
}

/// The decoded skill target.
pub open spec fn spec_decoded_target(p: u128) -> Option<usize> {
    if p == 255 {
        None
    } else {
        Some(p as usize)
    }
}

/// Whether a word is a valid action code: a known tag, and a card count
/// of at most three.
pub open spec fn spec_valid_code(w: u128) -> bool {
    &&& spec_tag(w) <= 9
    &&& (spec_tag(w) == 4 ==> spec_field4(w) <= 3)
}

/// What a word decodes to.
pub open spec fn spec_is_decoded(w: u128, a: ShebaAction) -> bool {
    let tag = spec_tag(w);
    let p1 = spec_field1(w);
    let p2 = spec_field2(w);
    let p3 = spec_field3(w);
    let p4 = spec_field4(w);
    let p5 = spec_field5(w);
    if tag == 0 {
        a == ShebaAction::NoOp
    } else if tag == 1 {
        a == (ShebaAction::Tap { x: p1 as i32, y: p2 as i32 })
    } else if tag == 2 {
        a == (ShebaAction::Swipe {
            start_x: p1 as i32,
            start_y: p2 as i32,
            end_x: p3 as i32,
            end_y: p4 as i32,
            duration_ms: p5 as u32,
        })
    } else if tag == 3 {
        a == (ShebaAction::Wait { duration_ms: p1 as u32 })
    } else if tag == 4 {
        a matches ShebaAction::SelectCards { card_indices } && card_indices@
            == spec_decoded_slots(p1, p2, p3, p4)
    } else if tag == 5 {
        a == (ShebaAction::UseSkill {
            servant_idx: p1 as usize,
            skill_idx: p2 as usize,
            target: spec_decoded_target(p3),
        })
    } else if tag == 6 {
        a == (ShebaAction::UseNP { servant_idx: p1 as usize })
    } else if tag == 7 {
        a == (ShebaAction::TargetEnemy { enemy_idx: p1 as usize })
    } else if tag == 8 {
        a == ShebaAction::TapAttack
    } else {
        a == (ShebaAction::UseMasterSkill {
            skill_idx: p1 as usize,
            target: spec_decoded_target(p2),
        })
    }
}

/// What the round trip preserves: the tag, and every populated parameter.
pub open spec fn spec_same_action(a: ShebaAction, b: ShebaAction) -> bool {
    match a {
        ShebaAction::SelectCards { card_indices } => b matches ShebaAction::SelectCards {
            card_indices: ci2 } && ci2@ == card_indices@,
        _ => b == a,
    }
}

/// Round trip: decoding the encoding of any well-formed action yields an
/// action with the same tag and the same populated parameters, for every
/// variant.
pub proof fn lemma_action_code_round_trip(a: ShebaAction, b: ShebaAction)
    requires
        spec_action_wf(a),
        spec_is_decoded(spec_encode_action(a), b),
    ensures
        spec_same_action(a, b),
        spec_valid_code(spec_encode_action(a)),
{
    match a {
        ShebaAction::NoOp => {
            lemma_pack_unpack(0, 0, 0, 0, 0, 0);
        }
        ShebaAction::Tap { x, y } => {
            lemma_pack_unpack(1, x as u128, y as u128, 0, 0, 0);
        }
        ShebaAction::Swipe { start_x, start_y, end_x, end_y, duration_ms } => {
            lemma_pack_unpack(2, start_x as u128, start_y as u128, end_x as u128,
                end_y as u128, duration_ms as u128);
        }
        ShebaAction::Wait { duration_ms } => {
            lemma_pack_unpack(3, duration_ms as u128, 0, 0, 0, 0);
        }
        ShebaAction::SelectCards { card_indices } => {
            let ci = card_indices@;
            lemma_pack_unpack(4, if ci.len() > 0 { ci[0] as u128 } else { 0 },
                if ci.len() > 1 { ci[1] as u128 } else { 0 },
                if ci.len() > 2 { ci[2] as u128 } else { 0 }, ci.len() as u128, 0);
            let w = spec_encode_action(a);
            if ci.len() == 0 {
                assert(spec_decoded_slots(spec_field1(w), spec_field2(w), spec_field3(w),
                    spec_field4(w)) =~= ci);
            } else if ci.len() == 1 {
                assert(spec_decoded_slots(spec_field1(w), spec_field2(w), spec_field3(w),
                    spec_field4(w)) =~= ci);
            } else if ci.len() == 2 {
                assert(spec_decoded_slots(spec_field1(w), spec_field2(w), spec_field3(w),
                    spec_field4(w)) =~= ci);
            } else {
                assert(spec_decoded_slots(spec_field1(w), spec_field2(w), spec_field3(w),
                    spec_field4(w)) =~= ci);
            }
        }
        ShebaAction::UseSkill { servant_idx, skill_idx, target } => {
            lemma_pack_unpack(5, servant_idx as u128, skill_idx as u128,
                spec_target_param(target), 0, 0);
        }
        ShebaAction::UseNP { servant_idx } => {
            lemma_pack_unpack(6, servant_idx as u128, 0, 0, 0, 0);
        }
        ShebaAction::TargetEnemy { enemy_idx } => {
            lemma_pack_unpack(7, enemy_idx as u128, 0, 0, 0, 0);
        }
        ShebaAction::TapAttack => {
            lemma_pack_unpack(8, 0, 0, 0, 0, 0);
        }
        ShebaAction::UseMasterSkill { skill_idx, target } => {
            lemma_pack_unpack(9, skill_idx as u128, spec_target_param(target), 0, 0, 0);
        }
    }
}

/// Encode a well-formed action into one transport word.
pub fn encode_action(action: &ShebaAction) -> (w: u128)
    requires
        spec_action_wf(*action),
    ensures
        w == spec_encode_action(*action),
        spec_valid_code(w),
{
    let w = match action {
        ShebaAction::NoOp => pack(0, 0, 0, 0, 0, 0),
        ShebaAction::Tap { x, y } => pack(1, *x as u128, *y as u128, 0, 0, 0),
        ShebaAction::Swipe { start_x, start_y, end_x, end_y, duration_ms } => pack(2,
            *start_x as u128, *start_y as u128, *end_x as u128, *end_y as u128,
            *duration_ms as u128),
        ShebaAction::Wait { duration_ms } => pack(3, *duration_ms as u128, 0, 0, 0, 0),
        ShebaAction::SelectCards { card_indices } => {
            let c0: u128 = if card_indices.len() > 0 { card_indices[0] as u128 } else { 0 };
            let c1: u128 = if card_indices.len() > 1 { card_indices[1] as u128 } else { 0 };
            let c2: u128 = if card_indices.len() > 2 { card_indices[2] as u128 } else { 0 };
            pack(4, c0, c1, c2, card_indices.len() as u128, 0)
        }
        ShebaAction::UseSkill { servant_idx, skill_idx, target } => {
            let t: u128 = match target {
                Some(v) => *v as u128,
                None => 255,
            };
            pack(5, *servant_idx as u128, *skill_idx as u128, t, 0, 0)
        }
        ShebaAction::UseNP { servant_idx } => pack(6, *servant_idx as u128, 0, 0, 0, 0),
        ShebaAction::TargetEnemy { enemy_idx } => pack(7, *enemy_idx as u128, 0, 0, 0, 0),
        ShebaAction::TapAttack => pack(8, 0, 0, 0, 0, 0),
        ShebaAction::UseMasterSkill { skill_idx, target } => {
            let t: u128 = match target {
                Some(v) => *v as u128,
                None => 255,
            };
            pack(9, *skill_idx as u128, t, 0, 0, 0)
        }
    };
    proof {
        match action {
            ShebaAction::NoOp => lemma_pack_unpack(0, 0, 0, 0, 0, 0),
            ShebaAction::Tap { x, y } => lemma_pack_unpack(1, *x as u128, *y as u128, 0, 0,
                0),
            ShebaAction::Swipe { start_x, start_y, end_x, end_y, duration_ms } =>
                lemma_pack_unpack(2, *start_x as u128, *start_y as u128, *end_x as u128,
                    *end_y as u128, *duration_ms as u128),
            ShebaAction::Wait { duration_ms } => lemma_pack_unpack(3, *duration_ms as u128,
                0, 0, 0, 0),
            ShebaAction::SelectCards { card_indices } => {
                let ci = card_indices@;
                lemma_pack_unpack(4, if ci.len() > 0 { ci[0] as u128 } else { 0 },
                    if ci.len() > 1 { ci[1] as u128 } else { 0 },
                    if ci.len() > 2 { ci[2] as u128 } else { 0 }, ci.len() as u128, 0);
            }
            ShebaAction::UseSkill { servant_idx, skill_idx, target } => lemma_pack_unpack(5,
                *servant_idx as u128, *skill_idx as u128, spec_target_param(*target), 0, 0),
            ShebaAction::UseNP { servant_idx } => lemma_pack_unpack(6, *servant_idx as u128,
                0, 0, 0, 0),
            ShebaAction::TargetEnemy { enemy_idx } => lemma_pack_unpack(7,
                *enemy_idx as u128, 0, 0, 0, 0),
            ShebaAction::TapAttack => lemma_pack_unpack(8, 0, 0, 0, 0, 0),
            ShebaAction::UseMasterSkill { skill_idx, target } => lemma_pack_unpack(9,
                *skill_idx as u128, spec_target_param(*target), 0, 0, 0),
        }
    }
    w
}

fn pack(t: u128, a: u128, b: u128, c: u128, d: u128, e: u128) -> (w: u128)
    requires
        t < 0x100,
        a < 0x1000000,
        b < 0x1000000,
        c < 0x1000000,
        d < 0x1000000,
        e < 0x1000000,
    ensures
        w == spec_pack(t, a, b, c, d, e),
{
    t | (a << 8) | (b << 32) | (c << 56) | (d << 80) | (e << 104)
}

/// Decode a transport word back into an action. An unknown tag or an
/// oversized card count yields nothing.
pub fn decode_action(w: u128) -> (r: Option<ShebaAction>)
    ensures
        r is Some <==> spec_valid_code(w),
        r matches Some(a) ==> spec_is_decoded(w, a),
{
    proof {
        lemma_unpack_bounds(w);
    }
    let tag = w & 0xFF;
    let p1 = (w >> 8) & 0xFFFFFF;
    let p2 = (w >> 32) & 0xFFFFFF;
    let p3 = (w >> 56) & 0xFFFFFF;
    let p4 = (w >> 80) & 0xFFFFFF;
    let p5 = (w >> 104) & 0xFFFFFF;
    if tag == 0 {
        Some(ShebaAction::NoOp)
    } else if tag == 1 {
        Some(ShebaAction::Tap { x: p1 as i32, y: p2 as i32 })
    } else if tag == 2 {
        Some(ShebaAction::Swipe {
            start_x: p1 as i32,
            start_y: p2 as i32,
            end_x: p3 as i32,
            end_y: p4 as i32,
            duration_ms: p5 as u32,
        })
    } else if tag == 3 {
        Some(ShebaAction::Wait { duration_ms: p1 as u32 })
    } else if tag == 4 {
        if p4 > 3 {
            return None;
        }
        let mut card_indices: Vec<usize> = Vec::new();
        if p4 >= 1 {
            card_indices.push(p1 as usize);
        }
        if p4 >= 2 {
            card_indices.push(p2 as usize);
        }
        if p4 >= 3 {
            card_indices.push(p3 as usize);
        }
        proof {
            assert(card_indices@ =~= spec_decoded_slots(p1, p2, p3, p4));
        }
        Some(ShebaAction::SelectCards { card_indices })
    } else if tag == 5 {
        let target: Option<usize> = if p3 == 255 { None } else { Some(p3 as usize) };
        Some(ShebaAction::UseSkill {
            servant_idx: p1 as usize,
            skill_idx: p2 as usize,
            target,
        })
    } else if tag == 6 {
        Some(ShebaAction::UseNP { servant_idx: p1 as usize })
    } else if tag == 7 {
        Some(ShebaAction::TargetEnemy { enemy_idx: p1 as usize })
    } else if tag == 8 {
        Some(ShebaAction::TapAttack)
    } else if tag == 9 {
        let target: Option<usize> = if p2 == 255 { None } else { Some(p2 as usize) };
        Some(ShebaAction::UseMasterSkill { skill_idx: p1 as usize, target })
    } else {
        None
    }
}

} // verus!
