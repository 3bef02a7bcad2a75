//! What the lines on the game and the log read.
use vstd::prelude::*;
use crate::log;
use crate::game::{MatchStats, Player, PlayerState, Team, Weapon, WeaponState};

verus! {

/// Two rows of texts read one after the other as the row of all of them does, and no texts read
/// as nothing.
pub proof fn law_log_reads_through(first: Seq<Seq<char>>, second: Seq<Seq<char>>)
    ensures
        log::joined(Seq::<Seq<char>>::empty()) == Seq::<char>::empty(),
        log::joined(first + second) == log::joined(first) + log::joined(second),
    decreases second.len(),
{
    assert(log::joined(Seq::<Seq<char>>::empty()) =~= Seq::<char>::empty());
    if second.len() == 0 {
        assert(first + second =~= first);
        assert(log::joined(first) + log::joined(second) =~= log::joined(first));
    } else {
        assert((first + second).drop_last() =~= first + second.drop_last());
        law_log_reads_through(first, second.drop_last());
        assert(log::joined(first + second) =~= log::joined(first) + log::joined(second));
    }
}

/// A row of one text reads as that text.
pub proof fn law_one_piece_reads_as_it_is(piece: Seq<char>)
    ensures
        log::joined(seq![piece]) == piece,
{
    assert(seq![piece].drop_last() =~= Seq::<Seq<char>>::empty());
    assert(log::joined(Seq::<Seq<char>>::empty()) =~= Seq::<char>::empty());
    assert(log::joined(seq![piece]) =~= piece);
}

/// A row of two texts reads as the first and then the second.
proof fn lemma_pair(label: Seq<char>, value: Seq<char>)
    ensures
        log::joined(seq![label, value]) == label + value,
{
    law_one_piece_reads_as_it_is(label);
    log::law_log_grows_at_the_end(seq![label], value);
    assert(seq![label].push(value) =~= seq![label, value]);
}

/// The characters of a row of texts, text by text.
pub proof fn law_texts_read_one_by_one(lines: Seq<String>, i: int)
    requires
        0 <= i < lines.len(),
    ensures
        crate::game::texts(lines).len() == lines.len(),
        crate::game::texts(lines)[i] == lines[i]@,
{
}

/// How a yes-or-no answer reads.
pub open spec fn answer(yes: bool) -> Seq<char> {
    if yes {
        "yes"@
    } else {
        "no"@
    }
}

/// The line on the player gives the name and the team, each behind its label.
pub proof fn law_player_line(player: Player)
    ensures
        crate::game::player_line(player) == log::joined(
            seq![
                "name: "@ + player.name@,
                " team: "@ + (match player.team {
                    Some(Team::CT) => "CTs"@,
                    Some(Team::T) => "Terrorists"@,
                    None => Seq::<char>::empty(),
                }),
            ],
        ),
{
    reveal_strlit("");
    assert(""@ =~= Seq::<char>::empty());
    let team = match player.team {
        Some(Team::CT) => "CTs"@,
        Some(Team::T) => "Terrorists"@,
        None => Seq::<char>::empty(),
    };
    lemma_pair("name: "@ + player.name@, " team: "@ + team);
    assert(crate::game::player_line(player) =~= ("name: "@ + player.name@) + (" team: "@ + team));
}

/// Four texts with their labels, one after the other.
proof fn lemma_four(
    l1: Seq<char>,
    v1: Seq<char>,
    l2: Seq<char>,
    v2: Seq<char>,
    l3: Seq<char>,
    v3: Seq<char>,
    l4: Seq<char>,
    v4: Seq<char>,
)
    ensures
        log::joined(seq![l1 + v1, l2 + v2, l3 + v3, l4 + v4]) == l1 + v1 + l2 + v2 + l3 + v3 + l4
            + v4,
{
    let one = seq![l1 + v1];
    let two = one.push(l2 + v2);
    let three = two.push(l3 + v3);
    law_one_piece_reads_as_it_is(l1 + v1);
    log::law_log_grows_at_the_end(one, l2 + v2);
    log::law_log_grows_at_the_end(two, l3 + v3);
    log::law_log_grows_at_the_end(three, l4 + v4);
    assert(three.push(l4 + v4) =~= seq![l1 + v1, l2 + v2, l3 + v3, l4 + v4]);
    assert(l1 + v1 + (l2 + v2) =~= l1 + v1 + l2 + v2);
    assert(l1 + v1 + l2 + v2 + (l3 + v3) =~= l1 + v1 + l2 + v2 + l3 + v3);
    assert(l1 + v1 + l2 + v2 + l3 + v3 + (l4 + v4) =~= l1 + v1 + l2 + v2 + l3 + v3 + l4 + v4);
}

/// The line on the match gives kills, deaths, assists and most-valuable-player awards, in this
/// order, each behind its label.
pub proof fn law_match_line(stats: MatchStats)
    ensures
        crate::game::match_line(stats) == log::joined(
            seq![
                "kills: "@ + crate::decimal::signed_numeral(stats.kills as int),
                " deaths: "@ + crate::decimal::numeral(stats.deaths as nat),
                " assists: "@ + crate::decimal::numeral(stats.assists as nat),
                " mvps: "@ + crate::decimal::numeral(stats.mvps as nat),
            ],
        ),
{
    lemma_four(
        "kills: "@,
        crate::decimal::signed_numeral(stats.kills as int),
        " deaths: "@,
        crate::decimal::numeral(stats.deaths as nat),
        " assists: "@,
        crate::decimal::numeral(stats.assists as nat),
        " mvps: "@,
        crate::decimal::numeral(stats.mvps as nat),
    );
}

/// The line on what the player has gives health, armour, helmet and cash, in this order, each
/// behind its label.
pub proof fn law_condition_line(state: PlayerState)
    ensures
        crate::game::condition_line(state) == log::joined(
            seq![
                "health: "@ + crate::decimal::numeral(state.health as nat),
                " armour: "@ + crate::decimal::numeral(state.armor as nat),
                " helmet: "@ + answer(state.helmet),
                " cash: "@ + crate::decimal::numeral(state.money as nat),
            ],
        ),
{
    lemma_four(
        "health: "@,
        crate::decimal::numeral(state.health as nat),
        " armour: "@,
        crate::decimal::numeral(state.armor as nat),
        " helmet: "@,
        answer(state.helmet),
        " cash: "@,
        crate::decimal::numeral(state.money as nat),
    );
}

/// The line on what has befallen the player says for each of the effects whether there is any of
/// it at all, and whether the player is known to have a defuse kit.
pub proof fn law_effects_line(state: PlayerState)
    ensures
        crate::game::effects_line(state) == log::joined(
            seq![
                "flashed: "@ + answer(state.flashed != 0),
                " smoked: "@ + answer(state.smoked != 0),
                " burning: "@ + answer(state.burning != 0),
                " defuse kit: "@ + answer(state.defuse_kit is Some && state.defuse_kit->0),
            ],
        ),
{
    lemma_four(
        "flashed: "@,
        answer(state.flashed != 0),
        " smoked: "@,
        answer(state.smoked != 0),
        " burning: "@,
        answer(state.burning != 0),
        " defuse kit: "@,
        answer(state.defuse_kit is Some && state.defuse_kit->0),
    );
}

/// Whether a weapon is shown: where it is neither holstered nor being reloaded, and both what is
/// in its clip and what fits in are known.
pub open spec fn is_shown(weapon: Weapon) -> bool {
    &&& weapon.state != WeaponState::Holstered
    &&& weapon.state != WeaponState::Reloading
    &&& weapon.ammo_clip is Some
    &&& weapon.ammo_clip_max is Some
}

/// How a weapon reads that is shown: by its name, what is in its clip and what fits in.
pub open spec fn reading(weapon: Weapon) -> Seq<char> {
    log::joined(
        seq![
            "active weapon: "@ + weapon.name@,
            " ammo: "@ + crate::decimal::numeral(weapon.ammo_clip->0 as nat),
            "/"@ + crate::decimal::numeral(weapon.ammo_clip_max->0 as nat),
        ],
    )
}

/// A weapon has one line where it is shown, and none else.
pub proof fn law_weapon_lines(weapon: Weapon)
    ensures
        crate::game::weapon_lines(weapon) == (if is_shown(weapon) {
            seq![reading(weapon)]
        } else {
            Seq::<Seq<char>>::empty()
        }),
{
    if is_shown(weapon) {
        let clip = crate::decimal::numeral(weapon.ammo_clip->0 as nat);
        let most = crate::decimal::numeral(weapon.ammo_clip_max->0 as nat);
        let one = seq!["active weapon: "@ + weapon.name@];
        let two = one.push(" ammo: "@ + clip);
        let three = two.push("/"@ + most);
        law_one_piece_reads_as_it_is("active weapon: "@ + weapon.name@);
        log::law_log_grows_at_the_end(one, " ammo: "@ + clip);
        log::law_log_grows_at_the_end(two, "/"@ + most);
        assert(three =~= seq![
            "active weapon: "@ + weapon.name@,
            " ammo: "@ + clip,
            "/"@ + most,
        ]);
        assert(reading(weapon) =~= "active weapon: "@ + weapon.name@ + " ammo: "@ + clip + "/"@
            + most);
        assert(crate::game::weapon_lines(weapon) =~= seq![reading(weapon)]);
    } else {
        assert(crate::game::weapon_lines(weapon) =~= Seq::<Seq<char>>::empty());
    }
}

/// The lines on a row of weapons are those of the weapons that are shown, in their order.
pub proof fn law_arsenal_lines(weapons: Seq<Weapon>)
    ensures
        crate::game::arsenal_lines(weapons) == weapons.filter(
            |weapon: Weapon| is_shown(weapon),
        ).map_values(|weapon: Weapon| reading(weapon)),
    decreases weapons.len(),
{
    reveal(Seq::filter);
    let shown = |weapon: Weapon| is_shown(weapon);
    let read = |weapon: Weapon| reading(weapon);
    if weapons.len() > 0 {
        law_arsenal_lines(weapons.drop_last());
        law_weapon_lines(weapons.last());
        let before = weapons.drop_last().filter(shown);
        if is_shown(weapons.last()) {
            assert(weapons.filter(shown) == before.push(weapons.last()));
            assert(before.push(weapons.last()).map_values(read) =~= before.map_values(read)
                + seq![reading(weapons.last())]);
        } else {
            assert(weapons.filter(shown) == before);
            assert(before.map_values(read) + Seq::<Seq<char>>::empty() =~= before.map_values(read));
        }
    }
    assert(crate::game::arsenal_lines(weapons) =~= weapons.filter(shown).map_values(read));
}

/// What is shown of the game: nothing without a player; else the line on the player first, then
/// the line on the match, then the two lines on the player's condition, as far as they are known,
/// and last the lines on the weapons.
pub proof fn law_game_lines(player: Player)
    ensures
        crate::game::game_lines(None).len() == 0,
        ({
            let lines = crate::game::game_lines(Some(player));
            let weapons = crate::game::arsenal_lines(player.weapons@);
            let matches: nat = if player.match_stats is Some {
                1
            } else {
                0
            };
            let states: nat = if player.state is Some {
                2
            } else {
                0
            };
            &&& lines.len() == 1 + matches + states + weapons.len()
            &&& lines[0] == crate::game::player_line(player)
            &&& player.match_stats is Some ==> lines[1] == crate::game::match_line(
                player.match_stats->0,
            )
            &&& player.state is Some ==> {
                &&& lines[(1 + matches) as int] == crate::game::condition_line(player.state->0)
                &&& lines[(2 + matches) as int] == crate::game::effects_line(player.state->0)
            }
            &&& lines.skip((1 + matches + states) as int) == weapons
        }),
{
    let lines = crate::game::game_lines(Some(player));
    let weapons = crate::game::arsenal_lines(player.weapons@);
    assert(lines.skip(lines.len() - weapons.len()) =~= weapons);
}

} // verus!
