//! The state of the game, and how it is shown.
use vstd::prelude::*;
use vstd::string::StringExecFns;
use crate::decimal::{numeral_text, signed_numeral_text};

verus! {

/// A team.
#[derive(Clone, Copy, Debug, PartialEq, Eq, Structural)]
pub enum Team {
    CT,
    T,
}

/// What a player has done in the match.
#[derive(Clone, Copy, Debug, PartialEq, Eq)]
pub struct MatchStats {
    pub kills: i64,
    pub deaths: u64,
    pub assists: u64,
    pub mvps: u64,
}

/// How a player is doing.
#[derive(Clone, Copy, Debug, PartialEq, Eq)]
pub struct PlayerState {
    pub health: u64,
    pub armor: u64,
    pub helmet: bool,
    pub money: u64,
    pub flashed: u64,
    pub smoked: u64,
    pub burning: u64,
    pub defuse_kit: Option<bool>,
}

/// Whether a weapon is in use.
#[derive(Clone, Copy, Debug, PartialEq, Eq, Structural)]
pub enum WeaponState {
    Holstered,
    Active,
    Reloading,
}

/// A weapon of a player.
#[derive(Clone, Debug, PartialEq, Eq)]
pub struct Weapon {
    pub name: String,
    pub state: WeaponState,
    pub ammo_clip: Option<u64>,
    pub ammo_clip_max: Option<u64>,
}

/// A player.
#[derive(Clone, Debug, PartialEq, Eq)]
pub struct Player {
    pub name: String,
    pub team: Option<Team>,
    pub match_stats: Option<MatchStats>,
    pub state: Option<PlayerState>,
    pub weapons: Vec<Weapon>,
}

/// How a team is called.
pub open spec fn team_name(team: Option<Team>) -> Seq<char> {
    match team {
        None => ""@,
        Some(Team::T) => "Terrorists"@,
        Some(Team::CT) => "CTs"@,
    }
}

/// How a yes-or-no answer is shown.
pub open spec fn yes_or_no(answer: bool) -> Seq<char> {
    if answer {
        "yes"@
    } else {
        "no"@
    }
}

/// The line on who the player is.
pub open spec fn player_line(player: Player) -> Seq<char> {
    "name: "@ + player.name@ + " team: "@ + team_name(player.team)
}

/// The line on the match.
pub open spec fn match_line(stats: MatchStats) -> Seq<char> {
    "kills: "@ + crate::decimal::signed_numeral(stats.kills as int) + " deaths: "@
        + crate::decimal::numeral(stats.deaths as nat) + " assists: "@ + crate::decimal::numeral(
        stats.assists as nat,
    ) + " mvps: "@ + crate::decimal::numeral(stats.mvps as nat)
}

/// The line on what the player has.
pub open spec fn condition_line(state: PlayerState) -> Seq<char> {
    "health: "@ + crate::decimal::numeral(state.health as nat) + " armour: "@
        + crate::decimal::numeral(state.armor as nat) + " helmet: "@ + yes_or_no(state.helmet)
        + " cash: "@ + crate::decimal::numeral(state.money as nat)
}

/// The line on what has befallen the player. A defuse kit that is not mentioned is not there.
pub open spec fn effects_line(state: PlayerState) -> Seq<char> {
    "flashed: "@ + yes_or_no(state.flashed > 0) + " smoked: "@ + yes_or_no(state.smoked > 0)
        + " burning: "@ + yes_or_no(state.burning > 0) + " defuse kit: "@ + yes_or_no(
        state.defuse_kit == Some(true),
    )
}

/// The line on a weapon, where it is in use and its ammunition is known.
pub open spec fn weapon_lines(weapon: Weapon) -> Seq<Seq<char>> {
    if weapon.state == WeaponState::Active && weapon.ammo_clip is Some && weapon.ammo_clip_max
        is Some {
        seq![
            "active weapon: "@ + weapon.name@ + " ammo: "@ + crate::decimal::numeral(
                weapon.ammo_clip->0 as nat,
            ) + "/"@ + crate::decimal::numeral(weapon.ammo_clip_max->0 as nat),
        ]
    } else {
        seq![]
    }
}

/// The lines on a row of weapons.
pub open spec fn arsenal_lines(weapons: Seq<Weapon>) -> Seq<Seq<char>>
    decreases weapons.len(),
{
    if weapons.len() == 0 {
        seq![]
    } else {
        arsenal_lines(weapons.drop_last()) + weapon_lines(weapons.last())
    }
}

/// The lines that show the state of the game: those on the player, on the match and on the
/// player's condition as far as they are known, and those on the weapons.
pub open spec fn game_lines(player: Option<Player>) -> Seq<Seq<char>> {
    match player {
        None => seq![],
        Some(player) => {
            seq![player_line(player)] + (match player.match_stats {
                Some(stats) => seq![match_line(stats)],
                None => seq![],
            }) + (match player.state {
                Some(state) => seq![condition_line(state), effects_line(state)],
                None => seq![],
            }) + arsenal_lines(player.weapons@)
        },
    }
}

/// The characters of each of a row of texts.
pub open spec fn texts(lines: Seq<String>) -> Seq<Seq<char>> {
    lines.map_values(|line: String| line@)
}

/// How a team is called.
fn team_text(team: Option<Team>) -> (text: &'static str)
    ensures
        text@ == team_name(team),
{
    match team {
        None => "",
        Some(Team::T) => "Terrorists",
        Some(Team::CT) => "CTs",
    }
}

/// How a yes-or-no answer is shown.
fn yes_or_no_text(answer: bool) -> (text: &'static str)
    ensures
        text@ == yes_or_no(answer),
{
    if answer {
        "yes"
    } else {
        "no"
    }
}

/// The line on who the player is.
pub fn player_label(player: &Player) -> (line: String)
    ensures
        line@ == player_line(*player),
{
    let mut line = "name: ".to_string();
    line.append(player.name.as_str());
    line.append(" team: ");
    line.append(team_text(player.team));
    line
}

/// The line on the match.
pub fn match_label(stats: &MatchStats) -> (line: String)
    ensures
        line@ == match_line(*stats),
{
    let mut line = "kills: ".to_string();
    line.append(signed_numeral_text(stats.kills).as_str());
    line.append(" deaths: ");
    line.append(numeral_text(stats.deaths).as_str());
    line.append(" assists: ");
    line.append(numeral_text(stats.assists).as_str());
    line.append(" mvps: ");
    line.append(numeral_text(stats.mvps).as_str());
    line
}

/// The line on what the player has.
pub fn condition_label(state: &PlayerState) -> (line: String)
    ensures
        line@ == condition_line(*state),
{
    let mut line = "health: ".to_string();
    line.append(numeral_text(state.health).as_str());
    line.append(" armour: ");
    line.append(numeral_text(state.armor).as_str());
    line.append(" helmet: ");
    line.append(yes_or_no_text(state.helmet));
    line.append(" cash: ");
    line.append(numeral_text(state.money).as_str());
    line
}

/// The line on what has befallen the player.
pub fn effects_label(state: &PlayerState) -> (line: String)
    ensures
        line@ == effects_line(*state),
{
    let has_kit = match state.defuse_kit {
        Some(has_kit) => has_kit,
        None => false,
    };
    let mut line = "flashed: ".to_string();
    line.append(yes_or_no_text(state.flashed > 0));
    line.append(" smoked: ");
    line.append(yes_or_no_text(state.smoked > 0));
    line.append(" burning: ");
    line.append(yes_or_no_text(state.burning > 0));
    line.append(" defuse kit: ");
    line.append(yes_or_no_text(has_kit));
    line
}

/// The line on a weapon, where it is in use and its ammunition is known.
pub fn weapon_label(weapon: &Weapon) -> (line: Option<String>)
    ensures
        line is Some <==> weapon_lines(*weapon).len() == 1,
        line is Some ==> line->0@ == weapon_lines(*weapon)[0],
{
    match (weapon.state, weapon.ammo_clip, weapon.ammo_clip_max) {
        (WeaponState::Active, Some(clip), Some(most)) => {
            let mut line = "active weapon: ".to_string();
            line.append(weapon.name.as_str());
            line.append(" ammo: ");
            line.append(numeral_text(clip).as_str());
            line.append("/");
            line.append(numeral_text(most).as_str());
            Some(line)
        },
        _ => None,
    }
}

/// The lines that show the state of the game, in the order in which they stand.
pub fn game_labels(player: &Option<Player>) -> (lines: Vec<String>)
    ensures
        texts(lines@) == game_lines(*player),
{
    let mut lines: Vec<String> = Vec::new();
    if let Some(player) = player {
        lines.push(player_label(player));
        if let Some(stats) = &player.match_stats {
            lines.push(match_label(stats));
        }
        if let Some(state) = &player.state {
            lines.push(condition_label(state));
            lines.push(effects_label(state));
        }
        let ghost head = texts(lines@);
        let mut i: usize = 0;
        assert(texts(lines@) =~= head + arsenal_lines(player.weapons@.take(0)));
        while i < player.weapons.len()
            invariant
                i <= player.weapons.len(),
                texts(lines@) == head + arsenal_lines(player.weapons@.take(i as int)),
            decreases player.weapons.len() - i,
        {
            let ghost before = lines@;
            if let Some(line) = weapon_label(&player.weapons[i]) {
                lines.push(line);
                assert(texts(lines@) =~= texts(before).push(line@));
            }
            i += 1;
            assert(player.weapons@.take(i as int).drop_last() =~= player.weapons@.take(i - 1));
            assert(texts(lines@) =~= head + arsenal_lines(player.weapons@.take(i as int)));
        }
        assert(player.weapons@.take(i as int) =~= player.weapons@);
        assert(head + arsenal_lines(player.weapons@) =~= game_lines(Some(*player)));
    } else {
        assert(texts(lines@) =~= game_lines(*player));
    }
    lines
}

} // verus!
