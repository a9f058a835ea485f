//! Generating the picks of a whole match: both roles, for the number of
//! rounds that the game mode asks for, with or without backups.

use vstd::prelude::*;

use crate::sampler::{
    backup_pick, generate_backups, primary_pick, remove_named, sample_or_choices, without_names,
};

verus! {

/// Rounds in a ranked or unranked match.
pub const FULL_MATCH_ROUNDS: usize = 9;

/// Rounds in a quick match.
pub const QUICK_MATCH_ROUNDS: usize = 5;

/// The kind of match picks are made for.
#[derive(Clone, Copy, Debug, PartialEq, Eq, Structural)]
pub enum GameMode {
    Ranked,
    Unranked,
    Quick,
    JustGenerate,
}

/// The settings that decide what is generated.
pub struct SelectionSettings {
    /// Rounds picked in the `JustGenerate` mode.
    pub just_generate_count: usize,
    /// Whether the `JustGenerate` mode also picks backups.
    pub just_generate_backup: bool,
    /// Operators that are never picked.
    pub disabled_operators: Vec<String>,
    /// Whether a mode may run with fewer enabled operators than rounds.
    pub allow_insufficient_ops: bool,
}

/// The number of rounds of `mode`.
pub open spec fn rounds_of(mode: GameMode, settings: SelectionSettings) -> int {
    match mode {
        GameMode::Ranked | GameMode::Unranked => FULL_MATCH_ROUNDS as int,
        GameMode::Quick => QUICK_MATCH_ROUNDS as int,
        GameMode::JustGenerate => settings.just_generate_count as int,
    }
}

/// Whether `mode` picks backups along with the rounds.
pub open spec fn picks_backups(mode: GameMode, settings: SelectionSettings) -> bool {
    match mode {
        GameMode::JustGenerate => settings.just_generate_backup,
        _ => true,
    }
}

impl GameMode {
    /// The number of rounds picks are made for in this mode.
    pub fn round_count(&self, settings: &SelectionSettings) -> (r: usize)
        ensures
            r == rounds_of(*self, *settings),
    {
        match self {
            GameMode::Ranked | GameMode::Unranked => FULL_MATCH_ROUNDS,
            GameMode::Quick => QUICK_MATCH_ROUNDS,
            GameMode::JustGenerate => settings.just_generate_count,
        }
    }
}

/// Why no picks were generated.
#[derive(Clone, Copy, Debug, PartialEq, Eq, Structural)]
pub enum GenerateError {
    /// No attacker or no defender is enabled.
    NoEnabledOperators,
    /// Fewer operators of a role are enabled than the mode has rounds, and
    /// that is not allowed.
    NotEnoughOperators(GameMode),
    /// Backups were asked for before any rounds were generated.
    NothingGenerated,
}

/// Attacker picks and defender picks, one of each per round.
pub struct RolePicks {
    pub attackers: Vec<String>,
    pub defenders: Vec<String>,
}

/// The picks of a match: one per round, and the backups.
pub struct GeneratedSet {
    pub rounds: RolePicks,
    /// Empty in both roles where the mode picks no backups.
    pub backups: RolePicks,
}

/// The operators of `roster` that are not disabled, in roster order.
pub fn enabled_pool(roster: &[String], settings: &SelectionSettings) -> (r: Vec<String>)
    ensures
        r@ == without_names(settings.disabled_operators@, roster@),
{
    remove_named(settings.disabled_operators.as_slice(), roster)
}

/// Why `generate_new_set` fails on these inputs, if it does.
pub open spec fn set_refusal(
    attackers: Seq<String>,
    defenders: Seq<String>,
    settings: SelectionSettings,
    mode: GameMode,
) -> Option<GenerateError> {
    let pool_a = without_names(settings.disabled_operators@, attackers);
    let pool_d = without_names(settings.disabled_operators@, defenders);
    let k = rounds_of(mode, settings);
    if pool_a.len() == 0 || pool_d.len() == 0 {
        Some(GenerateError::NoEnabledOperators)
    } else if !settings.allow_insufficient_ops && (pool_a.len() < k || pool_d.len() < k) {
        Some(GenerateError::NotEnoughOperators(mode))
    } else {
        None
    }
}

/// Picks the operators of every round of `mode` for both roles from the
/// enabled ones, and backups where the mode asks for them.
pub fn generate_new_set(
    attackers: &[String],
    defenders: &[String],
    settings: &SelectionSettings,
    mode: GameMode,
    rng: &mut rand::rngs::StdRng,
) -> (r: Result<GeneratedSet, GenerateError>)
    ensures
        match r {
            Err(e) => set_refusal(attackers@, defenders@, *settings, mode) == Some(e),
            Ok(set) => {
                let pool_a = without_names(settings.disabled_operators@, attackers@);
                let pool_d = without_names(settings.disabled_operators@, defenders@);
                let k = rounds_of(mode, *settings);
                &&& set_refusal(attackers@, defenders@, *settings, mode) is None
                &&& primary_pick(set.rounds.attackers@, pool_a, k)
                &&& primary_pick(set.rounds.defenders@, pool_d, k)
                &&& if picks_backups(mode, *settings) {
                    &&& backup_pick(set.backups.attackers@, set.rounds.attackers@, pool_a, k)
                    &&& backup_pick(set.backups.defenders@, set.rounds.defenders@, pool_d, k)
                } else {
                    set.backups.attackers@.len() == 0 && set.backups.defenders@.len() == 0
                }
            },
        },
{
    let k = mode.round_count(settings);
    let pool_a = enabled_pool(attackers, settings);
    let pool_d = enabled_pool(defenders, settings);
    if pool_a.len() == 0 || pool_d.len() == 0 {
        return Err(GenerateError::NoEnabledOperators);
    }
    if !settings.allow_insufficient_ops && (pool_a.len() < k || pool_d.len() < k) {
        return Err(GenerateError::NotEnoughOperators(mode));
    }
    let picks_a = sample_or_choices(pool_a.as_slice(), k, rng).unwrap();
    let picks_d = sample_or_choices(pool_d.as_slice(), k, rng).unwrap();
    let with_backups = match mode {
        GameMode::JustGenerate => settings.just_generate_backup,
        _ => true,
    };
    let backups = if with_backups {
        let backup_a = generate_backups(picks_a.as_slice(), pool_a.as_slice(), k, rng).unwrap();
        let backup_d = generate_backups(picks_d.as_slice(), pool_d.as_slice(), k, rng).unwrap();
        RolePicks { attackers: backup_a, defenders: backup_d }
    } else {
        RolePicks { attackers: Vec::new(), defenders: Vec::new() }
    };
    Ok(GeneratedSet { rounds: RolePicks { attackers: picks_a, defenders: picks_d }, backups })
}

/// Why `generate_new_backups` fails on these inputs, if it does.
pub open spec fn backup_refusal(
    attackers: Seq<String>,
    defenders: Seq<String>,
    settings: SelectionSettings,
    last_mode: Option<GameMode>,
    rounds: RolePicks,
) -> Option<GenerateError> {
    if last_mode is None || rounds.attackers@.len() == 0 || rounds.defenders@.len() == 0 {
        Some(GenerateError::NothingGenerated)
    } else if without_names(settings.disabled_operators@, attackers).len() == 0
        || without_names(settings.disabled_operators@, defenders).len() == 0 {
        Some(GenerateError::NoEnabledOperators)
    } else {
        None
    }
}

/// Picks new backups for the rounds last generated, in the mode they were
/// generated for, from the operators enabled now.
pub fn generate_new_backups(
    attackers: &[String],
    defenders: &[String],
    settings: &SelectionSettings,
    last_mode: Option<GameMode>,
    rounds: &RolePicks,
    rng: &mut rand::rngs::StdRng,
) -> (r: Result<RolePicks, GenerateError>)
    ensures
        match r {
            Err(e) => backup_refusal(attackers@, defenders@, *settings, last_mode, *rounds) == Some(
                e,
            ),
            Ok(backups) => {
                let pool_a = without_names(settings.disabled_operators@, attackers@);
                let pool_d = without_names(settings.disabled_operators@, defenders@);
                let k = rounds_of(last_mode->Some_0, *settings);
                &&& backup_refusal(attackers@, defenders@, *settings, last_mode, *rounds) is None
                &&& backup_pick(backups.attackers@, rounds.attackers@, pool_a, k)
                &&& backup_pick(backups.defenders@, rounds.defenders@, pool_d, k)
            },
        },
{
    let mode = match last_mode {
        Some(m) => m,
        None => return Err(GenerateError::NothingGenerated),
    };
    if rounds.attackers.len() == 0 || rounds.defenders.len() == 0 {
        return Err(GenerateError::NothingGenerated);
    }
    let k = mode.round_count(settings);
    let pool_a = enabled_pool(attackers, settings);
    let pool_d = enabled_pool(defenders, settings);
    if pool_a.len() == 0 || pool_d.len() == 0 {
        return Err(GenerateError::NoEnabledOperators);
    }
    let backup_a = generate_backups(rounds.attackers.as_slice(), pool_a.as_slice(), k, rng).unwrap();
    let backup_d = generate_backups(rounds.defenders.as_slice(), pool_d.as_slice(), k, rng).unwrap();
    Ok(RolePicks { attackers: backup_a, defenders: backup_d })
}

/// What a hotkey asks for.
#[derive(Clone, Copy, Debug, PartialEq, Eq, Structural)]
pub enum HotkeyAction {
    /// Picks again in the mode last used.
    Generate,
    /// Picks new backups for the current rounds.
    GenerateBackup,
    Ranked,
    Unranked,
    Quick,
    JustGenerate,
}

/// What to do when a hotkey is pressed.
#[derive(Clone, Copy, Debug, PartialEq, Eq, Structural)]
pub enum Command {
    /// Generate a new set of picks in this mode.
    GenerateSet(GameMode),
    /// Generate new backups for the current rounds.
    GenerateBackups,
    /// Nothing to do.
    Idle,
}

/// The command of `action`, where `last_mode` is the mode last generated in.
pub open spec fn command_of(action: HotkeyAction, last_mode: Option<GameMode>) -> Command {
    match action {
        HotkeyAction::Generate => match last_mode {
            Some(m) => Command::GenerateSet(m),
            None => Command::Idle,
        },
        HotkeyAction::GenerateBackup => Command::GenerateBackups,
        HotkeyAction::Ranked => Command::GenerateSet(GameMode::Ranked),
        HotkeyAction::Unranked => Command::GenerateSet(GameMode::Unranked),
        HotkeyAction::Quick => Command::GenerateSet(GameMode::Quick),
        HotkeyAction::JustGenerate => Command::GenerateSet(GameMode::JustGenerate),
    }
}

impl HotkeyAction {
    /// What pressing this hotkey does, given the mode last generated in.
    pub fn command(&self, last_mode: Option<GameMode>) -> (r: Command)
        ensures
            r == command_of(*self, last_mode),
    {
        match self {
            HotkeyAction::Generate => match last_mode {
                Some(m) => Command::GenerateSet(m),
                None => Command::Idle,
            },
            HotkeyAction::GenerateBackup => Command::GenerateBackups,
            HotkeyAction::Ranked => Command::GenerateSet(GameMode::Ranked),
            HotkeyAction::Unranked => Command::GenerateSet(GameMode::Unranked),
            HotkeyAction::Quick => Command::GenerateSet(GameMode::Quick),
            HotkeyAction::JustGenerate => Command::GenerateSet(GameMode::JustGenerate),
        }
    }
}

} // verus!
