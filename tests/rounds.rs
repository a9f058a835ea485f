use rand::rngs::StdRng;
use rand::SeedableRng;
use siege_op_rando::rounds::{
    enabled_pool, generate_new_backups, generate_new_set, Command, GameMode, GenerateError,
    HotkeyAction, RolePicks, SelectionSettings,
};

fn names(list: &[&str]) -> Vec<String> {
    list.iter().map(|s| s.to_string()).collect()
}

fn roster(prefix: &str, n: usize) -> Vec<String> {
    (0..n).map(|i| format!("{}{}", prefix, i)).collect()
}

fn settings(disabled: &[&str], count: usize, backup: bool, allow: bool) -> SelectionSettings {
    SelectionSettings {
        just_generate_count: count,
        just_generate_backup: backup,
        disabled_operators: names(disabled),
        allow_insufficient_ops: allow,
    }
}

#[test]
fn round_counts_per_mode() {
    let s = settings(&[], 3, false, false);
    assert_eq!(GameMode::Ranked.round_count(&s), 9);
    assert_eq!(GameMode::Unranked.round_count(&s), 9);
    assert_eq!(GameMode::Quick.round_count(&s), 5);
    assert_eq!(GameMode::JustGenerate.round_count(&s), 3);
}

#[test]
fn enabled_pool_skips_disabled_operators() {
    let s = settings(&["Ash", "Thermite"], 1, false, false);
    let attackers = names(&["Sledge", "Ash", "Thatcher", "Thermite"]);
    assert_eq!(enabled_pool(&attackers, &s), names(&["Sledge", "Thatcher"]));
}

#[test]
fn ranked_set_has_nine_distinct_rounds_and_backups() {
    let attackers = roster("A", 20);
    let defenders = roster("D", 20);
    let s = settings(&["A0", "D1"], 1, false, false);
    let mut rng = StdRng::seed_from_u64(2);
    let set = generate_new_set(&attackers, &defenders, &s, GameMode::Ranked, &mut rng).unwrap();
    assert_eq!(set.rounds.attackers.len(), 9);
    assert_eq!(set.rounds.defenders.len(), 9);
    assert_eq!(set.backups.attackers.len(), 9);
    assert_eq!(set.backups.defenders.len(), 9);
    assert!(!set.rounds.attackers.contains(&"A0".to_string()));
    assert!(!set.rounds.defenders.contains(&"D1".to_string()));
    for b in &set.backups.attackers {
        assert!(!set.rounds.attackers.contains(b));
        assert_ne!(b, "A0");
    }
}

#[test]
fn just_generate_without_backups() {
    let attackers = roster("A", 4);
    let defenders = roster("D", 4);
    let s = settings(&[], 2, false, false);
    let mut rng = StdRng::seed_from_u64(4);
    let set = generate_new_set(&attackers, &defenders, &s, GameMode::JustGenerate, &mut rng).unwrap();
    assert_eq!(set.rounds.attackers.len(), 2);
    assert_eq!(set.rounds.defenders.len(), 2);
    assert!(set.backups.attackers.is_empty());
    assert!(set.backups.defenders.is_empty());
}

#[test]
fn no_enabled_operators_is_refused() {
    let attackers = names(&["A"]);
    let defenders = names(&["D"]);
    let s = settings(&["D"], 1, false, true);
    let mut rng = StdRng::seed_from_u64(4);
    let r = generate_new_set(&attackers, &defenders, &s, GameMode::Quick, &mut rng);
    assert!(matches!(r, Err(GenerateError::NoEnabledOperators)));
}

#[test]
fn too_few_operators_is_refused_unless_allowed() {
    let attackers = roster("A", 4);
    let defenders = roster("D", 9);
    let mut rng = StdRng::seed_from_u64(6);
    let strict = settings(&[], 1, false, false);
    let r = generate_new_set(&attackers, &defenders, &strict, GameMode::Quick, &mut rng);
    assert!(matches!(r, Err(GenerateError::NotEnoughOperators(GameMode::Quick))));
    let lenient = settings(&[], 1, false, true);
    let set = generate_new_set(&attackers, &defenders, &lenient, GameMode::Quick, &mut rng).unwrap();
    assert_eq!(set.rounds.attackers.len(), 5);
    assert!(set.rounds.attackers.iter().all(|a| attackers.contains(a)));
    assert_eq!(set.backups.attackers.len(), 5);
    assert!(set.backups.attackers.iter().all(|a| attackers.contains(a)));
}

#[test]
fn new_backups_need_generated_rounds() {
    let attackers = roster("A", 9);
    let defenders = roster("D", 9);
    let s = settings(&[], 1, false, false);
    let mut rng = StdRng::seed_from_u64(8);
    let empty = RolePicks { attackers: Vec::new(), defenders: Vec::new() };
    let r = generate_new_backups(&attackers, &defenders, &s, Some(GameMode::Quick), &empty, &mut rng);
    assert!(matches!(r, Err(GenerateError::NothingGenerated)));
    let rounds = RolePicks { attackers: names(&["A0"]), defenders: names(&["D0"]) };
    let r = generate_new_backups(&attackers, &defenders, &s, None, &rounds, &mut rng);
    assert!(matches!(r, Err(GenerateError::NothingGenerated)));
}

#[test]
fn new_backups_for_last_rounds() {
    let attackers = roster("A", 12);
    let defenders = roster("D", 12);
    let s = settings(&[], 1, false, false);
    let mut rng = StdRng::seed_from_u64(10);
    let set = generate_new_set(&attackers, &defenders, &s, GameMode::Quick, &mut rng).unwrap();
    let backups =
        generate_new_backups(&attackers, &defenders, &s, Some(GameMode::Quick), &set.rounds, &mut rng)
            .unwrap();
    assert_eq!(backups.attackers.len(), 5);
    assert_eq!(backups.defenders.len(), 5);
    assert!(backups.attackers.iter().all(|b| !set.rounds.attackers.contains(b)));
    assert!(backups.defenders.iter().all(|b| !set.rounds.defenders.contains(b)));
    let all_disabled = settings(&["A0", "A1", "A2", "A3", "A4", "A5", "A6", "A7", "A8", "A9", "A10", "A11"], 1, false, false);
    let r = generate_new_backups(&attackers, &defenders, &all_disabled, Some(GameMode::Quick), &set.rounds, &mut rng);
    assert!(matches!(r, Err(GenerateError::NoEnabledOperators)));
}

#[test]
fn hotkeys_map_to_commands() {
    assert_eq!(HotkeyAction::Generate.command(None), Command::Idle);
    assert_eq!(HotkeyAction::Generate.command(Some(GameMode::Quick)), Command::GenerateSet(GameMode::Quick));
    assert_eq!(HotkeyAction::GenerateBackup.command(None), Command::GenerateBackups);
    assert_eq!(HotkeyAction::Ranked.command(Some(GameMode::Quick)), Command::GenerateSet(GameMode::Ranked));
    assert_eq!(HotkeyAction::Unranked.command(None), Command::GenerateSet(GameMode::Unranked));
    assert_eq!(HotkeyAction::Quick.command(None), Command::GenerateSet(GameMode::Quick));
    assert_eq!(HotkeyAction::JustGenerate.command(None), Command::GenerateSet(GameMode::JustGenerate));
}
