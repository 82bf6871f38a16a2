use snake_game::player::{Player, Playerbook};
use snake_game::registry::{count_after_delete, issue_player, rescored, resolve_lookup, SnakeGameContract};

fn assert_sentinel(p: &Player) {
    assert_eq!(p.id, 0);
    assert_eq!(p.name, "Not Found");
    assert_eq!(p.public_key, "Not Found");
    assert_eq!(p.score, 0);
}

#[test]
fn sequential_ids_with_no_deletes() {
    let mut r = SnakeGameContract::new();
    assert_eq!(r.add_player("alice".to_string(), "pk-a".to_string(), 10), 1);
    assert_eq!(r.add_player("bob".to_string(), "pk-b".to_string(), 20), 2);
    assert_eq!(r.add_player("carol".to_string(), "pk-c".to_string(), 30), 3);
    assert_eq!(r.get_all_players().len(), 3);
}

#[test]
fn get_missing_returns_sentinel() {
    let r = SnakeGameContract::new();
    assert_sentinel(&r.get_player_by_id(0));
    assert_sentinel(&r.get_player_by_id(1));
    assert_sentinel(&r.get_player_by_id(42));
    assert_sentinel(&r.get_player_by_id(u64::MAX));
}

#[test]
fn add_then_get_round_trip() {
    let mut r = SnakeGameContract::new();
    let id = r.add_player("alice".to_string(), "pk-a".to_string(), 10);
    let p = r.get_player_by_id(id);
    assert_eq!(p.id, id);
    assert_eq!(p.name, "alice");
    assert_eq!(p.public_key, "pk-a");
    assert_eq!(p.score, 10);
}

#[test]
fn empty_fields_accepted_and_round_trip() {
    let mut r = SnakeGameContract::new();
    let id = r.add_player(String::new(), String::new(), 0);
    let p = r.get_player_by_id(id);
    assert_eq!(p.id, 1);
    assert_eq!(p.name, "");
    assert_eq!(p.public_key, "");
    assert_eq!(p.score, 0);
}

#[test]
fn update_score_keeps_other_fields() {
    let mut r = SnakeGameContract::new();
    let id = r.add_player("alice".to_string(), "pk-a".to_string(), 10);
    r.update_score(id, 99);
    let p = r.get_player_by_id(id);
    assert_eq!(p.id, id);
    assert_eq!(p.name, "alice");
    assert_eq!(p.public_key, "pk-a");
    assert_eq!(p.score, 99);
    assert_eq!(r.get_all_players().len(), 1);
}

#[test]
fn update_missing_materializes_bogus_record() {
    let mut r = SnakeGameContract::new();
    r.update_score(7, 55);
    let p = r.get_player_by_id(7);
    assert_eq!(p.id, 0);
    assert_eq!(p.name, "Not Found");
    assert_eq!(p.public_key, "Not Found");
    assert_eq!(p.score, 55);
    // the count is untouched, so the enumeration still sees nothing
    assert_eq!(r.get_all_players().len(), 0);
}

#[test]
fn delete_existing_sentinels_and_decrements() {
    let mut r = SnakeGameContract::new();
    r.add_player("alice".to_string(), "pk-a".to_string(), 10);
    r.add_player("bob".to_string(), "pk-b".to_string(), 20);
    assert_eq!(r.get_all_players().len(), 2);
    r.delete_player(1);
    assert_sentinel(&r.get_player_by_id(1));
    assert_eq!(r.get_all_players().len(), 1);
}

#[test]
fn delete_missing_is_noop() {
    let mut r = SnakeGameContract::new();
    r.add_player("alice".to_string(), "pk-a".to_string(), 10);
    r.add_player("bob".to_string(), "pk-b".to_string(), 20);
    r.delete_player(5);
    assert_eq!(r.get_all_players().len(), 2);
    assert_eq!(r.get_player_by_id(1).name, "alice");
    assert_eq!(r.get_player_by_id(2).name, "bob");
}

#[test]
fn reissued_id_overwrites_survivor() {
    let mut r = SnakeGameContract::new();
    assert_eq!(r.add_player("a".to_string(), "pk-a".to_string(), 1), 1);
    assert_eq!(r.add_player("b".to_string(), "pk-b".to_string(), 2), 2);
    r.delete_player(1); // count drops to 1
    // the next add reuses id 2 and silently overwrites b's record
    assert_eq!(r.add_player("c".to_string(), "pk-c".to_string(), 3), 2);
    let p = r.get_player_by_id(2);
    assert_eq!(p.name, "c");
    assert_eq!(p.public_key, "pk-c");
    assert_eq!(p.score, 3);
}

#[test]
fn enumeration_walks_watermark_not_live_ids() {
    let mut r = SnakeGameContract::new();
    r.add_player("a".to_string(), "pk-a".to_string(), 1);
    r.add_player("b".to_string(), "pk-b".to_string(), 2);
    r.add_player("c".to_string(), "pk-c".to_string(), 3);
    r.delete_player(2); // count drops to 2
    let all = r.get_all_players();
    assert_eq!(all.len(), 2);
    assert_eq!(all[0].id, 1);
    assert_eq!(all[0].name, "a");
    // index 1 walks id 2, which is gone: the sentinel, not player c
    assert_sentinel(&all[1]);
}

#[test]
fn delete_while_count_zero_keeps_count() {
    let mut r = SnakeGameContract::new();
    r.update_score(7, 5); // materializes a record while the count stays 0
    r.delete_player(7); // removes it; the count, already 0, is not decremented
    assert_sentinel(&r.get_player_by_id(7));
    assert_eq!(r.get_all_players().len(), 0);
    assert_eq!(r.add_player("a".to_string(), "pk-a".to_string(), 1), 1);
}

#[test]
fn issue_player_builds_next_record() {
    let (id, p) = issue_player(4, "dora".to_string(), "pk-d".to_string(), 12);
    assert_eq!(id, 5);
    assert_eq!(p.id, 5);
    assert_eq!(p.name, "dora");
    assert_eq!(p.public_key, "pk-d");
    assert_eq!(p.score, 12);
}

#[test]
fn resolve_lookup_falls_back_to_sentinel() {
    let found = resolve_lookup(Some(Player {
        id: 3,
        name: "eve".to_string(),
        public_key: "pk-e".to_string(),
        score: 8,
    }));
    assert_eq!(found.id, 3);
    assert_eq!(found.name, "eve");
    assert_sentinel(&resolve_lookup(None));
}

#[test]
fn rescored_overwrites_score_only() {
    let p = rescored(
        Some(Player { id: 3, name: "eve".to_string(), public_key: "pk-e".to_string(), score: 8 }),
        80,
    );
    assert_eq!(p.id, 3);
    assert_eq!(p.name, "eve");
    assert_eq!(p.public_key, "pk-e");
    assert_eq!(p.score, 80);
    let q = rescored(None, 80);
    assert_eq!(q.id, 0);
    assert_eq!(q.name, "Not Found");
    assert_eq!(q.score, 80);
}

#[test]
fn count_after_delete_stops_at_zero() {
    assert_eq!(count_after_delete(3), Some(2));
    assert_eq!(count_after_delete(1), Some(0));
    assert_eq!(count_after_delete(0), None);
}

#[test]
fn sentinel_record_has_exact_fields() {
    assert_sentinel(&Player::sentinel());
}

#[test]
fn playerbook_key_carries_its_id() {
    let key = Playerbook::Player(9);
    assert_eq!(key.id(), 9);
}
