use directory::moves::manager::MoveManager;
use directory::moves::{
    place_move, pool_weights, BaseMove, Category, Move, MoveDistribution, MoveList,
};
use directory::pokemon::attributes::types::Type;

fn base_move(pp: u32) -> BaseMove {
    BaseMove::new(
        format!("Move {pp}"),
        format!("move_{pp}"),
        Type::Normal,
        Category::Physical { power: 40 },
        100,
        pp,
    )
}

fn manager(count: u32) -> MoveManager {
    MoveManager::new((0..count).map(|i| base_move(100 + i)).collect())
}

fn pps(moves: &MoveList) -> Vec<Option<u32>> {
    moves.iter().map(|m| m.map(|m| m.current_pp())).collect()
}

#[test]
fn fresh_move_is_fully_charged() {
    let base = base_move(35);
    let mov = Move::default_from_base(&base);
    assert_eq!(mov.current_pp(), 35);
}

#[test]
fn reset_pp_restores_full_charge() {
    let base = base_move(35);
    let mut mov = Move::default_from_base(&base);
    mov.reset_pp();
    assert_eq!(mov.current_pp(), 35);
}

#[test]
fn manager_spawns_by_position() {
    let manager = manager(3);
    assert_eq!(manager.len(), 3);
    assert_eq!(manager.get_base(2).pp(), 102);
    assert_eq!(manager.spawn(1).current_pp(), 101);
}

#[test]
fn small_pool_is_taken_whole_in_order() {
    let manager = manager(7);
    let learnset = vec![(1, vec![0, 1]), (5, vec![2]), (10, vec![3, 4, 5]), (50, vec![6])];
    let dist = MoveDistribution::new(&manager, &learnset, 5);
    let mut rng = rand::rng();
    let moves = dist.sample(&mut rng);
    assert_eq!(pps(&moves), vec![Some(100), Some(101), Some(102), None]);
}

#[test]
fn empty_pool_gives_no_moves() {
    let manager = manager(2);
    let learnset = vec![(10, vec![0, 1])];
    let dist = MoveDistribution::new(&manager, &learnset, 5);
    let mut rng = rand::rng();
    assert_eq!(pps(&dist.sample(&mut rng)), vec![None, None, None, None]);
}

#[test]
fn large_pool_gives_four_distinct_eligible_moves() {
    let manager = manager(7);
    let learnset = vec![(1, vec![0, 1]), (5, vec![2]), (10, vec![3, 4, 5]), (50, vec![6])];
    let dist = MoveDistribution::new(&manager, &learnset, 10);
    let mut rng = rand::rng();
    for _ in 0..100 {
        let moves = dist.sample(&mut rng);
        let mut chosen: Vec<u32> = moves.iter().map(|m| m.unwrap().current_pp()).collect();
        assert!(chosen.iter().all(|pp| (100..=105).contains(pp)));
        chosen.sort();
        chosen.dedup();
        assert_eq!(chosen.len(), 4);
    }
}

#[test]
fn pool_keeps_only_the_last_eight_moves() {
    let manager = manager(10);
    let learnset = vec![(1, (0..10).collect::<Vec<usize>>())];
    let dist = MoveDistribution::new(&manager, &learnset, 1);
    let mut rng = rand::rng();
    let mut seen = std::collections::HashSet::new();
    for _ in 0..300 {
        for m in dist.sample(&mut rng) {
            let pp = m.unwrap().current_pp();
            assert!(pp >= 102);
            seen.insert(pp);
        }
    }
    assert_eq!(seen.len(), 8);
}

#[test]
fn place_move_into_empty_list() {
    let base = base_move(20);
    let placed = place_move(None, Move::default_from_base(&base), 2).unwrap();
    assert_eq!(pps(&placed), vec![None, None, Some(20), None]);
}

#[test]
fn place_move_replaces_slot() {
    let a = base_move(10);
    let b = base_move(20);
    let list: MoveList = [Some(Move::default_from_base(&a)); 4];
    let placed = place_move(Some(list), Move::default_from_base(&b), 0).unwrap();
    assert_eq!(pps(&placed), vec![Some(20), Some(10), Some(10), Some(10)]);
}

#[test]
fn place_move_out_of_range_changes_nothing() {
    let base = base_move(20);
    assert!(place_move(None, Move::default_from_base(&base), 4).is_none());
    let list: MoveList = [None; 4];
    let kept = place_move(Some(list), Move::default_from_base(&base), 9).unwrap();
    assert_eq!(pps(&kept), vec![None, None, None, None]);
}

#[test]
fn pool_weights_grow_with_position() {
    assert_eq!(pool_weights(0), Vec::<u32>::new());
    assert_eq!(pool_weights(5), vec![1, 2, 3, 4, 5]);
    assert_eq!(pool_weights(8), vec![1, 2, 3, 4, 5, 6, 7, 8]);
}

#[test]
fn take_drawn_move_removes_the_chosen_position() {
    let manager = manager(6);
    let learnset = vec![(1, vec![0, 1, 2, 3, 4, 5])];
    let dist = MoveDistribution::new(&manager, &learnset, 1);
    let mut pool = vec![5, 1, 4, 0, 2];
    let mut weights = pool_weights(pool.len());
    let mov = dist.take_drawn_move(&mut pool, &mut weights, 2);
    assert_eq!(mov.current_pp(), 104);
    assert_eq!(pool, vec![5, 1, 0, 2]);
    assert_eq!(weights, vec![1, 2, 4, 5]);
    let last = dist.take_drawn_move(&mut pool, &mut weights, 3);
    assert_eq!(last.current_pp(), 102);
    assert_eq!(pool, vec![5, 1, 0]);
    assert_eq!(weights, vec![1, 2, 4]);
}
