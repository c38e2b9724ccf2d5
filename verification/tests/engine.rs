use iterated_prisoners_dilemma::engine::{determine_winner, play_round, round_winner, run, RoundResult, Winner};
use iterated_prisoners_dilemma::error::SimulationError;
use iterated_prisoners_dilemma::params::ParamValue;
use iterated_prisoners_dilemma::strategies::always_cooperate::AlwaysCooperateStrategy;
use iterated_prisoners_dilemma::strategies::always_defect::AlwaysDefectStrategy;
use iterated_prisoners_dilemma::strategies::grim_trigger::GrimTriggerStrategy;
use iterated_prisoners_dilemma::strategies::random::RandomStrategy;
use iterated_prisoners_dilemma::strategies::tit_for_tat::TitForTatStrategy;
use iterated_prisoners_dilemma::strategies::{create_strategy_by_name, AnyStrategy};
use iterated_prisoners_dilemma::{calculate_payoffs, Move, Strategy};

const C: Move = Move::Cooperate;
const D: Move = Move::Defect;

/// Checks at every call that it is shown the rounds before this one and
/// nothing more, and plays a fixed script.
struct Watcher {
    calls: usize,
    script: Vec<Move>,
    own_seen: Vec<Vec<Move>>,
    opponent_seen: Vec<Vec<Move>>,
}

impl Watcher {
    fn new(script: Vec<Move>) -> Self {
        Watcher { calls: 0, script, own_seen: Vec::new(), opponent_seen: Vec::new() }
    }
}

impl Strategy for Watcher {
    fn next_move(&mut self, own_history: &[Move], opponent_history: &[Move]) -> Move {
        assert_eq!(own_history.len(), self.calls);
        assert_eq!(opponent_history.len(), self.calls);
        self.own_seen.push(own_history.to_vec());
        self.opponent_seen.push(opponent_history.to_vec());
        let chosen = self.script[self.calls % self.script.len()];
        self.calls += 1;
        chosen
    }

    fn set_parameters(&mut self, _params: &ParamValue) -> Result<(), String> {
        Ok(())
    }

    fn describe(&self) -> String {
        "Watcher".to_string()
    }
}

#[test]
fn run_rejects_zero_rounds() {
    let mut a = Watcher::new(vec![C]);
    let mut b = Watcher::new(vec![D]);
    let outcome = run(&mut a, &mut b, 0);
    assert!(matches!(outcome, Err(SimulationError::InvalidRoundCount)));
    // no strategy was asked
    assert_eq!(a.calls, 0);
    assert_eq!(b.calls, 0);
}

#[test]
fn run_histories_have_one_move_per_round() {
    for rounds in [1u32, 2, 3, 10, 250] {
        let mut a = TitForTatStrategy;
        let mut b = RandomStrategy;
        let done = run(&mut a, &mut b, rounds).unwrap();
        assert_eq!(done.history1.len(), rounds as usize);
        assert_eq!(done.history2.len(), rounds as usize);
        assert_eq!(done.rounds.len(), rounds as usize);
    }
}

#[test]
fn run_never_shows_a_strategy_the_current_round() {
    let mut a = Watcher::new(vec![C, D, D]);
    let mut b = Watcher::new(vec![D, C]);
    let done = run(&mut a, &mut b, 7).unwrap();
    assert_eq!(a.calls, 7);
    assert_eq!(b.calls, 7);
    for k in 0..7 {
        // each side saw exactly the rounds before k, its own history first
        assert_eq!(a.own_seen[k], done.history1[..k].to_vec());
        assert_eq!(a.opponent_seen[k], done.history2[..k].to_vec());
        assert_eq!(b.own_seen[k], done.history2[..k].to_vec());
        assert_eq!(b.opponent_seen[k], done.history1[..k].to_vec());
    }
    assert_eq!(done.history1, vec![C, D, D, C, D, D, C]);
    assert_eq!(done.history2, vec![D, C, D, C, D, C, D]);
}

#[test]
fn scenario_tit_for_tat_against_always_defect() {
    let mut a = TitForTatStrategy;
    let mut b = AlwaysDefectStrategy;
    let done = run(&mut a, &mut b, 3).unwrap();
    assert_eq!(
        done.rounds,
        vec![
            RoundResult { iteration: 1, move1: C, move2: D, payoff1: 0, payoff2: 5 },
            RoundResult { iteration: 2, move1: D, move2: D, payoff1: 1, payoff2: 1 },
            RoundResult { iteration: 3, move1: D, move2: D, payoff1: 1, payoff2: 1 },
        ]
    );
    assert_eq!((done.total1, done.total2), (2, 7));
    assert_eq!(done.history1, vec![C, D, D]);
    assert_eq!(done.history2, vec![D, D, D]);
}

#[test]
fn scenario_always_cooperate_against_itself() {
    let mut a = AlwaysCooperateStrategy;
    let mut b = AlwaysCooperateStrategy;
    let done = run(&mut a, &mut b, 5).unwrap();
    assert_eq!(done.rounds.len(), 5);
    for (k, round) in done.rounds.iter().enumerate() {
        assert_eq!(
            *round,
            RoundResult { iteration: k as u32 + 1, move1: C, move2: C, payoff1: 3, payoff2: 3 }
        );
    }
    assert_eq!((done.total1, done.total2), (15, 15));
}

#[test]
fn run_totals_are_the_sums_of_the_round_payoffs() {
    let mut a = Watcher::new(vec![C, C, D, D, C]);
    let mut b = Watcher::new(vec![C, D, C, D]);
    let done = run(&mut a, &mut b, 40).unwrap();
    let mut sum1: i64 = 0;
    let mut sum2: i64 = 0;
    for (k, round) in done.rounds.iter().enumerate() {
        assert_eq!(round.iteration as usize, k + 1);
        assert_eq!(round.move1, done.history1[k]);
        assert_eq!(round.move2, done.history2[k]);
        assert_eq!((round.payoff1, round.payoff2), calculate_payoffs(round.move1, round.move2));
        sum1 += round.payoff1 as i64;
        sum2 += round.payoff2 as i64;
    }
    assert_eq!((done.total1, done.total2), (sum1, sum2));
}

#[test]
fn run_leaves_state_in_the_strategies() {
    let mut grim = GrimTriggerStrategy::new();
    let mut defector = AlwaysDefectStrategy;
    let done = run(&mut grim, &mut defector, 2).unwrap();
    assert_eq!(done.history1, vec![C, D]);
    // the same instance stays triggered in a later match
    let mut friend = AlwaysCooperateStrategy;
    let later = run(&mut grim, &mut friend, 3).unwrap();
    assert_eq!(later.history1, vec![D, D, D]);
}

#[test]
fn run_plays_resolved_strategies() {
    let mut a: AnyStrategy = create_strategy_by_name("Tit for Tat").unwrap();
    let mut b: AnyStrategy = create_strategy_by_name("Suspicious Tit for Tat").unwrap();
    let done = run(&mut a, &mut b, 4).unwrap();
    assert_eq!(done.history1, vec![C, D, C, D]);
    assert_eq!(done.history2, vec![D, C, D, C]);
    assert_eq!((done.total1, done.total2), (10, 10));
}

#[test]
fn play_round_appends_after_both_decided() {
    let mut a = Watcher::new(vec![D]);
    let mut b = TitForTatStrategy;
    let mut h1 = vec![C, C];
    let mut h2 = vec![C, D];
    a.calls = 2;
    let result = play_round(&mut a, &mut b, &mut h1, &mut h2);
    assert_eq!(result, RoundResult { iteration: 3, move1: D, move2: C, payoff1: 5, payoff2: 0 });
    assert_eq!(h1, vec![C, C, D]);
    assert_eq!(h2, vec![C, D, C]);
    assert_eq!(a.opponent_seen[0], vec![C, D]);
}

#[test]
fn round_winner_by_payoff() {
    assert_eq!(round_winner(5, 0), Winner::First);
    assert_eq!(round_winner(0, 5), Winner::Second);
    assert_eq!(round_winner(3, 3), Winner::Tie);
    assert_eq!(round_winner(1, 1), Winner::Tie);
}

#[test]
fn determine_winner_names_the_strategy() {
    let a = TitForTatStrategy;
    let b = AlwaysDefectStrategy;
    assert_eq!(determine_winner(5, 0, &a, &b), "Tit for Tat");
    assert_eq!(determine_winner(0, 5, &a, &b), "Always Defect");
    assert_eq!(determine_winner(1, 1, &a, &b), "Tie");
}
