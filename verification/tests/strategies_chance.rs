use iterated_prisoners_dilemma::params::ParamValue;
use iterated_prisoners_dilemma::strategies::configurable_generous_tit_for_tat::ConfigurableGenerousTitForTatStrategy;
use iterated_prisoners_dilemma::strategies::custom_random::CustomRandomStrategy;
use iterated_prisoners_dilemma::strategies::generous_tit_for_tat::GenerousTitForTatStrategy;
use iterated_prisoners_dilemma::strategies::imperfect_tit_for_tat::ImperfectTitForTatStrategy;
use iterated_prisoners_dilemma::strategies::probability_cooperator::ProbabilityCooperatorStrategy;
use iterated_prisoners_dilemma::strategies::random::RandomStrategy;
use iterated_prisoners_dilemma::strategies::stochastic_tit_for_tat::StochasticTitForTatStrategy;
use iterated_prisoners_dilemma::{Move, Strategy};

const C: Move = Move::Cooperate;
const D: Move = Move::Defect;

fn probability(key: &str, numerator: i64, denominator: u32) -> ParamValue {
    ParamValue::Record(vec![(key.to_string(), ParamValue::Fraction { numerator, denominator })])
}

fn whole(key: &str, n: u64) -> ParamValue {
    ParamValue::Record(vec![(key.to_string(), ParamValue::Unsigned(n))])
}

fn complaint(key: &str) -> Result<(), String> {
    Err(format!("Invalid parameters. Expected '{}' as a number between 0 and 1", key))
}

#[test]
fn random_plays_both_moves() {
    let mut s = RandomStrategy;
    let moves: Vec<Move> = (0..400).map(|_| s.next_move(&[], &[])).collect();
    assert!(moves.contains(&C));
    assert!(moves.contains(&D));
    assert_eq!(s.describe(), "Random");
    assert_eq!(s.set_parameters(&ParamValue::Null), Ok(()));
}

#[test]
fn custom_random_with_certain_outcomes() {
    let mut s = CustomRandomStrategy::new();
    assert_eq!(s.describe(), "Custom Random (cooperate_probability: 1/2)");
    assert_eq!(s.set_parameters(&whole("cooperate_probability", 1)), Ok(()));
    assert_eq!(s.describe(), "Custom Random (cooperate_probability: 1/1)");
    for _ in 0..200 {
        assert_eq!(s.next_move(&[D], &[D]), C);
    }
    assert_eq!(s.set_parameters(&probability("cooperate_probability", 0, 7)), Ok(()));
    assert_eq!(s.describe(), "Custom Random (cooperate_probability: 0/7)");
    for _ in 0..200 {
        assert_eq!(s.next_move(&[C], &[C]), D);
    }
}

#[test]
fn custom_random_with_an_even_chance_plays_both_moves() {
    let mut s = CustomRandomStrategy::new();
    let moves: Vec<Move> = (0..400).map(|_| s.next_move(&[], &[])).collect();
    assert!(moves.contains(&C));
    assert!(moves.contains(&D));
}

#[test]
fn custom_random_rejects_what_is_no_probability() {
    let mut s = CustomRandomStrategy::new();
    let key = "cooperate_probability";
    assert_eq!(s.set_parameters(&ParamValue::Record(vec![])), complaint(key));
    assert_eq!(s.set_parameters(&probability(key, 11, 10)), complaint(key));
    assert_eq!(s.set_parameters(&probability(key, -1, 10)), complaint(key));
    assert_eq!(s.set_parameters(&probability(key, 0, 0)), complaint(key));
    assert_eq!(s.set_parameters(&whole(key, 2)), complaint(key));
    assert_eq!(s.set_parameters(&probability("cooperation_probability", 1, 2)), complaint(key));
    assert_eq!(
        s.set_parameters(&ParamValue::Record(vec![(key.to_string(), ParamValue::Text("1/2".to_string()))])),
        complaint(key)
    );
    assert_eq!(s.describe(), "Custom Random (cooperate_probability: 1/2)");
}

#[test]
fn probability_cooperator_with_certain_outcomes() {
    let mut s = ProbabilityCooperatorStrategy::new();
    assert_eq!(s.describe(), "Probability Cooperator (cooperate_probability: 1/2)");
    assert_eq!(s.set_parameters(&probability("cooperate_probability", 3, 3)), Ok(()));
    for _ in 0..200 {
        assert_eq!(s.next_move(&[], &[]), C);
    }
    assert_eq!(s.set_parameters(&whole("cooperate_probability", 0)), Ok(()));
    for _ in 0..200 {
        assert_eq!(s.next_move(&[], &[]), D);
    }
    assert_eq!(s.set_parameters(&probability("cooperate_probability", 4, 3)), complaint("cooperate_probability"));
    assert_eq!(s.describe(), "Probability Cooperator (cooperate_probability: 0/1)");
}

#[test]
fn generous_tit_for_tat_cooperates_unless_provoked() {
    let mut s = GenerousTitForTatStrategy;
    assert_eq!(s.describe(), "Generous Tit for Tat (probability: 0.333)");
    for _ in 0..50 {
        assert_eq!(s.next_move(&[], &[]), C);
        assert_eq!(s.next_move(&[C], &[C]), C);
        assert_eq!(s.next_move(&[C, D], &[D, C]), C);
    }
    // after a defection it forgives sometimes, but not always
    let moves: Vec<Move> = (0..600).map(|_| s.next_move(&[C], &[D])).collect();
    assert!(moves.contains(&C));
    assert!(moves.contains(&D));
}

#[test]
fn configurable_generous_tit_for_tat() {
    let mut s = ConfigurableGenerousTitForTatStrategy::new();
    assert_eq!(s.describe(), "Configurable Generous Tit for Tat (cooperation_probability: 1/10)");
    assert_eq!((s.cooperation_probability.numerator(), s.cooperation_probability.denominator()), (1, 10));
    for _ in 0..50 {
        assert_eq!(s.next_move(&[], &[]), C);
        assert_eq!(s.next_move(&[D], &[C]), C);
    }
    assert_eq!(s.set_parameters(&whole("cooperation_probability", 0)), Ok(()));
    for _ in 0..200 {
        assert_eq!(s.next_move(&[C], &[D]), D);
        assert_eq!(s.next_move(&[C, D], &[D, C]), C);
    }
    assert_eq!(s.set_parameters(&probability("cooperation_probability", 5, 5)), Ok(()));
    for _ in 0..200 {
        assert_eq!(s.next_move(&[C], &[D]), C);
    }
    assert_eq!(s.set_parameters(&probability("cooperation_probability", 6, 5)), complaint("cooperation_probability"));
    assert_eq!(s.set_parameters(&ParamValue::Null), complaint("cooperation_probability"));
    assert_eq!(s.describe(), "Configurable Generous Tit for Tat (cooperation_probability: 5/5)");
}

#[test]
fn imperfect_tit_for_tat() {
    let mut s = ImperfectTitForTatStrategy::new();
    assert_eq!(s.describe(), "Imperfect Tit For Tat");
    for _ in 0..50 {
        assert_eq!(s.next_move(&[], &[]), C);
    }
    assert_eq!(s.set_parameters(&whole("imitate_probability", 1)), Ok(()));
    for _ in 0..200 {
        assert_eq!(s.next_move(&[C], &[D]), D);
        assert_eq!(s.next_move(&[D], &[C]), C);
    }
    assert_eq!(s.set_parameters(&whole("imitate_probability", 0)), Ok(()));
    for _ in 0..200 {
        assert_eq!(s.next_move(&[C], &[D]), C);
        assert_eq!(s.next_move(&[D], &[C]), D);
        assert_eq!(s.next_move(&[], &[]), C);
    }
    assert_eq!(s.set_parameters(&probability("imitate_probability", -3, 4)), complaint("imitate_probability"));
    assert_eq!(s.set_parameters(&ParamValue::Record(vec![])), complaint("imitate_probability"));
}

#[test]
fn imperfect_tit_for_tat_errs_now_and_then() {
    let mut s = ImperfectTitForTatStrategy::new();
    assert_eq!(s.set_parameters(&probability("imitate_probability", 1, 2)), Ok(()));
    let moves: Vec<Move> = (0..400).map(|_| s.next_move(&[C], &[D])).collect();
    assert!(moves.contains(&C));
    assert!(moves.contains(&D));
}

#[test]
fn stochastic_tit_for_tat() {
    let mut s = StochasticTitForTatStrategy::new();
    assert_eq!(s.describe(), "Stochastic Tit for Tat (defection_chance: 1/10)");
    for _ in 0..50 {
        assert_eq!(s.next_move(&[], &[]), C);
        // a defection is repeated whatever the draw
        assert_eq!(s.next_move(&[C], &[D]), D);
    }
    assert_eq!(s.set_parameters(&whole("defection_chance", 0)), Ok(()));
    for _ in 0..200 {
        assert_eq!(s.next_move(&[C], &[C]), C);
        assert_eq!(s.next_move(&[C], &[D]), D);
    }
    assert_eq!(s.set_parameters(&whole("defection_chance", 1)), Ok(()));
    for _ in 0..200 {
        assert_eq!(s.next_move(&[C], &[C]), D);
        assert_eq!(s.next_move(&[], &[]), C);
    }
    assert_eq!(s.set_parameters(&probability("defection_chance", 2, 1)), complaint("defection_chance"));
    assert_eq!(s.describe(), "Stochastic Tit for Tat (defection_chance: 1/1)");
}
