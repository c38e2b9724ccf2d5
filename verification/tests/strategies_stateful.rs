use iterated_prisoners_dilemma::params::ParamValue;
use iterated_prisoners_dilemma::strategies::cycler::CyclerStrategy;
use iterated_prisoners_dilemma::strategies::forgiving::ForgivingStrategy;
use iterated_prisoners_dilemma::strategies::gradual::GradualStrategy;
use iterated_prisoners_dilemma::strategies::gradual_tit_for_tat::GradualTitForTatStrategy;
use iterated_prisoners_dilemma::strategies::grim_trigger::GrimTriggerStrategy;
use iterated_prisoners_dilemma::strategies::omega_tit_for_tat::OmegaTitForTatStrategy;
use iterated_prisoners_dilemma::strategies::tester::TesterStrategy;
use iterated_prisoners_dilemma::strategies::tit_for_tat::TitForTatStrategy;
use iterated_prisoners_dilemma::strategies::two_tit_for_tats::TwoTitsForTatsStrategy;
use iterated_prisoners_dilemma::{Move, Strategy};

const C: Move = Move::Cooperate;
const D: Move = Move::Defect;

fn record(entries: Vec<(&str, ParamValue)>) -> ParamValue {
    ParamValue::Record(entries.into_iter().map(|(k, v)| (k.to_string(), v)).collect())
}

/// Feeds the opponent's moves one round at a time and collects the answers;
/// the own history is what the strategy has answered so far.
fn answers<S: Strategy>(strategy: &mut S, opponent: &[Move]) -> Vec<Move> {
    let mut own: Vec<Move> = Vec::new();
    for k in 0..=opponent.len() {
        let chosen = strategy.next_move(&own, &opponent[..k]);
        own.push(chosen);
    }
    own
}

#[test]
fn scenario_grim_trigger_never_forgives() {
    let mut grim = GrimTriggerStrategy::new();
    let mut tit_for_tat = TitForTatStrategy;
    // both open with a cooperation
    assert_eq!(grim.next_move(&[], &[]), C);
    assert_eq!(tit_for_tat.next_move(&[], &[]), C);
    assert_eq!(grim.next_move(&[C], &[C]), C);
    // tit for tat is made to defect once, then goes on by its own rule
    let mut grim_history = vec![C, C];
    let mut other_history = vec![C, C];
    assert_eq!(grim.next_move(&grim_history, &other_history), C);
    grim_history.push(C);
    other_history.push(D);
    for round in 0..20 {
        let grim_move = grim.next_move(&grim_history, &other_history);
        assert_eq!(grim_move, D, "round {}", round);
        // the opponent reverts to cooperation whatever it sees
        grim_history.push(grim_move);
        other_history.push(C);
    }
    assert_eq!(grim.describe(), "Grim Trigger");
}

#[test]
fn grim_trigger_remembers_without_the_history() {
    let mut grim = GrimTriggerStrategy::new();
    assert_eq!(grim.next_move(&[C, C], &[C, C]), C);
    assert_eq!(grim.next_move(&[C], &[D]), D);
    // even histories that show no defection cannot calm it
    assert_eq!(grim.next_move(&[], &[]), D);
    assert_eq!(grim.next_move(&[C, C], &[C, C]), D);
    assert_eq!(grim.set_parameters(&ParamValue::Null), Ok(()));
    assert_eq!(grim.next_move(&[C], &[C]), D);
}

#[test]
fn grim_trigger_sees_an_old_defection() {
    let mut grim = GrimTriggerStrategy::new();
    assert_eq!(grim.next_move(&[C, C, C, C], &[D, C, C, C]), D);
}

#[test]
fn gradual_answers_with_growing_runs() {
    let mut s = GradualStrategy::new();
    let opponent = [D, D, C, C, C, C, C];
    assert_eq!(answers(&mut s, &opponent), vec![C, C, D, C, D, D, C, D]);
    assert_eq!(s.describe(), "Gradual");
}

#[test]
fn gradual_cooperates_with_a_cooperator() {
    let mut s = GradualStrategy::new();
    assert_eq!(answers(&mut s, &[C; 6]), vec![C; 7]);
}

#[test]
fn gradual_tit_for_tat_retaliates_then_apologises() {
    let mut s = GradualTitForTatStrategy::new();
    let opponent = [D, C, C, D, C, C, C, C];
    assert_eq!(answers(&mut s, &opponent), vec![C, D, C, C, D, D, C, C, C]);
    assert_eq!(s.describe(), "Gradual Tit For Tat");
}

#[test]
fn gradual_tit_for_tat_counts_defections_during_an_apology() {
    let mut s = GradualTitForTatStrategy::new();
    // two more defections arrive while it apologises for the first answer
    let opponent = [D, D, D, C, C, C, C, C, C];
    assert_eq!(answers(&mut s, &opponent), vec![C, D, C, C, D, D, D, C, C, C]);
}

#[test]
fn tester_probes_then_decides() {
    let mut exploited = TesterStrategy::new();
    // the opponent lets the probe pass: tit for tat from the third decision on
    assert_eq!(answers(&mut exploited, &[C, C, C, D, C]), vec![D, C, C, C, D, C]);
    let mut provoked = TesterStrategy::new();
    // the opponent's second move is a defection: defect for good
    assert_eq!(answers(&mut provoked, &[C, D, C, C, C]), vec![D, C, D, D, D, D]);
    assert_eq!(provoked.describe(), "Tester");
}

#[test]
fn tester_counts_its_own_decisions() {
    let mut s = TesterStrategy::new();
    // the first two answers do not look at the histories
    assert_eq!(s.next_move(&[C, C, C], &[D, D, D]), D);
    assert_eq!(s.next_move(&[C, C, C], &[D, D, D]), C);
    assert_eq!(s.next_move(&[C], &[D]), D);
    assert_eq!(s.next_move(&[C], &[C]), C);
    assert_eq!(s.next_move(&[C, C], &[C, D]), D);
    assert_eq!(s.next_move(&[C], &[C]), D);
}

#[test]
fn two_tits_for_tat_defects_twice() {
    let mut s = TwoTitsForTatsStrategy::new();
    assert_eq!(answers(&mut s, &[C, D, C, C, D, D, C, C]), vec![C, C, D, D, C, D, D, C, C]);
    let mut s = TwoTitsForTatsStrategy::new();
    assert_eq!(answers(&mut s, &[D, D, D, D, D]), vec![C, D, D, D, D, D]);
    assert_eq!(s.describe(), "Two Tit For Tats");
}

#[test]
fn forgiving_lets_defections_pass() {
    let mut s = ForgivingStrategy::new(3);
    assert_eq!(s.describe(), "Forgiving (forgives after 3 rounds)");
    assert_eq!(answers(&mut s, &[D, D, D, D, D, D]), vec![C, D, C, C, C, D, C]);
    let mut s = ForgivingStrategy::new(3);
    assert_eq!(answers(&mut s, &[D, D, C, D, D]), vec![C, D, C, C, D, C]);
    let mut strict = ForgivingStrategy::new(0);
    assert_eq!(answers(&mut strict, &[D, D, C, D]), vec![C, D, D, C, D]);
}

#[test]
fn forgiving_configuration() {
    let mut s = ForgivingStrategy::new(3);
    let complaint = Err(
        "Invalid parameters. Expected 'forgiveness_threshold' as a positive integer between 1 and 255".to_string(),
    );
    assert_eq!(s.set_parameters(&record(vec![("forgiveness_threshold", ParamValue::Unsigned(1))])), Ok(()));
    assert_eq!(s.describe(), "Forgiving (forgives after 1 rounds)");
    assert_eq!(s.set_parameters(&record(vec![("forgiveness_threshold", ParamValue::Unsigned(255))])), Ok(()));
    assert_eq!(s.describe(), "Forgiving (forgives after 255 rounds)");
    assert_eq!(s.set_parameters(&record(vec![("forgiveness_threshold", ParamValue::Unsigned(0))])), complaint);
    assert_eq!(s.set_parameters(&record(vec![("forgiveness_threshold", ParamValue::Unsigned(256))])), complaint);
    assert_eq!(
        s.set_parameters(&record(vec![("forgiveness_threshold", ParamValue::Fraction { numerator: 3, denominator: 1 })])),
        complaint
    );
    assert_eq!(s.set_parameters(&record(vec![("threshold", ParamValue::Unsigned(4))])), complaint);
    assert_eq!(s.set_parameters(&ParamValue::Null), complaint);
    assert_eq!(s.describe(), "Forgiving (forgives after 255 rounds)");
}

#[test]
fn cycler_repeats_its_sequence() {
    let mut s = CyclerStrategy::new();
    assert_eq!(s.describe(), "CyclerStrategy");
    assert_eq!(answers(&mut s, &[D, D, D]), vec![C, C, C, C]);
    assert_eq!(s.set_parameters(&record(vec![("sequence", ParamValue::Text("CcDd".to_string()))])), Ok(()));
    assert_eq!(answers(&mut s, &[D; 8]), vec![C, C, D, D, C, C, D, D, C]);
    // a new sequence starts from its beginning
    assert_eq!(s.set_parameters(&record(vec![("sequence", ParamValue::Text("DC".to_string()))])), Ok(()));
    assert_eq!(s.next_move(&[], &[]), D);
    assert_eq!(s.next_move(&[], &[]), C);
    assert_eq!(s.next_move(&[], &[]), D);
}

#[test]
fn cycler_configuration_errors() {
    let mut s = CyclerStrategy::new();
    assert_eq!(s.set_parameters(&ParamValue::Record(vec![])), Err("Missing 'sequence' parameter".to_string()));
    assert_eq!(s.set_parameters(&ParamValue::Null), Err("Missing 'sequence' parameter".to_string()));
    assert_eq!(
        s.set_parameters(&record(vec![("sequence", ParamValue::Unsigned(3))])),
        Err("'sequence' must be a string of 'C' and 'D'".to_string())
    );
    assert_eq!(
        s.set_parameters(&record(vec![("sequence", ParamValue::Text(String::new()))])),
        Err("Sequence cannot be empty".to_string())
    );
    assert_eq!(
        s.set_parameters(&record(vec![("sequence", ParamValue::Text("CD DC".to_string()))])),
        Err("Invalid character in sequence:  ".to_string())
    );
    assert_eq!(
        s.set_parameters(&record(vec![("sequence", ParamValue::Text("DDé?".to_string()))])),
        Err("Invalid character in sequence: é".to_string())
    );
    // still the sequence it was made with
    assert_eq!(s.next_move(&[], &[]), C);
    assert_eq!(s.next_move(&[], &[]), C);
}

#[test]
fn omega_breaks_a_deadlock_then_gives_up_on_noise() {
    let mut s = OmegaTitForTatStrategy::new();
    assert_eq!(s.describe(), "Omega Tit For Tat Strategy");
    assert_eq!(s.next_move(&[], &[]), C);
    assert_eq!(s.next_move(&[C], &[D]), D);
    assert_eq!(s.next_move(&[C, D], &[D, C]), C);
    assert_eq!(s.next_move(&[C, D, C], &[D, C, D]), D);
    // the third mirrored alternation in a row: cooperate to break it
    assert_eq!(s.next_move(&[C, D, C, D], &[D, C, D, C]), C);
    // the fourth change in a row is past the randomness threshold
    assert_eq!(s.next_move(&[C, D, C, D, C], &[D, C, D, C, C]), D);
    // and from now on nothing helps
    assert_eq!(s.next_move(&[], &[]), D);
    assert_eq!(s.next_move(&[C, C, C], &[C, C, C]), D);
}

#[test]
fn omega_is_tit_for_tat_with_a_steady_opponent() {
    let mut s = OmegaTitForTatStrategy::new();
    assert_eq!(answers(&mut s, &[C, C, C, D, D, D, D, C, C]), vec![C, C, C, C, D, D, D, D, C, C]);
}

#[test]
fn omega_thresholds_can_be_configured() {
    let mut s = OmegaTitForTatStrategy::new();
    let params = record(vec![
        ("deadlock_threshold", ParamValue::Unsigned(100)),
        ("randomness_threshold", ParamValue::Unsigned(2)),
    ]);
    assert_eq!(s.set_parameters(&params), Ok(()));
    assert_eq!(s.next_move(&[C], &[D]), D);
    assert_eq!(s.next_move(&[C, D], &[D, C]), C);
    // the second change in a row
    assert_eq!(s.next_move(&[C, D, C], &[D, C, C]), D);
    assert_eq!(s.next_move(&[C, C, C, C], &[C, C, C, C]), D);

    let mut s = OmegaTitForTatStrategy::new();
    // values of another kind are passed over, and so are other keys
    let params = record(vec![
        ("deadlock_threshold", ParamValue::Text("1".to_string())),
        ("randomness_threshold", ParamValue::Fraction { numerator: 1, denominator: 2 }),
        ("other", ParamValue::Unsigned(1)),
    ]);
    assert_eq!(s.set_parameters(&params), Ok(()));
    assert_eq!(s.set_parameters(&ParamValue::Null), Ok(()));
    assert_eq!(s.next_move(&[C], &[D]), D);
    assert_eq!(s.next_move(&[C, D], &[D, C]), C);
    assert_eq!(s.next_move(&[C, D, C], &[D, C, D]), D);
    assert_eq!(s.next_move(&[C, D, C, D], &[D, C, D, C]), C);
}

#[test]
fn omega_with_a_deadlock_threshold_of_zero_always_cooperates() {
    let mut s = OmegaTitForTatStrategy::new();
    assert_eq!(s.set_parameters(&record(vec![("deadlock_threshold", ParamValue::Unsigned(0))])), Ok(()));
    assert_eq!(answers(&mut s, &[D, C, D, C, D, D, D]), vec![C; 8]);
}
