use iterated_prisoners_dilemma::params::ParamValue;
use iterated_prisoners_dilemma::strategies::adaptative_strategy::AdaptiveStrategy;
use iterated_prisoners_dilemma::strategies::always_cooperate::AlwaysCooperateStrategy;
use iterated_prisoners_dilemma::strategies::always_defect::AlwaysDefectStrategy;
use iterated_prisoners_dilemma::strategies::firm_majority::FirmMajorityStrategy;
use iterated_prisoners_dilemma::strategies::hard_tit_for_tat::HardTitForTatStrategy;
use iterated_prisoners_dilemma::strategies::majority::MajorityStrategy;
use iterated_prisoners_dilemma::strategies::reverse_tit_for_tat::ReverseTitForTatStrategy;
use iterated_prisoners_dilemma::strategies::soft_majority::SoftMajorityStrategy;
use iterated_prisoners_dilemma::strategies::suspicious_tit_for_tat::SuspiciousTitForTatStrategy;
use iterated_prisoners_dilemma::strategies::tit_for_tat::TitForTatStrategy;
use iterated_prisoners_dilemma::strategies::tit_for_two_tats::TitForTwoTatsStrategy;
use iterated_prisoners_dilemma::strategies::win_stay_lose_shift::WinStayLoseShiftStrategy;
use iterated_prisoners_dilemma::strategies::win_stay_lose_shift_axelrod::WinStayLoseShiftStrategyAxelrod;
use iterated_prisoners_dilemma::history::{count_moves, last_move, mirror};
use iterated_prisoners_dilemma::{Move, Strategy};

const C: Move = Move::Cooperate;
const D: Move = Move::Defect;

fn record(entries: Vec<(&str, ParamValue)>) -> ParamValue {
    ParamValue::Record(entries.into_iter().map(|(k, v)| (k.to_string(), v)).collect())
}

fn letters(moves: &str) -> ParamValue {
    ParamValue::List(moves.chars().map(|c| ParamValue::Text(c.to_string())).collect())
}

#[test]
fn history_helpers() {
    assert_eq!(count_moves(&[], D), 0);
    assert_eq!(count_moves(&[C, D, D, C, D], D), 3);
    assert_eq!(count_moves(&[C, D, D, C, D], C), 2);
    assert_eq!(last_move(&[]), None);
    assert_eq!(last_move(&[C, D]), Some(D));
    assert_eq!(mirror(&[], D), D);
    assert_eq!(mirror(&[D, C], D), C);
}

#[test]
fn unconditional_strategies() {
    let mut allc = AlwaysCooperateStrategy;
    let mut alld = AlwaysDefectStrategy;
    for (own, opp) in [(vec![], vec![]), (vec![C], vec![D]), (vec![D, D], vec![C, C])] {
        assert_eq!(allc.next_move(&own, &opp), C);
        assert_eq!(alld.next_move(&own, &opp), D);
    }
    assert_eq!(allc.describe(), "Always Cooperate");
    assert_eq!(alld.describe(), "Always Defect");
    assert_eq!(allc.set_parameters(&ParamValue::Null), Ok(()));
    assert_eq!(alld.set_parameters(&record(vec![("x", ParamValue::Bool(true))])), Ok(()));
}

#[test]
fn opening_moves() {
    assert_eq!(TitForTatStrategy.next_move(&[], &[]), C);
    assert_eq!(SuspiciousTitForTatStrategy.next_move(&[], &[]), D);
    assert_eq!(HardTitForTatStrategy.next_move(&[], &[]), D);
    assert_eq!(ReverseTitForTatStrategy.next_move(&[], &[]), D);
    assert_eq!(TitForTwoTatsStrategy.next_move(&[], &[]), C);
    assert_eq!(WinStayLoseShiftStrategy.next_move(&[], &[]), C);
    assert_eq!(WinStayLoseShiftStrategyAxelrod.next_move(&[], &[]), C);
    assert_eq!(SoftMajorityStrategy.next_move(&[], &[]), C);
    assert_eq!(FirmMajorityStrategy.next_move(&[], &[]), C);
    assert_eq!(MajorityStrategy::new().next_move(&[], &[]), C);
    assert_eq!(AdaptiveStrategy::new().next_move(&[], &[]), C);
}

#[test]
fn tit_for_tat_family_repeats_the_latest_move() {
    for (own, opp, expected) in [(vec![C], vec![D], D), (vec![D], vec![C], C), (vec![C, C], vec![D, C], C), (vec![C, C, C], vec![C, C, D], D)] {
        assert_eq!(TitForTatStrategy.next_move(&own, &opp), expected);
        assert_eq!(SuspiciousTitForTatStrategy.next_move(&own, &opp), expected);
        assert_eq!(HardTitForTatStrategy.next_move(&own, &opp), expected);
        assert_eq!(ReverseTitForTatStrategy.next_move(&own, &opp), expected.opposite());
    }
    assert_eq!(TitForTatStrategy.describe(), "Tit for Tat");
    assert_eq!(SuspiciousTitForTatStrategy.describe(), "Suspicious Tit for Tat");
    assert_eq!(HardTitForTatStrategy.describe(), "Hard Tit for Tat");
    assert_eq!(ReverseTitForTatStrategy.describe(), "Reverse Tit for Tat");
}

#[test]
fn tit_for_two_tats_needs_more_than_two_rounds() {
    let mut s = TitForTwoTatsStrategy;
    assert_eq!(s.next_move(&[C], &[D]), C);
    assert_eq!(s.next_move(&[C, C], &[D, D]), C);
    assert_eq!(s.next_move(&[C, C, C], &[C, D, D]), D);
    assert_eq!(s.next_move(&[C, C, C], &[D, D, D]), D);
    assert_eq!(s.next_move(&[C, C, C], &[D, D, C]), C);
    assert_eq!(s.next_move(&[C, C, C], &[D, C, D]), C);
    assert_eq!(s.describe(), "Tit for 2 Tats");
}

#[test]
fn win_stay_lose_shift_table() {
    let mut s = WinStayLoseShiftStrategy;
    assert_eq!(s.next_move(&[C], &[C]), C);
    assert_eq!(s.next_move(&[D], &[D]), D);
    assert_eq!(s.next_move(&[C], &[D]), D);
    assert_eq!(s.next_move(&[D], &[C]), C);
    assert_eq!(s.next_move(&[D, C], &[C, C]), C);
    assert_eq!(s.describe(), "Win-Stay, Lose-Shift (Pavlov)");
}

#[test]
fn win_stay_lose_shift_axelrod_table() {
    let mut s = WinStayLoseShiftStrategyAxelrod;
    assert_eq!(s.next_move(&[C], &[C]), C);
    assert_eq!(s.next_move(&[D], &[C]), D);
    assert_eq!(s.next_move(&[C], &[D]), D);
    assert_eq!(s.next_move(&[D], &[D]), C);
    assert_eq!(s.next_move(&[C, D], &[C, D]), C);
    assert_eq!(s.describe(), "Win-Stay, Lose-Shift (Pavlov). Axelrod's original version");
}

#[test]
fn soft_majority_wants_more_than_half() {
    let mut s = SoftMajorityStrategy;
    assert_eq!(s.next_move(&[C], &[C]), C);
    assert_eq!(s.next_move(&[C], &[D]), D);
    assert_eq!(s.next_move(&[C, C], &[C, D]), D);
    assert_eq!(s.next_move(&[C, C, C], &[C, D, C]), C);
    assert_eq!(s.next_move(&[C, C, C, C], &[C, D, C, D]), D);
    assert_eq!(s.describe(), "Soft Majority");
}

#[test]
fn firm_majority_wants_more_than_three_quarters() {
    let mut s = FirmMajorityStrategy;
    assert_eq!(s.next_move(&[C], &[C]), C);
    assert_eq!(s.next_move(&[C; 4], &[C, C, C, D]), D);
    assert_eq!(s.next_move(&[C; 5], &[C, C, C, C, D]), C);
    assert_eq!(s.next_move(&[C; 3], &[C, C, D]), D);
    assert_eq!(s.describe(), "Firm Majority");
}

#[test]
fn majority_with_its_default_threshold() {
    let mut s = MajorityStrategy::new();
    assert_eq!(s.describe(), "Majority (cooperation_threshold: 1/4)");
    assert_eq!(s.next_move(&[C; 4], &[C, D, D, D]), D);
    assert_eq!(s.next_move(&[C; 3], &[C, D, D]), C);
    assert_eq!(s.next_move(&[C; 2], &[D, D]), D);
    assert_eq!(s.next_move(&[C; 5], &[D, D, D, D, C]), D);
}

#[test]
fn majority_with_a_configured_threshold() {
    let mut s = MajorityStrategy::new();
    let half = record(vec![("cooperation_threshold", ParamValue::Fraction { numerator: 1, denominator: 2 })]);
    assert_eq!(s.set_parameters(&half), Ok(()));
    assert_eq!(s.describe(), "Majority (cooperation_threshold: 1/2)");
    for opp in [vec![C, D], vec![C, D, C], vec![D], vec![C, C, D, D, D]] {
        let own = vec![C; opp.len()];
        assert_eq!(s.next_move(&own, &opp), SoftMajorityStrategy.next_move(&own, &opp));
    }
    let three_quarters = record(vec![("cooperation_threshold", ParamValue::Fraction { numerator: 3, denominator: 4 })]);
    assert_eq!(s.set_parameters(&three_quarters), Ok(()));
    for opp in [vec![C, C, C, D], vec![C, C, C, C, D], vec![D]] {
        let own = vec![C; opp.len()];
        assert_eq!(s.next_move(&own, &opp), FirmMajorityStrategy.next_move(&own, &opp));
    }
    // a threshold of one is never exceeded, one of zero by any cooperation
    assert_eq!(s.set_parameters(&record(vec![("cooperation_threshold", ParamValue::Unsigned(1))])), Ok(()));
    assert_eq!(s.next_move(&[C, C], &[C, C]), D);
    assert_eq!(s.set_parameters(&record(vec![("cooperation_threshold", ParamValue::Unsigned(0))])), Ok(()));
    assert_eq!(s.next_move(&[C, C], &[D, C]), C);
    assert_eq!(s.next_move(&[C, C], &[D, D]), D);
}

#[test]
fn majority_rejects_what_is_no_share() {
    let mut s = MajorityStrategy::new();
    let complaint = Err("Invalid parameters. Expected 'cooperation_threshold' as a number between 0 and 1".to_string());
    assert_eq!(s.set_parameters(&ParamValue::Record(vec![])), complaint);
    assert_eq!(s.set_parameters(&record(vec![("cooperation_threshold", ParamValue::Unsigned(2))])), complaint);
    assert_eq!(
        s.set_parameters(&record(vec![("cooperation_threshold", ParamValue::Fraction { numerator: -1, denominator: 4 })])),
        complaint
    );
    assert_eq!(s.set_parameters(&record(vec![("cooperation_threshold", ParamValue::Text("0.5".to_string()))])), complaint);
    assert_eq!(s.describe(), "Majority (cooperation_threshold: 1/4)");
}

#[test]
fn adaptive_plays_the_better_paid_move() {
    let mut s = AdaptiveStrategy::new();
    assert_eq!(s.describe(), "Adaptive Strategy");
    // cooperation has earned 0, defection nothing yet: a tie at zero
    assert_eq!(s.next_move(&[C], &[D]), C);
    // cooperation 0 on average, defection 1
    assert_eq!(s.next_move(&[C, D], &[D, D]), D);
    // cooperation 3, defection 1
    assert_eq!(s.next_move(&[C, D], &[C, D]), C);
    // only defection so far, and it has paid
    assert_eq!(s.next_move(&[D], &[C]), D);
    // cooperation 3/2, defection 1
    assert_eq!(s.next_move(&[C, C, D], &[C, D, D]), C);
    // both average exactly 1: cooperation wins the tie
    assert_eq!(s.next_move(&[C, C, C, D], &[C, D, D, D]), C);
    // cooperation 3/2 against defection 7/3
    assert_eq!(s.next_move(&[C, C, D, D, D], &[C, D, C, D, D]), D);
    // cooperation 3 against defection 1
    assert_eq!(s.next_move(&[C, C, D, D, D], &[C, C, D, D, D]), C);
    // cooperation 3/2 against defection 1
    assert_eq!(s.next_move(&[C, C, D, D, D, D], &[C, D, D, D, D, D]), C);
    assert_eq!(s.next_move(&[C, C, D, D, D], &[C, D, C, D, D]), D);
}

#[test]
fn adaptive_opens_with_its_sequence() {
    let mut s = AdaptiveStrategy::new();
    assert_eq!(s.set_parameters(&record(vec![("initial_sequence", letters("DDC"))])), Ok(()));
    assert_eq!(s.next_move(&[], &[]), D);
    assert_eq!(s.next_move(&[D], &[C]), D);
    assert_eq!(s.next_move(&[D, D], &[C, C]), C);
    // after the opening: defection 5 on average, cooperation 3
    assert_eq!(s.next_move(&[D, D, C], &[C, C, C]), D);
}

#[test]
fn adaptive_configuration() {
    let mut s = AdaptiveStrategy::new();
    // nothing to apply is no failure
    assert_eq!(s.set_parameters(&ParamValue::Record(vec![])), Ok(()));
    assert_eq!(s.set_parameters(&record(vec![("initial_sequence", ParamValue::Text("CD".to_string()))])), Ok(()));
    assert_eq!(s.set_parameters(&ParamValue::Null), Ok(()));
    assert_eq!(s.next_move(&[], &[]), C);
    assert_eq!(
        s.set_parameters(&record(vec![("initial_sequence", letters("DxD"))])),
        Err("Invalid move in initial_sequence (must be 'C' or 'D')".to_string())
    );
    assert_eq!(
        s.set_parameters(&record(vec![("initial_sequence", ParamValue::List(vec![ParamValue::Unsigned(1)]))])),
        Err("Invalid move in initial_sequence (must be 'C' or 'D')".to_string())
    );
    // the rejected sequences left no trace
    assert_eq!(s.next_move(&[], &[]), C);
    assert_eq!(s.set_parameters(&record(vec![("initial_sequence", letters("D"))])), Ok(()));
    assert_eq!(s.next_move(&[], &[]), D);
    assert_eq!(s.set_parameters(&record(vec![("initial_sequence", letters(""))])), Ok(()));
    assert_eq!(s.next_move(&[], &[]), C);
}
