use iterated_prisoners_dilemma::{calculate_payoffs, Move, PUNISHMENT, REWARD, SUCKER, TEMPTATION};

#[test]
fn payoff_matrix_entries() {
    assert_eq!(calculate_payoffs(Move::Cooperate, Move::Cooperate), (3, 3));
    assert_eq!(calculate_payoffs(Move::Cooperate, Move::Defect), (0, 5));
    assert_eq!(calculate_payoffs(Move::Defect, Move::Cooperate), (5, 0));
    assert_eq!(calculate_payoffs(Move::Defect, Move::Defect), (1, 1));
}

#[test]
fn payoff_constants_form_a_dilemma() {
    assert_eq!((REWARD, TEMPTATION, SUCKER, PUNISHMENT), (3, 5, 0, 1));
    assert!(TEMPTATION > REWARD && REWARD > PUNISHMENT && PUNISHMENT > SUCKER);
    assert!(2 * REWARD > TEMPTATION + SUCKER);
}

#[test]
fn payoff_is_symmetric_under_swap() {
    for a in [Move::Cooperate, Move::Defect] {
        for b in [Move::Cooperate, Move::Defect] {
            let (x, y) = calculate_payoffs(a, b);
            assert_eq!(calculate_payoffs(b, a), (y, x));
        }
    }
}

#[test]
fn move_has_exactly_one_opposite() {
    assert_eq!(Move::Cooperate.opposite(), Move::Defect);
    assert_eq!(Move::Defect.opposite(), Move::Cooperate);
    assert_eq!(Move::Cooperate.opposite().opposite(), Move::Cooperate);
}
