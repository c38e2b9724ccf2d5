//! One type for every strategy of the library, so that a strategy can be
//! chosen while the program runs.

use vstd::prelude::*;
use crate::chance::UnitRatio;
use crate::params::ParamValue;
use crate::payoff::Move;
use crate::strategy::Strategy;
use crate::strategies::adaptative_strategy::AdaptiveStrategy;
use crate::strategies::always_cooperate::AlwaysCooperateStrategy;
use crate::strategies::always_defect::AlwaysDefectStrategy;
use crate::strategies::configurable_generous_tit_for_tat::ConfigurableGenerousTitForTatStrategy;
use crate::strategies::custom_random::CustomRandomStrategy;
use crate::strategies::cycler::CyclerStrategy;
use crate::strategies::firm_majority::FirmMajorityStrategy;
use crate::strategies::forgiving::ForgivingStrategy;
use crate::strategies::generous_tit_for_tat::GenerousTitForTatStrategy;
use crate::strategies::gradual::GradualStrategy;
use crate::strategies::gradual_tit_for_tat::GradualTitForTatStrategy;
use crate::strategies::grim_trigger::GrimTriggerStrategy;
use crate::strategies::hard_tit_for_tat::HardTitForTatStrategy;
use crate::strategies::imperfect_tit_for_tat::ImperfectTitForTatStrategy;
use crate::strategies::looker_up::{LookerUpStrategy, RuleView};
use crate::strategies::majority::MajorityStrategy;
use crate::strategies::omega_tit_for_tat::OmegaTitForTatStrategy;
use crate::strategies::probability_cooperator::ProbabilityCooperatorStrategy;
use crate::strategies::random::RandomStrategy;
use crate::strategies::reverse_tit_for_tat::ReverseTitForTatStrategy;
use crate::strategies::soft_majority::SoftMajorityStrategy;
use crate::strategies::stochastic_tit_for_tat::StochasticTitForTatStrategy;
use crate::strategies::suspicious_tit_for_tat::SuspiciousTitForTatStrategy;
use crate::strategies::tester::TesterStrategy;
use crate::strategies::tit_for_tat::TitForTatStrategy;
use crate::strategies::tit_for_two_tats::TitForTwoTatsStrategy;
use crate::strategies::two_tit_for_tats::TwoTitsForTatsStrategy;
use crate::strategies::win_stay_lose_shift::WinStayLoseShiftStrategy;
use crate::strategies::win_stay_lose_shift_axelrod::WinStayLoseShiftStrategyAxelrod;

verus! {

/// Names a strategy of the library, and builds fresh instances of it.
#[derive(Clone, Copy, PartialEq, Eq, Structural, Debug, Hash)]
pub enum StrategyConstructor {
    Adaptive,
    AlwaysCooperate,
    AlwaysDefect,
    ConfigurableGenerousTitForTat,
    CustomRandom,
    Cycler,
    FirmMajority,
    Forgiving,
    GenerousTitForTat,
    Gradual,
    GradualTitForTat,
    GrimTrigger,
    HardTitForTat,
    ImperfectTitForTat,
    LookerUp,
    Majority,
    OmegaTitForTat,
    ProbabilityCooperator,
    Random,
    ReverseTitForTat,
    SoftMajority,
    StochasticTitForTat,
    SuspiciousTitForTat,
    Tester,
    TitForTat,
    TitForTwoTats,
    TwoTitsForTats,
    WinStayLoseShift,
    WinStayLoseShiftAxelrod,
}

/// An instance of any strategy of the library.
#[derive(Debug)]
pub enum AnyStrategy {
    Adaptive(AdaptiveStrategy),
    AlwaysCooperate(AlwaysCooperateStrategy),
    AlwaysDefect(AlwaysDefectStrategy),
    ConfigurableGenerousTitForTat(ConfigurableGenerousTitForTatStrategy),
    CustomRandom(CustomRandomStrategy),
    Cycler(CyclerStrategy),
    FirmMajority(FirmMajorityStrategy),
    Forgiving(ForgivingStrategy),
    GenerousTitForTat(GenerousTitForTatStrategy),
    Gradual(GradualStrategy),
    GradualTitForTat(GradualTitForTatStrategy),
    GrimTrigger(GrimTriggerStrategy),
    HardTitForTat(HardTitForTatStrategy),
    ImperfectTitForTat(ImperfectTitForTatStrategy),
    LookerUp(LookerUpStrategy),
    Majority(MajorityStrategy),
    OmegaTitForTat(OmegaTitForTatStrategy),
    ProbabilityCooperator(ProbabilityCooperatorStrategy),
    Random(RandomStrategy),
    ReverseTitForTat(ReverseTitForTatStrategy),
    SoftMajority(SoftMajorityStrategy),
    StochasticTitForTat(StochasticTitForTatStrategy),
    SuspiciousTitForTat(SuspiciousTitForTatStrategy),
    Tester(TesterStrategy),
    TitForTat(TitForTatStrategy),
    TitForTwoTats(TitForTwoTatsStrategy),
    TwoTitsForTats(TwoTitsForTatsStrategy),
    WinStayLoseShift(WinStayLoseShiftStrategy),
    WinStayLoseShiftAxelrod(WinStayLoseShiftStrategyAxelrod),
}

/// The ratio is `numerator / denominator`, term by term.
pub open spec fn is_ratio(ratio: UnitRatio, numerator: nat, denominator: nat) -> bool {
    ratio.numerator_spec() == numerator && ratio.denominator_spec() == denominator
}

/// `made` is an instance of the strategy that `constructor` names, in the
/// state in which every match starts.
pub open spec fn is_fresh(constructor: StrategyConstructor, made: AnyStrategy) -> bool {
    match (constructor, made) {
        (StrategyConstructor::Adaptive, AnyStrategy::Adaptive(s)) => {
            &&& s.initial_sequence() == Seq::<Move>::empty()
            &&& !s.params_set()
        },
        (StrategyConstructor::AlwaysCooperate, AnyStrategy::AlwaysCooperate(_)) => true,
        (StrategyConstructor::AlwaysDefect, AnyStrategy::AlwaysDefect(_)) => true,
        (
            StrategyConstructor::ConfigurableGenerousTitForTat,
            AnyStrategy::ConfigurableGenerousTitForTat(s),
        ) => {
            is_ratio(s.probability(), 1, 10)
        },
        (StrategyConstructor::CustomRandom, AnyStrategy::CustomRandom(s)) => {
            is_ratio(s.probability(), 1, 2)
        },
        (StrategyConstructor::Cycler, AnyStrategy::Cycler(s)) => {
            &&& s.sequence() == seq![Move::Cooperate]
            &&& s.index() == 0
        },
        (StrategyConstructor::FirmMajority, AnyStrategy::FirmMajority(_)) => true,
        (StrategyConstructor::Forgiving, AnyStrategy::Forgiving(s)) => {
            &&& s.forgiveness_timer() == 0
            &&& s.forgiveness_threshold() == 3
        },
        (StrategyConstructor::GenerousTitForTat, AnyStrategy::GenerousTitForTat(_)) => true,
        (StrategyConstructor::Gradual, AnyStrategy::Gradual(s)) => {
            &&& s.retaliation() == 0
            &&& s.retaliation_count() == 0
        },
        (StrategyConstructor::GradualTitForTat, AnyStrategy::GradualTitForTat(s)) => {
            s@ == GradualTitForTatStrategy::initial()
        },
        (StrategyConstructor::GrimTrigger, AnyStrategy::GrimTrigger(s)) => {
            !s.triggered()
        },
        (StrategyConstructor::HardTitForTat, AnyStrategy::HardTitForTat(_)) => true,
        (StrategyConstructor::ImperfectTitForTat, AnyStrategy::ImperfectTitForTat(s)) => {
            is_ratio(s.probability(), 9, 10)
        },
        (StrategyConstructor::LookerUp, AnyStrategy::LookerUp(s)) => {
            &&& s.history_length() == 0
            &&& s.rules() == Seq::<RuleView>::empty()
        },
        (StrategyConstructor::Majority, AnyStrategy::Majority(s)) => {
            is_ratio(s.cooperation_threshold, 1, 4)
        },
        (StrategyConstructor::OmegaTitForTat, AnyStrategy::OmegaTitForTat(s)) => {
            s@ == OmegaTitForTatStrategy::initial()
        },
        (StrategyConstructor::ProbabilityCooperator, AnyStrategy::ProbabilityCooperator(s)) => {
            is_ratio(s.probability(), 1, 2)
        },
        (StrategyConstructor::Random, AnyStrategy::Random(_)) => true,
        (StrategyConstructor::ReverseTitForTat, AnyStrategy::ReverseTitForTat(_)) => true,
        (StrategyConstructor::SoftMajority, AnyStrategy::SoftMajority(_)) => true,
        (StrategyConstructor::StochasticTitForTat, AnyStrategy::StochasticTitForTat(s)) => {
            is_ratio(s.probability(), 1, 10)
        },
        (StrategyConstructor::SuspiciousTitForTat, AnyStrategy::SuspiciousTitForTat(_)) => true,
        (StrategyConstructor::Tester, AnyStrategy::Tester(s)) => {
            s@ == TesterStrategy::initial()
        },
        (StrategyConstructor::TitForTat, AnyStrategy::TitForTat(_)) => true,
        (StrategyConstructor::TitForTwoTats, AnyStrategy::TitForTwoTats(_)) => true,
        (StrategyConstructor::TwoTitsForTats, AnyStrategy::TwoTitsForTats(s)) => {
            s.defect_countdown() == 0
        },
        (StrategyConstructor::WinStayLoseShift, AnyStrategy::WinStayLoseShift(_)) => true,
        (
            StrategyConstructor::WinStayLoseShiftAxelrod,
            AnyStrategy::WinStayLoseShiftAxelrod(_),
        ) => true,
        _ => false,
    }
}

impl StrategyConstructor {
    /// Whether the strategy draws at random when it decides.
    pub open spec fn uses_chance(self) -> bool {
        self is Random || self is CustomRandom || self is ProbabilityCooperator
            || self is GenerousTitForTat || self is ConfigurableGenerousTitForTat
            || self is ImperfectTitForTat || self is StochasticTitForTat
    }

    /// Builds a fresh instance.
    pub fn build(self) -> (made: AnyStrategy)
        ensures
            is_fresh(self, made),
            made.valid(),
    {
        match self {
            StrategyConstructor::Adaptive => AnyStrategy::Adaptive(AdaptiveStrategy::new()),
            StrategyConstructor::AlwaysCooperate => AnyStrategy::AlwaysCooperate(
                AlwaysCooperateStrategy,
            ),
            StrategyConstructor::AlwaysDefect => AnyStrategy::AlwaysDefect(AlwaysDefectStrategy),
            StrategyConstructor::ConfigurableGenerousTitForTat => {
                let fresh = ConfigurableGenerousTitForTatStrategy::new();
                AnyStrategy::ConfigurableGenerousTitForTat(fresh)
            },
            StrategyConstructor::CustomRandom => AnyStrategy::CustomRandom(
                CustomRandomStrategy::new(),
            ),
            StrategyConstructor::Cycler => AnyStrategy::Cycler(CyclerStrategy::new()),
            StrategyConstructor::FirmMajority => AnyStrategy::FirmMajority(FirmMajorityStrategy),
            StrategyConstructor::Forgiving => AnyStrategy::Forgiving(ForgivingStrategy::new(3)),
            StrategyConstructor::GenerousTitForTat => AnyStrategy::GenerousTitForTat(
                GenerousTitForTatStrategy,
            ),
            StrategyConstructor::Gradual => AnyStrategy::Gradual(GradualStrategy::new()),
            StrategyConstructor::GradualTitForTat => AnyStrategy::GradualTitForTat(
                GradualTitForTatStrategy::new(),
            ),
            StrategyConstructor::GrimTrigger => AnyStrategy::GrimTrigger(
                GrimTriggerStrategy::new(),
            ),
            StrategyConstructor::HardTitForTat => AnyStrategy::HardTitForTat(HardTitForTatStrategy),
            StrategyConstructor::ImperfectTitForTat => AnyStrategy::ImperfectTitForTat(
                ImperfectTitForTatStrategy::new(),
            ),
            StrategyConstructor::LookerUp => AnyStrategy::LookerUp(LookerUpStrategy::new()),
            StrategyConstructor::Majority => AnyStrategy::Majority(MajorityStrategy::new()),
            StrategyConstructor::OmegaTitForTat => AnyStrategy::OmegaTitForTat(
                OmegaTitForTatStrategy::new(),
            ),
            StrategyConstructor::ProbabilityCooperator => AnyStrategy::ProbabilityCooperator(
                ProbabilityCooperatorStrategy::new(),
            ),
            StrategyConstructor::Random => AnyStrategy::Random(RandomStrategy),
            StrategyConstructor::ReverseTitForTat => AnyStrategy::ReverseTitForTat(
                ReverseTitForTatStrategy,
            ),
            StrategyConstructor::SoftMajority => AnyStrategy::SoftMajority(SoftMajorityStrategy),
            StrategyConstructor::StochasticTitForTat => AnyStrategy::StochasticTitForTat(
                StochasticTitForTatStrategy::new(),
            ),
            StrategyConstructor::SuspiciousTitForTat => AnyStrategy::SuspiciousTitForTat(
                SuspiciousTitForTatStrategy,
            ),
            StrategyConstructor::Tester => AnyStrategy::Tester(TesterStrategy::new()),
            StrategyConstructor::TitForTat => AnyStrategy::TitForTat(TitForTatStrategy),
            StrategyConstructor::TitForTwoTats => AnyStrategy::TitForTwoTats(TitForTwoTatsStrategy),
            StrategyConstructor::TwoTitsForTats => AnyStrategy::TwoTitsForTats(
                TwoTitsForTatsStrategy::new(),
            ),
            StrategyConstructor::WinStayLoseShift => AnyStrategy::WinStayLoseShift(
                WinStayLoseShiftStrategy,
            ),
            StrategyConstructor::WinStayLoseShiftAxelrod => AnyStrategy::WinStayLoseShiftAxelrod(
                WinStayLoseShiftStrategyAxelrod,
            ),
        }
    }
}

impl AnyStrategy {
    /// The strategy that the instance belongs to.
    pub open spec fn constructor_spec(self) -> StrategyConstructor {
        match self {
            AnyStrategy::Adaptive(_) => StrategyConstructor::Adaptive,
            AnyStrategy::AlwaysCooperate(_) => StrategyConstructor::AlwaysCooperate,
            AnyStrategy::AlwaysDefect(_) => StrategyConstructor::AlwaysDefect,
            AnyStrategy::ConfigurableGenerousTitForTat(_) => {
                StrategyConstructor::ConfigurableGenerousTitForTat
            },
            AnyStrategy::CustomRandom(_) => StrategyConstructor::CustomRandom,
            AnyStrategy::Cycler(_) => StrategyConstructor::Cycler,
            AnyStrategy::FirmMajority(_) => StrategyConstructor::FirmMajority,
            AnyStrategy::Forgiving(_) => StrategyConstructor::Forgiving,
            AnyStrategy::GenerousTitForTat(_) => StrategyConstructor::GenerousTitForTat,
            AnyStrategy::Gradual(_) => StrategyConstructor::Gradual,
            AnyStrategy::GradualTitForTat(_) => StrategyConstructor::GradualTitForTat,
            AnyStrategy::GrimTrigger(_) => StrategyConstructor::GrimTrigger,
            AnyStrategy::HardTitForTat(_) => StrategyConstructor::HardTitForTat,
            AnyStrategy::ImperfectTitForTat(_) => StrategyConstructor::ImperfectTitForTat,
            AnyStrategy::LookerUp(_) => StrategyConstructor::LookerUp,
            AnyStrategy::Majority(_) => StrategyConstructor::Majority,
            AnyStrategy::OmegaTitForTat(_) => StrategyConstructor::OmegaTitForTat,
            AnyStrategy::ProbabilityCooperator(_) => StrategyConstructor::ProbabilityCooperator,
            AnyStrategy::Random(_) => StrategyConstructor::Random,
            AnyStrategy::ReverseTitForTat(_) => StrategyConstructor::ReverseTitForTat,
            AnyStrategy::SoftMajority(_) => StrategyConstructor::SoftMajority,
            AnyStrategy::StochasticTitForTat(_) => StrategyConstructor::StochasticTitForTat,
            AnyStrategy::SuspiciousTitForTat(_) => StrategyConstructor::SuspiciousTitForTat,
            AnyStrategy::Tester(_) => StrategyConstructor::Tester,
            AnyStrategy::TitForTat(_) => StrategyConstructor::TitForTat,
            AnyStrategy::TitForTwoTats(_) => StrategyConstructor::TitForTwoTats,
            AnyStrategy::TwoTitsForTats(_) => StrategyConstructor::TwoTitsForTats,
            AnyStrategy::WinStayLoseShift(_) => StrategyConstructor::WinStayLoseShift,
            AnyStrategy::WinStayLoseShiftAxelrod(_) => StrategyConstructor::WinStayLoseShiftAxelrod,
        }
    }

    /// The strategy that the instance belongs to.
    pub fn constructor(&self) -> (constructor: StrategyConstructor)
        ensures
            constructor == self.constructor_spec(),
    {
        match self {
            AnyStrategy::Adaptive(_) => StrategyConstructor::Adaptive,
            AnyStrategy::AlwaysCooperate(_) => StrategyConstructor::AlwaysCooperate,
            AnyStrategy::AlwaysDefect(_) => StrategyConstructor::AlwaysDefect,
            AnyStrategy::ConfigurableGenerousTitForTat(_) => {
                StrategyConstructor::ConfigurableGenerousTitForTat
            },
            AnyStrategy::CustomRandom(_) => StrategyConstructor::CustomRandom,
            AnyStrategy::Cycler(_) => StrategyConstructor::Cycler,
            AnyStrategy::FirmMajority(_) => StrategyConstructor::FirmMajority,
            AnyStrategy::Forgiving(_) => StrategyConstructor::Forgiving,
            AnyStrategy::GenerousTitForTat(_) => StrategyConstructor::GenerousTitForTat,
            AnyStrategy::Gradual(_) => StrategyConstructor::Gradual,
            AnyStrategy::GradualTitForTat(_) => StrategyConstructor::GradualTitForTat,
            AnyStrategy::GrimTrigger(_) => StrategyConstructor::GrimTrigger,
            AnyStrategy::HardTitForTat(_) => StrategyConstructor::HardTitForTat,
            AnyStrategy::ImperfectTitForTat(_) => StrategyConstructor::ImperfectTitForTat,
            AnyStrategy::LookerUp(_) => StrategyConstructor::LookerUp,
            AnyStrategy::Majority(_) => StrategyConstructor::Majority,
            AnyStrategy::OmegaTitForTat(_) => StrategyConstructor::OmegaTitForTat,
            AnyStrategy::ProbabilityCooperator(_) => StrategyConstructor::ProbabilityCooperator,
            AnyStrategy::Random(_) => StrategyConstructor::Random,
            AnyStrategy::ReverseTitForTat(_) => StrategyConstructor::ReverseTitForTat,
            AnyStrategy::SoftMajority(_) => StrategyConstructor::SoftMajority,
            AnyStrategy::StochasticTitForTat(_) => StrategyConstructor::StochasticTitForTat,
            AnyStrategy::SuspiciousTitForTat(_) => StrategyConstructor::SuspiciousTitForTat,
            AnyStrategy::Tester(_) => StrategyConstructor::Tester,
            AnyStrategy::TitForTat(_) => StrategyConstructor::TitForTat,
            AnyStrategy::TitForTwoTats(_) => StrategyConstructor::TitForTwoTats,
            AnyStrategy::TwoTitsForTats(_) => StrategyConstructor::TwoTitsForTats,
            AnyStrategy::WinStayLoseShift(_) => StrategyConstructor::WinStayLoseShift,
            AnyStrategy::WinStayLoseShiftAxelrod(_) => StrategyConstructor::WinStayLoseShiftAxelrod,
        }
    }
}

impl Strategy for AnyStrategy {
    open spec fn valid(&self) -> bool {
        match self {
            AnyStrategy::Adaptive(s) => s.valid(),
            AnyStrategy::AlwaysCooperate(s) => s.valid(),
            AnyStrategy::AlwaysDefect(s) => s.valid(),
            AnyStrategy::ConfigurableGenerousTitForTat(s) => s.valid(),
            AnyStrategy::CustomRandom(s) => s.valid(),
            AnyStrategy::Cycler(s) => s.valid(),
            AnyStrategy::FirmMajority(s) => s.valid(),
            AnyStrategy::Forgiving(s) => s.valid(),
            AnyStrategy::GenerousTitForTat(s) => s.valid(),
            AnyStrategy::Gradual(s) => s.valid(),
            AnyStrategy::GradualTitForTat(s) => s.valid(),
            AnyStrategy::GrimTrigger(s) => s.valid(),
            AnyStrategy::HardTitForTat(s) => s.valid(),
            AnyStrategy::ImperfectTitForTat(s) => s.valid(),
            AnyStrategy::LookerUp(s) => s.valid(),
            AnyStrategy::Majority(s) => s.valid(),
            AnyStrategy::OmegaTitForTat(s) => s.valid(),
            AnyStrategy::ProbabilityCooperator(s) => s.valid(),
            AnyStrategy::Random(s) => s.valid(),
            AnyStrategy::ReverseTitForTat(s) => s.valid(),
            AnyStrategy::SoftMajority(s) => s.valid(),
            AnyStrategy::StochasticTitForTat(s) => s.valid(),
            AnyStrategy::SuspiciousTitForTat(s) => s.valid(),
            AnyStrategy::Tester(s) => s.valid(),
            AnyStrategy::TitForTat(s) => s.valid(),
            AnyStrategy::TitForTwoTats(s) => s.valid(),
            AnyStrategy::TwoTitsForTats(s) => s.valid(),
            AnyStrategy::WinStayLoseShift(s) => s.valid(),
            AnyStrategy::WinStayLoseShiftAxelrod(s) => s.valid(),
        }
    }

    /// The instance stays with its strategy, and the decision is one that
    /// this strategy allows.
    open spec fn allows(
        pre: Self,
        own: Seq<Move>,
        opponent: Seq<Move>,
        post: Self,
        chosen: Move,
    ) -> bool {
        match (pre, post) {
            (AnyStrategy::Adaptive(before), AnyStrategy::Adaptive(after)) => {
                AdaptiveStrategy::allows(before, own, opponent, after, chosen)
            },
            (AnyStrategy::AlwaysCooperate(before), AnyStrategy::AlwaysCooperate(after)) => {
                AlwaysCooperateStrategy::allows(before, own, opponent, after, chosen)
            },
            (AnyStrategy::AlwaysDefect(before), AnyStrategy::AlwaysDefect(after)) => {
                AlwaysDefectStrategy::allows(before, own, opponent, after, chosen)
            },
            (
                AnyStrategy::ConfigurableGenerousTitForTat(before),
                AnyStrategy::ConfigurableGenerousTitForTat(after),
            ) => {
                ConfigurableGenerousTitForTatStrategy::allows(before, own, opponent, after, chosen)
            },
            (AnyStrategy::CustomRandom(before), AnyStrategy::CustomRandom(after)) => {
                CustomRandomStrategy::allows(before, own, opponent, after, chosen)
            },
            (AnyStrategy::Cycler(before), AnyStrategy::Cycler(after)) => {
                CyclerStrategy::allows(before, own, opponent, after, chosen)
            },
            (AnyStrategy::FirmMajority(before), AnyStrategy::FirmMajority(after)) => {
                FirmMajorityStrategy::allows(before, own, opponent, after, chosen)
            },
            (AnyStrategy::Forgiving(before), AnyStrategy::Forgiving(after)) => {
                ForgivingStrategy::allows(before, own, opponent, after, chosen)
            },
            (AnyStrategy::GenerousTitForTat(before), AnyStrategy::GenerousTitForTat(after)) => {
                GenerousTitForTatStrategy::allows(before, own, opponent, after, chosen)
            },
            (AnyStrategy::Gradual(before), AnyStrategy::Gradual(after)) => {
                GradualStrategy::allows(before, own, opponent, after, chosen)
            },
            (AnyStrategy::GradualTitForTat(before), AnyStrategy::GradualTitForTat(after)) => {
                GradualTitForTatStrategy::allows(before, own, opponent, after, chosen)
            },
            (AnyStrategy::GrimTrigger(before), AnyStrategy::GrimTrigger(after)) => {
                GrimTriggerStrategy::allows(before, own, opponent, after, chosen)
            },
            (AnyStrategy::HardTitForTat(before), AnyStrategy::HardTitForTat(after)) => {
                HardTitForTatStrategy::allows(before, own, opponent, after, chosen)
            },
            (AnyStrategy::ImperfectTitForTat(before), AnyStrategy::ImperfectTitForTat(after)) => {
                ImperfectTitForTatStrategy::allows(before, own, opponent, after, chosen)
            },
            (AnyStrategy::LookerUp(before), AnyStrategy::LookerUp(after)) => {
                LookerUpStrategy::allows(before, own, opponent, after, chosen)
            },
            (AnyStrategy::Majority(before), AnyStrategy::Majority(after)) => {
                MajorityStrategy::allows(before, own, opponent, after, chosen)
            },
            (AnyStrategy::OmegaTitForTat(before), AnyStrategy::OmegaTitForTat(after)) => {
                OmegaTitForTatStrategy::allows(before, own, opponent, after, chosen)
            },
            (
                AnyStrategy::ProbabilityCooperator(before),
                AnyStrategy::ProbabilityCooperator(after),
            ) => {
                ProbabilityCooperatorStrategy::allows(before, own, opponent, after, chosen)
            },
            (AnyStrategy::Random(before), AnyStrategy::Random(after)) => {
                RandomStrategy::allows(before, own, opponent, after, chosen)
            },
            (AnyStrategy::ReverseTitForTat(before), AnyStrategy::ReverseTitForTat(after)) => {
                ReverseTitForTatStrategy::allows(before, own, opponent, after, chosen)
            },
            (AnyStrategy::SoftMajority(before), AnyStrategy::SoftMajority(after)) => {
                SoftMajorityStrategy::allows(before, own, opponent, after, chosen)
            },
            (AnyStrategy::StochasticTitForTat(before), AnyStrategy::StochasticTitForTat(after)) => {
                StochasticTitForTatStrategy::allows(before, own, opponent, after, chosen)
            },
            (AnyStrategy::SuspiciousTitForTat(before), AnyStrategy::SuspiciousTitForTat(after)) => {
                SuspiciousTitForTatStrategy::allows(before, own, opponent, after, chosen)
            },
            (AnyStrategy::Tester(before), AnyStrategy::Tester(after)) => {
                TesterStrategy::allows(before, own, opponent, after, chosen)
            },
            (AnyStrategy::TitForTat(before), AnyStrategy::TitForTat(after)) => {
                TitForTatStrategy::allows(before, own, opponent, after, chosen)
            },
            (AnyStrategy::TitForTwoTats(before), AnyStrategy::TitForTwoTats(after)) => {
                TitForTwoTatsStrategy::allows(before, own, opponent, after, chosen)
            },
            (AnyStrategy::TwoTitsForTats(before), AnyStrategy::TwoTitsForTats(after)) => {
                TwoTitsForTatsStrategy::allows(before, own, opponent, after, chosen)
            },
            (AnyStrategy::WinStayLoseShift(before), AnyStrategy::WinStayLoseShift(after)) => {
                WinStayLoseShiftStrategy::allows(before, own, opponent, after, chosen)
            },
            (
                AnyStrategy::WinStayLoseShiftAxelrod(before),
                AnyStrategy::WinStayLoseShiftAxelrod(after),
            ) => {
                WinStayLoseShiftStrategyAxelrod::allows(before, own, opponent, after, chosen)
            },
            _ => false,
        }
    }

    /// The instance stays with its strategy, and the configuration is one
    /// that this strategy makes.
    open spec fn configures(
        pre: Self,
        params: ParamValue,
        post: Self,
        outcome: Result<(), String>,
    ) -> bool {
        match (pre, post) {
            (AnyStrategy::Adaptive(before), AnyStrategy::Adaptive(after)) => {
                AdaptiveStrategy::configures(before, params, after, outcome)
            },
            (AnyStrategy::AlwaysCooperate(before), AnyStrategy::AlwaysCooperate(after)) => {
                AlwaysCooperateStrategy::configures(before, params, after, outcome)
            },
            (AnyStrategy::AlwaysDefect(before), AnyStrategy::AlwaysDefect(after)) => {
                AlwaysDefectStrategy::configures(before, params, after, outcome)
            },
            (
                AnyStrategy::ConfigurableGenerousTitForTat(before),
                AnyStrategy::ConfigurableGenerousTitForTat(after),
            ) => {
                ConfigurableGenerousTitForTatStrategy::configures(before, params, after, outcome)
            },
            (AnyStrategy::CustomRandom(before), AnyStrategy::CustomRandom(after)) => {
                CustomRandomStrategy::configures(before, params, after, outcome)
            },
            (AnyStrategy::Cycler(before), AnyStrategy::Cycler(after)) => {
                CyclerStrategy::configures(before, params, after, outcome)
            },
            (AnyStrategy::FirmMajority(before), AnyStrategy::FirmMajority(after)) => {
                FirmMajorityStrategy::configures(before, params, after, outcome)
            },
            (AnyStrategy::Forgiving(before), AnyStrategy::Forgiving(after)) => {
                ForgivingStrategy::configures(before, params, after, outcome)
            },
            (AnyStrategy::GenerousTitForTat(before), AnyStrategy::GenerousTitForTat(after)) => {
                GenerousTitForTatStrategy::configures(before, params, after, outcome)
            },
            (AnyStrategy::Gradual(before), AnyStrategy::Gradual(after)) => {
                GradualStrategy::configures(before, params, after, outcome)
            },
            (AnyStrategy::GradualTitForTat(before), AnyStrategy::GradualTitForTat(after)) => {
                GradualTitForTatStrategy::configures(before, params, after, outcome)
            },
            (AnyStrategy::GrimTrigger(before), AnyStrategy::GrimTrigger(after)) => {
                GrimTriggerStrategy::configures(before, params, after, outcome)
            },
            (AnyStrategy::HardTitForTat(before), AnyStrategy::HardTitForTat(after)) => {
                HardTitForTatStrategy::configures(before, params, after, outcome)
            },
            (AnyStrategy::ImperfectTitForTat(before), AnyStrategy::ImperfectTitForTat(after)) => {
                ImperfectTitForTatStrategy::configures(before, params, after, outcome)
            },
            (AnyStrategy::LookerUp(before), AnyStrategy::LookerUp(after)) => {
                LookerUpStrategy::configures(before, params, after, outcome)
            },
            (AnyStrategy::Majority(before), AnyStrategy::Majority(after)) => {
                MajorityStrategy::configures(before, params, after, outcome)
            },
            (AnyStrategy::OmegaTitForTat(before), AnyStrategy::OmegaTitForTat(after)) => {
                OmegaTitForTatStrategy::configures(before, params, after, outcome)
            },
            (
                AnyStrategy::ProbabilityCooperator(before),
                AnyStrategy::ProbabilityCooperator(after),
            ) => {
                ProbabilityCooperatorStrategy::configures(before, params, after, outcome)
            },
            (AnyStrategy::Random(before), AnyStrategy::Random(after)) => {
                RandomStrategy::configures(before, params, after, outcome)
            },
            (AnyStrategy::ReverseTitForTat(before), AnyStrategy::ReverseTitForTat(after)) => {
                ReverseTitForTatStrategy::configures(before, params, after, outcome)
            },
            (AnyStrategy::SoftMajority(before), AnyStrategy::SoftMajority(after)) => {
                SoftMajorityStrategy::configures(before, params, after, outcome)
            },
            (AnyStrategy::StochasticTitForTat(before), AnyStrategy::StochasticTitForTat(after)) => {
                StochasticTitForTatStrategy::configures(before, params, after, outcome)
            },
            (AnyStrategy::SuspiciousTitForTat(before), AnyStrategy::SuspiciousTitForTat(after)) => {
                SuspiciousTitForTatStrategy::configures(before, params, after, outcome)
            },
            (AnyStrategy::Tester(before), AnyStrategy::Tester(after)) => {
                TesterStrategy::configures(before, params, after, outcome)
            },
            (AnyStrategy::TitForTat(before), AnyStrategy::TitForTat(after)) => {
                TitForTatStrategy::configures(before, params, after, outcome)
            },
            (AnyStrategy::TitForTwoTats(before), AnyStrategy::TitForTwoTats(after)) => {
                TitForTwoTatsStrategy::configures(before, params, after, outcome)
            },
            (AnyStrategy::TwoTitsForTats(before), AnyStrategy::TwoTitsForTats(after)) => {
                TwoTitsForTatsStrategy::configures(before, params, after, outcome)
            },
            (AnyStrategy::WinStayLoseShift(before), AnyStrategy::WinStayLoseShift(after)) => {
                WinStayLoseShiftStrategy::configures(before, params, after, outcome)
            },
            (
                AnyStrategy::WinStayLoseShiftAxelrod(before),
                AnyStrategy::WinStayLoseShiftAxelrod(after),
            ) => {
                WinStayLoseShiftStrategyAxelrod::configures(before, params, after, outcome)
            },
            _ => false,
        }
    }

    open spec fn labelled(&self, text: Seq<char>) -> bool {
        match self {
            AnyStrategy::Adaptive(s) => s.labelled(text),
            AnyStrategy::AlwaysCooperate(s) => s.labelled(text),
            AnyStrategy::AlwaysDefect(s) => s.labelled(text),
            AnyStrategy::ConfigurableGenerousTitForTat(s) => s.labelled(text),
            AnyStrategy::CustomRandom(s) => s.labelled(text),
            AnyStrategy::Cycler(s) => s.labelled(text),
            AnyStrategy::FirmMajority(s) => s.labelled(text),
            AnyStrategy::Forgiving(s) => s.labelled(text),
            AnyStrategy::GenerousTitForTat(s) => s.labelled(text),
            AnyStrategy::Gradual(s) => s.labelled(text),
            AnyStrategy::GradualTitForTat(s) => s.labelled(text),
            AnyStrategy::GrimTrigger(s) => s.labelled(text),
            AnyStrategy::HardTitForTat(s) => s.labelled(text),
            AnyStrategy::ImperfectTitForTat(s) => s.labelled(text),
            AnyStrategy::LookerUp(s) => s.labelled(text),
            AnyStrategy::Majority(s) => s.labelled(text),
            AnyStrategy::OmegaTitForTat(s) => s.labelled(text),
            AnyStrategy::ProbabilityCooperator(s) => s.labelled(text),
            AnyStrategy::Random(s) => s.labelled(text),
            AnyStrategy::ReverseTitForTat(s) => s.labelled(text),
            AnyStrategy::SoftMajority(s) => s.labelled(text),
            AnyStrategy::StochasticTitForTat(s) => s.labelled(text),
            AnyStrategy::SuspiciousTitForTat(s) => s.labelled(text),
            AnyStrategy::Tester(s) => s.labelled(text),
            AnyStrategy::TitForTat(s) => s.labelled(text),
            AnyStrategy::TitForTwoTats(s) => s.labelled(text),
            AnyStrategy::TwoTitsForTats(s) => s.labelled(text),
            AnyStrategy::WinStayLoseShift(s) => s.labelled(text),
            AnyStrategy::WinStayLoseShiftAxelrod(s) => s.labelled(text),
        }
    }

    fn next_move(&mut self, own_history: &[Move], opponent_history: &[Move]) -> (chosen: Move) {
        match self {
            AnyStrategy::Adaptive(s) => s.next_move(own_history, opponent_history),
            AnyStrategy::AlwaysCooperate(s) => s.next_move(own_history, opponent_history),
            AnyStrategy::AlwaysDefect(s) => s.next_move(own_history, opponent_history),
            AnyStrategy::ConfigurableGenerousTitForTat(s) => {
                s.next_move(own_history, opponent_history)
            },
            AnyStrategy::CustomRandom(s) => s.next_move(own_history, opponent_history),
            AnyStrategy::Cycler(s) => s.next_move(own_history, opponent_history),
            AnyStrategy::FirmMajority(s) => s.next_move(own_history, opponent_history),
            AnyStrategy::Forgiving(s) => s.next_move(own_history, opponent_history),
            AnyStrategy::GenerousTitForTat(s) => s.next_move(own_history, opponent_history),
            AnyStrategy::Gradual(s) => s.next_move(own_history, opponent_history),
            AnyStrategy::GradualTitForTat(s) => s.next_move(own_history, opponent_history),
            AnyStrategy::GrimTrigger(s) => s.next_move(own_history, opponent_history),
            AnyStrategy::HardTitForTat(s) => s.next_move(own_history, opponent_history),
            AnyStrategy::ImperfectTitForTat(s) => s.next_move(own_history, opponent_history),
            AnyStrategy::LookerUp(s) => s.next_move(own_history, opponent_history),
            AnyStrategy::Majority(s) => s.next_move(own_history, opponent_history),
            AnyStrategy::OmegaTitForTat(s) => s.next_move(own_history, opponent_history),
            AnyStrategy::ProbabilityCooperator(s) => s.next_move(own_history, opponent_history),
            AnyStrategy::Random(s) => s.next_move(own_history, opponent_history),
            AnyStrategy::ReverseTitForTat(s) => s.next_move(own_history, opponent_history),
            AnyStrategy::SoftMajority(s) => s.next_move(own_history, opponent_history),
            AnyStrategy::StochasticTitForTat(s) => s.next_move(own_history, opponent_history),
            AnyStrategy::SuspiciousTitForTat(s) => s.next_move(own_history, opponent_history),
            AnyStrategy::Tester(s) => s.next_move(own_history, opponent_history),
            AnyStrategy::TitForTat(s) => s.next_move(own_history, opponent_history),
            AnyStrategy::TitForTwoTats(s) => s.next_move(own_history, opponent_history),
            AnyStrategy::TwoTitsForTats(s) => s.next_move(own_history, opponent_history),
            AnyStrategy::WinStayLoseShift(s) => s.next_move(own_history, opponent_history),
            AnyStrategy::WinStayLoseShiftAxelrod(s) => s.next_move(own_history, opponent_history),
        }
    }

    fn set_parameters(&mut self, params: &ParamValue) -> (outcome: Result<(), String>) {
        match self {
            AnyStrategy::Adaptive(s) => s.set_parameters(params),
            AnyStrategy::AlwaysCooperate(s) => s.set_parameters(params),
            AnyStrategy::AlwaysDefect(s) => s.set_parameters(params),
            AnyStrategy::ConfigurableGenerousTitForTat(s) => s.set_parameters(params),
            AnyStrategy::CustomRandom(s) => s.set_parameters(params),
            AnyStrategy::Cycler(s) => s.set_parameters(params),
            AnyStrategy::FirmMajority(s) => s.set_parameters(params),
            AnyStrategy::Forgiving(s) => s.set_parameters(params),
            AnyStrategy::GenerousTitForTat(s) => s.set_parameters(params),
            AnyStrategy::Gradual(s) => s.set_parameters(params),
            AnyStrategy::GradualTitForTat(s) => s.set_parameters(params),
            AnyStrategy::GrimTrigger(s) => s.set_parameters(params),
            AnyStrategy::HardTitForTat(s) => s.set_parameters(params),
            AnyStrategy::ImperfectTitForTat(s) => s.set_parameters(params),
            AnyStrategy::LookerUp(s) => s.set_parameters(params),
            AnyStrategy::Majority(s) => s.set_parameters(params),
            AnyStrategy::OmegaTitForTat(s) => s.set_parameters(params),
            AnyStrategy::ProbabilityCooperator(s) => s.set_parameters(params),
            AnyStrategy::Random(s) => s.set_parameters(params),
            AnyStrategy::ReverseTitForTat(s) => s.set_parameters(params),
            AnyStrategy::SoftMajority(s) => s.set_parameters(params),
            AnyStrategy::StochasticTitForTat(s) => s.set_parameters(params),
            AnyStrategy::SuspiciousTitForTat(s) => s.set_parameters(params),
            AnyStrategy::Tester(s) => s.set_parameters(params),
            AnyStrategy::TitForTat(s) => s.set_parameters(params),
            AnyStrategy::TitForTwoTats(s) => s.set_parameters(params),
            AnyStrategy::TwoTitsForTats(s) => s.set_parameters(params),
            AnyStrategy::WinStayLoseShift(s) => s.set_parameters(params),
            AnyStrategy::WinStayLoseShiftAxelrod(s) => s.set_parameters(params),
        }
    }

    fn describe(&self) -> (label: String) {
        match self {
            AnyStrategy::Adaptive(s) => s.describe(),
            AnyStrategy::AlwaysCooperate(s) => s.describe(),
            AnyStrategy::AlwaysDefect(s) => s.describe(),
            AnyStrategy::ConfigurableGenerousTitForTat(s) => s.describe(),
            AnyStrategy::CustomRandom(s) => s.describe(),
            AnyStrategy::Cycler(s) => s.describe(),
            AnyStrategy::FirmMajority(s) => s.describe(),
            AnyStrategy::Forgiving(s) => s.describe(),
            AnyStrategy::GenerousTitForTat(s) => s.describe(),
            AnyStrategy::Gradual(s) => s.describe(),
            AnyStrategy::GradualTitForTat(s) => s.describe(),
            AnyStrategy::GrimTrigger(s) => s.describe(),
            AnyStrategy::HardTitForTat(s) => s.describe(),
            AnyStrategy::ImperfectTitForTat(s) => s.describe(),
            AnyStrategy::LookerUp(s) => s.describe(),
            AnyStrategy::Majority(s) => s.describe(),
            AnyStrategy::OmegaTitForTat(s) => s.describe(),
            AnyStrategy::ProbabilityCooperator(s) => s.describe(),
            AnyStrategy::Random(s) => s.describe(),
            AnyStrategy::ReverseTitForTat(s) => s.describe(),
            AnyStrategy::SoftMajority(s) => s.describe(),
            AnyStrategy::StochasticTitForTat(s) => s.describe(),
            AnyStrategy::SuspiciousTitForTat(s) => s.describe(),
            AnyStrategy::Tester(s) => s.describe(),
            AnyStrategy::TitForTat(s) => s.describe(),
            AnyStrategy::TitForTwoTats(s) => s.describe(),
            AnyStrategy::TwoTitsForTats(s) => s.describe(),
            AnyStrategy::WinStayLoseShift(s) => s.describe(),
            AnyStrategy::WinStayLoseShiftAxelrod(s) => s.describe(),
        }
    }
}

} // verus!
