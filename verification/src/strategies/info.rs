//! Descriptors: the names a strategy answers to and what it is.

use vstd::prelude::*;
use vstd::string::StringExecFns;
use crate::strategies::any::StrategyConstructor;
use crate::text::owned;

verus! {

/// The descriptor of a strategy: its canonical name, the aliases that it
/// also answers to, a description for a reader, how to build it, and
/// whether it takes a configuration.
#[derive(Debug)]
pub struct StrategyInfo {
    pub name: String,
    pub aliases: Vec<String>,
    pub description: String,
    pub constructor: StrategyConstructor,
    pub supports_parameters: bool,
}

/// A descriptor as plain values.
pub struct InfoView {
    pub name: Seq<char>,
    pub aliases: Seq<Seq<char>>,
    pub description: Seq<char>,
    pub constructor: StrategyConstructor,
    pub supports_parameters: bool,
}

/// The characters of each text of a list.
pub open spec fn texts(list: Seq<String>) -> Seq<Seq<char>> {
    Seq::new(list.len(), |i: int| list[i]@)
}

impl View for StrategyInfo {
    type V = InfoView;

    open spec fn view(&self) -> InfoView {
        InfoView {
            name: self.name@,
            aliases: texts(self.aliases@),
            description: self.description@,
            constructor: self.constructor,
            supports_parameters: self.supports_parameters,
        }
    }
}

/// The aliases between square brackets, each in double quotes, separated
/// by a comma and a space.
pub open spec fn quoted_list(aliases: Seq<Seq<char>>) -> Seq<char> {
    "["@ + quoted_items(aliases) + "]"@
}

/// The aliases, each in double quotes, separated by a comma and a space.
pub open spec fn quoted_items(aliases: Seq<Seq<char>>) -> Seq<char>
    decreases aliases.len(),
{
    if aliases.len() == 0 {
        Seq::empty()
    } else if aliases.len() == 1 {
        "\""@ + aliases[0] + "\""@
    } else {
        quoted_items(aliases.drop_last()) + ", "@ + "\""@ + aliases.last() + "\""@
    }
}

impl InfoView {
    /// The descriptor in one line: name, description and aliases.
    pub open spec fn summary(self) -> Seq<char> {
        self.name + ": "@ + self.description + " (Aliases: "@ + quoted_list(self.aliases) + ")"@
    }
}

impl StrategyInfo {
    /// Writes the descriptor in one line, for a list of strategies.
    pub fn summary(&self) -> (line: String)
        ensures
            line@ == self@.summary(),
    {
        let mut line = owned(self.name.as_str());
        line.append(": ");
        line.append(self.description.as_str());
        line.append(" (Aliases: ");
        let ghost head = line@;
        line.append("[");
        let mut i: usize = 0;
        proof {
            assert(texts(self.aliases@).take(0) == Seq::<Seq<char>>::empty());
            assert(head + "["@ + Seq::<char>::empty() == head + "["@);
        }
        while i < self.aliases.len()
            invariant
                i <= self.aliases@.len(),
                line@ == head + "["@ + quoted_items(texts(self.aliases@).take(i as int)),
            decreases self.aliases@.len() - i,
        {
            let ghost all = texts(self.aliases@);
            let ghost done = quoted_items(all.take(i as int));
            proof {
                assert(all.take(i + 1).drop_last() == all.take(i as int));
                assert(all.take(i + 1).last() == self.aliases@[i as int]@);
                if i == 0 {
                    assert(all.take(1)[0] == self.aliases@[0]@);
                    assert(done == Seq::<char>::empty());
                }
            }
            if i > 0 {
                line.append(", ");
            }
            line.append("\"");
            line.append(self.aliases[i].as_str());
            line.append("\"");
            proof {
                let item = self.aliases@[i as int]@;
                if i == 0 {
                    assert(line@ == head + "["@ + ("\""@ + item + "\""@));
                } else {
                    assert(line@ == head + "["@ + (done + ", "@ + "\""@ + item + "\""@));
                }
            }
            i += 1;
        }
        proof {
            assert(texts(self.aliases@).take(i as int) == texts(self.aliases@));
        }
        line.append("]");
        line.append(")");
        proof {
            assert(line@ == self@.summary());
        }
        line
    }
}

fn names1(first: &str) -> (list: Vec<String>)
    ensures
        texts(list@) == seq![first@],
{
    let mut list: Vec<String> = Vec::new();
    list.push(owned(first));
    proof {
        assert(texts(list@) == seq![first@]);
    }
    list
}

fn names2(first: &str, second: &str) -> (list: Vec<String>)
    ensures
        texts(list@) == seq![first@, second@],
{
    let mut list: Vec<String> = Vec::new();
    list.push(owned(first));
    list.push(owned(second));
    proof {
        assert(texts(list@) == seq![first@, second@]);
    }
    list
}

fn names3(first: &str, second: &str, third: &str) -> (list: Vec<String>)
    ensures
        texts(list@) == seq![first@, second@, third@],
{
    let mut list: Vec<String> = Vec::new();
    list.push(owned(first));
    list.push(owned(second));
    list.push(owned(third));
    proof {
        assert(texts(list@) == seq![first@, second@, third@]);
    }
    list
}

fn make_info(
    name: &str,
    aliases: Vec<String>,
    description: &str,
    constructor: StrategyConstructor,
    supports_parameters: bool,
) -> (info: StrategyInfo)
    ensures
        info@ == (InfoView {
            name: name@,
            aliases: texts(aliases@),
            description: description@,
            constructor,
            supports_parameters,
        }),
{
    StrategyInfo {
        name: owned(name),
        aliases,
        description: owned(description),
        constructor,
        supports_parameters,
    }
}

impl StrategyConstructor {
    /// The descriptor under which the library offers the strategy.
    pub open spec fn info_spec(self) -> InfoView {
        match self {
            StrategyConstructor::Adaptive => InfoView {
                name: "Adaptive"@,
                aliases: seq!["adp"@],
                description: "Starts with a given sequence, then plays the move (C or D) that has yielded the highest average payoff so far."@,
                constructor: self,
                supports_parameters: true,
            },
            StrategyConstructor::AlwaysCooperate => InfoView {
                name: "Always Cooperate"@,
                aliases: seq!["alwayscooperate"@, "cooperate"@, "allc"@],
                description: "A strategy that always cooperates."@,
                constructor: self,
                supports_parameters: false,
            },
            StrategyConstructor::AlwaysDefect => InfoView {
                name: "Always Defect"@,
                aliases: seq!["alwaysdefect"@, "defect"@, "alld"@],
                description: "A strategy that always defects."@,
                constructor: self,
                supports_parameters: false,
            },
            StrategyConstructor::ConfigurableGenerousTitForTat => InfoView {
                name: "Configurable Generous Tit for Tat"@,
                aliases: seq!["configurablegeneroustitfortat"@, "configurable_gtft"@, "conf_gtft"@],
                description: "A configurable strategy that mimics the opponent's last move, but with a small (configurable) probability of cooperating even after defection."@,
                constructor: self,
                supports_parameters: true,
            },
            StrategyConstructor::CustomRandom => InfoView {
                name: "Custom Random"@,
                aliases: seq!["customrandom"@, "crand"@],
                description: "Returns Cooperate with a configurable probability, otherwise Defect. When the parameter 'cooperate_probability' is set to 50% (1/2), it behaves like the 'Random' strategy."@,
                constructor: self,
                supports_parameters: true,
            },
            StrategyConstructor::Cycler => InfoView {
                name: "Cycler"@,
                aliases: seq!["cyc"@],
                description: "Repeats a given sequence of C/D moves indefinitely. Sequence is set via parameters."@,
                constructor: self,
                supports_parameters: true,
            },
            StrategyConstructor::FirmMajority => InfoView {
                name: "Firm Majority"@,
                aliases: seq!["firmmajority"@, "firm"@],
                description: "Defects unless the opponent has cooperated more than 75% of the time."@,
                constructor: self,
                supports_parameters: false,
            },
            StrategyConstructor::Forgiving => InfoView {
                name: "Forgiving"@,
                aliases: seq!["forgives"@, "forgive"@],
                description: "Defects after a defection, but returns to cooperation after a set number of rounds. Encourages reconciliation."@,
                constructor: self,
                supports_parameters: true,
            },
            StrategyConstructor::GenerousTitForTat => InfoView {
                name: "Generous Tit for Tat"@,
                aliases: seq!["generoustitfortat"@, "gen_tft"@],
                description: "Cooperates on the first round and after cooperation. After a defection, cooperates with a calculated probability."@,
                constructor: self,
                supports_parameters: false,
            },
            StrategyConstructor::Gradual => InfoView {
                name: "Gradual"@,
                aliases: seq!["grad"@],
                description: "A strategy that retaliates gradually based on the opponent's defections."@,
                constructor: self,
                supports_parameters: false,
            },
            StrategyConstructor::GradualTitForTat => InfoView {
                name: "Gradual Tit For Tat"@,
                aliases: seq!["gradual_tft"@, "grad_tft"@],
                description: "A strategy that retaliates gradually based on the opponent's defections, then apologizes with two cooperations."@,
                constructor: self,
                supports_parameters: false,
            },
            StrategyConstructor::GrimTrigger => InfoView {
                name: "Grim Trigger"@,
                aliases: seq!["grim"@, "grimtrigger"@],
                description: "Cooperates until the opponent defects once, then always defects."@,
                constructor: self,
                supports_parameters: false,
            },
            StrategyConstructor::HardTitForTat => InfoView {
                name: "Hard Tit for Tat"@,
                aliases: seq!["hardtitfortat"@, "h_tft"@],
                description: "A strategy that mimics the opponent's last move. It starts defecting though."@,
                constructor: self,
                supports_parameters: false,
            },
            StrategyConstructor::ImperfectTitForTat => InfoView {
                name: "ImperfectTitForTat"@,
                aliases: seq!["imperfect_tft"@, "imperfect_tit_for_tat"@],
                description: "Imitates opponent's last move with a given (configurable) probability."@,
                constructor: self,
                supports_parameters: true,
            },
            StrategyConstructor::LookerUp => InfoView {
                name: "Looker Up"@,
                aliases: seq!["lookerup"@],
                description: "Makes decisions based on the last N moves of both players using a predefined lookup table. If no lookup is provided, it defaults to Cooperate."@,
                constructor: self,
                supports_parameters: true,
            },
            StrategyConstructor::Majority => InfoView {
                name: "Majority"@,
                aliases: seq!["majority"@],
                description: "Cooperates as long as the opponent has cooperated more than the provided 'cooperation_threshold' (a share between 0 and 1, 1/4 unless configured) of the time. A threshold of 1/2 makes it the Soft Majority strategy, one of 3/4 the Firm Majority strategy."@,
                constructor: self,
                supports_parameters: true,
            },
            StrategyConstructor::OmegaTitForTat => InfoView {
                name: "Omega Tit For Tat"@,
                aliases: seq!["omega_tft"@, "otft"@],
                description: "Plays 'Tit for Tat' unless deadlock or randomness thresholds are exceeded. Cooperates to break deadlock, defects unconditionally if randomness threshold is exceeded. Both 'deadlock' and 'randomness' can be passed as params."@,
                constructor: self,
                supports_parameters: true,
            },
            StrategyConstructor::ProbabilityCooperator => InfoView {
                name: "Probability Cooperator"@,
                aliases: seq!["probabilitycooperator"@, "prob_coop"@],
                description: "Returns Cooperate with a fixed configurable probability, otherwise Defect. When the parameter 'cooperate_probability' is set to 50% (1/2), it behaves like the 'Random' strategy."@,
                constructor: self,
                supports_parameters: true,
            },
            StrategyConstructor::Random => InfoView {
                name: "Random"@,
                aliases: seq!["rand"@],
                description: "Randomly chooses between cooperating and defecting."@,
                constructor: self,
                supports_parameters: false,
            },
            StrategyConstructor::ReverseTitForTat => InfoView {
                name: "Reverse Tit for Tat"@,
                aliases: seq!["reversetitfortat"@, "bully"@, "rtft"@],
                description: "Starts by defecting and then does the opposite of opponent's previous move. This is the complete opposite of Tit For Tat."@,
                constructor: self,
                supports_parameters: false,
            },
            StrategyConstructor::SoftMajority => InfoView {
                name: "Soft Majority"@,
                aliases: seq!["softmajority"@, "soft"@],
                description: "Cooperates if the opponent has cooperated more than half the time."@,
                constructor: self,
                supports_parameters: false,
            },
            StrategyConstructor::StochasticTitForTat => InfoView {
                name: "Stochastic Tit for Tat"@,
                aliases: seq!["stochastictitfortat"@, "sto_tft"@],
                description: "Like Tit for Tat, but sometimes defects at random (e.g. 10% of the time), even after cooperation."@,
                constructor: self,
                supports_parameters: true,
            },
            StrategyConstructor::SuspiciousTitForTat => InfoView {
                name: "Suspicious Tit for Tat"@,
                aliases: seq!["suspicioustitfortat"@, "sus_tft"@],
                description: "A strategy that starts with Defect and then mimics the opponent's last move."@,
                constructor: self,
                supports_parameters: false,
            },
            StrategyConstructor::Tester => InfoView {
                name: "Tester"@,
                aliases: seq!["test"@],
                description: "A strategy that tests the opponent's response and then cooperates or defects based on their behavior."@,
                constructor: self,
                supports_parameters: false,
            },
            StrategyConstructor::TitForTat => InfoView {
                name: "Tit for Tat"@,
                aliases: seq!["tft"@, "titfortat"@],
                description: "A strategy that mimics the opponent's last move."@,
                constructor: self,
                supports_parameters: false,
            },
            StrategyConstructor::TitForTwoTats => InfoView {
                name: "Tit for Two Tats"@,
                aliases: seq!["titfortwotats"@, "tf2t"@, "tftt"@],
                description: "Cooperates unless the opponent has defected twice in the last two rounds."@,
                constructor: self,
                supports_parameters: false,
            },
            StrategyConstructor::TwoTitsForTats => InfoView {
                name: "Two Tit For Tats"@,
                aliases: seq!["twotitfortats"@, "2tft"@, "ttft"@],
                description: "Defects twice after being defected against, otherwise cooperates."@,
                constructor: self,
                supports_parameters: false,
            },
            StrategyConstructor::WinStayLoseShift => InfoView {
                name: "Win-Stay, Lose-Shift"@,
                aliases: seq!["winstayloseshift"@, "pavlov"@, "wsls"@],
                description: "A strategy that repeats its last move if both players made the same choice, otherwise switches to the opposite move."@,
                constructor: self,
                supports_parameters: false,
            },
            StrategyConstructor::WinStayLoseShiftAxelrod => InfoView {
                name: "Win-Stay, Lose-Shift (Axelrod's original version)"@,
                aliases: seq!["winstayloseshiftoriginal"@, "pavlovoriginal"@, "wslso"@],
                description: "If the last round's payoff was high (i.e. mutual cooperation or sucker's reward), repeat the same move; otherwise, switch."@,
                constructor: self,
                supports_parameters: false,
            },
        }
    }

    /// The descriptor under which the library offers the strategy.
    pub fn info(self) -> (info: StrategyInfo)
        ensures
            info@ == self.info_spec(),
    {
        match self {
            StrategyConstructor::Adaptive => make_info(
                "Adaptive",
                names1("adp"),
                "Starts with a given sequence, then plays the move (C or D) that has yielded the highest average payoff so far.",
                self,
                true,
            ),
            StrategyConstructor::AlwaysCooperate => make_info(
                "Always Cooperate",
                names3("alwayscooperate", "cooperate", "allc"),
                "A strategy that always cooperates.",
                self,
                false,
            ),
            StrategyConstructor::AlwaysDefect => make_info(
                "Always Defect",
                names3("alwaysdefect", "defect", "alld"),
                "A strategy that always defects.",
                self,
                false,
            ),
            StrategyConstructor::ConfigurableGenerousTitForTat => make_info(
                "Configurable Generous Tit for Tat",
                names3("configurablegeneroustitfortat", "configurable_gtft", "conf_gtft"),
                "A configurable strategy that mimics the opponent's last move, but with a small (configurable) probability of cooperating even after defection.",
                self,
                true,
            ),
            StrategyConstructor::CustomRandom => make_info(
                "Custom Random",
                names2("customrandom", "crand"),
                "Returns Cooperate with a configurable probability, otherwise Defect. When the parameter 'cooperate_probability' is set to 50% (1/2), it behaves like the 'Random' strategy.",
                self,
                true,
            ),
            StrategyConstructor::Cycler => make_info(
                "Cycler",
                names1("cyc"),
                "Repeats a given sequence of C/D moves indefinitely. Sequence is set via parameters.",
                self,
                true,
            ),
            StrategyConstructor::FirmMajority => make_info(
                "Firm Majority",
                names2("firmmajority", "firm"),
                "Defects unless the opponent has cooperated more than 75% of the time.",
                self,
                false,
            ),
            StrategyConstructor::Forgiving => make_info(
                "Forgiving",
                names2("forgives", "forgive"),
                "Defects after a defection, but returns to cooperation after a set number of rounds. Encourages reconciliation.",
                self,
                true,
            ),
            StrategyConstructor::GenerousTitForTat => make_info(
                "Generous Tit for Tat",
                names2("generoustitfortat", "gen_tft"),
                "Cooperates on the first round and after cooperation. After a defection, cooperates with a calculated probability.",
                self,
                false,
            ),
            StrategyConstructor::Gradual => make_info(
                "Gradual",
                names1("grad"),
                "A strategy that retaliates gradually based on the opponent's defections.",
                self,
                false,
            ),
            StrategyConstructor::GradualTitForTat => make_info(
                "Gradual Tit For Tat",
                names2("gradual_tft", "grad_tft"),
                "A strategy that retaliates gradually based on the opponent's defections, then apologizes with two cooperations.",
                self,
                false,
            ),
            StrategyConstructor::GrimTrigger => make_info(
                "Grim Trigger",
                names2("grim", "grimtrigger"),
                "Cooperates until the opponent defects once, then always defects.",
                self,
                false,
            ),
            StrategyConstructor::HardTitForTat => make_info(
                "Hard Tit for Tat",
                names2("hardtitfortat", "h_tft"),
                "A strategy that mimics the opponent's last move. It starts defecting though.",
                self,
                false,
            ),
            StrategyConstructor::ImperfectTitForTat => make_info(
                "ImperfectTitForTat",
                names2("imperfect_tft", "imperfect_tit_for_tat"),
                "Imitates opponent's last move with a given (configurable) probability.",
                self,
                true,
            ),
            StrategyConstructor::LookerUp => make_info(
                "Looker Up",
                names1("lookerup"),
                "Makes decisions based on the last N moves of both players using a predefined lookup table. If no lookup is provided, it defaults to Cooperate.",
                self,
                true,
            ),
            StrategyConstructor::Majority => make_info(
                "Majority",
                names1("majority"),
                "Cooperates as long as the opponent has cooperated more than the provided 'cooperation_threshold' (a share between 0 and 1, 1/4 unless configured) of the time. A threshold of 1/2 makes it the Soft Majority strategy, one of 3/4 the Firm Majority strategy.",
                self,
                true,
            ),
            StrategyConstructor::OmegaTitForTat => make_info(
                "Omega Tit For Tat",
                names2("omega_tft", "otft"),
                "Plays 'Tit for Tat' unless deadlock or randomness thresholds are exceeded. Cooperates to break deadlock, defects unconditionally if randomness threshold is exceeded. Both 'deadlock' and 'randomness' can be passed as params.",
                self,
                true,
            ),
            StrategyConstructor::ProbabilityCooperator => make_info(
                "Probability Cooperator",
                names2("probabilitycooperator", "prob_coop"),
                "Returns Cooperate with a fixed configurable probability, otherwise Defect. When the parameter 'cooperate_probability' is set to 50% (1/2), it behaves like the 'Random' strategy.",
                self,
                true,
            ),
            StrategyConstructor::Random => make_info(
                "Random",
                names1("rand"),
                "Randomly chooses between cooperating and defecting.",
                self,
                false,
            ),
            StrategyConstructor::ReverseTitForTat => make_info(
                "Reverse Tit for Tat",
                names3("reversetitfortat", "bully", "rtft"),
                "Starts by defecting and then does the opposite of opponent's previous move. This is the complete opposite of Tit For Tat.",
                self,
                false,
            ),
            StrategyConstructor::SoftMajority => make_info(
                "Soft Majority",
                names2("softmajority", "soft"),
                "Cooperates if the opponent has cooperated more than half the time.",
                self,
                false,
            ),
            StrategyConstructor::StochasticTitForTat => make_info(
                "Stochastic Tit for Tat",
                names2("stochastictitfortat", "sto_tft"),
                "Like Tit for Tat, but sometimes defects at random (e.g. 10% of the time), even after cooperation.",
                self,
                true,
            ),
            StrategyConstructor::SuspiciousTitForTat => make_info(
                "Suspicious Tit for Tat",
                names2("suspicioustitfortat", "sus_tft"),
                "A strategy that starts with Defect and then mimics the opponent's last move.",
                self,
                false,
            ),
            StrategyConstructor::Tester => make_info(
                "Tester",
                names1("test"),
                "A strategy that tests the opponent's response and then cooperates or defects based on their behavior.",
                self,
                false,
            ),
            StrategyConstructor::TitForTat => make_info(
                "Tit for Tat",
                names2("tft", "titfortat"),
                "A strategy that mimics the opponent's last move.",
                self,
                false,
            ),
            StrategyConstructor::TitForTwoTats => make_info(
                "Tit for Two Tats",
                names3("titfortwotats", "tf2t", "tftt"),
                "Cooperates unless the opponent has defected twice in the last two rounds.",
                self,
                false,
            ),
            StrategyConstructor::TwoTitsForTats => make_info(
                "Two Tit For Tats",
                names3("twotitfortats", "2tft", "ttft"),
                "Defects twice after being defected against, otherwise cooperates.",
                self,
                false,
            ),
            StrategyConstructor::WinStayLoseShift => make_info(
                "Win-Stay, Lose-Shift",
                names3("winstayloseshift", "pavlov", "wsls"),
                "A strategy that repeats its last move if both players made the same choice, otherwise switches to the opposite move.",
                self,
                false,
            ),
            StrategyConstructor::WinStayLoseShiftAxelrod => make_info(
                "Win-Stay, Lose-Shift (Axelrod's original version)",
                names3("winstayloseshiftoriginal", "pavlovoriginal", "wslso"),
                "If the last round's payoff was high (i.e. mutual cooperation or sucker's reward), repeat the same move; otherwise, switch.",
                self,
                false,
            ),
        }
    }

    /// Every strategy of the library, in the order of the standard
    /// catalog.
    pub open spec fn all_spec() -> Seq<StrategyConstructor> {
        seq![
            StrategyConstructor::Adaptive,
            StrategyConstructor::AlwaysCooperate,
            StrategyConstructor::AlwaysDefect,
            StrategyConstructor::ConfigurableGenerousTitForTat,
            StrategyConstructor::CustomRandom,
            StrategyConstructor::Cycler,
            StrategyConstructor::FirmMajority,
            StrategyConstructor::Forgiving,
            StrategyConstructor::GenerousTitForTat,
            StrategyConstructor::Gradual,
            StrategyConstructor::GradualTitForTat,
            StrategyConstructor::GrimTrigger,
            StrategyConstructor::HardTitForTat,
            StrategyConstructor::ImperfectTitForTat,
            StrategyConstructor::LookerUp,
            StrategyConstructor::Majority,
            StrategyConstructor::OmegaTitForTat,
            StrategyConstructor::ProbabilityCooperator,
            StrategyConstructor::Random,
            StrategyConstructor::ReverseTitForTat,
            StrategyConstructor::SoftMajority,
            StrategyConstructor::StochasticTitForTat,
            StrategyConstructor::SuspiciousTitForTat,
            StrategyConstructor::Tester,
            StrategyConstructor::TitForTat,
            StrategyConstructor::TitForTwoTats,
            StrategyConstructor::TwoTitsForTats,
            StrategyConstructor::WinStayLoseShift,
            StrategyConstructor::WinStayLoseShiftAxelrod,
        ]
    }

    /// Every strategy of the library, in the order of the standard
    /// catalog.
    pub fn all() -> (all: Vec<StrategyConstructor>)
        ensures
            all@ == Self::all_spec(),
    {
        let mut all: Vec<StrategyConstructor> = Vec::new();
        all.push(StrategyConstructor::Adaptive);
        all.push(StrategyConstructor::AlwaysCooperate);
        all.push(StrategyConstructor::AlwaysDefect);
        all.push(StrategyConstructor::ConfigurableGenerousTitForTat);
        all.push(StrategyConstructor::CustomRandom);
        all.push(StrategyConstructor::Cycler);
        all.push(StrategyConstructor::FirmMajority);
        all.push(StrategyConstructor::Forgiving);
        all.push(StrategyConstructor::GenerousTitForTat);
        all.push(StrategyConstructor::Gradual);
        all.push(StrategyConstructor::GradualTitForTat);
        all.push(StrategyConstructor::GrimTrigger);
        all.push(StrategyConstructor::HardTitForTat);
        all.push(StrategyConstructor::ImperfectTitForTat);
        all.push(StrategyConstructor::LookerUp);
        all.push(StrategyConstructor::Majority);
        all.push(StrategyConstructor::OmegaTitForTat);
        all.push(StrategyConstructor::ProbabilityCooperator);
        all.push(StrategyConstructor::Random);
        all.push(StrategyConstructor::ReverseTitForTat);
        all.push(StrategyConstructor::SoftMajority);
        all.push(StrategyConstructor::StochasticTitForTat);
        all.push(StrategyConstructor::SuspiciousTitForTat);
        all.push(StrategyConstructor::Tester);
        all.push(StrategyConstructor::TitForTat);
        all.push(StrategyConstructor::TitForTwoTats);
        all.push(StrategyConstructor::TwoTitsForTats);
        all.push(StrategyConstructor::WinStayLoseShift);
        all.push(StrategyConstructor::WinStayLoseShiftAxelrod);
        proof {
            assert(all@ == Self::all_spec());
        }
        all
    }
}

} // verus!
