use iterated_prisoners_dilemma::error::SimulationError;
use iterated_prisoners_dilemma::params::ParamValue;
use iterated_prisoners_dilemma::strategies::{
    create_strategy_by_name, AnyStrategy, Catalog, StrategyConstructor, StrategyInfo,
};
use iterated_prisoners_dilemma::{Move, Strategy};

const C: Move = Move::Cooperate;
const D: Move = Move::Defect;

fn info(name: &str, aliases: &[&str], constructor: StrategyConstructor, supports: bool) -> StrategyInfo {
    StrategyInfo {
        name: name.to_string(),
        aliases: aliases.iter().map(|a| a.to_string()).collect(),
        description: format!("{} for a test", name),
        constructor,
        supports_parameters: supports,
    }
}

fn record(entries: Vec<(&str, ParamValue)>) -> ParamValue {
    ParamValue::Record(entries.into_iter().map(|(k, v)| (k.to_string(), v)).collect())
}

#[test]
fn standard_catalog_holds_every_strategy_once() {
    let catalog = Catalog::standard();
    let listed = catalog.list();
    assert_eq!(listed.len(), 29);
    let constructors: Vec<StrategyConstructor> = listed.iter().map(|i| i.constructor).collect();
    assert_eq!(constructors, StrategyConstructor::all());
    assert_eq!(listed[0].name, "Adaptive");
    assert_eq!(listed[24].name, "Tit for Tat");
    assert_eq!(listed[28].name, "Win-Stay, Lose-Shift (Axelrod's original version)");
}

#[test]
fn every_name_and_alias_resolves_to_its_own_entry() {
    let catalog = Catalog::standard();
    for entry in catalog.list() {
        let mut keys = vec![entry.name.clone()];
        keys.extend(entry.aliases.iter().cloned());
        for key in keys {
            for spelling in [key.clone(), key.to_uppercase(), key.to_lowercase()] {
                let made = catalog.resolve(&spelling, None).unwrap();
                assert_eq!(made.constructor(), entry.constructor, "{}", spelling);
            }
        }
    }
}

#[test]
fn resolution_ignores_case_and_knows_aliases() {
    let catalog = Catalog::standard();
    let mut instances: Vec<AnyStrategy> = Vec::new();
    for spelling in ["tit for tat", "TFT", "TitForTat", "Tit For Tat", "tFt"] {
        instances.push(catalog.resolve(spelling, None).unwrap());
    }
    let histories: [(&[Move], &[Move]); 4] =
        [(&[], &[]), (&[C], &[D]), (&[C, D], &[D, C]), (&[C, D, C], &[D, D, D])];
    for instance in instances.iter_mut() {
        assert_eq!(instance.constructor(), StrategyConstructor::TitForTat);
        assert_eq!(instance.describe(), "Tit for Tat");
        let moves: Vec<Move> = histories.iter().map(|(own, opp)| instance.next_move(own, opp)).collect();
        assert_eq!(moves, vec![C, D, C, D]);
    }
}

#[test]
fn unknown_identifier_lists_the_known_names() {
    let catalog = Catalog::standard();
    match catalog.resolve("no such strategy", None) {
        Err(SimulationError::UnknownStrategy { requested, known }) => {
            assert_eq!(requested, "no such strategy");
            let names: Vec<String> = catalog.list().iter().map(|i| i.name.clone()).collect();
            assert_eq!(known, names);
            assert_eq!(known.len(), 29);
        },
        other => panic!("unexpected outcome: {:?}", other),
    }
    let failure = catalog.resolve("nope", None).unwrap_err();
    let message = failure.message();
    assert!(message.starts_with("Unknown strategy: 'nope'. Available strategies are: Adaptive, Always Cooperate, Always Defect, "));
    assert!(message.ends_with(", Win-Stay, Lose-Shift, Win-Stay, Lose-Shift (Axelrod's original version)"));
}

#[test]
fn unknown_identifier_in_a_small_catalog() {
    let mut catalog = Catalog::new();
    assert!(catalog.register(info("One", &["1"], StrategyConstructor::TitForTat, false)));
    assert!(catalog.register(info("Two", &[], StrategyConstructor::AlwaysDefect, false)));
    let failure = catalog.resolve("three", None).unwrap_err();
    assert_eq!(failure.message(), "Unknown strategy: 'three'. Available strategies are: One, Two");
    let empty = Catalog::new();
    assert_eq!(
        empty.resolve("x", None).unwrap_err().message(),
        "Unknown strategy: 'x'. Available strategies are: "
    );
}

#[test]
fn configuration_is_refused_where_none_is_supported() {
    let catalog = Catalog::standard();
    let params = record(vec![("anything", ParamValue::Unsigned(1))]);
    for name in ["Always Cooperate", "allc", "Tit for Tat", "grim", "Random", "Tester"] {
        match catalog.resolve(name, Some(&params)) {
            Err(SimulationError::UnsupportedConfiguration { strategy }) => {
                let canonical = catalog.resolve(name, None).unwrap().constructor().info().name;
                assert_eq!(strategy, canonical);
            },
            other => panic!("unexpected outcome for {}: {:?}", name, other),
        }
    }
    let empty = ParamValue::Record(vec![]);
    let failure = catalog.resolve("Always Cooperate", Some(&empty)).unwrap_err();
    assert!(matches!(failure, SimulationError::UnsupportedConfiguration { .. }));
    assert_eq!(failure.message(), "Strategy 'Always Cooperate' does not accept parameters");
    assert!(matches!(
        catalog.resolve("Always Cooperate", Some(&ParamValue::Null)),
        Err(SimulationError::UnsupportedConfiguration { .. })
    ));
}

#[test]
fn unknown_identifier_wins_over_unsupported_configuration() {
    let catalog = Catalog::standard();
    let params = ParamValue::Record(vec![]);
    assert!(matches!(
        catalog.resolve("nobody", Some(&params)),
        Err(SimulationError::UnknownStrategy { .. })
    ));
}

#[test]
fn configuration_is_applied_on_resolution() {
    let catalog = Catalog::standard();
    let params = record(vec![("sequence", ParamValue::Text("CDD".to_string()))]);
    let mut cycler = catalog.resolve("cyc", Some(&params)).unwrap();
    let moves: Vec<Move> = (0..7).map(|_| cycler.next_move(&[], &[])).collect();
    assert_eq!(moves, vec![C, D, D, C, D, D, C]);
    let params = record(vec![("forgiveness_threshold", ParamValue::Unsigned(7))]);
    let forgiving = catalog.resolve("Forgiving", Some(&params)).unwrap();
    assert_eq!(forgiving.describe(), "Forgiving (forgives after 7 rounds)");
}

#[test]
fn invalid_configuration_is_reported_with_its_reason() {
    let catalog = Catalog::standard();
    let params = record(vec![("sequence", ParamValue::Text("CXD".to_string()))]);
    match catalog.resolve("Cycler", Some(&params)) {
        Err(SimulationError::InvalidConfiguration { reason }) => {
            assert_eq!(reason, "Invalid character in sequence: X");
        },
        other => panic!("unexpected outcome: {:?}", other),
    }
    let params = record(vec![(
        "cooperate_probability",
        ParamValue::Fraction { numerator: 3, denominator: 2 },
    )]);
    let failure = catalog.resolve("Custom Random", Some(&params)).unwrap_err();
    assert!(matches!(failure, SimulationError::InvalidConfiguration { .. }));
    assert_eq!(
        failure.message(),
        "Invalid parameters. Expected 'cooperate_probability' as a number between 0 and 1"
    );
}

#[test]
fn resolving_twice_gives_independent_instances() {
    let catalog = Catalog::standard();
    let mut first = catalog.resolve("Grim Trigger", None).unwrap();
    let mut second = catalog.resolve("Grim Trigger", None).unwrap();
    // the first one meets a defector, the second one does not
    assert_eq!(first.next_move(&[], &[]), C);
    assert_eq!(second.next_move(&[], &[]), C);
    assert_eq!(first.next_move(&[C], &[D]), D);
    assert_eq!(second.next_move(&[C], &[C]), C);
    // on the same input they now differ, each by its own past alone
    assert_eq!(first.next_move(&[C, D], &[C, C]), D);
    assert_eq!(second.next_move(&[C, D], &[C, C]), C);
    // a third resolution is fresh again
    let mut third = catalog.resolve("grim", None).unwrap();
    assert_eq!(third.next_move(&[C, D], &[C, C]), C);
}

#[test]
fn resolving_twice_gives_independent_configurations() {
    let catalog = Catalog::standard();
    let params = record(vec![("sequence", ParamValue::Text("DC".to_string()))]);
    let mut configured = catalog.resolve("Cycler", Some(&params)).unwrap();
    let mut plain = catalog.resolve("Cycler", None).unwrap();
    assert_eq!(configured.next_move(&[], &[]), D);
    assert_eq!(plain.next_move(&[], &[]), C);
    assert_eq!(configured.next_move(&[], &[]), C);
    assert_eq!(plain.next_move(&[], &[]), C);
    assert_eq!(configured.next_move(&[], &[]), D);
}

#[test]
fn register_keeps_the_order_of_registration() {
    let mut catalog = Catalog::new();
    assert!(catalog.list().is_empty());
    assert!(catalog.register(info("Zeta", &["z"], StrategyConstructor::AlwaysDefect, false)));
    assert!(catalog.register(info("Alpha", &["a"], StrategyConstructor::AlwaysCooperate, false)));
    assert!(catalog.register(info("Mid", &["m", "middle"], StrategyConstructor::Cycler, true)));
    let names: Vec<&str> = catalog.list().iter().map(|i| i.name.as_str()).collect();
    assert_eq!(names, vec!["Zeta", "Alpha", "Mid"]);
    assert_eq!(catalog.names(), vec!["Zeta".to_string(), "Alpha".to_string(), "Mid".to_string()]);
    assert_eq!(catalog.resolve("MIDDLE", None).unwrap().constructor(), StrategyConstructor::Cycler);
}

#[test]
fn register_is_idempotent_and_refuses_clashes() {
    let mut catalog = Catalog::new();
    assert!(catalog.register(info("Echo", &["e", "copy"], StrategyConstructor::TitForTat, false)));
    // the same descriptor again
    assert!(!catalog.register(info("Echo", &["e", "copy"], StrategyConstructor::TitForTat, false)));
    // a name that is an alias of an entry, in another case
    assert!(!catalog.register(info("COPY", &[], StrategyConstructor::AlwaysDefect, false)));
    // an alias that is the name of an entry
    assert!(!catalog.register(info("Other", &["x", "echo"], StrategyConstructor::AlwaysDefect, false)));
    assert_eq!(catalog.list().len(), 1);
    assert_eq!(catalog.resolve("copy", None).unwrap().constructor(), StrategyConstructor::TitForTat);
    // an alias may repeat the name of its own descriptor
    assert!(catalog.register(info("Solo", &["solo", "SOLO"], StrategyConstructor::AlwaysDefect, false)));
    assert_eq!(catalog.list().len(), 2);
}

#[test]
fn with_entries_registers_in_order() {
    let catalog = Catalog::with_entries(vec![
        info("First", &["one"], StrategyConstructor::TitForTat, false),
        info("Second", &["ONE"], StrategyConstructor::AlwaysDefect, false),
        info("Third", &["three"], StrategyConstructor::GrimTrigger, false),
    ]);
    let names: Vec<&str> = catalog.list().iter().map(|i| i.name.as_str()).collect();
    assert_eq!(names, vec!["First", "Third"]);
    assert_eq!(catalog.resolve("one", None).unwrap().constructor(), StrategyConstructor::TitForTat);
}

#[test]
fn descriptor_flag_decides_on_configuration() {
    let mut catalog = Catalog::new();
    catalog.register(info("Open", &[], StrategyConstructor::AlwaysCooperate, true));
    catalog.register(info("Closed", &[], StrategyConstructor::Cycler, false));
    let params = record(vec![("sequence", ParamValue::Text("D".to_string()))]);
    // a strategy without parameters accepts anything where its descriptor says so
    assert!(catalog.resolve("open", Some(&params)).is_ok());
    assert!(matches!(
        catalog.resolve("closed", Some(&params)),
        Err(SimulationError::UnsupportedConfiguration { .. })
    ));
}

#[test]
fn summary_of_a_descriptor() {
    let tft = StrategyConstructor::TitForTat.info();
    assert_eq!(
        tft.summary(),
        "Tit for Tat: A strategy that mimics the opponent's last move. (Aliases: [\"tft\", \"titfortat\"])"
    );
    let adaptive = StrategyConstructor::Adaptive.info();
    assert!(adaptive.summary().ends_with(" (Aliases: [\"adp\"])"));
    assert!(adaptive.supports_parameters);
    let bare = info("Bare", &[], StrategyConstructor::Random, false);
    assert_eq!(bare.summary(), "Bare: Bare for a test (Aliases: [])");
    let three = StrategyConstructor::AlwaysCooperate.info();
    assert!(three.summary().ends_with("(Aliases: [\"alwayscooperate\", \"cooperate\", \"allc\"])"));
}

#[test]
fn standard_descriptors_say_which_strategies_take_parameters() {
    let expected = [
        "Adaptive",
        "Configurable Generous Tit for Tat",
        "Custom Random",
        "Cycler",
        "Forgiving",
        "ImperfectTitForTat",
        "Looker Up",
        "Majority",
        "Omega Tit For Tat",
        "Probability Cooperator",
        "Stochastic Tit for Tat",
    ];
    let catalog = Catalog::standard();
    let configurable: Vec<&str> = catalog
        .list()
        .iter()
        .filter(|i| i.supports_parameters)
        .map(|i| i.name.as_str())
        .collect();
    assert_eq!(configurable, expected.to_vec());
}

#[test]
fn create_strategy_by_name_uses_the_standard_catalog() {
    let mut pavlov = create_strategy_by_name("PAVLOV").unwrap();
    assert_eq!(pavlov.constructor(), StrategyConstructor::WinStayLoseShift);
    assert_eq!(pavlov.next_move(&[C], &[D]), D);
    let failure = create_strategy_by_name("Pavlova").unwrap_err();
    assert!(matches!(failure, SimulationError::UnknownStrategy { .. }));
    // case folding is that of the whole of Unicode: the Kelvin sign folds to k
    let looker = create_strategy_by_name("Loo\u{212A}er Up").unwrap();
    assert_eq!(looker.constructor(), StrategyConstructor::LookerUp);
}

#[test]
fn fresh_instances_start_from_the_same_state() {
    for constructor in StrategyConstructor::all() {
        let mut one = constructor.build();
        let mut other = constructor.build();
        assert_eq!(one.constructor(), constructor);
        assert_eq!(one.describe(), other.describe());
        // before the first round nothing is left to chance but in the coins
        let chance = matches!(
            constructor,
            StrategyConstructor::Random
                | StrategyConstructor::CustomRandom
                | StrategyConstructor::ProbabilityCooperator
        );
        if !chance {
            assert_eq!(one.next_move(&[], &[]), other.next_move(&[], &[]), "{:?}", constructor);
        }
    }
}

#[test]
fn error_messages() {
    assert_eq!(SimulationError::InvalidRoundCount.message(), "Iterations should be > 0");
    assert_eq!(
        SimulationError::InvalidConfiguration { reason: "too large".to_string() }.message(),
        "too large"
    );
    assert_eq!(
        SimulationError::UnknownStrategy { requested: "q".to_string(), known: vec!["A".to_string()] }.message(),
        "Unknown strategy: 'q'. Available strategies are: A"
    );
}
