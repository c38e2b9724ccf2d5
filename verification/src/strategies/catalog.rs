//! The catalog: descriptors in the order of their registration, and the
//! resolution of an identifier to a fresh strategy.

use vstd::prelude::*;
use crate::error::SimulationError;
use crate::params::ParamValue;
use crate::payoff::Move;
use crate::strategies::any::{is_fresh, AnyStrategy, StrategyConstructor};
use crate::strategies::info::{InfoView, StrategyInfo};
use crate::strategy::Strategy;
use crate::text::{lowercase, owned, same_text, to_lowercase};

verus! {

/// The descriptor answers to `key`: the key is the lowercase form of its
/// name or of one of its aliases.
pub open spec fn answers(info: InfoView, key: Seq<char>) -> bool {
    lowercase(info.name) == key || exists|a: int|
        0 <= a < info.aliases.len() && #[trigger] lowercase(info.aliases[a]) == key
}

/// The place of the first descriptor that answers to `key`.
pub open spec fn first_answering(entries: Seq<InfoView>, key: Seq<char>) -> Option<int>
    decreases entries.len(),
{
    if entries.len() == 0 {
        None
    } else {
        match first_answering(entries.drop_last(), key) {
            Some(i) => Some(i),
            None => if answers(entries.last(), key) {
                Some(entries.len() - 1)
            } else {
                None
            },
        }
    }
}

/// The place of the entry that `identifier` resolves to: the first that
/// answers to its lowercase form.
pub open spec fn resolves_to(entries: Seq<InfoView>, identifier: Seq<char>) -> Option<int> {
    first_answering(entries, lowercase(identifier))
}

/// No key is answered by two descriptors.
pub open spec fn distinct(entries: Seq<InfoView>) -> bool {
    forall|i: int, j: int, key: Seq<char>|
        0 <= i < entries.len() && 0 <= j < entries.len() && #[trigger] answers(entries[i], key)
            && #[trigger] answers(entries[j], key) ==> i == j
}

/// Some key of `info` is already answered by one of `entries`.
pub open spec fn clashes(entries: Seq<InfoView>, info: InfoView) -> bool {
    exists|i: int, key: Seq<char>|
        0 <= i < entries.len() && #[trigger] answers(entries[i], key) && answers(info, key)
}

/// The entries after the registration of `info`: it is added at the end,
/// unless it clashes with an entry, in which case nothing changes.
pub open spec fn enrolled(entries: Seq<InfoView>, info: InfoView) -> Seq<InfoView> {
    if clashes(entries, info) {
        entries
    } else {
        entries.push(info)
    }
}

/// The entries after the registration of each of `infos`, in order.
pub open spec fn enrolled_all(entries: Seq<InfoView>, infos: Seq<InfoView>) -> Seq<InfoView>
    decreases infos.len(),
{
    if infos.len() == 0 {
        entries
    } else {
        enrolled(enrolled_all(entries, infos.drop_last()), infos.last())
    }
}

/// The canonical names of the entries, in order.
pub open spec fn names_of(entries: Seq<InfoView>) -> Seq<Seq<char>> {
    Seq::new(entries.len(), |i: int| entries[i].name)
}

/// The descriptors of the standard catalog before registration: one for
/// each strategy of the library.
pub open spec fn standard_infos() -> Seq<InfoView> {
    Seq::new(
        StrategyConstructor::all_spec().len(),
        |i: int| StrategyConstructor::all_spec()[i].info_spec(),
    )
}

/// What a search finds is an entry that answers, and none before it does;
/// what it misses is answered by no entry.
pub proof fn lemma_first_answering(entries: Seq<InfoView>, key: Seq<char>)
    ensures
        match first_answering(entries, key) {
            Some(i) => 0 <= i < entries.len() && answers(entries[i], key) && forall|j: int|
                0 <= j < i ==> !answers(#[trigger] entries[j], key),
            None => forall|j: int| 0 <= j < entries.len() ==> !answers(#[trigger] entries[j], key),
        },
    decreases entries.len(),
{
    if entries.len() > 0 {
        let front = entries.drop_last();
        lemma_first_answering(front, key);
        assert forall|j: int| 0 <= j < front.len() implies front[j] == entries[j] by {}
        match first_answering(front, key) {
            Some(i) => {
                assert(front[i] == entries[i]);
                assert forall|j: int| 0 <= j < i implies !answers(#[trigger] entries[j], key) by {
                    assert(front[j] == entries[j]);
                }
            },
            None => {
                assert forall|j: int| 0 <= j < entries.len() - 1 implies !answers(
                    #[trigger] entries[j],
                    key,
                ) by {
                    assert(front[j] == entries[j]);
                }
            },
        }
    }
}

/// A search on a prefix that finds an entry finds it on the whole.
pub proof fn lemma_first_answering_stable(entries: Seq<InfoView>, key: Seq<char>, n: int)
    requires
        0 <= n <= entries.len(),
        first_answering(entries.take(n), key) is Some,
    ensures
        first_answering(entries, key) == first_answering(entries.take(n), key),
    decreases entries.len() - n,
{
    if n < entries.len() {
        assert(entries.take(n + 1).drop_last() == entries.take(n));
        lemma_first_answering_stable(entries, key, n + 1);
    } else {
        assert(entries.take(n) == entries);
    }
}

/// Resolution is case-insensitive: two identifiers with the same lowercase
/// form resolve to the same entry, or both to none.
pub proof fn lemma_resolution_ignores_case(
    entries: Seq<InfoView>,
    first: Seq<char>,
    second: Seq<char>,
)
    requires
        lowercase(first) == lowercase(second),
    ensures
        resolves_to(entries, first) == resolves_to(entries, second),
{
}

/// Resolution is alias-complete: where no key is answered twice, every
/// identifier that has the lowercase form of the name of an entry, or of
/// one of its aliases, resolves to that entry.
pub proof fn lemma_every_key_resolves(entries: Seq<InfoView>, i: int, identifier: Seq<char>)
    requires
        distinct(entries),
        0 <= i < entries.len(),
        answers(entries[i], lowercase(identifier)),
    ensures
        resolves_to(entries, identifier) == Some(i),
{
    lemma_first_answering(entries, lowercase(identifier));
    match first_answering(entries, lowercase(identifier)) {
        Some(j) => {
            assert(answers(entries[j], lowercase(identifier)));
        },
        None => {
            assert(!answers(entries[i], lowercase(identifier)));
        },
    }
}

/// Every entry is reachable: where no key is answered twice, the name of
/// an entry resolves to it, and so does each of its aliases.
pub proof fn lemma_names_and_aliases_resolve(entries: Seq<InfoView>, i: int, a: int)
    requires
        distinct(entries),
        0 <= i < entries.len(),
    ensures
        resolves_to(entries, entries[i].name) == Some(i),
        0 <= a < entries[i].aliases.len() ==> resolves_to(entries, entries[i].aliases[a]) == Some(
            i,
        ),
{
    lemma_every_key_resolves(entries, i, entries[i].name);
    if 0 <= a < entries[i].aliases.len() {
        let alias = entries[i].aliases[a];
        assert(lowercase(entries[i].aliases[a]) == lowercase(alias));
        lemma_every_key_resolves(entries, i, alias);
    }
}

/// Whether the descriptor answers to `key`.
fn answers_to(info: &StrategyInfo, key: &str) -> (yes: bool)
    ensures
        yes == answers(info@, key@),
{
    let name = to_lowercase(info.name.as_str());
    if same_text(name.as_str(), key) {
        return true;
    }
    let mut a: usize = 0;
    while a < info.aliases.len()
        invariant
            a <= info.aliases@.len(),
            lowercase(info@.name) != key@,
            forall|b: int| 0 <= b < a ==> #[trigger] lowercase(info@.aliases[b]) != key@,
        decreases info.aliases@.len() - a,
    {
        let alias = to_lowercase(info.aliases[a].as_str());
        if same_text(alias.as_str(), key) {
            proof {
                assert(lowercase(info@.aliases[a as int]) == key@);
            }
            return true;
        }
        a += 1;
    }
    false
}

/// The registry of strategies. Its entries stand in the order of their
/// registration. A catalog that is built by the functions of this type
/// never holds two entries that answer to the same key.
#[derive(Debug)]
pub struct Catalog {
    entries: Vec<StrategyInfo>,
}

impl View for Catalog {
    type V = Seq<InfoView>;

    closed spec fn view(&self) -> Seq<InfoView> {
        Seq::new(self.entries@.len(), |i: int| self.entries@[i]@)
    }
}

/// The outcome is the failure to find `identifier`, and lists `names`.
pub open spec fn is_unknown(
    resolved: Result<AnyStrategy, SimulationError>,
    identifier: Seq<char>,
    names: Seq<Seq<char>>,
) -> bool {
    resolved matches Err(SimulationError::UnknownStrategy { requested, known }) && requested@
        == identifier && crate::strategies::info::texts(known@) == names
}

/// The outcome is the refusal to configure the strategy called `name`.
pub open spec fn is_unsupported(
    resolved: Result<AnyStrategy, SimulationError>,
    name: Seq<char>,
) -> bool {
    resolved matches Err(SimulationError::UnsupportedConfiguration { strategy }) && strategy@
        == name
}

/// The outcome is a fresh, unconfigured instance built by `constructor`.
pub open spec fn is_built(
    resolved: Result<AnyStrategy, SimulationError>,
    constructor: StrategyConstructor,
) -> bool {
    resolved matches Ok(made) && is_fresh(constructor, made) && made.valid()
}

/// The outcome passes on what the configuration of `settled` ended in:
/// the instance itself, or the reason of the rejection.
pub open spec fn passes_on(
    resolved: Result<AnyStrategy, SimulationError>,
    settled: AnyStrategy,
    outcome: Result<(), String>,
) -> bool {
    match outcome {
        Ok(_) => resolved == Ok::<AnyStrategy, SimulationError>(settled),
        Err(complaint) => resolved matches Err(SimulationError::InvalidConfiguration { reason })
            && reason == complaint,
    }
}

/// The outcome is what comes of building a fresh instance with
/// `constructor` and configuring it with `params`.
pub open spec fn is_configured(
    resolved: Result<AnyStrategy, SimulationError>,
    constructor: StrategyConstructor,
    params: ParamValue,
) -> bool {
    exists|fresh: AnyStrategy, settled: AnyStrategy, outcome: Result<(), String>|
        {
            &&& is_fresh(constructor, fresh)
            &&& fresh.valid()
            &&& settled.valid()
            &&& #[trigger] AnyStrategy::configures(fresh, params, settled, outcome)
            &&& passes_on(resolved, settled, outcome)
        }
}

/// What resolving `identifier` in `entries` comes to. The first entry
/// that answers to the lowercase form of the identifier decides; a
/// configuration for an entry that supports none is refused before
/// anything is built.
pub open spec fn resolution(
    entries: Seq<InfoView>,
    identifier: Seq<char>,
    configuration: Option<ParamValue>,
    resolved: Result<AnyStrategy, SimulationError>,
) -> bool {
    match resolves_to(entries, identifier) {
        None => is_unknown(resolved, identifier, names_of(entries)),
        Some(i) => match configuration {
            None => is_built(resolved, entries[i].constructor),
            Some(params) => if entries[i].supports_parameters {
                is_configured(resolved, entries[i].constructor, params)
            } else {
                is_unsupported(resolved, entries[i].name)
            },
        },
    }
}

/// A configuration for a strategy whose descriptor supports none is always
/// refused, whatever it holds: the resolution ends in that failure and in
/// no instance.
pub proof fn lemma_unsupported_configuration_is_refused(
    entries: Seq<InfoView>,
    identifier: Seq<char>,
    params: ParamValue,
    resolved: Result<AnyStrategy, SimulationError>,
)
    requires
        resolves_to(entries, identifier) matches Some(i) && !entries[i].supports_parameters,
        resolution(entries, identifier, Some(params), resolved),
    ensures
        resolved is Err,
        resolved->Err_0 is UnsupportedConfiguration,
{
}

/// Two fresh instances of one strategy that decides without chance choose
/// the same move on the same histories: nothing of one instance reaches
/// the other.
pub proof fn lemma_fresh_instances_decide_alike(
    constructor: StrategyConstructor,
    one: AnyStrategy,
    other: AnyStrategy,
    own: Seq<Move>,
    opponent: Seq<Move>,
    one_after: AnyStrategy,
    other_after: AnyStrategy,
    one_chosen: Move,
    other_chosen: Move,
)
    requires
        !constructor.uses_chance(),
        is_fresh(constructor, one),
        is_fresh(constructor, other),
        AnyStrategy::allows(one, own, opponent, one_after, one_chosen),
        AnyStrategy::allows(other, own, opponent, other_after, other_chosen),
    ensures
        one_chosen == other_chosen,
{
}

impl Catalog {
    /// A catalog without entries.
    pub fn new() -> (empty: Catalog)
        ensures
            empty@ == Seq::<InfoView>::empty(),
            distinct(empty@),
    {
        let empty = Catalog { entries: Vec::new() };
        proof {
            assert(empty@ == Seq::<InfoView>::empty());
        }
        empty
    }

    /// The place of the first entry that answers to `key`.
    fn find(&self, key: &str) -> (found: Option<usize>)
        ensures
            match found {
                Some(i) => first_answering(self@, key@) == Some(i as int),
                None => first_answering(self@, key@) is None,
            },
    {
        let mut i: usize = 0;
        proof {
            assert(self@.take(0) == Seq::<InfoView>::empty());
        }
        while i < self.entries.len()
            invariant
                i <= self.entries@.len(),
                self@.len() == self.entries@.len(),
                first_answering(self@.take(i as int), key@) is None,
            decreases self.entries@.len() - i,
        {
            proof {
                assert(self@.take(i + 1).drop_last() == self@.take(i as int));
                assert(self@.take(i + 1).last() == self.entries@[i as int]@);
            }
            if answers_to(&self.entries[i], key) {
                proof {
                    lemma_first_answering_stable(self@, key@, i + 1);
                }
                return Some(i);
            }
            i += 1;
        }
        proof {
            assert(self@.take(i as int) == self@);
        }
        None
    }

    /// Whether some key of `info` is already answered by an entry.
    fn has_clash(&self, info: &StrategyInfo) -> (clash: bool)
        ensures
            clash == clashes(self@, info@),
    {
        let name = to_lowercase(info.name.as_str());
        match self.find(name.as_str()) {
            Some(i) => {
                proof {
                    lemma_first_answering(self@, name@);
                    assert(answers(self@[i as int], name@) && answers(info@, name@));
                }
                return true;
            },
            None => {},
        }
        let mut a: usize = 0;
        while a < info.aliases.len()
            invariant
                a <= info.aliases@.len(),
                first_answering(self@, lowercase(info@.name)) is None,
                forall|b: int|
                    0 <= b < a ==> first_answering(self@, #[trigger] lowercase(info@.aliases[b]))
                        is None,
            decreases info.aliases@.len() - a,
        {
            let alias = to_lowercase(info.aliases[a].as_str());
            match self.find(alias.as_str()) {
                Some(i) => {
                    proof {
                        lemma_first_answering(self@, alias@);
                        assert(lowercase(info@.aliases[a as int]) == alias@);
                        assert(answers(self@[i as int], alias@) && answers(info@, alias@));
                    }
                    return true;
                },
                None => {},
            }
            a += 1;
        }
        proof {
            assert forall|i: int, key: Seq<char>| 0 <= i < self@.len() && #[trigger] answers(
                self@[i],
                key,
            ) implies !answers(info@, key) by {
                lemma_first_answering(self@, key);
                if answers(info@, key) {
                    if lowercase(info@.name) != key {
                        let b = choose|b: int|
                            0 <= b < info@.aliases.len() && #[trigger] lowercase(info@.aliases[b])
                                == key;
                        assert(first_answering(self@, lowercase(info@.aliases[b])) is None);
                    }
                }
            }
        }
        false
    }

    /// Registers a descriptor. It is added after the entries that are
    /// there, unless one of them already answers to its name or to one of
    /// its aliases, whatever the case of the letters: then the catalog
    /// stays as it is.
    pub fn register(&mut self, info: StrategyInfo) -> (added: bool)
        ensures
            final(self)@ == enrolled(old(self)@, info@),
            added == !clashes(old(self)@, info@),
            distinct(old(self)@) ==> distinct(final(self)@),
    {
        if self.has_clash(&info) {
            return false;
        }
        let ghost before = self@;
        let ghost added_view = info@;
        self.entries.push(info);
        proof {
            assert(self@ == before.push(added_view));
            assert forall|i: int, j: int, key: Seq<char>|
                distinct(before) && 0 <= i < self@.len() && 0 <= j < self@.len()
                    && #[trigger] answers(self@[i], key) && #[trigger] answers(
                    self@[j],
                    key,
                ) implies i == j by {
                if i < before.len() && j < before.len() {
                    assert(answers(before[i], key) && answers(before[j], key));
                } else if i < before.len() {
                    assert(answers(before[i], key) && answers(added_view, key));
                } else if j < before.len() {
                    assert(answers(before[j], key) && answers(added_view, key));
                }
            }
        }
        true
    }

    /// The catalog that comes of registering `infos` in order.
    pub fn with_entries(infos: Vec<StrategyInfo>) -> (catalog: Catalog)
        ensures
            catalog@ == enrolled_all(
                Seq::<InfoView>::empty(),
                Seq::new(infos@.len(), |i: int| infos@[i]@),
            ),
            distinct(catalog@),
    {
        let ghost views = Seq::new(infos@.len(), |i: int| infos@[i]@);
        let mut catalog = Catalog::new();
        proof {
            assert(views.take(0) == Seq::<InfoView>::empty());
        }
        for info in iter: infos
            invariant
                iter.seq().len() == views.len(),
                forall|i: int| 0 <= i < views.len() ==> #[trigger] iter.seq()[i]@ == views[i],
                catalog@ == enrolled_all(Seq::<InfoView>::empty(), views.take(iter.index() as int)),
                distinct(catalog@),
        {
            proof {
                let done = iter.index() as int;
                assert(views.take(done + 1).drop_last() == views.take(done));
                assert(views.take(done + 1).last() == views[done]);
            }
            catalog.register(info);
        }
        proof {
            assert(views.take(views.len() as int) == views);
        }
        catalog
    }

    /// The catalog of all strategies of the library, registered in their
    /// standard order.
    pub fn standard() -> (catalog: Catalog)
        ensures
            catalog@ == enrolled_all(Seq::<InfoView>::empty(), standard_infos()),
            distinct(catalog@),
    {
        let constructors = StrategyConstructor::all();
        let mut infos: Vec<StrategyInfo> = Vec::new();
        let mut i: usize = 0;
        while i < constructors.len()
            invariant
                i <= constructors@.len(),
                constructors@ == StrategyConstructor::all_spec(),
                infos@.len() == i,
                forall|j: int| 0 <= j < i ==> #[trigger] infos@[j]@ == constructors@[j].info_spec(),
            decreases constructors@.len() - i,
        {
            infos.push(constructors[i].info());
            i += 1;
        }
        proof {
            assert(Seq::new(infos@.len(), |i: int| infos@[i]@) == standard_infos());
        }
        Catalog::with_entries(infos)
    }

    /// The entries, in the order of their registration.
    pub fn list(&self) -> (entries: &Vec<StrategyInfo>)
        ensures
            entries@.len() == self@.len(),
            forall|i: int| 0 <= i < entries@.len() ==> #[trigger] entries@[i]@ == self@[i],
    {
        &self.entries
    }

    /// The canonical names of the entries, in the order of their
    /// registration.
    pub fn names(&self) -> (names: Vec<String>)
        ensures
            crate::strategies::info::texts(names@) == names_of(self@),
    {
        let mut names: Vec<String> = Vec::new();
        let mut i: usize = 0;
        while i < self.entries.len()
            invariant
                i <= self.entries@.len(),
                names@.len() == i,
                forall|j: int| 0 <= j < i ==> #[trigger] names@[j]@ == self.entries@[j].name@,
            decreases self.entries@.len() - i,
        {
            names.push(self.entries[i].name.clone());
            i += 1;
        }
        proof {
            assert(crate::strategies::info::texts(names@) == names_of(self@));
        }
        names
    }

    /// Resolves an identifier to a fresh instance, configured if a
    /// configuration is given.
    pub fn resolve(&self, identifier: &str, configuration: Option<&ParamValue>) -> (resolved:
        Result<AnyStrategy, SimulationError>)
        ensures
            resolution(
                self@,
                identifier@,
                match configuration {
                    Some(params) => Some(*params),
                    None => None,
                },
                resolved,
            ),
    {
        let key = to_lowercase(identifier);
        let place = match self.find(key.as_str()) {
            Some(i) => i,
            None => {
                return Err(
                    SimulationError::UnknownStrategy {
                        requested: owned(identifier),
                        known: self.names(),
                    },
                );
            },
        };
        proof {
            lemma_first_answering(self@, key@);
        }
        let info = &self.entries[place];
        match configuration {
            None => Ok(info.constructor.build()),
            Some(params) => {
                if !info.supports_parameters {
                    return Err(
                        SimulationError::UnsupportedConfiguration { strategy: info.name.clone() },
                    );
                }
                let mut made = info.constructor.build();
                let ghost fresh = made;
                let outcome = made.set_parameters(params);
                let ghost witnessed = outcome;
                let resolved = match outcome {
                    Ok(_) => Ok(made),
                    Err(reason) => Err(SimulationError::InvalidConfiguration { reason }),
                };
                proof {
                    assert(AnyStrategy::configures(fresh, *params, made, witnessed));
                    assert(passes_on(resolved, made, witnessed));
                }
                resolved
            },
        }
    }
}

/// Resolves an identifier in the standard catalog to a fresh,
/// unconfigured instance.
pub fn create_strategy_by_name(name: &str) -> (resolved: Result<AnyStrategy, SimulationError>)
    ensures
        resolution(
            enrolled_all(Seq::<InfoView>::empty(), standard_infos()),
            name@,
            None,
            resolved,
        ),
{
    Catalog::standard().resolve(name, None)
}

} // verus!
