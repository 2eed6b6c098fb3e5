//! The configuration of a supergraph: its subgraphs, by name, and the
//! federation version it is composed with.
use vstd::prelude::*;

use crate::config::config_error::ConfigError;
use crate::config::subgraph::{
    config_sdl, opt_text, SchemaSource, SchemaSourceView, SubgraphConfig, SubgraphConfigView,
};
use crate::config::version::{FederationVersion, FederationVersionView};
use crate::javascript::SubgraphDefinition;
use crate::keyed::{lemma_seq_model_dom, lemma_seq_model_value, seq_model, sorted_keys, KeyedMap};
use crate::text::{join_seq, text_lt, views};

verus! {

/// What `{:?}` prints for a list of texts (`Debug` of `Vec<String>`).
pub uninterp spec fn debug_text_list(items: Seq<Seq<char>>) -> Seq<char>;

/// A character that `Debug` prints as itself inside a quoted text.
pub open spec fn debug_plain_char(c: char) -> bool {
    ' ' <= c <= '~' && c != '"' && c != '\\'
}

/// A text `Debug` prints as itself between quotes.
pub open spec fn debug_plain_text(t: Seq<char>) -> bool {
    forall|i: int| 0 <= i < t.len() ==> debug_plain_char(#[trigger] t[i])
}

/// Each text between double quotes.
pub open spec fn quoted_all(items: Seq<Seq<char>>) -> Seq<Seq<char>> {
    items.map_values(|t: Seq<char>| "\""@ + t + "\""@)
}

/// Prints a list of texts with `{:?}`.
///
/// Stated of `Debug` for a vector of strings: the result is a function of
/// the texts; where no text needs escaping, it is the quoted texts separated
/// by `, ` between square brackets. How other characters are escaped is left
/// to the named result.
#[verifier::external_body]
pub(crate) fn debug_list(items: &Vec<String>) -> (r: String)
    ensures
        r@ == debug_text_list(views(items@)),
        (forall|i: int| 0 <= i < items@.len() ==> debug_plain_text(#[trigger] items@[i]@)) ==> r@
            == "["@ + join_seq(quoted_all(views(items@)), ", "@) + "]"@,
{
    format!("{:?}", items)
}

/// A subgraph that names its routing URL and gives its schema inline.
pub open spec fn resolved(c: SubgraphConfigView) -> bool {
    config_sdl(c).is_some() && c.routing_url.is_some()
}

/// The names of the subgraphs that are not resolved, in order.
pub open spec fn unresolved_names(es: Seq<(Seq<char>, SubgraphConfigView)>) -> Seq<Seq<char>>
    decreases es.len(),
{
    if es.len() == 0 {
        Seq::empty()
    } else {
        let init = unresolved_names(es.drop_last());
        if resolved(es.last().1) {
            init
        } else {
            init.push(es.last().0)
        }
    }
}

/// The configuration a subgraph ends up with when `other` is merged over
/// `mine`: the other schema, and the other routing URL where it has one.
pub open spec fn merge_one(mine: Option<SubgraphConfigView>, other: SubgraphConfigView) -> SubgraphConfigView {
    match mine {
        Some(m) => SubgraphConfigView {
            routing_url: if other.routing_url.is_some() {
                other.routing_url
            } else {
                m.routing_url
            },
            schema: other.schema,
        },
        None => other,
    }
}

/// The subgraphs after merging the given entries, in order, over `m`.
pub open spec fn merge_entries(
    m: Map<Seq<char>, SubgraphConfigView>,
    es: Seq<(Seq<char>, SubgraphConfigView)>,
) -> Map<Seq<char>, SubgraphConfigView>
    decreases es.len(),
{
    if es.len() == 0 {
        m
    } else {
        let p = merge_entries(m, es.drop_last());
        let k = es.last().0;
        p.insert(
            k,
            merge_one(
                if p.dom().contains(k) {
                    Some(p[k])
                } else {
                    None
                },
                es.last().1,
            ),
        )
    }
}

/// The subgraph configuration that a definition stands for.
pub open spec fn definition_config(d: SubgraphDefinition) -> SubgraphConfigView {
    SubgraphConfigView {
        routing_url: Some(d.url@),
        schema: SchemaSourceView::Sdl { sdl: d.sdl@ },
    }
}

/// The subgraphs that a list of definitions stands for; a later definition
/// of a name overrides an earlier one.
pub open spec fn definitions_model(defs: Seq<SubgraphDefinition>) -> Map<
    Seq<char>,
    SubgraphConfigView,
>
    decreases defs.len(),
{
    if defs.len() == 0 {
        Map::empty()
    } else {
        definitions_model(defs.drop_last()).insert(
            defs.last().name@,
            definition_config(defs.last()),
        )
    }
}

/// Whether `defs` defines the configured subgraphs, in order: each with
/// its name, its routing URL and its inline schema.
pub open spec fn is_definition_list(
    entries: Seq<(Seq<char>, SubgraphConfigView)>,
    defs: Seq<SubgraphDefinition>,
) -> bool {
    &&& defs.len() == entries.len()
    &&& forall|i: int|
        0 <= i < defs.len() ==> (#[trigger] defs[i]).name@ == entries[i].0 && Some(defs[i].url@)
            == entries[i].1.routing_url && Some(defs[i].sdl@) == config_sdl(entries[i].1)
}

/// The configuration of a supergraph.
#[derive(Debug)]
pub struct SupergraphConfig {
    subgraphs: KeyedMap<SubgraphConfig>,
    federation_version: Option<FederationVersion>,
}

/// A supergraph configuration as plain values.
pub struct SupergraphConfigView {
    pub subgraphs: Seq<(Seq<char>, SubgraphConfigView)>,
    pub federation_version: Option<FederationVersionView>,
}

impl View for SupergraphConfig {
    type V = SupergraphConfigView;

    closed spec fn view(&self) -> SupergraphConfigView {
        SupergraphConfigView {
            subgraphs: self.subgraphs.entries(),
            federation_version: match self.federation_version {
                Some(v) => Some(v@),
                None => None,
            },
        }
    }
}

impl SupergraphConfig {
    /// The subgraphs, by name.
    pub closed spec fn subgraph_map(self) -> KeyedMap<SubgraphConfig> {
        self.subgraphs
    }

    /// The federation version asked for.
    pub closed spec fn version(self) -> Option<FederationVersion> {
        self.federation_version
    }

    /// The subgraph entries in name order.
    pub open spec fn entries(self) -> Seq<(Seq<char>, SubgraphConfigView)> {
        self.subgraph_map().entries()
    }

    /// The subgraphs as a map from name to configuration.
    pub open spec fn model(self) -> Map<Seq<char>, SubgraphConfigView> {
        self.subgraph_map().model()
    }

    /// The subgraph names are in order, each once.
    pub open spec fn wf(self) -> bool {
        self.subgraph_map().wf()
    }

    /// A configuration from its subgraphs and federation version.
    pub fn new(
        subgraphs: KeyedMap<SubgraphConfig>,
        federation_version: Option<FederationVersion>,
    ) -> (r: SupergraphConfig)
        ensures
            r.subgraph_map() == subgraphs,
            r.version() == federation_version,
    {
        SupergraphConfig { subgraphs, federation_version }
    }

    /// The definitions of all subgraphs, in name order, if every subgraph
    /// names its routing URL and gives its schema inline; otherwise the
    /// names of those that do not, or that there are no subgraphs.
    pub fn get_subgraph_definitions(&self) -> (r: Result<Vec<SubgraphDefinition>, ConfigError>)
        ensures
            unresolved_names(self.entries()).len() > 0 ==> (r matches Err(
                ConfigError::SubgraphsNotResolved { subgraph_names },
            ) && subgraph_names@ == debug_text_list(unresolved_names(self.entries()))),
            unresolved_names(self.entries()).len() == 0 && self.entries().len() == 0 ==> (
            r matches Err(ConfigError::NoSubgraphsFound)),
            unresolved_names(self.entries()).len() == 0 && self.entries().len() > 0 ==> (
            r matches Ok(defs) && is_definition_list(self.entries(), defs@)),
    {
        let mut subgraph_definitions: Vec<SubgraphDefinition> = Vec::new();
        let mut unresolved_subgraphs: Vec<String> = Vec::new();
        let n = self.subgraphs.len();
        let ghost es = self.entries();
        let mut i: usize = 0;
        while i < n
            invariant
                n == es.len(),
                es == self.entries(),
                i <= n,
                views(unresolved_subgraphs@) == unresolved_names(es.subrange(0, i as int)),
                unresolved_names(es.subrange(0, i as int)).len() == 0 ==> subgraph_definitions@.len()
                    == i,
                unresolved_names(es.subrange(0, i as int)).len() == 0 ==> forall|j: int|
                    0 <= j < i ==> (#[trigger] subgraph_definitions@[j]).name@ == es[j].0
                        && Some(subgraph_definitions@[j].url@) == es[j].1.routing_url && Some(
                        subgraph_definitions@[j].sdl@,
                    ) == config_sdl(es[j].1),
            decreases n - i,
        {
            let name = self.subgraphs.key_at(i);
            let config = self.subgraphs.value_at(i);
            let ghost prefix = es.subrange(0, i as int);
            let ghost next = es.subrange(0, i + 1);
            assert(next.drop_last() =~= prefix);
            assert(next.last() == es[i as int]);
            if let Some(sdl) = config.get_sdl() {
                if let Some(routing_url) = &config.routing_url {
                    subgraph_definitions.push(
                        SubgraphDefinition {
                            name: name.clone(),
                            url: routing_url.clone(),
                            sdl,
                        },
                    );
                } else {
                    unresolved_subgraphs.push(name.clone());
                    assert(views(unresolved_subgraphs@) =~= views(
                        unresolved_subgraphs@.drop_last(),
                    ).push(name@));
                }
            } else {
                unresolved_subgraphs.push(name.clone());
                assert(views(unresolved_subgraphs@) =~= views(
                    unresolved_subgraphs@.drop_last(),
                ).push(name@));
            }
            proof {
                if unresolved_names(next).len() == 0 {
                    assert(unresolved_names(prefix).len() == 0) by {
                        if resolved(es[i as int].1) {
                        } else {
                        }
                    }
                }
            }
            i = i + 1;
        }
        assert(es.subrange(0, n as int) =~= es);
        if unresolved_subgraphs.len() > 0 {
            let names = debug_list(&unresolved_subgraphs);
            Err(ConfigError::SubgraphsNotResolved { subgraph_names: names })
        } else if subgraph_definitions.len() == 0 {
            Err(ConfigError::NoSubgraphsFound)
        } else {
            Ok(subgraph_definitions)
        }
    }

    /// Sets the federation version.
    pub fn set_federation_version(&mut self, federation_version: FederationVersion)
        ensures
            final(self).version() == Some(federation_version),
            final(self).subgraph_map() == old(self).subgraph_map(),
    {
        self.federation_version = Some(federation_version);
    }

    /// The federation version, if one is set.
    pub fn get_federation_version(&self) -> (r: Option<FederationVersion>)
        ensures
            r == self.version(),
    {
        match &self.federation_version {
            Some(v) => Some(v.duplicate()),
            None => None,
        }
    }

    /// Merges the subgraphs of `other` into this configuration; where both
    /// name a subgraph, the other schema is taken, and the other routing URL
    /// where it has one.
    pub fn merge_subgraphs(&mut self, other: &SupergraphConfig)
        requires
            old(self).wf(),
        ensures
            final(self).wf(),
            final(self).model() == merge_entries(old(self).model(), other.entries()),
            final(self).version() == old(self).version(),
    {
        let ghost start = self.model();
        let ghost oes = other.entries();
        let n = other.subgraphs.len();
        let mut i: usize = 0;
        while i < n
            invariant
                n == oes.len(),
                oes == other.entries(),
                i <= n,
                self.wf(),
                self.model() == merge_entries(start, oes.subrange(0, i as int)),
                self.version() == old(self).version(),
            decreases n - i,
        {
            let key = other.subgraphs.key_at(i);
            let other_subgraph = other.subgraphs.value_at(i).duplicate();
            let ghost before = self.model();
            assert(oes.subrange(0, i + 1).drop_last() =~= oes.subrange(0, i as int));
            assert(oes.subrange(0, i + 1).last() == oes[i as int]);
            let merged_subgraph = match self.subgraphs.get(key.as_str()) {
                Some(my_subgraph) => SubgraphConfig {
                    routing_url: match other_subgraph.routing_url {
                        Some(u) => Some(u),
                        None => crate::config::subgraph::duplicate_text(&my_subgraph.routing_url),
                    },
                    schema: other_subgraph.schema,
                },
                None => other_subgraph,
            };
            self.subgraphs.insert(key.clone(), merged_subgraph);
            i = i + 1;
        }
        assert(oes.subrange(0, n as int) =~= oes);
    }

    /// A configuration holding the given definitions, each with its URL and
    /// inline schema, and no federation version; a later definition of a
    /// name replaces an earlier one.
    pub fn from_definitions(input: Vec<SubgraphDefinition>) -> (r: SupergraphConfig)
        ensures
            r.wf(),
            r.model() == definitions_model(input@),
            r.version().is_none(),
    {
        let mut subgraphs: KeyedMap<SubgraphConfig> = KeyedMap::new();
        let mut i: usize = 0;
        while i < input.len()
            invariant
                i <= input.len(),
                subgraphs.wf(),
                subgraphs.model() == definitions_model(input@.subrange(0, i as int)),
            decreases input.len() - i,
        {
            let d = &input[i];
            let config = SubgraphConfig {
                routing_url: Some(d.url.clone()),
                schema: SchemaSource::Sdl { sdl: d.sdl.clone() },
            };
            assert(input@.subrange(0, i + 1).drop_last() =~= input@.subrange(0, i as int));
            subgraphs.insert(d.name.clone(), config);
            i = i + 1;
        }
        assert(input@.subrange(0, input.len() as int) =~= input@);
        SupergraphConfig { subgraphs, federation_version: None }
    }

    /// A configuration holding the given named subgraphs and no federation
    /// version; a later entry for a name replaces an earlier one.
    pub fn from_pairs(input: Vec<(String, SubgraphConfig)>) -> (r: SupergraphConfig)
        ensures
            r.wf(),
            r.model() == seq_model(pair_views(input@)),
            r.version().is_none(),
    {
        let mut subgraphs: KeyedMap<SubgraphConfig> = KeyedMap::new();
        let mut i: usize = 0;
        assert(pair_views(input@.subrange(0, 0)) =~= Seq::<(Seq<char>, SubgraphConfigView)>::empty());
        while i < input.len()
            invariant
                i <= input.len(),
                subgraphs.wf(),
                subgraphs.model() == seq_model(pair_views(input@.subrange(0, i as int))),
            decreases input.len() - i,
        {
            let config = input[i].1.duplicate();
            assert(pair_views(input@.subrange(0, i + 1)).drop_last() =~= pair_views(
                input@.subrange(0, i as int),
            ));
            subgraphs.insert(input[i].0.clone(), config);
            i = i + 1;
        }
        assert(input@.subrange(0, input.len() as int) =~= input@);
        SupergraphConfig { subgraphs, federation_version: None }
    }

    /// The named subgraphs, moved out in name order.
    pub fn into_subgraphs(self) -> (r: Vec<(String, SubgraphConfig)>)
        ensures
            pair_views(r@) == self.entries(),
    {
        let r = self.subgraphs.into_entries();
        assert(pair_views(r@) =~= self.entries());
        r
    }
}

/// The texts and views of named subgraph configurations.
pub open spec fn pair_views(s: Seq<(String, SubgraphConfig)>) -> Seq<(Seq<char>, SubgraphConfigView)> {
    s.map_values(|p: (String, SubgraphConfig)| (p.0@, p.1@))
}

/// Merging entries over `m`: the names are those of both; a name the
/// entries give gets the merge of its old configuration with theirs; any
/// other name keeps its old configuration.
pub proof fn lemma_merge_entries(
    m: Map<Seq<char>, SubgraphConfigView>,
    es: Seq<(Seq<char>, SubgraphConfigView)>,
)
    requires
        sorted_keys(es),
    ensures
        forall|k: Seq<char>|
            #[trigger] merge_entries(m, es).dom().contains(k) <==> (m.dom().contains(k)
                || seq_model(es).dom().contains(k)),
        forall|k: Seq<char>|
            #[trigger] seq_model(es).dom().contains(k) ==> merge_entries(m, es)[k] == merge_one(
                if m.dom().contains(k) {
                    Some(m[k])
                } else {
                    None
                },
                seq_model(es)[k],
            ),
        forall|k: Seq<char>|
            !seq_model(es).dom().contains(k) && #[trigger] m.dom().contains(k) ==> merge_entries(
                m,
                es,
            )[k] == m[k],
    decreases es.len(),
{
    if es.len() > 0 {
        let t = es.drop_last();
        assert(sorted_keys(t)) by {
            assert forall|a: int, b: int| 0 <= a < b < t.len() implies crate::text::text_lt(
                t[a].0,
                t[b].0,
            ) by {
                assert(t[a] == es[a] && t[b] == es[b]);
            }
        }
        lemma_merge_entries(m, t);
        let k0 = es.last().0;
        assert(!seq_model(t).dom().contains(k0)) by {
            crate::keyed::lemma_seq_model_dom(t, k0);
            if seq_model(t).dom().contains(k0) {
                let i = choose|i: int| 0 <= i < t.len() && t[i].0 == k0;
                assert(crate::text::text_lt(es[i].0, es[es.len() - 1].0));
                crate::text::lemma_text_lt_irreflexive(k0);
            }
        }
    }
}

/// Merging the subgraphs of `other` into a configuration gives every
/// subgraph of either; where `other` names a subgraph its schema wins, and
/// its routing URL where it has one; the others are left as they were.
pub proof fn law_merge_subgraphs_other_takes_precedence(
    mine: SupergraphConfig,
    other: SupergraphConfig,
)
    requires
        other.wf(),
    ensures
        forall|k: Seq<char>|
            #[trigger] merge_entries(mine.model(), other.entries()).dom().contains(k) <==> (
            mine.model().dom().contains(k) || other.model().dom().contains(k)),
        forall|k: Seq<char>|
            #[trigger] other.model().dom().contains(k) ==> merge_entries(
                mine.model(),
                other.entries(),
            )[k].schema == other.model()[k].schema,
        forall|k: Seq<char>|
            #[trigger] other.model().dom().contains(k) ==> merge_entries(
                mine.model(),
                other.entries(),
            )[k].routing_url == if other.model()[k].routing_url.is_some() {
                other.model()[k].routing_url
            } else if mine.model().dom().contains(k) {
                mine.model()[k].routing_url
            } else {
                None
            },
        forall|k: Seq<char>|
            !other.model().dom().contains(k) && #[trigger] mine.model().dom().contains(k)
                ==> merge_entries(mine.model(), other.entries())[k] == mine.model()[k],
{
    lemma_merge_entries(mine.model(), other.entries());
}

/// Merging a configuration into itself changes none of its subgraphs.
pub proof fn law_merge_subgraphs_with_itself(c: SupergraphConfig)
    requires
        c.wf(),
    ensures
        merge_entries(c.model(), c.entries()) == c.model(),
{
    lemma_merge_entries(c.model(), c.entries());
    let r = merge_entries(c.model(), c.entries());
    assert forall|k: Seq<char>| r.dom().contains(k) implies r[k] == c.model()[k] by {
        let x = c.model()[k];
        assert(merge_one(Some(x), x) == x);
    }
    assert(r =~= c.model());
}

/// Every subgraph that definitions stand for is one they define: its
/// configuration is that of a definition of its name.
proof fn lemma_definitions_model_values(defs: Seq<SubgraphDefinition>, k: Seq<char>)
    requires
        definitions_model(defs).dom().contains(k),
    ensures
        exists|j: int|
            0 <= j < defs.len() && (#[trigger] defs[j]).name@ == k && definitions_model(defs)[k]
                == definition_config(defs[j]),
    decreases defs.len(),
{
    let last = defs.len() - 1;
    if k == defs[last].name@ {
        assert(defs[last].name@ == k);
    } else {
        lemma_definitions_model_values(defs.drop_last(), k);
        let j = choose|j: int|
            0 <= j < defs.drop_last().len() && (#[trigger] defs.drop_last()[j]).name@ == k
                && definitions_model(defs.drop_last())[k] == definition_config(defs.drop_last()[j]);
        assert(defs[j] == defs.drop_last()[j]);
    }
}

/// The names that definitions stand for are the names they define.
proof fn lemma_definitions_model_dom(defs: Seq<SubgraphDefinition>, k: Seq<char>)
    ensures
        definitions_model(defs).dom().contains(k) <==> exists|j: int|
            0 <= j < defs.len() && (#[trigger] defs[j]).name@ == k,
    decreases defs.len(),
{
    if defs.len() > 0 {
        let t = defs.drop_last();
        lemma_definitions_model_dom(t, k);
        if exists|j: int| 0 <= j < t.len() && (#[trigger] t[j]).name@ == k {
            let j = choose|j: int| 0 <= j < t.len() && (#[trigger] t[j]).name@ == k;
            assert(defs[j] == t[j]);
        }
        if exists|j: int| 0 <= j < defs.len() && (#[trigger] defs[j]).name@ == k {
            let j = choose|j: int| 0 <= j < defs.len() && (#[trigger] defs[j]).name@ == k;
            if j < defs.len() - 1 {
                assert(t[j] == defs[j]);
            }
        }
    }
}

/// Subgraphs none of which is unresolved have no unresolved names.
proof fn lemma_all_resolved(es: Seq<(Seq<char>, SubgraphConfigView)>)
    requires
        forall|i: int| 0 <= i < es.len() ==> resolved(#[trigger] es[i].1),
    ensures
        unresolved_names(es).len() == 0,
    decreases es.len(),
{
    if es.len() > 0 {
        let t = es.drop_last();
        assert forall|i: int| 0 <= i < t.len() implies resolved(#[trigger] t[i].1) by {
            assert(t[i] == es[i]);
        }
        lemma_all_resolved(t);
        assert(resolved(es[es.len() - 1].1));
    }
}

/// A configuration made from at least one definition gives its definitions
/// back: every subgraph in it is resolved and there is at least one, so
/// listing its definitions succeeds; and any list that defines its
/// subgraphs holds, in strictly increasing name order, exactly the names
/// defined, each with the URL and schema of the last definition of that
/// name.
pub proof fn law_definitions_given_back(
    input: Seq<SubgraphDefinition>,
    c: SupergraphConfig,
    out: Seq<SubgraphDefinition>,
)
    requires
        c.wf(),
        c.model() == definitions_model(input),
        input.len() > 0,
        is_definition_list(c.entries(), out),
    ensures
        unresolved_names(c.entries()).len() == 0,
        c.entries().len() > 0,
        forall|i: int, j: int| 0 <= i < j < out.len() ==> text_lt(#[trigger] out[i].name@, #[trigger] out[j].name@),
        forall|i: int|
            0 <= i < out.len() ==> definitions_model(input).dom().contains(#[trigger] out[i].name@)
                && definitions_model(input)[out[i].name@] == definition_config(out[i]),
        forall|j: int|
            0 <= j < input.len() ==> exists|i: int| 0 <= i < out.len() && (#[trigger] out[i]).name@ == (#[trigger] input[j]).name@,
{
    let es = c.entries();
    assert forall|i: int| 0 <= i < es.len() implies resolved(#[trigger] es[i].1) && es[i].1 == definitions_model(input)[es[i].0] by {
        lemma_seq_model_value(es, i);
        lemma_definitions_model_values(input, es[i].0);
    }
    lemma_all_resolved(es);
    let last = input[input.len() - 1];
    assert(definitions_model(input).dom().contains(last.name@));
    lemma_seq_model_dom(es, last.name@);
    assert forall|i: int, j: int| 0 <= i < j < out.len() implies text_lt(#[trigger] out[i].name@, #[trigger] out[j].name@) by {
        assert(text_lt(es[i].0, es[j].0));
    }
    assert forall|i: int| 0 <= i < out.len() implies definitions_model(input).dom().contains(#[trigger] out[i].name@)
        && definitions_model(input)[out[i].name@] == definition_config(out[i]) by {
        lemma_seq_model_value(es, i);
        lemma_definitions_model_values(input, es[i].0);
        assert(es[i].1.schema == SchemaSourceView::Sdl { sdl: out[i].sdl@ });
    }
    assert forall|j: int| 0 <= j < input.len() implies exists|i: int| 0 <= i < out.len() && (#[trigger] out[i]).name@ == (#[trigger] input[j]).name@ by {
        lemma_definitions_model_dom(input, input[j].name@);
        lemma_seq_model_dom(es, input[j].name@);
        let i = choose|i: int| 0 <= i < es.len() && es[i].0 == input[j].name@;
        assert(out[i].name@ == input[j].name@);
    }
}

/// No two definitions share a name.
pub open spec fn distinct_names(defs: Seq<SubgraphDefinition>) -> bool {
    forall|i: int, j: int| 0 <= i < j < defs.len() ==> (#[trigger] defs[i]).name@ != (#[trigger] defs[j]).name@
}

/// Whether two definitions have the same name, URL and schema.
pub open spec fn same_definition(a: SubgraphDefinition, b: SubgraphDefinition) -> bool {
    a.name@ == b.name@ && a.url@ == b.url@ && a.sdl@ == b.sdl@
}

/// A configuration made from definitions with distinct names gives them all
/// back, sorted by name: any list that defines its subgraphs has as many
/// definitions as were given, in strictly increasing name order, each equal
/// to one that was given.
pub proof fn law_distinct_definitions_given_back_sorted(
    input: Seq<SubgraphDefinition>,
    c: SupergraphConfig,
    out: Seq<SubgraphDefinition>,
)
    requires
        c.wf(),
        c.model() == definitions_model(input),
        input.len() > 0,
        distinct_names(input),
        is_definition_list(c.entries(), out),
    ensures
        out.len() == input.len(),
        forall|i: int, j: int| 0 <= i < j < out.len() ==> text_lt(#[trigger] out[i].name@, #[trigger] out[j].name@),
        forall|i: int|
            0 <= i < out.len() ==> exists|j: int| 0 <= j < input.len() && same_definition(#[trigger] out[i], input[j]),
{
    law_definitions_given_back(input, c, out);
    let on = out.map_values(|d: SubgraphDefinition| d.name@);
    let inn = input.map_values(|d: SubgraphDefinition| d.name@);
    assert(on.no_duplicates()) by {
        assert forall|i: int, j: int| 0 <= i < on.len() && 0 <= j < on.len() && i != j implies on[i] != on[j] by {
            if i < j {
                assert(text_lt(out[i].name@, out[j].name@));
                crate::text::lemma_text_lt_irreflexive(out[i].name@);
            } else {
                assert(text_lt(out[j].name@, out[i].name@));
                crate::text::lemma_text_lt_irreflexive(out[j].name@);
            }
        }
    }
    assert(inn.no_duplicates()) by {
        assert forall|i: int, j: int| 0 <= i < inn.len() && 0 <= j < inn.len() && i != j implies inn[i] != inn[j] by {
            if i < j {
                assert(input[i].name@ != input[j].name@);
            } else {
                assert(input[j].name@ != input[i].name@);
            }
        }
    }
    assert forall|i: int| 0 <= i < out.len() implies exists|j: int| 0 <= j < input.len() && same_definition(#[trigger] out[i], input[j]) by {
        let k = out[i].name@;
        lemma_definitions_model_values(input, k);
        let j = choose|j: int|
            0 <= j < input.len() && (#[trigger] input[j]).name@ == k && definitions_model(input)[k]
                == definition_config(input[j]);
        assert(definition_config(out[i]) == definition_config(input[j]));
        assert(same_definition(out[i], input[j]));
    }
    assert(on.to_set() =~= inn.to_set()) by {
        assert forall|k: Seq<char>| on.to_set().contains(k) implies inn.to_set().contains(k) by {
            let i = choose|i: int| 0 <= i < on.len() && on[i] == k;
            let j = choose|j: int| 0 <= j < input.len() && same_definition(out[i], input[j]);
            assert(inn[j] == k);
        }
        assert forall|k: Seq<char>| inn.to_set().contains(k) implies on.to_set().contains(k) by {
            let j = choose|j: int| 0 <= j < inn.len() && inn[j] == k;
            assert(exists|i: int| 0 <= i < out.len() && (#[trigger] out[i]).name@ == input[j].name@);
            let i = choose|i: int| 0 <= i < out.len() && (#[trigger] out[i]).name@ == input[j].name@;
            assert(on[i] == k);
        }
    }
    on.unique_seq_to_set();
    inn.unique_seq_to_set();
}

/// A subgraph that is not resolved is listed among the unresolved names.
proof fn lemma_unresolved_listed(es: Seq<(Seq<char>, SubgraphConfigView)>, i: int)
    requires
        0 <= i < es.len(),
        !resolved(es[i].1),
    ensures
        unresolved_names(es).contains(es[i].0),
    decreases es.len(),
{
    let t = es.drop_last();
    if i == es.len() - 1 {
        assert(unresolved_names(es) == unresolved_names(t).push(es[i].0));
        assert(unresolved_names(es)[unresolved_names(t).len() as int] == es[i].0);
    } else {
        assert(t[i] == es[i]);
        lemma_unresolved_listed(t, i);
        let k = choose|k: int| 0 <= k < unresolved_names(t).len() && unresolved_names(t)[k] == es[i].0;
        if !resolved(es.last().1) {
            assert(unresolved_names(es)[k] == es[i].0);
        }
    }
}

/// Only inline schema text resolves a subgraph. A subgraph whose schema
/// comes from a file, from introspection or from the registry, or that
/// names no routing URL, is listed among the unresolved subgraphs, so no
/// definitions are given for the configuration; there are no unresolved
/// subgraphs exactly when every subgraph has an inline schema and a routing
/// URL; and every listed definition carries its subgraph's name, routing URL
/// and inline schema text.
pub proof fn law_only_inline_schemas_resolve(
    es: Seq<(Seq<char>, SubgraphConfigView)>,
    defs: Seq<SubgraphDefinition>,
)
    ensures
        forall|i: int|
            0 <= i < es.len() && !((#[trigger] es[i]).1.schema is Sdl && es[i].1.routing_url is Some)
                ==> unresolved_names(es).contains(es[i].0),
        unresolved_names(es).len() == 0 <==> (forall|i: int|
            0 <= i < es.len() ==> ((#[trigger] es[i]).1.schema is Sdl) && (es[i].1.routing_url is Some)),
        is_definition_list(es, defs) ==> (forall|i: int|
            0 <= i < defs.len() ==> (#[trigger] es[i]).1.schema == (SchemaSourceView::Sdl {
                sdl: defs[i].sdl@,
            }) && es[i].1.routing_url == Some(defs[i].url@) && es[i].0 == defs[i].name@),
{
    assert forall|i: int|
        0 <= i < es.len() && !((#[trigger] es[i]).1.schema is Sdl && es[i].1.routing_url is Some)
            implies unresolved_names(es).contains(es[i].0) by {
        lemma_unresolved_listed(es, i);
    }
    if forall|i: int| 0 <= i < es.len() ==> (#[trigger] es[i]).1.schema is Sdl && es[i].1.routing_url is Some {
        assert forall|i: int| 0 <= i < es.len() implies resolved(#[trigger] es[i].1) by {
            assert(es[i].1.schema is Sdl);
        }
        lemma_all_resolved(es);
    }
    if unresolved_names(es).len() == 0 {
        assert forall|i: int| 0 <= i < es.len() implies (#[trigger] es[i]).1.schema is Sdl && es[i].1.routing_url is Some by {
            if !(es[i].1.schema is Sdl && es[i].1.routing_url is Some) {
                lemma_unresolved_listed(es, i);
            }
        }
    }
    if is_definition_list(es, defs) {
        assert forall|i: int| 0 <= i < defs.len() implies (#[trigger] es[i]).1.schema == (SchemaSourceView::Sdl {
            sdl: defs[i].sdl@,
        }) && es[i].1.routing_url == Some(defs[i].url@) && es[i].0 == defs[i].name@ by {
            assert(Some(defs[i].sdl@) == config_sdl(es[i].1));
        }
    }
}

} // verus!
