//! The registry of rules, in registration order, one rule per identifier.
use vstd::prelude::*;
use vstd::string::StringExecFns;
use indexmap::IndexMap;
use crate::analysis::error::CoreError;
use crate::analysis::rule::Rule;
use crate::analysis::rule_id::RuleId;

verus! {

#[verifier::external_type_specification]
#[verifier::external_body]
#[verifier::reject_recursive_types(K)]
#[verifier::reject_recursive_types(V)]
#[verifier::reject_recursive_types(S)]
pub struct ExIndexMap<K, V, S>(IndexMap<K, V, S>);

/// The keys of a map of rules, in the map's order.
pub uninterp spec fn rule_keys(m: IndexMap<String, Box<dyn Rule>>) -> Seq<Seq<char>>;

/// The identifiers (`Rule::spec_id`) of the rules a map holds as values, in
/// the map's order: the i-th is that of the value stored under the i-th key.
pub uninterp spec fn rule_value_ids(m: IndexMap<String, Box<dyn Rule>>) -> Seq<Seq<char>>;

/// `IndexMap::new`: an empty map.
#[verifier::external_body]
fn map_new() -> (r: IndexMap<String, Box<dyn Rule>>)
    ensures
        rule_keys(r) == Seq::<Seq<char>>::empty(),
        rule_value_ids(r) == Seq::<Seq<char>>::empty(),
{
    IndexMap::new()
}

/// `IndexMap::contains_key`: whether an equal key is in the map.
#[verifier::external_body]
fn map_contains_key(m: &IndexMap<String, Box<dyn Rule>>, key: &String) -> (r: bool)
    ensures
        r == rule_keys(*m).contains(key@),
{
    m.contains_key(key)
}

/// `IndexMap::insert` of a key the map does not hold, given as a pair: the
/// pair goes last.
#[verifier::external_body]
fn map_insert_new(m: &mut IndexMap<String, Box<dyn Rule>>, entry: (String, Box<dyn Rule>))
    requires
        !rule_keys(*old(m)).contains(entry.0@),
    ensures
        rule_keys(*final(m)) == rule_keys(*old(m)).push(entry.0@),
        rule_value_ids(*final(m)) == rule_value_ids(*old(m)).push(entry.1.spec_id()),
{
    m.insert(entry.0, entry.1);
}

/// `IndexMap::get`: the value stored for an equal key, if any, as a
/// reference to the rule.
#[verifier::external_body]
fn map_get<'a>(m: &'a IndexMap<String, Box<dyn Rule>>, key: &String) -> (r: Option<&'a dyn Rule>)
    ensures
        r is Some == rule_keys(*m).contains(key@),
        r matches Some(v) ==> exists|i: int| 0 <= i < rule_keys(*m).len() && rule_keys(*m)[i] == key@
            && v.spec_id() == rule_value_ids(*m)[i],
{
    m.get(key).map(|b| &**b)
}

/// `IndexMap::values`, collected: the values in the map's order, one per key.
#[verifier::external_body]
fn map_values<'a>(m: &'a IndexMap<String, Box<dyn Rule>>) -> (r: Vec<&'a dyn Rule>)
    ensures
        r@.len() == rule_keys(*m).len(),
        forall|i: int| 0 <= i < r@.len() ==> #[trigger] r@[i].spec_id() == rule_value_ids(*m)[i],
{
    m.values().map(|b| &**b).collect()
}

/// `IndexMap::len`: the number of pairs.
#[verifier::external_body]
fn map_len(m: &IndexMap<String, Box<dyn Rule>>) -> (r: usize)
    ensures
        r == rule_keys(*m).len(),
{
    m.len()
}

/// The rules of a scan, keyed by their identifiers.
pub struct RuleRegistry {
    rules: IndexMap<String, Box<dyn Rule>>,
}

impl RuleRegistry {
    /// Each rule is stored under the identifier it reports.
    #[verifier::type_invariant]
    closed spec fn keyed_by_id(&self) -> bool {
        rule_value_ids(self.rules) == rule_keys(self.rules)
    }

    /// The identifiers of the registered rules, in registration order; the
    /// i-th registered rule reports the i-th identifier.
    pub closed spec fn ids(&self) -> Seq<Seq<char>> {
        rule_keys(self.rules)
    }

    /// An empty registry.
    pub fn new() -> (r: RuleRegistry)
        ensures
            r.ids() == Seq::<Seq<char>>::empty(),
    {
        RuleRegistry { rules: map_new() }
    }

    /// Registers a rule under the identifier it reports: refused, leaving the
    /// registry as it was, when that identifier is taken; else it goes last.
    pub fn register(&mut self, rule: Box<dyn Rule>) -> (r: Result<(), CoreError>)
        ensures
            match r {
                Ok(()) => !old(self).ids().contains(rule.spec_id())
                    && final(self).ids() == old(self).ids().push(rule.spec_id()),
                Err(e) => e matches CoreError::DuplicateRule(id) && id@ == rule.spec_id()
                    && old(self).ids().contains(id@) && final(self).ids() == old(self).ids(),
            },
    {
        proof {
            use_type_invariant(&*self);
        }
        let id = rule.id();
        let key = String::from_str(id.as_str());
        if map_contains_key(&self.rules, &key) {
            return Err(CoreError::DuplicateRule(id));
        }
        let entry = (key, rule);
        let mut rules = map_new();
        std::mem::swap(&mut rules, &mut self.rules);
        map_insert_new(&mut rules, entry);
        self.rules = rules;
        Ok(())
    }

    /// The rule registered under an identifier, if any: the rule that reports
    /// that identifier.
    pub fn get(&self, id: &RuleId) -> (r: Option<&dyn Rule>)
        ensures
            r is Some == self.ids().contains(id@),
            r matches Some(rule) ==> rule.spec_id() == id@,
    {
        proof {
            use_type_invariant(self);
        }
        let key = String::from_str(id.as_str());
        map_get(&self.rules, &key)
    }

    /// Whether a rule is registered under an identifier.
    pub fn contains(&self, id: &RuleId) -> (r: bool)
        ensures
            r == self.ids().contains(id@),
    {
        let key = String::from_str(id.as_str());
        map_contains_key(&self.rules, &key)
    }

    /// The registered rules, in registration order: the i-th reports the i-th
    /// registered identifier.
    pub fn iter(&self) -> (r: Vec<&dyn Rule>)
        ensures
            r@.len() == self.ids().len(),
            forall|i: int| 0 <= i < r@.len() ==> #[trigger] r@[i].spec_id() == self.ids()[i],
    {
        proof {
            use_type_invariant(self);
        }
        map_values(&self.rules)
    }

    /// How many rules are registered.
    pub fn len(&self) -> (r: usize)
        ensures
            r == self.ids().len(),
    {
        map_len(&self.rules)
    }

    /// Whether no rule is registered.
    pub fn is_empty(&self) -> (r: bool)
        ensures
            r == (self.ids().len() == 0),
    {
        map_len(&self.rules) == 0
    }
}

impl Default for RuleRegistry {
    /// An empty registry.
    fn default() -> (r: RuleRegistry)
        ensures
            r.ids() == Seq::<Seq<char>>::empty(),
    {
        RuleRegistry::new()
    }
}

/// Registering a rule makes it found under its identifier, and registering a
/// second rule with that identifier is refused.
pub proof fn lemma_registered_rule_found(before: Seq<Seq<char>>, id: Seq<char>)
    requires
        !before.contains(id),
    ensures
        before.push(id).contains(id),
        before.push(id).len() == before.len() + 1,
{
    assert(before.push(id)[before.len() as int] == id);
}

} // verus!
