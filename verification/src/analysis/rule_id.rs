//! Kebab-case identifiers of rules.
use vstd::prelude::*;
use vstd::string::StringExecFns;
use crate::analysis::error::CoreError;
use crate::text::chars_of;

verus! {

/// A character allowed in a rule identifier: a lowercase ASCII letter, an ASCII
/// digit or a hyphen.
pub open spec fn is_rule_id_char(c: char) -> bool {
    ('a' <= c && c <= 'z') || ('0' <= c && c <= '9') || c == '-'
}

/// A well-formed rule identifier: non-empty, and made of rule-identifier characters.
pub open spec fn is_rule_id(s: Seq<char>) -> bool {
    s.len() > 0 && forall|i: int| 0 <= i < s.len() ==> is_rule_id_char(#[trigger] s[i])
}

/// The text of the error for a malformed rule identifier `s`.
pub open spec fn rule_id_error_text(s: Seq<char>) -> Seq<char> {
    if s.len() == 0 {
        "rule id cannot be empty"@
    } else {
        "'"@ + s + "' is not a valid kebab-case rule id"@
    }
}

/// Whether every character of `s` is a rule-identifier character.
pub fn all_rule_id_chars(s: &str) -> (r: bool)
    ensures
        r == (forall|i: int| 0 <= i < s@.len() ==> is_rule_id_char(#[trigger] s@[i])),
{
    let v = chars_of(s);
    let mut i: usize = 0;
    while i < v.len()
        invariant
            v@ == s@,
            i <= v.len(),
            forall|j: int| 0 <= j < i ==> is_rule_id_char(#[trigger] s@[j]),
        decreases v.len() - i,
    {
        let c = v[i];
        if !(('a' <= c && c <= 'z') || ('0' <= c && c <= '9') || c == '-') {
            assert(!is_rule_id_char(s@[i as int]));
            return false;
        }
        i = i + 1;
    }
    true
}

/// The identifier of a rule, always well formed.
#[derive(Debug, PartialEq, Eq, Hash, PartialOrd, Ord)]
pub struct RuleId(String);

impl RuleId {
    #[verifier::type_invariant]
    spec fn well_formed(self) -> bool {
        is_rule_id(self.0@)
    }

    /// Builds an identifier, or says why `id` is not one.
    pub fn new(id: &str) -> (r: Result<RuleId, CoreError>)
        ensures
            r is Ok <==> is_rule_id(id@),
            r matches Ok(rid) ==> rid@ == id@,
            r matches Err(e) ==> e matches CoreError::InvalidRuleId(m) && m@ == rule_id_error_text(id@),
    {
        if id.is_empty() {
            return Err(CoreError::InvalidRuleId(String::from_str("rule id cannot be empty")));
        }
        if !all_rule_id_chars(id) {
            let mut m = String::from_str("'");
            m.append(id);
            m.append("' is not a valid kebab-case rule id");
            return Err(CoreError::InvalidRuleId(m));
        }
        Ok(RuleId(String::from_str(id)))
    }

    pub fn as_str(&self) -> (r: &str)
        ensures
            r@ == self@,
            is_rule_id(r@),
    {
        proof {
            use_type_invariant(self);
        }
        self.0.as_str()
    }

    pub fn into_inner(self) -> (r: String)
        ensures
            r@ == self@,
            is_rule_id(r@),
    {
        proof {
            use_type_invariant(&self);
        }
        self.0
    }

    /// The identifier as an owned string.
    pub fn to_string(&self) -> (r: String)
        ensures
            r@ == self@,
    {
        self.0.clone()
    }
}

impl View for RuleId {
    type V = Seq<char>;

    closed spec fn view(&self) -> Seq<char> {
        self.0@
    }
}

impl Clone for RuleId {
    fn clone(&self) -> (r: RuleId)
        ensures
            r == *self,
    {
        proof {
            use_type_invariant(self);
        }
        RuleId(self.0.clone())
    }
}

} // verus!
