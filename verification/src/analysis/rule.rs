//! The interface that every analysis rule implements.
use vstd::prelude::*;
use crate::analysis::category::Category;
use crate::analysis::finding::Finding;
use crate::analysis::rule_id::RuleId;
use crate::analysis::severity::Severity;

verus! {

/// A parsed project that rules inspect.
pub trait Ast {
    /// The source files of the project.
    fn files(&self) -> &[String];
}

/// A check over a parsed project that reports findings.
pub trait Rule: Send + Sync {
    /// The identifier of the rule.
    spec fn spec_id(&self) -> Seq<char>;

    /// The identifier of the rule, the same on every call.
    fn id(&self) -> (r: RuleId)
        ensures
            r@ == self.spec_id();

    fn name(&self) -> &'static str;

    fn description(&self) -> &'static str;

    fn severity(&self) -> Severity;

    fn category(&self) -> Category;

    fn check(&self, ast: &dyn Ast) -> Vec<Finding>;
}

} // verus!
