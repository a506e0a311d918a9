use std::collections::HashMap;
use astinel_backend::analysis::category::Category;
use astinel_backend::analysis::error::CoreError;
use astinel_backend::analysis::finding::{filter_by_category, Finding};
use astinel_backend::analysis::registry::RuleRegistry;
use astinel_backend::analysis::rule::{Ast, Rule};
use astinel_backend::analysis::rule_config::RuleConfig;
use astinel_backend::analysis::rule_id::RuleId;
use astinel_backend::analysis::scan_result::ScanResult;
use astinel_backend::analysis::score::SecurityScore;
use astinel_backend::analysis::severity::Severity;
use astinel_backend::analysis::span::DiagnosticSpan;

fn finding_at(severity: Severity, file: &str, line: usize, col: usize) -> Finding {
    Finding::new(
        RuleId::new("test-rule").unwrap(),
        severity,
        Category::Security,
        DiagnosticSpan::new(file, line, col),
        "message",
        "recommendation",
    )
}

fn finding(severity: Severity) -> Finding {
    Finding::new(
        RuleId::new("test").unwrap(),
        severity,
        Category::Security,
        DiagnosticSpan::new("test.rs", 1, 1),
        "msg",
        "fix",
    )
}

#[test]
fn severity_ordering() {
    assert!(Severity::Info > Severity::Low);
    assert!(Severity::Low > Severity::Medium);
    assert!(Severity::Medium > Severity::High);
    assert!(Severity::High > Severity::Critical);
}

#[test]
fn severity_sorting_ascending() {
    let mut sevs = vec![Severity::Low, Severity::Critical, Severity::Info, Severity::High];
    sevs.sort();
    assert_eq!(sevs, vec![Severity::Critical, Severity::High, Severity::Low, Severity::Info]);
}

#[test]
fn severity_sort_descending_for_findings() {
    let mut sevs = vec![Severity::Low, Severity::Critical, Severity::Info, Severity::High];
    sevs.sort_by(|a, b| b.cmp(a));
    assert_eq!(sevs, vec![Severity::Info, Severity::Low, Severity::High, Severity::Critical]);
}

#[test]
fn severity_from_str() {
    assert_eq!(Severity::parse("critical"), Some(Severity::Critical));
    assert_eq!(Severity::parse("HIGH"), Some(Severity::High));
    assert_eq!(Severity::parse("Medium"), Some(Severity::Medium));
    assert_eq!(Severity::parse("unknown"), None);
}

#[test]
fn severity_display() {
    assert_eq!(Severity::Critical.to_string(), "critical");
    assert_eq!(Severity::Info.to_string(), "info");
}

#[test]
fn severity_weights() {
    assert_eq!(Severity::Critical.weight(), 25);
    assert_eq!(Severity::High.weight(), 10);
    assert_eq!(Severity::Medium.weight(), 5);
    assert_eq!(Severity::Low.weight(), 2);
    assert_eq!(Severity::Info.weight(), 0);
}

#[test]
fn severity_names_round_trip() {
    for s in [Severity::Critical, Severity::High, Severity::Medium, Severity::Low, Severity::Info] {
        assert_eq!(Severity::parse(s.as_str()), Some(s));
    }
}

#[test]
fn category_display() {
    assert_eq!(Category::Security.to_string(), "security");
    assert_eq!(Category::BestPractice.to_string(), "best-practice");
}

#[test]
fn category_from_str() {
    assert_eq!(Category::parse("security"), Some(Category::Security));
    assert_eq!(Category::parse("best-practice"), Some(Category::BestPractice));
    assert_eq!(Category::parse("unknown"), None);
}

#[test]
fn valid_kebab_case() {
    let id = RuleId::new("missing-require-auth").unwrap();
    assert_eq!(id.as_str(), "missing-require-auth");
}

#[test]
fn valid_with_digits() {
    let id = RuleId::new("rule-001").unwrap();
    assert_eq!(id.as_str(), "rule-001");
}

#[test]
fn empty_id() {
    assert!(RuleId::new("").is_err());
}

#[test]
fn uppercase_rejected() {
    assert!(RuleId::new("MISSING-AUTH").is_err());
}

#[test]
fn spaces_rejected() {
    assert!(RuleId::new("missing auth").is_err());
}

#[test]
fn underscores_rejected() {
    assert!(RuleId::new("missing_auth").is_err());
}

#[test]
fn equality() {
    let a = RuleId::new("test-rule").unwrap();
    let b = RuleId::new("test-rule").unwrap();
    let c = RuleId::new("other-rule").unwrap();
    assert_eq!(a, b);
    assert_ne!(a, c);
}

#[test]
fn hash_map_key() {
    let mut map: HashMap<RuleId, i32> = HashMap::new();
    map.insert(RuleId::new("test").unwrap(), 42);
    assert_eq!(map.get(&RuleId::new("test").unwrap()), Some(&42));
}

#[test]
fn rule_id_display() {
    let id = RuleId::new("my-rule").unwrap();
    assert_eq!(id.to_string(), "my-rule");
}

#[test]
fn rule_id_error_names_the_text() {
    match RuleId::new("Bad Id") {
        Err(CoreError::InvalidRuleId(m)) => assert!(m.contains("Bad Id")),
        other => panic!("unexpected {:?}", other),
    }
    assert_eq!(RuleId::new("abc").unwrap().into_inner(), "abc");
}

#[test]
fn ordering_severity_first() {
    let critical = finding_at(Severity::Critical, "a.rs", 1, 1);
    let high = finding_at(Severity::High, "a.rs", 1, 1);
    assert!(critical > high);
}

#[test]
fn ordering_same_severity_by_file() {
    let a = finding_at(Severity::High, "b.rs", 1, 1);
    let b = finding_at(Severity::High, "a.rs", 1, 1);
    assert!(b < a);
}

#[test]
fn ordering_same_file_by_line() {
    let a = finding_at(Severity::High, "a.rs", 10, 1);
    let b = finding_at(Severity::High, "a.rs", 5, 1);
    assert!(b < a);
}

#[test]
fn ordering_same_line_by_column() {
    let a = finding_at(Severity::High, "a.rs", 5, 10);
    let b = finding_at(Severity::High, "a.rs", 5, 5);
    assert!(b < a);
}

#[test]
fn with_fix() {
    let f = finding_at(Severity::High, "test.rs", 1, 1).with_fix("use checked_add()");
    assert_eq!(f.fix_example, Some("use checked_add()".to_string()));
}

#[test]
fn dedup_identical_findings() {
    let f1 = finding_at(Severity::High, "a.rs", 5, 5);
    let f2 = finding_at(Severity::High, "a.rs", 5, 5);
    let mut vec = vec![f1.clone(), f2];
    vec.sort_by(|a, b| a.partial_cmp(b).unwrap());
    vec.dedup();
    assert_eq!(vec.len(), 1);
}

#[test]
fn compare_is_antisymmetric_on_examples() {
    let a = finding_at(Severity::Low, "x.rs", 3, 4);
    let b = finding_at(Severity::Low, "x.rs", 3, 9);
    assert_eq!(a.compare(&b), -b.compare(&a));
    assert_eq!(a.compare(&a), 0);
}

#[test]
fn perfect_score() {
    let score = SecurityScore::from_findings(&[]);
    assert_eq!(score.score, 100);
}

#[test]
fn single_critical() {
    let score = SecurityScore::from_findings(&[finding(Severity::Critical)]);
    assert_eq!(score.score, 75);
    assert_eq!(score.critical, 1);
}

#[test]
fn four_criticals_min() {
    let findings = vec![finding(Severity::Critical); 4];
    let score = SecurityScore::from_findings(&findings);
    assert_eq!(score.score, 0);
}

#[test]
fn mixed_findings() {
    let findings = vec![
        finding(Severity::Critical),
        finding(Severity::Medium),
        finding(Severity::Medium),
        finding(Severity::Low),
    ];
    let score = SecurityScore::from_findings(&findings);
    assert_eq!(score.score, 63);
}

#[test]
fn no_negative_score() {
    let findings = vec![finding(Severity::Critical); 10];
    let score = SecurityScore::from_findings(&findings);
    assert_eq!(score.score, 0);
}

#[test]
fn info_does_not_affect() {
    let findings = vec![finding(Severity::Info); 100];
    let score = SecurityScore::from_findings(&findings);
    assert_eq!(score.score, 100);
}

#[test]
fn correct_counts() {
    let findings = vec![
        finding(Severity::Critical),
        finding(Severity::High),
        finding(Severity::High),
        finding(Severity::Medium),
        finding(Severity::Info),
    ];
    let score = SecurityScore::from_findings(&findings);
    assert_eq!(score.critical, 1);
    assert_eq!(score.high, 2);
    assert_eq!(score.medium, 1);
    assert_eq!(score.low, 0);
    assert_eq!(score.info, 1);
}

#[test]
fn perfect_constructor() {
    let score = SecurityScore::perfect();
    assert_eq!(score.score, 100);
    assert_eq!(score.critical, 0);
}

#[test]
fn score_display() {
    let score = SecurityScore::from_findings(&[]);
    assert_eq!(score.to_string(), "100");
}

#[test]
fn adding_a_finding_never_raises_the_score() {
    let mut findings = vec![finding(Severity::Low)];
    let before = SecurityScore::from_findings(&findings).score;
    findings.push(finding(Severity::High));
    let after = SecurityScore::from_findings(&findings).score;
    assert!(after <= before);
    assert_eq!(after, 88);
}

#[test]
fn score_counts_wrap_in_sixteen_bits() {
    let findings = vec![finding(Severity::Critical); 65537];
    let score = SecurityScore::from_findings(&findings);
    assert_eq!(score.critical, 65537);
    assert_eq!(score.score, 75);
}

#[test]
fn scan_result_construction() {
    let findings = vec![finding_at(Severity::Critical, "f.rs", 1, 1)];
    let result = ScanResult::new(findings, 5, 10, 0, 100);
    assert_eq!(result.score.score, 75);
    assert_eq!(result.summary.total_files, 5);
    assert_eq!(result.summary.total_rules, 10);
    assert_eq!(result.summary.total_findings, 1);
    assert_eq!(result.summary.duration_ms, 100);
}

#[test]
fn scan_result_empty() {
    let result = ScanResult::new(vec![], 0, 0, 0, 0);
    assert_eq!(result.score.score, 100);
    assert!(result.findings.is_empty());
}

#[derive(Debug)]
struct TestAst;

impl Ast for TestAst {
    fn files(&self) -> &[String] {
        &[]
    }
}

#[derive(Debug, Clone)]
struct TestRule {
    id: &'static str,
}

impl Rule for TestRule {
    // The identifier as the library's contracts speak of it; contracts are
    // checked at verification time, so this is never called.
    fn spec_id(&self) -> vstd::seq::Seq<char> {
        unreachable!()
    }
    fn id(&self) -> RuleId {
        RuleId::new(self.id).unwrap()
    }
    fn name(&self) -> &'static str {
        "Test Rule"
    }
    fn description(&self) -> &'static str {
        "A rule for testing"
    }
    fn severity(&self) -> Severity {
        Severity::High
    }
    fn category(&self) -> Category {
        Category::Security
    }
    fn check(&self, _ast: &dyn Ast) -> Vec<Finding> {
        vec![Finding::new(
            self.id(),
            self.severity(),
            self.category(),
            DiagnosticSpan::new("test.rs", 1, 1),
            "test finding",
            "do something",
        )]
    }
}

#[test]
fn rule_contract() {
    let rule = TestRule { id: "test-rule" };
    assert_eq!(rule.id().as_str(), "test-rule");
    assert_eq!(rule.name(), "Test Rule");
    assert_eq!(rule.severity(), Severity::High);
    assert_eq!(rule.category(), Category::Security);
}

#[test]
fn rule_check_generates_findings() {
    let rule = TestRule { id: "test-rule" };
    let ast = TestAst;
    let findings = rule.check(&ast);
    assert_eq!(findings.len(), 1);
    assert_eq!(findings[0].rule_id, rule.id());
}

#[test]
fn register_and_retrieve() {
    let mut reg = RuleRegistry::new();
    reg.register(Box::new(TestRule { id: "rule-a" })).unwrap();
    assert!(reg.contains(&RuleId::new("rule-a").unwrap()));
    assert_eq!(reg.get(&RuleId::new("rule-a").unwrap()).unwrap().name(), "Test Rule");
}

#[test]
fn duplicate_registration_fails() {
    let mut reg = RuleRegistry::new();
    reg.register(Box::new(TestRule { id: "rule-a" })).unwrap();
    let err = reg.register(Box::new(TestRule { id: "rule-a" }));
    assert!(matches!(err, Err(CoreError::DuplicateRule(_))));
    assert_eq!(reg.len(), 1);
}

#[test]
fn get_none_for_unknown() {
    let reg = RuleRegistry::new();
    assert!(reg.get(&RuleId::new("nope").unwrap()).is_none());
}

#[test]
fn iter_all_rules() {
    let mut reg = RuleRegistry::new();
    reg.register(Box::new(TestRule { id: "rule-a" })).unwrap();
    reg.register(Box::new(TestRule { id: "rule-b" })).unwrap();
    let ids: Vec<String> = reg.iter().iter().map(|r| r.id().as_str().to_string()).collect();
    assert_eq!(ids, vec!["rule-a", "rule-b"]);
}

#[test]
fn get_returns_the_rule_registered_under_the_id() {
    let mut reg = RuleRegistry::new();
    reg.register(Box::new(TestRule { id: "rule-a" })).unwrap();
    reg.register(Box::new(TestRule { id: "rule-b" })).unwrap();
    reg.register(Box::new(TestRule { id: "rule-c" })).unwrap();
    assert_eq!(reg.get(&RuleId::new("rule-b").unwrap()).unwrap().id().as_str(), "rule-b");
    assert_eq!(reg.get(&RuleId::new("rule-c").unwrap()).unwrap().id().as_str(), "rule-c");
}

#[test]
fn empty_registry() {
    let reg = RuleRegistry::default();
    assert!(reg.is_empty());
    assert_eq!(reg.len(), 0);
}

#[test]
fn len_after_registration() {
    let mut reg = RuleRegistry::new();
    assert_eq!(reg.len(), 0);
    reg.register(Box::new(TestRule { id: "rule-a" })).unwrap();
    assert_eq!(reg.len(), 1);
    reg.register(Box::new(TestRule { id: "rule-b" })).unwrap();
    assert_eq!(reg.len(), 2);
}

#[test]
fn default_config_has_no_filters() {
    let config = RuleConfig::default();
    assert_eq!(config.severity_threshold, Severity::Low);
    assert!(config.enabled.is_empty());
    assert!(config.disabled.is_empty());
    assert!(config.severity_overrides.is_empty());
}

#[test]
fn config_with_disabled_rules() {
    let mut config = RuleConfig::default();
    config.disabled.push(RuleId::new("some-rule").unwrap());
    assert_eq!(config.disabled.len(), 1);
}

#[test]
fn config_with_severity_override() {
    let mut config = RuleConfig::default();
    config.severity_overrides.push((RuleId::new("some-rule").unwrap(), Severity::Critical));
    let found = config
        .severity_overrides
        .iter()
        .find(|(id, _)| *id == RuleId::new("some-rule").unwrap())
        .map(|(_, s)| s);
    assert_eq!(found, Some(&Severity::Critical));
}

fn assert_send<T: Send>() {}
fn assert_sync<T: Sync>() {}

#[test]
fn rule_is_send_sync() {
    assert_send::<Box<dyn Rule>>();
    assert_sync::<Box<dyn Rule>>();
}

fn finding_in(category: Category, line: usize) -> Finding {
    Finding::new(RuleId::new("r").unwrap(), Severity::Low, category, DiagnosticSpan::new("a.rs", line, 1), "m", "f")
}

#[test]
fn category_filter_keeps_the_requested_category_in_order() {
    let all = vec![
        finding_in(Category::Security, 1),
        finding_in(Category::Gas, 2),
        finding_in(Category::Security, 3),
        finding_in(Category::Upgrade, 4),
    ];
    let kept = filter_by_category(all.clone(), Some(Category::Security));
    let lines: Vec<usize> = kept.iter().map(|f| f.span.line).collect();
    assert_eq!(lines, vec![1, 3]);
    assert_eq!(filter_by_category(all.clone(), None).len(), 4);
    assert!(filter_by_category(all, Some(Category::Performance)).is_empty());
}
