//! The financial knowledge base: curated entries by category, searched by
//! text and intent, and handed to the knowledge retriever.

use vstd::prelude::*;
use crate::clock::{Timestamp, now};
use crate::text::{to_lowercase, lowercase, is_substring, str_contains};
use crate::ranking::{rank_desc, is_ranking};
use super::rule_based::FinancialQueryIntent;
use super::knowledge_retriever::{KnowledgeItem, KnowledgeSourceType, KnowledgeRetriever};

verus! {

/// Financial knowledge category.
#[derive(Debug, Clone, Copy, PartialEq, Eq, Hash, Structural)]
pub enum FinancialKnowledgeCategory {
    /// Retirement planning
    RetirementPlanning,
    /// Tax planning
    TaxPlanning,
    /// Investment strategies
    InvestmentStrategies,
    /// Estate planning
    EstatePlanning,
    /// Insurance planning
    InsurancePlanning,
    /// Education planning
    EducationPlanning,
    /// Financial concepts
    FinancialConcepts,
    /// Market data
    MarketData,
    /// Regulatory information
    RegulatoryInformation,
}

impl FinancialKnowledgeCategory {
    /// The category's name.
    pub open spec fn spec_name(self) -> Seq<char> {
        match self {
            FinancialKnowledgeCategory::RetirementPlanning => "RetirementPlanning"@,
            FinancialKnowledgeCategory::TaxPlanning => "TaxPlanning"@,
            FinancialKnowledgeCategory::InvestmentStrategies => "InvestmentStrategies"@,
            FinancialKnowledgeCategory::EstatePlanning => "EstatePlanning"@,
            FinancialKnowledgeCategory::InsurancePlanning => "InsurancePlanning"@,
            FinancialKnowledgeCategory::EducationPlanning => "EducationPlanning"@,
            FinancialKnowledgeCategory::FinancialConcepts => "FinancialConcepts"@,
            FinancialKnowledgeCategory::MarketData => "MarketData"@,
            FinancialKnowledgeCategory::RegulatoryInformation => "RegulatoryInformation"@,
        }
    }

    /// The category's name.
    pub fn name(&self) -> (s: &'static str)
        ensures
            s@ == self.spec_name(),
    {
        match self {
            FinancialKnowledgeCategory::RetirementPlanning => "RetirementPlanning",
            FinancialKnowledgeCategory::TaxPlanning => "TaxPlanning",
            FinancialKnowledgeCategory::InvestmentStrategies => "InvestmentStrategies",
            FinancialKnowledgeCategory::EstatePlanning => "EstatePlanning",
            FinancialKnowledgeCategory::InsurancePlanning => "InsurancePlanning",
            FinancialKnowledgeCategory::EducationPlanning => "EducationPlanning",
            FinancialKnowledgeCategory::FinancialConcepts => "FinancialConcepts",
            FinancialKnowledgeCategory::MarketData => "MarketData",
            FinancialKnowledgeCategory::RegulatoryInformation => "RegulatoryInformation",
        }
    }

    /// The category with the name, if some category has it.
    pub fn from_name(name: &str) -> (r: Option<Self>)
        ensures
            match r {
                Some(c) => c.spec_name() == name@,
                None => forall|c: FinancialKnowledgeCategory| #[trigger] c.spec_name() != name@,
            },
    {
        if crate::json::str_equals(name, "RetirementPlanning") {
            return Some(FinancialKnowledgeCategory::RetirementPlanning);
        }
        if crate::json::str_equals(name, "TaxPlanning") {
            return Some(FinancialKnowledgeCategory::TaxPlanning);
        }
        if crate::json::str_equals(name, "InvestmentStrategies") {
            return Some(FinancialKnowledgeCategory::InvestmentStrategies);
        }
        if crate::json::str_equals(name, "EstatePlanning") {
            return Some(FinancialKnowledgeCategory::EstatePlanning);
        }
        if crate::json::str_equals(name, "InsurancePlanning") {
            return Some(FinancialKnowledgeCategory::InsurancePlanning);
        }
        if crate::json::str_equals(name, "EducationPlanning") {
            return Some(FinancialKnowledgeCategory::EducationPlanning);
        }
        if crate::json::str_equals(name, "FinancialConcepts") {
            return Some(FinancialKnowledgeCategory::FinancialConcepts);
        }
        if crate::json::str_equals(name, "MarketData") {
            return Some(FinancialKnowledgeCategory::MarketData);
        }
        if crate::json::str_equals(name, "RegulatoryInformation") {
            return Some(FinancialKnowledgeCategory::RegulatoryInformation);
        }
        None
    }
}

/// Where a piece of financial knowledge comes from.
#[derive(Debug, Clone)]
pub struct FinancialKnowledgeSource {
    /// Source name
    pub name: String,
    /// Source URL (if available)
    pub url: Option<String>,
    /// Source description
    pub description: String,
    /// Last updated date (ISO 8601 format)
    pub last_updated: String,
}

/// An entry of financial knowledge.
#[derive(Debug, Clone)]
pub struct FinancialKnowledgeEntry {
    /// Entry ID
    pub id: String,
    /// Title
    pub title: String,
    /// Content
    pub content: String,
    /// Category
    pub category: FinancialKnowledgeCategory,
    /// Tags
    pub tags: Vec<String>,
    /// Related intents
    pub related_intents: Vec<FinancialQueryIntent>,
    /// Source
    pub source: FinancialKnowledgeSource,
    /// Relevance in thousandths (0 to 1000)
    pub relevance_score: u32,
}

/// Financial knowledge base configuration.
#[derive(Debug, Clone)]
pub struct FinancialKnowledgeBaseConfig {
    /// Base directory for knowledge files
    pub base_directory: Option<String>,
    /// Auto-update interval in seconds (0 means no auto-update)
    pub auto_update_interval: u64,
    /// Default relevance threshold, in thousandths
    pub default_relevance_threshold: u32,
    /// Maximum entries to load per category
    pub max_entries_per_category: usize,
}

impl Default for FinancialKnowledgeBaseConfig {
    fn default() -> (c: Self)
        ensures
            c.base_directory is None,
            c.auto_update_interval == 0,
            c.default_relevance_threshold == 700,
            c.max_entries_per_category == 1000,
    {
        FinancialKnowledgeBaseConfig {
            base_directory: None,
            auto_update_interval: 0,
            default_relevance_threshold: 700,
            max_entries_per_category: 1000,
        }
    }
}

/// Errors of the knowledge base.
#[derive(Debug, Clone, Copy, PartialEq, Eq, Structural)]
pub enum KnowledgeBaseError {
    /// An entry with the identifier is already present.
    DuplicateEntry,
}

/// An entry as plain values: (identifier, title, content), category, (tags,
/// intents), (source name, URL, description, last update), relevance.
pub type EntryTuple = (
    (Seq<char>, Seq<char>, Seq<char>),
    FinancialKnowledgeCategory,
    (Seq<Seq<char>>, Seq<FinancialQueryIntent>),
    (Seq<char>, Option<Seq<char>>, Seq<char>, Seq<char>),
    u32,
);

/// The text of an optional text.
pub open spec fn opt_view(o: Option<String>) -> Option<Seq<char>> {
    match o {
        Some(s) => Some(s@),
        None => None,
    }
}

/// The texts of strings.
pub open spec fn texts(v: Seq<String>) -> Seq<Seq<char>> {
    v.map_values(|s: String| s@)
}

/// The entry holds the values given.
pub open spec fn entry_as_specified(e: FinancialKnowledgeEntry, s: EntryTuple) -> bool {
    &&& e.id@ == s.0.0
    &&& e.title@ == s.0.1
    &&& e.content@ == s.0.2
    &&& e.category == s.1
    &&& texts(e.tags@) == s.2.0
    &&& e.related_intents@ == s.2.1
    &&& e.source.name@ == s.3.0
    &&& opt_view(e.source.url) == s.3.1
    &&& e.source.description@ == s.3.2
    &&& e.source.last_updated@ == s.3.3
    &&& e.relevance_score == s.4
}

fn strings_of(v: &Vec<&str>) -> (r: Vec<String>)
    ensures
        texts(r@) == v@.map_values(|t: &str| t@),
{
    let mut r: Vec<String> = Vec::new();
    let mut i: usize = 0;
    while i < v.len()
        invariant
            i <= v@.len(),
            r@.len() == i,
            forall|k: int| 0 <= k < i ==> r@[k]@ == v@[k]@,
        decreases v@.len() - i,
    {
        r.push(String::from_str(v[i]));
        i = i + 1;
    }
    assert(texts(r@) =~= v@.map_values(|t: &str| t@));
    r
}

fn make_entry(
    id: &str,
    title: &str,
    content: &str,
    category: FinancialKnowledgeCategory,
    tags: &Vec<&str>,
    related_intents: Vec<FinancialQueryIntent>,
    source_name: &str,
    url: Option<&str>,
    source_description: &str,
    last_updated: &str,
    relevance_score: u32,
) -> (e: FinancialKnowledgeEntry)
    ensures
        entry_as_specified(e, ((id@, title@, content@), category, (tags@.map_values(|t: &str| t@), related_intents@),
            (source_name@, match url {
                Some(u) => Some(u@),
                None => None,
            }, source_description@, last_updated@), relevance_score)),
{
    FinancialKnowledgeEntry {
        id: String::from_str(id),
        title: String::from_str(title),
        content: String::from_str(content),
        category,
        tags: strings_of(tags),
        related_intents,
        source: FinancialKnowledgeSource {
            name: String::from_str(source_name),
            url: match url {
                Some(u) => Some(String::from_str(u)),
                None => None,
            },
            description: String::from_str(source_description),
            last_updated: String::from_str(last_updated),
        },
        relevance_score,
    }
}
/// The entries a knowledge base is initialized with, in order.
pub open spec fn default_entries() -> Seq<EntryTuple> {
    seq![
        (("retirement-001"@, "4% Rule for Retirement Withdrawals"@,
            "The 4% rule is a guideline used to determine how much a retiree should withdraw from a retirement account each year. This rule seeks to provide a steady income stream to the retiree while also maintaining an account balance that keeps income flowing through retirement. The rule states that you should withdraw 4% of your retirement portfolio in the first year of retirement, then adjust that amount for inflation each subsequent year."@),
            FinancialKnowledgeCategory::RetirementPlanning, (seq!["retirement"@, "withdrawal"@, "4% rule"@, "income"@], seq![FinancialQueryIntent::RetirementPlanning, FinancialQueryIntent::CashFlowAnalysis]),
            ("Financial Planning Association"@, Some("https://www.fpa.org"@), "Professional association for financial planners"@, "2023-01-15"@), 900u32),
        (("retirement-002"@, "Required Minimum Distributions (RMDs)"@,
            "Required Minimum Distributions (RMDs) are the minimum amounts that a retirement plan account owner must withdraw annually, generally starting with the year that they reach age 73 (as of 2023 under SECURE 2.0 Act). The RMD rules apply to traditional IRAs, SEP IRAs, SIMPLE IRAs, 401(k) plans, 403(b) plans, 457(b) plans, profit-sharing plans, and other defined contribution plans. They do not apply to Roth IRAs during the owner's lifetime."@),
            FinancialKnowledgeCategory::RetirementPlanning, (seq!["retirement"@, "RMD"@, "IRA"@, "401(k)"@, "tax"@], seq![FinancialQueryIntent::RetirementPlanning, FinancialQueryIntent::TaxOptimization]),
            ("Internal Revenue Service"@, Some("https://www.irs.gov"@), "U.S. government agency responsible for tax collection and tax law enforcement"@, "2023-02-10"@), 950u32),
        (("retirement-003"@, "Social Security Claiming Strategies"@,
            "When to claim Social Security benefits is one of the most important retirement decisions. You can start receiving benefits as early as age 62, but your benefit amount will be reduced. If you wait until your full retirement age (between 66 and 67 depending on birth year), you'll receive 100% of your benefit. If you delay claiming until age 70, your benefit will increase by 8% per year beyond full retirement age. For married couples, coordinating claiming strategies can maximize lifetime benefits."@),
            FinancialKnowledgeCategory::RetirementPlanning, (seq!["retirement"@, "social security"@, "benefits"@, "claiming"@], seq![FinancialQueryIntent::RetirementPlanning, FinancialQueryIntent::SocialSecurityOptimization]),
            ("Social Security Administration"@, Some("https://www.ssa.gov"@), "U.S. government agency that administers Social Security programs"@, "2023-03-05"@), 900u32),
        (("tax-001"@, "Tax-Loss Harvesting"@,
            "Tax-loss harvesting is the practice of selling a security that has experienced a loss. By realizing a loss, investors can offset taxes on both gains and income. The sold security is replaced by a similar one, maintaining the optimal asset allocation and expected returns. To comply with the wash-sale rule, investors must avoid purchasing a 'substantially identical' security within 30 days before or after the sale."@),
            FinancialKnowledgeCategory::TaxPlanning, (seq!["tax"@, "investment"@, "loss harvesting"@, "wash sale"@], seq![FinancialQueryIntent::TaxOptimization, FinancialQueryIntent::InvestmentRecommendation]),
            ("Journal of Financial Planning"@, Some("https://www.financialplanningassociation.org/journal"@), "Peer-reviewed journal for financial planning professionals"@, "2023-01-20"@), 850u32),
        (("tax-002"@, "Roth Conversion Strategies"@,
            "A Roth conversion involves transferring retirement funds from a traditional IRA, SEP IRA, SIMPLE IRA, or retirement plan like a 401(k) to a Roth IRA. The conversion amount is generally subject to income tax in the year of conversion, but qualified withdrawals from the Roth IRA in the future are tax-free. Roth conversions can be particularly advantageous during low-income years, in anticipation of higher future tax rates, or to reduce future RMDs."@),
            FinancialKnowledgeCategory::TaxPlanning, (seq!["tax"@, "retirement"@, "Roth"@, "conversion"@, "IRA"@], seq![FinancialQueryIntent::TaxOptimization, FinancialQueryIntent::RetirementPlanning]),
            ("Internal Revenue Service"@, Some("https://www.irs.gov"@), "U.S. government agency responsible for tax collection and tax law enforcement"@, "2023-02-15"@), 900u32),
        (("invest-001"@, "Asset Allocation Fundamentals"@,
            "Asset allocation is an investment strategy that aims to balance risk and reward by apportioning a portfolio's assets according to an individual's goals, risk tolerance, and investment horizon. The three main asset classes - equities, fixed-income, and cash and equivalents - have different levels of risk and return, so each will behave differently over time. A well-diversified portfolio tends to be more stable and less susceptible to market volatility."@),
            FinancialKnowledgeCategory::InvestmentStrategies, (seq!["investment"@, "asset allocation"@, "diversification"@, "portfolio"@], seq![FinancialQueryIntent::AssetAllocation, FinancialQueryIntent::InvestmentRecommendation]),
            ("CFA Institute"@, Some("https://www.cfainstitute.org"@), "Global association of investment professionals"@, "2023-01-25"@), 900u32),
        (("invest-002"@, "Factor Investing"@,
            "Factor investing is an investment approach that involves targeting specific drivers of return across asset classes. Common factors include value, size, momentum, quality, and low volatility. These factors have been shown to deliver higher risk-adjusted returns over time. Factor investing can be implemented through individual securities selection or through factor-based ETFs and mutual funds."@),
            FinancialKnowledgeCategory::InvestmentStrategies, (seq!["investment"@, "factor"@, "smart beta"@, "portfolio"@], seq![FinancialQueryIntent::InvestmentRecommendation, FinancialQueryIntent::PortfolioPerformance]),
            ("Journal of Portfolio Management"@, Some("https://jpm.pm-research.com"@), "Academic journal focused on portfolio management"@, "2023-03-10"@), 850u32),
        (("concept-001"@, "Time Value of Money"@,
            "The time value of money is the concept that money available now is worth more than the same amount in the future due to its potential earning capacity. This core principle of finance holds that provided money can earn interest, any amount of money is worth more the sooner it is received. The time value of money is calculated using various formulas including present value, future value, and discounted cash flow analysis."@),
            FinancialKnowledgeCategory::FinancialConcepts, (seq!["finance"@, "time value"@, "present value"@, "future value"@], seq![FinancialQueryIntent::FinancialEducation, FinancialQueryIntent::InvestmentRecommendation]),
            ("Financial Analysts Journal"@, Some("https://www.cfainstitute.org/en/research/financial-analysts-journal"@), "Publication of investment knowledge for financial analysts"@, "2023-02-05"@), 800u32),
        (("concept-002"@, "Risk-Return Tradeoff"@,
            "The risk-return tradeoff is the principle that potential return rises with an increase in risk. Low levels of uncertainty (low risk) are associated with low potential returns, whereas high levels of uncertainty (high risk) are associated with high potential returns. This relationship is central to modern portfolio theory and guides investment decisions based on an investor's risk tolerance and financial goals."@),
            FinancialKnowledgeCategory::FinancialConcepts, (seq!["finance"@, "risk"@, "return"@, "investment"@], seq![FinancialQueryIntent::FinancialEducation, FinancialQueryIntent::RiskAssessment]),
            ("Journal of Finance"@, Some("https://afajof.org"@), "Academic journal published by the American Finance Association"@, "2023-01-30"@), 850u32),
    ]
}
/// The default entries have distinct identifiers.
pub proof fn lemma_default_ids_distinct()
    ensures
        forall|a: int, b: int| 0 <= a < b < 9 ==> default_entries()[a].0.0 != default_entries()[b].0.0,
{
    reveal_strlit("retirement-001");
    reveal_strlit("retirement-002");
    reveal_strlit("retirement-003");
    reveal_strlit("tax-001");
    reveal_strlit("tax-002");
    reveal_strlit("invest-001");
    reveal_strlit("invest-002");
    reveal_strlit("concept-001");
    reveal_strlit("concept-002");
    assert("retirement-001"@[13] != "retirement-002"@[13]);
    assert("retirement-001"@[13] != "retirement-003"@[13]);
    assert("retirement-001"@.len() != "tax-001"@.len());
    assert("retirement-001"@.len() != "tax-002"@.len());
    assert("retirement-001"@.len() != "invest-001"@.len());
    assert("retirement-001"@.len() != "invest-002"@.len());
    assert("retirement-001"@.len() != "concept-001"@.len());
    assert("retirement-001"@.len() != "concept-002"@.len());
    assert("retirement-002"@[13] != "retirement-003"@[13]);
    assert("retirement-002"@.len() != "tax-001"@.len());
    assert("retirement-002"@.len() != "tax-002"@.len());
    assert("retirement-002"@.len() != "invest-001"@.len());
    assert("retirement-002"@.len() != "invest-002"@.len());
    assert("retirement-002"@.len() != "concept-001"@.len());
    assert("retirement-002"@.len() != "concept-002"@.len());
    assert("retirement-003"@.len() != "tax-001"@.len());
    assert("retirement-003"@.len() != "tax-002"@.len());
    assert("retirement-003"@.len() != "invest-001"@.len());
    assert("retirement-003"@.len() != "invest-002"@.len());
    assert("retirement-003"@.len() != "concept-001"@.len());
    assert("retirement-003"@.len() != "concept-002"@.len());
    assert("tax-001"@[6] != "tax-002"@[6]);
    assert("tax-001"@.len() != "invest-001"@.len());
    assert("tax-001"@.len() != "invest-002"@.len());
    assert("tax-001"@.len() != "concept-001"@.len());
    assert("tax-001"@.len() != "concept-002"@.len());
    assert("tax-002"@.len() != "invest-001"@.len());
    assert("tax-002"@.len() != "invest-002"@.len());
    assert("tax-002"@.len() != "concept-001"@.len());
    assert("tax-002"@.len() != "concept-002"@.len());
    assert("invest-001"@[9] != "invest-002"@[9]);
    assert("invest-001"@.len() != "concept-001"@.len());
    assert("invest-001"@.len() != "concept-002"@.len());
    assert("invest-002"@.len() != "concept-001"@.len());
    assert("invest-002"@.len() != "concept-002"@.len());
    assert("concept-001"@[10] != "concept-002"@[10]);
}
fn default_entry(i: usize) -> (e: FinancialKnowledgeEntry)
    requires
        i < 9,
    ensures
        entry_as_specified(e, default_entries()[i as int]),
{
    if i == 0 {
        let tags: Vec<&str> = vec!["retirement", "withdrawal", "4% rule", "income"];
        assert(tags@.map_values(|t: &str| t@) =~= seq!["retirement"@, "withdrawal"@, "4% rule"@, "income"@]);
        make_entry("retirement-001", "4% Rule for Retirement Withdrawals",
            "The 4% rule is a guideline used to determine how much a retiree should withdraw from a retirement account each year. This rule seeks to provide a steady income stream to the retiree while also maintaining an account balance that keeps income flowing through retirement. The rule states that you should withdraw 4% of your retirement portfolio in the first year of retirement, then adjust that amount for inflation each subsequent year.",
            FinancialKnowledgeCategory::RetirementPlanning, &tags, vec![FinancialQueryIntent::RetirementPlanning, FinancialQueryIntent::CashFlowAnalysis],
            "Financial Planning Association", Some("https://www.fpa.org"), "Professional association for financial planners", "2023-01-15", 900)
    } else if i == 1 {
        let tags: Vec<&str> = vec!["retirement", "RMD", "IRA", "401(k)", "tax"];
        assert(tags@.map_values(|t: &str| t@) =~= seq!["retirement"@, "RMD"@, "IRA"@, "401(k)"@, "tax"@]);
        make_entry("retirement-002", "Required Minimum Distributions (RMDs)",
            "Required Minimum Distributions (RMDs) are the minimum amounts that a retirement plan account owner must withdraw annually, generally starting with the year that they reach age 73 (as of 2023 under SECURE 2.0 Act). The RMD rules apply to traditional IRAs, SEP IRAs, SIMPLE IRAs, 401(k) plans, 403(b) plans, 457(b) plans, profit-sharing plans, and other defined contribution plans. They do not apply to Roth IRAs during the owner's lifetime.",
            FinancialKnowledgeCategory::RetirementPlanning, &tags, vec![FinancialQueryIntent::RetirementPlanning, FinancialQueryIntent::TaxOptimization],
            "Internal Revenue Service", Some("https://www.irs.gov"), "U.S. government agency responsible for tax collection and tax law enforcement", "2023-02-10", 950)
    } else if i == 2 {
        let tags: Vec<&str> = vec!["retirement", "social security", "benefits", "claiming"];
        assert(tags@.map_values(|t: &str| t@) =~= seq!["retirement"@, "social security"@, "benefits"@, "claiming"@]);
        make_entry("retirement-003", "Social Security Claiming Strategies",
            "When to claim Social Security benefits is one of the most important retirement decisions. You can start receiving benefits as early as age 62, but your benefit amount will be reduced. If you wait until your full retirement age (between 66 and 67 depending on birth year), you'll receive 100% of your benefit. If you delay claiming until age 70, your benefit will increase by 8% per year beyond full retirement age. For married couples, coordinating claiming strategies can maximize lifetime benefits.",
            FinancialKnowledgeCategory::RetirementPlanning, &tags, vec![FinancialQueryIntent::RetirementPlanning, FinancialQueryIntent::SocialSecurityOptimization],
            "Social Security Administration", Some("https://www.ssa.gov"), "U.S. government agency that administers Social Security programs", "2023-03-05", 900)
    } else if i == 3 {
        let tags: Vec<&str> = vec!["tax", "investment", "loss harvesting", "wash sale"];
        assert(tags@.map_values(|t: &str| t@) =~= seq!["tax"@, "investment"@, "loss harvesting"@, "wash sale"@]);
        make_entry("tax-001", "Tax-Loss Harvesting",
            "Tax-loss harvesting is the practice of selling a security that has experienced a loss. By realizing a loss, investors can offset taxes on both gains and income. The sold security is replaced by a similar one, maintaining the optimal asset allocation and expected returns. To comply with the wash-sale rule, investors must avoid purchasing a 'substantially identical' security within 30 days before or after the sale.",
            FinancialKnowledgeCategory::TaxPlanning, &tags, vec![FinancialQueryIntent::TaxOptimization, FinancialQueryIntent::InvestmentRecommendation],
            "Journal of Financial Planning", Some("https://www.financialplanningassociation.org/journal"), "Peer-reviewed journal for financial planning professionals", "2023-01-20", 850)
    } else if i == 4 {
        let tags: Vec<&str> = vec!["tax", "retirement", "Roth", "conversion", "IRA"];
        assert(tags@.map_values(|t: &str| t@) =~= seq!["tax"@, "retirement"@, "Roth"@, "conversion"@, "IRA"@]);
        make_entry("tax-002", "Roth Conversion Strategies",
            "A Roth conversion involves transferring retirement funds from a traditional IRA, SEP IRA, SIMPLE IRA, or retirement plan like a 401(k) to a Roth IRA. The conversion amount is generally subject to income tax in the year of conversion, but qualified withdrawals from the Roth IRA in the future are tax-free. Roth conversions can be particularly advantageous during low-income years, in anticipation of higher future tax rates, or to reduce future RMDs.",
            FinancialKnowledgeCategory::TaxPlanning, &tags, vec![FinancialQueryIntent::TaxOptimization, FinancialQueryIntent::RetirementPlanning],
            "Internal Revenue Service", Some("https://www.irs.gov"), "U.S. government agency responsible for tax collection and tax law enforcement", "2023-02-15", 900)
    } else if i == 5 {
        let tags: Vec<&str> = vec!["investment", "asset allocation", "diversification", "portfolio"];
        assert(tags@.map_values(|t: &str| t@) =~= seq!["investment"@, "asset allocation"@, "diversification"@, "portfolio"@]);
        make_entry("invest-001", "Asset Allocation Fundamentals",
            "Asset allocation is an investment strategy that aims to balance risk and reward by apportioning a portfolio's assets according to an individual's goals, risk tolerance, and investment horizon. The three main asset classes - equities, fixed-income, and cash and equivalents - have different levels of risk and return, so each will behave differently over time. A well-diversified portfolio tends to be more stable and less susceptible to market volatility.",
            FinancialKnowledgeCategory::InvestmentStrategies, &tags, vec![FinancialQueryIntent::AssetAllocation, FinancialQueryIntent::InvestmentRecommendation],
            "CFA Institute", Some("https://www.cfainstitute.org"), "Global association of investment professionals", "2023-01-25", 900)
    } else if i == 6 {
        let tags: Vec<&str> = vec!["investment", "factor", "smart beta", "portfolio"];
        assert(tags@.map_values(|t: &str| t@) =~= seq!["investment"@, "factor"@, "smart beta"@, "portfolio"@]);
        make_entry("invest-002", "Factor Investing",
            "Factor investing is an investment approach that involves targeting specific drivers of return across asset classes. Common factors include value, size, momentum, quality, and low volatility. These factors have been shown to deliver higher risk-adjusted returns over time. Factor investing can be implemented through individual securities selection or through factor-based ETFs and mutual funds.",
            FinancialKnowledgeCategory::InvestmentStrategies, &tags, vec![FinancialQueryIntent::InvestmentRecommendation, FinancialQueryIntent::PortfolioPerformance],
            "Journal of Portfolio Management", Some("https://jpm.pm-research.com"), "Academic journal focused on portfolio management", "2023-03-10", 850)
    } else if i == 7 {
        let tags: Vec<&str> = vec!["finance", "time value", "present value", "future value"];
        assert(tags@.map_values(|t: &str| t@) =~= seq!["finance"@, "time value"@, "present value"@, "future value"@]);
        make_entry("concept-001", "Time Value of Money",
            "The time value of money is the concept that money available now is worth more than the same amount in the future due to its potential earning capacity. This core principle of finance holds that provided money can earn interest, any amount of money is worth more the sooner it is received. The time value of money is calculated using various formulas including present value, future value, and discounted cash flow analysis.",
            FinancialKnowledgeCategory::FinancialConcepts, &tags, vec![FinancialQueryIntent::FinancialEducation, FinancialQueryIntent::InvestmentRecommendation],
            "Financial Analysts Journal", Some("https://www.cfainstitute.org/en/research/financial-analysts-journal"), "Publication of investment knowledge for financial analysts", "2023-02-05", 800)
    } else if i == 8 {
        let tags: Vec<&str> = vec!["finance", "risk", "return", "investment"];
        assert(tags@.map_values(|t: &str| t@) =~= seq!["finance"@, "risk"@, "return"@, "investment"@]);
        make_entry("concept-002", "Risk-Return Tradeoff",
            "The risk-return tradeoff is the principle that potential return rises with an increase in risk. Low levels of uncertainty (low risk) are associated with low potential returns, whereas high levels of uncertainty (high risk) are associated with high potential returns. This relationship is central to modern portfolio theory and guides investment decisions based on an investor's risk tolerance and financial goals.",
            FinancialKnowledgeCategory::FinancialConcepts, &tags, vec![FinancialQueryIntent::FinancialEducation, FinancialQueryIntent::RiskAssessment],
            "Journal of Finance", Some("https://afajof.org"), "Academic journal published by the American Finance Association", "2023-01-30", 850)
    } else {
        assert(false);
        make_entry("", "", "", FinancialKnowledgeCategory::MarketData, &Vec::new(), Vec::new(), "", None, "", "", 0)
    }
}

/// Some entry has the identifier.
pub open spec fn has_entry_id(entries: Seq<FinancialKnowledgeEntry>, id: Seq<char>) -> bool {
    exists|i: int| 0 <= i < entries.len() && #[trigger] entries[i].id@ == id
}

/// Some identifier of the list is `id`.
pub open spec fn has_id(ids: Seq<Seq<char>>, id: Seq<char>) -> bool {
    exists|i: int| 0 <= i < ids.len() && #[trigger] ids[i] == id
}

/// The identifiers of entries.
pub open spec fn entry_ids(entries: Seq<FinancialKnowledgeEntry>) -> Seq<Seq<char>> {
    entries.map_values(|e: FinancialKnowledgeEntry| e.id@)
}

/// How many default entries, from the `i`-th on, are added to a base
/// holding the identifiers before one collides with an identifier present.
pub open spec fn defaults_added(ids: Seq<Seq<char>>, i: nat) -> nat
    decreases 9 - i,
{
    if i >= 9 {
        9
    } else if has_id(ids, default_entries()[i as int].0.0) {
        i
    } else {
        defaults_added(ids.push(default_entries()[i as int].0.0), i + 1)
    }
}

/// The entries after adding each of `new` in order, skipping those whose
/// identifier is already present.
pub open spec fn entries_loaded(entries: Seq<FinancialKnowledgeEntry>, new: Seq<FinancialKnowledgeEntry>) -> Seq<FinancialKnowledgeEntry>
    decreases new.len(),
{
    if new.len() == 0 {
        entries
    } else {
        let before = entries_loaded(entries, new.drop_last());
        if has_entry_id(before, new.last().id@) {
            before
        } else {
            before.push(new.last())
        }
    }
}

/// The entry mentions the query: its title, content or a tag contains it,
/// all lower-cased.
pub open spec fn entry_mentions(e: FinancialKnowledgeEntry, query: Seq<char>) -> bool {
    ||| is_substring(lowercase(query), lowercase(e.title@))
    ||| is_substring(lowercase(query), lowercase(e.content@))
    ||| exists|t: int| 0 <= t < e.tags@.len() && is_substring(lowercase(query), lowercase(#[trigger] e.tags@[t]@))
}

/// The relevance of entries as ranking scores.
pub open spec fn relevances(entries: Seq<FinancialKnowledgeEntry>) -> Seq<u128> {
    Seq::new(entries.len(), |i: int| entries[i].relevance_score as u128)
}

/// The entries the references point at.
pub open spec fn deref_entries(r: Seq<&FinancialKnowledgeEntry>) -> Seq<FinancialKnowledgeEntry> {
    r.map_values(|e: &FinancialKnowledgeEntry| *e)
}

/// `found` lists the entries selected, by descending relevance, ties in
/// the order they were added.
pub open spec fn by_relevance(entries: Seq<FinancialKnowledgeEntry>, selected: spec_fn(FinancialKnowledgeEntry) -> bool, found: Seq<FinancialKnowledgeEntry>) -> bool {
    exists|order: Seq<usize>|
        #![trigger is_ranking(relevances(entries), order)]
        is_ranking(relevances(entries), order) && found == order.map_values(|i: usize| entries[i as int]).filter(selected)
}

/// `found` lists the entries mentioning the query, most relevant first.
pub open spec fn search_result(entries: Seq<FinancialKnowledgeEntry>, query: Seq<char>, found: Seq<FinancialKnowledgeEntry>) -> bool {
    by_relevance(entries, |e: FinancialKnowledgeEntry| entry_mentions(e, query), found)
}

/// `found` lists the entries related to the intent, most relevant first.
pub open spec fn intent_result(entries: Seq<FinancialKnowledgeEntry>, intent: FinancialQueryIntent, found: Seq<FinancialKnowledgeEntry>) -> bool {
    by_relevance(entries, |e: FinancialKnowledgeEntry| e.related_intents@.contains(intent), found)
}

/// The distinct categories of entries, in the order they first occur.
pub open spec fn categories_of(entries: Seq<FinancialKnowledgeEntry>) -> Seq<FinancialKnowledgeCategory>
    decreases entries.len(),
{
    if entries.len() == 0 {
        Seq::empty()
    } else {
        let before = categories_of(entries.drop_last());
        if before.contains(entries.last().category) {
            before
        } else {
            before.push(entries.last().category)
        }
    }
}

/// The knowledge-source type of a category.
pub open spec fn source_type_of(c: FinancialKnowledgeCategory) -> KnowledgeSourceType {
    match c {
        FinancialKnowledgeCategory::RetirementPlanning => KnowledgeSourceType::RetirementPlanning,
        FinancialKnowledgeCategory::TaxPlanning => KnowledgeSourceType::TaxRules,
        FinancialKnowledgeCategory::InvestmentStrategies => KnowledgeSourceType::InvestmentStrategy,
        FinancialKnowledgeCategory::EstatePlanning => KnowledgeSourceType::EstatePlanning,
        FinancialKnowledgeCategory::InsurancePlanning => KnowledgeSourceType::InsurancePlanning,
        FinancialKnowledgeCategory::EducationPlanning => KnowledgeSourceType::EducationPlanning,
        FinancialKnowledgeCategory::FinancialConcepts => KnowledgeSourceType::FinancialConcept,
        FinancialKnowledgeCategory::MarketData => KnowledgeSourceType::MarketData,
        FinancialKnowledgeCategory::RegulatoryInformation => KnowledgeSourceType::RegulatoryInfo,
    }
}

/// The knowledge-source type of a category.
pub fn category_source_type(c: FinancialKnowledgeCategory) -> (t: KnowledgeSourceType)
    ensures
        t == source_type_of(c),
{
    match c {
        FinancialKnowledgeCategory::RetirementPlanning => KnowledgeSourceType::RetirementPlanning,
        FinancialKnowledgeCategory::TaxPlanning => KnowledgeSourceType::TaxRules,
        FinancialKnowledgeCategory::InvestmentStrategies => KnowledgeSourceType::InvestmentStrategy,
        FinancialKnowledgeCategory::EstatePlanning => KnowledgeSourceType::EstatePlanning,
        FinancialKnowledgeCategory::InsurancePlanning => KnowledgeSourceType::InsurancePlanning,
        FinancialKnowledgeCategory::EducationPlanning => KnowledgeSourceType::EducationPlanning,
        FinancialKnowledgeCategory::FinancialConcepts => KnowledgeSourceType::FinancialConcept,
        FinancialKnowledgeCategory::MarketData => KnowledgeSourceType::MarketData,
        FinancialKnowledgeCategory::RegulatoryInformation => KnowledgeSourceType::RegulatoryInfo,
    }
}

/// The knowledge item made from an entry: same identifier, title, content,
/// tags and intents, with the category's source type.
pub open spec fn item_of(e: FinancialKnowledgeEntry, item: KnowledgeItem) -> bool {
    &&& item.id@ == e.id@
    &&& item.title@ == e.title@
    &&& item.content@ == e.content@
    &&& item.source_type == source_type_of(e.category)
    &&& texts(item.tags@) == texts(e.tags@)
    &&& item.related_intents@ == e.related_intents@
}

fn copy_strings(v: &Vec<String>) -> (r: Vec<String>)
    ensures
        r@ == v@,
{
    let mut r: Vec<String> = Vec::new();
    let mut i: usize = 0;
    while i < v.len()
        invariant
            i <= v@.len(),
            r@ == v@.subrange(0, i as int),
        decreases v@.len() - i,
    {
        r.push(v[i].clone());
        i = i + 1;
        assert(r@ =~= v@.subrange(0, i as int));
    }
    assert(v@.subrange(0, v@.len() as int) =~= v@);
    r
}

fn copy_intents(v: &Vec<FinancialQueryIntent>) -> (r: Vec<FinancialQueryIntent>)
    ensures
        r@ == v@,
{
    let mut r: Vec<FinancialQueryIntent> = Vec::new();
    let mut i: usize = 0;
    while i < v.len()
        invariant
            i <= v@.len(),
            r@ == v@.subrange(0, i as int),
        decreases v@.len() - i,
    {
        r.push(v[i]);
        i = i + 1;
        assert(r@ =~= v@.subrange(0, i as int));
    }
    assert(v@.subrange(0, v@.len() as int) =~= v@);
    r
}

/// A knowledge base of financial entries.
#[derive(Debug)]
pub struct FinancialKnowledgeBase {
    entries: Vec<FinancialKnowledgeEntry>,
    config: FinancialKnowledgeBaseConfig,
    last_update: Timestamp,
}

impl FinancialKnowledgeBase {
    /// The entries, in the order they were added.
    pub closed spec fn entries_view(&self) -> Seq<FinancialKnowledgeEntry> {
        self.entries@
    }

    /// The configuration.
    pub closed spec fn config_view(&self) -> FinancialKnowledgeBaseConfig {
        self.config
    }

    /// An empty knowledge base.
    pub fn new(config: FinancialKnowledgeBaseConfig) -> (kb: Self)
        ensures
            kb.entries_view() == Seq::<FinancialKnowledgeEntry>::empty(),
            kb.config_view() == config,
    {
        FinancialKnowledgeBase { entries: Vec::new(), config, last_update: now() }
    }

    fn holds_id(&self, id: &String) -> (b: bool)
        ensures
            b == has_entry_id(self.entries@, id@),
    {
        let mut i: usize = 0;
        while i < self.entries.len()
            invariant
                i <= self.entries@.len(),
                forall|k: int| 0 <= k < i ==> self.entries@[k].id@ != id@,
            decreases self.entries@.len() - i,
        {
            if self.entries[i].id == *id {
                return true;
            }
            i = i + 1;
        }
        false
    }

    /// Adds an entry; fails, changing nothing, when an entry with its
    /// identifier is present.
    pub fn add_entry(&mut self, entry: FinancialKnowledgeEntry) -> (r: Result<(), KnowledgeBaseError>)
        ensures
            has_entry_id(old(self).entries_view(), entry.id@) ==> r == Err::<(), KnowledgeBaseError>(KnowledgeBaseError::DuplicateEntry)
                && final(self).entries_view() == old(self).entries_view(),
            !has_entry_id(old(self).entries_view(), entry.id@) ==> r is Ok
                && final(self).entries_view() == old(self).entries_view().push(entry),
            final(self).config_view() == old(self).config_view(),
    {
        if self.holds_id(&entry.id) {
            return Err(KnowledgeBaseError::DuplicateEntry);
        }
        self.entries.push(entry);
        Ok(())
    }

    /// Adds the default entries in order, stopping with an error at the
    /// first whose identifier is present (see `defaults_added`).
    pub fn initialize(&mut self) -> (r: Result<(), KnowledgeBaseError>)
        ensures
            ({
                let added = defaults_added(entry_ids(old(self).entries_view()), 0);
                &&& (r is Ok <==> added == 9)
                &&& final(self).entries_view().len() == old(self).entries_view().len() + added
                &&& final(self).entries_view().subrange(0, old(self).entries_view().len() as int) == old(self).entries_view()
                &&& forall|i: int| 0 <= i < added ==> entry_as_specified(
                    #[trigger] final(self).entries_view()[old(self).entries_view().len() + i], default_entries()[i])
            }),
            final(self).config_view() == old(self).config_view(),
    {
        let ghost start = self.entries@;
        let ghost target = defaults_added(entry_ids(start), 0);
        let mut i: usize = 0;
        while i < 9
            invariant
                i <= 9,
                start == old(self).entries@,
                target == defaults_added(entry_ids(old(self).entries@), 0),
                self.config == old(self).config,
                self.entries@.len() == start.len() + i,
                self.entries@.subrange(0, start.len() as int) == start,
                forall|k: int| 0 <= k < i ==> entry_as_specified(#[trigger] self.entries@[start.len() + k], default_entries()[k]),
                defaults_added(entry_ids(self.entries@), i as nat) == target,
                target >= i,
            decreases 9 - i,
        {
            let e = default_entry(i);
            let ghost before = self.entries@;
            assert(entry_ids(before).push(e.id@) =~= entry_ids(before.push(e)));
            proof {
                lemma_defaults_added_at_least(entry_ids(before.push(e)), (i + 1) as nat);
            }
            assert(has_entry_id(before, e.id@) == has_id(entry_ids(before), e.id@)) by {
                if has_entry_id(before, e.id@) {
                    let k = choose|k: int| 0 <= k < before.len() && before[k].id@ == e.id@;
                    assert(entry_ids(before)[k] == e.id@);
                }
            }
            match self.add_entry(e) {
                Ok(()) => {},
                Err(err) => {
                    assert(has_id(entry_ids(before), default_entries()[i as int].0.0));
                    assert(target == i);
                    return Err(err);
                },
            }
            assert(self.entries@.subrange(0, start.len() as int) =~= start);
            i = i + 1;
        }
        Ok(())
    }

    /// Adds each entry in order, skipping (and counting) those whose
    /// identifier is already present; returns how many were skipped.
    pub fn load_from_entries(&mut self, entries: Vec<FinancialKnowledgeEntry>) -> (skipped: usize)
        ensures
            final(self).entries_view() == entries_loaded(old(self).entries_view(), entries@),
            final(self).config_view() == old(self).config_view(),
            skipped + final(self).entries_view().len() == old(self).entries_view().len() + entries@.len(),
    {
        let ghost start = self.entries@;
        let ghost all = entries@;
        let n = entries.len();
        let mut rest = entries;
        let mut skipped: usize = 0;
        let mut i: usize = 0;
        assert(all.subrange(0, 0) =~= Seq::<FinancialKnowledgeEntry>::empty());
        while rest.len() > 0
            invariant
                i <= all.len(),
                n == all.len(),
                rest@ == all.subrange(i as int, all.len() as int),
                self.entries@ == entries_loaded(start, all.subrange(0, i as int)),
                self.config == old(self).config,
                skipped + self.entries@.len() == start.len() + i,
                skipped <= i,
            decreases rest@.len(),
        {
            let e = rest.remove(0);
            assert(e == all[i as int]);
            assert(all.subrange(0, i + 1).drop_last() =~= all.subrange(0, i as int));
            match self.add_entry(e) {
                Ok(()) => {},
                Err(_) => {
                    skipped = skipped + 1;
                },
            }
            i = i + 1;
            assert(rest@ =~= all.subrange(i as int, all.len() as int));
        }
        assert(all.subrange(0, all.len() as int) =~= all);
        skipped
    }

    /// The entries, in the order they were added.
    pub fn entries(&self) -> (r: &[FinancialKnowledgeEntry])
        ensures
            r@ == self.entries_view(),
    {
        self.entries.as_slice()
    }

    /// The first entry with the identifier, if any.
    pub fn get_entry_by_id(&self, id: &str) -> (r: Option<&FinancialKnowledgeEntry>)
        ensures
            r is None <==> !has_entry_id(self.entries_view(), id@),
            r is Some ==> exists|i: int| {
                &&& 0 <= i < self.entries_view().len()
                &&& *r->0 == self.entries_view()[i]
                &&& self.entries_view()[i].id@ == id@
                &&& forall|k: int| 0 <= k < i ==> self.entries_view()[k].id@ != id@
            },
    {
        let wanted = String::from_str(id);
        let mut i: usize = 0;
        while i < self.entries.len()
            invariant
                i <= self.entries@.len(),
                wanted@ == id@,
                forall|k: int| 0 <= k < i ==> self.entries@[k].id@ != id@,
            decreases self.entries@.len() - i,
        {
            if self.entries[i].id == wanted {
                return Some(&self.entries[i]);
            }
            i = i + 1;
        }
        None
    }

    /// The entries of the category, in the order they were added.
    pub fn get_entries_by_category(&self, category: &FinancialKnowledgeCategory) -> (r: Vec<&FinancialKnowledgeEntry>)
        ensures
            deref_entries(r@) == self.entries_view().filter(|e: FinancialKnowledgeEntry| e.category == *category),
    {
        let ghost entries = self.entries@;
        let ghost pred = |e: FinancialKnowledgeEntry| e.category == *category;
        let mut r: Vec<&FinancialKnowledgeEntry> = Vec::new();
        let mut k: usize = 0;
        while k < self.entries.len()
            invariant
                k <= entries.len(),
                entries == self.entries@,
                pred == (|e: FinancialKnowledgeEntry| e.category == *category),
                deref_entries(r@) == entries.subrange(0, k as int).filter(pred),
            decreases entries.len() - k,
        {
            let e = &self.entries[k];
            assert(entries.subrange(0, k + 1) =~= entries.subrange(0, k as int).push(*e));
            proof {
                entries.subrange(0, k as int).lemma_filter_push(*e, pred);
            }
            let ghost before = deref_entries(r@);
            if e.category == *category {
                r.push(e);
                assert(deref_entries(r@) =~= before.push(*e));
            }
            k = k + 1;
        }
        assert(entries.subrange(0, entries.len() as int) =~= entries);
        r
    }

    fn relevance_order(&self) -> (order: Vec<usize>)
        ensures
            is_ranking(relevances(self.entries@), order@),
    {
        let mut keys: Vec<u128> = Vec::new();
        let mut i: usize = 0;
        while i < self.entries.len()
            invariant
                i <= self.entries@.len(),
                keys@ =~= relevances(self.entries@).subrange(0, i as int),
            decreases self.entries@.len() - i,
        {
            keys.push(self.entries[i].relevance_score as u128);
            i = i + 1;
        }
        assert(keys@ =~= relevances(self.entries@));
        rank_desc(&keys)
    }

    fn mentions(e: &FinancialKnowledgeEntry, needle: &str, query: &str) -> (b: bool)
        requires
            needle@ == lowercase(query@),
        ensures
            b == entry_mentions(*e, query@),
    {
        let title = to_lowercase(e.title.as_str());
        if str_contains(title.as_str(), needle) {
            return true;
        }
        let content = to_lowercase(e.content.as_str());
        if str_contains(content.as_str(), needle) {
            return true;
        }
        let mut t: usize = 0;
        while t < e.tags.len()
            invariant
                t <= e.tags@.len(),
                needle@ == lowercase(query@),
                !is_substring(lowercase(query@), lowercase(e.title@)),
                !is_substring(lowercase(query@), lowercase(e.content@)),
                forall|k: int| 0 <= k < t ==> !is_substring(lowercase(query@), lowercase(#[trigger] e.tags@[k]@)),
            decreases e.tags@.len() - t,
        {
            let tag = to_lowercase(e.tags[t].as_str());
            if str_contains(tag.as_str(), needle) {
                return true;
            }
            t = t + 1;
        }
        false
    }

    /// The entries mentioning the query (see `entry_mentions`), most
    /// relevant first, ties in the order they were added.
    pub fn search(&self, query: &str) -> (r: Vec<&FinancialKnowledgeEntry>)
        ensures
            search_result(self.entries_view(), query@, deref_entries(r@)),
    {
        let ghost entries = self.entries@;
        let ghost pred = |e: FinancialKnowledgeEntry| entry_mentions(e, query@);
        let order = self.relevance_order();
        let needle = to_lowercase(query);
        let mut r: Vec<&FinancialKnowledgeEntry> = Vec::new();
        let mut a: usize = 0;
        while a < order.len()
            invariant
                entries == self.entries@,
                is_ranking(relevances(entries), order@),
                a <= order@.len(),
                needle@ == lowercase(query@),
                pred == (|e: FinancialKnowledgeEntry| entry_mentions(e, query@)),
                deref_entries(r@) == order@.subrange(0, a as int).map_values(|i: usize| entries[i as int]).filter(pred),
            decreases order@.len() - a,
        {
            let e = &self.entries[order[a]];
            let ghost prefix = order@.subrange(0, a as int).map_values(|i: usize| entries[i as int]);
            assert(order@.subrange(0, a + 1).map_values(|i: usize| entries[i as int]) =~= prefix.push(*e));
            proof {
                prefix.lemma_filter_push(*e, pred);
            }
            let ghost before = deref_entries(r@);
            if Self::mentions(e, needle.as_str(), query) {
                r.push(e);
                assert(deref_entries(r@) =~= before.push(*e));
            }
            a = a + 1;
        }
        assert(order@.subrange(0, order@.len() as int) =~= order@);
        assert(search_result(self.entries_view(), query@, deref_entries(r@)));
        r
    }

    /// The entries related to the intent, most relevant first, ties in the
    /// order they were added.
    pub fn search_by_intent(&self, intent: &FinancialQueryIntent) -> (r: Vec<&FinancialKnowledgeEntry>)
        ensures
            intent_result(self.entries_view(), *intent, deref_entries(r@)),
    {
        let ghost entries = self.entries@;
        let ghost pred = |e: FinancialKnowledgeEntry| e.related_intents@.contains(*intent);
        let order = self.relevance_order();
        let mut r: Vec<&FinancialKnowledgeEntry> = Vec::new();
        let mut a: usize = 0;
        while a < order.len()
            invariant
                entries == self.entries@,
                is_ranking(relevances(entries), order@),
                a <= order@.len(),
                pred == (|e: FinancialKnowledgeEntry| e.related_intents@.contains(*intent)),
                deref_entries(r@) == order@.subrange(0, a as int).map_values(|i: usize| entries[i as int]).filter(pred),
            decreases order@.len() - a,
        {
            let e = &self.entries[order[a]];
            let ghost prefix = order@.subrange(0, a as int).map_values(|i: usize| entries[i as int]);
            assert(order@.subrange(0, a + 1).map_values(|i: usize| entries[i as int]) =~= prefix.push(*e));
            proof {
                prefix.lemma_filter_push(*e, pred);
            }
            let mut found = false;
            let mut j: usize = 0;
            while j < e.related_intents.len() && !found
                invariant
                    j <= e.related_intents@.len(),
                    found ==> e.related_intents@.contains(*intent),
                    !found ==> forall|k: int| 0 <= k < j ==> e.related_intents@[k] != *intent,
                decreases e.related_intents@.len() - j,
            {
                if e.related_intents[j] == *intent {
                    found = true;
                }
                j = j + 1;
            }
            let ghost before = deref_entries(r@);
            if found {
                r.push(e);
                assert(deref_entries(r@) =~= before.push(*e));
            }
            a = a + 1;
        }
        assert(order@.subrange(0, order@.len() as int) =~= order@);
        assert(intent_result(self.entries_view(), *intent, deref_entries(r@)));
        r
    }

    /// Number of entries.
    pub fn len(&self) -> (n: usize)
        ensures
            n == self.entries_view().len(),
    {
        self.entries.len()
    }

    /// Whether there is no entry.
    pub fn is_empty(&self) -> (b: bool)
        ensures
            b == (self.entries_view().len() == 0),
    {
        self.entries.len() == 0
    }

    /// The categories holding entries, in the order they first occur.
    pub fn get_categories(&self) -> (r: Vec<FinancialKnowledgeCategory>)
        ensures
            r@ == categories_of(self.entries_view()),
    {
        let ghost entries = self.entries@;
        let mut r: Vec<FinancialKnowledgeCategory> = Vec::new();
        let mut k: usize = 0;
        while k < self.entries.len()
            invariant
                k <= entries.len(),
                entries == self.entries@,
                r@ == categories_of(entries.subrange(0, k as int)),
            decreases entries.len() - k,
        {
            let c = self.entries[k].category;
            assert(entries.subrange(0, k + 1).drop_last() =~= entries.subrange(0, k as int));
            let mut seen = false;
            let mut j: usize = 0;
            while j < r.len() && !seen
                invariant
                    j <= r@.len(),
                    seen ==> r@.contains(c),
                    !seen ==> forall|m: int| 0 <= m < j ==> r@[m] != c,
                decreases r@.len() - j,
            {
                if r[j] == c {
                    seen = true;
                }
                j = j + 1;
            }
            if !seen {
                r.push(c);
            }
            k = k + 1;
        }
        assert(entries.subrange(0, entries.len() as int) =~= entries);
        r
    }

    /// The entries as knowledge items (see `item_of`), in the order they
    /// were added.
    pub fn to_knowledge_items(&self) -> (r: Vec<KnowledgeItem>)
        ensures
            r@.len() == self.entries_view().len(),
            forall|i: int| 0 <= i < r@.len() ==> item_of(self.entries_view()[i], #[trigger] r@[i]),
    {
        let mut r: Vec<KnowledgeItem> = Vec::new();
        let mut k: usize = 0;
        while k < self.entries.len()
            invariant
                k <= self.entries@.len(),
                r@.len() == k,
                forall|i: int| 0 <= i < k ==> item_of(self.entries@[i], #[trigger] r@[i]),
            decreases self.entries@.len() - k,
        {
            let e = &self.entries[k];
            r.push(KnowledgeItem {
                id: e.id.clone(),
                title: e.title.clone(),
                content: e.content.clone(),
                source_type: category_source_type(e.category),
                tags: copy_strings(&e.tags),
                related_intents: copy_intents(&e.related_intents),
            });
            k = k + 1;
        }
        r
    }

    /// Adds every entry, as a knowledge item, to the retriever.
    pub fn populate_knowledge_retriever(&self, retriever: &mut KnowledgeRetriever) -> (r: Result<(), KnowledgeBaseError>)
        ensures
            r is Ok,
            final(retriever).items_view().len() == old(retriever).items_view().len() + self.entries_view().len(),
            final(retriever).items_view().subrange(0, old(retriever).items_view().len() as int) == old(retriever).items_view(),
            forall|i: int| 0 <= i < self.entries_view().len() ==> item_of(self.entries_view()[i],
                #[trigger] final(retriever).items_view()[old(retriever).items_view().len() + i]),
            final(retriever).config_view() == old(retriever).config_view(),
    {
        let mut items = self.to_knowledge_items();
        let ghost all = items@;
        let ghost start = retriever.items_view();
        while items.len() > 0
            invariant
                retriever.items_view() + items@ == start + all,
                retriever.items_view().len() + items@.len() == start.len() + all.len(),
                retriever.config_view() == old(retriever).config_view(),
            decreases items@.len(),
        {
            let item = items.remove(0);
            let _ = retriever.add_item(item);
            assert(retriever.items_view() + items@ =~= start + all);
        }
        assert(retriever.items_view() =~= start + all);
        Ok(())
    }
}

/// A knowledge base with the default configuration and the default
/// entries.
pub fn create_default_knowledge_base() -> (r: Result<FinancialKnowledgeBase, KnowledgeBaseError>)
    ensures
        r is Ok,
        r->Ok_0.entries_view().len() == 9,
        forall|i: int| 0 <= i < 9 ==> entry_as_specified(#[trigger] r->Ok_0.entries_view()[i], default_entries()[i]),
{
    let config = FinancialKnowledgeBaseConfig::default();
    let mut kb = FinancialKnowledgeBase::new(config);
    proof {
        lemma_defaults_all_added();
    }
    match kb.initialize() {
        Ok(()) => {},
        Err(e) => {
            return Err(e);
        },
    }
    assert forall|i: int| 0 <= i < 9 implies entry_as_specified(#[trigger] kb.entries_view()[i], default_entries()[i]) by {
        assert(kb.entries_view()[0 + i] == kb.entries_view()[i]);
    }
    Ok(kb)
}

/// Counting the default entries added from the `i`-th on gives at least
/// `i`.
proof fn lemma_defaults_added_at_least(ids: Seq<Seq<char>>, i: nat)
    requires
        i <= 9,
    ensures
        i <= defaults_added(ids, i) <= 9,
    decreases 9 - i,
{
    if i < 9 && !has_id(ids, default_entries()[i as int].0.0) {
        lemma_defaults_added_at_least(ids.push(default_entries()[i as int].0.0), i + 1);
    }
}

/// Every default entry from the `i`-th on is added to a base holding
/// exactly the identifiers of the ones before.
proof fn lemma_defaults_added_from(ids: Seq<Seq<char>>, i: nat)
    requires
        i <= 9,
        ids.len() == i,
        forall|k: int| 0 <= k < i ==> ids[k] == default_entries()[k].0.0,
    ensures
        defaults_added(ids, i) == 9,
    decreases 9 - i,
{
    if i < 9 {
        lemma_default_ids_distinct();
        let id = default_entries()[i as int].0.0;
        assert(!has_id(ids, id));
        lemma_defaults_added_from(ids.push(id), i + 1);
    }
}

/// Every default entry is added to an empty base.
pub proof fn lemma_defaults_all_added()
    ensures
        defaults_added(entry_ids(Seq::<FinancialKnowledgeEntry>::empty()), 0) == 9,
{
    assert(entry_ids(Seq::<FinancialKnowledgeEntry>::empty()) =~= Seq::<Seq<char>>::empty());
    lemma_defaults_added_from(Seq::<Seq<char>>::empty(), 0);
}


/// Initializing is not repeated: once the first default entry is in the
/// base, initializing again adds nothing and reports the duplicate (see
/// `FinancialKnowledgeBase::initialize`).
pub proof fn lemma_initialize_once(entries: Seq<FinancialKnowledgeEntry>)
    requires
        entries.len() > 0,
        entry_as_specified(entries[0], default_entries()[0]),
    ensures
        defaults_added(entry_ids(entries), 0) == 0,
{
    assert(entry_ids(entries)[0] == default_entries()[0].0.0);
}

} // verus!
