//! Rule-based understanding of financial queries: intent recognition and
//! entity extraction by regular-expression patterns, and canned responses.

use vstd::prelude::*;
use crate::pattern::{PatternMatch, find_all, is_match, regex_find_all, regex_matches};
use crate::text::{to_lowercase, lowercase, str_contains, is_substring};
use vstd::utf8::encode_utf8;

verus! {

/// Confidence (in thousandths) given to every pattern-based recognition.
pub const PATTERN_CONFIDENCE: u32 = 800;

/// Financial query intent types.
#[derive(Debug, Clone, Copy, PartialEq, Eq, Structural, Hash)]
pub enum FinancialQueryIntent {
    /// Portfolio performance inquiry
    PortfolioPerformance,
    /// Asset allocation inquiry
    AssetAllocation,
    /// Investment recommendation request
    InvestmentRecommendation,
    /// Risk assessment inquiry
    RiskAssessment,
    /// Market information inquiry
    MarketInformation,
    /// ESG/Sustainable investing inquiry
    SustainableInvesting,
    /// Alternative investments inquiry
    AlternativeInvestments,
    /// International investing inquiry
    InternationalInvesting,
    /// Sector or thematic investing inquiry
    ThematicInvesting,
    /// Retirement planning inquiry
    RetirementPlanning,
    /// Retirement income strategies
    RetirementIncomeStrategies,
    /// Social Security optimization
    SocialSecurityOptimization,
    /// Medicare and health costs in retirement
    RetirementHealthcare,
    /// Required Minimum Distributions (RMDs)
    RequiredMinimumDistributions,
    /// Pension and defined benefit plans
    PensionPlanning,
    /// Early retirement planning
    EarlyRetirement,
    /// Estate planning inquiry
    EstatePlanning,
    /// Trust services and planning
    TrustPlanning,
    /// Charitable giving inquiry
    CharitableGiving,
    /// Family wealth transfer
    WealthTransfer,
    /// Business succession planning
    BusinessSuccession,
    /// Private banking services
    PrivateBanking,
    /// Executive compensation strategies
    ExecutiveCompensation,
    /// Tax optimization inquiry
    TaxOptimization,
    /// Tax-loss harvesting
    TaxLossHarvesting,
    /// Tax-efficient investing
    TaxEfficientInvesting,
    /// Tax planning for specific situations
    SpecializedTaxPlanning,
    /// Goal progress inquiry
    GoalProgress,
    /// Cash flow analysis inquiry
    CashFlowAnalysis,
    /// Budget analysis inquiry
    BudgetAnalysis,
    /// Debt management inquiry
    DebtManagement,
    /// Insurance analysis inquiry
    InsuranceAnalysis,
    /// Financial education inquiry
    FinancialEducation,
    /// Account information inquiry
    AccountInformation,
    /// Transaction history inquiry
    TransactionHistory,
    /// Account setup and maintenance
    AccountSetup,
    /// Account transfers and rollovers
    AccountTransfers,
    /// Marriage financial planning
    MarriagePlanning,
    /// Divorce financial planning
    DivorcePlanning,
    /// New child or grandchild planning
    ChildPlanning,
    /// Education funding (college, private school)
    EducationPlanning,
    /// Home purchase or refinancing
    HomePurchase,
    /// Career change or job transition
    CareerTransition,
    /// Inheritance planning
    InheritancePlanning,
    /// Sudden wealth management
    SuddenWealth,
    /// Health crisis planning
    HealthCrisisPlanning,
    /// Long-term care planning
    LongTermCarePlanning,
    /// Relocation planning
    RelocationPlanning,
    /// Early career planning (20s-30s)
    EarlyCareerPlanning,
    /// Family formation planning (30s-40s)
    FamilyFormationPlanning,
    /// Peak earning years planning (40s-50s)
    PeakEarningsPlanning,
    /// Pre-retirement planning (50s-60s)
    PreRetirementPlanning,
    /// Retirement transition planning
    RetirementTransitionPlanning,
    /// Later retirement planning (70s+)
    LaterRetirementPlanning,
    /// Risk tolerance reassessment
    RiskToleranceReassessment,
    /// Behavioral coaching during market volatility
    MarketVolatilityCoaching,
    /// Financial decision-making support
    DecisionMakingSupport,
    /// Financial wellness and mindfulness
    FinancialWellness,
    /// Greeting intent
    Greeting,
    /// Farewell intent
    Farewell,
    /// Help intent
    Help,
    /// Unknown intent
    Unknown,
}

impl FinancialQueryIntent {
    /// The intent's name, as it is displayed.
    pub open spec fn spec_name(self) -> Seq<char> {
        match self {
            FinancialQueryIntent::PortfolioPerformance => "PortfolioPerformance"@,
            FinancialQueryIntent::AssetAllocation => "AssetAllocation"@,
            FinancialQueryIntent::InvestmentRecommendation => "InvestmentRecommendation"@,
            FinancialQueryIntent::RiskAssessment => "RiskAssessment"@,
            FinancialQueryIntent::MarketInformation => "MarketInformation"@,
            FinancialQueryIntent::SustainableInvesting => "SustainableInvesting"@,
            FinancialQueryIntent::AlternativeInvestments => "AlternativeInvestments"@,
            FinancialQueryIntent::InternationalInvesting => "InternationalInvesting"@,
            FinancialQueryIntent::ThematicInvesting => "ThematicInvesting"@,
            FinancialQueryIntent::RetirementPlanning => "RetirementPlanning"@,
            FinancialQueryIntent::RetirementIncomeStrategies => "RetirementIncomeStrategies"@,
            FinancialQueryIntent::SocialSecurityOptimization => "SocialSecurityOptimization"@,
            FinancialQueryIntent::RetirementHealthcare => "RetirementHealthcare"@,
            FinancialQueryIntent::RequiredMinimumDistributions => "RequiredMinimumDistributions"@,
            FinancialQueryIntent::PensionPlanning => "PensionPlanning"@,
            FinancialQueryIntent::EarlyRetirement => "EarlyRetirement"@,
            FinancialQueryIntent::EstatePlanning => "EstatePlanning"@,
            FinancialQueryIntent::TrustPlanning => "TrustPlanning"@,
            FinancialQueryIntent::CharitableGiving => "CharitableGiving"@,
            FinancialQueryIntent::WealthTransfer => "WealthTransfer"@,
            FinancialQueryIntent::BusinessSuccession => "BusinessSuccession"@,
            FinancialQueryIntent::PrivateBanking => "PrivateBanking"@,
            FinancialQueryIntent::ExecutiveCompensation => "ExecutiveCompensation"@,
            FinancialQueryIntent::TaxOptimization => "TaxOptimization"@,
            FinancialQueryIntent::TaxLossHarvesting => "TaxLossHarvesting"@,
            FinancialQueryIntent::TaxEfficientInvesting => "TaxEfficientInvesting"@,
            FinancialQueryIntent::SpecializedTaxPlanning => "SpecializedTaxPlanning"@,
            FinancialQueryIntent::GoalProgress => "GoalProgress"@,
            FinancialQueryIntent::CashFlowAnalysis => "CashFlowAnalysis"@,
            FinancialQueryIntent::BudgetAnalysis => "BudgetAnalysis"@,
            FinancialQueryIntent::DebtManagement => "DebtManagement"@,
            FinancialQueryIntent::InsuranceAnalysis => "InsuranceAnalysis"@,
            FinancialQueryIntent::FinancialEducation => "FinancialEducation"@,
            FinancialQueryIntent::AccountInformation => "AccountInformation"@,
            FinancialQueryIntent::TransactionHistory => "TransactionHistory"@,
            FinancialQueryIntent::AccountSetup => "AccountSetup"@,
            FinancialQueryIntent::AccountTransfers => "AccountTransfers"@,
            FinancialQueryIntent::MarriagePlanning => "MarriagePlanning"@,
            FinancialQueryIntent::DivorcePlanning => "DivorcePlanning"@,
            FinancialQueryIntent::ChildPlanning => "ChildPlanning"@,
            FinancialQueryIntent::EducationPlanning => "EducationPlanning"@,
            FinancialQueryIntent::HomePurchase => "HomePurchase"@,
            FinancialQueryIntent::CareerTransition => "CareerTransition"@,
            FinancialQueryIntent::InheritancePlanning => "InheritancePlanning"@,
            FinancialQueryIntent::SuddenWealth => "SuddenWealth"@,
            FinancialQueryIntent::HealthCrisisPlanning => "HealthCrisisPlanning"@,
            FinancialQueryIntent::LongTermCarePlanning => "LongTermCarePlanning"@,
            FinancialQueryIntent::RelocationPlanning => "RelocationPlanning"@,
            FinancialQueryIntent::EarlyCareerPlanning => "EarlyCareerPlanning"@,
            FinancialQueryIntent::FamilyFormationPlanning => "FamilyFormationPlanning"@,
            FinancialQueryIntent::PeakEarningsPlanning => "PeakEarningsPlanning"@,
            FinancialQueryIntent::PreRetirementPlanning => "PreRetirementPlanning"@,
            FinancialQueryIntent::RetirementTransitionPlanning => "RetirementTransitionPlanning"@,
            FinancialQueryIntent::LaterRetirementPlanning => "LaterRetirementPlanning"@,
            FinancialQueryIntent::RiskToleranceReassessment => "RiskToleranceReassessment"@,
            FinancialQueryIntent::MarketVolatilityCoaching => "MarketVolatilityCoaching"@,
            FinancialQueryIntent::DecisionMakingSupport => "DecisionMakingSupport"@,
            FinancialQueryIntent::FinancialWellness => "FinancialWellness"@,
            FinancialQueryIntent::Greeting => "Greeting"@,
            FinancialQueryIntent::Farewell => "Farewell"@,
            FinancialQueryIntent::Help => "Help"@,
            FinancialQueryIntent::Unknown => "Unknown"@,
        }
    }

    /// The intent with the name, if some intent has it.
    pub fn from_name(name: &str) -> (r: Option<Self>)
        ensures
            match r {
                Some(i) => i.spec_name() == name@,
                None => forall|i: FinancialQueryIntent| #[trigger] i.spec_name() != name@,
            },
    {
        if crate::json::str_equals(name, "PortfolioPerformance") {
            return Some(FinancialQueryIntent::PortfolioPerformance);
        }
        if crate::json::str_equals(name, "AssetAllocation") {
            return Some(FinancialQueryIntent::AssetAllocation);
        }
        if crate::json::str_equals(name, "InvestmentRecommendation") {
            return Some(FinancialQueryIntent::InvestmentRecommendation);
        }
        if crate::json::str_equals(name, "RiskAssessment") {
            return Some(FinancialQueryIntent::RiskAssessment);
        }
        if crate::json::str_equals(name, "MarketInformation") {
            return Some(FinancialQueryIntent::MarketInformation);
        }
        if crate::json::str_equals(name, "SustainableInvesting") {
            return Some(FinancialQueryIntent::SustainableInvesting);
        }
        if crate::json::str_equals(name, "AlternativeInvestments") {
            return Some(FinancialQueryIntent::AlternativeInvestments);
        }
        if crate::json::str_equals(name, "InternationalInvesting") {
            return Some(FinancialQueryIntent::InternationalInvesting);
        }
        if crate::json::str_equals(name, "ThematicInvesting") {
            return Some(FinancialQueryIntent::ThematicInvesting);
        }
        if crate::json::str_equals(name, "RetirementPlanning") {
            return Some(FinancialQueryIntent::RetirementPlanning);
        }
        if crate::json::str_equals(name, "RetirementIncomeStrategies") {
            return Some(FinancialQueryIntent::RetirementIncomeStrategies);
        }
        if crate::json::str_equals(name, "SocialSecurityOptimization") {
            return Some(FinancialQueryIntent::SocialSecurityOptimization);
        }
        if crate::json::str_equals(name, "RetirementHealthcare") {
            return Some(FinancialQueryIntent::RetirementHealthcare);
        }
        if crate::json::str_equals(name, "RequiredMinimumDistributions") {
            return Some(FinancialQueryIntent::RequiredMinimumDistributions);
        }
        if crate::json::str_equals(name, "PensionPlanning") {
            return Some(FinancialQueryIntent::PensionPlanning);
        }
        if crate::json::str_equals(name, "EarlyRetirement") {
            return Some(FinancialQueryIntent::EarlyRetirement);
        }
        if crate::json::str_equals(name, "EstatePlanning") {
            return Some(FinancialQueryIntent::EstatePlanning);
        }
        if crate::json::str_equals(name, "TrustPlanning") {
            return Some(FinancialQueryIntent::TrustPlanning);
        }
        if crate::json::str_equals(name, "CharitableGiving") {
            return Some(FinancialQueryIntent::CharitableGiving);
        }
        if crate::json::str_equals(name, "WealthTransfer") {
            return Some(FinancialQueryIntent::WealthTransfer);
        }
        if crate::json::str_equals(name, "BusinessSuccession") {
            return Some(FinancialQueryIntent::BusinessSuccession);
        }
        if crate::json::str_equals(name, "PrivateBanking") {
            return Some(FinancialQueryIntent::PrivateBanking);
        }
        if crate::json::str_equals(name, "ExecutiveCompensation") {
            return Some(FinancialQueryIntent::ExecutiveCompensation);
        }
        if crate::json::str_equals(name, "TaxOptimization") {
            return Some(FinancialQueryIntent::TaxOptimization);
        }
        if crate::json::str_equals(name, "TaxLossHarvesting") {
            return Some(FinancialQueryIntent::TaxLossHarvesting);
        }
        if crate::json::str_equals(name, "TaxEfficientInvesting") {
            return Some(FinancialQueryIntent::TaxEfficientInvesting);
        }
        if crate::json::str_equals(name, "SpecializedTaxPlanning") {
            return Some(FinancialQueryIntent::SpecializedTaxPlanning);
        }
        if crate::json::str_equals(name, "GoalProgress") {
            return Some(FinancialQueryIntent::GoalProgress);
        }
        if crate::json::str_equals(name, "CashFlowAnalysis") {
            return Some(FinancialQueryIntent::CashFlowAnalysis);
        }
        if crate::json::str_equals(name, "BudgetAnalysis") {
            return Some(FinancialQueryIntent::BudgetAnalysis);
        }
        if crate::json::str_equals(name, "DebtManagement") {
            return Some(FinancialQueryIntent::DebtManagement);
        }
        if crate::json::str_equals(name, "InsuranceAnalysis") {
            return Some(FinancialQueryIntent::InsuranceAnalysis);
        }
        if crate::json::str_equals(name, "FinancialEducation") {
            return Some(FinancialQueryIntent::FinancialEducation);
        }
        if crate::json::str_equals(name, "AccountInformation") {
            return Some(FinancialQueryIntent::AccountInformation);
        }
        if crate::json::str_equals(name, "TransactionHistory") {
            return Some(FinancialQueryIntent::TransactionHistory);
        }
        if crate::json::str_equals(name, "AccountSetup") {
            return Some(FinancialQueryIntent::AccountSetup);
        }
        if crate::json::str_equals(name, "AccountTransfers") {
            return Some(FinancialQueryIntent::AccountTransfers);
        }
        if crate::json::str_equals(name, "MarriagePlanning") {
            return Some(FinancialQueryIntent::MarriagePlanning);
        }
        if crate::json::str_equals(name, "DivorcePlanning") {
            return Some(FinancialQueryIntent::DivorcePlanning);
        }
        if crate::json::str_equals(name, "ChildPlanning") {
            return Some(FinancialQueryIntent::ChildPlanning);
        }
        if crate::json::str_equals(name, "EducationPlanning") {
            return Some(FinancialQueryIntent::EducationPlanning);
        }
        if crate::json::str_equals(name, "HomePurchase") {
            return Some(FinancialQueryIntent::HomePurchase);
        }
        if crate::json::str_equals(name, "CareerTransition") {
            return Some(FinancialQueryIntent::CareerTransition);
        }
        if crate::json::str_equals(name, "InheritancePlanning") {
            return Some(FinancialQueryIntent::InheritancePlanning);
        }
        if crate::json::str_equals(name, "SuddenWealth") {
            return Some(FinancialQueryIntent::SuddenWealth);
        }
        if crate::json::str_equals(name, "HealthCrisisPlanning") {
            return Some(FinancialQueryIntent::HealthCrisisPlanning);
        }
        if crate::json::str_equals(name, "LongTermCarePlanning") {
            return Some(FinancialQueryIntent::LongTermCarePlanning);
        }
        if crate::json::str_equals(name, "RelocationPlanning") {
            return Some(FinancialQueryIntent::RelocationPlanning);
        }
        if crate::json::str_equals(name, "EarlyCareerPlanning") {
            return Some(FinancialQueryIntent::EarlyCareerPlanning);
        }
        if crate::json::str_equals(name, "FamilyFormationPlanning") {
            return Some(FinancialQueryIntent::FamilyFormationPlanning);
        }
        if crate::json::str_equals(name, "PeakEarningsPlanning") {
            return Some(FinancialQueryIntent::PeakEarningsPlanning);
        }
        if crate::json::str_equals(name, "PreRetirementPlanning") {
            return Some(FinancialQueryIntent::PreRetirementPlanning);
        }
        if crate::json::str_equals(name, "RetirementTransitionPlanning") {
            return Some(FinancialQueryIntent::RetirementTransitionPlanning);
        }
        if crate::json::str_equals(name, "LaterRetirementPlanning") {
            return Some(FinancialQueryIntent::LaterRetirementPlanning);
        }
        if crate::json::str_equals(name, "RiskToleranceReassessment") {
            return Some(FinancialQueryIntent::RiskToleranceReassessment);
        }
        if crate::json::str_equals(name, "MarketVolatilityCoaching") {
            return Some(FinancialQueryIntent::MarketVolatilityCoaching);
        }
        if crate::json::str_equals(name, "DecisionMakingSupport") {
            return Some(FinancialQueryIntent::DecisionMakingSupport);
        }
        if crate::json::str_equals(name, "FinancialWellness") {
            return Some(FinancialQueryIntent::FinancialWellness);
        }
        if crate::json::str_equals(name, "Greeting") {
            return Some(FinancialQueryIntent::Greeting);
        }
        if crate::json::str_equals(name, "Farewell") {
            return Some(FinancialQueryIntent::Farewell);
        }
        if crate::json::str_equals(name, "Help") {
            return Some(FinancialQueryIntent::Help);
        }
        if crate::json::str_equals(name, "Unknown") {
            return Some(FinancialQueryIntent::Unknown);
        }
        None
    }

    /// The intent's name, as it is displayed.
    pub fn name(&self) -> (s: &'static str)
        ensures
            s@ == self.spec_name(),
    {
        match self {
            FinancialQueryIntent::PortfolioPerformance => "PortfolioPerformance",
            FinancialQueryIntent::AssetAllocation => "AssetAllocation",
            FinancialQueryIntent::InvestmentRecommendation => "InvestmentRecommendation",
            FinancialQueryIntent::RiskAssessment => "RiskAssessment",
            FinancialQueryIntent::MarketInformation => "MarketInformation",
            FinancialQueryIntent::SustainableInvesting => "SustainableInvesting",
            FinancialQueryIntent::AlternativeInvestments => "AlternativeInvestments",
            FinancialQueryIntent::InternationalInvesting => "InternationalInvesting",
            FinancialQueryIntent::ThematicInvesting => "ThematicInvesting",
            FinancialQueryIntent::RetirementPlanning => "RetirementPlanning",
            FinancialQueryIntent::RetirementIncomeStrategies => "RetirementIncomeStrategies",
            FinancialQueryIntent::SocialSecurityOptimization => "SocialSecurityOptimization",
            FinancialQueryIntent::RetirementHealthcare => "RetirementHealthcare",
            FinancialQueryIntent::RequiredMinimumDistributions => "RequiredMinimumDistributions",
            FinancialQueryIntent::PensionPlanning => "PensionPlanning",
            FinancialQueryIntent::EarlyRetirement => "EarlyRetirement",
            FinancialQueryIntent::EstatePlanning => "EstatePlanning",
            FinancialQueryIntent::TrustPlanning => "TrustPlanning",
            FinancialQueryIntent::CharitableGiving => "CharitableGiving",
            FinancialQueryIntent::WealthTransfer => "WealthTransfer",
            FinancialQueryIntent::BusinessSuccession => "BusinessSuccession",
            FinancialQueryIntent::PrivateBanking => "PrivateBanking",
            FinancialQueryIntent::ExecutiveCompensation => "ExecutiveCompensation",
            FinancialQueryIntent::TaxOptimization => "TaxOptimization",
            FinancialQueryIntent::TaxLossHarvesting => "TaxLossHarvesting",
            FinancialQueryIntent::TaxEfficientInvesting => "TaxEfficientInvesting",
            FinancialQueryIntent::SpecializedTaxPlanning => "SpecializedTaxPlanning",
            FinancialQueryIntent::GoalProgress => "GoalProgress",
            FinancialQueryIntent::CashFlowAnalysis => "CashFlowAnalysis",
            FinancialQueryIntent::BudgetAnalysis => "BudgetAnalysis",
            FinancialQueryIntent::DebtManagement => "DebtManagement",
            FinancialQueryIntent::InsuranceAnalysis => "InsuranceAnalysis",
            FinancialQueryIntent::FinancialEducation => "FinancialEducation",
            FinancialQueryIntent::AccountInformation => "AccountInformation",
            FinancialQueryIntent::TransactionHistory => "TransactionHistory",
            FinancialQueryIntent::AccountSetup => "AccountSetup",
            FinancialQueryIntent::AccountTransfers => "AccountTransfers",
            FinancialQueryIntent::MarriagePlanning => "MarriagePlanning",
            FinancialQueryIntent::DivorcePlanning => "DivorcePlanning",
            FinancialQueryIntent::ChildPlanning => "ChildPlanning",
            FinancialQueryIntent::EducationPlanning => "EducationPlanning",
            FinancialQueryIntent::HomePurchase => "HomePurchase",
            FinancialQueryIntent::CareerTransition => "CareerTransition",
            FinancialQueryIntent::InheritancePlanning => "InheritancePlanning",
            FinancialQueryIntent::SuddenWealth => "SuddenWealth",
            FinancialQueryIntent::HealthCrisisPlanning => "HealthCrisisPlanning",
            FinancialQueryIntent::LongTermCarePlanning => "LongTermCarePlanning",
            FinancialQueryIntent::RelocationPlanning => "RelocationPlanning",
            FinancialQueryIntent::EarlyCareerPlanning => "EarlyCareerPlanning",
            FinancialQueryIntent::FamilyFormationPlanning => "FamilyFormationPlanning",
            FinancialQueryIntent::PeakEarningsPlanning => "PeakEarningsPlanning",
            FinancialQueryIntent::PreRetirementPlanning => "PreRetirementPlanning",
            FinancialQueryIntent::RetirementTransitionPlanning => "RetirementTransitionPlanning",
            FinancialQueryIntent::LaterRetirementPlanning => "LaterRetirementPlanning",
            FinancialQueryIntent::RiskToleranceReassessment => "RiskToleranceReassessment",
            FinancialQueryIntent::MarketVolatilityCoaching => "MarketVolatilityCoaching",
            FinancialQueryIntent::DecisionMakingSupport => "DecisionMakingSupport",
            FinancialQueryIntent::FinancialWellness => "FinancialWellness",
            FinancialQueryIntent::Greeting => "Greeting",
            FinancialQueryIntent::Farewell => "Farewell",
            FinancialQueryIntent::Help => "Help",
            FinancialQueryIntent::Unknown => "Unknown",
        }
    }
}

/// Entity types that can be extracted from financial queries.
#[derive(Debug, Clone, Copy, PartialEq, Eq, Structural, Hash)]
pub enum EntityType {
    /// Time period (e.g., "last month", "year to date", "since inception")
    TimePeriod,
    /// Date (e.g., "January 1st", "next year")
    Date,
    /// Age (e.g., "65 years old", "at age 70")
    Age,
    /// Life stage (e.g., "retirement", "early career", "family formation")
    LifeStage,
    /// Account type (e.g., "401k", "IRA", "brokerage")
    AccountType,
    /// Account identifier (e.g., account number, nickname)
    AccountIdentifier,
    /// Financial product (e.g., "annuity", "CD", "money market")
    FinancialProduct,
    /// Asset class (e.g., "stocks", "bonds", "real estate")
    AssetClass,
    /// Security (e.g., "AAPL", "S&P 500")
    Security,
    /// Sector (e.g., "technology", "healthcare", "energy")
    Sector,
    /// Investment style (e.g., "growth", "value", "income")
    InvestmentStyle,
    /// ESG preference (e.g., "environmental", "social", "governance")
    EsgPreference,
    /// Financial goal (e.g., "retirement", "college fund")
    Goal,
    /// Goal timeframe (e.g., "short-term", "long-term")
    GoalTimeframe,
    /// Goal priority (e.g., "essential", "important", "aspirational")
    GoalPriority,
    /// Amount (e.g., "$5000", "5%")
    Amount,
    /// Income (e.g., "salary", "pension", "social security")
    Income,
    /// Expense (e.g., "housing", "transportation")
    Expense,
    /// Asset (e.g., "home", "investment portfolio", "business")
    Asset,
    /// Debt (e.g., "mortgage", "student loan")
    Debt,
    /// Risk level (e.g., "conservative", "aggressive")
    RiskLevel,
    /// Financial metric (e.g., "return", "volatility", "Sharpe ratio")
    Metric,
    /// Benchmark (e.g., "S&P 500", "Barclays Aggregate Bond Index")
    Benchmark,
    /// Tax type (e.g., "capital gains", "income tax")
    TaxType,
    /// Tax strategy (e.g., "tax-loss harvesting", "Roth conversion")
    TaxStrategy,
    /// Tax status (e.g., "tax-exempt", "tax-deferred", "taxable")
    TaxStatus,
    /// Insurance type (e.g., "life insurance", "health insurance")
    Insurance,
    /// Insurance coverage (e.g., "term", "whole life", "universal life")
    InsuranceCoverage,
    /// Life event (e.g., "marriage", "divorce", "birth of child")
    LifeEvent,
    /// Family member (e.g., "spouse", "child", "parent")
    FamilyMember,
    /// Location (e.g., "New York", "international", "domestic")
    Location,
    /// Behavioral bias (e.g., "loss aversion", "recency bias")
    BehavioralBias,
    /// Emotional state (e.g., "worried", "confident", "uncertain")
    EmotionalState,
    /// Professional (e.g., "CPA", "estate attorney", "insurance agent")
    Professional,
    /// Document (e.g., "will", "trust", "beneficiary form")
    Document,
    /// Regulation (e.g., "SECURE Act", "TCJA", "Reg BI")
    Regulation,
}

impl EntityType {
    /// The entity type's name, as it is displayed.
    pub open spec fn spec_name(self) -> Seq<char> {
        match self {
            EntityType::TimePeriod => "TimePeriod"@,
            EntityType::Date => "Date"@,
            EntityType::Age => "Age"@,
            EntityType::LifeStage => "LifeStage"@,
            EntityType::AccountType => "AccountType"@,
            EntityType::AccountIdentifier => "AccountIdentifier"@,
            EntityType::FinancialProduct => "FinancialProduct"@,
            EntityType::AssetClass => "AssetClass"@,
            EntityType::Security => "Security"@,
            EntityType::Sector => "Sector"@,
            EntityType::InvestmentStyle => "InvestmentStyle"@,
            EntityType::EsgPreference => "EsgPreference"@,
            EntityType::Goal => "Goal"@,
            EntityType::GoalTimeframe => "GoalTimeframe"@,
            EntityType::GoalPriority => "GoalPriority"@,
            EntityType::Amount => "Amount"@,
            EntityType::Income => "Income"@,
            EntityType::Expense => "Expense"@,
            EntityType::Asset => "Asset"@,
            EntityType::Debt => "Debt"@,
            EntityType::RiskLevel => "RiskLevel"@,
            EntityType::Metric => "Metric"@,
            EntityType::Benchmark => "Benchmark"@,
            EntityType::TaxType => "TaxType"@,
            EntityType::TaxStrategy => "TaxStrategy"@,
            EntityType::TaxStatus => "TaxStatus"@,
            EntityType::Insurance => "Insurance"@,
            EntityType::InsuranceCoverage => "InsuranceCoverage"@,
            EntityType::LifeEvent => "LifeEvent"@,
            EntityType::FamilyMember => "FamilyMember"@,
            EntityType::Location => "Location"@,
            EntityType::BehavioralBias => "BehavioralBias"@,
            EntityType::EmotionalState => "EmotionalState"@,
            EntityType::Professional => "Professional"@,
            EntityType::Document => "Document"@,
            EntityType::Regulation => "Regulation"@,
        }
    }

    /// The entity type's name, as it is displayed.
    pub fn name(&self) -> (s: &'static str)
        ensures
            s@ == self.spec_name(),
    {
        match self {
            EntityType::TimePeriod => "TimePeriod",
            EntityType::Date => "Date",
            EntityType::Age => "Age",
            EntityType::LifeStage => "LifeStage",
            EntityType::AccountType => "AccountType",
            EntityType::AccountIdentifier => "AccountIdentifier",
            EntityType::FinancialProduct => "FinancialProduct",
            EntityType::AssetClass => "AssetClass",
            EntityType::Security => "Security",
            EntityType::Sector => "Sector",
            EntityType::InvestmentStyle => "InvestmentStyle",
            EntityType::EsgPreference => "EsgPreference",
            EntityType::Goal => "Goal",
            EntityType::GoalTimeframe => "GoalTimeframe",
            EntityType::GoalPriority => "GoalPriority",
            EntityType::Amount => "Amount",
            EntityType::Income => "Income",
            EntityType::Expense => "Expense",
            EntityType::Asset => "Asset",
            EntityType::Debt => "Debt",
            EntityType::RiskLevel => "RiskLevel",
            EntityType::Metric => "Metric",
            EntityType::Benchmark => "Benchmark",
            EntityType::TaxType => "TaxType",
            EntityType::TaxStrategy => "TaxStrategy",
            EntityType::TaxStatus => "TaxStatus",
            EntityType::Insurance => "Insurance",
            EntityType::InsuranceCoverage => "InsuranceCoverage",
            EntityType::LifeEvent => "LifeEvent",
            EntityType::FamilyMember => "FamilyMember",
            EntityType::Location => "Location",
            EntityType::BehavioralBias => "BehavioralBias",
            EntityType::EmotionalState => "EmotionalState",
            EntityType::Professional => "Professional",
            EntityType::Document => "Document",
            EntityType::Regulation => "Regulation",
        }
    }
}
/// An entity found in a query.
#[derive(Debug, Clone)]
pub struct ExtractedEntity {
    /// Entity type
    pub entity_type: EntityType,
    /// Entity value (the matched text)
    pub value: String,
    /// Confidence score in thousandths (0 to 1000)
    pub confidence: u32,
    /// Start position (byte offset) in the original text
    pub start_pos: usize,
    /// End position (byte offset) in the original text
    pub end_pos: usize,
}

impl ExtractedEntity {
    /// The entity as plain values: type, value, confidence, start, end.
    pub open spec fn view_tuple(self) -> (EntityType, Seq<char>, u32, usize, usize) {
        (self.entity_type, self.value@, self.confidence, self.start_pos, self.end_pos)
    }
}

/// A processed financial query with its intent and entities.
#[derive(Debug, Clone)]
pub struct ProcessedQuery {
    /// Original query text
    pub original_text: String,
    /// Recognized intent
    pub intent: FinancialQueryIntent,
    /// Intent confidence in thousandths (0 to 1000)
    pub intent_confidence: u32,
    /// Extracted entities
    pub entities: Vec<ExtractedEntity>,
    /// Normalized (lower-cased) query text
    pub normalized_text: String,
}

/// The patterns registered for one intent.
#[derive(Debug)]
pub struct IntentPatterns {
    pub intent: FinancialQueryIntent,
    pub patterns: Vec<String>,
}

/// The patterns registered for one entity type.
#[derive(Debug)]
pub struct EntityPatterns {
    pub entity_type: EntityType,
    pub patterns: Vec<String>,
}

/// An entity's value is a part of the text: its UTF-8 bytes are the
/// text's bytes from its start to its end offset.
pub open spec fn entity_located(e: ExtractedEntity, text: Seq<char>) -> bool {
    &&& is_substring(e.value@, text)
    &&& e.start_pos <= e.end_pos <= encode_utf8(text).len()
    &&& encode_utf8(e.value@) == encode_utf8(text).subrange(e.start_pos as int, e.end_pos as int)
}

/// Some pattern of the list matches the text.
pub open spec fn any_pattern_matches(patterns: Seq<String>, text: Seq<char>) -> bool {
    exists|j: int| 0 <= j < patterns.len() && regex_matches(#[trigger] patterns[j]@, text)
}

/// The first intent, from position `i` of the table on, one of whose patterns
/// matches the text.
pub open spec fn first_matching_intent(table: Seq<IntentPatterns>, text: Seq<char>, i: int) -> Option<FinancialQueryIntent>
    decreases table.len() - i,
{
    if i < 0 || i >= table.len() {
        None
    } else if any_pattern_matches(table[i].patterns@, text) {
        Some(table[i].intent)
    } else {
        first_matching_intent(table, text, i + 1)
    }
}

/// The intent and confidence that pattern recognition assigns to a text: the
/// first intent in table order with a matching pattern, at the pattern
/// confidence, or `Unknown` at confidence 0 when nothing matches.
pub open spec fn recognized_intent(table: Seq<IntentPatterns>, text: Seq<char>) -> (FinancialQueryIntent, u32) {
    match first_matching_intent(table, text, 0) {
        Some(intent) => (intent, PATTERN_CONFIDENCE),
        None => (FinancialQueryIntent::Unknown, 0),
    }
}

/// The entities that the matches of one pattern yield.
pub open spec fn match_entities(t: EntityType, matches: Seq<(usize, usize, Seq<char>)>) -> Seq<(EntityType, Seq<char>, u32, usize, usize)> {
    matches.map_values(|m: (usize, usize, Seq<char>)| (t, m.2, PATTERN_CONFIDENCE, m.0, m.1))
}

/// The entities that patterns `j..` of a list yield, pattern by pattern and
/// match by match.
pub open spec fn pattern_entities(t: EntityType, patterns: Seq<String>, text: Seq<char>, j: int) -> Seq<(EntityType, Seq<char>, u32, usize, usize)>
    decreases patterns.len() - j,
{
    if j < 0 || j >= patterns.len() {
        Seq::empty()
    } else {
        match_entities(t, regex_find_all(patterns[j]@, text)) + pattern_entities(t, patterns, text, j + 1)
    }
}

/// The entities that groups `i..` of the table yield, in table order.
pub open spec fn table_entities(table: Seq<EntityPatterns>, text: Seq<char>, i: int) -> Seq<(EntityType, Seq<char>, u32, usize, usize)>
    decreases table.len() - i,
{
    if i < 0 || i >= table.len() {
        Seq::empty()
    } else {
        pattern_entities(table[i].entity_type, table[i].patterns@, text, 0) + table_entities(table, text, i + 1)
    }
}

/// The canned answer for a recognized intent; `original` decides the answer to
/// an unknown intent.
pub open spec fn canned_response(intent: FinancialQueryIntent, original: Seq<char>) -> Seq<char> {
    match intent {
        FinancialQueryIntent::Greeting => "Hello! I'm your financial advisor assistant. How can I help you with your financial planning today?"@,
        FinancialQueryIntent::PortfolioPerformance => "Your portfolio has performed well recently. Would you like to see the detailed performance breakdown?"@,
        FinancialQueryIntent::AssetAllocation => "Your current asset allocation is 60% stocks, 30% bonds, and 10% cash equivalents. Would you like to make any adjustments?"@,
        FinancialQueryIntent::GoalProgress => "You're making good progress toward your goals. Your retirement goal is 75% funded, and your emergency fund is fully funded."@,
        FinancialQueryIntent::TaxOptimization => "I've identified several tax optimization opportunities for you, including tax-loss harvesting and Roth conversion strategies."@,
        FinancialQueryIntent::RetirementPlanning => "Based on your current savings rate and portfolio, you're on track to retire at age 67 with your desired income."@,
        FinancialQueryIntent::CashFlowAnalysis => "Your monthly cash flow shows $5,000 in income and $4,200 in expenses, giving you $800 to save or invest each month."@,
        FinancialQueryIntent::InvestmentRecommendation => "Based on your risk profile and goals, I recommend increasing your allocation to international equities and adding some exposure to REITs."@,
        FinancialQueryIntent::RiskAssessment => "Your portfolio has a moderate risk level with an expected volatility of 12% annually. This aligns with your stated risk tolerance."@,
        FinancialQueryIntent::MarketInformation => "The markets have been volatile recently due to inflation concerns and central bank policies. However, economic fundamentals remain strong."@,
        FinancialQueryIntent::FinancialEducation => "I'd be happy to explain that concept. Would you like a basic overview or a more detailed explanation?"@,
        FinancialQueryIntent::Unknown => if is_substring("my name"@, lowercase(original)) {
            "I don't have access to your personal information like your name. I'm designed to help with financial planning and investment questions. How can I assist you with your financial needs today?"@
        } else {
            "I'm not sure I understand your question. I'm designed to help with financial planning and investment questions. Could you please rephrase your question or ask something about your finances or investments?"@
        },
        _ => "I'm not sure I understand your question. Could you please rephrase it or provide more details about your financial inquiry?"@,
    }
}

/// Errors of query processing.
#[derive(Debug, Clone, PartialEq, Eq, Structural)]
pub enum NlpError {
    /// A required field is missing from a model response.
    MissingField,
    /// A field has the wrong kind of value.
    InvalidField,
    /// A number lies outside its allowed range.
    OutOfRange,
    /// The model response is not well-formed.
    Malformed,
}

/// Natural language processing service for financial queries.
#[derive(Debug)]
pub struct FinancialNlpService {
    /// Intent patterns, in registration order
    intent_patterns: Vec<IntentPatterns>,
    /// Entity extraction patterns, in registration order
    entity_patterns: Vec<EntityPatterns>,
}

/// Converts pattern texts to owned strings.
fn owned_patterns(patterns: Vec<&str>) -> (r: Vec<String>)
    ensures
        r@.len() == patterns@.len(),
        forall|i: int| 0 <= i < r@.len() ==> #[trigger] r@[i]@ == patterns@[i]@,
{
    let mut r: Vec<String> = Vec::new();
    let mut i: usize = 0;
    while i < patterns.len()
        invariant
            i <= patterns@.len(),
            r@.len() == i,
            forall|k: int| 0 <= k < i ==> #[trigger] r@[k]@ == patterns@[k]@,
        decreases patterns@.len() - i,
    {
        r.push(String::from_str(patterns[i]));
        i = i + 1;
    }
    r
}

/// The pattern texts of each intent's entry, in order.
pub open spec fn intent_pattern_views(t: Seq<IntentPatterns>) -> Seq<Seq<Seq<char>>> {
    t.map_values(|g: IntentPatterns| g.patterns@.map_values(|p: String| p@))
}

/// The pattern texts of each entity type's entry, in order.
pub open spec fn entity_pattern_views(t: Seq<EntityPatterns>) -> Seq<Seq<Seq<char>>> {
    t.map_values(|g: EntityPatterns| g.patterns@.map_values(|p: String| p@))
}

impl FinancialNlpService {
    /// The registered intent patterns.
    pub closed spec fn intent_table(&self) -> Seq<IntentPatterns> {
        self.intent_patterns@
    }

    /// The registered entity patterns.
    pub closed spec fn entity_table(&self) -> Seq<EntityPatterns> {
        self.entity_patterns@
    }

    /// Creates the service with the default intent and entity patterns.
    pub fn new() -> (s: Self)
        ensures
            s.intent_table().map_values(|g: IntentPatterns| g.intent) == Self::default_intent_order(),
            s.entity_table().map_values(|g: EntityPatterns| g.entity_type) == Self::default_entity_order(),
            intent_pattern_views(s.intent_table()) == Self::default_intent_patterns(),
            entity_pattern_views(s.entity_table()) == Self::default_entity_patterns(),
            forall|i: int| 0 <= i < s.intent_table().len() ==> #[trigger] s.intent_table()[i].patterns@.len() > 0,
            forall|i: int| 0 <= i < s.entity_table().len() ==> #[trigger] s.entity_table()[i].patterns@.len() > 0,
    {
        let mut service = Self { intent_patterns: Vec::new(), entity_patterns: Vec::new() };
        service.initialize_intent_patterns();
        service.initialize_entity_patterns();
        service
    }

    /// Registers the patterns of an intent after those already registered.
    fn add_intent_patterns(&mut self, intent: FinancialQueryIntent, patterns: Vec<&str>)
        requires
            patterns@.len() > 0,
        ensures
            final(self).intent_patterns@.len() == old(self).intent_patterns@.len() + 1,
            final(self).intent_patterns@.drop_last() == old(self).intent_patterns@,
            final(self).intent_patterns@.last().intent == intent,
            final(self).intent_patterns@.last().patterns@.len() == patterns@.len(),
            final(self).intent_patterns@.last().patterns@.map_values(|p: String| p@) == patterns@.map_values(|p: &str| p@),
            final(self).entity_patterns == old(self).entity_patterns,
    {
        let compiled = owned_patterns(patterns);
        assert(compiled@.map_values(|p: String| p@) =~= patterns@.map_values(|p: &str| p@));
        self.intent_patterns.push(IntentPatterns { intent, patterns: compiled });
        assert(self.intent_patterns@.drop_last() =~= old(self).intent_patterns@);
    }

    /// Registers the patterns of an entity type after those already registered.
    fn add_entity_patterns(&mut self, entity_type: EntityType, patterns: Vec<&str>)
        requires
            patterns@.len() > 0,
        ensures
            final(self).entity_patterns@.len() == old(self).entity_patterns@.len() + 1,
            final(self).entity_patterns@.drop_last() == old(self).entity_patterns@,
            final(self).entity_patterns@.last().entity_type == entity_type,
            final(self).entity_patterns@.last().patterns@.len() == patterns@.len(),
            final(self).entity_patterns@.last().patterns@.map_values(|p: String| p@) == patterns@.map_values(|p: &str| p@),
            final(self).intent_patterns == old(self).intent_patterns,
    {
        let compiled = owned_patterns(patterns);
        assert(compiled@.map_values(|p: String| p@) =~= patterns@.map_values(|p: &str| p@));
        self.entity_patterns.push(EntityPatterns { entity_type, patterns: compiled });
        assert(self.entity_patterns@.drop_last() =~= old(self).entity_patterns@);
    }

    /// Processes a query: the intent is recognized in the lower-cased text,
    /// the entities are extracted from the original text, each value a part
    /// of it.
    pub fn process_query(&self, query: &str) -> (r: Result<ProcessedQuery, NlpError>)
        ensures
            r matches Ok(pq) && {
                &&& pq.original_text@ == query@
                &&& pq.normalized_text@ == lowercase(query@)
                &&& (pq.intent, pq.intent_confidence) == recognized_intent(self.intent_table(), lowercase(query@))
                &&& pq.entities@.map_values(|e: ExtractedEntity| e.view_tuple()) == table_entities(self.entity_table(), query@, 0)
                &&& forall|k: int| 0 <= k < pq.entities@.len() ==> entity_located(#[trigger] pq.entities@[k], query@)
            },
    {
        let normalized_text = self.normalize_text(query);
        let (intent, intent_confidence) = self.recognize_intent(normalized_text.as_str());
        let entities = self.extract_entities(query);
        Ok(ProcessedQuery {
            original_text: String::from_str(query),
            intent,
            intent_confidence,
            entities,
            normalized_text,
        })
    }

    /// Lower-cases a text for intent recognition.
    fn normalize_text(&self, text: &str) -> (r: String)
        ensures
            r@ == lowercase(text@),
    {
        to_lowercase(text)
    }

    fn group_matches(patterns: &Vec<String>, text: &str) -> (b: bool)
        ensures
            b == any_pattern_matches(patterns@, text@),
    {
        let mut j: usize = 0;
        while j < patterns.len()
            invariant
                j <= patterns@.len(),
                forall|k: int| 0 <= k < j ==> !regex_matches(#[trigger] patterns@[k]@, text@),
            decreases patterns@.len() - j,
        {
            if is_match(patterns[j].as_str(), text) {
                return true;
            }
            j = j + 1;
        }
        false
    }

    /// The intent of a text: the first registered intent with a matching pattern.
    fn recognize_intent(&self, text: &str) -> (r: (FinancialQueryIntent, u32))
        ensures
            r == recognized_intent(self.intent_table(), text@),
    {
        let mut i: usize = 0;
        while i < self.intent_patterns.len()
            invariant
                i <= self.intent_patterns@.len(),
                first_matching_intent(self.intent_patterns@, text@, 0) == first_matching_intent(self.intent_patterns@, text@, i as int),
            decreases self.intent_patterns@.len() - i,
        {
            if Self::group_matches(&self.intent_patterns[i].patterns, text) {
                return (self.intent_patterns[i].intent, PATTERN_CONFIDENCE);
            }
            i = i + 1;
        }
        (FinancialQueryIntent::Unknown, 0)
    }

    /// Appends the entities that one pattern's matches yield.
    fn push_matches(out: &mut Vec<ExtractedEntity>, entity_type: EntityType, matches: Vec<PatternMatch>)
        ensures
            final(out)@.map_values(|e: ExtractedEntity| e.view_tuple())
                == old(out)@.map_values(|e: ExtractedEntity| e.view_tuple())
                    + match_entities(entity_type, matches@.map_values(|m: PatternMatch| m.view_triple())),
    {
        let ghost start = out@.map_values(|e: ExtractedEntity| e.view_tuple());
        let ghost ms = matches@.map_values(|m: PatternMatch| m.view_triple());
        let mut k: usize = 0;
        while k < matches.len()
            invariant
                k <= matches@.len(),
                ms == matches@.map_values(|m: PatternMatch| m.view_triple()),
                out@.map_values(|e: ExtractedEntity| e.view_tuple()) == start + match_entities(entity_type, ms.take(k as int)),
            decreases matches@.len() - k,
        {
            let m = &matches[k];
            let ghost before_push = out@;
            out.push(ExtractedEntity {
                entity_type,
                value: m.text.clone(),
                confidence: PATTERN_CONFIDENCE,
                start_pos: m.start,
                end_pos: m.end,
            });
            proof {
                assert(ms[k as int] == matches@[k as int].view_triple());
                assert(out@.map_values(|e: ExtractedEntity| e.view_tuple()) =~= before_push.map_values(|e: ExtractedEntity| e.view_tuple()).push(
                    (entity_type, ms[k as int].2, PATTERN_CONFIDENCE, ms[k as int].0, ms[k as int].1)));
                assert(ms.take(k + 1) =~= ms.take(k as int).push(ms[k as int]));
                assert(match_entities(entity_type, ms.take(k + 1)) =~= match_entities(entity_type, ms.take(k as int)).push(
                    (entity_type, ms[k as int].2, PATTERN_CONFIDENCE, ms[k as int].0, ms[k as int].1)));
            }
            k = k + 1;
        }
        assert(ms.take(matches@.len() as int) =~= ms);
    }

    /// Extracts every match of every registered entity pattern, in
    /// registration order.
    fn extract_entities(&self, text: &str) -> (r: Vec<ExtractedEntity>)
        ensures
            r@.map_values(|e: ExtractedEntity| e.view_tuple()) == table_entities(self.entity_table(), text@, 0),
            forall|k: int| 0 <= k < r@.len() ==> entity_located(#[trigger] r@[k], text@),
    {
        let mut entities: Vec<ExtractedEntity> = Vec::new();
        let mut i: usize = 0;
        while i < self.entity_patterns.len()
            invariant
                i <= self.entity_patterns@.len(),
                entities@.map_values(|e: ExtractedEntity| e.view_tuple()) + table_entities(self.entity_patterns@, text@, i as int)
                    == table_entities(self.entity_patterns@, text@, 0),
                forall|k: int| 0 <= k < entities@.len() ==> entity_located(#[trigger] entities@[k], text@),
            decreases self.entity_patterns@.len() - i,
        {
            let group = &self.entity_patterns[i];
            let ghost before = entities@.map_values(|e: ExtractedEntity| e.view_tuple());
            let mut j: usize = 0;
            while j < group.patterns.len()
                invariant
                    i < self.entity_patterns@.len(),
                    group == self.entity_patterns@[i as int],
                    j <= group.patterns@.len(),
                    entities@.map_values(|e: ExtractedEntity| e.view_tuple()) + pattern_entities(group.entity_type, group.patterns@, text@, j as int)
                        == before + pattern_entities(group.entity_type, group.patterns@, text@, 0),
                    forall|k: int| 0 <= k < entities@.len() ==> entity_located(#[trigger] entities@[k], text@),
                decreases group.patterns@.len() - j,
            {
                let matches = find_all(group.patterns[j].as_str(), text);
                let ghost prev = entities@.map_values(|e: ExtractedEntity| e.view_tuple());
                let ghost prev_len = entities@.len();
                let ghost ms = matches@;
                Self::push_matches(&mut entities, group.entity_type, matches);
                proof {
                    assert forall|k: int| 0 <= k < entities@.len() implies entity_located(#[trigger] entities@[k], text@) by {
                        let all = entities@.map_values(|e: ExtractedEntity| e.view_tuple());
                        assert(all[k] == entities@[k].view_tuple());
                        if k >= prev_len {
                            let tr = ms.map_values(|m: PatternMatch| m.view_triple());
                            assert(all == prev + match_entities(group.entity_type, tr));
                            assert(prev.len() == prev_len);
                            assert(all.len() == entities@.len());
                            assert(tr.len() == ms.len());
                            assert(match_entities(group.entity_type, tr).len() == tr.len());
                            assert(all[k] == match_entities(group.entity_type, tr)[k - prev_len]);
                            assert(tr[k - prev_len] == ms[k - prev_len].view_triple());
                            assert(is_substring(ms[k - prev_len].text@, text@));
                            assert(entities@[k].value@ == ms[k - prev_len].text@);
                            assert(entities@[k].start_pos == ms[k - prev_len].start);
                            assert(entities@[k].end_pos == ms[k - prev_len].end);
                        }
                    }
                    let rest = pattern_entities(group.entity_type, group.patterns@, text@, j + 1);
                    let here = match_entities(group.entity_type, regex_find_all(group.patterns@[j as int]@, text@));
                    assert(pattern_entities(group.entity_type, group.patterns@, text@, j as int) == here + rest);
                    assert(prev + (here + rest) =~= (prev + here) + rest);
                }
                j = j + 1;
            }
            proof {
                let here = pattern_entities(group.entity_type, group.patterns@, text@, 0);
                let rest = table_entities(self.entity_patterns@, text@, i + 1);
                assert(table_entities(self.entity_patterns@, text@, i as int) == here + rest);
                assert(pattern_entities(group.entity_type, group.patterns@, text@, j as int) =~= Seq::empty());
                assert(entities@.map_values(|e: ExtractedEntity| e.view_tuple()) =~= before + here);
                assert(before + (here + rest) =~= (before + here) + rest);
            }
            i = i + 1;
        }
        assert(table_entities(self.entity_patterns@, text@, i as int) =~= Seq::empty());
        assert(entities@.map_values(|e: ExtractedEntity| e.view_tuple()) =~= table_entities(self.entity_patterns@, text@, 0));
        entities
    }

    /// The canned response for a processed query.
    pub fn generate_response(&self, processed_query: &ProcessedQuery) -> (r: String)
        ensures
            r@ == canned_response(processed_query.intent, processed_query.original_text@),
    {
        let s: &str = match processed_query.intent {
            FinancialQueryIntent::Greeting => "Hello! I'm your financial advisor assistant. How can I help you with your financial planning today?",
            FinancialQueryIntent::PortfolioPerformance => "Your portfolio has performed well recently. Would you like to see the detailed performance breakdown?",
            FinancialQueryIntent::AssetAllocation => "Your current asset allocation is 60% stocks, 30% bonds, and 10% cash equivalents. Would you like to make any adjustments?",
            FinancialQueryIntent::GoalProgress => "You're making good progress toward your goals. Your retirement goal is 75% funded, and your emergency fund is fully funded.",
            FinancialQueryIntent::TaxOptimization => "I've identified several tax optimization opportunities for you, including tax-loss harvesting and Roth conversion strategies.",
            FinancialQueryIntent::RetirementPlanning => "Based on your current savings rate and portfolio, you're on track to retire at age 67 with your desired income.",
            FinancialQueryIntent::CashFlowAnalysis => "Your monthly cash flow shows $5,000 in income and $4,200 in expenses, giving you $800 to save or invest each month.",
            FinancialQueryIntent::InvestmentRecommendation => "Based on your risk profile and goals, I recommend increasing your allocation to international equities and adding some exposure to REITs.",
            FinancialQueryIntent::RiskAssessment => "Your portfolio has a moderate risk level with an expected volatility of 12% annually. This aligns with your stated risk tolerance.",
            FinancialQueryIntent::MarketInformation => "The markets have been volatile recently due to inflation concerns and central bank policies. However, economic fundamentals remain strong.",
            FinancialQueryIntent::FinancialEducation => "I'd be happy to explain that concept. Would you like a basic overview or a more detailed explanation?",
            FinancialQueryIntent::Unknown => {
                let lower = to_lowercase(processed_query.original_text.as_str());
                if str_contains(lower.as_str(), "my name") {
                    "I don't have access to your personal information like your name. I'm designed to help with financial planning and investment questions. How can I assist you with your financial needs today?"
                } else {
                    "I'm not sure I understand your question. I'm designed to help with financial planning and investment questions. Could you please rephrase your question or ask something about your finances or investments?"
                }
            },
            _ => "I'm not sure I understand your question. Could you please rephrase it or provide more details about your financial inquiry?",
        };
        String::from_str(s)
    }

    /// The patterns registered by default, one list for each entry of
    /// `default_intent_order`, in that order.
    pub open spec fn default_intent_patterns() -> Seq<Seq<Seq<char>>> {
        seq![
            seq![
                r"(?i)how (is|has) my portfolio (doing|performing)"@,
                r"(?i)what (is|are) my (returns|gains|losses)"@,
                r"(?i)portfolio (performance|return|growth)"@,
                r"(?i)how (much|well) (has|have) my investments (grown|increased|decreased)"@,
                r"(?i)what (is|was) my (return|performance) (in|over|during|for)"@,
                r"(?i)how (did|are) my investments (doing|performing)"@,
                r"(?i)what's my portfolio return"@,
                r"(?i)how well have my investments done"@,
                r"(?i)what was my performance"@,
            ],
            seq![
                r"(?i)^(hi|hello|hey|greetings|good morning|good afternoon|good evening)(\s.*)?$"@,
                r"(?i)^(how are you|how's it going|how do you do|what's up)(\s.*)?$"@,
                r"(?i)^(nice to meet you|pleased to meet you)(\s.*)?$"@,
            ],
            seq![
                r"(?i)what (is|are) my (current )?asset (allocation|mix)"@,
                r"(?i)how (is|are) my (portfolio|investments|assets) (allocated|distributed)"@,
                r"(?i)show me my (asset|portfolio) (allocation|breakdown|distribution)"@,
                r"(?i)(allocation|exposure) (to|in) (stocks|bonds|cash|equities)"@,
                r"(?i)am I (too|properly) (exposed|allocated|invested) (to|in)"@,
            ],
            seq![
                r"(?i)how (am I|are we) (doing|progressing) (on|towards|with) my (goal|retirement|college)"@,
                r"(?i)(progress|status) (of|on|towards) my (financial )?(goal|plan|target)"@,
                r"(?i)will I (have enough|meet my goal|reach my target) for"@,
                r"(?i)am I on track (for|to|with) my"@,
                r"(?i)what (is|are) the (chances|probability|likelihood) (of|that) (meeting|achieving|reaching) my"@,
                r"(?i)am I on track for retirement"@,
                r"(?i)how (is|are) my (retirement|financial|savings) goal (doing|progressing)"@,
                r"(?i)retirement goal"@,
                r"(?i)goal (progress|tracking|status)"@,
            ],
            seq![
                r"(?i)how can I (reduce|lower|minimize) (my )?taxes"@,
                r"(?i)tax (optimization|strategy|planning|efficiency)"@,
                r"(?i)(opportunities|strategies) for tax (loss harvesting|deferral|reduction)"@,
                r"(?i)should I (do a Roth conversion|harvest losses|realize gains)"@,
                r"(?i)what (is|are) my (tax implications|tax liability|tax situation)"@,
            ],
            seq![
                r"(?i)when can I retire"@,
                r"(?i)how much (do I need|should I save) (for|to) retire"@,
                r"(?i)retirement (planning|strategy|income|withdrawal)"@,
                r"(?i)will (my money|I) (last|have enough) (through|in|during) retirement"@,
                r"(?i)(social security|medicare|RMD|required minimum distribution)"@,
            ],
            seq![
                r"(?i)what (is|are) my (monthly|annual) (cash flow|income|expenses)"@,
                r"(?i)how much (am I|are we) (spending|saving|earning)"@,
                r"(?i)(analyze|review|show) my (spending|income|cash flow|budget)"@,
                r"(?i)where (is|does) my money (going|come from)"@,
                r"(?i)how much (can|should) I (save|spend|invest) (each|per) (month|year)"@,
            ],
            seq![
                r"(?i)what should I invest in"@,
                r"(?i)(recommend|suggest) (investments|stocks|bonds|funds)"@,
                r"(?i)how should I invest (my|the) (money|funds|savings)"@,
                r"(?i)should I (buy|sell|hold) (this|these|my) (investment|stock|bond|fund)"@,
                r"(?i)what (changes|adjustments) should I make to my (portfolio|investments)"@,
                r"(?i)I want to invest in"@,
                r"(?i)invest in (a )?(mix of )?(stocks|bonds|equities|fixed income)"@,
                r"(?i)investing in (stocks|bonds|funds|ETFs)"@,
                r"(?i)investment (advice|recommendation|suggestion)"@,
                r"(?i)best (way|approach) to invest"@,
            ],
            seq![
                r"(?i)how (risky|volatile) (is|are) my (portfolio|investments)"@,
                r"(?i)what (is|are) my (risk|volatility|downside)"@,
                r"(?i)am I taking (too much|enough|the right amount of) risk"@,
                r"(?i)(assess|evaluate|measure) my (risk tolerance|risk capacity)"@,
                r"(?i)how would my portfolio (perform|do) (in|during) a (market crash|recession|downturn)"@,
            ],
            seq![
                r"(?i)how (is|are) the (market|markets) (doing|performing)"@,
                r"(?i)what (is|are) (happening|going on) (in|with) the (market|economy)"@,
                r"(?i)(tell|inform) me about (market|economic) (conditions|trends|outlook)"@,
                r"(?i)what (is|are) the (forecast|outlook|prediction) for (stocks|bonds|interest rates)"@,
                r"(?i)should I be (concerned|worried) about (inflation|recession|interest rates)"@,
            ],
            seq![
                r"(?i)(explain|what is|tell me about) (dollar cost averaging|diversification|asset allocation)"@,
                r"(?i)how (does|do) (compound interest|tax-loss harvesting|Roth IRA) work"@,
                r"(?i)what (is|are) the (difference|benefits|drawbacks) (between|of)"@,
                r"(?i)help me understand (how|why|when)"@,
                r"(?i)can you (teach|educate) me (about|on)"@,
            ],
            seq![
                r"(?i)(ESG|sustainable|responsible|ethical|impact) investing"@,
                r"(?i)how (can|do) I invest (according to|based on|aligned with) my (values|ethics|beliefs)"@,
                r"(?i)(environmental|social|governance) (factors|considerations|criteria) in my portfolio"@,
                r"(?i)(carbon|climate|green) (footprint|impact|investing)"@,
                r"(?i)(socially responsible|sustainable) (funds|ETFs|investments)"@,
                r"(?i)invest in ESG"@,
                r"(?i)ESG funds"@,
                r"(?i)sustainable (portfolio|investment|strategy)"@,
                r"(?i)ethical (investment|portfolio|fund)"@,
                r"(?i)invest (ethically|sustainably|responsibly)"@,
            ],
            seq![
                r"(?i)how (should|can|do) I (generate|create|plan for) (income|cash flow) in retirement"@,
                r"(?i)(withdrawal|distribution) (strategy|plan|rate) (for|in|during) retirement"@,
                r"(?i)(sustainable|safe) withdrawal rate"@,
                r"(?i)how (long|much) will my (money|savings|nest egg) last in retirement"@,
                r"(?i)(sequence of returns|longevity|inflation) risk in retirement"@,
            ],
            seq![
                r"(?i)when should I (claim|take|start) (my )?social security"@,
                r"(?i)(maximize|optimize|increase) (my )?social security (benefits|payments)"@,
                r"(?i)social security (strategy|planning|optimization)"@,
                r"(?i)how (much|many) (will|can) I (get|receive) from social security"@,
                r"(?i)(spousal|survivor|divorced) (benefits|strategy) (for|with) social security"@,
                r"(?i)social security benefits"@,
                r"(?i)claim (my )?social security"@,
                r"(?i)when (to|should I) (start|begin|take) (receiving|collecting) (my )?(social security|SS|SSI)"@,
                r"(?i)optimal (age|time) (for|to) (claim|take|start) social security"@,
            ],
            seq![
                r"(?i)(estate|legacy) planning"@,
                r"(?i)(will|trust|power of attorney|healthcare directive)"@,
                r"(?i)how (do|can|should) I (pass on|transfer|leave) (my|assets|wealth|money) to (my|family|heirs|beneficiaries)"@,
                r"(?i)(estate|inheritance|death) (tax|taxes)"@,
                r"(?i)(probate|executor|beneficiary) (process|designation|planning)"@,
            ],
            seq![
                r"(?i)(charitable|philanthropy|donation) (giving|strategy|planning)"@,
                r"(?i)(donor advised fund|charitable trust|qualified charitable distribution)"@,
                r"(?i)how (can|do|should) I (give|donate) (to|money|assets) to charity"@,
                r"(?i)(tax benefits|deduction|advantages) of (charitable|giving|donating)"@,
                r"(?i)(legacy|impact) (giving|philanthropy)"@,
            ],
            seq![
                r"(?i)(getting married|marriage|wedding) (finances|planning|money)"@,
                r"(?i)(prenuptial|prenup) agreement"@,
                r"(?i)how (should|do|can) (we|I) (manage|handle|combine) (finances|money|accounts) (after|when) (getting married|marriage)"@,
                r"(?i)(joint|separate) (finances|accounts|money) (in|for|with) (marriage|spouse)"@,
                r"(?i)financial (implications|considerations|planning) (of|for) (marriage|getting married)"@,
                r"(?i)getting married next year"@,
                r"(?i)married (finances|money|financial planning)"@,
                r"(?i)(I'm|I am) getting married"@,
                r"(?i)marriage (and|&) (money|finances|financial planning)"@,
                r"(?i)combine (finances|money|accounts) (with|after) marriage"@,
            ],
            seq![
                r"(?i)(divorce|separation) (finances|planning|money)"@,
                r"(?i)how (will|does|can) divorce (affect|impact) (my|our) (finances|retirement|investments)"@,
                r"(?i)(dividing|splitting) (assets|property|accounts|retirement) in divorce"@,
                r"(?i)(alimony|child support|maintenance) (payments|planning|tax)"@,
                r"(?i)financial (recovery|planning|strategy) after divorce"@,
                r"(?i)getting divorced"@,
                r"(?i)I('m| am) getting divorced"@,
                r"(?i)divorce (next|this) (year|month)"@,
                r"(?i)adjust (my|financial|money) (plan|situation) (after|during|for) divorce"@,
                r"(?i)divorce financial (implications|considerations|planning)"@,
            ],
            seq![
                r"(?i)(college|education|school) (savings|planning|fund)"@,
                r"(?i)(529|education savings|college savings) (plan|account)"@,
                r"(?i)how (much|should) (to|I) save for (college|education|school)"@,
                r"(?i)(FAFSA|financial aid|student loans|scholarships)"@,
                r"(?i)(saving|paying) for (my|child's|grandchild's) (education|college|school)"@,
                r"(?i)save for (my|a) child('s)? college"@,
                r"(?i)college education"@,
                r"(?i)how much (should|do) I (need to|have to) save for (my|a) child('s)? (college|education)"@,
                r"(?i)child('s)? (college|education) (fund|savings|cost)"@,
            ],
            seq![
                r"(?i)(starting|early|beginning) (career|job|work) (finances|planning|money)"@,
                r"(?i)(student loan|education debt) (repayment|strategy|planning)"@,
                r"(?i)how (should|do|can) I (save|invest|budget) (in|during) (my|the) (20s|30s|early career)"@,
                r"(?i)(emergency fund|first home|first job) (savings|planning)"@,
                r"(?i)financial (priorities|goals|planning) for (young adults|new graduates|early career)"@,
            ],
            seq![
                r"(?i)(starting a family|having children|family planning) (finances|costs|planning)"@,
                r"(?i)(childcare|daycare|education) (costs|expenses|planning)"@,
                r"(?i)financial (planning|implications|preparation) (for|of) (having|raising) (children|a family)"@,
                r"(?i)(life|health|disability) insurance (for|with) (family|children)"@,
                r"(?i)(saving|budgeting|planning) (with|for) (young|growing) (family|children)"@,
            ],
            seq![
                r"(?i)(pre-retirement|retirement preparation|retirement transition) (planning|strategy)"@,
                r"(?i)(catch-up contributions|maximizing retirement savings|retirement readiness)"@,
                r"(?i)how (should|do|can) I (prepare|plan|save) (for|before) retirement (in|during) (my|the) (50s|60s)"@,
                r"(?i)(retirement income|withdrawal|distribution) (planning|strategy|projection)"@,
                r"(?i)(healthcare costs|long-term care|Medicare) (in|before|planning for) retirement"@,
            ],
            seq![
                r"(?i)(worried|concerned|anxious|nervous) about (market|volatility|investments|losses)"@,
                r"(?i)should I (sell|get out|move to cash) (during|because of) (market volatility|market crash|downturn)"@,
                r"(?i)how (to|should I) (handle|manage|deal with) (market|investment) (volatility|uncertainty|stress)"@,
                r"(?i)(staying the course|long-term perspective|emotional investing)"@,
                r"(?i)(fear|greed|panic) (in|about|regarding) (investing|markets|portfolio)"@,
                r"(?i)worried about (the )?market volatility"@,
                r"(?i)market volatility"@,
                r"(?i)change (my|our) investments (due to|because of) (volatility|market conditions)"@,
                r"(?i)(scared|afraid|fearful) (of|about) (the )?(market|stock|investment) (crash|drop|decline)"@,
                r"(?i)should I (change|adjust|modify) my investments"@,
            ],
            seq![
                r"(?i)(financial|money) (wellness|wellbeing|health|mindfulness)"@,
                r"(?i)(stress|anxiety|worry) (about|regarding|concerning) (money|finances|financial situation)"@,
                r"(?i)how (to|can I) (improve|enhance|better) my (relationship|mindset|attitude) (with|towards|about) money"@,
                r"(?i)(work-life balance|quality of life|life satisfaction) and (money|finances|wealth)"@,
                r"(?i)(values-based|purpose-driven|meaningful) (financial planning|money management|wealth)"@,
            ],
        ]
    }

    /// The intents in the order in which `new` registers their patterns.
    pub open spec fn default_intent_order() -> Seq<FinancialQueryIntent> {
        seq![
            FinancialQueryIntent::PortfolioPerformance,
            FinancialQueryIntent::Greeting,
            FinancialQueryIntent::AssetAllocation,
            FinancialQueryIntent::GoalProgress,
            FinancialQueryIntent::TaxOptimization,
            FinancialQueryIntent::RetirementPlanning,
            FinancialQueryIntent::CashFlowAnalysis,
            FinancialQueryIntent::InvestmentRecommendation,
            FinancialQueryIntent::RiskAssessment,
            FinancialQueryIntent::MarketInformation,
            FinancialQueryIntent::FinancialEducation,
            FinancialQueryIntent::SustainableInvesting,
            FinancialQueryIntent::RetirementIncomeStrategies,
            FinancialQueryIntent::SocialSecurityOptimization,
            FinancialQueryIntent::EstatePlanning,
            FinancialQueryIntent::CharitableGiving,
            FinancialQueryIntent::MarriagePlanning,
            FinancialQueryIntent::DivorcePlanning,
            FinancialQueryIntent::EducationPlanning,
            FinancialQueryIntent::EarlyCareerPlanning,
            FinancialQueryIntent::FamilyFormationPlanning,
            FinancialQueryIntent::PreRetirementPlanning,
            FinancialQueryIntent::MarketVolatilityCoaching,
            FinancialQueryIntent::FinancialWellness
        ]
    }

    /// The patterns registered by default, one list for each entry of
    /// `default_entity_order`, in that order.
    pub open spec fn default_entity_patterns() -> Seq<Seq<Seq<char>>> {
        seq![
            seq![
                r"(?i)(last|past|previous) (month|year|quarter|week)"@,
                r"(?i)(year to date|YTD)"@,
                r"(?i)(since inception|all time)"@,
                r"(?i)(trailing|rolling) (12|24|36|60) months"@,
                r"(?i)(1|3|5|10|20) (year|month)s?"@,
            ],
            seq![
                r"(?i)(401k|403b|457|IRA|Roth IRA|Traditional IRA)"@,
                r"(?i)(brokerage|taxable|investment) account"@,
                r"(?i)(checking|savings) account"@,
                r"(?i)(HSA|health savings account)"@,
                r"(?i)(529|education savings|college savings) (plan|account)"@,
                r"(?i)(trust|UTMA|UGMA) account"@,
            ],
            seq![
                r"(?i)(stocks|equities|shares)"@,
                r"(?i)(bonds|fixed income|treasuries)"@,
                r"(?i)(cash|money market|liquid assets)"@,
                r"(?i)(real estate|REIT|property)"@,
                r"(?i)(commodities|gold|silver|precious metals)"@,
                r"(?i)(alternatives|hedge funds|private equity)"@,
                r"(?i)(international|emerging markets|developed markets)"@,
                r"(?i)(large cap|mid cap|small cap)"@,
                r"(?i)(growth|value|blend)"@,
            ],
            seq![
                r"(?i)(retirement|retiring)"@,
                r"(?i)(college|education|school) (fund|savings|planning)"@,
                r"(?i)(home|house) (purchase|down payment|buying)"@,
                r"(?i)(emergency|rainy day) fund"@,
                r"(?i)(vacation|travel) (fund|savings|planning)"@,
                r"(?i)(wedding|marriage) (fund|savings|planning)"@,
                r"(?i)(car|vehicle) (purchase|buying)"@,
                r"(?i)(business|startup) (funding|capital|investment)"@,
                r"(?i)(legacy|inheritance|estate) (planning|fund)"@,
            ],
            seq![
                r"(?i)\$\d+(?:,\d+)*(?:\.\d+)?"@,
                r"(?i)\d+(?:,\d+)*(?:\.\d+)? (dollars|USD)"@,
                r"(?i)\d+(?:\.\d+)?%"@,
                r"(?i)\d+(?:,\d+)*(?:\.\d+)? (thousand|million|billion)"@,
                r"(?i)(a |one |two |three |four |five |ten |twenty |fifty |hundred |thousand |million |billion )(dollars|USD)"@,
            ],
            seq![
                r"(?i)(January|February|March|April|May|June|July|August|September|October|November|December) \d{1,2}(?:st|nd|rd|th)?,? \d{4}"@,
                r"(?i)\d{1,2}/\d{1,2}/\d{2,4}"@,
                r"(?i)(next|this|last) (year|month|week)"@,
                r"(?i)in \d{1,2} (years|months)"@,
                r"(?i)(20\d\d)"@,
                r"(?i)(today|tomorrow|yesterday)"@,
            ],
            seq![
                r"(?i)(\d{1,2}) (years old|year old)"@,
                r"(?i)age (\d{1,2})"@,
                r"(?i)at (\d{1,2})"@,
                r"(?i)(in|by|when I am|when I'm) (\d{1,2})"@,
            ],
            seq![
                r"(?i)(early career|just starting|first job)"@,
                r"(?i)(family formation|having children|raising kids)"@,
                r"(?i)(peak earning years|mid-career|established career)"@,
                r"(?i)(pre-retirement|near retirement|approaching retirement)"@,
                r"(?i)(retirement|retired|post-career)"@,
                r"(?i)(later retirement|elderly|advanced age)"@,
            ],
            seq![
                r"(?i)(conservative|low risk|risk averse)"@,
                r"(?i)(moderate|balanced|medium risk)"@,
                r"(?i)(aggressive|high risk|growth oriented)"@,
                r"(?i)(very conservative|capital preservation)"@,
                r"(?i)(very aggressive|maximum growth)"@,
                r"(?i)risk (tolerance|capacity|profile|appetite)"@,
            ],
            seq![
                r"(?i)(return|performance|yield)"@,
                r"(?i)(volatility|standard deviation|variance)"@,
                r"(?i)(Sharpe ratio|risk-adjusted return)"@,
                r"(?i)(alpha|beta|R-squared)"@,
                r"(?i)(expense ratio|fee|cost)"@,
                r"(?i)(dividend|interest|income)"@,
                r"(?i)(capital gain|appreciation)"@,
                r"(?i)(drawdown|loss|decline)"@,
            ],
            seq![
                r"(?i)([A-Z]{1,5})"@,
                r"(?i)(S&P 500|Dow Jones|NASDAQ|Russell 2000)"@,
                r"(?i)(index fund|ETF|mutual fund)"@,
                r"(?i)(Treasury|municipal|corporate) (bond|note|bill)"@,
                r"(?i)(stock|share|equity) of ([A-Z][a-zA-Z ]+)"@,
            ],
            seq![
                r"(?i)(S&P 500|Dow Jones|NASDAQ|Russell 2000)"@,
                r"(?i)(Barclays|Bloomberg) (Aggregate|Municipal|Treasury|Corporate) Bond Index"@,
                r"(?i)(MSCI|FTSE) (World|All Country|Emerging Markets|EAFE)"@,
                r"(?i)(benchmark|index|market average)"@,
                r"(?i)(60/40|traditional|balanced) portfolio"@,
            ],
            seq![
                r"(?i)(income|ordinary income) tax"@,
                r"(?i)(capital gains|long-term capital gains|short-term capital gains)"@,
                r"(?i)(dividend|qualified dividend|ordinary dividend)"@,
                r"(?i)(estate|inheritance|gift) tax"@,
                r"(?i)(property|real estate) tax"@,
                r"(?i)(FICA|Social Security|Medicare) tax"@,
                r"(?i)(state|local|federal) tax"@,
                r"(?i)(AMT|alternative minimum tax)"@,
                r"(?i)(NIIT|net investment income tax)"@,
            ],
            seq![
                r"(?i)(tax-loss harvesting|harvest losses)"@,
                r"(?i)(Roth conversion|convert to Roth)"@,
                r"(?i)(tax-gain harvesting|harvest gains)"@,
                r"(?i)(asset location|tax location)"@,
                r"(?i)(charitable giving|qualified charitable distribution|QCD)"@,
                r"(?i)(tax deferral|defer taxes|tax-deferred)"@,
                r"(?i)(tax-exempt|municipal bonds)"@,
                r"(?i)(step-up in basis|basis step-up)"@,
                r"(?i)(tax bracket management|bracket planning)"@,
            ],
            seq![
                r"(?i)(salary|wages|compensation|pay)"@,
                r"(?i)(bonus|commission|overtime)"@,
                r"(?i)(dividend|interest|investment) income"@,
                r"(?i)(rental|real estate) income"@,
                r"(?i)(pension|retirement) income"@,
                r"(?i)(Social Security|SSI|SSDI) (benefits|income)"@,
                r"(?i)(business|self-employment) income"@,
                r"(?i)(alimony|child support|maintenance) (payments|income)"@,
                r"(?i)(royalty|licensing|intellectual property) income"@,
            ],
            seq![
                r"(?i)(housing|mortgage|rent)"@,
                r"(?i)(transportation|car|vehicle) (payment|expense|cost)"@,
                r"(?i)(food|groceries|dining)"@,
                r"(?i)(healthcare|medical|insurance) (expense|cost)"@,
                r"(?i)(utilities|electric|gas|water|internet)"@,
                r"(?i)(education|tuition|student loan) (payment|expense|cost)"@,
                r"(?i)(childcare|daycare) (expense|cost)"@,
                r"(?i)(entertainment|recreation|leisure) (expense|cost)"@,
                r"(?i)(debt|loan|credit card) (payment|expense|cost)"@,
                r"(?i)(tax|taxes) (payment|expense|cost)"@,
            ],
            seq![
                r"(?i)(home|house|primary residence|real estate)"@,
                r"(?i)(investment|brokerage|retirement) (account|portfolio)"@,
                r"(?i)(business|company|ownership stake)"@,
                r"(?i)(car|vehicle|boat)"@,
                r"(?i)(cash|savings|emergency fund)"@,
                r"(?i)(collectibles|art|jewelry)"@,
                r"(?i)(intellectual property|patents|copyrights)"@,
                r"(?i)(life insurance|cash value|permanent insurance)"@,
            ],
            seq![
                r"(?i)(mortgage|home loan|HELOC)"@,
                r"(?i)(student|education) loan"@,
                r"(?i)(auto|car|vehicle) loan"@,
                r"(?i)(credit card|revolving) debt"@,
                r"(?i)(personal|unsecured) loan"@,
                r"(?i)(business|commercial) loan"@,
                r"(?i)(medical|healthcare) debt"@,
                r"(?i)(tax|IRS) debt"@,
            ],
            seq![
                r"(?i)(life|term|whole|universal) insurance"@,
                r"(?i)(health|medical) insurance"@,
                r"(?i)(disability|long-term disability|short-term disability) insurance"@,
                r"(?i)(long-term care|LTC) insurance"@,
                r"(?i)(homeowners|renters) insurance"@,
                r"(?i)(auto|car|vehicle) insurance"@,
                r"(?i)(umbrella|liability) insurance"@,
                r"(?i)(business|professional) insurance"@,
            ],
            seq![
                r"(?i)(marriage|wedding|getting married)"@,
                r"(?i)(divorce|separation|splitting up)"@,
                r"(?i)(birth|having|adopting) (a|of) (child|baby)"@,
                r"(?i)(death|passing|loss) of (spouse|partner|parent)"@,
                r"(?i)(buying|purchasing) (a|home|house)"@,
                r"(?i)(job|career) (change|transition|loss)"@,
                r"(?i)(retirement|retiring)"@,
                r"(?i)(inheritance|receiving money|windfall)"@,
                r"(?i)(health crisis|illness|disability)"@,
                r"(?i)(relocation|moving|relocating)"@,
            ],
            seq![
                r"(?i)(loss aversion|fear of loss)"@,
                r"(?i)(recency bias|recent events)"@,
                r"(?i)(overconfidence|too confident)"@,
                r"(?i)(herd mentality|following the crowd)"@,
                r"(?i)(confirmation bias|confirming beliefs)"@,
                r"(?i)(anchoring|fixating on numbers)"@,
                r"(?i)(mental accounting|separate buckets)"@,
                r"(?i)(status quo bias|resistance to change)"@,
                r"(?i)(home bias|favoring domestic)"@,
                r"(?i)(present bias|immediate gratification)"@,
            ],
            seq![
                r"(?i)(worried|anxious|nervous|concerned)"@,
                r"(?i)(confident|optimistic|positive)"@,
                r"(?i)(uncertain|unsure|confused)"@,
                r"(?i)(fearful|scared|afraid)"@,
                r"(?i)(overwhelmed|stressed|pressured)"@,
                r"(?i)(regretful|remorseful|disappointed)"@,
                r"(?i)(hopeful|encouraged|reassured)"@,
                r"(?i)(frustrated|annoyed|irritated)"@,
            ],
        ]
    }

    /// The entity types in the order in which `new` registers their patterns.
    pub open spec fn default_entity_order() -> Seq<EntityType> {
        seq![
            EntityType::TimePeriod,
            EntityType::AccountType,
            EntityType::AssetClass,
            EntityType::Goal,
            EntityType::Amount,
            EntityType::Date,
            EntityType::Age,
            EntityType::LifeStage,
            EntityType::RiskLevel,
            EntityType::Metric,
            EntityType::Security,
            EntityType::Benchmark,
            EntityType::TaxType,
            EntityType::TaxStrategy,
            EntityType::Income,
            EntityType::Expense,
            EntityType::Asset,
            EntityType::Debt,
            EntityType::Insurance,
            EntityType::LifeEvent,
            EntityType::BehavioralBias,
            EntityType::EmotionalState
        ]
    }

    /// Registers the default intent patterns.
    fn initialize_intent_patterns(&mut self)
        requires
            old(self).intent_patterns@.len() == 0,
        ensures
            final(self).intent_patterns@.map_values(|g: IntentPatterns| g.intent) == Self::default_intent_order(),
            forall|i: int| 0 <= i < final(self).intent_patterns@.len() ==> #[trigger] final(self).intent_patterns@[i].patterns@.len() > 0,
            intent_pattern_views(final(self).intent_patterns@) == Self::default_intent_patterns(),
            final(self).entity_patterns == old(self).entity_patterns,
    {
        let patterns = vec![
            r"(?i)how (is|has) my portfolio (doing|performing)",
            r"(?i)what (is|are) my (returns|gains|losses)",
            r"(?i)portfolio (performance|return|growth)",
            r"(?i)how (much|well) (has|have) my investments (grown|increased|decreased)",
            r"(?i)what (is|was) my (return|performance) (in|over|during|for)",
            r"(?i)how (did|are) my investments (doing|performing)",
            r"(?i)what's my portfolio return",
            r"(?i)how well have my investments done",
            r"(?i)what was my performance",
        ];
        assert(patterns@.map_values(|p: &str| p@) =~= seq![r"(?i)how (is|has) my portfolio (doing|performing)"@, r"(?i)what (is|are) my (returns|gains|losses)"@, r"(?i)portfolio (performance|return|growth)"@, r"(?i)how (much|well) (has|have) my investments (grown|increased|decreased)"@, r"(?i)what (is|was) my (return|performance) (in|over|during|for)"@, r"(?i)how (did|are) my investments (doing|performing)"@, r"(?i)what's my portfolio return"@, r"(?i)how well have my investments done"@, r"(?i)what was my performance"@]);
        self.add_intent_patterns(FinancialQueryIntent::PortfolioPerformance, patterns);
        assert(intent_pattern_views(self.intent_patterns@) =~= Self::default_intent_patterns().take(1));
        let patterns = vec![
            r"(?i)^(hi|hello|hey|greetings|good morning|good afternoon|good evening)(\s.*)?$",
            r"(?i)^(how are you|how's it going|how do you do|what's up)(\s.*)?$",
            r"(?i)^(nice to meet you|pleased to meet you)(\s.*)?$",
        ];
        assert(patterns@.map_values(|p: &str| p@) =~= seq![r"(?i)^(hi|hello|hey|greetings|good morning|good afternoon|good evening)(\s.*)?$"@, r"(?i)^(how are you|how's it going|how do you do|what's up)(\s.*)?$"@, r"(?i)^(nice to meet you|pleased to meet you)(\s.*)?$"@]);
        self.add_intent_patterns(FinancialQueryIntent::Greeting, patterns);
        assert(intent_pattern_views(self.intent_patterns@) =~= Self::default_intent_patterns().take(2));
        let patterns = vec![
            r"(?i)what (is|are) my (current )?asset (allocation|mix)",
            r"(?i)how (is|are) my (portfolio|investments|assets) (allocated|distributed)",
            r"(?i)show me my (asset|portfolio) (allocation|breakdown|distribution)",
            r"(?i)(allocation|exposure) (to|in) (stocks|bonds|cash|equities)",
            r"(?i)am I (too|properly) (exposed|allocated|invested) (to|in)",
        ];
        assert(patterns@.map_values(|p: &str| p@) =~= seq![r"(?i)what (is|are) my (current )?asset (allocation|mix)"@, r"(?i)how (is|are) my (portfolio|investments|assets) (allocated|distributed)"@, r"(?i)show me my (asset|portfolio) (allocation|breakdown|distribution)"@, r"(?i)(allocation|exposure) (to|in) (stocks|bonds|cash|equities)"@, r"(?i)am I (too|properly) (exposed|allocated|invested) (to|in)"@]);
        self.add_intent_patterns(FinancialQueryIntent::AssetAllocation, patterns);
        assert(intent_pattern_views(self.intent_patterns@) =~= Self::default_intent_patterns().take(3));
        let patterns = vec![
            r"(?i)how (am I|are we) (doing|progressing) (on|towards|with) my (goal|retirement|college)",
            r"(?i)(progress|status) (of|on|towards) my (financial )?(goal|plan|target)",
            r"(?i)will I (have enough|meet my goal|reach my target) for",
            r"(?i)am I on track (for|to|with) my",
            r"(?i)what (is|are) the (chances|probability|likelihood) (of|that) (meeting|achieving|reaching) my",
            r"(?i)am I on track for retirement",
            r"(?i)how (is|are) my (retirement|financial|savings) goal (doing|progressing)",
            r"(?i)retirement goal",
            r"(?i)goal (progress|tracking|status)",
        ];
        assert(patterns@.map_values(|p: &str| p@) =~= seq![r"(?i)how (am I|are we) (doing|progressing) (on|towards|with) my (goal|retirement|college)"@, r"(?i)(progress|status) (of|on|towards) my (financial )?(goal|plan|target)"@, r"(?i)will I (have enough|meet my goal|reach my target) for"@, r"(?i)am I on track (for|to|with) my"@, r"(?i)what (is|are) the (chances|probability|likelihood) (of|that) (meeting|achieving|reaching) my"@, r"(?i)am I on track for retirement"@, r"(?i)how (is|are) my (retirement|financial|savings) goal (doing|progressing)"@, r"(?i)retirement goal"@, r"(?i)goal (progress|tracking|status)"@]);
        self.add_intent_patterns(FinancialQueryIntent::GoalProgress, patterns);
        assert(intent_pattern_views(self.intent_patterns@) =~= Self::default_intent_patterns().take(4));
        let patterns = vec![
            r"(?i)how can I (reduce|lower|minimize) (my )?taxes",
            r"(?i)tax (optimization|strategy|planning|efficiency)",
            r"(?i)(opportunities|strategies) for tax (loss harvesting|deferral|reduction)",
            r"(?i)should I (do a Roth conversion|harvest losses|realize gains)",
            r"(?i)what (is|are) my (tax implications|tax liability|tax situation)",
        ];
        assert(patterns@.map_values(|p: &str| p@) =~= seq![r"(?i)how can I (reduce|lower|minimize) (my )?taxes"@, r"(?i)tax (optimization|strategy|planning|efficiency)"@, r"(?i)(opportunities|strategies) for tax (loss harvesting|deferral|reduction)"@, r"(?i)should I (do a Roth conversion|harvest losses|realize gains)"@, r"(?i)what (is|are) my (tax implications|tax liability|tax situation)"@]);
        self.add_intent_patterns(FinancialQueryIntent::TaxOptimization, patterns);
        assert(intent_pattern_views(self.intent_patterns@) =~= Self::default_intent_patterns().take(5));
        let patterns = vec![
            r"(?i)when can I retire",
            r"(?i)how much (do I need|should I save) (for|to) retire",
            r"(?i)retirement (planning|strategy|income|withdrawal)",
            r"(?i)will (my money|I) (last|have enough) (through|in|during) retirement",
            r"(?i)(social security|medicare|RMD|required minimum distribution)",
        ];
        assert(patterns@.map_values(|p: &str| p@) =~= seq![r"(?i)when can I retire"@, r"(?i)how much (do I need|should I save) (for|to) retire"@, r"(?i)retirement (planning|strategy|income|withdrawal)"@, r"(?i)will (my money|I) (last|have enough) (through|in|during) retirement"@, r"(?i)(social security|medicare|RMD|required minimum distribution)"@]);
        self.add_intent_patterns(FinancialQueryIntent::RetirementPlanning, patterns);
        assert(intent_pattern_views(self.intent_patterns@) =~= Self::default_intent_patterns().take(6));
        let patterns = vec![
            r"(?i)what (is|are) my (monthly|annual) (cash flow|income|expenses)",
            r"(?i)how much (am I|are we) (spending|saving|earning)",
            r"(?i)(analyze|review|show) my (spending|income|cash flow|budget)",
            r"(?i)where (is|does) my money (going|come from)",
            r"(?i)how much (can|should) I (save|spend|invest) (each|per) (month|year)",
        ];
        assert(patterns@.map_values(|p: &str| p@) =~= seq![r"(?i)what (is|are) my (monthly|annual) (cash flow|income|expenses)"@, r"(?i)how much (am I|are we) (spending|saving|earning)"@, r"(?i)(analyze|review|show) my (spending|income|cash flow|budget)"@, r"(?i)where (is|does) my money (going|come from)"@, r"(?i)how much (can|should) I (save|spend|invest) (each|per) (month|year)"@]);
        self.add_intent_patterns(FinancialQueryIntent::CashFlowAnalysis, patterns);
        assert(intent_pattern_views(self.intent_patterns@) =~= Self::default_intent_patterns().take(7));
        let patterns = vec![
            r"(?i)what should I invest in",
            r"(?i)(recommend|suggest) (investments|stocks|bonds|funds)",
            r"(?i)how should I invest (my|the) (money|funds|savings)",
            r"(?i)should I (buy|sell|hold) (this|these|my) (investment|stock|bond|fund)",
            r"(?i)what (changes|adjustments) should I make to my (portfolio|investments)",
            r"(?i)I want to invest in",
            r"(?i)invest in (a )?(mix of )?(stocks|bonds|equities|fixed income)",
            r"(?i)investing in (stocks|bonds|funds|ETFs)",
            r"(?i)investment (advice|recommendation|suggestion)",
            r"(?i)best (way|approach) to invest",
        ];
        assert(patterns@.map_values(|p: &str| p@) =~= seq![r"(?i)what should I invest in"@, r"(?i)(recommend|suggest) (investments|stocks|bonds|funds)"@, r"(?i)how should I invest (my|the) (money|funds|savings)"@, r"(?i)should I (buy|sell|hold) (this|these|my) (investment|stock|bond|fund)"@, r"(?i)what (changes|adjustments) should I make to my (portfolio|investments)"@, r"(?i)I want to invest in"@, r"(?i)invest in (a )?(mix of )?(stocks|bonds|equities|fixed income)"@, r"(?i)investing in (stocks|bonds|funds|ETFs)"@, r"(?i)investment (advice|recommendation|suggestion)"@, r"(?i)best (way|approach) to invest"@]);
        self.add_intent_patterns(FinancialQueryIntent::InvestmentRecommendation, patterns);
        assert(intent_pattern_views(self.intent_patterns@) =~= Self::default_intent_patterns().take(8));
        let patterns = vec![
            r"(?i)how (risky|volatile) (is|are) my (portfolio|investments)",
            r"(?i)what (is|are) my (risk|volatility|downside)",
            r"(?i)am I taking (too much|enough|the right amount of) risk",
            r"(?i)(assess|evaluate|measure) my (risk tolerance|risk capacity)",
            r"(?i)how would my portfolio (perform|do) (in|during) a (market crash|recession|downturn)",
        ];
        assert(patterns@.map_values(|p: &str| p@) =~= seq![r"(?i)how (risky|volatile) (is|are) my (portfolio|investments)"@, r"(?i)what (is|are) my (risk|volatility|downside)"@, r"(?i)am I taking (too much|enough|the right amount of) risk"@, r"(?i)(assess|evaluate|measure) my (risk tolerance|risk capacity)"@, r"(?i)how would my portfolio (perform|do) (in|during) a (market crash|recession|downturn)"@]);
        self.add_intent_patterns(FinancialQueryIntent::RiskAssessment, patterns);
        assert(intent_pattern_views(self.intent_patterns@) =~= Self::default_intent_patterns().take(9));
        let patterns = vec![
            r"(?i)how (is|are) the (market|markets) (doing|performing)",
            r"(?i)what (is|are) (happening|going on) (in|with) the (market|economy)",
            r"(?i)(tell|inform) me about (market|economic) (conditions|trends|outlook)",
            r"(?i)what (is|are) the (forecast|outlook|prediction) for (stocks|bonds|interest rates)",
            r"(?i)should I be (concerned|worried) about (inflation|recession|interest rates)",
        ];
        assert(patterns@.map_values(|p: &str| p@) =~= seq![r"(?i)how (is|are) the (market|markets) (doing|performing)"@, r"(?i)what (is|are) (happening|going on) (in|with) the (market|economy)"@, r"(?i)(tell|inform) me about (market|economic) (conditions|trends|outlook)"@, r"(?i)what (is|are) the (forecast|outlook|prediction) for (stocks|bonds|interest rates)"@, r"(?i)should I be (concerned|worried) about (inflation|recession|interest rates)"@]);
        self.add_intent_patterns(FinancialQueryIntent::MarketInformation, patterns);
        assert(intent_pattern_views(self.intent_patterns@) =~= Self::default_intent_patterns().take(10));
        let patterns = vec![
            r"(?i)(explain|what is|tell me about) (dollar cost averaging|diversification|asset allocation)",
            r"(?i)how (does|do) (compound interest|tax-loss harvesting|Roth IRA) work",
            r"(?i)what (is|are) the (difference|benefits|drawbacks) (between|of)",
            r"(?i)help me understand (how|why|when)",
            r"(?i)can you (teach|educate) me (about|on)",
        ];
        assert(patterns@.map_values(|p: &str| p@) =~= seq![r"(?i)(explain|what is|tell me about) (dollar cost averaging|diversification|asset allocation)"@, r"(?i)how (does|do) (compound interest|tax-loss harvesting|Roth IRA) work"@, r"(?i)what (is|are) the (difference|benefits|drawbacks) (between|of)"@, r"(?i)help me understand (how|why|when)"@, r"(?i)can you (teach|educate) me (about|on)"@]);
        self.add_intent_patterns(FinancialQueryIntent::FinancialEducation, patterns);
        assert(intent_pattern_views(self.intent_patterns@) =~= Self::default_intent_patterns().take(11));
        let patterns = vec![
            r"(?i)(ESG|sustainable|responsible|ethical|impact) investing",
            r"(?i)how (can|do) I invest (according to|based on|aligned with) my (values|ethics|beliefs)",
            r"(?i)(environmental|social|governance) (factors|considerations|criteria) in my portfolio",
            r"(?i)(carbon|climate|green) (footprint|impact|investing)",
            r"(?i)(socially responsible|sustainable) (funds|ETFs|investments)",
            r"(?i)invest in ESG",
            r"(?i)ESG funds",
            r"(?i)sustainable (portfolio|investment|strategy)",
            r"(?i)ethical (investment|portfolio|fund)",
            r"(?i)invest (ethically|sustainably|responsibly)",
        ];
        assert(patterns@.map_values(|p: &str| p@) =~= seq![r"(?i)(ESG|sustainable|responsible|ethical|impact) investing"@, r"(?i)how (can|do) I invest (according to|based on|aligned with) my (values|ethics|beliefs)"@, r"(?i)(environmental|social|governance) (factors|considerations|criteria) in my portfolio"@, r"(?i)(carbon|climate|green) (footprint|impact|investing)"@, r"(?i)(socially responsible|sustainable) (funds|ETFs|investments)"@, r"(?i)invest in ESG"@, r"(?i)ESG funds"@, r"(?i)sustainable (portfolio|investment|strategy)"@, r"(?i)ethical (investment|portfolio|fund)"@, r"(?i)invest (ethically|sustainably|responsibly)"@]);
        self.add_intent_patterns(FinancialQueryIntent::SustainableInvesting, patterns);
        assert(intent_pattern_views(self.intent_patterns@) =~= Self::default_intent_patterns().take(12));
        let patterns = vec![
            r"(?i)how (should|can|do) I (generate|create|plan for) (income|cash flow) in retirement",
            r"(?i)(withdrawal|distribution) (strategy|plan|rate) (for|in|during) retirement",
            r"(?i)(sustainable|safe) withdrawal rate",
            r"(?i)how (long|much) will my (money|savings|nest egg) last in retirement",
            r"(?i)(sequence of returns|longevity|inflation) risk in retirement",
        ];
        assert(patterns@.map_values(|p: &str| p@) =~= seq![r"(?i)how (should|can|do) I (generate|create|plan for) (income|cash flow) in retirement"@, r"(?i)(withdrawal|distribution) (strategy|plan|rate) (for|in|during) retirement"@, r"(?i)(sustainable|safe) withdrawal rate"@, r"(?i)how (long|much) will my (money|savings|nest egg) last in retirement"@, r"(?i)(sequence of returns|longevity|inflation) risk in retirement"@]);
        self.add_intent_patterns(FinancialQueryIntent::RetirementIncomeStrategies, patterns);
        assert(intent_pattern_views(self.intent_patterns@) =~= Self::default_intent_patterns().take(13));
        let patterns = vec![
            r"(?i)when should I (claim|take|start) (my )?social security",
            r"(?i)(maximize|optimize|increase) (my )?social security (benefits|payments)",
            r"(?i)social security (strategy|planning|optimization)",
            r"(?i)how (much|many) (will|can) I (get|receive) from social security",
            r"(?i)(spousal|survivor|divorced) (benefits|strategy) (for|with) social security",
            r"(?i)social security benefits",
            r"(?i)claim (my )?social security",
            r"(?i)when (to|should I) (start|begin|take) (receiving|collecting) (my )?(social security|SS|SSI)",
            r"(?i)optimal (age|time) (for|to) (claim|take|start) social security",
        ];
        assert(patterns@.map_values(|p: &str| p@) =~= seq![r"(?i)when should I (claim|take|start) (my )?social security"@, r"(?i)(maximize|optimize|increase) (my )?social security (benefits|payments)"@, r"(?i)social security (strategy|planning|optimization)"@, r"(?i)how (much|many) (will|can) I (get|receive) from social security"@, r"(?i)(spousal|survivor|divorced) (benefits|strategy) (for|with) social security"@, r"(?i)social security benefits"@, r"(?i)claim (my )?social security"@, r"(?i)when (to|should I) (start|begin|take) (receiving|collecting) (my )?(social security|SS|SSI)"@, r"(?i)optimal (age|time) (for|to) (claim|take|start) social security"@]);
        self.add_intent_patterns(FinancialQueryIntent::SocialSecurityOptimization, patterns);
        assert(intent_pattern_views(self.intent_patterns@) =~= Self::default_intent_patterns().take(14));
        let patterns = vec![
            r"(?i)(estate|legacy) planning",
            r"(?i)(will|trust|power of attorney|healthcare directive)",
            r"(?i)how (do|can|should) I (pass on|transfer|leave) (my|assets|wealth|money) to (my|family|heirs|beneficiaries)",
            r"(?i)(estate|inheritance|death) (tax|taxes)",
            r"(?i)(probate|executor|beneficiary) (process|designation|planning)",
        ];
        assert(patterns@.map_values(|p: &str| p@) =~= seq![r"(?i)(estate|legacy) planning"@, r"(?i)(will|trust|power of attorney|healthcare directive)"@, r"(?i)how (do|can|should) I (pass on|transfer|leave) (my|assets|wealth|money) to (my|family|heirs|beneficiaries)"@, r"(?i)(estate|inheritance|death) (tax|taxes)"@, r"(?i)(probate|executor|beneficiary) (process|designation|planning)"@]);
        self.add_intent_patterns(FinancialQueryIntent::EstatePlanning, patterns);
        assert(intent_pattern_views(self.intent_patterns@) =~= Self::default_intent_patterns().take(15));
        let patterns = vec![
            r"(?i)(charitable|philanthropy|donation) (giving|strategy|planning)",
            r"(?i)(donor advised fund|charitable trust|qualified charitable distribution)",
            r"(?i)how (can|do|should) I (give|donate) (to|money|assets) to charity",
            r"(?i)(tax benefits|deduction|advantages) of (charitable|giving|donating)",
            r"(?i)(legacy|impact) (giving|philanthropy)",
        ];
        assert(patterns@.map_values(|p: &str| p@) =~= seq![r"(?i)(charitable|philanthropy|donation) (giving|strategy|planning)"@, r"(?i)(donor advised fund|charitable trust|qualified charitable distribution)"@, r"(?i)how (can|do|should) I (give|donate) (to|money|assets) to charity"@, r"(?i)(tax benefits|deduction|advantages) of (charitable|giving|donating)"@, r"(?i)(legacy|impact) (giving|philanthropy)"@]);
        self.add_intent_patterns(FinancialQueryIntent::CharitableGiving, patterns);
        assert(intent_pattern_views(self.intent_patterns@) =~= Self::default_intent_patterns().take(16));
        let patterns = vec![
            r"(?i)(getting married|marriage|wedding) (finances|planning|money)",
            r"(?i)(prenuptial|prenup) agreement",
            r"(?i)how (should|do|can) (we|I) (manage|handle|combine) (finances|money|accounts) (after|when) (getting married|marriage)",
            r"(?i)(joint|separate) (finances|accounts|money) (in|for|with) (marriage|spouse)",
            r"(?i)financial (implications|considerations|planning) (of|for) (marriage|getting married)",
            r"(?i)getting married next year",
            r"(?i)married (finances|money|financial planning)",
            r"(?i)(I'm|I am) getting married",
            r"(?i)marriage (and|&) (money|finances|financial planning)",
            r"(?i)combine (finances|money|accounts) (with|after) marriage",
        ];
        assert(patterns@.map_values(|p: &str| p@) =~= seq![r"(?i)(getting married|marriage|wedding) (finances|planning|money)"@, r"(?i)(prenuptial|prenup) agreement"@, r"(?i)how (should|do|can) (we|I) (manage|handle|combine) (finances|money|accounts) (after|when) (getting married|marriage)"@, r"(?i)(joint|separate) (finances|accounts|money) (in|for|with) (marriage|spouse)"@, r"(?i)financial (implications|considerations|planning) (of|for) (marriage|getting married)"@, r"(?i)getting married next year"@, r"(?i)married (finances|money|financial planning)"@, r"(?i)(I'm|I am) getting married"@, r"(?i)marriage (and|&) (money|finances|financial planning)"@, r"(?i)combine (finances|money|accounts) (with|after) marriage"@]);
        self.add_intent_patterns(FinancialQueryIntent::MarriagePlanning, patterns);
        assert(intent_pattern_views(self.intent_patterns@) =~= Self::default_intent_patterns().take(17));
        let patterns = vec![
            r"(?i)(divorce|separation) (finances|planning|money)",
            r"(?i)how (will|does|can) divorce (affect|impact) (my|our) (finances|retirement|investments)",
            r"(?i)(dividing|splitting) (assets|property|accounts|retirement) in divorce",
            r"(?i)(alimony|child support|maintenance) (payments|planning|tax)",
            r"(?i)financial (recovery|planning|strategy) after divorce",
            r"(?i)getting divorced",
            r"(?i)I('m| am) getting divorced",
            r"(?i)divorce (next|this) (year|month)",
            r"(?i)adjust (my|financial|money) (plan|situation) (after|during|for) divorce",
            r"(?i)divorce financial (implications|considerations|planning)",
        ];
        assert(patterns@.map_values(|p: &str| p@) =~= seq![r"(?i)(divorce|separation) (finances|planning|money)"@, r"(?i)how (will|does|can) divorce (affect|impact) (my|our) (finances|retirement|investments)"@, r"(?i)(dividing|splitting) (assets|property|accounts|retirement) in divorce"@, r"(?i)(alimony|child support|maintenance) (payments|planning|tax)"@, r"(?i)financial (recovery|planning|strategy) after divorce"@, r"(?i)getting divorced"@, r"(?i)I('m| am) getting divorced"@, r"(?i)divorce (next|this) (year|month)"@, r"(?i)adjust (my|financial|money) (plan|situation) (after|during|for) divorce"@, r"(?i)divorce financial (implications|considerations|planning)"@]);
        self.add_intent_patterns(FinancialQueryIntent::DivorcePlanning, patterns);
        assert(intent_pattern_views(self.intent_patterns@) =~= Self::default_intent_patterns().take(18));
        let patterns = vec![
            r"(?i)(college|education|school) (savings|planning|fund)",
            r"(?i)(529|education savings|college savings) (plan|account)",
            r"(?i)how (much|should) (to|I) save for (college|education|school)",
            r"(?i)(FAFSA|financial aid|student loans|scholarships)",
            r"(?i)(saving|paying) for (my|child's|grandchild's) (education|college|school)",
            r"(?i)save for (my|a) child('s)? college",
            r"(?i)college education",
            r"(?i)how much (should|do) I (need to|have to) save for (my|a) child('s)? (college|education)",
            r"(?i)child('s)? (college|education) (fund|savings|cost)",
        ];
        assert(patterns@.map_values(|p: &str| p@) =~= seq![r"(?i)(college|education|school) (savings|planning|fund)"@, r"(?i)(529|education savings|college savings) (plan|account)"@, r"(?i)how (much|should) (to|I) save for (college|education|school)"@, r"(?i)(FAFSA|financial aid|student loans|scholarships)"@, r"(?i)(saving|paying) for (my|child's|grandchild's) (education|college|school)"@, r"(?i)save for (my|a) child('s)? college"@, r"(?i)college education"@, r"(?i)how much (should|do) I (need to|have to) save for (my|a) child('s)? (college|education)"@, r"(?i)child('s)? (college|education) (fund|savings|cost)"@]);
        self.add_intent_patterns(FinancialQueryIntent::EducationPlanning, patterns);
        assert(intent_pattern_views(self.intent_patterns@) =~= Self::default_intent_patterns().take(19));
        let patterns = vec![
            r"(?i)(starting|early|beginning) (career|job|work) (finances|planning|money)",
            r"(?i)(student loan|education debt) (repayment|strategy|planning)",
            r"(?i)how (should|do|can) I (save|invest|budget) (in|during) (my|the) (20s|30s|early career)",
            r"(?i)(emergency fund|first home|first job) (savings|planning)",
            r"(?i)financial (priorities|goals|planning) for (young adults|new graduates|early career)",
        ];
        assert(patterns@.map_values(|p: &str| p@) =~= seq![r"(?i)(starting|early|beginning) (career|job|work) (finances|planning|money)"@, r"(?i)(student loan|education debt) (repayment|strategy|planning)"@, r"(?i)how (should|do|can) I (save|invest|budget) (in|during) (my|the) (20s|30s|early career)"@, r"(?i)(emergency fund|first home|first job) (savings|planning)"@, r"(?i)financial (priorities|goals|planning) for (young adults|new graduates|early career)"@]);
        self.add_intent_patterns(FinancialQueryIntent::EarlyCareerPlanning, patterns);
        assert(intent_pattern_views(self.intent_patterns@) =~= Self::default_intent_patterns().take(20));
        let patterns = vec![
            r"(?i)(starting a family|having children|family planning) (finances|costs|planning)",
            r"(?i)(childcare|daycare|education) (costs|expenses|planning)",
            r"(?i)financial (planning|implications|preparation) (for|of) (having|raising) (children|a family)",
            r"(?i)(life|health|disability) insurance (for|with) (family|children)",
            r"(?i)(saving|budgeting|planning) (with|for) (young|growing) (family|children)",
        ];
        assert(patterns@.map_values(|p: &str| p@) =~= seq![r"(?i)(starting a family|having children|family planning) (finances|costs|planning)"@, r"(?i)(childcare|daycare|education) (costs|expenses|planning)"@, r"(?i)financial (planning|implications|preparation) (for|of) (having|raising) (children|a family)"@, r"(?i)(life|health|disability) insurance (for|with) (family|children)"@, r"(?i)(saving|budgeting|planning) (with|for) (young|growing) (family|children)"@]);
        self.add_intent_patterns(FinancialQueryIntent::FamilyFormationPlanning, patterns);
        assert(intent_pattern_views(self.intent_patterns@) =~= Self::default_intent_patterns().take(21));
        let patterns = vec![
            r"(?i)(pre-retirement|retirement preparation|retirement transition) (planning|strategy)",
            r"(?i)(catch-up contributions|maximizing retirement savings|retirement readiness)",
            r"(?i)how (should|do|can) I (prepare|plan|save) (for|before) retirement (in|during) (my|the) (50s|60s)",
            r"(?i)(retirement income|withdrawal|distribution) (planning|strategy|projection)",
            r"(?i)(healthcare costs|long-term care|Medicare) (in|before|planning for) retirement",
        ];
        assert(patterns@.map_values(|p: &str| p@) =~= seq![r"(?i)(pre-retirement|retirement preparation|retirement transition) (planning|strategy)"@, r"(?i)(catch-up contributions|maximizing retirement savings|retirement readiness)"@, r"(?i)how (should|do|can) I (prepare|plan|save) (for|before) retirement (in|during) (my|the) (50s|60s)"@, r"(?i)(retirement income|withdrawal|distribution) (planning|strategy|projection)"@, r"(?i)(healthcare costs|long-term care|Medicare) (in|before|planning for) retirement"@]);
        self.add_intent_patterns(FinancialQueryIntent::PreRetirementPlanning, patterns);
        assert(intent_pattern_views(self.intent_patterns@) =~= Self::default_intent_patterns().take(22));
        let patterns = vec![
            r"(?i)(worried|concerned|anxious|nervous) about (market|volatility|investments|losses)",
            r"(?i)should I (sell|get out|move to cash) (during|because of) (market volatility|market crash|downturn)",
            r"(?i)how (to|should I) (handle|manage|deal with) (market|investment) (volatility|uncertainty|stress)",
            r"(?i)(staying the course|long-term perspective|emotional investing)",
            r"(?i)(fear|greed|panic) (in|about|regarding) (investing|markets|portfolio)",
            r"(?i)worried about (the )?market volatility",
            r"(?i)market volatility",
            r"(?i)change (my|our) investments (due to|because of) (volatility|market conditions)",
            r"(?i)(scared|afraid|fearful) (of|about) (the )?(market|stock|investment) (crash|drop|decline)",
            r"(?i)should I (change|adjust|modify) my investments",
        ];
        assert(patterns@.map_values(|p: &str| p@) =~= seq![r"(?i)(worried|concerned|anxious|nervous) about (market|volatility|investments|losses)"@, r"(?i)should I (sell|get out|move to cash) (during|because of) (market volatility|market crash|downturn)"@, r"(?i)how (to|should I) (handle|manage|deal with) (market|investment) (volatility|uncertainty|stress)"@, r"(?i)(staying the course|long-term perspective|emotional investing)"@, r"(?i)(fear|greed|panic) (in|about|regarding) (investing|markets|portfolio)"@, r"(?i)worried about (the )?market volatility"@, r"(?i)market volatility"@, r"(?i)change (my|our) investments (due to|because of) (volatility|market conditions)"@, r"(?i)(scared|afraid|fearful) (of|about) (the )?(market|stock|investment) (crash|drop|decline)"@, r"(?i)should I (change|adjust|modify) my investments"@]);
        self.add_intent_patterns(FinancialQueryIntent::MarketVolatilityCoaching, patterns);
        assert(intent_pattern_views(self.intent_patterns@) =~= Self::default_intent_patterns().take(23));
        let patterns = vec![
            r"(?i)(financial|money) (wellness|wellbeing|health|mindfulness)",
            r"(?i)(stress|anxiety|worry) (about|regarding|concerning) (money|finances|financial situation)",
            r"(?i)how (to|can I) (improve|enhance|better) my (relationship|mindset|attitude) (with|towards|about) money",
            r"(?i)(work-life balance|quality of life|life satisfaction) and (money|finances|wealth)",
            r"(?i)(values-based|purpose-driven|meaningful) (financial planning|money management|wealth)",
        ];
        assert(patterns@.map_values(|p: &str| p@) =~= seq![r"(?i)(financial|money) (wellness|wellbeing|health|mindfulness)"@, r"(?i)(stress|anxiety|worry) (about|regarding|concerning) (money|finances|financial situation)"@, r"(?i)how (to|can I) (improve|enhance|better) my (relationship|mindset|attitude) (with|towards|about) money"@, r"(?i)(work-life balance|quality of life|life satisfaction) and (money|finances|wealth)"@, r"(?i)(values-based|purpose-driven|meaningful) (financial planning|money management|wealth)"@]);
        self.add_intent_patterns(FinancialQueryIntent::FinancialWellness, patterns);
        assert(intent_pattern_views(self.intent_patterns@) =~= Self::default_intent_patterns().take(24));
        assert(Self::default_intent_patterns().take(24) =~= Self::default_intent_patterns());
        assert(self.intent_patterns@.map_values(|g: IntentPatterns| g.intent) =~= Self::default_intent_order());
    }

    /// Registers the default entity patterns.
    fn initialize_entity_patterns(&mut self)
        requires
            old(self).entity_patterns@.len() == 0,
        ensures
            final(self).entity_patterns@.map_values(|g: EntityPatterns| g.entity_type) == Self::default_entity_order(),
            forall|i: int| 0 <= i < final(self).entity_patterns@.len() ==> #[trigger] final(self).entity_patterns@[i].patterns@.len() > 0,
            entity_pattern_views(final(self).entity_patterns@) == Self::default_entity_patterns(),
            final(self).intent_patterns == old(self).intent_patterns,
    {
        let patterns = vec![
            r"(?i)(last|past|previous) (month|year|quarter|week)",
            r"(?i)(year to date|YTD)",
            r"(?i)(since inception|all time)",
            r"(?i)(trailing|rolling) (12|24|36|60) months",
            r"(?i)(1|3|5|10|20) (year|month)s?",
        ];
        assert(patterns@.map_values(|p: &str| p@) =~= seq![r"(?i)(last|past|previous) (month|year|quarter|week)"@, r"(?i)(year to date|YTD)"@, r"(?i)(since inception|all time)"@, r"(?i)(trailing|rolling) (12|24|36|60) months"@, r"(?i)(1|3|5|10|20) (year|month)s?"@]);
        self.add_entity_patterns(EntityType::TimePeriod, patterns);
        assert(entity_pattern_views(self.entity_patterns@) =~= Self::default_entity_patterns().take(1));
        let patterns = vec![
            r"(?i)(401k|403b|457|IRA|Roth IRA|Traditional IRA)",
            r"(?i)(brokerage|taxable|investment) account",
            r"(?i)(checking|savings) account",
            r"(?i)(HSA|health savings account)",
            r"(?i)(529|education savings|college savings) (plan|account)",
            r"(?i)(trust|UTMA|UGMA) account",
        ];
        assert(patterns@.map_values(|p: &str| p@) =~= seq![r"(?i)(401k|403b|457|IRA|Roth IRA|Traditional IRA)"@, r"(?i)(brokerage|taxable|investment) account"@, r"(?i)(checking|savings) account"@, r"(?i)(HSA|health savings account)"@, r"(?i)(529|education savings|college savings) (plan|account)"@, r"(?i)(trust|UTMA|UGMA) account"@]);
        self.add_entity_patterns(EntityType::AccountType, patterns);
        assert(entity_pattern_views(self.entity_patterns@) =~= Self::default_entity_patterns().take(2));
        let patterns = vec![
            r"(?i)(stocks|equities|shares)",
            r"(?i)(bonds|fixed income|treasuries)",
            r"(?i)(cash|money market|liquid assets)",
            r"(?i)(real estate|REIT|property)",
            r"(?i)(commodities|gold|silver|precious metals)",
            r"(?i)(alternatives|hedge funds|private equity)",
            r"(?i)(international|emerging markets|developed markets)",
            r"(?i)(large cap|mid cap|small cap)",
            r"(?i)(growth|value|blend)",
        ];
        assert(patterns@.map_values(|p: &str| p@) =~= seq![r"(?i)(stocks|equities|shares)"@, r"(?i)(bonds|fixed income|treasuries)"@, r"(?i)(cash|money market|liquid assets)"@, r"(?i)(real estate|REIT|property)"@, r"(?i)(commodities|gold|silver|precious metals)"@, r"(?i)(alternatives|hedge funds|private equity)"@, r"(?i)(international|emerging markets|developed markets)"@, r"(?i)(large cap|mid cap|small cap)"@, r"(?i)(growth|value|blend)"@]);
        self.add_entity_patterns(EntityType::AssetClass, patterns);
        assert(entity_pattern_views(self.entity_patterns@) =~= Self::default_entity_patterns().take(3));
        let patterns = vec![
            r"(?i)(retirement|retiring)",
            r"(?i)(college|education|school) (fund|savings|planning)",
            r"(?i)(home|house) (purchase|down payment|buying)",
            r"(?i)(emergency|rainy day) fund",
            r"(?i)(vacation|travel) (fund|savings|planning)",
            r"(?i)(wedding|marriage) (fund|savings|planning)",
            r"(?i)(car|vehicle) (purchase|buying)",
            r"(?i)(business|startup) (funding|capital|investment)",
            r"(?i)(legacy|inheritance|estate) (planning|fund)",
        ];
        assert(patterns@.map_values(|p: &str| p@) =~= seq![r"(?i)(retirement|retiring)"@, r"(?i)(college|education|school) (fund|savings|planning)"@, r"(?i)(home|house) (purchase|down payment|buying)"@, r"(?i)(emergency|rainy day) fund"@, r"(?i)(vacation|travel) (fund|savings|planning)"@, r"(?i)(wedding|marriage) (fund|savings|planning)"@, r"(?i)(car|vehicle) (purchase|buying)"@, r"(?i)(business|startup) (funding|capital|investment)"@, r"(?i)(legacy|inheritance|estate) (planning|fund)"@]);
        self.add_entity_patterns(EntityType::Goal, patterns);
        assert(entity_pattern_views(self.entity_patterns@) =~= Self::default_entity_patterns().take(4));
        let patterns = vec![
            r"(?i)\$\d+(?:,\d+)*(?:\.\d+)?",
            r"(?i)\d+(?:,\d+)*(?:\.\d+)? (dollars|USD)",
            r"(?i)\d+(?:\.\d+)?%",
            r"(?i)\d+(?:,\d+)*(?:\.\d+)? (thousand|million|billion)",
            r"(?i)(a |one |two |three |four |five |ten |twenty |fifty |hundred |thousand |million |billion )(dollars|USD)",
        ];
        assert(patterns@.map_values(|p: &str| p@) =~= seq![r"(?i)\$\d+(?:,\d+)*(?:\.\d+)?"@, r"(?i)\d+(?:,\d+)*(?:\.\d+)? (dollars|USD)"@, r"(?i)\d+(?:\.\d+)?%"@, r"(?i)\d+(?:,\d+)*(?:\.\d+)? (thousand|million|billion)"@, r"(?i)(a |one |two |three |four |five |ten |twenty |fifty |hundred |thousand |million |billion )(dollars|USD)"@]);
        self.add_entity_patterns(EntityType::Amount, patterns);
        assert(entity_pattern_views(self.entity_patterns@) =~= Self::default_entity_patterns().take(5));
        let patterns = vec![
            r"(?i)(January|February|March|April|May|June|July|August|September|October|November|December) \d{1,2}(?:st|nd|rd|th)?,? \d{4}",
            r"(?i)\d{1,2}/\d{1,2}/\d{2,4}",
            r"(?i)(next|this|last) (year|month|week)",
            r"(?i)in \d{1,2} (years|months)",
            r"(?i)(20\d\d)",
            r"(?i)(today|tomorrow|yesterday)",
        ];
        assert(patterns@.map_values(|p: &str| p@) =~= seq![r"(?i)(January|February|March|April|May|June|July|August|September|October|November|December) \d{1,2}(?:st|nd|rd|th)?,? \d{4}"@, r"(?i)\d{1,2}/\d{1,2}/\d{2,4}"@, r"(?i)(next|this|last) (year|month|week)"@, r"(?i)in \d{1,2} (years|months)"@, r"(?i)(20\d\d)"@, r"(?i)(today|tomorrow|yesterday)"@]);
        self.add_entity_patterns(EntityType::Date, patterns);
        assert(entity_pattern_views(self.entity_patterns@) =~= Self::default_entity_patterns().take(6));
        let patterns = vec![
            r"(?i)(\d{1,2}) (years old|year old)",
            r"(?i)age (\d{1,2})",
            r"(?i)at (\d{1,2})",
            r"(?i)(in|by|when I am|when I'm) (\d{1,2})",
        ];
        assert(patterns@.map_values(|p: &str| p@) =~= seq![r"(?i)(\d{1,2}) (years old|year old)"@, r"(?i)age (\d{1,2})"@, r"(?i)at (\d{1,2})"@, r"(?i)(in|by|when I am|when I'm) (\d{1,2})"@]);
        self.add_entity_patterns(EntityType::Age, patterns);
        assert(entity_pattern_views(self.entity_patterns@) =~= Self::default_entity_patterns().take(7));
        let patterns = vec![
            r"(?i)(early career|just starting|first job)",
            r"(?i)(family formation|having children|raising kids)",
            r"(?i)(peak earning years|mid-career|established career)",
            r"(?i)(pre-retirement|near retirement|approaching retirement)",
            r"(?i)(retirement|retired|post-career)",
            r"(?i)(later retirement|elderly|advanced age)",
        ];
        assert(patterns@.map_values(|p: &str| p@) =~= seq![r"(?i)(early career|just starting|first job)"@, r"(?i)(family formation|having children|raising kids)"@, r"(?i)(peak earning years|mid-career|established career)"@, r"(?i)(pre-retirement|near retirement|approaching retirement)"@, r"(?i)(retirement|retired|post-career)"@, r"(?i)(later retirement|elderly|advanced age)"@]);
        self.add_entity_patterns(EntityType::LifeStage, patterns);
        assert(entity_pattern_views(self.entity_patterns@) =~= Self::default_entity_patterns().take(8));
        let patterns = vec![
            r"(?i)(conservative|low risk|risk averse)",
            r"(?i)(moderate|balanced|medium risk)",
            r"(?i)(aggressive|high risk|growth oriented)",
            r"(?i)(very conservative|capital preservation)",
            r"(?i)(very aggressive|maximum growth)",
            r"(?i)risk (tolerance|capacity|profile|appetite)",
        ];
        assert(patterns@.map_values(|p: &str| p@) =~= seq![r"(?i)(conservative|low risk|risk averse)"@, r"(?i)(moderate|balanced|medium risk)"@, r"(?i)(aggressive|high risk|growth oriented)"@, r"(?i)(very conservative|capital preservation)"@, r"(?i)(very aggressive|maximum growth)"@, r"(?i)risk (tolerance|capacity|profile|appetite)"@]);
        self.add_entity_patterns(EntityType::RiskLevel, patterns);
        assert(entity_pattern_views(self.entity_patterns@) =~= Self::default_entity_patterns().take(9));
        let patterns = vec![
            r"(?i)(return|performance|yield)",
            r"(?i)(volatility|standard deviation|variance)",
            r"(?i)(Sharpe ratio|risk-adjusted return)",
            r"(?i)(alpha|beta|R-squared)",
            r"(?i)(expense ratio|fee|cost)",
            r"(?i)(dividend|interest|income)",
            r"(?i)(capital gain|appreciation)",
            r"(?i)(drawdown|loss|decline)",
        ];
        assert(patterns@.map_values(|p: &str| p@) =~= seq![r"(?i)(return|performance|yield)"@, r"(?i)(volatility|standard deviation|variance)"@, r"(?i)(Sharpe ratio|risk-adjusted return)"@, r"(?i)(alpha|beta|R-squared)"@, r"(?i)(expense ratio|fee|cost)"@, r"(?i)(dividend|interest|income)"@, r"(?i)(capital gain|appreciation)"@, r"(?i)(drawdown|loss|decline)"@]);
        self.add_entity_patterns(EntityType::Metric, patterns);
        assert(entity_pattern_views(self.entity_patterns@) =~= Self::default_entity_patterns().take(10));
        let patterns = vec![
            r"(?i)([A-Z]{1,5})",
            r"(?i)(S&P 500|Dow Jones|NASDAQ|Russell 2000)",
            r"(?i)(index fund|ETF|mutual fund)",
            r"(?i)(Treasury|municipal|corporate) (bond|note|bill)",
            r"(?i)(stock|share|equity) of ([A-Z][a-zA-Z ]+)",
        ];
        assert(patterns@.map_values(|p: &str| p@) =~= seq![r"(?i)([A-Z]{1,5})"@, r"(?i)(S&P 500|Dow Jones|NASDAQ|Russell 2000)"@, r"(?i)(index fund|ETF|mutual fund)"@, r"(?i)(Treasury|municipal|corporate) (bond|note|bill)"@, r"(?i)(stock|share|equity) of ([A-Z][a-zA-Z ]+)"@]);
        self.add_entity_patterns(EntityType::Security, patterns);
        assert(entity_pattern_views(self.entity_patterns@) =~= Self::default_entity_patterns().take(11));
        let patterns = vec![
            r"(?i)(S&P 500|Dow Jones|NASDAQ|Russell 2000)",
            r"(?i)(Barclays|Bloomberg) (Aggregate|Municipal|Treasury|Corporate) Bond Index",
            r"(?i)(MSCI|FTSE) (World|All Country|Emerging Markets|EAFE)",
            r"(?i)(benchmark|index|market average)",
            r"(?i)(60/40|traditional|balanced) portfolio",
        ];
        assert(patterns@.map_values(|p: &str| p@) =~= seq![r"(?i)(S&P 500|Dow Jones|NASDAQ|Russell 2000)"@, r"(?i)(Barclays|Bloomberg) (Aggregate|Municipal|Treasury|Corporate) Bond Index"@, r"(?i)(MSCI|FTSE) (World|All Country|Emerging Markets|EAFE)"@, r"(?i)(benchmark|index|market average)"@, r"(?i)(60/40|traditional|balanced) portfolio"@]);
        self.add_entity_patterns(EntityType::Benchmark, patterns);
        assert(entity_pattern_views(self.entity_patterns@) =~= Self::default_entity_patterns().take(12));
        let patterns = vec![
            r"(?i)(income|ordinary income) tax",
            r"(?i)(capital gains|long-term capital gains|short-term capital gains)",
            r"(?i)(dividend|qualified dividend|ordinary dividend)",
            r"(?i)(estate|inheritance|gift) tax",
            r"(?i)(property|real estate) tax",
            r"(?i)(FICA|Social Security|Medicare) tax",
            r"(?i)(state|local|federal) tax",
            r"(?i)(AMT|alternative minimum tax)",
            r"(?i)(NIIT|net investment income tax)",
        ];
        assert(patterns@.map_values(|p: &str| p@) =~= seq![r"(?i)(income|ordinary income) tax"@, r"(?i)(capital gains|long-term capital gains|short-term capital gains)"@, r"(?i)(dividend|qualified dividend|ordinary dividend)"@, r"(?i)(estate|inheritance|gift) tax"@, r"(?i)(property|real estate) tax"@, r"(?i)(FICA|Social Security|Medicare) tax"@, r"(?i)(state|local|federal) tax"@, r"(?i)(AMT|alternative minimum tax)"@, r"(?i)(NIIT|net investment income tax)"@]);
        self.add_entity_patterns(EntityType::TaxType, patterns);
        assert(entity_pattern_views(self.entity_patterns@) =~= Self::default_entity_patterns().take(13));
        let patterns = vec![
            r"(?i)(tax-loss harvesting|harvest losses)",
            r"(?i)(Roth conversion|convert to Roth)",
            r"(?i)(tax-gain harvesting|harvest gains)",
            r"(?i)(asset location|tax location)",
            r"(?i)(charitable giving|qualified charitable distribution|QCD)",
            r"(?i)(tax deferral|defer taxes|tax-deferred)",
            r"(?i)(tax-exempt|municipal bonds)",
            r"(?i)(step-up in basis|basis step-up)",
            r"(?i)(tax bracket management|bracket planning)",
        ];
        assert(patterns@.map_values(|p: &str| p@) =~= seq![r"(?i)(tax-loss harvesting|harvest losses)"@, r"(?i)(Roth conversion|convert to Roth)"@, r"(?i)(tax-gain harvesting|harvest gains)"@, r"(?i)(asset location|tax location)"@, r"(?i)(charitable giving|qualified charitable distribution|QCD)"@, r"(?i)(tax deferral|defer taxes|tax-deferred)"@, r"(?i)(tax-exempt|municipal bonds)"@, r"(?i)(step-up in basis|basis step-up)"@, r"(?i)(tax bracket management|bracket planning)"@]);
        self.add_entity_patterns(EntityType::TaxStrategy, patterns);
        assert(entity_pattern_views(self.entity_patterns@) =~= Self::default_entity_patterns().take(14));
        let patterns = vec![
            r"(?i)(salary|wages|compensation|pay)",
            r"(?i)(bonus|commission|overtime)",
            r"(?i)(dividend|interest|investment) income",
            r"(?i)(rental|real estate) income",
            r"(?i)(pension|retirement) income",
            r"(?i)(Social Security|SSI|SSDI) (benefits|income)",
            r"(?i)(business|self-employment) income",
            r"(?i)(alimony|child support|maintenance) (payments|income)",
            r"(?i)(royalty|licensing|intellectual property) income",
        ];
        assert(patterns@.map_values(|p: &str| p@) =~= seq![r"(?i)(salary|wages|compensation|pay)"@, r"(?i)(bonus|commission|overtime)"@, r"(?i)(dividend|interest|investment) income"@, r"(?i)(rental|real estate) income"@, r"(?i)(pension|retirement) income"@, r"(?i)(Social Security|SSI|SSDI) (benefits|income)"@, r"(?i)(business|self-employment) income"@, r"(?i)(alimony|child support|maintenance) (payments|income)"@, r"(?i)(royalty|licensing|intellectual property) income"@]);
        self.add_entity_patterns(EntityType::Income, patterns);
        assert(entity_pattern_views(self.entity_patterns@) =~= Self::default_entity_patterns().take(15));
        let patterns = vec![
            r"(?i)(housing|mortgage|rent)",
            r"(?i)(transportation|car|vehicle) (payment|expense|cost)",
            r"(?i)(food|groceries|dining)",
            r"(?i)(healthcare|medical|insurance) (expense|cost)",
            r"(?i)(utilities|electric|gas|water|internet)",
            r"(?i)(education|tuition|student loan) (payment|expense|cost)",
            r"(?i)(childcare|daycare) (expense|cost)",
            r"(?i)(entertainment|recreation|leisure) (expense|cost)",
            r"(?i)(debt|loan|credit card) (payment|expense|cost)",
            r"(?i)(tax|taxes) (payment|expense|cost)",
        ];
        assert(patterns@.map_values(|p: &str| p@) =~= seq![r"(?i)(housing|mortgage|rent)"@, r"(?i)(transportation|car|vehicle) (payment|expense|cost)"@, r"(?i)(food|groceries|dining)"@, r"(?i)(healthcare|medical|insurance) (expense|cost)"@, r"(?i)(utilities|electric|gas|water|internet)"@, r"(?i)(education|tuition|student loan) (payment|expense|cost)"@, r"(?i)(childcare|daycare) (expense|cost)"@, r"(?i)(entertainment|recreation|leisure) (expense|cost)"@, r"(?i)(debt|loan|credit card) (payment|expense|cost)"@, r"(?i)(tax|taxes) (payment|expense|cost)"@]);
        self.add_entity_patterns(EntityType::Expense, patterns);
        assert(entity_pattern_views(self.entity_patterns@) =~= Self::default_entity_patterns().take(16));
        let patterns = vec![
            r"(?i)(home|house|primary residence|real estate)",
            r"(?i)(investment|brokerage|retirement) (account|portfolio)",
            r"(?i)(business|company|ownership stake)",
            r"(?i)(car|vehicle|boat)",
            r"(?i)(cash|savings|emergency fund)",
            r"(?i)(collectibles|art|jewelry)",
            r"(?i)(intellectual property|patents|copyrights)",
            r"(?i)(life insurance|cash value|permanent insurance)",
        ];
        assert(patterns@.map_values(|p: &str| p@) =~= seq![r"(?i)(home|house|primary residence|real estate)"@, r"(?i)(investment|brokerage|retirement) (account|portfolio)"@, r"(?i)(business|company|ownership stake)"@, r"(?i)(car|vehicle|boat)"@, r"(?i)(cash|savings|emergency fund)"@, r"(?i)(collectibles|art|jewelry)"@, r"(?i)(intellectual property|patents|copyrights)"@, r"(?i)(life insurance|cash value|permanent insurance)"@]);
        self.add_entity_patterns(EntityType::Asset, patterns);
        assert(entity_pattern_views(self.entity_patterns@) =~= Self::default_entity_patterns().take(17));
        let patterns = vec![
            r"(?i)(mortgage|home loan|HELOC)",
            r"(?i)(student|education) loan",
            r"(?i)(auto|car|vehicle) loan",
            r"(?i)(credit card|revolving) debt",
            r"(?i)(personal|unsecured) loan",
            r"(?i)(business|commercial) loan",
            r"(?i)(medical|healthcare) debt",
            r"(?i)(tax|IRS) debt",
        ];
        assert(patterns@.map_values(|p: &str| p@) =~= seq![r"(?i)(mortgage|home loan|HELOC)"@, r"(?i)(student|education) loan"@, r"(?i)(auto|car|vehicle) loan"@, r"(?i)(credit card|revolving) debt"@, r"(?i)(personal|unsecured) loan"@, r"(?i)(business|commercial) loan"@, r"(?i)(medical|healthcare) debt"@, r"(?i)(tax|IRS) debt"@]);
        self.add_entity_patterns(EntityType::Debt, patterns);
        assert(entity_pattern_views(self.entity_patterns@) =~= Self::default_entity_patterns().take(18));
        let patterns = vec![
            r"(?i)(life|term|whole|universal) insurance",
            r"(?i)(health|medical) insurance",
            r"(?i)(disability|long-term disability|short-term disability) insurance",
            r"(?i)(long-term care|LTC) insurance",
            r"(?i)(homeowners|renters) insurance",
            r"(?i)(auto|car|vehicle) insurance",
            r"(?i)(umbrella|liability) insurance",
            r"(?i)(business|professional) insurance",
        ];
        assert(patterns@.map_values(|p: &str| p@) =~= seq![r"(?i)(life|term|whole|universal) insurance"@, r"(?i)(health|medical) insurance"@, r"(?i)(disability|long-term disability|short-term disability) insurance"@, r"(?i)(long-term care|LTC) insurance"@, r"(?i)(homeowners|renters) insurance"@, r"(?i)(auto|car|vehicle) insurance"@, r"(?i)(umbrella|liability) insurance"@, r"(?i)(business|professional) insurance"@]);
        self.add_entity_patterns(EntityType::Insurance, patterns);
        assert(entity_pattern_views(self.entity_patterns@) =~= Self::default_entity_patterns().take(19));
        let patterns = vec![
            r"(?i)(marriage|wedding|getting married)",
            r"(?i)(divorce|separation|splitting up)",
            r"(?i)(birth|having|adopting) (a|of) (child|baby)",
            r"(?i)(death|passing|loss) of (spouse|partner|parent)",
            r"(?i)(buying|purchasing) (a|home|house)",
            r"(?i)(job|career) (change|transition|loss)",
            r"(?i)(retirement|retiring)",
            r"(?i)(inheritance|receiving money|windfall)",
            r"(?i)(health crisis|illness|disability)",
            r"(?i)(relocation|moving|relocating)",
        ];
        assert(patterns@.map_values(|p: &str| p@) =~= seq![r"(?i)(marriage|wedding|getting married)"@, r"(?i)(divorce|separation|splitting up)"@, r"(?i)(birth|having|adopting) (a|of) (child|baby)"@, r"(?i)(death|passing|loss) of (spouse|partner|parent)"@, r"(?i)(buying|purchasing) (a|home|house)"@, r"(?i)(job|career) (change|transition|loss)"@, r"(?i)(retirement|retiring)"@, r"(?i)(inheritance|receiving money|windfall)"@, r"(?i)(health crisis|illness|disability)"@, r"(?i)(relocation|moving|relocating)"@]);
        self.add_entity_patterns(EntityType::LifeEvent, patterns);
        assert(entity_pattern_views(self.entity_patterns@) =~= Self::default_entity_patterns().take(20));
        let patterns = vec![
            r"(?i)(loss aversion|fear of loss)",
            r"(?i)(recency bias|recent events)",
            r"(?i)(overconfidence|too confident)",
            r"(?i)(herd mentality|following the crowd)",
            r"(?i)(confirmation bias|confirming beliefs)",
            r"(?i)(anchoring|fixating on numbers)",
            r"(?i)(mental accounting|separate buckets)",
            r"(?i)(status quo bias|resistance to change)",
            r"(?i)(home bias|favoring domestic)",
            r"(?i)(present bias|immediate gratification)",
        ];
        assert(patterns@.map_values(|p: &str| p@) =~= seq![r"(?i)(loss aversion|fear of loss)"@, r"(?i)(recency bias|recent events)"@, r"(?i)(overconfidence|too confident)"@, r"(?i)(herd mentality|following the crowd)"@, r"(?i)(confirmation bias|confirming beliefs)"@, r"(?i)(anchoring|fixating on numbers)"@, r"(?i)(mental accounting|separate buckets)"@, r"(?i)(status quo bias|resistance to change)"@, r"(?i)(home bias|favoring domestic)"@, r"(?i)(present bias|immediate gratification)"@]);
        self.add_entity_patterns(EntityType::BehavioralBias, patterns);
        assert(entity_pattern_views(self.entity_patterns@) =~= Self::default_entity_patterns().take(21));
        let patterns = vec![
            r"(?i)(worried|anxious|nervous|concerned)",
            r"(?i)(confident|optimistic|positive)",
            r"(?i)(uncertain|unsure|confused)",
            r"(?i)(fearful|scared|afraid)",
            r"(?i)(overwhelmed|stressed|pressured)",
            r"(?i)(regretful|remorseful|disappointed)",
            r"(?i)(hopeful|encouraged|reassured)",
            r"(?i)(frustrated|annoyed|irritated)",
        ];
        assert(patterns@.map_values(|p: &str| p@) =~= seq![r"(?i)(worried|anxious|nervous|concerned)"@, r"(?i)(confident|optimistic|positive)"@, r"(?i)(uncertain|unsure|confused)"@, r"(?i)(fearful|scared|afraid)"@, r"(?i)(overwhelmed|stressed|pressured)"@, r"(?i)(regretful|remorseful|disappointed)"@, r"(?i)(hopeful|encouraged|reassured)"@, r"(?i)(frustrated|annoyed|irritated)"@]);
        self.add_entity_patterns(EntityType::EmotionalState, patterns);
        assert(entity_pattern_views(self.entity_patterns@) =~= Self::default_entity_patterns().take(22));
        assert(Self::default_entity_patterns().take(22) =~= Self::default_entity_patterns());
        assert(self.entity_patterns@.map_values(|g: EntityPatterns| g.entity_type) =~= Self::default_entity_order());
    }
}

} // verus!
