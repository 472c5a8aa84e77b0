//! Risk profiling: risk tolerance from questionnaire answers, behavioral
//! bias detection and personalized insights.
//!
//! Risk scores and question weights are held in tenths (a score of 3.5 is 35,
//! a weight of 1.2 is 12), so that averages are computed exactly.

use vstd::prelude::*;
use crate::clock::Timestamp;

verus! {

/// Overall risk tolerance levels.
#[derive(Debug, Clone, Copy, PartialEq, Eq, Structural, Hash)]
pub enum RiskToleranceLevel {
    VeryConservative,
    Conservative,
    Moderate,
    Aggressive,
    VeryAggressive,
}

/// Behavioral biases that a questionnaire can reveal.
#[derive(Debug, Clone, Copy, PartialEq, Eq, Structural, Hash)]
pub enum BehavioralBiasType {
    LossAversion,
    RecencyBias,
    Overconfidence,
    MentalAccounting,
    HerdMentality,
    Anchoring,
    ConfirmationBias,
    HomeBias,
}

/// One answer option of a question.
#[derive(Debug, Clone)]
pub struct RiskProfileAnswerOption {
    /// Value a response gives to pick this option
    pub value: i32,
    /// Option text
    pub text: String,
    /// Risk score of the option, in tenths (1.0 to 5.0 is 10 to 50)
    pub risk_score: u32,
}

/// A questionnaire question.
#[derive(Debug, Clone)]
pub struct RiskProfileQuestion {
    /// Question identifier
    pub id: String,
    /// Question text
    pub text: String,
    /// Answer options
    pub options: Vec<RiskProfileAnswerOption>,
    /// Category (risk capacity, risk willingness, ...)
    pub category: String,
    /// Weight of the question, in tenths
    pub weight: u32,
}

/// A risk profiling questionnaire.
#[derive(Debug, Clone)]
pub struct RiskProfileQuestionnaire {
    pub id: String,
    pub name: String,
    pub description: String,
    pub questions: Vec<RiskProfileQuestion>,
}

/// A client's answer to one question.
#[derive(Debug, Clone)]
pub struct RiskProfileResponse {
    pub question_id: String,
    pub response_value: i32,
    pub comments: Option<String>,
    pub timestamp: Timestamp,
}

/// The answers to one question that reveal biases: (answer value, bias).
pub struct BiasRule {
    pub question_id: String,
    pub triggers: Vec<(i32, BehavioralBiasType)>,
}

/// Errors of risk tolerance calculation.
#[derive(Debug, Clone, Copy, PartialEq, Eq, Structural)]
pub enum RiskProfileError {
    /// No questionnaire has the requested identifier.
    QuestionnaireNotFound,
    /// No response named a known question and one of its options.
    NoValidResponses,
}

/// The first questionnaire with the identifier.
pub open spec fn questionnaire_by_id(qs: Seq<RiskProfileQuestionnaire>, id: Seq<char>) -> Option<RiskProfileQuestionnaire>
    decreases qs.len(),
{
    if qs.len() == 0 {
        None
    } else if qs[0].id@ == id {
        Some(qs[0])
    } else {
        questionnaire_by_id(qs.drop_first(), id)
    }
}

/// The last question with the identifier (a later question with the same
/// identifier shadows an earlier one).
pub open spec fn question_by_id(qs: Seq<RiskProfileQuestion>, id: Seq<char>) -> Option<RiskProfileQuestion>
    decreases qs.len(),
{
    if qs.len() == 0 {
        None
    } else if qs.last().id@ == id {
        Some(qs.last())
    } else {
        question_by_id(qs.drop_last(), id)
    }
}

/// The risk score of the first option with the value.
pub open spec fn option_score(opts: Seq<RiskProfileAnswerOption>, value: i32) -> Option<u32>
    decreases opts.len(),
{
    if opts.len() == 0 {
        None
    } else if opts[0].value == value {
        Some(opts[0].risk_score)
    } else {
        option_score(opts.drop_first(), value)
    }
}

/// What one response adds to the weighted score and to the total weight:
/// nothing when it names no question or no option.
pub open spec fn response_contribution(qs: Seq<RiskProfileQuestion>, r: RiskProfileResponse) -> (int, int) {
    match question_by_id(qs, r.question_id@) {
        Some(q) => match option_score(q.options@, r.response_value) {
            Some(s) => (s * q.weight, q.weight as int),
            None => (0, 0),
        },
        None => (0, 0),
    }
}

/// The weighted score (sum of score times weight) and total weight of the
/// responses.
pub open spec fn weighted_totals(qs: Seq<RiskProfileQuestion>, rs: Seq<RiskProfileResponse>) -> (int, int)
    decreases rs.len(),
{
    if rs.len() == 0 {
        (0, 0)
    } else {
        let prev = weighted_totals(qs, rs.drop_last());
        let c = response_contribution(qs, rs.last());
        (prev.0 + c.0, prev.1 + c.1)
    }
}

/// The level of a weighted average score (weighted score over ten times the
/// total weight): below 1.5 very conservative, below 2.5 conservative, below
/// 3.5 moderate, below 4.5 aggressive, else very aggressive.
pub open spec fn tolerance_level(score: int, weight: int) -> RiskToleranceLevel {
    if score < 15 * weight {
        RiskToleranceLevel::VeryConservative
    } else if score < 25 * weight {
        RiskToleranceLevel::Conservative
    } else if score < 35 * weight {
        RiskToleranceLevel::Moderate
    } else if score < 45 * weight {
        RiskToleranceLevel::Aggressive
    } else {
        RiskToleranceLevel::VeryAggressive
    }
}

/// The position of a level from very conservative (0) to very aggressive
/// (4).
pub open spec fn tolerance_rank(l: RiskToleranceLevel) -> nat {
    match l {
        RiskToleranceLevel::VeryConservative => 0,
        RiskToleranceLevel::Conservative => 1,
        RiskToleranceLevel::Moderate => 2,
        RiskToleranceLevel::Aggressive => 3,
        RiskToleranceLevel::VeryAggressive => 4,
    }
}

/// A higher weighted score never gives a more conservative level.
pub proof fn lemma_tolerance_monotone(s1: int, s2: int, weight: int)
    requires
        s1 <= s2,
    ensures
        tolerance_rank(tolerance_level(s1, weight)) <= tolerance_rank(tolerance_level(s2, weight)),
{
}

/// The outcome of risk tolerance calculation.
pub open spec fn risk_tolerance_outcome(qs: Seq<RiskProfileQuestionnaire>, responses: Seq<RiskProfileResponse>, id: Seq<char>) -> Result<RiskToleranceLevel, RiskProfileError> {
    match questionnaire_by_id(qs, id) {
        None => Err(RiskProfileError::QuestionnaireNotFound),
        Some(q) => {
            let t = weighted_totals(q.questions@, responses);
            if t.1 > 0 {
                Ok(tolerance_level(t.0, t.1))
            } else {
                Err(RiskProfileError::NoValidResponses)
            }
        },
    }
}

/// A response names no question of the list, or no option of the question
/// it names.
pub open spec fn invalid_response(qs: Seq<RiskProfileQuestion>, r: RiskProfileResponse) -> bool {
    match question_by_id(qs, r.question_id@) {
        Some(q) => option_score(q.options@, r.response_value) is None,
        None => true,
    }
}

proof fn lemma_totals_remove(qs: Seq<RiskProfileQuestion>, rs: Seq<RiskProfileResponse>, i: int)
    requires
        0 <= i < rs.len(),
    ensures
        weighted_totals(qs, rs).0 == weighted_totals(qs, rs.remove(i)).0 + response_contribution(qs, rs[i]).0,
        weighted_totals(qs, rs).1 == weighted_totals(qs, rs.remove(i)).1 + response_contribution(qs, rs[i]).1,
    decreases rs.len(),
{
    if i == rs.len() - 1 {
        assert(rs.remove(i) =~= rs.drop_last());
    } else {
        lemma_totals_remove(qs, rs.drop_last(), i);
        assert(rs.drop_last().remove(i) =~= rs.remove(i).drop_last());
        assert(rs.remove(i).last() == rs.last());
        assert(rs.drop_last()[i] == rs[i]);
    }
}

proof fn lemma_totals_permutation(qs: Seq<RiskProfileQuestion>, a: Seq<RiskProfileResponse>, b: Seq<RiskProfileResponse>)
    requires
        a.to_multiset() == b.to_multiset(),
    ensures
        weighted_totals(qs, a) == weighted_totals(qs, b),
    decreases a.len(),
{
    broadcast use vstd::seq_lib::group_to_multiset_ensures;
    if a.len() == 0 {
        assert(a.to_multiset().len() == a.len());
        assert(b.to_multiset().len() == b.len());
        assert(b.len() == 0);
        assert(b =~= Seq::<RiskProfileResponse>::empty());
    } else {
        let x = a.last();
        assert(a.contains(x)) by {
            assert(a[a.len() - 1] == x);
        }
        assert(b.to_multiset().count(x) > 0);
        assert(b.contains(x));
        let j = choose|j: int| 0 <= j < b.len() && b[j] == x;
        assert(a.remove(a.len() - 1) =~= a.drop_last());
        assert(a.drop_last().to_multiset() == a.to_multiset().remove(x));
        assert(b.remove(j).to_multiset() == b.to_multiset().remove(x));
        lemma_totals_permutation(qs, a.drop_last(), b.remove(j));
        lemma_totals_remove(qs, b, j);
    }
}

proof fn lemma_totals_invalid_extra(qs: Seq<RiskProfileQuestion>, a: Seq<RiskProfileResponse>, extras: Seq<RiskProfileResponse>)
    requires
        forall|k: int| 0 <= k < extras.len() ==> invalid_response(qs, #[trigger] extras[k]),
    ensures
        weighted_totals(qs, a + extras) == weighted_totals(qs, a),
    decreases extras.len(),
{
    if extras.len() == 0 {
        assert(a + extras =~= a);
    } else {
        let rest = extras.drop_last();
        assert(forall|k: int| 0 <= k < rest.len() ==> #[trigger] rest[k] == extras[k]);
        lemma_totals_invalid_extra(qs, a, rest);
        assert((a + extras).drop_last() =~= a + rest);
        assert((a + extras).last() == extras.last());
        assert(invalid_response(qs, extras[extras.len() - 1]));
    }
}

/// The risk tolerance outcome does not depend on the order of the
/// responses, nor on responses that name no question of the questionnaire
/// or no option of their question: `reordered` holds the responses and such
/// invalid ones, in any order.
pub proof fn lemma_tolerance_ignores_order_and_invalid(
    qs: Seq<RiskProfileQuestionnaire>,
    responses: Seq<RiskProfileResponse>,
    invalid: Seq<RiskProfileResponse>,
    reordered: Seq<RiskProfileResponse>,
    id: Seq<char>,
)
    requires
        reordered.to_multiset() == (responses + invalid).to_multiset(),
        questionnaire_by_id(qs, id) matches Some(q)
            ==> forall|k: int| 0 <= k < invalid.len() ==> invalid_response(q.questions@, #[trigger] invalid[k]),
    ensures
        risk_tolerance_outcome(qs, reordered, id) == risk_tolerance_outcome(qs, responses, id),
{
    if let Some(q) = questionnaire_by_id(qs, id) {
        lemma_totals_permutation(q.questions@, reordered, responses + invalid);
        lemma_totals_invalid_extra(q.questions@, responses, invalid);
    }
}

proof fn lemma_question_in_list(qs: Seq<RiskProfileQuestion>, id: Seq<char>)
    ensures
        question_by_id(qs, id) matches Some(q) ==> exists|i: int| 0 <= i < qs.len() && qs[i] == q,
    decreases qs.len(),
{
    if qs.len() > 0 && qs.last().id@ != id {
        lemma_question_in_list(qs.drop_last(), id);
        if let Some(q) = question_by_id(qs.drop_last(), id) {
            let i = choose|i: int| 0 <= i < qs.drop_last().len() && qs.drop_last()[i] == q;
            assert(qs[i] == q);
        }
    } else if qs.len() > 0 {
        assert(qs[qs.len() - 1] == qs.last());
    }
}

proof fn lemma_option_score_in_list(opts: Seq<RiskProfileAnswerOption>, value: i32)
    ensures
        option_score(opts, value) matches Some(s) ==> exists|o: int| 0 <= o < opts.len() && opts[o].risk_score == s,
    decreases opts.len(),
{
    if opts.len() > 0 && opts[0].value != value {
        lemma_option_score_in_list(opts.drop_first(), value);
        if let Some(s) = option_score(opts.drop_first(), value) {
            let o = choose|o: int| 0 <= o < opts.drop_first().len() && opts.drop_first()[o].risk_score == s;
            assert(opts[o + 1].risk_score == s);
        }
    }
}

/// Each response adds to the totals of the responses before it: one that
/// names a question of the list and one of its options adds that option's
/// risk score times the question's weight to the weighted score and the
/// question's weight to the total weight; any other response adds nothing.
/// So the level is that of the weight-weighted average of the chosen
/// options' scores.
pub proof fn lemma_weighted_totals_step(qs: Seq<RiskProfileQuestion>, rs: Seq<RiskProfileResponse>, r: RiskProfileResponse)
    ensures
        match question_by_id(qs, r.question_id@) {
            Some(q) => match option_score(q.options@, r.response_value) {
                Some(s) => weighted_totals(qs, rs.push(r))
                    == (weighted_totals(qs, rs).0 + s * q.weight, weighted_totals(qs, rs).1 + q.weight),
                None => weighted_totals(qs, rs.push(r)) == weighted_totals(qs, rs),
            },
            None => weighted_totals(qs, rs.push(r)) == weighted_totals(qs, rs),
        },
        weighted_totals(qs, Seq::<RiskProfileResponse>::empty()) == (0int, 0int),
{
    assert(rs.push(r).drop_last() =~= rs);
    assert(rs.push(r).last() == r);
}

/// The outcome for a questionnaire found by its identifier is the level of
/// the weighted totals when some response counts, and `NoValidResponses`
/// otherwise; the weighted score is at least 10 and at most 50 times the
/// total weight when the options' scores lie between 10 and 50.
pub proof fn lemma_weighted_average_bounds(qs: Seq<RiskProfileQuestion>, rs: Seq<RiskProfileResponse>)
    requires
        forall|q: int, o: int| 0 <= q < qs.len() && 0 <= o < qs[q].options@.len()
            ==> 10 <= (#[trigger] qs[q].options@[o]).risk_score <= 50,
    ensures
        10 * weighted_totals(qs, rs).1 <= weighted_totals(qs, rs).0 <= 50 * weighted_totals(qs, rs).1,
    decreases rs.len(),
{
    if rs.len() > 0 {
        lemma_weighted_average_bounds(qs, rs.drop_last());
        let r = rs.last();
        match question_by_id(qs, r.question_id@) {
            Some(q) => {
                lemma_question_in_list(qs, r.question_id@);
                let qi = choose|i: int| 0 <= i < qs.len() && qs[i] == q;
                match option_score(q.options@, r.response_value) {
                    Some(s) => {
                        lemma_option_score_in_list(q.options@, r.response_value);
                        let o = choose|o: int| 0 <= o < q.options@.len() && q.options@[o].risk_score == s;
                        assert(qs[qi].options@[o] == q.options@[o]);
                        let w = q.weight as int;
                        assert(10 * w <= s * w <= 50 * w) by (nonlinear_arith)
                            requires 10 <= s <= 50, w >= 0;
                    },
                    None => {},
                }
            },
            None => {},
        }
    }
}

/// The triggers of the first rule for the question, or none.
pub open spec fn rules_for(rules: Seq<BiasRule>, id: Seq<char>) -> Seq<(i32, BehavioralBiasType)>
    decreases rules.len(),
{
    if rules.len() == 0 {
        Seq::empty()
    } else if rules[0].question_id@ == id {
        rules[0].triggers@
    } else {
        rules_for(rules.drop_first(), id)
    }
}

/// Response `i` triggers the bias through trigger `k` of its question's rule.
pub open spec fn triggers_bias(rules: Seq<BiasRule>, rs: Seq<RiskProfileResponse>, i: int, k: int, b: BehavioralBiasType) -> bool {
    0 <= i < rs.len() && 0 <= k < rules_for(rules, rs[i].question_id@).len()
        && rules_for(rules, rs[i].question_id@)[k].0 == rs[i].response_value
        && rules_for(rules, rs[i].question_id@)[k].1 == b
}

/// Some response triggers the bias.
pub open spec fn bias_detected(rules: Seq<BiasRule>, rs: Seq<RiskProfileResponse>, b: BehavioralBiasType) -> bool {
    exists|i: int, k: int| #[trigger] triggers_bias(rules, rs, i, k, b)
}

/// The insight given for a risk tolerance level.
pub open spec fn tolerance_insight(t: RiskToleranceLevel) -> Seq<char> {
    match t {
        RiskToleranceLevel::VeryConservative => "Your very conservative risk profile suggests a focus on capital preservation and income generation. Consider allocations heavily weighted toward high-quality bonds and cash equivalents."@,
        RiskToleranceLevel::Conservative => "Your conservative risk profile suggests a focus on stability with some growth potential. Consider a portfolio with significant fixed income allocation and some high-quality equities."@,
        RiskToleranceLevel::Moderate => "Your moderate risk profile suggests a balanced approach. Consider a diversified portfolio with roughly equal allocations to equities and fixed income."@,
        RiskToleranceLevel::Aggressive => "Your aggressive risk profile suggests a focus on growth. Consider a portfolio primarily allocated to equities with some fixed income for diversification."@,
        RiskToleranceLevel::VeryAggressive => "Your very aggressive risk profile suggests a focus on maximum growth potential. Consider a portfolio heavily weighted toward equities, including potentially higher-risk segments like small-cap and emerging markets."@,
    }
}

/// The insight given for a bias, for the biases that have one.
pub open spec fn bias_insight(b: BehavioralBiasType) -> Option<Seq<char>> {
    match b {
        BehavioralBiasType::LossAversion => Some("You show signs of loss aversion, where the pain of losses outweighs the pleasure of gains. This might lead you to sell investments during market downturns, potentially locking in losses. Consider setting up automatic rebalancing to reduce emotional decision-making."@),
        BehavioralBiasType::RecencyBias => Some("You show signs of recency bias, giving too much weight to recent events. This might lead you to chase performance or panic during market volatility. Consider focusing on long-term historical data and maintaining a consistent investment strategy."@),
        BehavioralBiasType::Overconfidence => Some("You show signs of overconfidence in your investment knowledge. This might lead to excessive trading or concentrated positions. Consider implementing a systematic investment approach and seeking diverse perspectives before making major decisions."@),
        BehavioralBiasType::MentalAccounting => Some("You show signs of mental accounting, treating different investments as separate buckets. While goal-based investing has benefits, consider the efficiency of your overall portfolio allocation and risk exposure."@),
        BehavioralBiasType::HerdMentality => Some("You show signs of herding behavior, being influenced by what other investors are doing. This might lead to buying high and selling low. Consider focusing on your personal financial goals rather than market trends."@),
        _ => None,
    }
}

/// The insights for a list of biases, in order (repeats included).
pub open spec fn bias_insights(bs: Seq<BehavioralBiasType>) -> Seq<Seq<char>>
    decreases bs.len(),
{
    if bs.len() == 0 {
        Seq::empty()
    } else {
        match bias_insight(bs.last()) {
            Some(s) => bias_insights(bs.drop_last()).push(s),
            None => bias_insights(bs.drop_last()),
        }
    }
}

/// The scoring data of the default questionnaire: per question its
/// identifier, weight and (value, risk score) options.
pub open spec fn default_scoring() -> Seq<(Seq<char>, u32, Seq<(i32, u32)>)> {
    seq![
        ("time_horizon"@, 15, seq![(1, 10), (2, 20), (3, 30), (4, 40), (5, 50)]),
        ("income_stability"@, 12, seq![(1, 10), (2, 20), (3, 30), (4, 40), (5, 50)]),
        ("emergency_fund"@, 10, seq![(1, 10), (2, 20), (3, 30), (4, 40), (5, 50)]),
        ("market_decline_reaction"@, 13, seq![(1, 10), (2, 20), (3, 30), (4, 40), (5, 50)]),
        ("risk_reward_tradeoff"@, 10, seq![(1, 10), (2, 20), (3, 30), (4, 40), (5, 50)]),
        ("loss_aversion"@, 8, seq![(1, 20), (2, 30), (3, 40)]),
        ("recency_bias"@, 8, seq![(1, 20), (2, 30), (3, 40)]),
        ("overconfidence"@, 7, seq![(1, 20), (2, 30), (3, 35), (4, 40)]),
        ("mental_accounting"@, 6, seq![(1, 30), (2, 35), (3, 40)]),
        ("herding"@, 7, seq![(1, 20), (2, 30), (3, 40)]),
        ("investment_knowledge"@, 9, seq![(1, 10), (2, 20), (3, 30), (4, 40), (5, 50)])
    ]
}

/// The wording of the default questionnaire: per question its text, its
/// category and the texts of its options, in order.
pub open spec fn default_wording() -> Seq<(Seq<char>, Seq<char>, Seq<Seq<char>>)> {
    seq![
        (
            "How long do you plan to invest your money before you'll need to access a significant portion of it?"@,
            "risk_capacity"@,
            seq![
                "Less than 1 year"@,
                "1-3 years"@,
                "3-5 years"@,
                "5-10 years"@,
                "More than 10 years"@,
            ],
        ),
        (
            "How stable is your current and future income?"@,
            "risk_capacity"@,
            seq![
                "Very unstable - I work in a volatile industry or have irregular income"@,
                "Somewhat unstable - My income fluctuates year to year"@,
                "Moderately stable - My income is generally reliable but not guaranteed"@,
                "Stable - I have a secure job with predictable income"@,
                "Very stable - I have guaranteed income or multiple secure income sources"@,
            ],
        ),
        (
            "How many months of expenses do you have saved in an emergency fund?"@,
            "risk_capacity"@,
            seq![
                "Less than 1 month"@,
                "1-3 months"@,
                "3-6 months"@,
                "6-12 months"@,
                "More than 12 months"@,
            ],
        ),
        (
            "If your portfolio lost 20% of its value in a month, what would you do?"@,
            "risk_willingness"@,
            seq![
                "Sell all investments and move to cash"@,
                "Sell some investments to reduce risk"@,
                "Do nothing and wait for recovery"@,
                "Invest a small amount more to take advantage of lower prices"@,
                "Invest significantly more to take advantage of lower prices"@,
            ],
        ),
        (
            "Which investment approach appeals to you most?"@,
            "risk_willingness"@,
            seq![
                "Preserving capital with minimal risk, accepting lower returns"@,
                "Taking minimal risk with focus on income generation"@,
                "Balanced approach with moderate risk and returns"@,
                "Growth-focused with higher risk for higher potential returns"@,
                "Aggressive growth with maximum risk for maximum potential returns"@,
            ],
        ),
        (
            "Which would bother you more?"@,
            "behavioral_bias"@,
            seq![
                "Losing $1,000 on an investment"@,
                "Missing out on a $1,000 gain by not investing"@,
                "Both would bother me equally"@,
            ],
        ),
        (
            "How much do recent market events influence your investment decisions?"@,
            "behavioral_bias"@,
            seq![
                "Significantly - I tend to react to recent market movements"@,
                "Somewhat - I consider recent events but try to maintain perspective"@,
                "Minimally - I focus on long-term trends rather than recent events"@,
            ],
        ),
        (
            "How would you rate your investment knowledge compared to others?"@,
            "behavioral_bias"@,
            seq![
                "Below average"@,
                "Average"@,
                "Above average"@,
                "Expert"@,
            ],
        ),
        (
            "Do you view different investments (retirement, education, etc.) as separate buckets with different risk levels?"@,
            "behavioral_bias"@,
            seq![
                "Yes, I have different risk approaches for different goals"@,
                "Somewhat, but I try to maintain a consistent overall approach"@,
                "No, I view my portfolio holistically with one risk approach"@,
            ],
        ),
        (
            "How influenced are you by what other investors are doing?"@,
            "behavioral_bias"@,
            seq![
                "Very influenced - I often follow investment trends"@,
                "Somewhat influenced - I consider trends but make my own decisions"@,
                "Rarely influenced - I make decisions independently of others"@,
            ],
        ),
        (
            "How would you rate your understanding of different investment types and their risks?"@,
            "financial_knowledge"@,
            seq![
                "Very limited - I have minimal understanding of investments"@,
                "Basic - I understand simple investments like savings accounts and CDs"@,
                "Moderate - I understand stocks, bonds, and mutual funds"@,
                "Advanced - I understand complex investments like options and alternatives"@,
                "Expert - I have professional-level investment knowledge"@,
            ],
        ),
    ]
}

/// The wording of a question: its text, category and option texts.
pub open spec fn question_wording(q: RiskProfileQuestion) -> (Seq<char>, Seq<char>, Seq<Seq<char>>) {
    (q.text@, q.category@, q.options@.map_values(|o: RiskProfileAnswerOption| o.text@))
}

/// The scoring data of a question.
pub open spec fn question_scoring(q: RiskProfileQuestion) -> (Seq<char>, u32, Seq<(i32, u32)>) {
    (q.id@, q.weight, q.options@.map_values(|o: RiskProfileAnswerOption| (o.value, o.risk_score)))
}

/// The default bias rules: per question its identifier and triggers.
pub open spec fn default_bias_rules() -> Seq<(Seq<char>, Seq<(i32, BehavioralBiasType)>)> {
    seq![
        ("loss_aversion"@, seq![(1, BehavioralBiasType::LossAversion)]),
        ("recency_bias"@, seq![(1, BehavioralBiasType::RecencyBias)]),
        ("overconfidence"@, seq![(4, BehavioralBiasType::Overconfidence), (3, BehavioralBiasType::Overconfidence)]),
        ("mental_accounting"@, seq![(1, BehavioralBiasType::MentalAccounting)]),
        ("herding"@, seq![(1, BehavioralBiasType::HerdMentality)])
    ]
}

/// Risk profiling service for assessing client risk tolerance and behavioral biases.
pub struct RiskProfilingService {
    /// Available questionnaires
    questionnaires: Vec<RiskProfileQuestionnaire>,
    /// Rules detecting behavioral biases from answers
    bias_detection_rules: Vec<BiasRule>,
}

fn option(value: i32, text: &str, risk_score: u32) -> (o: RiskProfileAnswerOption)
    ensures
        o.value == value,
        o.risk_score == risk_score,
        o.text@ == text@,
{
    RiskProfileAnswerOption { value, text: String::from_str(text), risk_score }
}

fn question(id: &str, text: &str, options: Vec<RiskProfileAnswerOption>, category: &str, weight: u32) -> (q: RiskProfileQuestion)
    ensures
        q.id@ == id@,
        q.options@ == options@,
        q.weight == weight,
        q.text@ == text@,
        q.category@ == category@,
{
    RiskProfileQuestion { id: String::from_str(id), text: String::from_str(text), options, category: String::from_str(category), weight }
}

/// The questions of the default comprehensive questionnaire.
fn default_questions() -> (qs: Vec<RiskProfileQuestion>)
    ensures
        qs@.map_values(|q: RiskProfileQuestion| question_scoring(q)) == default_scoring(),
        qs@.map_values(|q: RiskProfileQuestion| question_wording(q)) == default_wording(),
{
    let mut qs: Vec<RiskProfileQuestion> = Vec::new();
    qs.push(question(
        "time_horizon",
        "How long do you plan to invest your money before you'll need to access a significant portion of it?",
        vec![
            option(1, "Less than 1 year", 10),
            option(2, "1-3 years", 20),
            option(3, "3-5 years", 30),
            option(4, "5-10 years", 40),
            option(5, "More than 10 years", 50),
        ],
        "risk_capacity",
        15,
    ));
    qs.push(question(
        "income_stability",
        "How stable is your current and future income?",
        vec![
            option(1, "Very unstable - I work in a volatile industry or have irregular income", 10),
            option(2, "Somewhat unstable - My income fluctuates year to year", 20),
            option(3, "Moderately stable - My income is generally reliable but not guaranteed", 30),
            option(4, "Stable - I have a secure job with predictable income", 40),
            option(5, "Very stable - I have guaranteed income or multiple secure income sources", 50),
        ],
        "risk_capacity",
        12,
    ));
    qs.push(question(
        "emergency_fund",
        "How many months of expenses do you have saved in an emergency fund?",
        vec![
            option(1, "Less than 1 month", 10),
            option(2, "1-3 months", 20),
            option(3, "3-6 months", 30),
            option(4, "6-12 months", 40),
            option(5, "More than 12 months", 50),
        ],
        "risk_capacity",
        10,
    ));
    qs.push(question(
        "market_decline_reaction",
        "If your portfolio lost 20% of its value in a month, what would you do?",
        vec![
            option(1, "Sell all investments and move to cash", 10),
            option(2, "Sell some investments to reduce risk", 20),
            option(3, "Do nothing and wait for recovery", 30),
            option(4, "Invest a small amount more to take advantage of lower prices", 40),
            option(5, "Invest significantly more to take advantage of lower prices", 50),
        ],
        "risk_willingness",
        13,
    ));
    qs.push(question(
        "risk_reward_tradeoff",
        "Which investment approach appeals to you most?",
        vec![
            option(1, "Preserving capital with minimal risk, accepting lower returns", 10),
            option(2, "Taking minimal risk with focus on income generation", 20),
            option(3, "Balanced approach with moderate risk and returns", 30),
            option(4, "Growth-focused with higher risk for higher potential returns", 40),
            option(5, "Aggressive growth with maximum risk for maximum potential returns", 50),
        ],
        "risk_willingness",
        10,
    ));
    qs.push(question(
        "loss_aversion",
        "Which would bother you more?",
        vec![
            option(1, "Losing $1,000 on an investment", 20),
            option(2, "Missing out on a $1,000 gain by not investing", 30),
            option(3, "Both would bother me equally", 40),
        ],
        "behavioral_bias",
        8,
    ));
    qs.push(question(
        "recency_bias",
        "How much do recent market events influence your investment decisions?",
        vec![
            option(1, "Significantly - I tend to react to recent market movements", 20),
            option(2, "Somewhat - I consider recent events but try to maintain perspective", 30),
            option(3, "Minimally - I focus on long-term trends rather than recent events", 40),
        ],
        "behavioral_bias",
        8,
    ));
    qs.push(question(
        "overconfidence",
        "How would you rate your investment knowledge compared to others?",
        vec![
            option(1, "Below average", 20),
            option(2, "Average", 30),
            option(3, "Above average", 35),
            option(4, "Expert", 40),
        ],
        "behavioral_bias",
        7,
    ));
    qs.push(question(
        "mental_accounting",
        "Do you view different investments (retirement, education, etc.) as separate buckets with different risk levels?",
        vec![
            option(1, "Yes, I have different risk approaches for different goals", 30),
            option(2, "Somewhat, but I try to maintain a consistent overall approach", 35),
            option(3, "No, I view my portfolio holistically with one risk approach", 40),
        ],
        "behavioral_bias",
        6,
    ));
    qs.push(question(
        "herding",
        "How influenced are you by what other investors are doing?",
        vec![
            option(1, "Very influenced - I often follow investment trends", 20),
            option(2, "Somewhat influenced - I consider trends but make my own decisions", 30),
            option(3, "Rarely influenced - I make decisions independently of others", 40),
        ],
        "behavioral_bias",
        7,
    ));
    qs.push(question(
        "investment_knowledge",
        "How would you rate your understanding of different investment types and their risks?",
        vec![
            option(1, "Very limited - I have minimal understanding of investments", 10),
            option(2, "Basic - I understand simple investments like savings accounts and CDs", 20),
            option(3, "Moderate - I understand stocks, bonds, and mutual funds", 30),
            option(4, "Advanced - I understand complex investments like options and alternatives", 40),
            option(5, "Expert - I have professional-level investment knowledge", 50),
        ],
        "financial_knowledge",
        9,
    ));
    proof {
        let s = qs@.map_values(|q: RiskProfileQuestion| question_scoring(q));
        assert forall|i: int| 0 <= i < s.len() implies #[trigger] s[i] == default_scoring()[i] by {
            assert(qs@[i].options@.map_values(|o: RiskProfileAnswerOption| (o.value, o.risk_score)) =~= default_scoring()[i].2);
        }
        assert(s =~= default_scoring());
        let w = qs@.map_values(|q: RiskProfileQuestion| question_wording(q));
        assert forall|i: int| 0 <= i < w.len() implies #[trigger] w[i] == default_wording()[i] by {
            assert(qs@[i].options@.map_values(|o: RiskProfileAnswerOption| o.text@) =~= default_wording()[i].2);
        }
        assert(w =~= default_wording());
    }
    qs
}

fn bias_rule(question_id: &str, triggers: Vec<(i32, BehavioralBiasType)>) -> (r: BiasRule)
    ensures
        r.question_id@ == question_id@,
        r.triggers@ == triggers@,
{
    BiasRule { question_id: String::from_str(question_id), triggers }
}

/// The default bias detection rules.
fn default_rules() -> (rs: Vec<BiasRule>)
    ensures
        rs@.map_values(|r: BiasRule| (r.question_id@, r.triggers@)) == default_bias_rules(),
{
    let mut rs: Vec<BiasRule> = Vec::new();
    rs.push(bias_rule("loss_aversion", vec![(1, BehavioralBiasType::LossAversion)]));
    rs.push(bias_rule("recency_bias", vec![(1, BehavioralBiasType::RecencyBias)]));
    rs.push(bias_rule("overconfidence", vec![(4, BehavioralBiasType::Overconfidence), (3, BehavioralBiasType::Overconfidence)]));
    rs.push(bias_rule("mental_accounting", vec![(1, BehavioralBiasType::MentalAccounting)]));
    rs.push(bias_rule("herding", vec![(1, BehavioralBiasType::HerdMentality)]));
    proof {
        let m = rs@.map_values(|r: BiasRule| (r.question_id@, r.triggers@));
        assert forall|i: int| 0 <= i < m.len() implies #[trigger] m[i] == default_bias_rules()[i] by {
            assert(rs@[i].triggers@ =~= default_bias_rules()[i].1);
        }
        assert(m =~= default_bias_rules());
    }
    rs
}

/// The insight for a bias, if it has one.
fn insight_text(b: BehavioralBiasType) -> (r: Option<&'static str>)
    ensures
        match r {
            Some(s) => bias_insight(b) == Some(s@),
            None => bias_insight(b) is None,
        },
{
    match b {
            BehavioralBiasType::LossAversion => Some("You show signs of loss aversion, where the pain of losses outweighs the pleasure of gains. This might lead you to sell investments during market downturns, potentially locking in losses. Consider setting up automatic rebalancing to reduce emotional decision-making."),
            BehavioralBiasType::RecencyBias => Some("You show signs of recency bias, giving too much weight to recent events. This might lead you to chase performance or panic during market volatility. Consider focusing on long-term historical data and maintaining a consistent investment strategy."),
            BehavioralBiasType::Overconfidence => Some("You show signs of overconfidence in your investment knowledge. This might lead to excessive trading or concentrated positions. Consider implementing a systematic investment approach and seeking diverse perspectives before making major decisions."),
            BehavioralBiasType::MentalAccounting => Some("You show signs of mental accounting, treating different investments as separate buckets. While goal-based investing has benefits, consider the efficiency of your overall portfolio allocation and risk exposure."),
            BehavioralBiasType::HerdMentality => Some("You show signs of herding behavior, being influenced by what other investors are doing. This might lead to buying high and selling low. Consider focusing on your personal financial goals rather than market trends."),
        _ => None,
    }
}

/// Index of the last question with the identifier.
fn find_question(qs: &Vec<RiskProfileQuestion>, id: &String) -> (r: Option<usize>)
    ensures
        match r {
            Some(i) => i < qs@.len() && question_by_id(qs@, id@) == Some(qs@[i as int]),
            None => question_by_id(qs@, id@) is None,
        },
{
    let mut n: usize = qs.len();
    assert(qs@.take(n as int) =~= qs@);
    while n > 0
        invariant
            n <= qs@.len(),
            question_by_id(qs@, id@) == question_by_id(qs@.take(n as int), id@),
        decreases n,
    {
        let ghost pre = qs@.take(n as int);
        assert(pre.drop_last() =~= qs@.take(n - 1));
        if qs[n - 1].id == *id {
            return Some(n - 1);
        }
        n = n - 1;
    }
    assert(qs@.take(0) =~= Seq::<RiskProfileQuestion>::empty());
    None
}

/// Risk score of the first option with the value.
fn find_option_score(opts: &Vec<RiskProfileAnswerOption>, value: i32) -> (r: Option<u32>)
    ensures
        r == option_score(opts@, value),
{
    let mut i: usize = 0;
    assert(opts@.skip(0) =~= opts@);
    while i < opts.len()
        invariant
            i <= opts@.len(),
            option_score(opts@, value) == option_score(opts@.skip(i as int), value),
        decreases opts@.len() - i,
    {
        assert(opts@.skip(i as int).drop_first() =~= opts@.skip(i + 1));
        if opts[i].value == value {
            return Some(opts[i].risk_score);
        }
        i = i + 1;
    }
    None
}

proof fn lemma_product_bound(s: u32, w: u32)
    ensures
        (s as int) * (w as int) <= 0xFFFF_FFFF_FFFF_FFFF,
        (s as int) * (w as int) >= 0,
{
    assert((s as int) * (w as int) <= 0xFFFF_FFFF * 0xFFFF_FFFF) by (nonlinear_arith)
        requires s <= 0xFFFF_FFFF, w <= 0xFFFF_FFFF;
    assert((s as int) * (w as int) >= 0) by (nonlinear_arith)
        requires s >= 0, w >= 0;
}

proof fn lemma_contribution_bounds(qs: Seq<RiskProfileQuestion>, r: RiskProfileResponse)
    ensures
        0 <= response_contribution(qs, r).0 <= 0xFFFF_FFFF_FFFF_FFFF,
        0 <= response_contribution(qs, r).1 <= 0xFFFF_FFFF,
{
    match question_by_id(qs, r.question_id@) {
        Some(q) => match option_score(q.options@, r.response_value) {
            Some(s) => lemma_product_bound(s, q.weight),
            None => {},
        },
        None => {},
    }
}

impl RiskProfilingService {
    /// The questionnaires held by the service.
    pub closed spec fn questionnaires(&self) -> Seq<RiskProfileQuestionnaire> {
        self.questionnaires@
    }

    /// The bias detection rules held by the service.
    pub closed spec fn bias_rules(&self) -> Seq<BiasRule> {
        self.bias_detection_rules@
    }

    /// Creates the service with the default comprehensive questionnaire and
    /// bias detection rules.
    pub fn new() -> (s: Self)
        ensures
            s.questionnaires().len() == 1,
            s.questionnaires()[0].id@ == "comprehensive_risk_profile"@,
            s.questionnaires()[0].name@ == "Comprehensive Risk Profile Assessment"@,
            s.questionnaires()[0].description@
                == "A holistic assessment of risk tolerance incorporating capacity, willingness, and behavioral factors"@,
            s.questionnaires()[0].questions@.map_values(|q: RiskProfileQuestion| question_scoring(q)) == default_scoring(),
            s.questionnaires()[0].questions@.map_values(|q: RiskProfileQuestion| question_wording(q)) == default_wording(),
            s.bias_rules().map_values(|r: BiasRule| (r.question_id@, r.triggers@)) == default_bias_rules(),
    {
        let mut service = Self { questionnaires: Vec::new(), bias_detection_rules: Vec::new() };
        service.initialize_default_questionnaire();
        service.initialize_bias_detection_rules();
        service
    }

    /// Registers the default comprehensive risk profiling questionnaire.
    fn initialize_default_questionnaire(&mut self)
        requires
            old(self).questionnaires@.len() == 0,
        ensures
            final(self).questionnaires@.len() == 1,
            final(self).questionnaires@[0].id@ == "comprehensive_risk_profile"@,
            final(self).questionnaires@[0].name@ == "Comprehensive Risk Profile Assessment"@,
            final(self).questionnaires@[0].description@
                == "A holistic assessment of risk tolerance incorporating capacity, willingness, and behavioral factors"@,
            final(self).questionnaires@[0].questions@.map_values(|q: RiskProfileQuestion| question_scoring(q)) == default_scoring(),
            final(self).questionnaires@[0].questions@.map_values(|q: RiskProfileQuestion| question_wording(q)) == default_wording(),
            final(self).bias_detection_rules == old(self).bias_detection_rules,
    {
        let questions = default_questions();
        let questionnaire = RiskProfileQuestionnaire {
            id: String::from_str("comprehensive_risk_profile"),
            name: String::from_str("Comprehensive Risk Profile Assessment"),
            description: String::from_str("A holistic assessment of risk tolerance incorporating capacity, willingness, and behavioral factors"),
            questions,
        };
        self.questionnaires.push(questionnaire);
    }

    /// Registers the default behavioral bias detection rules.
    fn initialize_bias_detection_rules(&mut self)
        requires
            old(self).bias_detection_rules@.len() == 0,
        ensures
            final(self).bias_detection_rules@.map_values(|r: BiasRule| (r.question_id@, r.triggers@)) == default_bias_rules(),
            final(self).questionnaires == old(self).questionnaires,
    {
        self.bias_detection_rules = default_rules();
    }

    /// The questionnaire with the identifier.
    pub fn get_questionnaire(&self, id: &str) -> (r: Option<&RiskProfileQuestionnaire>)
        ensures
            match r {
                Some(q) => questionnaire_by_id(self.questionnaires(), id@) == Some(*q),
                None => questionnaire_by_id(self.questionnaires(), id@) is None,
            },
    {
        let key = String::from_str(id);
        let mut i: usize = 0;
        assert(self.questionnaires@.skip(0) =~= self.questionnaires@);
        while i < self.questionnaires.len()
            invariant
                i <= self.questionnaires@.len(),
                key@ == id@,
                questionnaire_by_id(self.questionnaires@, id@) == questionnaire_by_id(self.questionnaires@.skip(i as int), id@),
            decreases self.questionnaires@.len() - i,
        {
            assert(self.questionnaires@.skip(i as int).drop_first() =~= self.questionnaires@.skip(i + 1));
            if self.questionnaires[i].id == key {
                return Some(&self.questionnaires[i]);
            }
            i = i + 1;
        }
        None
    }

    /// The risk tolerance level that the responses give: the weighted average
    /// of the chosen options' scores, over the responses that name a question
    /// of the questionnaire and one of its options.
    pub fn calculate_risk_tolerance(&self, responses: &[RiskProfileResponse], questionnaire_id: &str) -> (r: Result<RiskToleranceLevel, RiskProfileError>)
        ensures
            r == risk_tolerance_outcome(self.questionnaires(), responses@, questionnaire_id@),
    {
        let questionnaire = match self.get_questionnaire(questionnaire_id) {
            Some(q) => q,
            None => return Err(RiskProfileError::QuestionnaireNotFound),
        };
        let ghost qs = questionnaire.questions@;
        let mut total_score: u128 = 0;
        let mut total_weight: u128 = 0;
        let mut i: usize = 0;
        while i < responses.len()
            invariant
                qs == questionnaire.questions@,
                i <= responses@.len(),
                (total_score as int, total_weight as int) == weighted_totals(qs, responses@.take(i as int)),
                total_score <= i * 0xFFFF_FFFF_FFFF_FFFFu128,
                total_weight <= i * 0xFFFF_FFFFu128,
            decreases responses@.len() - i,
        {
            let response = &responses[i];
            proof {
                assert(responses@.take(i + 1).drop_last() =~= responses@.take(i as int));
                assert(responses@.take(i + 1).last() == responses@[i as int]);
                lemma_contribution_bounds(qs, responses@[i as int]);
            }
            match find_question(&questionnaire.questions, &response.question_id) {
                Some(qi) => {
                    let question = &questionnaire.questions[qi];
                    match find_option_score(&question.options, response.response_value) {
                        Some(score) => {
                            proof { lemma_product_bound(score, question.weight); }
                            let product: u64 = (score as u64) * (question.weight as u64);
                            total_score = total_score + product as u128;
                            total_weight = total_weight + question.weight as u128;
                        },
                        None => {},
                    }
                },
                None => {},
            }
            i = i + 1;
        }
        assert(responses@.take(responses@.len() as int) =~= responses@);
        if total_weight > 0 {
            let level = if total_score < 15 * total_weight {
                RiskToleranceLevel::VeryConservative
            } else if total_score < 25 * total_weight {
                RiskToleranceLevel::Conservative
            } else if total_score < 35 * total_weight {
                RiskToleranceLevel::Moderate
            } else if total_score < 45 * total_weight {
                RiskToleranceLevel::Aggressive
            } else {
                RiskToleranceLevel::VeryAggressive
            };
            Ok(level)
        } else {
            Err(RiskProfileError::NoValidResponses)
        }
    }

    /// The triggers of the first rule for the question.
    fn find_rules(&self, id: &String) -> (r: Option<usize>)
        ensures
            match r {
                Some(k) => k < self.bias_rules().len() && rules_for(self.bias_rules(), id@) == self.bias_rules()[k as int].triggers@,
                None => rules_for(self.bias_rules(), id@) == Seq::<(i32, BehavioralBiasType)>::empty(),
            },
    {
        let mut k: usize = 0;
        assert(self.bias_detection_rules@.skip(0) =~= self.bias_detection_rules@);
        while k < self.bias_detection_rules.len()
            invariant
                k <= self.bias_detection_rules@.len(),
                rules_for(self.bias_detection_rules@, id@) == rules_for(self.bias_detection_rules@.skip(k as int), id@),
            decreases self.bias_detection_rules@.len() - k,
        {
            assert(self.bias_detection_rules@.skip(k as int).drop_first() =~= self.bias_detection_rules@.skip(k + 1));
            if self.bias_detection_rules[k].question_id == *id {
                return Some(k);
            }
            k = k + 1;
        }
        None
    }

    /// The behavioral biases that the responses reveal, each once.
    pub fn detect_behavioral_biases(&self, responses: &[RiskProfileResponse]) -> (r: Vec<BehavioralBiasType>)
        ensures
            r@.no_duplicates(),
            forall|b: BehavioralBiasType| r@.contains(b) <==> bias_detected(self.bias_rules(), responses@, b),
    {
        let ghost rules = self.bias_rules();
        let mut detected: Vec<BehavioralBiasType> = Vec::new();
        let mut i: usize = 0;
        while i < responses.len()
            invariant
                rules == self.bias_rules(),
                i <= responses@.len(),
                detected@.no_duplicates(),
                forall|b: BehavioralBiasType| detected@.contains(b) <==>
                    exists|ii: int, k: int| ii < i && #[trigger] triggers_bias(rules, responses@, ii, k, b),
            decreases responses@.len() - i,
        {
            let response = &responses[i];
            match self.find_rules(&response.question_id) {
                Some(ri) => {
                    let triggers = &self.bias_detection_rules[ri].triggers;
                    let mut k: usize = 0;
                    while k < triggers.len()
                        invariant
                            rules == self.bias_rules(),
                            i < responses@.len(),
                            *response == responses@[i as int],
                            ri < rules.len(),
                            *triggers == rules[ri as int].triggers,
                            rules_for(rules, responses@[i as int].question_id@) == triggers@,
                            k <= triggers@.len(),
                            detected@.no_duplicates(),
                            forall|b: BehavioralBiasType| detected@.contains(b) <==>
                                ((exists|ii: int, kk: int| ii < i && #[trigger] triggers_bias(rules, responses@, ii, kk, b))
                                || (exists|kk: int| 0 <= kk < k && #[trigger] triggers_bias(rules, responses@, i as int, kk, b))),
                        decreases triggers@.len() - k,
                    {
                        let (trigger_value, bias) = triggers[k];
                        assert(rules_for(rules, responses@[i as int].question_id@)[k as int] == (trigger_value, bias));
                        assert(response.response_value == responses@[i as int].response_value);
                        if response.response_value == trigger_value {
                            let ghost before = detected@;
                            let mut present = false;
                            let mut m: usize = 0;
                            while m < detected.len()
                                invariant
                                    detected@ == before,
                                    m <= detected@.len(),
                                    present <==> exists|mm: int| 0 <= mm < m && detected@[mm] == bias,
                                decreases detected@.len() - m,
                            {
                                if detected[m] == bias {
                                    present = true;
                                }
                                m = m + 1;
                            }
                            if !present {
                                detected.push(bias);
                                proof {
                                    assert(detected@ =~= before.push(bias));
                                    assert forall|x: BehavioralBiasType| detected@.contains(x) <==> (before.contains(x) || x == bias) by {
                                        if x == bias {
                                            assert(detected@[before.len() as int] == bias);
                                        }
                                        if detected@.contains(x) && x != bias {
                                            let j = choose|j: int| 0 <= j < detected@.len() && detected@[j] == x;
                                            assert(before[j] == x);
                                        }
                                        if before.contains(x) {
                                            let j = choose|j: int| 0 <= j < before.len() && before[j] == x;
                                            assert(detected@[j] == x);
                                        }
                                    }
                                }
                            } else {
                                assert(before.contains(bias));
                            }
                            proof {
                                assert(triggers_bias(rules, responses@, i as int, k as int, bias));
                                assert forall|b: BehavioralBiasType| detected@.contains(b) <==>
                                    ((exists|ii: int, kk: int| ii < i && #[trigger] triggers_bias(rules, responses@, ii, kk, b))
                                    || (exists|kk: int| 0 <= kk < k + 1 && #[trigger] triggers_bias(rules, responses@, i as int, kk, b))) by {
                                    assert(before.contains(b) <==>
                                        ((exists|ii: int, kk: int| ii < i && #[trigger] triggers_bias(rules, responses@, ii, kk, b))
                                        || (exists|kk: int| 0 <= kk < k && #[trigger] triggers_bias(rules, responses@, i as int, kk, b))));
                                    if present {
                                        assert(detected@ == before);
                                    }
                                    if b == bias {
                                        assert(triggers_bias(rules, responses@, i as int, k as int, b));
                                        assert(detected@.contains(b));
                                    }
                                    if (exists|kk: int| 0 <= kk < k + 1 && #[trigger] triggers_bias(rules, responses@, i as int, kk, b)) {
                                        let kk = choose|kk: int| 0 <= kk < k + 1 && #[trigger] triggers_bias(rules, responses@, i as int, kk, b);
                                        if kk == k {
                                            assert(b == bias);
                                        } else {
                                            assert(before.contains(b));
                                        }
                                    }
                                    if detected@.contains(b) && b != bias {
                                        assert(before.contains(b));
                                    }
                                }
                            }
                        } else {
                            proof {
                                assert forall|b: BehavioralBiasType| detected@.contains(b) <==>
                                    ((exists|ii: int, kk: int| ii < i && #[trigger] triggers_bias(rules, responses@, ii, kk, b))
                                    || (exists|kk: int| 0 <= kk < k + 1 && #[trigger] triggers_bias(rules, responses@, i as int, kk, b))) by {
                                    if (exists|kk: int| 0 <= kk < k + 1 && #[trigger] triggers_bias(rules, responses@, i as int, kk, b)) {
                                        let kk = choose|kk: int| 0 <= kk < k + 1 && #[trigger] triggers_bias(rules, responses@, i as int, kk, b);
                                        assert(kk != k);
                                    }
                                }
                            }
                        }
                        k = k + 1;
                    }
                    proof {
                        assert forall|b: BehavioralBiasType| detected@.contains(b) <==>
                            exists|ii: int, kk: int| ii < i + 1 && #[trigger] triggers_bias(rules, responses@, ii, kk, b) by {
                            if exists|ii: int, kk: int| ii < i + 1 && #[trigger] triggers_bias(rules, responses@, ii, kk, b) {
                                let (ii, kk) = choose|ii: int, kk: int| ii < i + 1 && #[trigger] triggers_bias(rules, responses@, ii, kk, b);
                                if ii == i {
                                    assert(0 <= kk < k);
                                }
                            }
                        }
                    }
                },
                None => {
                    proof {
                        assert forall|b: BehavioralBiasType| detected@.contains(b) <==>
                            exists|ii: int, kk: int| ii < i + 1 && #[trigger] triggers_bias(rules, responses@, ii, kk, b) by {
                            if exists|ii: int, kk: int| ii < i + 1 && #[trigger] triggers_bias(rules, responses@, ii, kk, b) {
                                let (ii, kk) = choose|ii: int, kk: int| ii < i + 1 && #[trigger] triggers_bias(rules, responses@, ii, kk, b);
                                assert(ii != i);
                            }
                        }
                    }
                },
            }
            i = i + 1;
        }
        detected
    }

    /// Personalized insights: one for the risk tolerance level, then one for
    /// each listed bias that has an insight, in order.
    pub fn generate_risk_insights(&self, risk_tolerance: &RiskToleranceLevel, biases: &[BehavioralBiasType]) -> (r: Vec<String>)
        ensures
            r@.map_values(|s: String| s@) == seq![tolerance_insight(*risk_tolerance)] + bias_insights(biases@),
    {
        let mut insights: Vec<String> = Vec::new();
        let first: &str = match risk_tolerance {
            RiskToleranceLevel::VeryConservative => "Your very conservative risk profile suggests a focus on capital preservation and income generation. Consider allocations heavily weighted toward high-quality bonds and cash equivalents.",
            RiskToleranceLevel::Conservative => "Your conservative risk profile suggests a focus on stability with some growth potential. Consider a portfolio with significant fixed income allocation and some high-quality equities.",
            RiskToleranceLevel::Moderate => "Your moderate risk profile suggests a balanced approach. Consider a diversified portfolio with roughly equal allocations to equities and fixed income.",
            RiskToleranceLevel::Aggressive => "Your aggressive risk profile suggests a focus on growth. Consider a portfolio primarily allocated to equities with some fixed income for diversification.",
            RiskToleranceLevel::VeryAggressive => "Your very aggressive risk profile suggests a focus on maximum growth potential. Consider a portfolio heavily weighted toward equities, including potentially higher-risk segments like small-cap and emerging markets.",
        };
        insights.push(String::from_str(first));
        let mut i: usize = 0;
        while i < biases.len()
            invariant
                i <= biases@.len(),
                insights@.map_values(|s: String| s@) == seq![tolerance_insight(*risk_tolerance)] + bias_insights(biases@.take(i as int)),
            decreases biases@.len() - i,
        {
            proof {
                assert(biases@.take(i + 1).drop_last() =~= biases@.take(i as int));
                assert(biases@.take(i + 1).last() == biases@[i as int]);
            }
            let ghost before = insights@;
            match insight_text(biases[i]) {
                Some(text) => {
                    insights.push(String::from_str(text));
                    assert(insights@.map_values(|s: String| s@) =~= before.map_values(|s: String| s@).push(text@));
                },
                None => {},
            }
            i = i + 1;
        }
        assert(biases@.take(biases@.len() as int) =~= biases@);
        insights
    }
}

} // verus!
