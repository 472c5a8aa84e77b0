//! Verified core of a conversational investment-management assistant:
//! rule-based query understanding, conversation state, knowledge retrieval,
//! risk profiling and supporting configuration.
#![allow(unused_imports)]

use vstd::prelude::*;

pub mod text;
pub mod string_map;
pub mod ranking;
pub mod clock;
pub mod pattern;
pub mod nlp;
pub mod risk_profiling;
pub mod logging;
pub mod model_portfolio;
pub mod performance_calculator;
pub mod json;
pub mod financial_entities;

verus! {

} // verus!
