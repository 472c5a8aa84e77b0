//! Model portfolios: the kinds of models, tax holding periods, and the
//! service that manages them.

use vstd::prelude::*;

verus! {

/// A handle on the factor-model service that model portfolios are built
/// with.
#[derive(Debug, Clone, Copy, PartialEq, Eq, Structural)]
pub struct FactorModelApi;

impl FactorModelApi {
    /// A handle on the factor-model service.
    pub fn new() -> (api: Self)
        ensures
            api == FactorModelApi,
    {
        FactorModelApi
    }
}

/// Manages model portfolios, sleeves and unified managed accounts.
#[derive(Debug, Clone, Copy)]
pub struct ModelPortfolioService {
    factor_model_api: FactorModelApi,
}

impl ModelPortfolioService {
    /// The factor-model service the portfolios are built with.
    pub closed spec fn factor_model(&self) -> FactorModelApi {
        self.factor_model_api
    }

    /// A service working with the factor-model service.
    pub fn new(factor_model_api: FactorModelApi) -> (s: Self)
        ensures
            s.factor_model() == factor_model_api,
    {
        Self { factor_model_api }
    }
}

/// Types of model portfolios.
#[derive(Debug, Clone, Copy, PartialEq, Eq, Structural)]
pub enum ModelType {
    /// A model consisting of individual securities
    Direct,
    /// A model consisting of other models (composite)
    Composite,
    /// A model consisting of both securities and other models
    Hybrid,
}

/// Holding period for tax purposes.
#[derive(Debug, Clone, Copy, PartialEq, Eq, Structural)]
pub enum HoldingPeriod {
    /// Short-term (less than 1 year)
    ShortTerm,
    /// Long-term (1 year or more)
    LongTerm,
}

} // verus!
