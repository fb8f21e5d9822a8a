//! The custom resource: the declared state of one trading-strategy workload.

use vstd::prelude::*;

verus! {

/// The value of an optional text field.
pub open spec fn text_opt(o: Option<String>) -> Option<Seq<char>> {
    match o {
        Some(s) => Some(s@),
        None => None,
    }
}

/// Copies an optional text field.
pub fn clone_text_opt(o: &Option<String>) -> (res: Option<String>)
    ensures
        text_opt(res) == text_opt(*o),
{
    match o {
        Some(s) => Some(s.clone()),
        None => None,
    }
}

/// CPU and memory amounts, each given as a quantity string such as `500m` or `256Mi`.
#[derive(Debug, PartialEq, Eq)]
pub struct ResourceConfig {
    pub cpu: String,
    pub memory: String,
}

/// The mathematical value of a [`ResourceConfig`].
pub struct ResourceConfigView {
    pub cpu: Seq<char>,
    pub memory: Seq<char>,
}

impl View for ResourceConfig {
    type V = ResourceConfigView;

    open spec fn view(&self) -> ResourceConfigView {
        ResourceConfigView { cpu: self.cpu@, memory: self.memory@ }
    }
}

impl Clone for ResourceConfig {
    fn clone(&self) -> (res: Self)
        ensures
            res@ == self@,
    {
        ResourceConfig { cpu: self.cpu.clone(), memory: self.memory.clone() }
    }
}

impl Default for ResourceConfig {
    fn default() -> (res: Self)
        ensures
            res@ == (ResourceConfigView { cpu: Seq::empty(), memory: Seq::empty() }),
    {
        ResourceConfig { cpu: String::new(), memory: String::new() }
    }
}

/// The value of an optional resource configuration.
pub open spec fn resources_opt(o: Option<ResourceConfig>) -> Option<ResourceConfigView> {
    match o {
        Some(r) => Some(r@),
        None => None,
    }
}

/// The declared state of one strategy: what a user writes and the operator reads.
///
/// `name` names every object derived from the resource, `strategy_class` selects the
/// strategy and its configuration, and the three optional fields fall back to fixed
/// defaults when they are absent.
#[derive(Debug, PartialEq, Eq)]
pub struct TradingStrategySpec {
    pub name: String,
    pub strategy_class: String,
    pub image: Option<String>,
    pub port: Option<u16>,
    pub resources: Option<ResourceConfig>,
}

/// The mathematical value of a [`TradingStrategySpec`].
pub struct TradingStrategySpecView {
    pub name: Seq<char>,
    pub strategy_class: Seq<char>,
    pub image: Option<Seq<char>>,
    pub port: Option<u16>,
    pub resources: Option<ResourceConfigView>,
}

impl View for TradingStrategySpec {
    type V = TradingStrategySpecView;

    open spec fn view(&self) -> TradingStrategySpecView {
        TradingStrategySpecView {
            name: self.name@,
            strategy_class: self.strategy_class@,
            image: text_opt(self.image),
            port: self.port,
            resources: resources_opt(self.resources),
        }
    }
}

impl Clone for TradingStrategySpec {
    fn clone(&self) -> (res: Self)
        ensures
            res@ == self@,
    {
        let resources = match &self.resources {
            Some(r) => Some(r.clone()),
            None => None,
        };
        TradingStrategySpec {
            name: self.name.clone(),
            strategy_class: self.strategy_class.clone(),
            image: clone_text_opt(&self.image),
            port: self.port,
            resources,
        }
    }
}

impl Default for TradingStrategySpec {
    fn default() -> (res: Self)
        ensures
            res@ == (TradingStrategySpecView {
                name: Seq::empty(),
                strategy_class: Seq::empty(),
                image: None,
                port: None,
                resources: None,
            }),
    {
        TradingStrategySpec {
            name: String::new(),
            strategy_class: String::new(),
            image: None,
            port: None,
            resources: None,
        }
    }
}

/// What was last observed of a strategy. Reconciliation never reads it, and no rule of
/// the operator depends on it.
#[derive(Debug, PartialEq, Eq)]
pub struct TradingStrategyStatus {
    pub phase: String,
    pub message: Option<String>,
    pub last_updated: Option<String>,
}

/// The mathematical value of a [`TradingStrategyStatus`].
pub struct TradingStrategyStatusView {
    pub phase: Seq<char>,
    pub message: Option<Seq<char>>,
    pub last_updated: Option<Seq<char>>,
}

impl View for TradingStrategyStatus {
    type V = TradingStrategyStatusView;

    open spec fn view(&self) -> TradingStrategyStatusView {
        TradingStrategyStatusView {
            phase: self.phase@,
            message: text_opt(self.message),
            last_updated: text_opt(self.last_updated),
        }
    }
}

impl Clone for TradingStrategyStatus {
    fn clone(&self) -> (res: Self)
        ensures
            res@ == self@,
    {
        TradingStrategyStatus {
            phase: self.phase.clone(),
            message: clone_text_opt(&self.message),
            last_updated: clone_text_opt(&self.last_updated),
        }
    }
}

impl Default for TradingStrategyStatus {
    fn default() -> (res: Self)
        ensures
            res@ == (TradingStrategyStatusView {
                phase: Seq::empty(),
                message: None,
                last_updated: None,
            }),
    {
        TradingStrategyStatus { phase: String::new(), message: None, last_updated: None }
    }
}

} // verus!
