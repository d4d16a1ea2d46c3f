//! Emission of the activation schedule's rules from the groups that a flow
//! populates.
use vstd::prelude::*;
use crate::phase::{set_rank, Rule, StateSets};

verus! {

/// The rules of the activation schedule, by which of the startup and enter
/// groups hold tasks. Update and exit tasks never change them.
pub open spec fn phase_rules(has_startup: bool, has_enter: bool) -> Seq<Rule> {
    if has_startup && has_enter {
        seq![
            Rule::RunOnce(StateSets::StartupEnter),
            Rule::RunOnce(StateSets::StartupEnterFlush),
            Rule::Order(StateSets::StartupEnter, StateSets::StartupEnterFlush),
            Rule::Order(StateSets::StartupEnterFlush, StateSets::Enter),
            Rule::Order(StateSets::Enter, StateSets::EnterFlush),
            Rule::Flush(StateSets::StartupEnterFlush),
            Rule::Flush(StateSets::EnterFlush),
        ]
    } else if has_startup {
        seq![
            Rule::RunOnce(StateSets::StartupEnter),
            Rule::RunOnce(StateSets::StartupEnterFlush),
            Rule::Order(StateSets::StartupEnter, StateSets::StartupEnterFlush),
            Rule::Flush(StateSets::StartupEnterFlush),
        ]
    } else if has_enter {
        seq![
            Rule::Order(StateSets::Enter, StateSets::EnterFlush),
            Rule::Flush(StateSets::EnterFlush),
        ]
    } else {
        seq![]
    }
}

/// Every ordering rule points forward in the activation schedule.
pub open spec fn orders_forward(rules: Seq<Rule>) -> bool {
    forall|i: int|
        0 <= i < rules.len() ==> (#[trigger] rules[i] matches Rule::Order(a, b) ==> set_rank(a)
            < set_rank(b))
}

/// Builds the rules of the activation schedule.
pub fn phase_graph(has_startup: bool, has_enter: bool) -> (r: Vec<Rule>)
    ensures
        r@ == phase_rules(has_startup, has_enter),
        orders_forward(r@),
        r@.len() == 0 <==> !has_startup && !has_enter,
{
    let mut r: Vec<Rule> = Vec::new();
    if has_startup {
        r.push(Rule::RunOnce(StateSets::StartupEnter));
        r.push(Rule::RunOnce(StateSets::StartupEnterFlush));
        r.push(Rule::Order(StateSets::StartupEnter, StateSets::StartupEnterFlush));
        if has_enter {
            r.push(Rule::Order(StateSets::StartupEnterFlush, StateSets::Enter));
            r.push(Rule::Order(StateSets::Enter, StateSets::EnterFlush));
            r.push(Rule::Flush(StateSets::StartupEnterFlush));
            r.push(Rule::Flush(StateSets::EnterFlush));
        } else {
            r.push(Rule::Flush(StateSets::StartupEnterFlush));
        }
    } else if has_enter {
        r.push(Rule::Order(StateSets::Enter, StateSets::EnterFlush));
        r.push(Rule::Flush(StateSets::EnterFlush));
    }
    assert(r@ =~= phase_rules(has_startup, has_enter));
    r
}

} // verus!
