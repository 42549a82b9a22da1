//! The rule driver: the per-symbol entry point. It classifies the symbol's
//! declaration and reports a diagnostic at the declaring node's source range
//! when the classification and the configuration call for one. Classification
//! never reads the reporting switch, so a symbol's tier is the same whatever
//! `ignore_transpiler_name` is set to.

use vstd::prelude::*;
use crate::ast::{ScopeFn, Span};
use crate::classify::{classify, spec_classify, ComponentType};
use crate::config::{RuleConfig, Version};
use crate::semantic::Symbol;

verus! {

/// A reported finding: the source range of the declaring node.
#[derive(Debug, Clone, Copy, PartialEq, Eq, Structural)]
pub struct Diagnostic {
    pub span: Span,
}

/// The display-name rule: reports components whose display name cannot be
/// statically derived.
#[derive(Debug, Clone)]
pub struct DisplayName {
    pub config: RuleConfig,
}

impl Default for DisplayName {
    /// The rule under its default configuration.
    fn default() -> (r: Self)
        ensures
            !r.config.ignore_transpiler_name,
            !r.config.check_context_objects,
            r.config.component_wrapper_functions@.len() == 0,
            r.config.create_class_alias is None,
            r.config.pragma is None,
    {
        DisplayName { config: RuleConfig::default() }
    }
}

/// Whether a component of tier `t` is reported under configuration `c`:
/// `Unnamed` always, `TranspilerNamed` exactly when `ignore_transpiler_name`
/// is off, `Named` never.
pub open spec fn spec_reports(t: ComponentType, c: RuleConfig) -> bool {
    match t {
        ComponentType::Named => false,
        ComponentType::TranspilerNamed => !c.ignore_transpiler_name,
        ComponentType::Unnamed => true,
    }
}

/// What one invocation of the rule yields for a symbol: a diagnostic at the
/// declaring node's range when the symbol classifies as a component whose
/// tier is reported, and nothing otherwise.
pub open spec fn spec_run(
    sym: Symbol,
    scope: Seq<ScopeFn>,
    c: RuleConfig,
    version: Option<Version>,
) -> Option<Diagnostic> {
    match spec_classify(sym, scope, c, version) {
        Some(t) => if spec_reports(t, c) {
            Some(Diagnostic { span: sym.declaration.span })
        } else {
            None
        },
        None => None,
    }
}

impl DisplayName {
    /// Runs the rule on one symbol presented by the dispatch engine. `scope`
    /// holds the named functions of the file the render detector may consult;
    /// `version` the framework version from project metadata, if known.
    pub fn run_on_symbol(
        &self,
        sym: &Symbol,
        scope: &Vec<ScopeFn>,
        version: &Option<Version>,
    ) -> (r: Option<Diagnostic>)
        ensures
            r == spec_run(*sym, scope@, self.config, *version),
    {
        match classify(sym, scope, &self.config, version) {
            Some(t) => {
                let report = match t {
                    ComponentType::Named => false,
                    ComponentType::TranspilerNamed => !self.config.ignore_transpiler_name,
                    ComponentType::Unnamed => true,
                };
                if report {
                    Some(Diagnostic { span: sym.declaration.span })
                } else {
                    None
                }
            },
            None => None,
        }
    }
}

} // verus!
