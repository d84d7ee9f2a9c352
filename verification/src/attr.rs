use vstd::prelude::*;

verus! {

/// Mathematical model of one environment-bound attribute: the variable name
/// it is bound to and its optional default value.
pub ghost struct AttrModel {
    pub env_name: Seq<char>,
    pub default: Option<Seq<char>>,
}

/// A lazily resolved attribute bound to one environment variable.
///
/// It stores no resolved value: every resolution is computed afresh from the
/// current environment lookup result handed in by the caller.
pub struct DynamicEnvVar {
    env_name: String,
    default_value: Option<String>,
}

impl View for DynamicEnvVar {
    type V = AttrModel;

    closed spec fn view(&self) -> AttrModel {
        AttrModel { env_name: self.env_name@, default: self.default_value.deep_view() }
    }
}

/// What resolving an attribute returns, given the current environment lookup
/// result for its variable: a set variable is returned verbatim (even when it
/// is the empty string); an unset one falls back to the default; with no
/// default the result is absent. Resolution never fails.
pub open spec fn spec_resolve(a: AttrModel, env: Option<Seq<char>>) -> Option<Seq<char>> {
    match env {
        Some(v) => Some(v),
        None => a.default,
    }
}

impl DynamicEnvVar {
    /// Binds an attribute to `env_name` with the given default. Construction
    /// is total: the name is not validated, a never-matching name simply
    /// always resolves through the default path.
    pub fn new(env_name: String, default_value: Option<String>) -> (r: DynamicEnvVar)
        ensures
            r@.env_name == env_name@,
            r@.default == default_value.deep_view(),
    {
        DynamicEnvVar { env_name, default_value }
    }

    /// The environment-variable name this attribute reads.
    pub fn env_name(&self) -> (r: &String)
        ensures
            r@ == self@.env_name,
    {
        &self.env_name
    }

    /// The default value used when the variable is unset.
    pub fn default_value(&self) -> (r: &Option<String>)
        ensures
            r.deep_view() == self@.default,
    {
        &self.default_value
    }

    /// Resolves the attribute against the current environment state.
    ///
    /// `env_value` is the result of looking the variable up right now:
    /// `Some(v)` when it is set to `v` (possibly empty), `None` when unset.
    pub fn resolve(&self, env_value: Option<String>) -> (r: Option<String>)
        ensures
            r.deep_view() == spec_resolve(self@, env_value.deep_view()),
    {
        match env_value {
            Some(v) => Some(v),
            None => match &self.default_value {
                Some(d) => Some(d.clone()),
                None => None,
            },
        }
    }
}

impl Clone for DynamicEnvVar {
    /// The clone is bound to the same variable with the same default.
    fn clone(&self) -> (r: Self)
        ensures
            r@ == self@,
    {
        DynamicEnvVar {
            env_name: self.env_name.clone(),
            default_value: match &self.default_value {
                Some(d) => Some(d.clone()),
                None => None,
            },
        }
    }
}

/// Law: for an attribute with variable `V` and default `D`, if `V` is set to
/// `x` the resolution is exactly `x` (the empty string included); if `V` is
/// unset and `D` is defined it is exactly `D`; if `V` is unset and `D` is
/// undefined it is absent.
pub proof fn lemma_resolution_cases(a: AttrModel, x: Seq<char>)
    ensures
        spec_resolve(a, Some(x)) == Some(x),
        a.default is Some ==> spec_resolve(a, None) == a.default,
        a.default is None ==> spec_resolve(a, None) is None,
{
}

/// Law: resolution is idempotent. Two resolutions of one attribute against
/// equal environment lookup results (no intervening mutation) are equal.
pub proof fn lemma_resolve_idempotent(a: AttrModel, e1: Option<Seq<char>>, e2: Option<Seq<char>>)
    requires
        e1 == e2,
    ensures
        spec_resolve(a, e1) == spec_resolve(a, e2),
{
}

/// Law: resolution is never cached. Whatever an earlier resolution returned,
/// a resolution after the variable is set to `x` returns `x`; in particular,
/// if the earlier result was not `x`, the result has changed.
pub proof fn lemma_resolve_tracks_environment(
    a: AttrModel,
    before: Option<Seq<char>>,
    x: Seq<char>,
)
    ensures
        spec_resolve(a, Some(x)) == Some(x),
        spec_resolve(a, before) != Some(x) ==> spec_resolve(a, Some(x)) != spec_resolve(a, before),
{
}

} // verus!
