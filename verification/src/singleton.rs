use vstd::prelude::*;

use crate::attr::AttrModel;
use crate::config::Config;
use crate::config::standard_table;

verus! {

/// Lifecycle of the process-wide configuration instance. It starts
/// uninitialized; the first access creates the one instance and the state
/// never leaves `Initialized` afterwards. The caller owns the one-time-
/// initialization primitive that makes concurrent first accesses run this
/// transition exactly once.
pub enum SingletonState {
    Uninitialized,
    Initialized(Config),
}

impl View for SingletonState {
    type V = Option<Seq<(Seq<char>, AttrModel)>>;

    open spec fn view(&self) -> Option<Seq<(Seq<char>, AttrModel)>> {
        match self {
            SingletonState::Uninitialized => None,
            SingletonState::Initialized(c) => Some(c@),
        }
    }
}

/// The instance an access observes: the existing one when the state is
/// initialized, else the standard configuration that this first access
/// creates.
pub open spec fn spec_instance(s: Option<Seq<(Seq<char>, AttrModel)>>) -> Seq<
    (Seq<char>, AttrModel),
> {
    match s {
        Some(t) => t,
        None => standard_table(),
    }
}

impl SingletonState {
    /// The state before any access: no instance exists.
    pub fn new() -> (r: SingletonState)
        ensures
            r@ is None,
    {
        SingletonState::Uninitialized
    }

    /// Returns the process-wide instance, creating the standard configuration
    /// exactly once on the first access; every later access observes that
    /// same instance, and the stored instance never changes again.
    pub fn instance(&mut self) -> (r: Config)
        ensures
            final(self)@ == Some(spec_instance(old(self)@)),
            r@ == spec_instance(old(self)@),
    {
        match self {
            SingletonState::Initialized(c) => c.clone(),
            SingletonState::Uninitialized => {
                let c = Config::standard();
                let r = c.clone();
                *self = SingletonState::Initialized(c);
                r
            },
        }
    }
}

/// Law: singleton identity. The transition of the first access is idempotent:
/// once some access has fixed the instance, every further access observes
/// exactly that instance, never a second, distinct one.
pub proof fn lemma_singleton_identity(s: Option<Seq<(Seq<char>, AttrModel)>>)
    ensures
        spec_instance(Some(spec_instance(s))) == spec_instance(s),
{
}

} // verus!
