//! Lifecycle dispatch: a declared action selects exactly one handler.

use vstd::prelude::*;

use crate::errors::EngineError;
use crate::model::{Action, DeploymentTarget};

verus! {

/// The handler an action runs.
#[derive(Clone, Copy, PartialEq, Eq, Structural, Debug)]
pub enum Handler {
    OnCreate,
    OnPause,
    OnDelete,
    NoOp,
}

pub open spec fn spec_handler(a: Action) -> Handler {
    match a {
        Action::Create => Handler::OnCreate,
        Action::Pause => Handler::OnPause,
        Action::Delete => Handler::OnDelete,
        Action::Nothing => Handler::NoOp,
    }
}

/// Selects the handler of an action; the mapping is total and one-to-one.
pub fn handler_for(a: Action) -> (r: Handler)
    ensures
        r == spec_handler(a),
{
    match a {
        Action::Create => Handler::OnCreate,
        Action::Pause => Handler::OnPause,
        Action::Delete => Handler::OnDelete,
        Action::Nothing => Handler::NoOp,
    }
}

/// Every action selects exactly one of the four handlers, and distinct
/// actions select distinct handlers.
pub proof fn lemma_dispatch_exactly_one(a: Action, b: Action)
    ensures
        (spec_handler(a) is OnCreate) as int + (spec_handler(a) is OnPause) as int + (spec_handler(
            a,
        ) is OnDelete) as int + (spec_handler(a) is NoOp) as int == 1,
        spec_handler(a) is OnCreate <==> a is Create,
        spec_handler(a) is OnPause <==> a is Pause,
        spec_handler(a) is OnDelete <==> a is Delete,
        spec_handler(a) is NoOp <==> a is Nothing,
        a != b ==> spec_handler(a) != spec_handler(b),
{
}

/// Creation behaviour of a service. The spec functions name what each handler
/// returns, so that callers can be held to the handler they run.
pub trait Create {
    spec fn create_outcome(&self, target: DeploymentTarget) -> Result<(), EngineError>;

    spec fn create_check_outcome(&self) -> Result<(), EngineError>;

    fn on_create(&self, target: &DeploymentTarget) -> (r: Result<(), EngineError>)
        ensures
            r == self.create_outcome(*target),
    ;

    fn on_create_check(&self) -> (r: Result<(), EngineError>)
        ensures
            r == self.create_check_outcome(),
    ;

    fn on_create_error(&self, target: &DeploymentTarget) -> Result<(), EngineError>;
}

/// Pause behaviour of a service. The spec functions name what each handler
/// returns, so that callers can be held to the handler they run.
pub trait Pause {
    spec fn pause_outcome(&self, target: DeploymentTarget) -> Result<(), EngineError>;

    spec fn pause_check_outcome(&self) -> Result<(), EngineError>;

    fn on_pause(&self, target: &DeploymentTarget) -> (r: Result<(), EngineError>)
        ensures
            r == self.pause_outcome(*target),
    ;

    fn on_pause_check(&self) -> (r: Result<(), EngineError>)
        ensures
            r == self.pause_check_outcome(),
    ;

    fn on_pause_error(&self, target: &DeploymentTarget) -> Result<(), EngineError>;
}

/// Deletion behaviour of a service. The spec functions name what each handler
/// returns, so that callers can be held to the handler they run.
pub trait Delete {
    spec fn delete_outcome(&self, target: DeploymentTarget) -> Result<(), EngineError>;

    spec fn delete_check_outcome(&self) -> Result<(), EngineError>;

    fn on_delete(&self, target: &DeploymentTarget) -> (r: Result<(), EngineError>)
        ensures
            r == self.delete_outcome(*target),
    ;

    fn on_delete_check(&self) -> (r: Result<(), EngineError>)
        ensures
            r == self.delete_check_outcome(),
    ;

    fn on_delete_error(&self, target: &DeploymentTarget) -> Result<(), EngineError>;
}

/// Runs the handler that the declared action selects, and only that one;
/// `Nothing` succeeds without running any.
pub fn exec_action<T: Create + Pause + Delete>(service: &T, action: Action, target: &DeploymentTarget) -> (r:
    Result<(), EngineError>)
    ensures
        action is Create ==> r == service.create_outcome(*target),
        action is Pause ==> r == service.pause_outcome(*target),
        action is Delete ==> r == service.delete_outcome(*target),
        action is Nothing ==> r is Ok,
{
    match handler_for(action) {
        Handler::OnCreate => service.on_create(target),
        Handler::OnPause => service.on_pause(target),
        Handler::OnDelete => service.on_delete(target),
        Handler::NoOp => Ok(()),
    }
}

/// Runs the precondition check that the declared action selects; `Nothing`
/// needs no check.
pub fn exec_check_action<T: Create + Pause + Delete>(service: &T, action: Action) -> (r: Result<
    (),
    EngineError,
>)
    ensures
        action is Create ==> r == service.create_check_outcome(),
        action is Pause ==> r == service.pause_check_outcome(),
        action is Delete ==> r == service.delete_check_outcome(),
        action is Nothing ==> r is Ok,
{
    match handler_for(action) {
        Handler::OnCreate => service.on_create_check(),
        Handler::OnPause => service.on_pause_check(),
        Handler::OnDelete => service.on_delete_check(),
        Handler::NoOp => Ok(()),
    }
}

} // verus!
