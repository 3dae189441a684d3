//! The client facade: one resolved context, one transport strategy, and
//! the four resource services built from them.

use super::common::{
    resolved_api_key, resolved_host, resolved_insecure, resolved_namespace, resolved_version,
    Context, ContextView, EnvOverrides, OpenWhisk, WskProperties,
};
use crate::api::{ActionService, NamespaceService, RuleService, Service, TriggerService};
use crate::client::common::find_char;
use vstd::prelude::*;

verus! {

/// The client facade.  Constructed once per transport strategy: it
/// resolves the connection context, creates one strategy instance from
/// the context's insecure flag, and hands a copy of both to each of the
/// four resource services.  No operation on the facade itself performs
/// I/O.
#[derive(Debug)]
pub struct OpenwhiskClient<T> {
    context: Context,
    client: T,
    actions: ActionService<T>,
    triggers: TriggerService<T>,
    rules: RuleService<T>,
    namespaces: NamespaceService<T>,
}

impl<T> OpenwhiskClient<T> {
    /// The resolved connection settings this client was built with.
    pub closed spec fn ctx(&self) -> ContextView {
        self.context@
    }
}

impl<T> OpenwhiskClient<T> {
    /// Every resource service addresses the context the facade holds: no
    /// operation can silently target another namespace or host.
    #[verifier::type_invariant]
    closed spec fn wf(self) -> bool {
        &&& self.actions.ctx() == self.context@
        &&& self.triggers.ctx() == self.context@
        &&& self.rules.ctx() == self.context@
        &&& self.namespaces.ctx() == self.context@
    }
}

impl<T> OpenwhiskClient<T> where T: OpenWhisk<Output = T> + Service + Clone {
    /// Builds a client from explicit properties alone, with no ambient
    /// overrides.  The embedder that wants environment overrides
    /// snapshots them and calls [`Self::new_with_overrides`].
    pub fn new(config: Option<&WskProperties>) -> (r: Result<Self, String>)
        ensures
            r matches Ok(c) ==> ({
                let env = EnvOverrides { api_key: None, host: None, namespace: None };
                let key = resolved_api_key(&env, config);
                let i = find_char(key, ':');
                &&& i >= 0
                &&& c.ctx().host == resolved_host(&env, config)
                &&& c.ctx().namespace == resolved_namespace(&env, config)
                &&& c.ctx().insecure == resolved_insecure(config)
                &&& c.ctx().version == resolved_version(config)
                &&& c.ctx().username == key.subrange(0, i)
                &&& c.ctx().password == key.subrange(i + 1, key.len() as int)
            }),
            r is Err ==> ({
                let env = EnvOverrides { api_key: None, host: None, namespace: None };
                find_char(resolved_api_key(&env, config), ':') == -1
            }),
    {
        Self::new_with_overrides(&EnvOverrides::none(), config)
    }

    /// Builds a client from an environment snapshot and explicit
    /// properties; a present override always wins.
    pub fn new_with_overrides(env: &EnvOverrides, config: Option<&WskProperties>) -> (r: Result<
        Self,
        String,
    >)
        ensures
            r matches Ok(c) ==> ({
                let key = resolved_api_key(env, config);
                let i = find_char(key, ':');
                &&& i >= 0
                &&& c.ctx().host == resolved_host(env, config)
                &&& c.ctx().namespace == resolved_namespace(env, config)
                &&& c.ctx().insecure == resolved_insecure(config)
                &&& c.ctx().version == resolved_version(config)
                &&& c.ctx().username == key.subrange(0, i)
                &&& c.ctx().password == key.subrange(i + 1, key.len() as int)
            }),
            r is Err ==> find_char(resolved_api_key(env, config), ':') == -1,
    {
        let context = match Context::new(env, config) {
            Ok(context) => context,
            Err(error) => {
                return Err(error);
            },
        };
        let client = T::new_whisk_client(Some(context.is_secure()));
        let actions = ActionService::new(client.clone(), context.dup());
        let triggers = TriggerService::new(client.clone(), context.dup());
        let rules = RuleService::new(client.clone(), context.dup());
        let namespaces = NamespaceService::new(client.clone(), context.dup());
        Ok(OpenwhiskClient { context, client, actions, triggers, rules, namespaces })
    }

    /// The resolved connection context.
    pub fn context(&self) -> (r: &Context)
        ensures
            r@ == self.ctx(),
    {
        &self.context
    }

    /// The executable-unit service, bound to this client's context and
    /// strategy.
    pub fn actions(&self) -> (r: &ActionService<T>)
        ensures
            r.ctx() == self.ctx(),
    {
        proof {
            use_type_invariant(self);
        }
        &self.actions
    }

    /// The trigger service, bound to this client's context and strategy.
    pub fn triggers(&self) -> (r: &TriggerService<T>)
        ensures
            r.ctx() == self.ctx(),
    {
        proof {
            use_type_invariant(self);
        }
        &self.triggers
    }

    /// The rule service, bound to this client's context and strategy.
    pub fn rules(&self) -> (r: &RuleService<T>)
        ensures
            r.ctx() == self.ctx(),
    {
        proof {
            use_type_invariant(self);
        }
        &self.rules
    }

    /// The namespace service, bound to this client's context and
    /// strategy.
    pub fn namespaces(&self) -> (r: &NamespaceService<T>)
        ensures
            r.ctx() == self.ctx(),
    {
        proof {
            use_type_invariant(self);
        }
        &self.namespaces
    }
}

} // verus!
