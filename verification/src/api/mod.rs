mod action;
mod common;
mod namespace;
mod rule;
mod traits;
mod trigger;

pub use action::{
    action_decodes, action_encoded, action_summaries_of, decode_action, decode_actions,
    decode_exec, decode_limits, decodes_some_answer, encode_action, encode_exec, encode_limits,
    exec_decodes, exec_encoded, lemma_action_codec_round_trip, limits_encoded, limits_of_value,
    project_action_list, summaries_of_some_answer, Action, ActionList, ActionService, Exec,
};
pub use common::{
    collection_url, collection_url_view, entity_url, entity_url_view, method_name, method_str,
    HttpMethods, Limits,
};
pub use namespace::{all_strings, decode_namespaces, names_listed, names_of_some_answer,
    NamespaceService};
pub use rule::{
    decode_rule_response, decode_rules, lemma_qualify_idempotent, qualify, qualify_name,
    rule_body_encoded, rule_decodes_some_answer, rule_response_decodes, rules_listed,
    rules_of_some_answer, state_name, state_valid, Rule, RuleListOptions, RuleResponse,
    RuleService,
};
pub use traits::{auth_view, req_parts, ReqView, Service};
pub use trigger::{
    decode_keyvalues, decode_trigger, decode_triggers, encode_keyvalues, encode_trigger,
    kv_decodes, kv_items, kvs_encoded, lemma_trigger_codec_round_trip, trigger_decodes,
    trigger_decodes_some_answer, trigger_encoded, triggers_listed, triggers_of_some_answer,
    KeyValue, Trigger, TriggerListOptions, TriggerService,
};
