//! A typed client library for the OpenWhisk REST API.
//!
//! The library exposes the platform's resource collections (actions,
//! triggers, rules and namespaces) through small services that share one
//! connection context and one transport strategy.  Request construction,
//! configuration resolution, response normalization and the decoding of
//! typed resources are verified; the HTTP transports themselves are called
//! through a thin trusted layer.

pub mod api;
pub mod client;
pub mod jsonval;
pub mod strutil;

pub use api::{
    collection_url, decode_action, decode_actions, decode_keyvalues, decode_namespaces,
    decode_rule_response, decode_rules, decode_trigger, decode_triggers, encode_action,
    encode_keyvalues, encode_trigger, entity_url, lemma_action_codec_round_trip,
    lemma_qualify_idempotent, lemma_trigger_codec_round_trip, method_str,
    project_action_list, qualify_name, Action, ActionList, ActionService, Exec, HttpMethods,
    KeyValue, Limits, NamespaceService, ReqView, Rule, RuleListOptions, RuleResponse, RuleService,
    Service, Trigger, TriggerListOptions, TriggerService,
};
pub use client::{
    find_colon, lemma_variants_agree, normalize_response, split_api_key, whisk_errors, Context,
    EnvOverrides, NativeClient, NativeRequest, OpenWhisk, OpenwhiskClient, WasmClient,
    WasmRequest, WhiskError, WskProperties,
};
pub use strutil::{bool_str, concat_str, eq_ignore_case, u16_to_dec};
