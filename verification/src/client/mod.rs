mod common;
mod native_client;
mod openwhisk_client;
mod wasm_client;

pub use common::{
    decode_error_text, error_payload, find_char, find_colon, lemma_find_char_at,
    lemma_find_char_none, lemma_variants_agree, normalize_response, normalized_outcome,
    resolved_api_key, resolved_host, resolved_insecure, resolved_namespace, resolved_version,
    split_api_key, whisk_error_of_value, whisk_error_text, whisk_errors, Context, ContextView,
    EnvOverrides, OpenWhisk, WhiskError, WskProperties,
};
pub use native_client::{NativeClient, NativeRequest};
pub use openwhisk_client::OpenwhiskClient;
pub use wasm_client::{b64_of, header_views, sent_header_list, utf8_of, WasmClient, WasmRequest};
