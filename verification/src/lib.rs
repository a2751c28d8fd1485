//! Constructors for HTTP replies, one for each standard status code from 200
//! to 511.
//!
//! Every constructor pairs its status code with the caller's payload and marks
//! the pair as a success (codes 2xx and 3xx) or as an error (codes 4xx and
//! 5xx). The contracts state the exact reply that comes back.

pub mod client_error;
pub mod redirection;
pub mod reply;
pub mod server_error;
pub mod success;

pub use client_error::{
    bad_request, conflict, expectation_failed, failed_dependency, forbidden, gone, im_a_teapot,
    length_required, locked, method_not_allowed, misdirected_request, not_acceptable, not_found,
    payload_too_large, payment_required, precondition_failed, precondition_required,
    proxy_auth_required, range_not_satisfiable, request_header_fields_too_large, request_timeout,
    too_many_requests, unauthorized, unavailable_for_legal_reasons, unprocessable_entity,
    unsupported_media_type, upgrade_required, uri_too_long,
};
pub use redirection::{
    found, moved_permanently, multiple_choices, not_modified, permanent_redirect, see_other,
    temporary_redirect, use_proxy,
};
pub use reply::{ApiResult, Reply};
pub use server_error::{
    bad_gateway, gateway_timeout, http_version_not_supported, insufficient_storage,
    internal_server_error, loop_detected, network_auth_required, not_extended, not_implemented,
    service_unavailable, variant_also_negotiates,
};
pub use success::{
    accepted, already_reported, created, im_used, multi_status, no_content, non_authoritative,
    ok, partial_content, reset_content,
};
