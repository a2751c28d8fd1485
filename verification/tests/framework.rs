use rocket::http::{Status, StatusClass};
use rocket::request::Outcome;
use rocket::response::status::Custom;
use rocket::serde::json::{to_string, Json};
use status_reply::{
    Reply, accepted, already_reported, bad_gateway, bad_request, conflict, created,
    expectation_failed, failed_dependency, forbidden, found, gateway_timeout, gone,
    http_version_not_supported, im_a_teapot, im_used, insufficient_storage,
    internal_server_error, length_required, locked, loop_detected, method_not_allowed,
    misdirected_request, moved_permanently, multi_status, multiple_choices,
    network_auth_required, no_content, non_authoritative, not_acceptable, not_extended,
    not_found, not_implemented, not_modified, ok, partial_content, payload_too_large,
    payment_required, permanent_redirect, precondition_failed, precondition_required,
    proxy_auth_required, range_not_satisfiable, request_header_fields_too_large,
    request_timeout, reset_content, see_other, service_unavailable, temporary_redirect,
    too_many_requests, unauthorized, unavailable_for_legal_reasons, unprocessable_entity,
    unsupported_media_type, upgrade_required, uri_too_long, use_proxy, variant_also_negotiates,
};

/// The framework's value for a reply, as a request guard or handler returns it.
fn outcome_of<T, E>(reply: Reply<T, E>) -> Outcome<Custom<Json<T>>, Json<E>> {
    match reply {
        Reply::Success { status, body } => Outcome::Success(Custom(Status::new(status), Json(body))),
        Reply::Error { status, body } => Outcome::Error((Status::new(status), Json(body))),
    }
}

fn success_codes() -> Vec<u16> {
    vec![
        ok(()).status(),
        created(()).status(),
        accepted(()).status(),
        non_authoritative(()).status(),
        partial_content(()).status(),
        multi_status(()).status(),
        already_reported(()).status(),
        im_used(()).status(),
        multiple_choices(()).status(),
        no_content().status(),
        reset_content().status(),
        not_modified().status(),
        moved_permanently("/").status(),
        found("/").status(),
        see_other("/").status(),
        use_proxy("/").status(),
        temporary_redirect("/").status(),
        permanent_redirect("/").status(),
    ]
}

fn error_codes() -> Vec<u16> {
    vec![
        bad_request(()).status(),
        unauthorized(()).status(),
        payment_required(()).status(),
        forbidden(()).status(),
        not_found(()).status(),
        method_not_allowed(()).status(),
        not_acceptable(()).status(),
        proxy_auth_required(()).status(),
        request_timeout(()).status(),
        conflict(()).status(),
        gone(()).status(),
        length_required(()).status(),
        precondition_failed(()).status(),
        payload_too_large(()).status(),
        uri_too_long(()).status(),
        unsupported_media_type(()).status(),
        range_not_satisfiable(()).status(),
        expectation_failed(()).status(),
        im_a_teapot(()).status(),
        misdirected_request(()).status(),
        unprocessable_entity(()).status(),
        locked(()).status(),
        failed_dependency(()).status(),
        upgrade_required(()).status(),
        precondition_required(()).status(),
        too_many_requests(()).status(),
        request_header_fields_too_large(()).status(),
        unavailable_for_legal_reasons(()).status(),
        internal_server_error(()).status(),
        not_implemented(()).status(),
        bad_gateway(()).status(),
        service_unavailable(()).status(),
        gateway_timeout(()).status(),
        http_version_not_supported(()).status(),
        variant_also_negotiates(()).status(),
        insufficient_storage(()).status(),
        loop_detected(()).status(),
        not_extended(()).status(),
        network_auth_required(()).status(),
    ]
}

#[test]
fn success_codes_are_the_frameworks() {
    assert_eq!(ok(()).status(), Status::Ok.code);
    assert_eq!(created(()).status(), Status::Created.code);
    assert_eq!(accepted(()).status(), Status::Accepted.code);
    assert_eq!(non_authoritative(()).status(), Status::NonAuthoritativeInformation.code);
    assert_eq!(partial_content(()).status(), Status::PartialContent.code);
    assert_eq!(multi_status(()).status(), Status::MultiStatus.code);
    assert_eq!(already_reported(()).status(), Status::AlreadyReported.code);
    assert_eq!(im_used(()).status(), Status::ImUsed.code);
    assert_eq!(no_content().status(), Status::NoContent.code);
    assert_eq!(reset_content().status(), Status::ResetContent.code);
}

#[test]
fn redirection_codes_are_the_frameworks() {
    assert_eq!(multiple_choices(()).status(), Status::MultipleChoices.code);
    assert_eq!(moved_permanently("/").status(), Status::MovedPermanently.code);
    assert_eq!(found("/").status(), Status::Found.code);
    assert_eq!(see_other("/").status(), Status::SeeOther.code);
    assert_eq!(use_proxy("/").status(), Status::UseProxy.code);
    assert_eq!(temporary_redirect("/").status(), Status::TemporaryRedirect.code);
    assert_eq!(permanent_redirect("/").status(), Status::PermanentRedirect.code);
    assert_eq!(not_modified().status(), Status::NotModified.code);
}

#[test]
fn client_error_codes_are_the_frameworks() {
    assert_eq!(bad_request(()).status(), Status::BadRequest.code);
    assert_eq!(unauthorized(()).status(), Status::Unauthorized.code);
    assert_eq!(payment_required(()).status(), Status::PaymentRequired.code);
    assert_eq!(forbidden(()).status(), Status::Forbidden.code);
    assert_eq!(not_found(()).status(), Status::NotFound.code);
    assert_eq!(method_not_allowed(()).status(), Status::MethodNotAllowed.code);
    assert_eq!(not_acceptable(()).status(), Status::NotAcceptable.code);
    assert_eq!(proxy_auth_required(()).status(), Status::ProxyAuthenticationRequired.code);
    assert_eq!(request_timeout(()).status(), Status::RequestTimeout.code);
    assert_eq!(conflict(()).status(), Status::Conflict.code);
    assert_eq!(gone(()).status(), Status::Gone.code);
    assert_eq!(length_required(()).status(), Status::LengthRequired.code);
    assert_eq!(precondition_failed(()).status(), Status::PreconditionFailed.code);
    assert_eq!(payload_too_large(()).status(), Status::PayloadTooLarge.code);
    assert_eq!(uri_too_long(()).status(), Status::UriTooLong.code);
    assert_eq!(unsupported_media_type(()).status(), Status::UnsupportedMediaType.code);
    assert_eq!(range_not_satisfiable(()).status(), Status::RangeNotSatisfiable.code);
    assert_eq!(expectation_failed(()).status(), Status::ExpectationFailed.code);
    assert_eq!(im_a_teapot(()).status(), Status::ImATeapot.code);
    assert_eq!(misdirected_request(()).status(), Status::MisdirectedRequest.code);
    assert_eq!(unprocessable_entity(()).status(), Status::UnprocessableEntity.code);
    assert_eq!(locked(()).status(), Status::Locked.code);
    assert_eq!(failed_dependency(()).status(), Status::FailedDependency.code);
    assert_eq!(upgrade_required(()).status(), Status::UpgradeRequired.code);
    assert_eq!(precondition_required(()).status(), Status::PreconditionRequired.code);
    assert_eq!(too_many_requests(()).status(), Status::TooManyRequests.code);
    assert_eq!(request_header_fields_too_large(()).status(), Status::RequestHeaderFieldsTooLarge.code);
    assert_eq!(unavailable_for_legal_reasons(()).status(), Status::UnavailableForLegalReasons.code);
}

#[test]
fn server_error_codes_are_the_frameworks() {
    assert_eq!(internal_server_error(()).status(), Status::InternalServerError.code);
    assert_eq!(not_implemented(()).status(), Status::NotImplemented.code);
    assert_eq!(bad_gateway(()).status(), Status::BadGateway.code);
    assert_eq!(service_unavailable(()).status(), Status::ServiceUnavailable.code);
    assert_eq!(gateway_timeout(()).status(), Status::GatewayTimeout.code);
    assert_eq!(http_version_not_supported(()).status(), Status::HttpVersionNotSupported.code);
    assert_eq!(variant_also_negotiates(()).status(), Status::VariantAlsoNegotiates.code);
    assert_eq!(insufficient_storage(()).status(), Status::InsufficientStorage.code);
    assert_eq!(loop_detected(()).status(), Status::LoopDetected.code);
    assert_eq!(not_extended(()).status(), Status::NotExtended.code);
    assert_eq!(network_auth_required(()).status(), Status::NetworkAuthenticationRequired.code);
}

#[test]
fn every_code_is_a_standard_one() {
    for code in success_codes().into_iter().chain(error_codes()) {
        assert_eq!(Status::from_code(code), Some(Status::new(code)));
        assert!(Status::new(code).reason().is_some());
    }
}

#[test]
fn successes_are_of_class_2xx_or_3xx() {
    let codes = success_codes();
    assert_eq!(codes.len(), 18);
    for code in codes {
        let class = Status::new(code).class();
        assert!(class == StatusClass::Success || class == StatusClass::Redirection);
    }
}

#[test]
fn errors_are_of_class_4xx_or_5xx() {
    let codes = error_codes();
    assert_eq!(codes.len(), 39);
    for code in codes {
        let class = Status::new(code).class();
        assert!(class == StatusClass::ClientError || class == StatusClass::ServerError);
    }
}

#[test]
fn no_code_is_used_twice() {
    let mut codes = success_codes();
    codes.extend(error_codes());
    let n = codes.len();
    codes.sort();
    codes.dedup();
    assert_eq!(codes.len(), n);
    assert_eq!(codes.first(), Some(&200));
    assert_eq!(codes.last(), Some(&511));
}

#[test]
fn a_success_becomes_the_frameworks_success() {
    let outcome = outcome_of::<_, ()>(created(vec![1u8, 2]));
    assert_eq!(outcome, Outcome::Success(Custom(Status::Created, Json(vec![1u8, 2]))));
    let outcome = outcome_of::<_, ()>(no_content());
    assert_eq!(outcome, Outcome::Success(Custom(Status::NoContent, Json(()))));
    let outcome = outcome_of::<_, ()>(see_other("/next"));
    assert_eq!(outcome, Outcome::Success(Custom(Status::SeeOther, Json(String::from("/next")))));
}

#[test]
fn an_error_becomes_the_frameworks_error() {
    let outcome = outcome_of::<(), _>(not_found("gone fishing"));
    assert_eq!(outcome, Outcome::Error((Status::NotFound, Json("gone fishing"))));
    let outcome = outcome_of::<(), _>(service_unavailable(30u32));
    assert_eq!(outcome, Outcome::Error((Status::ServiceUnavailable, Json(30u32))));
}

#[test]
fn the_payload_serializes_as_it_was_given() {
    match ok(vec![("a", 1u8), ("b", 2u8)]) {
        Reply::Success { body, .. } => {
            assert_eq!(to_string(&body).unwrap(), "[[\"a\",1],[\"b\",2]]");
        }
        Reply::Error { .. } => panic!("ok gave an error"),
    }
    match bad_request(Some("name is missing")) {
        Reply::Error { body, .. } => {
            assert_eq!(to_string(&body).unwrap(), "\"name is missing\"");
        }
        Reply::Success { .. } => panic!("bad_request gave a success"),
    }
    match reset_content() {
        Reply::Success { body, .. } => assert_eq!(to_string(&body).unwrap(), "null"),
        Reply::Error { .. } => panic!("reset_content gave an error"),
    }
}
