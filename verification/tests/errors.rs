use grand_casino::error::AppError;

#[test]
fn statuses_and_codes() {
    let cases = [
        (AppError::BadRequest("m".into()), 400, "bad_request"),
        (AppError::Unauthorized("m".into()), 401, "unauthorized"),
        (AppError::Forbidden("m".into()), 403, "forbidden"),
        (AppError::NotFound("m".into()), 404, "not_found"),
        (AppError::TooManyRequests("m".into()), 429, "too_many_requests"),
        (AppError::Internal("m".into()), 500, "internal_error"),
    ];
    for (e, status, code) in cases.iter() {
        let (s, c, m) = e.parts();
        assert_eq!((s, c, m), (*status, *code, "m"));
    }
}

#[test]
fn client_sees_message_except_internal() {
    let e = AppError::TooManyRequests("loan limit of 3 per 86400s reached".into());
    assert_eq!(e.client_body(), (429, "too_many_requests", "loan limit of 3 per 86400s reached"));
    let e = AppError::Internal("database error: connection refused".into());
    assert_eq!(e.client_body(), (500, "internal_error", "Internal server error"));
}

#[test]
fn database_errors_are_internal() {
    match AppError::database("pool timed out") {
        AppError::Internal(m) => assert_eq!(m, "database error: pool timed out"),
        other => panic!("unexpected {:?}", other),
    }
}
