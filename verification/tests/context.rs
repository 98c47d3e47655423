use kaon::context::Context;

#[test]
fn context() {
    let test_aws_request_id = String::from("8476a536-e9f4-11e8-9739-2dfe598c3fcd");
    let test_arn = String::from("arn:aws:lambda:us-east-2:123456789012:function:custom-runtime");
    let test_identity = String::from("test_identity");
    let test_client_context = String::from("test_client_context");

    let test_context = Context::create(
        test_aws_request_id,
        test_arn,
        test_identity,
        test_client_context,
    );
    assert_eq!(
        test_context.aws_request_id,
        String::from("8476a536-e9f4-11e8-9739-2dfe598c3fcd"),
    );
    assert_eq!(
        test_context.invoked_function_arn,
        String::from("arn:aws:lambda:us-east-2:123456789012:function:custom-runtime"),
    );
    assert_eq!(test_context.identity, String::from("test_identity"));
    assert_eq!(
        test_context.client_context,
        String::from("test_client_context"),
    );
}

#[test]
fn context_clone_is_verbatim() {
    let test_context = Context::create(
        String::from("8476a536-e9f4-11e8-9739-2dfe598c3fcd"),
        String::from("arn:aws:lambda:us-east-2:123456789012:function:custom-runtime"),
        String::from("test_identity"),
        String::from("test_client_context"),
    );
    let copy = test_context.clone();
    assert_eq!(copy.aws_request_id, test_context.aws_request_id);
    assert_eq!(copy.invoked_function_arn, test_context.invoked_function_arn);
    assert_eq!(copy.identity, test_context.identity);
    assert_eq!(copy.client_context, test_context.client_context);
}
