use kaon::context::Context;
use kaon::handler::EventHandler;

struct TestRequest {
    test_request: String,
}

struct TestResponse {
    test_response: String,
    test_context: Context,
}

fn test_handler_function(event: TestRequest, context: Context) -> Result<TestResponse, ()> {
    Ok(TestResponse {
        test_response: event.test_request,
        test_context: context,
    })
}

#[test]
fn init() {
    let test_request = TestRequest {
        test_request: String::from("hello"),
    };

    let test_aws_request_id = String::from("8476a536-e9f4-11e8-9739-2dfe598c3fcd");
    let test_arn = String::from("arn:aws:lambda:us-east-2:123456789012:function:custom-runtime");
    let test_identity = String::from("test_identity");
    let test_client_context = String::from("test_client_context");

    let test_context = Context::create(
        test_aws_request_id,
        test_arn,
        test_identity,
        test_client_context,
    );

    let event_handler = EventHandler::init(test_handler_function);
    let test_result = event_handler.run(test_request, test_context);
    if let Ok(event_result) = test_result {
        assert_eq!(event_result.test_response, String::from("hello"));
        assert_eq!(
            event_result.test_context.aws_request_id,
            String::from("8476a536-e9f4-11e8-9739-2dfe598c3fcd"),
        );
        assert_eq!(
            event_result.test_context.invoked_function_arn,
            String::from("arn:aws:lambda:us-east-2:123456789012:function:custom-runtime"),
        );
        assert_eq!(
            event_result.test_context.identity,
            String::from("test_identity"),
        );
        assert_eq!(
            event_result.test_context.client_context,
            String::from("test_client_context"),
        );
    }
}

#[test]
fn run_failure_passes_through() {
    fn failing_handler(_event: TestRequest, _context: Context) -> Result<TestResponse, String> {
        Err(String::from("some test error"))
    }
    let event_handler = EventHandler::init(failing_handler);
    let context = Context::create(
        String::from("id"),
        String::from("arn"),
        String::from("identity"),
        String::from("client"),
    );
    let request = TestRequest {
        test_request: String::from("hello"),
    };
    let result = event_handler.run(request, context);
    assert_eq!(result.err(), Some(String::from("some test error")));
}
