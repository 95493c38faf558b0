use autocoder::APIChoice;
use autocoder::APIMessage;
use autocoder::APIResponse;
use autocoder::local_endpoint_url;

#[test]
fn local_urls_target_port_8080() {
    assert_eq!(local_endpoint_url("/task"), "http://localhost:8080/task");
    assert_eq!(local_endpoint_url(""), "http://localhost:8080");
}

#[test]
fn first_choice_content_reads_the_first_answer() {
    let response = APIResponse {
        choices: vec![
            APIChoice { message: APIMessage { content: "first".to_string() } },
            APIChoice { message: APIMessage { content: "second".to_string() } },
        ],
    };
    assert_eq!(response.first_choice_content(), Some("first".to_string()));
    let empty = APIResponse { choices: Vec::new() };
    assert_eq!(empty.first_choice_content(), None);
}
