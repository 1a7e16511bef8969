use directus_cli::cli::{dispatch, exit_status, run, validate, CliError, Command};
use directus_cli::config::{Config, Resource};
use directus_cli::http::{HttpMethod, Request, Response};
use directus_cli::sdk::{DirectusSdk, SdkError};

fn text(s: &str) -> String {
    String::from(s)
}

fn args(words: &[&str]) -> Vec<String> {
    words.iter().map(|w| text(w)).collect()
}

fn config() -> Config {
    Config {
        app_name: text("shop"),
        base_path: text("/items"),
        config_sync_resource_name: text("projects"),
        config_sync_field_name: text("settings"),
        origin: text("http://localhost:8055"),
        resources: vec![
            Resource {
                name: text("articles"),
                definition: text(
                    "{\"ops\":{\"create\":{},\"delete\":{},\"read\":{},\"update\":{}}}",
                ),
                ops: vec![text("create"), text("delete"), text("read"), text("update")],
            },
            Resource {
                name: text("pages"),
                definition: text("{\"ops\":{\"read\":{}}}"),
                ops: vec![text("read")],
            },
        ],
    }
}

fn client() -> DirectusSdk {
    let config = config();
    DirectusSdk::from_cookie(
        config.origin,
        config.base_path,
        text("test"),
        config.config_sync_field_name,
    )
    .unwrap()
}

fn answer(status: u16, body: &str) -> Result<Response, String> {
    Ok(Response { status, body: text(body) })
}

#[test]
fn validate_without_arguments_asks_for_an_operation() {
    assert_eq!(validate(&config(), &args(&[])), Err(CliError::NoCommand));
}

#[test]
fn validate_auth_is_not_there_yet() {
    assert_eq!(validate(&config(), &args(&["auth"])), Err(CliError::AuthUnimplemented));
    assert_eq!(
        validate(&config(), &args(&["auth", "a", "b", "c", "d"])),
        Err(CliError::AuthUnimplemented)
    );
}

#[test]
fn validate_ls_prints_the_configured_resource_names() {
    let expected = Ok(Command::Print(vec![text("articles"), text("pages")]));
    assert_eq!(validate(&config(), &args(&["ls"])), expected);
    assert_eq!(validate(&config(), &args(&["ls", "more", "and", "more", "words"])), expected);
}

#[test]
fn validate_ls_of_an_empty_configuration_prints_nothing() {
    let mut config = config();
    config.resources.clear();
    assert_eq!(validate(&config, &args(&["ls"])), Ok(Command::Print(vec![])));
}

#[test]
fn validate_inspect_prints_the_definition_of_the_resource() {
    assert_eq!(
        validate(&config(), &args(&["inspect", "pages"])),
        Ok(Command::Print(vec![text("{\"ops\":{\"read\":{}}}")]))
    );
    assert_eq!(
        validate(&config(), &args(&["inspect", "pages", "x", "y", "z"])),
        Ok(Command::Print(vec![text("{\"ops\":{\"read\":{}}}")]))
    );
}

#[test]
fn validate_inspect_takes_every_resource_that_ls_prints() {
    let mut config = config();
    config.resources.push(Resource { name: text(""), definition: text("1"), ops: vec![] });
    config.resources.push(Resource { name: text("pages"), definition: text("2"), ops: vec![] });
    let listed = match validate(&config, &args(&["ls"])) {
        Ok(Command::Print(names)) => names,
        other => panic!("ls gave {:?}", other),
    };
    assert_eq!(listed.len(), 4);
    for name in listed {
        let inspected = validate(&config, &vec![text("inspect"), name]);
        assert!(matches!(inspected, Ok(Command::Print(_))));
    }
}

#[test]
fn validate_yields_an_operation_only_where_the_resource_allows_it() {
    let config = config();
    for op in ["create", "read", "update", "delete"] {
        for resource in ["articles", "pages", "users", ""] {
            let allowed = match config.resource(resource) {
                Some(found) => found.allows(op),
                None => false,
            };
            let r = validate(&config, &args(&[op, resource, "1", "{}"]));
            assert_eq!(r.is_ok(), allowed, "{} {}", op, resource);
        }
    }
}

#[test]
fn validate_inspect_needs_a_known_resource() {
    assert_eq!(validate(&config(), &args(&["inspect"])), Err(CliError::InspectWithoutResource));
    assert_eq!(validate(&config(), &args(&["inspect", "users"])), Err(CliError::UnknownResource));
}

#[test]
fn validate_sync_reads_the_field_of_this_app() {
    assert_eq!(
        validate(&config(), &args(&["sync"])),
        Ok(Command::Read { resource: text("projects"), id: Some(text("shop")), is_sync: true })
    );
}

#[test]
fn validate_turns_down_what_is_no_command() {
    for word in ["", "list", "Create", "reads", "creat", "syncs", "remove"] {
        assert_eq!(validate(&config(), &args(&[word])), Err(CliError::UnknownCommand));
        assert_eq!(
            validate(&config(), &args(&[word, "articles", "1"])),
            Err(CliError::UnknownCommand)
        );
    }
}

#[test]
fn validate_an_operation_needs_a_resource() {
    for op in ["create", "read", "update", "delete"] {
        assert_eq!(validate(&config(), &args(&[op])), Err(CliError::NoResource));
    }
}

#[test]
fn validate_an_operation_takes_at_most_four_arguments() {
    for op in ["create", "read", "update", "delete"] {
        assert_eq!(
            validate(&config(), &args(&[op, "articles", "1", "{}", "more"])),
            Err(CliError::TooManyArgs)
        );
        assert_eq!(
            validate(&config(), &args(&[op, "users", "1", "{}", "more"])),
            Err(CliError::TooManyArgs)
        );
    }
}

#[test]
fn validate_turns_down_a_resource_that_is_not_configured() {
    for op in ["create", "read", "update", "delete"] {
        assert_eq!(
            validate(&config(), &args(&[op, "users", "1", "{}"])),
            Err(CliError::ResourceUnavailable)
        );
        assert_eq!(validate(&config(), &args(&[op, "users"])), Err(CliError::ResourceUnavailable));
    }
}

#[test]
fn validate_turns_down_an_operation_that_the_resource_does_not_allow() {
    for op in ["create", "update", "delete"] {
        assert_eq!(
            validate(&config(), &args(&[op, "pages", "1", "{}"])),
            Err(CliError::OperationUnavailable)
        );
        assert_eq!(validate(&config(), &args(&[op, "pages"])), Err(CliError::OperationUnavailable));
    }
}

#[test]
fn validate_create_takes_the_data() {
    assert_eq!(
        validate(&config(), &args(&["create", "articles", "{\"a\":1}"])),
        Ok(Command::Create { resource: text("articles"), data: text("{\"a\":1}") })
    );
    assert_eq!(
        validate(&config(), &args(&["create", "articles", "{\"a\":1}", "extra"])),
        Ok(Command::Create { resource: text("articles"), data: text("{\"a\":1}") })
    );
}

#[test]
fn validate_create_without_data_is_turned_down() {
    assert_eq!(
        validate(&config(), &args(&["create", "articles"])),
        Err(CliError::CreateWithoutData)
    );
}

#[test]
fn validate_read_takes_an_id_or_none() {
    assert_eq!(
        validate(&config(), &args(&["read", "pages"])),
        Ok(Command::Read { resource: text("pages"), id: None, is_sync: false })
    );
    assert_eq!(
        validate(&config(), &args(&["read", "pages", "7"])),
        Ok(Command::Read { resource: text("pages"), id: Some(text("7")), is_sync: false })
    );
    assert_eq!(
        validate(&config(), &args(&["read", "pages", "7", "extra"])),
        Ok(Command::Read { resource: text("pages"), id: Some(text("7")), is_sync: false })
    );
}

#[test]
fn validate_update_takes_the_id_and_then_the_data() {
    assert_eq!(
        validate(&config(), &args(&["update", "articles", "7", "{\"a\":2}"])),
        Ok(Command::Update { resource: text("articles"), id: text("7"), data: text("{\"a\":2}") })
    );
}

#[test]
fn validate_update_needs_id_and_data() {
    assert_eq!(validate(&config(), &args(&["update", "articles"])), Err(CliError::UpdateWithoutId));
    assert_eq!(
        validate(&config(), &args(&["update", "articles", "7"])),
        Err(CliError::UpdateWithoutData)
    );
}

#[test]
fn validate_delete_takes_the_id() {
    assert_eq!(
        validate(&config(), &args(&["delete", "articles", "7"])),
        Ok(Command::Delete { resource: text("articles"), id: text("7") })
    );
    assert_eq!(validate(&config(), &args(&["delete", "articles"])), Err(CliError::DeleteWithoutId));
}

#[test]
fn validate_looks_the_operation_up_in_the_first_resource_of_the_name() {
    let mut config = config();
    config.resources.push(Resource {
        name: text("pages"),
        definition: text("{}"),
        ops: vec![text("delete")],
    });
    assert_eq!(
        validate(&config, &args(&["delete", "pages", "1"])),
        Err(CliError::OperationUnavailable)
    );
}

#[test]
fn dispatch_prints_without_the_server() {
    let lines = vec![text("articles"), text("pages")];
    let out = dispatch(&client(), Command::Print(lines.clone()), |_| panic!("nothing may be sent"));
    assert_eq!(out, Ok(lines));
}

#[test]
fn dispatch_prints_the_one_line_of_an_operation() {
    let sdk = client();
    let out = dispatch(
        &sdk,
        Command::Create { resource: text("articles"), data: text("{}") },
        |request: Request| {
            assert_eq!(request.method, HttpMethod::Post);
            assert_eq!(request.url, "http://localhost:8055/items/articles");
            assert_eq!(request.body, Some(text("{}")));
            answer(200, "")
        },
    );
    assert_eq!(out, Ok(vec![text("created successfully")]));
    let out = dispatch(
        &sdk,
        Command::Update { resource: text("articles"), id: text("3"), data: text("[ ]") },
        |request: Request| {
            assert_eq!(request.method, HttpMethod::Patch);
            assert_eq!(request.url, "http://localhost:8055/items/articles/3");
            assert_eq!(request.body, Some(text("[]")));
            answer(200, "")
        },
    );
    assert_eq!(out, Ok(vec![text("updated successfully")]));
    let out = dispatch(
        &sdk,
        Command::Delete { resource: text("articles"), id: text("3") },
        |request: Request| {
            assert_eq!(request.method, HttpMethod::Delete);
            assert_eq!(request.url, "http://localhost:8055/items/articles/3");
            answer(200, "")
        },
    );
    assert_eq!(out, Ok(vec![text("deleted successfully")]));
    let out = dispatch(
        &sdk,
        Command::Read { resource: text("articles"), id: None, is_sync: false },
        |request: Request| {
            assert_eq!(request.method, HttpMethod::Get);
            assert_eq!(request.url, "http://localhost:8055/items/articles");
            answer(200, "{\"data\": [ {\"id\": 1} ]}")
        },
    );
    assert_eq!(out, Ok(vec![text("[{\"id\":1}]")]));
}

#[test]
fn dispatch_hands_on_the_failure_of_the_client() {
    let out = dispatch(
        &client(),
        Command::Delete { resource: text("articles"), id: text("3") },
        |_| answer(500, ""),
    );
    assert_eq!(out, Err(SdkError::Failed(HttpMethod::Delete)));
}

#[test]
fn run_ls_prints_the_resource_names_and_ends_with_0() {
    let out = run(&config(), &client(), &args(&["ls"]), |_| panic!("nothing may be sent"));
    assert_eq!(out, Ok(vec![text("articles"), text("pages")]));
    assert_eq!(exit_status(&out), 0);
}

#[test]
fn run_of_an_unknown_resource_or_operation_ends_with_1() {
    let cases: [(&[&str], CliError); 4] = [
        (&["read", "users"], CliError::ResourceUnavailable),
        (&["delete", "pages", "1"], CliError::OperationUnavailable),
        (&["inspect", "users"], CliError::UnknownResource),
        (&["frobnicate", "pages"], CliError::UnknownCommand),
    ];
    for (words, error) in cases {
        let out = run(&config(), &client(), &args(words), |_| panic!("nothing may be sent"));
        assert_eq!(out, Err(error));
        assert_eq!(exit_status(&out), 1);
    }
}

#[test]
fn run_create_without_data_ends_with_1() {
    let out = run(&config(), &client(), &args(&["create", "articles"]), |_| {
        panic!("nothing may be sent")
    });
    assert_eq!(out, Err(CliError::CreateWithoutData));
    assert_eq!(exit_status(&out), 1);
}

#[test]
fn run_read_round_trips_a_mocked_200_through_the_envelope() {
    let out = run(&config(), &client(), &args(&["read", "articles", "7"]), |request: Request| {
        assert_eq!(request.method, HttpMethod::Get);
        assert_eq!(request.url, "http://localhost:8055/items/articles/7");
        assert_eq!(request.headers.len(), 1);
        assert_eq!(request.headers[0].name, "Cookies");
        assert_eq!(request.headers[0].value, "directus_session_token=test");
        answer(200, "{\"data\": {\"id\": 7, \"tags\": [\"a\", \"b\"]}}")
    });
    assert_eq!(out, Ok(vec![text("{\"id\":7,\"tags\":[\"a\",\"b\"]}")]));
    assert_eq!(exit_status(&out), 0);
}

#[test]
fn run_sync_reads_the_configured_field_of_the_app_record() {
    let out = run(&config(), &client(), &args(&["sync"]), |request: Request| {
        assert_eq!(request.method, HttpMethod::Get);
        assert_eq!(request.url, "http://localhost:8055/items/projects/shop");
        answer(200, "{\"data\": {\"id\": \"shop\", \"settings\": {\"theme\": \"dark\"}}}")
    });
    assert_eq!(out, Ok(vec![text("{\"theme\":\"dark\"}")]));
}

#[test]
fn run_update_sends_the_fourth_argument_as_data() {
    let out = run(
        &config(),
        &client(),
        &args(&["update", "articles", "7", "{ \"title\": \"new\" }"]),
        |request: Request| {
            assert_eq!(request.method, HttpMethod::Patch);
            assert_eq!(request.url, "http://localhost:8055/items/articles/7");
            assert_eq!(request.body, Some(text("{\"title\":\"new\"}")));
            answer(200, "")
        },
    );
    assert_eq!(out, Ok(vec![text("updated successfully")]));
}

#[test]
fn run_wraps_the_failure_of_the_client() {
    let out = run(&config(), &client(), &args(&["create", "articles", "{oops"]), |_| {
        panic!("nothing may be sent")
    });
    assert_eq!(out, Err(CliError::Sdk(SdkError::InvalidData)));
    assert_eq!(exit_status(&out), 1);
    let out = run(&config(), &client(), &args(&["read", "pages"]), |_| answer(503, ""));
    assert_eq!(out, Err(CliError::Sdk(SdkError::Failed(HttpMethod::Get))));
    assert_eq!(exit_status(&out), 1);
    let out = run(&config(), &client(), &args(&["read", "pages"]), |_| Err(text("offline")));
    assert_eq!(out, Err(CliError::Sdk(SdkError::Transport(text("offline")))));
    assert_eq!(exit_status(&out), 1);
}

#[test]
fn cli_errors_report_themselves_in_one_line() {
    let cases = [
        (CliError::NoCommand, "error: <operation> positional arg required"),
        (CliError::AuthUnimplemented, "auth command not implemented yet"),
        (CliError::InspectWithoutResource, "error: resource name required for inspect command"),
        (CliError::UnknownResource, "error: unknown resource"),
        (CliError::UnknownCommand, "error: unknown command"),
        (CliError::NoResource, "error: <operation> and <resource> positional args required"),
        (CliError::TooManyArgs, "error: too many args"),
        (CliError::ResourceUnavailable, "error: resource not available"),
        (CliError::OperationUnavailable, "error: operation not available for that resource"),
        (CliError::CreateWithoutData, "error: data required for create operation"),
        (CliError::UpdateWithoutId, "error: id required for update operation"),
        (CliError::UpdateWithoutData, "error: data required for update operation"),
        (CliError::DeleteWithoutId, "error: id required for delete operation"),
        (CliError::Sdk(SdkError::Failed(HttpMethod::Patch)), "error: failed to put"),
        (CliError::Sdk(SdkError::Transport(text("offline"))), "offline"),
    ];
    for (error, line) in cases {
        assert_eq!(error.message(), line);
    }
}

#[test]
fn exit_status_is_0_after_success_and_1_after_failure() {
    assert_eq!(exit_status(&Ok(vec![])), 0);
    assert_eq!(exit_status(&Ok(vec![text("line")])), 0);
    assert_eq!(exit_status(&Err(CliError::NoCommand)), 1);
    assert_eq!(exit_status(&Err(CliError::Sdk(SdkError::NoEnvelope))), 1);
}
