use schema_cli::command::{
    conclude, dispatch, failure, plan, Argument, CliError, Command, Outcome, Plan, Request,
    UsageError,
};
use schema_cli::field::{FieldFault, FieldPair, FieldShapeError};

fn field(key: &str, value: &str) -> FieldPair {
    FieldPair { key: key.to_string(), value: value.to_string() }
}

fn raws(items: &[&str]) -> Vec<String> {
    items.iter().map(|s| s.to_string()).collect()
}

fn create_person(log: bool) -> Command {
    Command::CreateSchema {
        name: "Person".to_string(),
        description: "a person".to_string(),
        fields: raws(&["name:str", "age:int"]),
        log,
    }
}

fn delete_person(log: bool) -> Command {
    Command::DeleteInstance {
        schema_id: "Person_abc123".to_string(),
        view_id: "00def456".to_string(),
        log,
    }
}

#[test]
fn create_schema_normalizes_its_fields() {
    let planned = plan(&create_person(false), true).unwrap();
    assert_eq!(
        planned.request,
        Request::CreateSchema {
            name: "Person".to_string(),
            description: "a person".to_string(),
            fields: vec![field("name", "str"), field("age", "int")],
        }
    );
    assert_eq!(planned.preview, None);
}

#[test]
fn create_schema_with_log_previews_the_normalized_fields() {
    let planned = plan(&create_person(true), false).unwrap();
    let preview = planned.preview.unwrap();
    assert!(preview.contains("name: str, age: int"));
    assert_eq!(
        preview,
        "Creating schema...\nname: Person\ndescription: a person\nfields: name: str, age: int\n\n"
    );
    assert_eq!(preview, planned.request.render(false));
}

#[test]
fn preview_shows_what_is_sent_not_what_was_typed() {
    let command = Command::CreateInstance {
        schema_id: "Person_abc123".to_string(),
        fields: raws(&["  name :  bob ", "url : http://x "]),
        log: true,
    };
    let planned = plan(&command, false).unwrap();
    assert_eq!(
        planned.request,
        Request::CreateInstance {
            schema_id: "Person_abc123".to_string(),
            fields: vec![field("name", "bob"), field("url", "http://x")],
        }
    );
    assert_eq!(
        planned.preview.unwrap(),
        "Creating instance...\nschema_id: Person_abc123\nfields: name: bob, url: http://x\n\n"
    );
}

#[test]
fn update_instance_carries_both_ids_and_the_fields() {
    let command = Command::UpdateInstance {
        schema_id: "Person_abc123".to_string(),
        view_id: "00def456".to_string(),
        fields: raws(&["name:alice"]),
        log: true,
    };
    let planned = plan(&command, true).unwrap();
    assert_eq!(
        planned.request,
        Request::UpdateInstance {
            schema_id: "Person_abc123".to_string(),
            view_id: "00def456".to_string(),
            fields: vec![field("name", "alice")],
        }
    );
    assert_eq!(
        planned.preview.unwrap(),
        "Updating instance...\nschema_id: \x1b[35mPerson_abc123\x1b[39m\n\
         view_id: \x1b[33m00def456\x1b[39m\nfields: \x1b[36mname\x1b[39m: \x1b[92malice\x1b[39m\n\n"
    );
}

#[test]
fn delete_instance_sends_exactly_the_two_ids() {
    let planned = plan(&delete_person(false), true).unwrap();
    assert_eq!(
        planned,
        Plan {
            preview: None,
            request: Request::DeleteInstance {
                schema_id: "Person_abc123".to_string(),
                view_id: "00def456".to_string(),
            },
        }
    );
}

#[test]
fn delete_instance_with_log_previews_the_ids() {
    let planned = plan(&delete_person(true), false).unwrap();
    assert_eq!(
        planned.preview.unwrap(),
        "Deleting instance...\nschema_id: Person_abc123\nview_id: 00def456\n\n"
    );
}

#[test]
fn commands_without_fields_are_accepted() {
    let command = Command::CreateSchema {
        name: "Empty".to_string(),
        description: String::new(),
        fields: vec![],
        log: true,
    };
    let planned = plan(&command, false).unwrap();
    assert_eq!(
        planned.request,
        Request::CreateSchema {
            name: "Empty".to_string(),
            description: String::new(),
            fields: vec![],
        }
    );
    assert_eq!(
        planned.preview.unwrap(),
        "Creating schema...\nname: Empty\ndescription: \nfields: \n\n"
    );
}

#[test]
fn ill_shaped_field_rejects_the_command() {
    let command = Command::CreateSchema {
        name: "Person".to_string(),
        description: "a person".to_string(),
        fields: raws(&["name:str", "age"]),
        log: true,
    };
    assert_eq!(
        plan(&command, true),
        Err(CliError::FieldShape(FieldShapeError {
            fault: FieldFault::MissingDelimiter,
            index: 1,
            raw: "age".to_string(),
        }))
    );
    let command = Command::UpdateInstance {
        schema_id: "Person_abc123".to_string(),
        view_id: "00def456".to_string(),
        fields: raws(&["name:"]),
        log: false,
    };
    assert_eq!(
        plan(&command, true),
        Err(CliError::FieldShape(FieldShapeError {
            fault: FieldFault::EmptyValue,
            index: 0,
            raw: "name:".to_string(),
        }))
    );
    let command = Command::CreateInstance {
        schema_id: "Person_abc123".to_string(),
        fields: raws(&[" :bob"]),
        log: false,
    };
    assert_eq!(
        plan(&command, true),
        Err(CliError::FieldShape(FieldShapeError {
            fault: FieldFault::EmptyKey,
            index: 0,
            raw: " :bob".to_string(),
        }))
    );
}

#[test]
fn empty_required_argument_rejects_the_command() {
    let command = Command::CreateSchema {
        name: String::new(),
        description: "a person".to_string(),
        fields: raws(&["name:str"]),
        log: false,
    };
    assert_eq!(plan(&command, true), Err(CliError::Usage(UsageError { missing: Argument::Name })));
    let command = Command::CreateInstance {
        schema_id: String::new(),
        fields: raws(&["name:bob"]),
        log: false,
    };
    assert_eq!(
        plan(&command, true),
        Err(CliError::Usage(UsageError { missing: Argument::SchemaId }))
    );
    let command = Command::UpdateInstance {
        schema_id: "Person_abc123".to_string(),
        view_id: String::new(),
        fields: raws(&["name:bob"]),
        log: false,
    };
    assert_eq!(
        plan(&command, true),
        Err(CliError::Usage(UsageError { missing: Argument::ViewId }))
    );
    let command = Command::DeleteInstance {
        schema_id: String::new(),
        view_id: String::new(),
        log: false,
    };
    assert_eq!(
        plan(&command, true),
        Err(CliError::Usage(UsageError { missing: Argument::SchemaId }))
    );
    let command = Command::DeleteInstance {
        schema_id: "Person_abc123".to_string(),
        view_id: String::new(),
        log: true,
    };
    assert_eq!(
        plan(&command, true),
        Err(CliError::Usage(UsageError { missing: Argument::ViewId }))
    );
}

#[test]
fn missing_argument_is_reported_before_ill_shaped_fields() {
    let command = Command::CreateSchema {
        name: String::new(),
        description: String::new(),
        fields: raws(&["no delimiter"]),
        log: false,
    };
    assert_eq!(plan(&command, true), Err(CliError::Usage(UsageError { missing: Argument::Name })));
}

#[test]
fn dispatch_without_command_does_nothing() {
    assert_eq!(dispatch(None, true), Ok(None));
    assert_eq!(dispatch(None, false), Ok(None));
}

#[test]
fn dispatch_with_command_plans_it() {
    let command = create_person(true);
    assert_eq!(dispatch(Some(&command), false), plan(&command, false).map(Some));
    let command = Command::CreateInstance {
        schema_id: "Person_abc123".to_string(),
        fields: raws(&["oops"]),
        log: false,
    };
    assert_eq!(dispatch(Some(&command), false), plan(&command, false).map(Some));
    assert!(dispatch(Some(&command), false).is_err());
}

#[test]
fn conclude_shows_the_identifier() {
    assert_eq!(
        conclude(Ok("0020abcdef".to_string()), false),
        Outcome { stdout: "ID: 0020abcdef\n".to_string(), stderr: String::new(), code: 0 }
    );
    assert_eq!(
        conclude(Ok("0020abcdef".to_string()), true),
        Outcome {
            stdout: "ID: \x1b[36m0020abcdef\x1b[39m\n".to_string(),
            stderr: String::new(),
            code: 0
        }
    );
}

#[test]
fn conclude_passes_the_failure_of_the_store_on() {
    let outcome = conclude(Err("unknown schema_id Person_abc123".to_string()), true);
    assert_eq!(outcome.stdout, "");
    assert_eq!(outcome.stderr, "Error: unknown schema_id Person_abc123\n");
    assert_ne!(outcome.code, 0);
    assert_eq!(outcome.code, 1);
}

#[test]
fn failure_reports_each_kind_of_error() {
    let usage = CliError::Usage(UsageError { missing: Argument::ViewId });
    assert_eq!(
        failure(&usage),
        Outcome {
            stdout: String::new(),
            stderr: "Error: Missing value for required argument --view-id\n".to_string(),
            code: 2
        }
    );
    let shape = CliError::FieldShape(FieldShapeError {
        fault: FieldFault::MissingDelimiter,
        index: 0,
        raw: "age".to_string(),
    });
    assert_eq!(
        failure(&shape),
        Outcome {
            stdout: String::new(),
            stderr: "Error: Missing delimiter ':' in field\n\
                     Expected field shape `a:b`. Got: \"age\"\n"
                .to_string(),
            code: 1
        }
    );
    let store = CliError::Operator("GraphQL mutation `publish` failed:\ntimeout".to_string());
    assert_eq!(
        failure(&store),
        Outcome {
            stdout: String::new(),
            stderr: "Error: GraphQL mutation `publish` failed:\ntimeout\n".to_string(),
            code: 1
        }
    );
}

#[test]
fn messages_and_exit_codes_of_errors() {
    assert_eq!(
        UsageError { missing: Argument::Name }.message(),
        "Missing value for required argument --name"
    );
    assert_eq!(
        UsageError { missing: Argument::SchemaId }.message(),
        "Missing value for required argument --schema-id"
    );
    assert_eq!(Argument::Name.flag(), "--name");
    assert_eq!(Argument::SchemaId.flag(), "--schema-id");
    assert_eq!(Argument::ViewId.flag(), "--view-id");
    let usage = CliError::Usage(UsageError { missing: Argument::Name });
    assert_eq!(usage.message(), "Missing value for required argument --name");
    assert_eq!(usage.exit_code(), 2);
    let shape = CliError::FieldShape(FieldShapeError {
        fault: FieldFault::EmptyKey,
        index: 2,
        raw: ":x".to_string(),
    });
    assert_eq!(shape.message(), "Empty key in field\nExpected field shape `a:b`. Got: \":x\"");
    assert_eq!(shape.exit_code(), 1);
    let store = CliError::Operator("not found".to_string());
    assert_eq!(store.message(), "not found");
    assert_eq!(store.exit_code(), 1);
}

#[test]
fn missing_names_the_first_empty_required_argument() {
    assert_eq!(create_person(false).missing(), None);
    assert_eq!(delete_person(true).missing(), None);
    let command = Command::CreateSchema {
        name: String::new(),
        description: String::new(),
        fields: vec![],
        log: false,
    };
    assert_eq!(command.missing(), Some(Argument::Name));
    let command = Command::CreateSchema {
        name: "Person".to_string(),
        description: String::new(),
        fields: vec![],
        log: false,
    };
    assert_eq!(command.missing(), None);
    let command = Command::UpdateInstance {
        schema_id: String::new(),
        view_id: String::new(),
        fields: vec![],
        log: false,
    };
    assert_eq!(command.missing(), Some(Argument::SchemaId));
    let command = Command::UpdateInstance {
        schema_id: "Person_abc123".to_string(),
        view_id: String::new(),
        fields: vec![],
        log: false,
    };
    assert_eq!(command.missing(), Some(Argument::ViewId));
}

#[test]
fn previewed_is_the_log_flag() {
    assert!(create_person(true).previewed());
    assert!(!create_person(false).previewed());
    assert!(delete_person(true).previewed());
    assert!(!delete_person(false).previewed());
}
