use redito::cli::{
    add_args_from_root_schema, add_args_from_schema, arg_id, command_name, command_type, flag_name,
    nullable_arg_type, parse_arg_type, replace_char, setup_arg, split_composite_key, value_name, ArgDef,
    ArgFormat, ArgType, ArgTypeError, CommandDef, DefaultMember, DefaultValue, Defaults, Property,
    SchemaError, ValueParser,
};

fn null() -> DefaultValue {
    DefaultValue { json: None, text: None, is_true: false }
}

fn text(t: &str) -> DefaultValue {
    DefaultValue { json: Some(format!("\"{}\"", t)), text: Some(t.to_string()), is_true: false }
}

fn number(n: &str) -> DefaultValue {
    DefaultValue { json: Some(n.to_string()), text: None, is_true: false }
}

fn flag(b: bool) -> DefaultValue {
    DefaultValue { json: Some(b.to_string()), text: None, is_true: b }
}

fn leaf(value: DefaultValue) -> Defaults {
    Defaults { value, members: vec![] }
}

fn object(members: Vec<(&str, Defaults)>) -> Defaults {
    Defaults {
        value: DefaultValue { json: Some("{}".to_string()), text: None, is_true: false },
        members: members
            .into_iter()
            .map(|(name, defaults)| DefaultMember { name: name.to_string(), defaults })
            .collect(),
    }
}

fn option(key: &str, arg_type: ArgType, format: Option<ArgFormat>) -> Property {
    Property {
        key: key.to_string(),
        def: Some(ArgDef { arg_type, properties: None, required: None, format }),
    }
}

fn group(key: &str, parts: Vec<Property>, required: &[&str]) -> Property {
    Property {
        key: key.to_string(),
        def: Some(ArgDef {
            arg_type: ArgType::Object,
            properties: Some(parts),
            required: Some(required.iter().map(|r| r.to_string()).collect()),
            format: None,
        }),
    }
}

#[test]
fn replace_char_replaces_every_match() {
    assert_eq!(replace_char("a_b__c", '_', "-"), "a-b--c");
    assert_eq!(replace_char("", '_', "-"), "");
    assert_eq!(replace_char("abc", '_', "-"), "abc");
    assert_eq!(replace_char("ä_ö", '_', "--"), "ä--ö");
    assert_eq!(replace_char("a-b", '-', ""), "ab");
}

#[test]
fn flag_names() {
    assert_eq!(flag_name(None, "retry_when_empty"), "retry-when-empty");
    assert_eq!(flag_name(Some("target"), "sentinel_master"), "target-sentinel-master");
    assert_eq!(flag_name(Some("redis"), "host"), "redis-host");
}

#[test]
fn arg_ids() {
    assert_eq!(arg_id(None, "print_config"), "print_config");
    assert_eq!(arg_id(Some("command"), "block_ms"), "command__block_ms");
    assert_eq!(arg_id(Some("command__target"), "port"), "command__target__port");
}

#[test]
fn value_names() {
    assert_eq!(value_name("redis-host"), "REDIS_HOST");
    assert_eq!(value_name("count"), "COUNT");
    assert_eq!(value_name("straße-x"), "STRASSE_X");
}

#[test]
fn command_names_and_types() {
    assert_eq!(command_name("stream_tail"), "stream-tail");
    assert_eq!(command_type("stream-copy"), "stream_copy");
    assert_eq!(command_type(&command_name("stream_tail")), "stream_tail");
}

#[test]
fn names_of_types() {
    assert_eq!(parse_arg_type("string"), Some(ArgType::Text));
    assert_eq!(parse_arg_type("integer"), Some(ArgType::Integer));
    assert_eq!(parse_arg_type("boolean"), Some(ArgType::Flag));
    assert_eq!(parse_arg_type("object"), Some(ArgType::Object));
    assert_eq!(parse_arg_type("null"), Some(ArgType::Null));
    assert_eq!(parse_arg_type("String"), None);
    assert_eq!(parse_arg_type("number"), None);
    assert_eq!(parse_arg_type(""), None);
}

#[test]
fn nullable_types() {
    let names = |v: &[Option<&str>]| -> Vec<Option<String>> {
        v.iter().map(|n| n.map(|s| s.to_string())).collect()
    };
    assert_eq!(nullable_arg_type(&names(&[Some("string"), Some("null")])), Ok(ArgType::Text));
    assert_eq!(nullable_arg_type(&names(&[Some("integer"), Some("null")])), Ok(ArgType::Integer));
    assert_eq!(
        nullable_arg_type(&names(&[Some("null"), Some("string")])),
        Err(ArgTypeError::NotNullable)
    );
    assert_eq!(nullable_arg_type(&names(&[Some("string")])), Err(ArgTypeError::NotNullable));
    assert_eq!(nullable_arg_type(&names(&[])), Err(ArgTypeError::NotNullable));
    assert_eq!(
        nullable_arg_type(&names(&[Some("string"), Some("null"), Some("null")])),
        Err(ArgTypeError::NotNullable)
    );
    assert_eq!(nullable_arg_type(&names(&[Some("string"), None])), Err(ArgTypeError::NotNullable));
    assert_eq!(nullable_arg_type(&names(&[Some("text"), Some("null")])), Err(ArgTypeError::UnknownType));
    assert_eq!(nullable_arg_type(&names(&[None, Some("null")])), Err(ArgTypeError::UnknownType));
    assert_eq!(
        ArgTypeError::NotNullable.message(),
        "arg types only support the second type null"
    );
    assert_eq!(ArgTypeError::UnknownType.message(), "unknown arg type");
}

#[test]
fn composite_keys() {
    let split = |k: &str| split_composite_key(k);
    assert_eq!(split("command__target__port"), vec!["command", "target", "port"]);
    assert_eq!(split("print_config"), vec!["print_config"]);
    assert_eq!(split(""), vec![""]);
    assert_eq!(split("a__"), vec!["a", ""]);
    assert_eq!(split("__a"), vec!["", "a"]);
    assert_eq!(split("____"), vec!["", "", ""]);
    assert_eq!(split("a___b"), vec!["a", "_b"]);
    assert_eq!(split("a_b"), vec!["a_b"]);
    assert_eq!(split("_"), vec!["_"]);
    assert_eq!(split("__"), vec!["", ""]);
    for key in ["command__target__port", "", "a__", "__a", "____", "a___b", "_", "__", "x_y__z_"] {
        let expected: Vec<String> = key.split("__").map(|p| p.to_string()).collect();
        assert_eq!(split(key), expected);
    }
}

#[test]
fn argument_of_required_text_without_default() {
    let plan = setup_arg(
        ArgType::Text,
        None,
        true,
        false,
        "stream".to_string(),
        "command__stream".to_string(),
        &null(),
    )
    .unwrap();
    assert_eq!(plan.id, "command__stream");
    assert_eq!(plan.long, "stream");
    assert_eq!(plan.value_name, "STREAM");
    assert!(!plan.global);
    assert_eq!(plan.display_order, 1);
    assert_eq!(plan.help_heading, None);
    assert!(plan.required);
    assert_eq!(plan.parser, ValueParser::Text);
    assert_eq!(plan.default_value, None);
}

#[test]
fn argument_of_global_text_with_default() {
    let plan = setup_arg(
        ArgType::Text,
        None,
        true,
        true,
        "redis-host".to_string(),
        "redis__host".to_string(),
        &text("localhost"),
    )
    .unwrap();
    assert!(plan.global);
    assert_eq!(plan.display_order, 0);
    assert_eq!(plan.help_heading, Some("GLOBAL".to_string()));
    assert!(!plan.required);
    assert_eq!(plan.value_name, "REDIS_HOST");
    assert_eq!(plan.default_value, Some("localhost".to_string()));
}

#[test]
fn argument_of_integers_by_format() {
    let parser = |format| {
        setup_arg(ArgType::Integer, format, false, false, "n".to_string(), "n".to_string(), &number("5"))
            .unwrap()
            .parser
    };
    assert_eq!(parser(Some(ArgFormat::Uint)), ValueParser::Usize);
    assert_eq!(parser(Some(ArgFormat::Uint8)), ValueParser::U8);
    assert_eq!(parser(Some(ArgFormat::Uint16)), ValueParser::U16);
    assert_eq!(parser(None), ValueParser::I32);
    let plan = setup_arg(
        ArgType::Integer,
        Some(ArgFormat::Uint16),
        true,
        true,
        "redis-port".to_string(),
        "redis__port".to_string(),
        &number("6379"),
    )
    .unwrap();
    assert_eq!(plan.default_value, Some("6379".to_string()));
    assert!(!plan.required);
    let plan = setup_arg(
        ArgType::Integer,
        None,
        true,
        false,
        "n".to_string(),
        "n".to_string(),
        &null(),
    )
    .unwrap();
    assert_eq!(plan.default_value, None);
    assert!(plan.required);
}

#[test]
fn argument_of_switches() {
    let plan =
        setup_arg(ArgType::Flag, None, true, false, "tls".to_string(), "tls".to_string(), &null()).unwrap();
    assert_eq!(plan.parser, ValueParser::Flag);
    assert!(!plan.required);
    assert_eq!(plan.default_value, None);
    let plan = setup_arg(ArgType::Flag, None, true, false, "tls".to_string(), "tls".to_string(), &flag(false))
        .unwrap();
    assert_eq!(plan.default_value, None);
    let plan = setup_arg(ArgType::Flag, None, false, false, "tls".to_string(), "tls".to_string(), &flag(true))
        .unwrap();
    assert_eq!(plan.default_value, Some("true".to_string()));
}

#[test]
fn no_argument_of_objects_nulls_and_texts_with_other_defaults() {
    let make = |arg_type, default: &DefaultValue| {
        setup_arg(arg_type, None, false, false, "x".to_string(), "x".to_string(), default).map(|p| p.id)
    };
    assert_eq!(make(ArgType::Object, &null()), Err(SchemaError::InvalidValueType));
    assert_eq!(make(ArgType::Null, &null()), Err(SchemaError::InvalidValueType));
    assert_eq!(make(ArgType::Text, &number("5")), Err(SchemaError::DefaultNotText));
    assert_eq!(make(ArgType::Text, &flag(true)), Err(SchemaError::DefaultNotText));
    assert_eq!(make(ArgType::Text, &text("t")), Ok("x".to_string()));
    assert_eq!(SchemaError::InvalidValueType.message(), "invalid value_type");
    assert_eq!(SchemaError::MissingProperties.message(), "properties of type object should exist");
    assert_eq!(SchemaError::InvalidDefinition.message(), "Invalid argument definition");
    assert_eq!(SchemaError::InvalidCommand.message(), "invalid command definition");
    assert_eq!(
        SchemaError::DefaultNotText.message(),
        "the default of a string option is not a string"
    );
}

#[test]
fn arguments_of_nested_options() {
    let props = vec![
        option("print_config", ArgType::Flag, None),
        group(
            "redis",
            vec![
                option("host", ArgType::Text, None),
                option("port", ArgType::Integer, Some(ArgFormat::Uint16)),
                option("sentinel_master", ArgType::Text, None),
            ],
            &["host", "port"],
        ),
    ];
    let defaults = object(vec![
        ("print_config", leaf(flag(false))),
        ("redis", object(vec![("port", leaf(number("6379")))])),
    ]);
    let plans = add_args_from_schema(&props, Some(&defaults), None, None, &vec![], true).unwrap();
    let summary: Vec<(String, String, bool, Option<String>)> = plans
        .iter()
        .map(|p| (p.id.clone(), p.long.clone(), p.required, p.default_value.clone()))
        .collect();
    assert_eq!(
        summary,
        vec![
            ("print_config".to_string(), "print-config".to_string(), false, None),
            ("redis__host".to_string(), "redis-host".to_string(), true, None),
            ("redis__port".to_string(), "redis-port".to_string(), false, Some("6379".to_string())),
            (
                "redis__sentinel_master".to_string(),
                "redis-sentinel-master".to_string(),
                false,
                None
            ),
        ]
    );
    assert!(plans.iter().all(|p| p.global && p.display_order == 0));
    assert_eq!(plans[2].parser, ValueParser::U16);
    assert_eq!(plans[3].value_name, "REDIS_SENTINEL_MASTER");
}

#[test]
fn arguments_with_prefixes_and_without_defaults() {
    let props = vec![
        option("stream", ArgType::Text, None),
        group("target", vec![option("db", ArgType::Integer, Some(ArgFormat::Uint8))], &["db"]),
    ];
    let required = vec!["stream".to_string()];
    let plans = add_args_from_schema(&props, None, None, Some("command"), &required, false).unwrap();
    assert_eq!(plans.len(), 2);
    assert_eq!(plans[0].id, "command__stream");
    assert_eq!(plans[0].long, "stream");
    assert!(plans[0].required);
    assert_eq!(plans[1].id, "command__target__db");
    assert_eq!(plans[1].long, "target-db");
    assert!(plans[1].required);
    assert_eq!(plans[1].parser, ValueParser::U8);
    assert!(!plans[1].global);
    assert_eq!(plans[1].display_order, 1);
}

#[test]
fn schema_errors_come_from_the_first_bad_option() {
    let unreadable = Property { key: "x".to_string(), def: None };
    let no_parts = Property {
        key: "y".to_string(),
        def: Some(ArgDef { arg_type: ArgType::Object, properties: None, required: None, format: None }),
    };
    let run = |props: Vec<Property>| {
        add_args_from_schema(&props, None, None, None, &vec![], false).map(|p| p.len())
    };
    assert_eq!(run(vec![]), Ok(0));
    assert_eq!(run(vec![unreadable]), Err(SchemaError::InvalidDefinition));
    assert_eq!(
        run(vec![option("a", ArgType::Text, None), no_parts, option("b", ArgType::Null, None)]),
        Err(SchemaError::MissingProperties)
    );
    assert_eq!(
        run(vec![option("b", ArgType::Null, None), Property { key: "x".to_string(), def: None }]),
        Err(SchemaError::InvalidValueType)
    );
    assert_eq!(
        run(vec![group("g", vec![Property { key: "x".to_string(), def: None }], &[])]),
        Err(SchemaError::InvalidDefinition)
    );
}

#[test]
fn command_line_of_a_schema() {
    let commands = vec![
        Some(CommandDef {
            command_type: "stream_tail".to_string(),
            props: vec![
                option("block_ms", ArgType::Integer, Some(ArgFormat::Uint)),
                option("stream", ArgType::Text, None),
            ],
            required: Some(vec!["block_ms".to_string(), "stream".to_string()]),
        }),
        Some(CommandDef { command_type: "none".to_string(), props: vec![], required: None }),
    ];
    let props = vec![option("print_config", ArgType::Flag, None)];
    let defaults = object(vec![
        ("command", object(vec![("block_ms", leaf(number("5000")))])),
        ("print_config", leaf(flag(false))),
    ]);
    let plan = add_args_from_root_schema(&commands, &props, Some(&defaults)).unwrap();
    assert_eq!(plan.commands.len(), 2);
    assert_eq!(plan.commands[0].name, "stream-tail");
    assert_eq!(plan.commands[1].name, "none");
    assert!(plan.commands[1].args.is_empty());
    let args = &plan.commands[0].args;
    assert_eq!(args.len(), 2);
    assert_eq!(args[0].id, "command__block_ms");
    assert_eq!(args[0].long, "block-ms");
    assert_eq!(args[0].default_value, Some("5000".to_string()));
    assert!(!args[0].required);
    assert_eq!(args[0].parser, ValueParser::Usize);
    assert_eq!(args[1].id, "command__stream");
    assert!(args[1].required);
    assert!(!args[1].global);
    assert_eq!(plan.globals.len(), 1);
    assert_eq!(plan.globals[0].id, "print_config");
    assert!(plan.globals[0].global);
    assert!(!plan.globals[0].required);
}

#[test]
fn command_line_errors() {
    let props = vec![option("bad", ArgType::Null, None)];
    let commands: Vec<Option<CommandDef>> = vec![None];
    assert_eq!(
        add_args_from_root_schema(&commands, &props, None).map(|p| p.globals.len()),
        Err(SchemaError::InvalidCommand)
    );
    assert_eq!(
        add_args_from_root_schema(&vec![], &props, None).map(|p| p.globals.len()),
        Err(SchemaError::InvalidValueType)
    );
    assert_eq!(add_args_from_root_schema(&vec![], &vec![], None).map(|p| p.globals.len()), Ok(0));
}
