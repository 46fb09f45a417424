//! The rules by which the options of the configuration become command-line
//! arguments: how an option is named, what it takes, and where a value given
//! on the command line belongs in the configuration.

use vstd::prelude::*;
use vstd::string::{StrSliceExecFns, StringExecFns};
use crate::text::{option_str_text, option_text, same_text, texts};

verus! {

/// A text in which every `from` has given way to `to`.
pub open spec fn replaced(text: Seq<char>, from: char, to: Seq<char>) -> Seq<char>
    decreases text.len(),
{
    if text.len() == 0 {
        Seq::empty()
    } else {
        replaced(text.drop_last(), from, to) + (if text.last() == from {
            to
        } else {
            seq![text.last()]
        })
    }
}

/// Replaces every `from` in `text` by `to`.
pub fn replace_char(text: &str, from: char, to: &str) -> (out: String)
    ensures
        out@ == replaced(text@, from, to@),
{
    let n = text.unicode_len();
    let mut out = String::new();
    let mut i: usize = 0;
    assert(text@.take(0) == Seq::<char>::empty());
    while i < n
        invariant
            0 <= i <= n,
            n == text@.len(),
            out@ == replaced(text@.take(i as int), from, to@),
        decreases n - i,
    {
        proof {
            assert(text@.take(i as int + 1).drop_last() == text@.take(i as int));
            assert(text@.subrange(i as int, i as int + 1) == seq![text@[i as int]]);
        }
        if text.get_char(i) == from {
            out.append(to);
        } else {
            out.append(text.substring_char(i, i + 1));
        }
        i = i + 1;
    }
    assert(text@.take(i as int) == text@);
    out
}

/// The long flag of an option: its key with `-` for `_`, behind the flag of
/// the option that it is part of and a `-`.
pub open spec fn flag_name_of(prefix: Option<Seq<char>>, key: Seq<char>) -> Seq<char> {
    match prefix {
        Some(p) => p + "-"@ + replaced(key, '_', "-"@),
        None => replaced(key, '_', "-"@),
    }
}

/// The identifier of an option: its key, behind the identifier of the option
/// that it is part of and `__`.
pub open spec fn arg_id_of(prefix: Option<Seq<char>>, key: Seq<char>) -> Seq<char> {
    match prefix {
        Some(p) => p + "__"@ + key,
        None => key,
    }
}

/// Builds the long flag of an option.
pub fn flag_name(prefix: Option<&str>, key: &str) -> (flag: String)
    ensures
        flag@ == flag_name_of(option_str_text(prefix), key@),
{
    match prefix {
        Some(p) => {
            let mut flag = p.to_owned();
            flag.append("-");
            flag.append(replace_char(key, '_', "-").as_str());
            flag
        },
        None => replace_char(key, '_', "-"),
    }
}

/// Builds the identifier of an option.
pub fn arg_id(prefix: Option<&str>, key: &str) -> (id: String)
    ensures
        id@ == arg_id_of(option_str_text(prefix), key@),
{
    match prefix {
        Some(p) => {
            let mut id = p.to_owned();
            id.append("__");
            id.append(key);
            id
        },
        None => key.to_owned(),
    }
}

/// The name of a command on the command line: its type with `-` for `_`.
pub fn command_name(command_type: &str) -> (name: String)
    ensures
        name@ == replaced(command_type@, '_', "-"@),
{
    replace_char(command_type, '_', "-")
}

/// The type of a command as the configuration spells it: its name on the
/// command line with `_` for `-`.
pub fn command_type(command_name: &str) -> (command_type: String)
    ensures
        command_type@ == replaced(command_name@, '-', "_"@),
{
    replace_char(command_name, '-', "_")
}

/// What an option holds.
#[derive(Debug, Clone, Copy, PartialEq, Eq, Structural)]
pub enum ArgType {
    Text,
    Integer,
    Flag,
    Object,
    Null,
}

/// The width of an integer option.
#[derive(Debug, Clone, Copy, PartialEq, Eq, Structural)]
pub enum ArgFormat {
    Uint,
    Uint8,
    Uint16,
}

/// How the value of an argument is read.
#[derive(Debug, Clone, Copy, PartialEq, Eq, Structural)]
pub enum ValueParser {
    /// Any text.
    Text,
    /// An unsigned integer of the machine's width.
    Usize,
    /// An unsigned integer of 8 bits.
    U8,
    /// An unsigned integer of 16 bits.
    U16,
    /// A signed integer of 32 bits.
    I32,
    /// No value: the argument is a switch that sets the option.
    Flag,
}

/// The type that the name of a type stands for.
pub open spec fn arg_type_named(name: Seq<char>) -> Option<ArgType> {
    if name == "string"@ {
        Some(ArgType::Text)
    } else if name == "integer"@ {
        Some(ArgType::Integer)
    } else if name == "boolean"@ {
        Some(ArgType::Flag)
    } else if name == "object"@ {
        Some(ArgType::Object)
    } else if name == "null"@ {
        Some(ArgType::Null)
    } else {
        None
    }
}

/// Reads the name of a type.
pub fn parse_arg_type(name: &str) -> (arg_type: Option<ArgType>)
    ensures
        arg_type == arg_type_named(name@),
{
    if same_text(name, "string") {
        Some(ArgType::Text)
    } else if same_text(name, "integer") {
        Some(ArgType::Integer)
    } else if same_text(name, "boolean") {
        Some(ArgType::Flag)
    } else if same_text(name, "object") {
        Some(ArgType::Object)
    } else if same_text(name, "null") {
        Some(ArgType::Null)
    } else {
        None
    }
}

/// Why the type of an option cannot be used.
#[derive(Debug, Clone, Copy, PartialEq, Eq, Structural)]
pub enum ArgTypeError {
    /// A list of types is taken only where it has two members and the
    /// second is `null`.
    NotNullable,
    /// The first member of the list names no type.
    UnknownType,
}

/// The message of an error.
pub open spec fn arg_type_error_text(error: ArgTypeError) -> Seq<char> {
    match error {
        ArgTypeError::NotNullable => "arg types only support the second type null"@,
        ArgTypeError::UnknownType => "unknown arg type"@,
    }
}

impl ArgTypeError {
    /// The message for the user.
    pub fn message(&self) -> (text: String)
        ensures
            text@ == arg_type_error_text(*self),
    {
        match self {
            ArgTypeError::NotNullable => "arg types only support the second type null".to_owned(),
            ArgTypeError::UnknownType => "unknown arg type".to_owned(),
        }
    }
}

/// The texts of a list of type names; a member that is no string has none.
pub open spec fn names_view(names: Seq<Option<String>>) -> Seq<Option<Seq<char>>> {
    names.map_values(
        |n: Option<String>|
            match n {
                Some(t) => Some(t@),
                None => None,
            },
    )
}

/// The type of an option that is declared by a list of types: the first
/// member, where the list has two and the second is `null`.
pub open spec fn nullable_type_of(names: Seq<Option<Seq<char>>>) -> Result<ArgType, ArgTypeError> {
    if names.len() != 2 || names[1] != Some("null"@) {
        Err(ArgTypeError::NotNullable)
    } else {
        match names[0] {
            Some(name) => match arg_type_named(name) {
                Some(t) => Ok(t),
                None => Err(ArgTypeError::UnknownType),
            },
            None => Err(ArgTypeError::UnknownType),
        }
    }
}

/// Reads the type of an option that is declared by a list of types.
pub fn nullable_arg_type(names: &Vec<Option<String>>) -> (arg_type: Result<ArgType, ArgTypeError>)
    ensures
        arg_type == nullable_type_of(names_view(names@)),
{
    if names.len() != 2 {
        return Err(ArgTypeError::NotNullable);
    }
    let second_is_null = match &names[1] {
        Some(second) => same_text(second.as_str(), "null"),
        None => false,
    };
    if !second_is_null {
        return Err(ArgTypeError::NotNullable);
    }
    match &names[0] {
        Some(first) => match parse_arg_type(first.as_str()) {
            Some(t) => Ok(t),
            None => Err(ArgTypeError::UnknownType),
        },
        None => Err(ArgTypeError::UnknownType),
    }
}

/// The default of an option, as far as an argument can show it.
#[derive(Debug)]
pub struct DefaultValue {
    /// The value as JSON text; none where the value is null.
    pub json: Option<String>,
    /// The text of the value, where the value is a string.
    pub text: Option<String>,
    /// Whether the value is the boolean `true`.
    pub is_true: bool,
}

pub struct DefaultValueView {
    pub json: Option<Seq<char>>,
    pub text: Option<Seq<char>>,
    pub is_true: bool,
}

impl View for DefaultValue {
    type V = DefaultValueView;

    open spec fn view(&self) -> DefaultValueView {
        DefaultValueView { json: option_text(self.json), text: option_text(self.text), is_true: self.is_true }
    }
}

/// The defaults of the configuration: the default of an option and, where
/// the option has parts, the defaults of its parts.
#[derive(Debug)]
pub struct Defaults {
    pub value: DefaultValue,
    pub members: Vec<DefaultMember>,
}

/// The defaults of one part of an option.
#[derive(Debug)]
pub struct DefaultMember {
    pub name: String,
    pub defaults: Defaults,
}

/// One argument of the command line.
#[derive(Debug)]
pub struct ArgPlan {
    pub id: String,
    pub long: String,
    pub value_name: String,
    pub global: bool,
    pub display_order: usize,
    pub help_heading: Option<String>,
    pub required: bool,
    pub parser: ValueParser,
    pub default_value: Option<String>,
}

pub struct ArgPlanView {
    pub id: Seq<char>,
    pub long: Seq<char>,
    pub value_name: Seq<char>,
    pub global: bool,
    pub display_order: usize,
    pub help_heading: Option<Seq<char>>,
    pub required: bool,
    pub parser: ValueParser,
    pub default_value: Option<Seq<char>>,
}

impl View for ArgPlan {
    type V = ArgPlanView;

    open spec fn view(&self) -> ArgPlanView {
        ArgPlanView {
            id: self.id@,
            long: self.long@,
            value_name: self.value_name@,
            global: self.global,
            display_order: self.display_order,
            help_heading: option_text(self.help_heading),
            required: self.required,
            parser: self.parser,
            default_value: option_text(self.default_value),
        }
    }
}

/// Why no arguments can be made of a schema.
#[derive(Debug, Clone, Copy, PartialEq, Eq, Structural)]
pub enum SchemaError {
    /// The definition of a command could not be read.
    InvalidCommand,
    /// The definition of an option could not be read.
    InvalidDefinition,
    /// An option with parts does not say which parts it has.
    MissingProperties,
    /// An option holds what no argument can give.
    InvalidValueType,
    /// The default of a text is no text.
    DefaultNotText,
}

impl SchemaError {
    /// The message for the user.
    pub fn message(&self) -> (text: String)
        ensures
            text@ == schema_error_text(*self),
    {
        match self {
            SchemaError::InvalidCommand => "invalid command definition".to_owned(),
            SchemaError::InvalidDefinition => "Invalid argument definition".to_owned(),
            SchemaError::MissingProperties => "properties of type object should exist".to_owned(),
            SchemaError::InvalidValueType => "invalid value_type".to_owned(),
            SchemaError::DefaultNotText => "the default of a string option is not a string".to_owned(),
        }
    }
}

/// The message of an error.
pub open spec fn schema_error_text(error: SchemaError) -> Seq<char> {
    match error {
        SchemaError::InvalidCommand => "invalid command definition"@,
        SchemaError::InvalidDefinition => "Invalid argument definition"@,
        SchemaError::MissingProperties => "properties of type object should exist"@,
        SchemaError::InvalidValueType => "invalid value_type"@,
        SchemaError::DefaultNotText => "the default of a string option is not a string"@,
    }
}

/// A text in upper case, as `str::to_uppercase` gives it.
pub uninterp spec fn uppercase(text: Seq<char>) -> Seq<char>;

/// Calls `str::to_uppercase`.
#[verifier::external_body]
fn to_uppercase(text: &str) -> (upper: String)
    ensures
        upper@ == uppercase(text@),
{
    text.to_uppercase()
}

/// The name under which the value of an argument is shown: the flag in upper
/// case, with `_` for `-`.
pub fn value_name(flag_name: &str) -> (name: String)
    ensures
        name@ == replaced(uppercase(flag_name@), '-', "_"@),
{
    let upper = to_uppercase(flag_name);
    replace_char(upper.as_str(), '-', "_")
}

/// How the value of an option of the given type and format is read. An
/// integer without a format is a signed integer of 32 bits.
pub open spec fn parser_of(arg_type: ArgType, format: Option<ArgFormat>) -> ValueParser {
    match arg_type {
        ArgType::Integer => match format {
            Some(ArgFormat::Uint) => ValueParser::Usize,
            Some(ArgFormat::Uint8) => ValueParser::U8,
            Some(ArgFormat::Uint16) => ValueParser::U16,
            None => ValueParser::I32,
        },
        ArgType::Flag => ValueParser::Flag,
        _ => ValueParser::Text,
    }
}

/// The default that an argument shows: for an integer the value as it is
/// written, for a text the text, for a switch `true` where it is set.
pub open spec fn default_shown(arg_type: ArgType, default_val: DefaultValueView) -> Option<Seq<char>> {
    match arg_type {
        ArgType::Integer => default_val.json,
        ArgType::Flag => if default_val.is_true {
            Some("true"@)
        } else {
            None
        },
        _ => if default_val.json is Some {
            default_val.text
        } else {
            None
        },
    }
}

/// The argument of an option, or why the option can have none.
///
/// Only a text, an integer or a switch can be given on the command line, and
/// the default of a text has to be null or a text. Global arguments come
/// first, under their own heading. An argument has to be given where the
/// option is required, has no default and is no switch.
pub open spec fn arg_plan(
    arg_type: ArgType,
    format: Option<ArgFormat>,
    required: bool,
    global: bool,
    flag_name: Seq<char>,
    arg_id: Seq<char>,
    default_val: DefaultValueView,
) -> Result<ArgPlanView, SchemaError> {
    if arg_type is Object || arg_type is Null {
        Err(SchemaError::InvalidValueType)
    } else if arg_type is Text && default_val.json is Some && default_val.text is None {
        Err(SchemaError::DefaultNotText)
    } else {
        Ok(
            ArgPlanView {
                id: arg_id,
                long: flag_name,
                value_name: replaced(uppercase(flag_name), '-', "_"@),
                global,
                display_order: if global {
                    0
                } else {
                    1
                },
                help_heading: if global {
                    Some("GLOBAL"@)
                } else {
                    None
                },
                required: required && default_val.json is None && !(arg_type is Flag),
                parser: parser_of(arg_type, format),
                default_value: default_shown(arg_type, default_val),
            },
        )
    }
}

/// The view of an argument or of the error in its place.
pub open spec fn plan_view(plan: Result<ArgPlan, SchemaError>) -> Result<ArgPlanView, SchemaError> {
    match plan {
        Ok(p) => Ok(p@),
        Err(e) => Err(e),
    }
}

/// Makes the argument of an option.
pub fn setup_arg(
    arg_type: ArgType,
    format: Option<ArgFormat>,
    required: bool,
    global: bool,
    flag_name: String,
    arg_id: String,
    default_val: &DefaultValue,
) -> (plan: Result<ArgPlan, SchemaError>)
    ensures
        plan_view(plan) == arg_plan(arg_type, format, required, global, flag_name@, arg_id@, default_val@),
{
    let parser = match arg_type {
        ArgType::Integer => match format {
            Some(ArgFormat::Uint) => ValueParser::Usize,
            Some(ArgFormat::Uint8) => ValueParser::U8,
            Some(ArgFormat::Uint16) => ValueParser::U16,
            None => ValueParser::I32,
        },
        ArgType::Flag => ValueParser::Flag,
        ArgType::Text => ValueParser::Text,
        _ => {
            return Err(SchemaError::InvalidValueType);
        },
    };
    let is_flag = match arg_type {
        ArgType::Flag => true,
        _ => false,
    };
    let default_value = match arg_type {
        ArgType::Integer => default_val.json.clone(),
        ArgType::Flag => if default_val.is_true {
            Some("true".to_owned())
        } else {
            None
        },
        _ => if default_val.json.is_some() {
            if default_val.text.is_none() {
                return Err(SchemaError::DefaultNotText);
            }
            default_val.text.clone()
        } else {
            None
        },
    };
    let shown = value_name(flag_name.as_str());
    Ok(
        ArgPlan {
            id: arg_id,
            long: flag_name,
            value_name: shown,
            global,
            display_order: if global {
                0
            } else {
                1
            },
            help_heading: if global {
                Some("GLOBAL".to_owned())
            } else {
                None
            },
            required: required && default_val.json.is_none() && !is_flag,
            parser,
            default_value,
        },
    )
}

/// The definition of one option.
#[derive(Debug)]
pub struct ArgDef {
    pub arg_type: ArgType,
    /// The parts of an option that has parts.
    pub properties: Option<Vec<Property>>,
    /// The keys of the parts that have to be given.
    pub required: Option<Vec<String>>,
    pub format: Option<ArgFormat>,
}

/// One option of a schema under its key. An option whose definition could
/// not be read has none.
#[derive(Debug)]
pub struct Property {
    pub key: String,
    pub def: Option<ArgDef>,
}

/// The defaults of the part with the given name; of several parts with the
/// name, the first.
pub open spec fn member_named(members: Seq<DefaultMember>, name: Seq<char>) -> Option<Defaults>
    decreases members.len(),
{
    if members.len() == 0 {
        None
    } else if members[0].name@ == name {
        Some(members[0].defaults)
    } else {
        member_named(members.drop_first(), name)
    }
}

/// The defaults of the part of an option with the given key. What has no
/// defaults has none for its parts.
pub open spec fn child_defaults(defaults: Option<Defaults>, key: Seq<char>) -> Option<Defaults> {
    match defaults {
        Some(d) => member_named(d.members@, key),
        None => None,
    }
}

/// The default of an option; null where there are no defaults.
pub open spec fn default_of(defaults: Option<Defaults>) -> DefaultValueView {
    match defaults {
        Some(d) => d.value@,
        None => DefaultValueView { json: None, text: None, is_true: false },
    }
}

/// The keys that an option with parts requires.
pub open spec fn required_of(required: Option<Vec<String>>) -> Seq<Seq<char>> {
    match required {
        Some(r) => texts(r@),
        None => Seq::empty(),
    }
}

/// The arguments of a list of options, in the order of the options, or the
/// first error that the options give.
pub open spec fn schema_args(
    props: Seq<Property>,
    defaults: Option<Defaults>,
    flag_prefix: Option<Seq<char>>,
    id_prefix: Option<Seq<char>>,
    required: Seq<Seq<char>>,
    global: bool,
) -> Result<Seq<ArgPlanView>, SchemaError>
    decreases props, 0nat,
{
    if props.len() == 0 {
        Ok(Seq::empty())
    } else {
        match schema_args(props.drop_last(), defaults, flag_prefix, id_prefix, required, global) {
            Err(e) => Err(e),
            Ok(before) => match property_args(
                props.last(),
                defaults,
                flag_prefix,
                id_prefix,
                required,
                global,
            ) {
                Err(e) => Err(e),
                Ok(own) => Ok(before + own),
            },
        }
    }
}

/// The arguments of one option: its own argument, or the arguments of its
/// parts where it has parts. The flags and identifiers of the parts begin
/// with those of the option, and their defaults are looked up under the
/// option's key.
pub open spec fn property_args(
    prop: Property,
    defaults: Option<Defaults>,
    flag_prefix: Option<Seq<char>>,
    id_prefix: Option<Seq<char>>,
    required: Seq<Seq<char>>,
    global: bool,
) -> Result<Seq<ArgPlanView>, SchemaError>
    decreases prop, 1nat,
{
    match prop.def {
        None => Err(SchemaError::InvalidDefinition),
        Some(def) => {
            let flag = flag_name_of(flag_prefix, prop.key@);
            let id = arg_id_of(id_prefix, prop.key@);
            let own_defaults = child_defaults(defaults, prop.key@);
            if def.arg_type is Object {
                match def.properties {
                    None => Err(SchemaError::MissingProperties),
                    Some(parts) => schema_args(
                        parts@,
                        own_defaults,
                        Some(flag),
                        Some(id),
                        required_of(def.required),
                        global,
                    ),
                }
            } else {
                match arg_plan(
                    def.arg_type,
                    def.format,
                    required.contains(prop.key@),
                    global,
                    flag,
                    id,
                    default_of(own_defaults),
                ) {
                    Err(e) => Err(e),
                    Ok(plan) => Ok(seq![plan]),
                }
            }
        },
    }
}

/// The views of a list of arguments.
pub open spec fn plans_of(plans: Seq<ArgPlan>) -> Seq<ArgPlanView> {
    plans.map_values(|p: ArgPlan| p@)
}

/// The views of a list of arguments or the error in its place.
pub open spec fn plans_view(plans: Result<Vec<ArgPlan>, SchemaError>) -> Result<Seq<ArgPlanView>, SchemaError> {
    match plans {
        Ok(p) => Ok(plans_of(p@)),
        Err(e) => Err(e),
    }
}

/// The view of optional defaults.
pub open spec fn defaults_view(defaults: Option<&Defaults>) -> Option<Defaults> {
    match defaults {
        Some(d) => Some(*d),
        None => None,
    }
}

fn find_defaults<'a>(defaults: Option<&'a Defaults>, key: &str) -> (found: Option<&'a Defaults>)
    ensures
        defaults_view(found) == child_defaults(defaults_view(defaults), key@),
{
    match defaults {
        None => None,
        Some(d) => {
            let mut i: usize = 0;
            assert(d.members@.skip(0) == d.members@);
            while i < d.members.len()
                invariant
                    0 <= i <= d.members.len(),
                    defaults_view(defaults) == Some(*d),
                    member_named(d.members@, key@) == member_named(d.members@.skip(i as int), key@),
                decreases d.members.len() - i,
            {
                assert(d.members@.skip(i as int).drop_first() == d.members@.skip(i as int + 1));
                assert(d.members@.skip(i as int)[0] == d.members@[i as int]);
                if same_text(d.members[i].name.as_str(), key) {
                    return Some(&d.members[i].defaults);
                }
                i = i + 1;
            }
            None
        },
    }
}

fn is_required(required: &Vec<String>, key: &str) -> (found: bool)
    ensures
        found == texts(required@).contains(key@),
{
    let mut i: usize = 0;
    while i < required.len()
        invariant
            0 <= i <= required.len(),
            forall|k: int| 0 <= k < i ==> texts(required@)[k] != key@,
        decreases required.len() - i,
    {
        if same_text(required[i].as_str(), key) {
            assert(texts(required@)[i as int] == key@);
            return true;
        }
        i = i + 1;
    }
    false
}

/// Makes the arguments of a list of options.
///
/// Every option gives one argument, except an option with parts, which gives
/// the arguments of its parts. The arguments come in the order of the
/// options. The first option of which no argument can be made ends the work
/// with its error.
pub fn add_args_from_schema(
    props: &Vec<Property>,
    defaults: Option<&Defaults>,
    flag_prefix: Option<&str>,
    id_prefix: Option<&str>,
    required: &Vec<String>,
    global: bool,
) -> (plans: Result<Vec<ArgPlan>, SchemaError>)
    ensures
        plans_view(plans) == schema_args(
            props@,
            defaults_view(defaults),
            option_str_text(flag_prefix),
            option_str_text(id_prefix),
            texts(required@),
            global,
        ),
    decreases props,
{
    let ghost d = defaults_view(defaults);
    let ghost fp = option_str_text(flag_prefix);
    let ghost ip = option_str_text(id_prefix);
    let ghost req = texts(required@);
    let mut plans: Vec<ArgPlan> = Vec::new();
    let mut i: usize = 0;
    assert(props@.take(0) == Seq::<Property>::empty());
    assert(plans_of(plans@) == Seq::<ArgPlanView>::empty());
    while i < props.len()
        invariant
            0 <= i <= props.len(),
            d == defaults_view(defaults),
            fp == option_str_text(flag_prefix),
            ip == option_str_text(id_prefix),
            req == texts(required@),
            schema_args(props@.take(i as int), d, fp, ip, req, global) == Ok::<Seq<ArgPlanView>, SchemaError>(
                plans_of(plans@),
            ),
        decreases props.len() - i,
    {
        let ghost next = props@.take(i as int + 1);
        let ghost before = plans_of(plans@);
        proof {
            assert(next.drop_last() == props@.take(i as int));
            assert(next.last() == props@[i as int]);
            assert(schema_args(next, d, fp, ip, req, global) == match property_args(
                props@[i as int],
                d,
                fp,
                ip,
                req,
                global,
            ) {
                Err(e) => Err::<Seq<ArgPlanView>, SchemaError>(e),
                Ok(own) => Ok(before + own),
            });
        }
        let prop = &props[i];
        let own: Result<Vec<ArgPlan>, SchemaError> = match &prop.def {
            None => Err(SchemaError::InvalidDefinition),
            Some(def) => {
                let flag = flag_name(flag_prefix, prop.key.as_str());
                let id = arg_id(id_prefix, prop.key.as_str());
                let own_defaults = find_defaults(defaults, prop.key.as_str());
                let is_object = match def.arg_type {
                    ArgType::Object => true,
                    _ => false,
                };
                if is_object {
                    match &def.properties {
                        None => Err(SchemaError::MissingProperties),
                        Some(parts) => {
                            match &def.required {
                                Some(r) => add_args_from_schema(
                                    parts,
                                    own_defaults,
                                    Some(flag.as_str()),
                                    Some(id.as_str()),
                                    r,
                                    global,
                                ),
                                None => {
                                    let no_keys: Vec<String> = Vec::new();
                                    assert(texts(no_keys@) == Seq::<Seq<char>>::empty());
                                    add_args_from_schema(
                                        parts,
                                        own_defaults,
                                        Some(flag.as_str()),
                                        Some(id.as_str()),
                                        &no_keys,
                                        global,
                                    )
                                },
                            }
                        },
                    }
                } else {
                    let null_default = DefaultValue { json: None, text: None, is_true: false };
                    let default_val = match own_defaults {
                        Some(found) => &found.value,
                        None => &null_default,
                    };
                    match setup_arg(
                        def.arg_type,
                        def.format,
                        is_required(required, prop.key.as_str()),
                        global,
                        flag,
                        id,
                        default_val,
                    ) {
                        Ok(plan) => {
                            let mut one: Vec<ArgPlan> = Vec::new();
                            one.push(plan);
                            assert(plans_of(one@) == seq![plan@]);
                            Ok(one)
                        },
                        Err(e) => Err(e),
                    }
                }
            },
        };
        assert(plans_view(own) == property_args(props@[i as int], d, fp, ip, req, global));
        match own {
            Ok(mut more) => {
                let ghost added = plans_of(more@);
                plans.append(&mut more);
                assert(plans_of(plans@) == before + added);
            },
            Err(e) => {
                proof {
                    lemma_schema_error_stays(props@, i as int + 1, d, fp, ip, req, global);
                }
                return Err(e);
            },
        }
        i = i + 1;
    }
    assert(props@.take(i as int) == props@);
    Ok(plans)
}

/// Where the first options of a list give an error, the whole list gives
/// that error.
pub proof fn lemma_schema_error_stays(
    props: Seq<Property>,
    n: int,
    defaults: Option<Defaults>,
    flag_prefix: Option<Seq<char>>,
    id_prefix: Option<Seq<char>>,
    required: Seq<Seq<char>>,
    global: bool,
)
    requires
        0 <= n <= props.len(),
        schema_args(props.take(n), defaults, flag_prefix, id_prefix, required, global) is Err,
    ensures
        schema_args(props, defaults, flag_prefix, id_prefix, required, global) == schema_args(
            props.take(n),
            defaults,
            flag_prefix,
            id_prefix,
            required,
            global,
        ),
    decreases props.len() - n,
{
    if n == props.len() {
        assert(props.take(n) == props);
    } else {
        assert(props.take(n + 1).drop_last() == props.take(n));
        lemma_schema_error_stays(props, n + 1, defaults, flag_prefix, id_prefix, required, global);
    }
}

/// The definition of one command: its type, as the configuration spells
/// it, and its options.
#[derive(Debug)]
pub struct CommandDef {
    pub command_type: String,
    pub props: Vec<Property>,
    pub required: Option<Vec<String>>,
}

/// One command of the command line with its arguments.
#[derive(Debug)]
pub struct CommandPlan {
    pub name: String,
    pub args: Vec<ArgPlan>,
}

/// The whole command line: the commands, and the arguments that every
/// command takes.
#[derive(Debug)]
pub struct CliPlan {
    pub commands: Vec<CommandPlan>,
    pub globals: Vec<ArgPlan>,
}

pub struct CommandPlanView {
    pub name: Seq<char>,
    pub args: Seq<ArgPlanView>,
}

pub struct CliPlanView {
    pub commands: Seq<CommandPlanView>,
    pub globals: Seq<ArgPlanView>,
}

impl View for CommandPlan {
    type V = CommandPlanView;

    open spec fn view(&self) -> CommandPlanView {
        CommandPlanView { name: self.name@, args: plans_of(self.args@) }
    }
}

impl View for CliPlan {
    type V = CliPlanView;

    open spec fn view(&self) -> CliPlanView {
        CliPlanView {
            commands: self.commands@.map_values(|c: CommandPlan| c@),
            globals: plans_of(self.globals@),
        }
    }
}

/// One command of the command line: it is named after its type, with `-`
/// for `_`; its arguments are those of its options, with identifiers that
/// begin with `command__` and defaults that stand under `command`. None of
/// them is global.
pub open spec fn command_plan(def: CommandDef, defaults: Option<Defaults>) -> Result<CommandPlanView, SchemaError> {
    match schema_args(
        def.props@,
        child_defaults(defaults, "command"@),
        None,
        Some("command"@),
        required_of(def.required),
        false,
    ) {
        Err(e) => Err(e),
        Ok(args) => Ok(CommandPlanView { name: replaced(def.command_type@, '_', "-"@), args }),
    }
}

/// The commands of a list of definitions, in their order, or the first
/// error that the definitions give.
pub open spec fn command_plans(commands: Seq<Option<CommandDef>>, defaults: Option<Defaults>) -> Result<
    Seq<CommandPlanView>,
    SchemaError,
>
    decreases commands.len(),
{
    if commands.len() == 0 {
        Ok(Seq::empty())
    } else {
        match command_plans(commands.drop_last(), defaults) {
            Err(e) => Err(e),
            Ok(before) => match commands.last() {
                None => Err(SchemaError::InvalidCommand),
                Some(def) => match command_plan(def, defaults) {
                    Err(e) => Err(e),
                    Ok(plan) => Ok(before.push(plan)),
                },
            },
        }
    }
}

/// The whole command line of a schema: first the commands, then the
/// arguments of the options that belong to no command. Those are global,
/// and none of them is required.
pub open spec fn cli_plan(
    commands: Seq<Option<CommandDef>>,
    props: Seq<Property>,
    defaults: Option<Defaults>,
) -> Result<CliPlanView, SchemaError> {
    match command_plans(commands, defaults) {
        Err(e) => Err(e),
        Ok(plans) => match schema_args(props, defaults, None, None, Seq::empty(), true) {
            Err(e) => Err(e),
            Ok(globals) => Ok(CliPlanView { commands: plans, globals }),
        },
    }
}

/// The view of a command line or of the error in its place.
pub open spec fn cli_view(plan: Result<CliPlan, SchemaError>) -> Result<CliPlanView, SchemaError> {
    match plan {
        Ok(p) => Ok(p@),
        Err(e) => Err(e),
    }
}

/// Makes the command line of a schema: the commands that it defines and the
/// arguments of its other options.
pub fn add_args_from_root_schema(
    commands: &Vec<Option<CommandDef>>,
    props: &Vec<Property>,
    defaults: Option<&Defaults>,
) -> (plan: Result<CliPlan, SchemaError>)
    ensures
        cli_view(plan) == cli_plan(commands@, props@, defaults_view(defaults)),
{
    let ghost d = defaults_view(defaults);
    let command_defaults = find_defaults(defaults, "command");
    let mut plans: Vec<CommandPlan> = Vec::new();
    let mut i: usize = 0;
    assert(commands@.take(0) == Seq::<Option<CommandDef>>::empty());
    assert(plans@.map_values(|c: CommandPlan| c@) == Seq::<CommandPlanView>::empty());
    while i < commands.len()
        invariant
            0 <= i <= commands.len(),
            d == defaults_view(defaults),
            defaults_view(command_defaults) == child_defaults(d, "command"@),
            command_plans(commands@.take(i as int), d) == Ok::<Seq<CommandPlanView>, SchemaError>(
                plans@.map_values(|c: CommandPlan| c@),
            ),
        decreases commands.len() - i,
    {
        let ghost before = plans@.map_values(|c: CommandPlan| c@);
        proof {
            let next = commands@.take(i as int + 1);
            assert(next.drop_last() == commands@.take(i as int));
            assert(next.last() == commands@[i as int]);
        }
        let made: Result<CommandPlan, SchemaError> = match &commands[i] {
            None => Err(SchemaError::InvalidCommand),
            Some(def) => {
                let name = command_name(def.command_type.as_str());
                let args = match &def.required {
                    Some(r) => add_args_from_schema(&def.props, command_defaults, None, Some("command"), r, false),
                    None => {
                        let no_keys: Vec<String> = Vec::new();
                        assert(texts(no_keys@) == Seq::<Seq<char>>::empty());
                        add_args_from_schema(
                            &def.props,
                            command_defaults,
                            None,
                            Some("command"),
                            &no_keys,
                            false,
                        )
                    },
                };
                match args {
                    Ok(args) => Ok(CommandPlan { name, args }),
                    Err(e) => Err(e),
                }
            },
        };
        match made {
            Ok(plan) => {
                plans.push(plan);
                assert(plans@.map_values(|c: CommandPlan| c@) == before.push(plan@));
            },
            Err(e) => {
                proof {
                    lemma_command_error_stays(commands@, i as int + 1, d);
                }
                return Err(e);
            },
        }
        i = i + 1;
    }
    assert(commands@.take(i as int) == commands@);
    let no_keys: Vec<String> = Vec::new();
    assert(texts(no_keys@) == Seq::<Seq<char>>::empty());
    match add_args_from_schema(props, defaults, None, None, &no_keys, true) {
        Ok(globals) => Ok(CliPlan { commands: plans, globals }),
        Err(e) => Err(e),
    }
}

/// Where the first definitions of a list give an error, the whole list
/// gives that error.
pub proof fn lemma_command_error_stays(commands: Seq<Option<CommandDef>>, n: int, defaults: Option<Defaults>)
    requires
        0 <= n <= commands.len(),
        command_plans(commands.take(n), defaults) is Err,
    ensures
        command_plans(commands, defaults) == command_plans(commands.take(n), defaults),
    decreases commands.len() - n,
{
    if n == commands.len() {
        assert(commands.take(n) == commands);
    } else {
        assert(commands.take(n + 1).drop_last() == commands.take(n));
        lemma_command_error_stays(commands, n + 1, defaults);
    }
}

/// The parts of the text from `start` on that `__` separates, where no `__`
/// begins between `start` and `at`.
pub open spec fn parts_from(text: Seq<char>, start: int, at: int) -> Seq<Seq<char>>
    decreases text.len() - at,
{
    if at + 1 >= text.len() {
        seq![text.subrange(start, text.len() as int)]
    } else if text[at] == '_' && text[at + 1] == '_' {
        seq![text.subrange(start, at)] + parts_from(text, at + 2, at + 2)
    } else {
        parts_from(text, start, at + 1)
    }
}

/// The path that a composite key names: the parts between each `__` and the
/// next, taken from the left.
pub open spec fn key_path(key: Seq<char>) -> Seq<Seq<char>> {
    parts_from(key, 0, 0)
}

/// Splits a composite key into the path that it names.
pub fn split_composite_key(key: &str) -> (path: Vec<String>)
    ensures
        texts(path@) == key_path(key@),
        path@.len() >= 1,
{
    let n = key.unicode_len();
    let mut path: Vec<String> = Vec::new();
    let mut start: usize = 0;
    let mut at: usize = 0;
    assert(texts(path@) == Seq::<Seq<char>>::empty());
    while at < n && at + 1 < n
        invariant
            0 <= start <= at,
            start <= n,
            n == key@.len(),
            key_path(key@) == texts(path@) + parts_from(key@, start as int, at as int),
        decreases n - at,
    {
        if key.get_char(at) == '_' && key.get_char(at + 1) == '_' {
            let ghost before = texts(path@);
            path.push(key.substring_char(start, at).to_owned());
            assert(texts(path@) == before.push(key@.subrange(start as int, at as int)));
            at = at + 2;
            start = at;
        } else {
            at = at + 1;
        }
    }
    let ghost before = texts(path@);
    path.push(key.substring_char(start, n).to_owned());
    assert(texts(path@) == before.push(key@.subrange(start as int, n as int)));
    path
}

} // verus!
