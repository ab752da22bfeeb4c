//! The command line of an application: what the parser found, as the
//! application is told it.

use crate::json::JsonValue;
use crate::text::str_eq;
use vstd::prelude::*;
use vstd::string::*;

verus! {

/// An argument as the configuration declares it.
#[derive(Debug, PartialEq, Eq)]
pub struct CliArg {
    /// The name of the argument.
    pub name: String,
    /// Whether the argument takes a value.
    pub takes_value: Option<bool>,
    /// Whether the argument takes several values.
    pub multiple: Option<bool>,
}

/// A command line as the configuration declares it.
#[derive(Debug, PartialEq, Eq)]
pub struct CliConfig {
    /// The arguments of the command.
    pub args: Option<Vec<CliArg>>,
    /// The subcommands of the command, by name.
    pub subcommands: Option<Vec<(String, CliConfig)>>,
}

/// What the parser found of one argument.
#[derive(Debug, PartialEq, Eq)]
pub struct ParsedArg {
    /// The name of the argument.
    pub name: String,
    /// How often the argument occurred.
    pub occurrences: u64,
    /// The values that it was given, if any.
    pub values: Option<Vec<String>>,
}

/// What the parser found of a command line.
#[derive(Debug, PartialEq, Eq)]
pub struct ArgMatches {
    /// What was found of the arguments that occurred.
    pub args: Vec<ParsedArg>,
    /// The subcommand that was given, with what was found of it.
    pub subcommand: Option<(String, Vec<ParsedArg>)>,
}

/// Why a command line was not parsed.
#[derive(Clone, Copy, Debug, PartialEq, Eq, Structural)]
pub enum ErrorKind {
    /// The help was asked for.
    DisplayHelp,
    /// The version was asked for.
    DisplayVersion,
    /// The command line is wrong.
    Other,
}

/// A refusal of the parser: its kind, and its text.
#[derive(Clone, Debug, PartialEq, Eq)]
pub struct ParseError {
    pub kind: ErrorKind,
    pub text: String,
}

/// The resolution of a arg match.
#[derive(Debug, PartialEq, Eq)]
pub struct ArgData {
    /// The value of the arg.
    /// - Value::Bool if it's a flag,
    /// - Value::Array if it's multiple,
    /// - Value::String if it has value,
    /// - Value::Null otherwise.
    pub value: JsonValue,
    /// The number of occurrences of the arg.
    /// e.g. `./app --arg 1 --arg 2 --arg 2 3 4` results in three occurrences.
    pub occurrences: u64,
}

/// The matched subcommand.
#[derive(Debug, PartialEq, Eq)]
pub struct SubcommandMatches {
    /// The subcommand name.
    pub name: String,
    /// The subcommand arg matches.
    pub matches: Matches,
}

/// The arg matches of a command.
#[derive(Debug, PartialEq, Eq)]
pub struct Matches {
    /// Each found arg with its resolution, in the order in which the
    /// configuration declares the args. Where a name stands twice, the
    /// later entry counts.
    pub args: Vec<(String, ArgData)>,
    /// The matched subcommand if found.
    pub subcommand: Option<Box<SubcommandMatches>>,
}

/// What was found of the argument `name`: the last entry of that name.
pub open spec fn found(parsed: Seq<ParsedArg>, name: Seq<char>) -> Option<ParsedArg>
    decreases parsed.len(),
{
    if parsed.len() == 0 {
        None
    } else if parsed.last().name@ == name {
        Some(parsed.last())
    } else {
        found(parsed.drop_last(), name)
    }
}

/// How often the argument `name` occurred: not at all, if nothing was found
/// of it.
pub open spec fn occurrences_of(parsed: Seq<ParsedArg>, name: Seq<char>) -> u64 {
    match found(parsed, name) {
        Some(arg) => arg.occurrences,
        None => 0,
    }
}

/// The values that the argument `name` was given.
pub open spec fn values_of(parsed: Seq<ParsedArg>, name: Seq<char>) -> Option<Vec<String>> {
    match found(parsed, name) {
        Some(arg) => arg.values,
        None => None,
    }
}

/// Whether `value` is the resolution of an argument:
/// - for an argument that did not occur or takes no value, whether it
///   occurred;
/// - for one that takes several values, the values it was given, in their
///   order;
/// - for one that takes one value, the first value it was given;
/// - nothing where a value is taken and none was given.
pub open spec fn resolves(arg: CliArg, parsed: Seq<ParsedArg>, value: JsonValue) -> bool {
    let occurrences = occurrences_of(parsed, arg.name@);
    if occurrences == 0 || !(arg.takes_value == Some(true)) {
        value == JsonValue::Bool(occurrences > 0)
    } else {
        match values_of(parsed, arg.name@) {
            None => value is Null,
            Some(values) => if arg.multiple == Some(true) {
                value matches JsonValue::Array(items) && items@.len() == values@.len()
                    && forall|i: int|
                    0 <= i < values@.len() ==> (#[trigger] items@[i]) is String
                        && items@[i]->String_0 == values@[i]
            } else if values@.len() > 0 {
                value == JsonValue::String(values@[0])
            } else {
                value is Null
            },
        }
    }
}

/// Whether `matches` are the resolutions of the args of a configuration,
/// in the order in which it declares them.
pub open spec fn maps(args: Seq<CliArg>, parsed: Seq<ParsedArg>, matches: Seq<(String, ArgData)>)
    -> bool {
    &&& matches.len() == args.len()
    &&& forall|i: int|
        0 <= i < args.len() ==> {
            &&& (#[trigger] matches[i]).0 == args[i].name
            &&& matches[i].1.occurrences == occurrences_of(parsed, args[i].name@)
            &&& resolves(args[i], parsed, matches[i].1.value)
        }
}

/// The args that a configuration declares.
pub open spec fn declared(config: CliConfig) -> Seq<CliArg> {
    match config.args {
        Some(args) => args@,
        None => Seq::empty(),
    }
}

/// The configuration of the subcommand `name`: the last of that name.
pub open spec fn subcommand_of(subcommands: Seq<(String, CliConfig)>, name: Seq<char>) -> Option<
    CliConfig,
>
    decreases subcommands.len(),
{
    if subcommands.len() == 0 {
        None
    } else if subcommands.last().0@ == name {
        Some(subcommands.last().1)
    } else {
        subcommand_of(subcommands.drop_last(), name)
    }
}

/// The configuration of the subcommand `name` of a command.
pub open spec fn configured_subcommand(config: CliConfig, name: Seq<char>) -> Option<CliConfig> {
    match config.subcommands {
        Some(subcommands) => subcommand_of(subcommands@, name),
        None => None,
    }
}

/// Looks up what was found of an argument.
fn find<'a>(parsed: &'a Vec<ParsedArg>, name: &str) -> (arg: Option<&'a ParsedArg>)
    ensures
        match arg {
            Some(a) => found(parsed@, name@) == Some(*a),
            None => found(parsed@, name@) is None,
        },
{
    let mut i: usize = parsed.len();
    assert(parsed@.take(i as int) =~= parsed@);
    while i > 0
        invariant
            i <= parsed@.len(),
            found(parsed@, name@) == found(parsed@.take(i as int), name@),
        decreases i,
    {
        let ghost prefix = parsed@.take(i as int);
        assert(prefix.last() == parsed@[i - 1]);
        assert(prefix.drop_last() =~= parsed@.take(i - 1));
        if str_eq(parsed[i - 1].name.as_str(), name) {
            return Some(&parsed[i - 1]);
        }
        i = i - 1;
    }
    None
}

/// Looks up the configuration of a subcommand.
fn find_subcommand<'a>(subcommands: &'a Vec<(String, CliConfig)>, name: &str) -> (config: Option<
    &'a CliConfig,
>)
    ensures
        match config {
            Some(c) => subcommand_of(subcommands@, name@) == Some(*c),
            None => subcommand_of(subcommands@, name@) is None,
        },
{
    let mut i: usize = subcommands.len();
    assert(subcommands@.take(i as int) =~= subcommands@);
    while i > 0
        invariant
            i <= subcommands@.len(),
            subcommand_of(subcommands@, name@) == subcommand_of(
                subcommands@.take(i as int),
                name@,
            ),
        decreases i,
    {
        let ghost prefix = subcommands@.take(i as int);
        assert(prefix.last() == subcommands@[i - 1]);
        assert(prefix.drop_last() =~= subcommands@.take(i - 1));
        if str_eq(subcommands[i - 1].0.as_str(), name) {
            return Some(&subcommands[i - 1].1);
        }
        i = i - 1;
    }
    None
}

/// Resolves one argument.
fn resolve(arg: &CliArg, parsed: &Vec<ParsedArg>) -> (data: ArgData)
    ensures
        data.occurrences == occurrences_of(parsed@, arg.name@),
        resolves(*arg, parsed@, data.value),
{
    let entry = find(parsed, arg.name.as_str());
    let occurrences: u64 = match entry {
        Some(entry) => entry.occurrences,
        None => 0,
    };
    let takes_value = match arg.takes_value {
        Some(takes) => takes,
        None => false,
    };
    let multiple = match arg.multiple {
        Some(multiple) => multiple,
        None => false,
    };
    let value = if occurrences == 0 || !takes_value {
        JsonValue::Bool(occurrences > 0)
    } else {
        let given = match entry {
            Some(entry) => match &entry.values {
                Some(values) => Some(values),
                None => None,
            },
            None => None,
        };
        match given {
            None => JsonValue::Null,
            Some(given) => {
                if multiple {
                    let mut values: Vec<JsonValue> = Vec::new();
                    let mut i: usize = 0;
                    while i < given.len()
                        invariant
                            i <= given@.len(),
                            values@.len() == i,
                            forall|j: int|
                                0 <= j < i ==> (#[trigger] values@[j]) is String
                                    && values@[j]->String_0 == given@[j],
                        decreases given@.len() - i,
                    {
                        values.push(JsonValue::String(given[i].clone()));
                        i = i + 1;
                    }
                    JsonValue::Array(values)
                } else if given.len() > 0 {
                    JsonValue::String(given[0].clone())
                } else {
                    JsonValue::Null
                }
            },
        }
    };
    ArgData { value, occurrences }
}

/// Resolves the args of a configuration.
fn map_matches(config: &CliConfig, parsed: &Vec<ParsedArg>) -> (matches: Vec<(String, ArgData)>)
    ensures
        maps(declared(*config), parsed@, matches@),
{
    let mut cli_matches: Vec<(String, ArgData)> = Vec::new();
    if let Some(args) = &config.args {
        let mut i: usize = 0;
        while i < args.len()
            invariant
                i <= args@.len(),
                maps(args@.take(i as int), parsed@, cli_matches@),
            decreases args@.len() - i,
        {
            let data = resolve(&args[i], parsed);
            cli_matches.push((args[i].name.clone(), data));
            proof {
                let next = args@.take(i + 1);
                assert forall|k: int| 0 <= k < next.len() implies {
                    &&& (#[trigger] cli_matches@[k]).0 == next[k].name
                    &&& cli_matches@[k].1.occurrences == occurrences_of(parsed@, next[k].name@)
                    &&& resolves(next[k], parsed@, cli_matches@[k].1.value)
                } by {
                    if k < i {
                        assert(args@.take(i as int)[k] == next[k]);
                    }
                }
            }
            i = i + 1;
        }
        assert(args@.take(i as int) =~= args@);
    }
    cli_matches
}

impl Matches {
    /// No arg and no subcommand.
    pub fn default() -> (matches: Matches)
        ensures
            matches.args@.len() == 0,
            matches.subcommand is None,
    {
        Matches { args: Vec::new(), subcommand: None }
    }

    /// Set a arg match.
    pub fn set_arg(&mut self, name: String, value: ArgData)
        ensures
            final(self).args@ == old(self).args@.push((name, value)),
            final(self).subcommand == old(self).subcommand,
    {
        self.args.push((name, value));
    }

    /// Sets the subcommand matches.
    pub fn set_subcommand(&mut self, name: String, matches: Matches)
        ensures
            final(self).args == old(self).args,
            final(self).subcommand == Some(Box::new(SubcommandMatches { name, matches })),
    {
        self.subcommand = Some(Box::new(SubcommandMatches { name, matches }));
    }
}

/// Whether `matches` are what was found of a command line: the
/// resolutions of the args that the configuration declares, and of the
/// subcommand that was given those of the args that its own configuration
/// declares.
pub open spec fn matched(config: CliConfig, parsed: ArgMatches, matches: Matches) -> bool {
    &&& maps(declared(config), parsed.args@, matches.args@)
    &&& match parsed.subcommand {
        None => matches.subcommand is None,
        Some((name, found)) => matches.subcommand matches Some(sub) && sub.name == name
            && sub.matches.subcommand is None && maps(
            declared(configured_subcommand(config, name@)->0),
            found@,
            sub.matches.args@,
        ),
    }
}

/// Tells an application what the parser found of its command line.
///
/// A subcommand that was given is one that the configuration declares.
pub fn get_matches_internal(config: &CliConfig, matches: &ArgMatches) -> (cli_matches: Matches)
    requires
        matches.subcommand matches Some((name, _)) ==> configured_subcommand(*config, name@)
            is Some,
    ensures
        matched(*config, *matches, cli_matches),
{
    let mut cli_matches = Matches { args: map_matches(config, &matches.args), subcommand: None };
    if let Some((subcommand_name, subcommand_matches)) = &matches.subcommand {
        let subcommand_config = match &config.subcommands {
            Some(subcommands) => find_subcommand(subcommands, subcommand_name.as_str()),
            None => None,
        };
        match subcommand_config {
            Some(subcommand_config) => {
                let subcommand_cli_matches = Matches {
                    args: map_matches(subcommand_config, subcommand_matches),
                    subcommand: None,
                };
                cli_matches.set_subcommand(subcommand_name.clone(), subcommand_cli_matches);
            },
            None => {},
        }
    }
    cli_matches
}

/// Gets the arg matches of the CLI definition, from what the parser made
/// of the command line.
///
/// A command line that asks for the help is answered with the one arg
/// `help`, whose value is the help text, and one that asks for the version
/// with the one arg `version`, without a value; neither occurred. Any
/// other refusal of the parser is passed on.
pub fn get_matches(cli: &CliConfig, parsed: Result<ArgMatches, ParseError>) -> (r: Result<
    Matches,
    ParseError,
>)
    requires
        parsed matches Ok(matches) ==> (matches.subcommand matches Some((name, _))
            ==> configured_subcommand(*cli, name@) is Some),
    ensures
        match parsed {
            Ok(found) => r matches Ok(matches) && matched(*cli, found, matches),
            Err(e) => match e.kind {
                ErrorKind::DisplayHelp => r matches Ok(matches) && matches.subcommand is None
                    && matches.args@.len() == 1 && matches.args@[0].0@ == "help"@
                    && matches.args@[0].1 == (ArgData {
                    value: JsonValue::String(e.text),
                    occurrences: 0,
                }),
                ErrorKind::DisplayVersion => r matches Ok(matches) && matches.subcommand is None
                    && matches.args@.len() == 1 && matches.args@[0].0@ == "version"@
                    && matches.args@[0].1 == (ArgData { value: JsonValue::Null, occurrences: 0 }),
                ErrorKind::Other => r == Err::<Matches, ParseError>(e),
            },
        },
{
    match parsed {
        Ok(matches) => Ok(get_matches_internal(cli, &matches)),
        Err(e) => match e.kind {
            ErrorKind::DisplayHelp => {
                let mut matches = Matches::default();
                let help_text = e.text;
                matches.set_arg(
                    String::from_str("help"),
                    ArgData { value: JsonValue::String(help_text), occurrences: 0 },
                );
                Ok(matches)
            },
            ErrorKind::DisplayVersion => {
                let mut matches = Matches::default();
                matches.set_arg(
                    String::from_str("version"),
                    ArgData { value: JsonValue::Null, occurrences: 0 },
                );
                Ok(matches)
            },
            ErrorKind::Other => Err(e),
        },
    }
}

} // verus!
