//! The command line.
use vstd::prelude::*;

use crate::recording::config::{McapCompression, McapWriteConfig, DEFAULT_FLUSH_INTERVAL_SECS};
use crate::text::{join_texts, same_text, split_once};
use crate::text_map::TextMap;

verus! {

/// What is done when an option is given.
#[derive(Debug, Clone, Copy, PartialEq, Eq, Structural)]
pub enum OptionAction {
    /// It is set.
    Mark,
    /// Its value is taken.
    Take,
    /// Its values are added to those that it has.
    Collect,
}

/// An option of the command line. With `choices` its values must be among them; with
/// `is_chunk_size` they must be chunk sizes; with `min_values` it takes at least so many values each
/// time it is given.
#[derive(Debug)]
pub struct OptionSpec {
    pub long: &'static str,
    pub short: Option<char>,
    pub action: OptionAction,
    pub choices: Vec<&'static str>,
    pub is_chunk_size: bool,
    pub min_values: Option<usize>,
    pub default: Option<&'static str>,
    pub value_name: Option<&'static str>,
    pub help: &'static str,
}

/// An option, with its texts as sequences.
#[verifier::ext_equal]
pub struct OptionModel {
    pub long: Seq<char>,
    pub short: Option<char>,
    pub action: OptionAction,
    pub choices: Seq<Seq<char>>,
    pub is_chunk_size: bool,
    pub min_values: Option<usize>,
    pub default: Option<Seq<char>>,
    pub value_name: Option<Seq<char>>,
    pub help: Seq<char>,
}

/// A text, if there is one.
pub open spec fn optional_text(text: Option<&'static str>) -> Option<Seq<char>> {
    match text {
        Some(text) => Some(text@),
        None => None,
    }
}

impl View for OptionSpec {
    type V = OptionModel;

    open spec fn view(&self) -> OptionModel {
        OptionModel {
            long: self.long@,
            short: self.short,
            action: self.action,
            choices: self.choices@.map_values(|choice: &'static str| choice@),
            is_chunk_size: self.is_chunk_size,
            min_values: self.min_values,
            default: optional_text(self.default),
            value_name: optional_text(self.value_name),
            help: self.help@,
        }
    }
}

/// A command line parser: what it says of the program, and its options.
pub struct CommandModel {
    pub name: Seq<char>,
    pub version: Seq<char>,
    pub about: Seq<char>,
    pub options: Seq<OptionModel>,
}

/// What was given for each option: for flags whether they are set, for chunk sizes the number, for
/// the others their values.
pub struct MatchModel {
    pub flags: Map<Seq<char>, bool>,
    pub numbers: Map<Seq<char>, u64>,
    pub texts: Map<Seq<char>, Seq<Seq<char>>>,
}

/// The options of this program.
pub open spec fn recorder_options() -> Seq<OptionModel> {
    seq![
        OptionModel {
            long: "verbose"@,
            short: Some('v'),
            action: OptionAction::Mark,
            choices: seq![],
            is_chunk_size: false,
            min_values: None,
            default: None,
            value_name: None,
            help: "Turns all log categories up to Debug, for more information check RUST_LOG env variable"@,
        },
        OptionModel {
            long: "recorder-path"@,
            short: None,
            action: OptionAction::Take,
            choices: seq![],
            is_chunk_size: false,
            min_values: None,
            default: Some("/tmp"@),
            value_name: Some("RECORDER_PATH"@),
            help: "Sets the path where recordings will be stored"@,
        },
        OptionModel {
            long: "schema-path"@,
            short: None,
            action: OptionAction::Take,
            choices: seq![],
            is_chunk_size: false,
            min_values: None,
            default: None,
            value_name: Some("SCHEMA_PATH"@),
            help: "Sets the path for message schemas. E.g: src/external/zBlueberry/msgs"@,
        },
        OptionModel {
            long: "zkey"@,
            short: None,
            action: OptionAction::Collect,
            choices: seq![],
            is_chunk_size: false,
            min_values: Some(1),
            default: None,
            value_name: Some("KEY=VALUE"@),
            help: "Zenoh configuration key-value pairs. Can be used multiple times. Format: --zkey key=value"@,
        },
        OptionModel {
            long: "mcap-compression"@,
            short: None,
            action: OptionAction::Take,
            choices: seq!["none"@, "lz4"@, "zstd"@],
            is_chunk_size: false,
            min_values: None,
            default: Some("lz4"@),
            value_name: Some("MCAP_COMPRESSION"@),
            help: "MCAP chunk compression: lz4 (default), none, or zstd"@,
        },
        OptionModel {
            long: "mcap-crc"@,
            short: None,
            action: OptionAction::Mark,
            choices: seq![],
            is_chunk_size: false,
            min_values: None,
            default: Some("true"@),
            value_name: None,
            help: "Calculate MCAP chunk, data-section, summary, and attachment CRCs"@,
        },
        OptionModel {
            long: "mcap-chunk-size"@,
            short: None,
            action: OptionAction::Take,
            choices: seq![],
            is_chunk_size: true,
            min_values: None,
            default: Some("10485760"@),
            value_name: Some("MCAP_CHUNK_SIZE"@),
            help: "Target uncompressed MCAP chunk size in bytes before sealing"@,
        },
        OptionModel {
            long: "mcap-async-io"@,
            short: None,
            action: OptionAction::Mark,
            choices: seq![],
            is_chunk_size: false,
            min_values: None,
            default: None,
            value_name: None,
            help: "Open/flush/finish MCAP via tokio fs and the blocking thread pool"@,
        },
    ]
}

/// This program's command line.
pub open spec fn recorder_model() -> CommandModel {
    CommandModel {
        name: "blueos-recorder"@,
        version: "0.1.0"@,
        about: "Records what a vehicle publishes"@,
        options: recorder_options(),
    }
}

/// An option for a command line parser.
#[verifier::external_type_specification]
#[verifier::external_body]
pub struct ExArg(clap::Arg);

/// A command line parser.
#[verifier::external_type_specification]
#[verifier::external_body]
pub struct ExCommand(clap::Command);

/// What a command line holds.
#[verifier::external_type_specification]
#[verifier::external_body]
pub struct ExArgMatches(clap::ArgMatches);

/// Why a command line is not accepted; asking for help counts too.
#[derive(Debug)]
pub struct UsageError {
    /// What is shown.
    pub text: String,
    /// Whether it is shown as an error.
    pub use_stderr: bool,
    /// What the program ends with.
    pub exit_code: i32,
}

/// What an option is made of.
pub uninterp spec fn arg_model(arg: clap::Arg) -> OptionModel;

/// What a parser is made of.
pub uninterp spec fn command_model(command: clap::Command) -> CommandModel;

/// What a command line holds.
pub uninterp spec fn matched(matches: clap::ArgMatches) -> MatchModel;

/// What `clap` makes of a command line: what it holds, or, if it is not accepted, whether that is
/// an error.
pub uninterp spec fn clap_outcome(command: CommandModel, argv: Seq<Seq<char>>) -> Result<
    MatchModel,
    bool,
>;

/// What `clap` shows for a command line that it does not accept.
pub uninterp spec fn clap_text(command: CommandModel, argv: Seq<Seq<char>>) -> Seq<char>;

/// The option is there with as many values as it must have, and with values that it takes.
pub open spec fn is_matched(option: OptionModel, found: MatchModel) -> bool {
    if option.action == OptionAction::Mark {
        found.flags.contains_key(option.long)
    } else if option.is_chunk_size {
        option.action == OptionAction::Take && option.default is Some ==> {
            &&& found.numbers.contains_key(option.long)
            &&& exists|raw: Seq<char>| #[trigger]
                chunk_size_of(raw) == Some(found.numbers[option.long])
        }
    } else {
        &&& found.texts.contains_key(option.long)
        &&& option.action == OptionAction::Take ==> found.texts[option.long].len() <= 1
        &&& option.default is Some ==> found.texts[option.long].len() > 0
        &&& option.choices.len() > 0 ==> forall|i: int|
            0 <= i < found.texts[option.long].len() ==> option.choices.contains(
                #[trigger] found.texts[option.long][i],
            )
    }
}

/// The program's name means the same path on every system.
pub open spec fn has_plain_name(argv: Seq<Seq<char>>) -> bool {
    argv.len() > 0 ==> !argv[0].contains('\\') && !argv[0].contains(':')
}

/// `clap` was asked about this program's command line and said this.
pub closed spec fn is_shown_by_clap(argv: Seq<Seq<char>>, error: UsageError) -> bool {
    exists|command: clap::Command, args: &Vec<String>|
        {
            &&& command_model(command) == recorder_model()
            &&& args@.map_values(|arg: String| arg@) == argv
            &&& #[trigger] call_ensures(
                match_args,
                (command, args),
                Err::<clap::ArgMatches, UsageError>(error),
            )
        }
}

/// The error is what is made of a command line that is not accepted.
pub open spec fn is_refusal(argv: Seq<Seq<char>>, is_error: bool, error: UsageError) -> bool {
    &&& is_shown_by_clap(argv, error)
    &&& error.use_stderr == is_error
    &&& error.exit_code == (if is_error {
        2i32
    } else {
        0i32
    })
    &&& has_plain_name(argv) ==> error.text@ == clap_text(recorder_model(), argv)
}

/// `clap::Command::new` makes a parser without options; `version` and `about` are shown when they
/// are asked for.
#[verifier::external_body]
fn new_command(name: &'static str, version: &'static str, about: &'static str) -> (r: clap::Command)
    ensures
        command_model(r) == (CommandModel {
            name: name@,
            version: version@,
            about: about@,
            options: Seq::empty(),
        }),
{
    clap::Command::new(name).version(version).about(about)
}

/// `clap::Arg::new` with `long` makes an option that takes one value, whatever it is.
#[verifier::external_body]
fn new_arg(long: &'static str) -> (r: clap::Arg)
    ensures
        arg_model(r) == (OptionModel {
            long: long@,
            short: None,
            action: OptionAction::Take,
            choices: seq![],
            is_chunk_size: false,
            min_values: None,
            default: None,
            value_name: None,
            help: seq![],
        }),
{
    clap::Arg::new(long).long(long)
}

/// `clap::Arg::short` gives an option a short name, or none; a dash is no short name.
#[verifier::external_body]
fn with_short(arg: clap::Arg, short: Option<char>) -> (r: clap::Arg)
    requires
        short != Some('-'),
    ensures
        arg_model(r) == (OptionModel { short, ..arg_model(arg) }),
{
    arg.short(short)
}

/// `clap::Arg::action` says what is done when an option is given.
#[verifier::external_body]
fn with_action(arg: clap::Arg, action: OptionAction) -> (r: clap::Arg)
    ensures
        arg_model(r) == (OptionModel { action, ..arg_model(arg) }),
{
    arg.action(
        match action {
            OptionAction::Mark => clap::ArgAction::SetTrue,
            OptionAction::Take => clap::ArgAction::Set,
            OptionAction::Collect => clap::ArgAction::Append,
        },
    )
}

/// `clap::Arg::value_parser` with a `PossibleValuesParser` takes only the choices as values.
#[verifier::external_body]
fn with_choices(arg: clap::Arg, choices: &Vec<&'static str>) -> (r: clap::Arg)
    requires
        choices@.len() > 0,
        !arg_model(arg).is_chunk_size,
    ensures
        arg_model(r) == (OptionModel {
            choices: choices@.map_values(|choice: &'static str| choice@),
            ..arg_model(arg)
        }),
{
    arg.value_parser(clap::builder::PossibleValuesParser::new(choices.clone()))
}

/// `clap::Arg::value_parser` with `parse_chunk_size` takes only chunk sizes as values.
#[verifier::external_body]
fn with_chunk_sizes(arg: clap::Arg) -> (r: clap::Arg)
    requires
        arg_model(arg).choices.len() == 0,
    ensures
        arg_model(r) == (OptionModel { is_chunk_size: true, ..arg_model(arg) }),
{
    arg.value_parser(parse_chunk_size)
}

/// `clap::Arg::num_args` with a lower bound takes at least so many values each time.
#[verifier::external_body]
fn with_min_values(arg: clap::Arg, min_values: usize) -> (r: clap::Arg)
    ensures
        arg_model(r) == (OptionModel { min_values: Some(min_values), ..arg_model(arg) }),
{
    arg.num_args(min_values..)
}

/// `clap::Arg::default_value` gives an option the value that counts when it is not given, or none.
#[verifier::external_body]
fn with_default(arg: clap::Arg, default: Option<&'static str>) -> (r: clap::Arg)
    ensures
        arg_model(r) == (OptionModel { default: optional_text(default), ..arg_model(arg) }),
{
    arg.default_value(default)
}

/// `clap::Arg::value_name` says how the value of an option is called in help, or leaves it to
/// `clap`.
#[verifier::external_body]
fn with_value_name(arg: clap::Arg, value_name: Option<&'static str>) -> (r: clap::Arg)
    ensures
        arg_model(r) == (OptionModel { value_name: optional_text(value_name), ..arg_model(arg) }),
{
    arg.value_name(value_name)
}

/// `clap::Arg::help` says what help tells of an option.
#[verifier::external_body]
fn with_help(arg: clap::Arg, help: &'static str) -> (r: clap::Arg)
    ensures
        arg_model(r) == (OptionModel { help: help@, ..arg_model(arg) }),
{
    arg.help(help)
}

/// `clap::Command::arg` adds an option to a parser.
#[verifier::external_body]
fn with_arg(command: clap::Command, arg: clap::Arg) -> (r: clap::Command)
    ensures
        command_model(r) == (CommandModel {
            options: command_model(command).options.push(arg_model(arg)),
            ..command_model(command)
        }),
{
    command.arg(arg)
}

/// The short name is no dash, and values are not both chunk sizes and out of choices.
pub open spec fn is_plain(option: OptionModel) -> bool {
    &&& option.short != Some('-')
    &&& option.is_chunk_size ==> option.choices.len() == 0
}

/// An option for a parser.
fn arg_of(option: &OptionSpec) -> (r: clap::Arg)
    requires
        is_plain(option@),
    ensures
        arg_model(r) == option@,
{
    let mut arg = with_action(with_short(new_arg(option.long), option.short), option.action);
    if option.choices.len() > 0 {
        arg = with_choices(arg, &option.choices);
    }
    if option.is_chunk_size {
        arg = with_chunk_sizes(arg);
    }
    if let Some(min_values) = option.min_values {
        arg = with_min_values(arg, min_values);
    }
    let arg = with_value_name(with_default(arg, option.default), option.value_name);
    let r = with_help(arg, option.help);
    assert(arg_model(r) =~= option@);
    r
}

/// `clap::Command::try_get_matches_from` reads a command line, whose first argument is the
/// program's name. What it accepts, what it finds and whether a refusal is an error depends on the
/// parser and on the command line alone. Every option is found, those with a default with a
/// value. An error is shown on the error stream and ends the program with 2; help and the version
/// are not and end it with 0. What is shown depends on the parser and the command line alone too,
/// unless systems disagree on how the program's name is taken off its path. Only the options of
/// this program may be asked for, as `clap` panics on contradictory ones.
#[verifier::external_body]
fn match_args(command: clap::Command, argv: &Vec<String>) -> (r: Result<
    clap::ArgMatches,
    UsageError,
>)
    requires
        command_model(command) == recorder_model(),
    ensures
        ({
            let texts = argv@.map_values(|arg: String| arg@);
            match r {
                Ok(matches) => {
                    &&& clap_outcome(command_model(command), texts) == Ok::<MatchModel, bool>(
                        matched(matches),
                    )
                    &&& forall|i: int|
                        0 <= i < recorder_options().len() ==> is_matched(
                            #[trigger] recorder_options()[i],
                            matched(matches),
                        )
                },
                Err(error) => {
                    &&& clap_outcome(command_model(command), texts) == Err::<MatchModel, bool>(
                        error.use_stderr,
                    )
                    &&& error.exit_code == (if error.use_stderr {
                        2i32
                    } else {
                        0i32
                    })
                    &&& has_plain_name(texts) ==> error.text@ == clap_text(
                        command_model(command),
                        texts,
                    )
                },
            }
        }),
{
    command.try_get_matches_from(argv).map_err(
        |error|
            UsageError {
                text: error.render().to_string(),
                use_stderr: error.use_stderr(),
                exit_code: error.exit_code(),
            },
    )
}

/// `clap::ArgMatches::get_flag` tells whether a flag is set.
#[verifier::external_body]
fn flag_of(matches: &clap::ArgMatches, id: &str) -> (r: bool)
    requires
        matched(*matches).flags.contains_key(id@),
    ensures
        r == matched(*matches).flags[id@],
{
    matches.get_flag(id)
}

/// `clap::ArgMatches::get_one` gives the number of an option that has one.
#[verifier::external_body]
fn number_of(matches: &clap::ArgMatches, id: &str) -> (r: u64)
    requires
        matched(*matches).numbers.contains_key(id@),
    ensures
        r == matched(*matches).numbers[id@],
{
    *matches.get_one::<u64>(id).expect("the option has a number")
}

/// `clap::ArgMatches::get_many` gives the values of an option, in order.
#[verifier::external_body]
fn texts_of(matches: &clap::ArgMatches, id: &str) -> (r: Vec<String>)
    requires
        matched(*matches).texts.contains_key(id@),
    ensures
        r@.map_values(|text: String| text@) == matched(*matches).texts[id@],
{
    matches.get_many::<String>(id).unwrap_or_default().cloned().collect()
}

/// What was given for each option of this program.
#[derive(Debug)]
pub struct OptionValues {
    pub verbose: bool,
    pub recorder_path: Vec<String>,
    pub schema_path: Vec<String>,
    pub zkey: Vec<String>,
    pub mcap_compression: Vec<String>,
    pub mcap_crc: bool,
    pub mcap_chunk_size: u64,
    pub mcap_async_io: bool,
}

impl OptionValues {
    /// Options with a default have one value, the schema path has at most one, the compression is
    /// one that there is, and a chunk is never empty.
    pub open spec fn wf(&self) -> bool {
        &&& self.recorder_path@.len() == 1
        &&& self.schema_path@.len() <= 1
        &&& self.mcap_compression@.len() == 1
        &&& compression_of(self.mcap_compression@[0]@) is Some
        &&& self.mcap_chunk_size > 0
    }

    /// The values are those that were found.
    pub open spec fn are(&self, found: MatchModel) -> bool {
        &&& self.verbose == found.flags["verbose"@]
        &&& self.recorder_path@.map_values(|s: String| s@) == found.texts["recorder-path"@]
        &&& self.schema_path@.map_values(|s: String| s@) == found.texts["schema-path"@]
        &&& self.zkey@.map_values(|s: String| s@) == found.texts["zkey"@]
        &&& self.mcap_compression@.map_values(|s: String| s@) == found.texts["mcap-compression"@]
        &&& self.mcap_crc == found.flags["mcap-crc"@]
        &&& self.mcap_chunk_size == found.numbers["mcap-chunk-size"@]
        &&& self.mcap_async_io == found.flags["mcap-async-io"@]
    }
}

/// The options of this program.
fn option_table() -> (r: Vec<OptionSpec>)
    ensures
        r@.map_values(|o: OptionSpec| o@) == recorder_options(),
{
    let mut r: Vec<OptionSpec> = Vec::new();
    r.push(
        OptionSpec {
            long: "verbose",
            short: Some('v'),
            action: OptionAction::Mark,
            choices: Vec::new(),
            is_chunk_size: false,
            min_values: None,
            default: None,
            value_name: None,
            help: "Turns all log categories up to Debug, for more information check RUST_LOG env variable",
        },
    );
    r.push(
        OptionSpec {
            long: "recorder-path",
            short: None,
            action: OptionAction::Take,
            choices: Vec::new(),
            is_chunk_size: false,
            min_values: None,
            default: Some("/tmp"),
            value_name: Some("RECORDER_PATH"),
            help: "Sets the path where recordings will be stored",
        },
    );
    r.push(
        OptionSpec {
            long: "schema-path",
            short: None,
            action: OptionAction::Take,
            choices: Vec::new(),
            is_chunk_size: false,
            min_values: None,
            default: None,
            value_name: Some("SCHEMA_PATH"),
            help: "Sets the path for message schemas. E.g: src/external/zBlueberry/msgs",
        },
    );
    r.push(
        OptionSpec {
            long: "zkey",
            short: None,
            action: OptionAction::Collect,
            choices: Vec::new(),
            is_chunk_size: false,
            min_values: Some(1),
            default: None,
            value_name: Some("KEY=VALUE"),
            help: "Zenoh configuration key-value pairs. Can be used multiple times. Format: --zkey key=value",
        },
    );
    r.push(
        OptionSpec {
            long: "mcap-compression",
            short: None,
            action: OptionAction::Take,
            choices: vec!["none", "lz4", "zstd"],
            is_chunk_size: false,
            min_values: None,
            default: Some("lz4"),
            value_name: Some("MCAP_COMPRESSION"),
            help: "MCAP chunk compression: lz4 (default), none, or zstd",
        },
    );
    r.push(
        OptionSpec {
            long: "mcap-crc",
            short: None,
            action: OptionAction::Mark,
            choices: Vec::new(),
            is_chunk_size: false,
            min_values: None,
            default: Some("true"),
            value_name: None,
            help: "Calculate MCAP chunk, data-section, summary, and attachment CRCs",
        },
    );
    r.push(
        OptionSpec {
            long: "mcap-chunk-size",
            short: None,
            action: OptionAction::Take,
            choices: Vec::new(),
            is_chunk_size: true,
            min_values: None,
            default: Some("10485760"),
            value_name: Some("MCAP_CHUNK_SIZE"),
            help: "Target uncompressed MCAP chunk size in bytes before sealing",
        },
    );
    r.push(
        OptionSpec {
            long: "mcap-async-io",
            short: None,
            action: OptionAction::Mark,
            choices: Vec::new(),
            is_chunk_size: false,
            min_values: None,
            default: None,
            value_name: None,
            help: "Open/flush/finish MCAP via tokio fs and the blocking thread pool",
        },
    );
    proof {
        let models = r@.map_values(|o: OptionSpec| o@);
        assert forall|i: int| 0 <= i < 8 implies models[i] == recorder_options()[i] by {
            assert(models[i].choices =~= recorder_options()[i].choices);
        }
        assert(models =~= recorder_options());
    }
    r
}

/// The parser of this program's command line.
fn recorder_command() -> (r: clap::Command)
    ensures
        command_model(r) == recorder_model(),
{
    let table = option_table();
    let ghost models = table@.map_values(|o: OptionSpec| o@);
    let mut command = new_command(
        "blueos-recorder",
        "0.1.0",
        "Records what a vehicle publishes",
    );
    let mut i: usize = 0;
    assert(models.take(0) =~= Seq::empty());
    assert forall|k: int| 0 <= k < models.len() implies is_plain(#[trigger] models[k]) by {
        assert(models[k] == recorder_options()[k]);
        assert(k == 0 || recorder_options()[k].short is None);
        assert(k == 6 || !recorder_options()[k].is_chunk_size);
    }
    while i < table.len()
        invariant
            i <= table@.len(),
            forall|k: int| 0 <= k < models.len() ==> is_plain(#[trigger] models[k]),
            models == table@.map_values(|o: OptionSpec| o@),
            models == recorder_options(),
            command_model(command) == (CommandModel {
                options: models.take(i as int),
                ..recorder_model()
            }),
        decreases table@.len() - i,
    {
        assert(models[i as int] == table@[i as int]@);
        command = with_arg(command, arg_of(&table[i]));
        i = i + 1;
        assert(models.take(i as int) =~= models.take(i - 1).push(models[i - 1]));
    }
    assert(models.take(table@.len() as int) =~= recorder_options());
    command
}

/// What a command line gives for each option of this program.
fn option_values(argv: &Vec<String>) -> (r: Result<OptionValues, UsageError>)
    ensures
        ({
            let texts = argv@.map_values(|arg: String| arg@);
            match clap_outcome(recorder_model(), texts) {
                Ok(found) => r is Ok && r->Ok_0.are(found) && r->Ok_0.wf(),
                Err(is_error) => r is Err && is_refusal(texts, is_error, r->Err_0),
            }
        }),
{
    let matcher = match_args;
    let command = recorder_command();
    let ghost asked = command;
    match matcher(command, argv) {
        Err(error) => {
            assert(call_ensures(
                match_args,
                (asked, argv),
                Err::<clap::ArgMatches, UsageError>(error),
            ));
            Err(error)
        },
        Ok(matches) => {
            proof {
                let found = matched(matches);
                assert(is_matched(recorder_options()[0], found));
                assert(is_matched(recorder_options()[1], found));
                assert(is_matched(recorder_options()[2], found));
                assert(is_matched(recorder_options()[3], found));
                assert(is_matched(recorder_options()[4], found));
                assert(is_matched(recorder_options()[5], found));
                assert(is_matched(recorder_options()[6], found));
                assert(is_matched(recorder_options()[7], found));
            }
            let values = OptionValues {
                verbose: flag_of(&matches, "verbose"),
                recorder_path: texts_of(&matches, "recorder-path"),
                schema_path: texts_of(&matches, "schema-path"),
                zkey: texts_of(&matches, "zkey"),
                mcap_compression: texts_of(&matches, "mcap-compression"),
                mcap_crc: flag_of(&matches, "mcap-crc"),
                mcap_chunk_size: number_of(&matches, "mcap-chunk-size"),
                mcap_async_io: flag_of(&matches, "mcap-async-io"),
            };
            proof {
                let found = matched(matches);
                assert(values.recorder_path@.len() == found.texts["recorder-path"@].len());
                assert(values.schema_path@.len() == found.texts["schema-path"@].len());
                assert(values.mcap_compression@.len() == found.texts["mcap-compression"@].len());
                assert(values.mcap_compression@[0]@ == found.texts["mcap-compression"@][0]);
            }
            Ok(values)
        },
    }
}

/// The value of a text of decimal digits, the last one least significant.
pub open spec fn digits_value(digits: Seq<char>) -> nat
    decreases digits.len(),
{
    if digits.len() == 0 {
        0
    } else {
        10 * digits_value(digits.drop_last()) + ((digits.last() as u32 - '0' as u32) as nat)
    }
}

/// Decimal digits and nothing else.
pub open spec fn are_digits(digits: Seq<char>) -> bool {
    forall|i: int| 0 <= i < digits.len() ==> '0' <= #[trigger] digits[i] <= '9'
}

/// The number that a text spells: decimal digits, at least one, perhaps after a plus sign.
pub open spec fn spelled_number(text: Seq<char>) -> Option<nat> {
    let digits = if text.len() > 0 && text[0] == '+' {
        text.skip(1)
    } else {
        text
    };
    if digits.len() > 0 && are_digits(digits) {
        Some(digits_value(digits))
    } else {
        None
    }
}

/// What `str::parse::<u64>` says of a text that it refuses.
pub uninterp spec fn number_error(text: Seq<char>) -> Seq<char>;

/// A text as `{:?}` shows it.
pub uninterp spec fn quoted(text: Seq<char>) -> Seq<char>;

/// `str::parse::<u64>` reads decimal digits, perhaps after a plus sign, and refuses anything else
/// and numbers that are too large.
#[verifier::external_body]
fn parse_u64(text: &str) -> (r: Result<u64, String>)
    ensures
        match r {
            Ok(n) => spelled_number(text@) == Some(n as nat),
            Err(error) => error@ == number_error(text@) && (spelled_number(text@) matches Some(n)
                ==> n > u64::MAX),
        },
{
    text.parse::<u64>().map_err(|error| error.to_string())
}

/// `format!` with `{:?}` shows a text in quotes, with escapes.
#[verifier::external_body]
fn quote_text(text: &str) -> (r: String)
    ensures
        r@ == quoted(text@),
{
    format!("{text:?}")
}

/// Whether a text spells a chunk size: a number from one up to the largest.
pub open spec fn chunk_size_of(raw: Seq<char>) -> Option<u64> {
    match spelled_number(raw) {
        Some(n) if 0 < n <= u64::MAX => Some(n as u64),
        _ => None,
    }
}

/// Why a text is not accepted as a chunk size.
pub open spec fn chunk_size_error(raw: Seq<char>) -> Seq<char> {
    if spelled_number(raw) == Some(0nat) {
        "mcap chunk size must be greater than zero"@
    } else {
        "invalid mcap chunk size "@ + quoted(raw) + ": "@ + number_error(raw)
    }
}

/// Reads a chunk size.
pub fn parse_chunk_size(raw: &str) -> (r: Result<u64, String>)
    ensures
        match r {
            Ok(size) => chunk_size_of(raw@) == Some(size),
            Err(error) => chunk_size_of(raw@) is None && error@ == chunk_size_error(raw@),
        },
{
    match parse_u64(raw) {
        Ok(size) => {
            if size == 0 {
                Err("mcap chunk size must be greater than zero".to_owned())
            } else {
                Ok(size)
            }
        },
        Err(error) => {
            let what = join_texts("invalid mcap chunk size ", quote_text(raw).as_str());
            let why = join_texts(what.as_str(), ": ");
            Err(join_texts(why.as_str(), error.as_str()))
        },
    }
}

/// The compression that a name stands for.
pub open spec fn compression_of(name: Seq<char>) -> Option<McapCompression> {
    if name == "none"@ {
        Some(McapCompression::Uncompressed)
    } else if name == "lz4"@ {
        Some(McapCompression::Lz4)
    } else if name == "zstd"@ {
        Some(McapCompression::Zstd)
    } else {
        None
    }
}

/// The compression that a name stands for.
pub fn parse_compression(name: &str) -> (r: Option<McapCompression>)
    ensures
        r == compression_of(name@),
{
    if same_text(name, "none") {
        Some(McapCompression::Uncompressed)
    } else if same_text(name, "lz4") {
        Some(McapCompression::Lz4)
    } else if same_text(name, "zstd") {
        Some(McapCompression::Zstd)
    } else {
        None
    }
}

/// The settings that a command line gives.
#[derive(Debug)]
pub struct Args {
    /// Whether all log categories are turned up.
    pub verbose: bool,
    /// Where recordings are stored.
    pub recorder_path: String,
    /// Where message schemas are found, if not in the program.
    pub schema_path: Option<String>,
    /// Settings for the session, each as `key=value`.
    pub zkey: Vec<String>,
    pub mcap_compression: McapCompression,
    pub mcap_crc: bool,
    pub mcap_chunk_size: u64,
    pub mcap_async_io: bool,
}

/// The settings are those that the values of the options give.
pub open spec fn args_from(values: OptionValues, args: Args) -> bool {
    &&& args.verbose == values.verbose
    &&& args.recorder_path == values.recorder_path@[0]
    &&& args.schema_path == (if values.schema_path@.len() == 1 {
        Some(values.schema_path@[0])
    } else {
        None
    })
    &&& args.zkey == values.zkey
    &&& compression_of(values.mcap_compression@[0]@) == Some(args.mcap_compression)
    &&& args.mcap_crc == values.mcap_crc
    &&& args.mcap_chunk_size == values.mcap_chunk_size
    &&& args.mcap_async_io == values.mcap_async_io
}

impl Args {
    /// A chunk is never empty.
    pub open spec fn wf(&self) -> bool {
        self.mcap_chunk_size > 0
    }

    /// The settings that the values of the options give.
    pub fn from_values(values: OptionValues) -> (r: Args)
        requires
            values.wf(),
        ensures
            args_from(values, r),
            r.wf(),
    {
        let mcap_compression = parse_compression(values.mcap_compression[0].as_str()).unwrap();
        let schema_path = if values.schema_path.len() == 1 {
            Some(values.schema_path[0].clone())
        } else {
            None
        };
        Args {
            verbose: values.verbose,
            recorder_path: values.recorder_path[0].clone(),
            schema_path,
            zkey: values.zkey,
            mcap_compression,
            mcap_crc: values.mcap_crc,
            mcap_chunk_size: values.mcap_chunk_size,
            mcap_async_io: values.mcap_async_io,
        }
    }

    /// Reads a command line, whose first argument is the program's name.
    pub fn try_parse_from(argv: &Vec<String>) -> (r: Result<Args, UsageError>)
        ensures
            parse_outcome(argv@.map_values(|arg: String| arg@), r),
            r matches Ok(args) ==> args.wf(),
    {
        match option_values(argv) {
            Err(error) => Err(error),
            Ok(values) => {
                let ghost found = values;
                let args = Args::from_values(values);
                assert(args_from(found, args));
                Ok(args)
            },
        }
    }
}

/// What comes of a command line.
pub open spec fn parse_outcome(argv: Seq<Seq<char>>, r: Result<Args, UsageError>) -> bool {
    match clap_outcome(recorder_model(), argv) {
        Err(is_error) => r is Err && is_refusal(argv, is_error, r->Err_0),
        Ok(found) => r is Ok && exists|values: OptionValues|
            values.wf() && values.are(found) && #[trigger] args_from(values, r->Ok_0),
    }
}

/// What `shellexpand::env_with_context` makes of a text, given the variables; none if a variable
/// that it names is not there.
pub uninterp spec fn expanded_text(
    text: Seq<char>,
    variables: Map<Seq<char>, Seq<char>>,
) -> Option<Seq<char>>;

/// The value of a variable; it is an error if there is none.
pub fn lookup(variables: &TextMap<String>, name: &str) -> (r: Result<Option<String>, ()>)
    requires
        variables.wf(),
    ensures
        match r {
            Ok(value) => variables@.contains_key(name@) && value == Some(variables@[name@]),
            Err(_) => !variables@.contains_key(name@),
        },
{
    match variables.get(name) {
        Some(value) => Ok(Some(value.clone())),
        None => Err(()),
    }
}

/// `shellexpand::env_with_context` puts the values of variables in the place of their names. What
/// comes out depends on the text and the variables alone. A text without a dollar sign stays as it
/// is, and two dollar signs alone are one.
#[verifier::external_body]
fn expand_env(text: &str, variables: &TextMap<String>) -> (r: Option<String>)
    requires
        variables.wf(),
    ensures
        match r {
            Some(expanded) => expanded_text(text@, text_values(variables@)) == Some(expanded@),
            None => expanded_text(text@, text_values(variables@)) is None,
        },
        !text@.contains('$') ==> r is Some && r->Some_0@ == text@,
        text@ == seq!['$', '$'] ==> r is Some && r->Some_0@ == seq!['$'],
{
    shellexpand::env_with_context(text, |name: &str| lookup(variables, name)).ok().map(
        |expanded| expanded.into_owned(),
    )
}

/// An argument in its expanded form, or as it is if it cannot be expanded.
pub open spec fn expanded_arg(arg: Seq<char>, variables: Map<Seq<char>, Seq<char>>) -> Seq<char> {
    match expanded_text(arg, variables) {
        Some(expanded) => expanded,
        None => arg,
    }
}

/// Arguments in their expanded form.
pub open spec fn expanded_args(
    raw: Seq<String>,
    variables: Map<Seq<char>, Seq<char>>,
) -> Seq<Seq<char>> {
    raw.map_values(|arg: String| expanded_arg(arg@, variables))
}

/// The argument in its expanded form, or as it is if it could not be expanded.
pub fn expanded_or_same(arg: &String, expanded: Option<String>) -> (r: String)
    ensures
        r == match expanded {
            Some(expanded) => expanded,
            None => *arg,
        },
{
    match expanded {
        Some(expanded) => expanded,
        None => arg.clone(),
    }
}

/// Puts the values of variables in the place of their names. An argument that cannot be expanded,
/// and one without a dollar sign, stays as it is.
pub fn expand_args(raw: &Vec<String>, variables: &TextMap<String>) -> (r: Vec<String>)
    requires
        variables.wf(),
    ensures
        r@.map_values(|arg: String| arg@) == expanded_args(raw@, text_values(variables@)),
        r@.len() == raw@.len(),
        forall|i: int|
            0 <= i < raw@.len() && !raw@[i]@.contains('$') ==> (#[trigger] r@[i])@ == raw@[i]@,
        forall|i: int|
            0 <= i < raw@.len() && raw@[i]@ == seq!['$', '$'] ==> (#[trigger] r@[i])@ == seq!['$'],
{
    let mut r: Vec<String> = Vec::new();
    let mut i: usize = 0;
    while i < raw.len()
        invariant
            variables.wf(),
            i <= raw@.len(),
            r@.len() == i,
            forall|j: int|
                0 <= j < i ==> (#[trigger] r@[j])@ == expanded_arg(
                    raw@[j]@,
                    text_values(variables@),
                ),
            forall|j: int|
                0 <= j < i && !raw@[j]@.contains('$') ==> (#[trigger] r@[j])@ == raw@[j]@,
            forall|j: int|
                0 <= j < i && raw@[j]@ == seq!['$', '$'] ==> (#[trigger] r@[j])@ == seq!['$'],
        decreases raw@.len() - i,
    {
        r.push(expanded_or_same(&raw[i], expand_env(raw[i].as_str(), variables)));
        i = i + 1;
    }
    assert(r@.map_values(|arg: String| arg@) =~= expanded_args(raw@, text_values(variables@)));
    r
}

/// Holds the settings once they are known.
#[derive(Debug)]
pub struct Manager {
    clap_matches: Option<Args>,
}

impl View for Manager {
    type V = Option<Args>;

    closed spec fn view(&self) -> Option<Args> {
        self.clap_matches
    }
}

impl Manager {
    /// Nothing is known yet.
    pub fn new() -> (r: Self)
        ensures
            r@ is None,
    {
        Manager { clap_matches: None }
    }

    /// Whether the settings are known.
    pub fn is_initialized(&self) -> (r: bool)
        ensures
            r == (self@ is Some),
    {
        self.clap_matches.is_some()
    }
}

/// What is kept: the first settings that come.
pub open spec fn kept(known: Option<Args>, args: Args) -> Option<Args> {
    match known {
        Some(known) => Some(known),
        None => Some(args),
    }
}

/// What comes of a command line, and what is kept of it.
pub open spec fn init_outcome(
    argv: Seq<Seq<char>>,
    before: Option<Args>,
    after: Option<Args>,
    r: Result<(), UsageError>,
) -> bool {
    exists|parsed: Result<Args, UsageError>| #[trigger]
        parse_outcome(argv, parsed) && match parsed {
            Ok(args) => r is Ok && after == kept(before, args),
            Err(error) => r == Err::<(), UsageError>(error) && after == before,
        }
}

/// Expands and reads a command line, and keeps its settings unless there are some already. A
/// command line that is not accepted changes nothing.
pub fn init(manager: &mut Manager, raw: &Vec<String>, variables: &TextMap<String>) -> (r: Result<
    (),
    UsageError,
>)
    requires
        variables.wf(),
    ensures
        init_outcome(
            expanded_args(raw@, text_values(variables@)),
            old(manager)@,
            final(manager)@,
            r,
        ),
{
    let expanded = expand_args(raw, variables);
    init_expanded(manager, &expanded)
}

/// Reads a command line whose arguments are expanded, and keeps its settings unless there are
/// some already. A command line that is not accepted changes nothing.
pub fn init_expanded(manager: &mut Manager, argv: &Vec<String>) -> (r: Result<(), UsageError>)
    ensures
        init_outcome(argv@.map_values(|arg: String| arg@), old(manager)@, final(manager)@, r),
{
    let parsed = Args::try_parse_from(argv);
    let ghost outcome = parsed;
    assert(parse_outcome(argv@.map_values(|arg: String| arg@), outcome));
    match parsed {
        Ok(args) => {
            init_with(manager, args);
            Ok(())
        },
        Err(error) => Err(error),
    }
}

/// Keeps settings, unless there are some already.
pub fn init_with(manager: &mut Manager, args: Args)
    ensures
        final(manager)@ == kept(old(manager)@, args),
{
    if manager.clap_matches.is_none() {
        manager.clap_matches = Some(args);
    }
}

/// The settings.
pub fn args(manager: &Manager) -> (r: &Args)
    requires
        manager@ is Some,
    ensures
        *r == manager@->Some_0,
{
    manager.clap_matches.as_ref().unwrap()
}

/// Whether all log categories are turned up.
pub fn is_verbose(manager: &Manager) -> (r: bool)
    requires
        manager@ is Some,
    ensures
        r == manager@->Some_0.verbose,
{
    args(manager).verbose
}

/// The log level that settings ask for.
pub open spec fn level_of(args: Args) -> Seq<char> {
    if args.verbose {
        "debug"@
    } else {
        "info"@
    }
}

/// The log level unless the environment sets one.
pub fn default_level(manager: &Manager) -> (r: &'static str)
    requires
        manager@ is Some,
    ensures
        r@ == level_of(manager@->Some_0),
{
    if is_verbose(manager) {
        "debug"
    } else {
        "info"
    }
}

/// A directory that is needed, and whether it is made if it is not there.
#[derive(Debug)]
pub struct PathRequest {
    pub path: String,
    pub create_if_not_exists: bool,
}

/// What is done about a directory that is needed.
#[derive(Debug, Clone, Copy, PartialEq, Eq, Structural)]
pub enum PathDecision {
    /// It is used as it is.
    Use,
    /// It is made.
    Create,
    /// The program ends: the directory is not there, or the path is not that of a directory.
    Exit,
}

/// What is done about a directory that is needed, given what is at its path.
pub open spec fn path_decision(
    exists: bool,
    is_dir: bool,
    create_if_not_exists: bool,
) -> PathDecision {
    if exists && is_dir {
        PathDecision::Use
    } else if !exists && create_if_not_exists {
        PathDecision::Create
    } else {
        PathDecision::Exit
    }
}

/// What is done about a directory that is needed, given what is at its path.
pub fn path_dir_from_arg(exists: bool, is_dir: bool, create_if_not_exists: bool) -> (r: PathDecision)
    ensures
        r == path_decision(exists, is_dir, create_if_not_exists),
{
    if !exists {
        if create_if_not_exists {
            PathDecision::Create
        } else {
            PathDecision::Exit
        }
    } else if !is_dir {
        PathDecision::Exit
    } else {
        PathDecision::Use
    }
}

/// The directory for recordings that settings ask for.
pub open spec fn recorder_request(args: Args) -> PathRequest {
    PathRequest { path: args.recorder_path, create_if_not_exists: true }
}

/// The directory for message schemas that settings ask for, if they do.
pub open spec fn schema_request(args: Args) -> Option<PathRequest> {
    match args.schema_path {
        Some(path) => Some(PathRequest { path, create_if_not_exists: false }),
        None => None,
    }
}

/// How settings ask for recordings to be written.
pub open spec fn write_config_of(args: Args) -> McapWriteConfig {
    McapWriteConfig {
        compression: args.mcap_compression,
        crc: args.mcap_crc,
        chunk_size: args.mcap_chunk_size,
        flush_interval_secs: DEFAULT_FLUSH_INTERVAL_SECS,
    }
}

/// The directory for recordings; it is made if it is not there.
pub fn recorder_path(manager: &Manager) -> (r: PathRequest)
    requires
        manager@ is Some,
    ensures
        r == recorder_request(manager@->Some_0),
{
    PathRequest { path: args(manager).recorder_path.clone(), create_if_not_exists: true }
}

/// The directory for message schemas, if one is set; it must be there.
pub fn schema_path(manager: &Manager) -> (r: Option<PathRequest>)
    requires
        manager@ is Some,
    ensures
        r == schema_request(manager@->Some_0),
{
    match &args(manager).schema_path {
        Some(path) => Some(PathRequest { path: path.clone(), create_if_not_exists: false }),
        None => None,
    }
}

/// How recordings are written.
pub fn mcap_write_config(manager: &Manager) -> (r: McapWriteConfig)
    requires
        manager@ is Some,
    ensures
        r == write_config_of(manager@->Some_0),
        manager@->Some_0.wf() ==> r.wf(),
{
    let args = args(manager);
    McapWriteConfig {
        compression: args.mcap_compression,
        crc: args.mcap_crc,
        chunk_size: args.mcap_chunk_size,
        flush_interval_secs: DEFAULT_FLUSH_INTERVAL_SECS,
    }
}

/// The settings that the first `n` arguments give: what stands before the first equals sign is
/// the key, the rest the value. An argument without one is left out, and of two with one key the
/// later one counts.
pub open spec fn zkeys(zkey: Seq<String>, n: nat) -> Map<Seq<char>, Seq<char>>
    decreases n,
{
    if n == 0 {
        Map::empty()
    } else {
        let before = zkeys(zkey, (n - 1) as nat);
        let arg = zkey[n - 1]@;
        let i = crate::text::position(arg, '=');
        if i < arg.len() {
            before.insert(arg.take(i), arg.skip(i + 1))
        } else {
            before
        }
    }
}

/// The values of a map, as texts.
pub open spec fn text_values(map: Map<Seq<char>, String>) -> Map<Seq<char>, Seq<char>> {
    map.map_values(|value: String| value@)
}

/// The settings for the session.
pub fn zkey_config(manager: &Manager) -> (r: TextMap<String>)
    requires
        manager@ is Some,
    ensures
        r.wf(),
        text_values(r@) == zkeys(manager@->Some_0.zkey@, manager@->Some_0.zkey@.len()),
{
    let zkey = &args(manager).zkey;
    let mut config: TextMap<String> = TextMap::new();
    let mut i: usize = 0;
    assert(text_values(config@) =~= Map::empty());
    while i < zkey.len()
        invariant
            i <= zkey@.len(),
            config.wf(),
            text_values(config@) == zkeys(zkey@, i as nat),
        decreases zkey@.len() - i,
    {
        let ghost before = config@;
        match split_once(zkey[i].as_str(), '=') {
            Some((key, value)) => {
                config.insert(key, value);
                assert(text_values(config@) =~= text_values(before).insert(key@, value@));
            },
            None => {},
        }
        i = i + 1;
    }
    config
}

/// A character as it stands in a JSON5 string.
pub open spec fn escaped_char(c: char) -> Seq<char> {
    if c == '"' {
        seq!['\\', '"']
    } else if c == '\n' {
        seq!['\\', 'n']
    } else if c == '\r' {
        seq!['\\', 'r']
    } else if c == '\t' {
        seq!['\\', 't']
    } else if c == '\\' {
        seq!['\\', '\\']
    } else if c == '\u{8}' {
        seq!['\\', 'b']
    } else if c == '\u{c}' {
        seq!['\\', 'f']
    } else {
        seq![c]
    }
}

/// A text as it stands in a JSON5 string.
pub open spec fn escaped(text: Seq<char>) -> Seq<char>
    decreases text.len(),
{
    if text.len() == 0 {
        seq![]
    } else {
        escaped(text.drop_last()) + escaped_char(text.last())
    }
}

/// A text as a JSON5 string.
pub open spec fn json5_string(text: Seq<char>) -> Seq<char> {
    seq!['"'] + escaped(text) + seq!['"']
}

/// `serde_json5::to_string` writes a text in double quotes, with escapes; it does not fail on a
/// text.
#[verifier::external_body]
fn json5_of_text(text: &str) -> (r: String)
    ensures
        r@ == json5_string(text@),
{
    serde_json5::to_string(&text).expect("a text can be serialized")
}

/// A setting of the session: its key and its value in JSON5.
#[derive(Debug)]
pub struct SessionSetting {
    pub key: String,
    pub json5: String,
}

/// The settings that every session has, as keys and JSON5 values.
pub open spec fn fixed_settings() -> Seq<(Seq<char>, Seq<char>)> {
    seq![
        ("mode"@, "\"client\""@),
        ("connect/endpoints"@, "[\"tcp/127.0.0.1:7447\"]"@),
        ("adminspace"@, "{\"enabled\": true}"@),
        ("metadata"@, "{\"name\": \"blueos-recorder\"}"@),
    ]
}

/// Settings as keys and values.
pub open spec fn settings_view(settings: Seq<SessionSetting>) -> Seq<(Seq<char>, Seq<char>)> {
    settings.map_values(|s: SessionSetting| (s.key@, s.json5@))
}

/// The settings that `config` adds: its values are texts.
pub open spec fn added_settings(config: TextMap<String>) -> Seq<(Seq<char>, Seq<char>)> {
    Seq::new(
        config.keys@.len(),
        |i: int| (config.keys@[i]@, json5_string(config.values@[i]@)),
    )
}

fn push_setting(settings: &mut Vec<SessionSetting>, key: &str, json5: String)
    ensures
        settings_view(final(settings)@) == settings_view(old(settings)@).push((key@, json5@)),
{
    settings.push(SessionSetting { key: key.to_owned(), json5 });
    assert(settings_view(settings@) =~= settings_view(old(settings)@).push((key@, json5@)));
}

/// The settings of the session, in the order in which they are made: those that every session
/// has, then those of the command line, which can override them.
pub fn session_settings(config: &TextMap<String>) -> (r: Vec<SessionSetting>)
    requires
        config.wf(),
    ensures
        settings_view(r@) == fixed_settings() + added_settings(*config),
{
    let mut settings: Vec<SessionSetting> = Vec::new();
    push_setting(&mut settings, "mode", "\"client\"".to_owned());
    push_setting(&mut settings, "connect/endpoints", "[\"tcp/127.0.0.1:7447\"]".to_owned());
    push_setting(&mut settings, "adminspace", "{\"enabled\": true}".to_owned());
    push_setting(&mut settings, "metadata", "{\"name\": \"blueos-recorder\"}".to_owned());
    assert(settings_view(settings@) =~= fixed_settings());
    let mut i: usize = 0;
    assert(added_settings(*config).take(0) =~= Seq::empty());
    while i < config.keys.len()
        invariant
            config.wf(),
            i <= config.keys@.len(),
            settings_view(settings@) == fixed_settings() + added_settings(*config).take(i as int),
        decreases config.keys@.len() - i,
    {
        let json5 = json5_of_text(config.values[i].as_str());
        push_setting(&mut settings, config.keys[i].as_str(), json5);
        i = i + 1;
        assert(settings_view(settings@) =~= fixed_settings() + added_settings(*config).take(
            i as int,
        ));
    }
    assert(added_settings(*config).take(config.keys@.len() as int) =~= added_settings(*config));
    settings
}

/// The first settings that come stay: later ones change nothing.
pub proof fn lemma_first_settings_stay(known: Option<Args>, first: Args, second: Args)
    ensures
        kept(None, first) == Some(first),
        kept(kept(known, first), second) == kept(known, first),
{
}

/// A setting that is given keeps its value unless a later argument gives the same key.
pub proof fn lemma_later_key_counts(zkey: Seq<String>, i: int, n: nat)
    requires
        0 <= i < n <= zkey.len(),
        crate::text::position(zkey[i]@, '=') < zkey[i]@.len(),
        forall|j: int|
            i < j < n ==> crate::text::position((#[trigger] zkey[j])@, '=') == zkey[j]@.len()
                || zkey[j]@.take(crate::text::position(zkey[j]@, '=')) != zkey[i]@.take(
                crate::text::position(zkey[i]@, '='),
            ),
    ensures
        zkeys(zkey, n).contains_key(zkey[i]@.take(crate::text::position(zkey[i]@, '='))),
        zkeys(zkey, n)[zkey[i]@.take(crate::text::position(zkey[i]@, '='))] == zkey[i]@.skip(
            crate::text::position(zkey[i]@, '=') + 1,
        ),
    decreases n,
{
    if i < n - 1 {
        lemma_later_key_counts(zkey, i, (n - 1) as nat);
        crate::text::lemma_position(zkey[n - 1]@, '=');
    }
}

/// A directory that is there is used. A path to anything else, and a directory that is not there
/// and may not be made, ends the program; one that may be made is made.
pub proof fn lemma_path_decisions(exists: bool, is_dir: bool, create_if_not_exists: bool)
    ensures
        path_decision(exists, is_dir, create_if_not_exists) is Use <==> exists && is_dir,
        path_decision(exists, is_dir, create_if_not_exists) is Create <==> !exists
            && create_if_not_exists,
        exists && !is_dir ==> path_decision(exists, is_dir, create_if_not_exists) is Exit,
        !exists && !create_if_not_exists ==> path_decision(exists, is_dir, create_if_not_exists)
            is Exit,
{
}

/// A further decimal digit makes a number ten times as large and adds the digit; a plus sign in
/// front changes nothing; no digit at all is no number.
pub proof fn lemma_numbers_are_spelled(digits: Seq<char>, digit: char)
    requires
        digits.len() > 0,
        forall|i: int| 0 <= i < digits.len() ==> 48 <= (#[trigger] digits[i]) as int <= 57,
        48 <= digit as int <= 57,
    ensures
        spelled_number(digits) is Some,
        spelled_number(digits.push(digit)) == Some(
            (10 * spelled_number(digits)->Some_0 + (digit as int - 48)) as nat,
        ),
        spelled_number(seq![digit]) == Some((digit as int - 48) as nat),
        spelled_number(seq!['+'] + digits) == spelled_number(digits),
        spelled_number(seq![]) is None,
        spelled_number(seq!['+']) is None,
{
    assert(digits[0] != '+') by {
        assert(48 <= digits[0] as int <= 57);
    }
    assert forall|i: int| 0 <= i < digits.len() implies '0' <= #[trigger] digits[i] <= '9' by {
        assert(48 <= digits[i] as int <= 57);
    }
    let more = digits.push(digit);
    assert(more[0] == digits[0]);
    assert forall|i: int| 0 <= i < more.len() implies '0' <= #[trigger] more[i] <= '9' by {
        if i < digits.len() {
            assert(more[i] == digits[i]);
        }
    }
    assert(more.drop_last() =~= digits);
    assert((seq!['+'] + digits).skip(1) =~= digits);
    assert(seq![digit].drop_last() =~= Seq::<char>::empty());
    assert(seq!['+'].skip(1) =~= Seq::<char>::empty());
    reveal_with_fuel(digits_value, 2);
}

/// Every number from one up to the largest is a chunk size, as itself; zero and larger numbers are
/// none, and neither is a text that spells no number.
pub proof fn lemma_chunk_sizes(raw: Seq<char>)
    ensures
        spelled_number(raw) is None ==> chunk_size_of(raw) is None,
        spelled_number(raw) is Some ==> {
            let n = spelled_number(raw)->Some_0;
            &&& chunk_size_of(raw) is Some <==> 1 <= n <= 18446744073709551615
            &&& chunk_size_of(raw) is Some ==> chunk_size_of(raw)->Some_0 == n
        },
{
}

/// Exactly three names stand for a compression.
pub proof fn lemma_compressions(name: Seq<char>)
    ensures
        compression_of(name) == Some(McapCompression::Uncompressed) <==> name == "none"@,
        compression_of(name) == Some(McapCompression::Lz4) <==> name == "lz4"@,
        compression_of(name) == Some(McapCompression::Zstd) <==> name == "zstd"@,
        compression_of(name) is None <==> name != "none"@ && name != "lz4"@ && name != "zstd"@,
{
    reveal_strlit("none");
    reveal_strlit("lz4");
    reveal_strlit("zstd");
    assert("none"@.len() != "lz4"@.len());
    assert("zstd"@.len() != "lz4"@.len());
    assert("none"@[0] != "zstd"@[0]);
}

/// An argument that cannot be expanded stays as it is; the others become what they expand to, one
/// for one and in order.
pub proof fn lemma_expanded_args(
    raw: Seq<String>,
    variables: Map<Seq<char>, Seq<char>>,
    i: int,
)
    requires
        0 <= i < raw.len(),
    ensures
        expanded_args(raw, variables).len() == raw.len(),
        expanded_text(raw[i]@, variables) is None ==> expanded_args(raw, variables)[i] == raw[i]@,
        expanded_text(raw[i]@, variables) is Some ==> expanded_args(raw, variables)[i]
            == expanded_text(raw[i]@, variables)->Some_0,
{
}

/// An argument `key=value` sets the key to the value, up to the first equals sign; one without an
/// equals sign sets nothing; other keys stay as they are.
pub proof fn lemma_one_more_key(
    zkey: Seq<String>,
    n: nat,
    key: Seq<char>,
    value: Seq<char>,
    other: Seq<char>,
)
    requires
        n < zkey.len(),
        !key.contains('='),
    ensures
        zkeys(zkey, 0) == Map::<Seq<char>, Seq<char>>::empty(),
        zkey[n as int]@ == key + seq!['='] + value ==> {
            &&& zkeys(zkey, n + 1).contains_key(key)
            &&& zkeys(zkey, n + 1)[key] == value
            &&& other != key ==> (zkeys(zkey, n + 1).contains_key(other) <==> zkeys(
                zkey,
                n,
            ).contains_key(other))
            &&& other != key && zkeys(zkey, n).contains_key(other) ==> zkeys(zkey, n + 1)[other]
                == zkeys(zkey, n)[other]
        },
        !zkey[n as int]@.contains('=') ==> zkeys(zkey, n + 1) == zkeys(zkey, n),
{
    let arg = zkey[n as int]@;
    crate::text::lemma_position(arg, '=');
    if arg == key + seq!['='] + value {
        let i = key.len() as int;
        assert(arg[i] == '=');
        assert forall|j: int| 0 <= j < i implies arg[j] != '=' by {
            assert(arg[j] == key[j]);
            assert(key.contains(key[j]));
        }
        crate::text::lemma_position_unique(arg, '=', i);
        assert(arg.take(i) =~= key);
        assert(arg.skip(i + 1) =~= value);
    }
    if !arg.contains('=') {
        let i = crate::text::position(arg, '=');
        assert(i < arg.len() ==> arg.contains(arg[i]));
    }
}

/// The settings of a session are the four that every session has, then one for each key of the
/// command line, with its value as a JSON5 string.
pub proof fn lemma_session_settings(config: TextMap<String>, i: int)
    requires
        config.wf(),
        0 <= i < config.keys@.len(),
    ensures
        ({
            let settings = fixed_settings() + added_settings(config);
            &&& settings.len() == 4 + config.keys@.len()
            &&& settings[0] == ("mode"@, "\"client\""@)
            &&& settings[1] == ("connect/endpoints"@, "[\"tcp/127.0.0.1:7447\"]"@)
            &&& settings[2] == ("adminspace"@, "{\"enabled\": true}"@)
            &&& settings[3] == ("metadata"@, "{\"name\": \"blueos-recorder\"}"@)
            &&& settings[4 + i].0 == config.keys@[i]@
            &&& settings[4 + i].1 == json5_string(config.values@[i]@)
        }),
{
}

/// The settings of a command line are what was found for each option, each in its own place.
pub proof fn lemma_settings_are_those_found(found: MatchModel, values: OptionValues, args: Args)
    requires
        values.wf(),
        values.are(found),
        args_from(values, args),
    ensures
        args.verbose == found.flags["verbose"@],
        args.recorder_path@ == found.texts["recorder-path"@][0],
        found.texts["schema-path"@].len() == 0 ==> args.schema_path is None,
        found.texts["schema-path"@].len() > 0 ==> args.schema_path is Some
            && args.schema_path->Some_0@ == found.texts["schema-path"@][0],
        args.zkey@.len() == found.texts["zkey"@].len(),
        forall|i: int|
            0 <= i < args.zkey@.len() ==> (#[trigger] args.zkey@[i])@ == found.texts["zkey"@][i],
        found.texts["mcap-compression"@][0] == "none"@ ==> args.mcap_compression
            == McapCompression::Uncompressed,
        found.texts["mcap-compression"@][0] == "lz4"@ ==> args.mcap_compression
            == McapCompression::Lz4,
        found.texts["mcap-compression"@][0] == "zstd"@ ==> args.mcap_compression
            == McapCompression::Zstd,
        args.mcap_crc == found.flags["mcap-crc"@],
        args.mcap_chunk_size == found.numbers["mcap-chunk-size"@],
        args.mcap_async_io == found.flags["mcap-async-io"@],
{
    let strings = |s: String| s@;
    assert(values.recorder_path@.map_values(strings)[0] == values.recorder_path@[0]@);
    assert(values.mcap_compression@.map_values(strings)[0] == values.mcap_compression@[0]@);
    assert(values.schema_path@.map_values(strings).len() == values.schema_path@.len());
    assert(values.zkey@.map_values(strings).len() == values.zkey@.len());
    if values.schema_path@.len() > 0 {
        assert(values.schema_path@.map_values(strings)[0] == values.schema_path@[0]@);
    }
    assert forall|i: int| 0 <= i < args.zkey@.len() implies (#[trigger] args.zkey@[i])@
        == found.texts["zkey"@][i] by {
        assert(values.zkey@.map_values(strings)[i] == values.zkey@[i]@);
    }
    lemma_compressions(values.mcap_compression@[0]@);
}

proof fn lemma_shown_by_clap(argv: Seq<Seq<char>>, error: UsageError)
    requires
        is_shown_by_clap(argv, error),
    ensures
        exists|command: clap::Command, args: &Vec<String>|
            {
                &&& command_model(command) == recorder_model()
                &&& args@.map_values(|arg: String| arg@) == argv
                &&& #[trigger] call_ensures(
                    match_args,
                    (command, args),
                    Err::<clap::ArgMatches, UsageError>(error),
                )
            },
{
}

/// A command line gives settings exactly if `clap` accepts it. Else it gives what `clap` shows:
/// errors end the program with 2, help and the version with 0.
pub proof fn lemma_command_lines(argv: Seq<Seq<char>>, r: Result<Args, UsageError>)
    requires
        parse_outcome(argv, r),
    ensures
        r is Ok <==> clap_outcome(recorder_model(), argv) is Ok,
        r is Err ==> {
            let error = r->Err_0;
            &&& error.use_stderr == clap_outcome(recorder_model(), argv)->Err_0
            &&& error.exit_code == 2 <==> error.use_stderr
            &&& error.exit_code == 0 <==> !error.use_stderr
            &&& is_shown_by_clap(argv, error)
        },
        r is Ok ==> {
            let found = clap_outcome(recorder_model(), argv)->Ok_0;
            let args = r->Ok_0;
            &&& args.verbose == found.flags["verbose"@]
            &&& args.recorder_path@ == found.texts["recorder-path"@][0]
            &&& args.mcap_chunk_size == found.numbers["mcap-chunk-size"@]
            &&& args.mcap_crc == found.flags["mcap-crc"@]
        },
{
    if r is Ok {
        let found = clap_outcome(recorder_model(), argv)->Ok_0;
        let values = choose|values: OptionValues|
            values.wf() && values.are(found) && #[trigger] args_from(values, r->Ok_0);
        lemma_settings_are_those_found(found, values, r->Ok_0);
    }
}

/// A command line that is not accepted changes nothing; one that is accepted leaves settings, those
/// that were there before if there were any.
pub proof fn lemma_init(
    argv: Seq<Seq<char>>,
    before: Option<Args>,
    after: Option<Args>,
    r: Result<(), UsageError>,
)
    requires
        init_outcome(argv, before, after, r),
    ensures
        r is Ok <==> clap_outcome(recorder_model(), argv) is Ok,
        r is Err ==> after == before,
        r is Ok ==> after is Some,
        before is Some ==> after == before,
        r is Ok && before is None ==> parse_outcome(argv, Ok::<Args, UsageError>(after->Some_0)),
{
}

/// The errors about a chunk size.
pub proof fn lemma_chunk_size_errors(raw: Seq<char>)
    ensures
        spelled_number(raw) == Some(0nat) ==> chunk_size_error(raw)
            == "mcap chunk size must be greater than zero"@,
        spelled_number(raw) != Some(0nat) ==> chunk_size_error(raw) == "invalid mcap chunk size "@
            + quoted(raw) + ": "@ + number_error(raw),
{
}

/// What the settings ask for: recordings go to their directory, which may be made; schemas come
/// from their directory, if one is set, which must be there; recordings are written as set and
/// flushed every 30 seconds; the log tells more exactly if that is wanted.
pub proof fn lemma_requests(args: Args)
    ensures
        recorder_request(args).path == args.recorder_path,
        recorder_request(args).create_if_not_exists,
        schema_request(args) is Some <==> args.schema_path is Some,
        schema_request(args) is Some ==> schema_request(args)->Some_0.path
            == args.schema_path->Some_0 && !schema_request(args)->Some_0.create_if_not_exists,
        write_config_of(args).compression == args.mcap_compression,
        write_config_of(args).crc == args.mcap_crc,
        write_config_of(args).chunk_size == args.mcap_chunk_size,
        write_config_of(args).flush_interval_secs == 30,
        level_of(args) == "debug"@ <==> args.verbose,
        level_of(args) == "info"@ <==> !args.verbose,
{
    reveal_strlit("debug");
    reveal_strlit("info");
    assert("debug"@.len() != "info"@.len());
}

/// A text with anything but digits in it, a plus sign in front excepted, spells no number.
pub proof fn lemma_no_number(text: Seq<char>, i: int)
    requires
        0 <= i < text.len(),
        !(48 <= text[i] as int <= 57),
        i > 0 || text[0] != '+',
    ensures
        spelled_number(text) is None,
{
    if text[0] == '+' {
        assert(text.skip(1)[i - 1] == text[i]);
        assert(!are_digits(text.skip(1)));
    } else {
        assert(!are_digits(text));
    }
}

/// The options, what they do without a value on the command line, and what may be chosen.
pub proof fn lemma_options()
    ensures
        recorder_model().name == "blueos-recorder"@,
        recorder_model().version == "0.1.0"@,
        recorder_model().options.len() == 8,
        recorder_model().options[0].long == "verbose"@,
        recorder_model().options[0].short == Some('v'),
        recorder_model().options[0].default is None,
        recorder_model().options[1].long == "recorder-path"@,
        recorder_model().options[1].default == Some("/tmp"@),
        recorder_model().options[2].long == "schema-path"@,
        recorder_model().options[2].default is None,
        recorder_model().options[3].long == "zkey"@,
        recorder_model().options[3].action is Collect,
        recorder_model().options[3].min_values == Some(1usize),
        recorder_model().options[4].long == "mcap-compression"@,
        recorder_model().options[4].choices == seq!["none"@, "lz4"@, "zstd"@],
        recorder_model().options[4].default == Some("lz4"@),
        recorder_model().options[5].long == "mcap-crc"@,
        recorder_model().options[5].default == Some("true"@),
        recorder_model().options[6].long == "mcap-chunk-size"@,
        recorder_model().options[6].is_chunk_size,
        recorder_model().options[6].default == Some("10485760"@),
        recorder_model().options[7].long == "mcap-async-io"@,
        recorder_model().options[7].default is None,
        forall|i: int|
            0 < i < 8 ==> (#[trigger] recorder_model().options[i]).short is None,
        forall|i: int|
            0 <= i < 8 ==> ((#[trigger] recorder_model().options[i]).action is Mark <==> i == 0 || i
                == 5 || i == 7),
{
}

/// A chunk size is accepted exactly if it is spelled in digits and is a number from 1 on that fits
/// in 64 bits, and it is that number.
pub proof fn lemma_chunk_sizes_are_read(raw: &str, r: Result<u64, String>)
    requires
        call_ensures(parse_chunk_size, (raw,), r),
    ensures
        r is Ok <==> spelled_number(raw@) is Some && 1 <= spelled_number(raw@)->Some_0
            <= 18446744073709551615,
        r is Ok ==> r->Ok_0 == spelled_number(raw@)->Some_0,
        r is Err && spelled_number(raw@) == Some(0nat) ==> r->Err_0@
            == "mcap chunk size must be greater than zero"@,
        r is Err && spelled_number(raw@) != Some(0nat) ==> r->Err_0@ == "invalid mcap chunk size "@
            + quoted(raw@) + ": "@ + number_error(raw@),
{
    lemma_chunk_sizes(raw@);
    lemma_chunk_size_errors(raw@);
}

/// Each compression has one name.
pub proof fn lemma_compressions_are_named(name: &str, r: Option<McapCompression>)
    requires
        call_ensures(parse_compression, (name,), r),
    ensures
        r == Some(McapCompression::Uncompressed) <==> name@ == "none"@,
        r == Some(McapCompression::Lz4) <==> name@ == "lz4"@,
        r == Some(McapCompression::Zstd) <==> name@ == "zstd"@,
        r is None <==> name@ != "none"@ && name@ != "lz4"@ && name@ != "zstd"@,
{
    lemma_compressions(name@);
}

/// A command line is accepted exactly if `clap` accepts it; the settings are then those that it
/// found, and otherwise what it shows is shown.
pub proof fn lemma_command_lines_are_read(argv: &Vec<String>, r: Result<Args, UsageError>)
    requires
        call_ensures(Args::try_parse_from, (argv,), r),
    ensures
        ({
            let outcome = clap_outcome(recorder_model(), argv@.map_values(|arg: String| arg@));
            &&& r is Ok <==> outcome is Ok
            &&& r is Ok ==> {
                &&& r->Ok_0.verbose == outcome->Ok_0.flags["verbose"@]
                &&& r->Ok_0.recorder_path@ == outcome->Ok_0.texts["recorder-path"@][0]
                &&& r->Ok_0.mcap_chunk_size == outcome->Ok_0.numbers["mcap-chunk-size"@]
                &&& r->Ok_0.mcap_crc == outcome->Ok_0.flags["mcap-crc"@]
            }
            &&& r is Err ==> {
                &&& r->Err_0.use_stderr == outcome->Err_0
                &&& r->Err_0.exit_code == 2 <==> outcome->Err_0
                &&& r->Err_0.exit_code == 0 <==> !outcome->Err_0
            }
        }),
{
    lemma_command_lines(argv@.map_values(|arg: String| arg@), r);
}

/// Settings are taken from the first command line that is accepted, with its variables expanded.
pub proof fn lemma_settings_are_kept(
    manager: &mut Manager,
    raw: &Vec<String>,
    variables: &TextMap<String>,
    r: Result<(), UsageError>,
)
    requires
        call_ensures(init, (manager, raw, variables), r),
    ensures
        ({
            let argv = expanded_args(raw@, text_values(variables@));
            &&& r is Ok <==> clap_outcome(recorder_model(), argv) is Ok
            &&& r is Err ==> final(manager)@ == old(manager)@
            &&& old(manager)@ is Some ==> final(manager)@ == old(manager)@
            &&& r is Ok ==> final(manager)@ is Some
        }),
{
    lemma_init(
        expanded_args(raw@, text_values(variables@)),
        old(manager)@,
        final(manager)@,
        r,
    );
}

/// Settings that are there stay.
pub proof fn lemma_given_settings_are_kept(manager: &mut Manager, args: Args)
    requires
        call_ensures(init_with, (manager, args), ()),
    ensures
        old(manager)@ is Some ==> final(manager)@ == old(manager)@,
        old(manager)@ is None ==> final(manager)@ == Some(args),
{
}

/// A variable that is there has its value, and one that is not is an error.
pub proof fn lemma_variables(
    variables: &TextMap<String>,
    name: &str,
    r: Result<Option<String>, ()>,
)
    requires
        call_ensures(lookup, (variables, name), r),
    ensures
        r is Ok <==> variables@.contains_key(name@),
        r is Ok ==> r->Ok_0 == Some(variables@[name@]),
{
}

/// What the settings ask for, of a manager that has some.
pub proof fn lemma_settings_are_used(
    manager: &Manager,
    level: &'static str,
    recordings: PathRequest,
    schemas: Option<PathRequest>,
    config: McapWriteConfig,
    verbose: bool,
)
    requires
        call_ensures(default_level, (manager,), level),
        call_ensures(recorder_path, (manager,), recordings),
        call_ensures(schema_path, (manager,), schemas),
        call_ensures(mcap_write_config, (manager,), config),
        call_ensures(is_verbose, (manager,), verbose),
        manager@ is Some,
    ensures
        verbose == manager@->Some_0.verbose,
        level@ == (if verbose {
            "debug"@
        } else {
            "info"@
        }),
        recordings.path == manager@->Some_0.recorder_path,
        recordings.create_if_not_exists,
        schemas is Some <==> manager@->Some_0.schema_path is Some,
        schemas is Some ==> schemas->Some_0.path == manager@->Some_0.schema_path->Some_0
            && !schemas->Some_0.create_if_not_exists,
        config.compression == manager@->Some_0.mcap_compression,
        config.crc == manager@->Some_0.mcap_crc,
        config.chunk_size == manager@->Some_0.mcap_chunk_size,
        config.flush_interval_secs == 30,
{
    lemma_requests(manager@->Some_0);
}

/// A path is used exactly if a directory is there, and a directory is made exactly if nothing is
/// there and it may be made.
pub proof fn lemma_paths(exists: bool, is_dir: bool, create_if_not_exists: bool, r: PathDecision)
    requires
        call_ensures(path_dir_from_arg, (exists, is_dir, create_if_not_exists), r),
    ensures
        r is Use <==> exists && is_dir,
        r is Create <==> !exists && create_if_not_exists,
        r is Exit <==> (exists && !is_dir) || (!exists && !create_if_not_exists),
{
    lemma_path_decisions(exists, is_dir, create_if_not_exists);
}

/// A session has four settings of its own, and after them those of the command line.
pub proof fn lemma_session_begins(config: &TextMap<String>, r: Vec<SessionSetting>, i: int)
    requires
        call_ensures(session_settings, (config,), r),
        config.wf(),
        0 <= i < config.keys@.len(),
    ensures
        r@.len() == 4 + config.keys@.len(),
        r@[0].key@ == "mode"@ && r@[0].json5@ == "\"client\""@,
        r@[1].key@ == "connect/endpoints"@ && r@[1].json5@ == "[\"tcp/127.0.0.1:7447\"]"@,
        r@[2].key@ == "adminspace"@ && r@[2].json5@ == "{\"enabled\": true}"@,
        r@[3].key@ == "metadata"@ && r@[3].json5@ == "{\"name\": \"blueos-recorder\"}"@,
        r@[4 + i].key@ == config.keys@[i]@,
        r@[4 + i].json5@ == json5_string(config.values@[i]@),
{
    lemma_session_settings(*config, i);
    let settings = settings_view(r@);
    assert(settings.len() == r@.len());
    assert(settings[0] == (r@[0].key@, r@[0].json5@));
    assert(settings[1] == (r@[1].key@, r@[1].json5@));
    assert(settings[2] == (r@[2].key@, r@[2].json5@));
    assert(settings[3] == (r@[3].key@, r@[3].json5@));
    assert(settings[4 + i] == (r@[4 + i].key@, r@[4 + i].json5@));
}

/// Every argument is put in the place of itself, with its variables expanded if they can be.
pub proof fn lemma_arguments_are_expanded(
    raw: &Vec<String>,
    variables: &TextMap<String>,
    r: Vec<String>,
    i: int,
)
    requires
        call_ensures(expand_args, (raw, variables), r),
        0 <= i < raw@.len(),
    ensures
        r@.len() == raw@.len(),
        ({
            let expanded = expanded_text(raw@[i]@, text_values(variables@));
            &&& expanded is Some ==> r@[i]@ == expanded->Some_0
            &&& expanded is None ==> r@[i]@ == raw@[i]@
        }),
{
    lemma_expanded_args(raw@, text_values(variables@), i);
    assert(r@.map_values(|arg: String| arg@)[i] == r@[i]@);
}

/// A text in a JSON5 string: quotes, line ends, tabs and backslashes are escaped, and most others
/// stand as they are.
pub proof fn lemma_json5_strings(text: Seq<char>, c: char)
    ensures
        json5_string(seq![]) == seq!['"', '"'],
        ({
            let shown = json5_string(text);
            let longer = json5_string(text.push(c));
            &&& shown[0] == '"' && shown.last() == '"'
            &&& c == '"' ==> longer == shown.drop_last() + seq!['\\', '"', '"']
            &&& c == '\\' ==> longer == shown.drop_last() + seq!['\\', '\\', '"']
            &&& c == '\n' ==> longer == shown.drop_last() + seq!['\\', 'n', '"']
            &&& c == '\r' ==> longer == shown.drop_last() + seq!['\\', 'r', '"']
            &&& c == '\t' ==> longer == shown.drop_last() + seq!['\\', 't', '"']
            &&& c == '\u{8}' ==> longer == shown.drop_last() + seq!['\\', 'b', '"']
            &&& c == '\u{c}' ==> longer == shown.drop_last() + seq!['\\', 'f', '"']
            &&& c as int >= 32 && c != '"' && c != '\\' ==> longer == shown.drop_last() + seq![
                c,
                '"',
            ]
        }),
{
    assert(text.push(c).drop_last() =~= text);
    assert(json5_string(text).drop_last() =~= seq!['"'] + escaped(text));
    assert(json5_string(text.push(c)) =~= seq!['"'] + escaped(text) + (escaped_char(c) + seq![
        '"',
    ]));
}

/// The settings of the session are those of the command line, taken apart at the first equals sign.
pub proof fn lemma_keys_are_taken_apart(
    manager: &Manager,
    r: TextMap<String>,
    key: Seq<char>,
    value: Seq<char>,
)
    requires
        call_ensures(zkey_config, (manager,), r),
        manager@ is Some,
        manager@->Some_0.zkey@.len() > 0,
        manager@->Some_0.zkey@.last()@ == key + seq!['='] + value,
        !key.contains('='),
    ensures
        r@.contains_key(key),
        r@[key]@ == value,
{
    let zkey = manager@->Some_0.zkey@;
    lemma_one_more_key(zkey, (zkey.len() - 1) as nat, key, value, key);
    assert(text_values(r@).contains_key(key));
    assert(text_values(r@)[key] == r@[key]@);
}

/// There are no settings at first, and afterwards there are those that were kept.
pub proof fn lemma_managers(manager: Manager, known: &Manager, has_settings: bool, r: &Args)
    requires
        call_ensures(Manager::new, (), manager),
        call_ensures(Manager::is_initialized, (known,), has_settings),
        call_ensures(args, (known,), r),
    ensures
        manager@ is None,
        has_settings <==> known@ is Some,
        has_settings ==> known@ == Some(*r),
{
}

} // verus!
