use vstd::prelude::*;
use crate::text::{is_word, join3};

verus! {

/// What one invocation of the tool is asked to do.
#[derive(Debug)]
pub enum Command {
    /// Print the detailed help text.
    Help,
    /// Remove every stored credential.
    DeleteKeys,
    /// Send one request; each argument is a file path or the text itself.
    Run { prompt: Option<String>, input: String },
    /// The arguments have no meaning: print the usage lines and fail.
    Usage,
}

/// The views of the command-line arguments, program name first.
pub open spec fn arg_views(args: Seq<String>) -> Seq<Seq<char>> {
    args.map_values(|s: String| s@)
}

/// Whether `c` is the meaning of the argument list `a` (program name first).
pub open spec fn parses_as(a: Seq<Seq<char>>, c: Command) -> bool {
    if a.len() == 2 && (a[1] == "--help"@ || a[1] == "-h"@) {
        c is Help
    } else if a.len() == 2 && a[1] == "--delete-keys"@ {
        c is DeleteKeys
    } else if a.len() == 2 {
        match c {
            Command::Run { prompt, input } => prompt is None && input@ == a[1],
            _ => false,
        }
    } else if a.len() == 4 && a[1] == "--prompt"@ {
        match c {
            Command::Run { prompt, input } => prompt is Some && prompt.unwrap()@ == a[2]
                && input@ == a[3],
            _ => false,
        }
    } else {
        c is Usage
    }
}

/// Reads the argument list, program name first.
pub fn parse_args(args: &Vec<String>) -> (r: Command)
    ensures
        parses_as(arg_views(args@), r),
{
    let n = args.len();
    if n == 2 && (is_word(&args[1], "--help") || is_word(&args[1], "-h")) {
        Command::Help
    } else if n == 2 && is_word(&args[1], "--delete-keys") {
        Command::DeleteKeys
    } else if n == 2 {
        Command::Run { prompt: None, input: args[1].clone() }
    } else if n == 4 && is_word(&args[1], "--prompt") {
        Command::Run { prompt: Some(args[2].clone()), input: args[3].clone() }
    } else {
        Command::Usage
    }
}

/// The text an argument stands for: the contents of the file it names when
/// that file could be read, else the argument itself, verbatim.
pub open spec fn resolved_text(arg: Seq<char>, contents: Option<Seq<char>>) -> Seq<char> {
    match contents {
        Some(c) => c,
        None => arg,
    }
}

/// The view of an optional string.
pub open spec fn opt_view(o: Option<String>) -> Option<Seq<char>> {
    match o {
        Some(s) => Some(s@),
        None => None,
    }
}

/// Resolves an argument given the outcome of reading it as a file path
/// (`None` when reading failed for any reason).
pub fn resolve_text(arg: &String, contents: Option<String>) -> (r: String)
    ensures
        r@ == resolved_text(arg@, opt_view(contents)),
        contents is Some ==> r@ == contents.unwrap()@,
        contents is None ==> r@ == arg@,
{
    match contents {
        Some(c) => c,
        None => arg.clone(),
    }
}

/// The system prompt used when none is given.
pub open spec fn spec_default_prompt() -> Seq<char> {
    "You are an AI assistant that helps people find information."@
}

/// The system prompt used when none is given.
pub fn default_prompt() -> (r: String)
    ensures
        r@ == spec_default_prompt(),
{
    String::from_str("You are an AI assistant that helps people find information.")
}

/// The usage lines written to the error stream for a malformed invocation.
pub open spec fn usage_spec(p: Seq<char>) -> Seq<Seq<char>> {
    seq![
        "Usage: "@ + p + " [--prompt <prompt_file_or_text>] <input_file_or_text>"@,
        "       "@ + p + " --delete-keys    # to delete stored credentials"@,
        "       "@ + p + " --help           # show detailed help"@,
    ]
}

/// The usage lines for the program named `program`.
pub fn usage_lines(program: &str) -> (r: Vec<String>)
    ensures
        r@.map_values(|s: String| s@) == usage_spec(program@),
{
    let mut r: Vec<String> = Vec::new();
    r.push(join3("Usage: ", program, " [--prompt <prompt_file_or_text>] <input_file_or_text>"));
    r.push(join3("       ", program, " --delete-keys    # to delete stored credentials"));
    r.push(join3("       ", program, " --help           # show detailed help"));
    assert(r@.map_values(|s: String| s@) =~= usage_spec(program@));
    r
}

/// The detailed help text, one entry per printed line.
pub open spec fn help_spec(p: Seq<char>) -> Seq<Seq<char>> {
    seq![
        "AI Command Line Tool\n"@,
        "USAGE:"@,
        "    "@ + p + " [--prompt <prompt_file_or_text>] <input_file_or_text>"@,
        "    "@ + p + " --delete-keys"@,
        "    "@ + p + " --help\n"@,
        "DESCRIPTION:"@,
        "    A command line tool for interacting with Azure OpenAI services.\n"@,
        "OPTIONS:"@,
        "    --prompt <prompt_file_or_text>  Specify system prompt from file or direct text"@,
        "                                    If not provided, defaults to general assistance"@,
        "    --delete-keys                   Delete all stored credentials"@,
        "    --help, -h                      Display this help message\n"@,
        "ARGUMENTS:"@,
        "    <input_file_or_text>            Input to process - either a file path or direct text\n"@,
        "CREDENTIALS:"@,
        "    The tool securely stores the following credentials:"@,
        "    - Azure OpenAI API Key"@,
        "    - Azure OpenAI Endpoint"@,
        "    - Azure OpenAI Deployment Name\n"@,
        "    On first launch, you will be prompted to enter these credentials."@,
        "    They will be stored securely in the system keyring for future use."@,
        "    Use --delete-keys to remove stored credentials.\n"@,
    ]
}

/// The detailed help text for the program named `program`.
pub fn help_lines(program: &str) -> (r: Vec<String>)
    ensures
        r@.map_values(|s: String| s@) == help_spec(program@),
{
    let mut r: Vec<String> = Vec::new();
    r.push(String::from_str("AI Command Line Tool\n"));
    r.push(String::from_str("USAGE:"));
    r.push(join3("    ", program, " [--prompt <prompt_file_or_text>] <input_file_or_text>"));
    r.push(join3("    ", program, " --delete-keys"));
    r.push(join3("    ", program, " --help\n"));
    r.push(String::from_str("DESCRIPTION:"));
    r.push(String::from_str("    A command line tool for interacting with Azure OpenAI services.\n"));
    r.push(String::from_str("OPTIONS:"));
    r.push(String::from_str("    --prompt <prompt_file_or_text>  Specify system prompt from file or direct text"));
    r.push(String::from_str("                                    If not provided, defaults to general assistance"));
    r.push(String::from_str("    --delete-keys                   Delete all stored credentials"));
    r.push(String::from_str("    --help, -h                      Display this help message\n"));
    r.push(String::from_str("ARGUMENTS:"));
    r.push(String::from_str("    <input_file_or_text>            Input to process - either a file path or direct text\n"));
    r.push(String::from_str("CREDENTIALS:"));
    r.push(String::from_str("    The tool securely stores the following credentials:"));
    r.push(String::from_str("    - Azure OpenAI API Key"));
    r.push(String::from_str("    - Azure OpenAI Endpoint"));
    r.push(String::from_str("    - Azure OpenAI Deployment Name\n"));
    r.push(String::from_str("    On first launch, you will be prompted to enter these credentials."));
    r.push(String::from_str("    They will be stored securely in the system keyring for future use."));
    r.push(String::from_str("    Use --delete-keys to remove stored credentials.\n"));
    assert(r@.map_values(|s: String| s@) =~= help_spec(program@));
    r
}

} // verus!
