use vstd::prelude::*;

verus! {

/// What `{:?}` prints for a string: the text in double quotes, with special
/// characters escaped.
pub uninterp spec fn debug_quoted(s: Seq<char>) -> Seq<char>;

/// The words of `s`, split at runs of Unicode white space.
pub uninterp spec fn whitespace_words(s: Seq<char>) -> Seq<Seq<char>>;

/// Relies on the `Debug` impl of `str`, which writes the text quoted and escaped.
#[verifier::external_body]
fn quote(s: &str) -> (r: String)
    ensures
        r@ == debug_quoted(s@),
{
    format!("{:?}", s)
}

/// Relies on `str::split_whitespace`: the non-empty words between white space.
#[verifier::external_body]
fn split_words(s: &str) -> (r: Vec<String>)
    ensures
        r.deep_view() == whitespace_words(s@),
        s@.len() == 0 ==> r@.len() == 0,
{
    s.split_whitespace().map(|w| w.to_string()).collect()
}

/// The display line of an invocation: the engine, the flags followed by one
/// space where there are any, the quoted pattern and the files argument.
pub open spec fn dump_text(
    engine: Seq<char>,
    flags: Option<Seq<char>>,
    quoted: Seq<char>,
    files: Seq<char>,
) -> Seq<char> {
    let head = engine + seq![' '];
    let with_flags = match flags {
        Some(f) => if f.len() > 0 {
            head + f + seq![' ']
        } else {
            head
        },
        None => head,
    };
    with_flags + quoted + seq![' '] + files
}

/// The flags as text.
pub open spec fn flag_view(flags: Option<String>) -> Option<Seq<char>> {
    match flags {
        Some(f) => Some(f@),
        None => None,
    }
}

/// Lays out a dump line from a pattern that is already quoted.
pub fn render_dump(engine: &str, flags: &Option<String>, quoted: &str, files: &str) -> (r: String)
    ensures
        r@ == dump_text(engine@, flag_view(*flags), quoted@, files@),
{
    proof {
        reveal_strlit(" ");
    }
    let mut r = String::from_str(engine);
    r.append(" ");
    match flags {
        Some(f) => {
            if f.as_str().unicode_len() > 0 {
                r.append(f.as_str());
                r.append(" ");
            }
        },
        None => {},
    }
    r.append(quoted);
    r.append(" ");
    r.append(files);
    assert(r@ =~= dump_text(engine@, flag_view(*flags), quoted@, files@));
    r
}

/// The line that dump mode prints for running `engine` with `flags` on
/// `pattern` over `files`; the pattern is shown quoted.
pub fn dump_command(engine: &str, flags: &Option<String>, pattern: &str, files: &str) -> (r:
    String)
    ensures
        r@ == dump_text(engine@, flag_view(*flags), debug_quoted(pattern@), files@),
{
    let quoted = quote(pattern);
    render_dump(engine, flags, quoted.as_str(), files)
}

/// The words of the flags, none when there are no flags.
pub open spec fn flag_words(flags: Option<Seq<char>>) -> Seq<Seq<char>> {
    match flags {
        Some(f) => whitespace_words(f),
        None => Seq::empty(),
    }
}

/// The arguments the engine is given: the words of the flags, the pattern,
/// and the files argument unless input comes from a pipe.
pub open spec fn engine_arg_list(
    flags: Option<Seq<char>>,
    pattern: Seq<char>,
    files: Seq<char>,
    stdin_is_pipe: bool,
) -> Seq<Seq<char>> {
    let with_pattern = flag_words(flags).push(pattern);
    if stdin_is_pipe {
        with_pattern
    } else {
        with_pattern.push(files)
    }
}

/// The engine's argument list from the words of the flags: the words, the
/// pattern, and the files argument unless input comes from a pipe.
pub fn assemble_args(words: Vec<String>, pattern: &str, files: &str, stdin_is_pipe: bool) -> (r:
    Vec<String>)
    ensures
        r.deep_view() == ({
            let with_pattern = words.deep_view().push(pattern@);
            if stdin_is_pipe {
                with_pattern
            } else {
                with_pattern.push(files@)
            }
        }),
{
    let mut r = words;
    let ghost before = r.deep_view();
    r.push(String::from_str(pattern));
    assert(r.deep_view() =~= before.push(pattern@));
    if !stdin_is_pipe {
        let ghost with_pattern = r.deep_view();
        r.push(String::from_str(files));
        assert(r.deep_view() =~= with_pattern.push(files@));
    }
    r
}

/// Builds the engine's argument list.
pub fn engine_args(flags: &Option<String>, pattern: &str, files: &str, stdin_is_pipe: bool) -> (r:
    Vec<String>)
    ensures
        r.deep_view() == engine_arg_list(flag_view(*flags), pattern@, files@, stdin_is_pipe),
{
    let words = match flags {
        Some(f) => split_words(f.as_str()),
        None => Vec::new(),
    };
    assert(words.deep_view() =~= flag_words(flag_view(*flags)));
    assemble_args(words, pattern, files, stdin_is_pipe)
}

/// The files argument when none is given: the current directory.
pub open spec fn default_files() -> Seq<char> {
    seq!['.']
}

/// The files argument: the first extra argument, or the current directory.
pub open spec fn files_of(args: Seq<Seq<char>>) -> Seq<char> {
    if args.len() > 0 {
        args[0]
    } else {
        default_files()
    }
}

/// Picks the files argument out of the extra command-line arguments.
pub fn files_argument(args: &Vec<String>) -> (r: String)
    ensures
        r@ == files_of(args.deep_view()),
{
    if args.len() > 0 {
        args[0].clone()
    } else {
        proof {
            reveal_strlit(".");
        }
        let r = String::from_str(".");
        assert(r@ =~= default_files());
        r
    }
}

/// The exit code after the engine ran: zero on success, else the engine's own
/// code, or one when it has none.
pub fn exit_code(success: bool, code: Option<i32>) -> (r: i32)
    ensures
        success ==> r == 0,
        !success ==> r == match code {
            Some(c) => c,
            None => 1,
        },
{
    if success {
        0
    } else {
        match code {
            Some(c) => c,
            None => 1,
        }
    }
}

/// When input comes from a pipe the files argument is left out; otherwise it
/// is the last argument, and the current directory when none was given.
pub proof fn lemma_files_argument_placement(
    flags: Option<Seq<char>>,
    pattern: Seq<char>,
    args: Seq<Seq<char>>,
    stdin_is_pipe: bool,
)
    ensures
        ({
            let l = engine_arg_list(flags, pattern, files_of(args), stdin_is_pipe);
            &&& stdin_is_pipe ==> l.len() == flag_words(flags).len() + 1 && l.last() == pattern
            &&& !stdin_is_pipe ==> l.len() == flag_words(flags).len() + 2
            &&& !stdin_is_pipe ==> l.last() == files_of(args) && l.drop_last().last() == pattern
            &&& !stdin_is_pipe && args.len() == 0 ==> l.last() == default_files()
        }),
{
}

} // verus!
