//! The command line: what it must hold and what of it the game is given.
use vstd::prelude::*;
use vstd::utf8::{decode_utf8, encode_utf8, valid_utf8};

verus! {

/// The arguments of the program.
#[derive(Debug)]
pub struct Args {
    /// The directory with the game data and the sounds.
    pub asset_dir: Option<Vec<u8>>,
    /// The control endpoint.
    pub control_endpoint: Option<String>,
    /// The endpoint of the audio track, where it has one of its own.
    pub realtime_endpoint: Option<String>,
    /// The endpoint of the raster track, where it has one of its own.
    pub bulk_endpoint: Option<String>,
    /// Whether diagnostics are printed.
    pub verbose: bool,
    /// What is handed on to the game, verbatim. Where arguments are no bytes but text, these are
    /// the bytes of the text in UTF-8.
    pub doom_args: Vec<Vec<u8>>,
}

/// Why the program cannot start.
#[derive(Debug, Clone, Copy, PartialEq, Eq, Structural)]
pub enum ArgsError {
    EndpointMissing,
}

impl ArgsError {
    /// The text of the error.
    pub fn message(&self) -> (text: String)
        ensures
            text@
                == "VIVID_ENDPOINT_CONTROL is not set; run vvdoom inside Vivido, through vvssh, or in a Vivid-enabled vvmux pane"@,
    {
        "VIVID_ENDPOINT_CONTROL is not set; run vvdoom inside Vivido, through vvssh, or in a Vivid-enabled vvmux pane".to_owned()
    }
}

impl Args {
    /// Checks that there is a control endpoint.
    pub fn validate(&self) -> (result: Result<(), ArgsError>)
        ensures
            result == (if self.control_endpoint is Some {
                Ok(())
            } else {
                Err(ArgsError::EndpointMissing)
            }),
            result is Ok <==> self.control_endpoint is Some,
    {
        if self.control_endpoint.is_none() {
            return Err(ArgsError::EndpointMissing);
        }
        Ok(())
    }
}

/// The first of the places where the game data may be: the directory that was asked for, the one
/// that the environment names, the local one if it exists, and the one that came with the program.
pub fn asset_dir_candidate<P>(
    explicit: Option<P>,
    environment: Option<P>,
    local: Option<P>,
    bundled: P,
) -> (candidate: P)
    ensures
        candidate == match (explicit, environment, local) {
            (Some(path), _, _) => path,
            (None, Some(path), _) => path,
            (None, None, Some(path)) => path,
            (None, None, None) => bundled,
        },
        explicit is Some ==> candidate == explicit.unwrap(),
        explicit is None && environment is Some ==> candidate == environment.unwrap(),
        explicit is None && environment is None && local is Some ==> candidate == local.unwrap(),
        explicit is None && environment is None && local is None ==> candidate == bundled,
{
    match explicit {
        Some(path) => path,
        None => match environment {
            Some(path) => path,
            None => match local {
                Some(path) => path,
                None => bundled,
            },
        },
    }
}

/// A character with ASCII capitals made small.
pub open spec fn ascii_lower(c: char) -> char {
    if 'A' <= c && c <= 'Z' {
        (c as int + 0x20) as char
    } else {
        c
    }
}

/// Whether two texts differ at most in the case of ASCII letters.
pub open spec fn same_ignoring_case(first: Seq<char>, second: Seq<char>) -> bool {
    &&& first.len() == second.len()
    &&& forall|i: int| 0 <= i < first.len() ==> ascii_lower(first[i]) == ascii_lower(second[i])
}

/// `str::eq_ignore_ascii_case`: whether two texts become equal when their ASCII capitals are made
/// small, all other characters being left as they are.
pub assume_specification[ str::eq_ignore_ascii_case ](s: &str, other: &str) -> (same: bool)
    ensures
        same == same_ignoring_case(s@, other@),
;

/// What the strings of a list say.
pub open spec fn texts(list: Seq<String>) -> Seq<Seq<char>> {
    list.map_values(|text: String| text@)
}

/// The bytes of the arguments.
pub open spec fn bytes(args: Seq<Vec<u8>>) -> Seq<Seq<u8>> {
    args.map_values(|arg: Vec<u8>| arg@)
}

/// What `String::from_utf8_lossy` makes of bytes that are not UTF-8.
pub uninterp spec fn lossy_text(bytes: Seq<u8>) -> Seq<char>;

/// What an argument says: its text, with replacements where it is not UTF-8.
pub open spec fn argument_text(arg: Seq<u8>) -> Seq<char> {
    if valid_utf8(arg) {
        decode_utf8(arg)
    } else {
        lossy_text(arg)
    }
}

/// `String::from_utf8_lossy`: the text of bytes that are UTF-8. Of other bytes it makes a text
/// that depends on them alone, in which a replacement character stands for what is not UTF-8;
/// which text that is, is left unsaid.
#[verifier::external_body]
fn read_text(arg: &[u8]) -> (text: String)
    ensures
        valid_utf8(arg@) ==> text@ == decode_utf8(arg@),
        !valid_utf8(arg@) ==> text@ == lossy_text(arg@),
{
    String::from_utf8_lossy(arg).into_owned()
}

/// Whether one of the arguments is `flag`, in whatever case.
pub open spec fn has_flag(args: Seq<Seq<u8>>, flag: Seq<char>) -> bool {
    exists|i: int|
        0 <= i < args.len() && same_ignoring_case(argument_text(#[trigger] args[i]), flag)
}

/// Whether what an argument says is `flag`, in whatever case.
pub fn is_flag(text: &str, flag: &str) -> (same: bool)
    ensures
        same == same_ignoring_case(text@, flag@),
{
    text.eq_ignore_ascii_case(flag)
}

/// Whether one of the arguments is `flag`, in whatever case.
pub fn has_doom_flag(args: &[Vec<u8>], flag: &str) -> (found: bool)
    ensures
        found == has_flag(bytes(args@), flag@),
{
    let mut index: usize = 0;
    while index < args.len()
        invariant
            index <= args@.len(),
            forall|i: int|
                0 <= i < index ==> !same_ignoring_case(
                    argument_text(#[trigger] bytes(args@)[i]),
                    flag@,
                ),
        decreases args@.len() - index,
    {
        let text = read_text(args[index].as_slice());
        assert(bytes(args@)[index as int] == args@[index as int]@);
        if is_flag(text.as_str(), flag) {
            return true;
        }
        index = index + 1;
    }
    false
}

/// Whether the game is to have sound: unless it is told otherwise.
pub fn sound_enabled(doom_args: &[Vec<u8>]) -> (enabled: bool)
    ensures
        enabled == !has_flag(bytes(doom_args@), "-nosound"@),
{
    !has_doom_flag(doom_args, "-nosound")
}

/// The file with the game data that came with the program, in the directory with the game data.
pub const DEFAULT_IWAD: &'static str = "doom1.wad";

/// The name by which the program was called, or its own.
pub open spec fn program_name(program: Option<Vec<u8>>) -> Seq<u8> {
    match program {
        Some(program) => program@,
        None => encode_utf8("vvdoom"@),
    }
}

/// The arguments of the game: its name, the game data unless the user names it, and what the user
/// gave.
pub open spec fn doom_argv(name: Seq<u8>, iwad: Seq<u8>, doom_args: Seq<Seq<u8>>) -> Seq<Seq<u8>> {
    if has_flag(doom_args, "-iwad"@) {
        seq![name] + doom_args
    } else {
        seq![name, encode_utf8("-iwad"@), iwad] + doom_args
    }
}

/// The arguments of the game. `program` is the name by which the program was called, and
/// `default_iwad` the path of the game data that came with it.
pub fn build_doom_argv(
    program: Option<Vec<u8>>,
    default_iwad: Vec<u8>,
    doom_args: Vec<Vec<u8>>,
) -> (argv: Vec<Vec<u8>>)
    ensures
        bytes(argv@) == doom_argv(
            program_name(program),
            default_iwad@,
            bytes(doom_args@),
        ),
{
    let mut argv: Vec<Vec<u8>> = Vec::new();
    let ghost name = program_name(program);
    match program {
        Some(program) => argv.push(program),
        None => argv.push(vstd::slice::slice_to_vec("vvdoom".as_bytes())),
    }
    let ghost iwad = default_iwad@;
    let explicit = has_doom_flag(doom_args.as_slice(), "-iwad");
    if !explicit {
        argv.push(vstd::slice::slice_to_vec("-iwad".as_bytes()));
        argv.push(default_iwad);
    }
    assert(bytes(argv@) =~= if explicit {
        seq![name]
    } else {
        seq![name, encode_utf8("-iwad"@), iwad]
    });
    let ghost head = argv@;
    let mut rest = doom_args;
    argv.append(&mut rest);
    assert(argv@ == head + doom_args@);
    assert(bytes(argv@) =~= bytes(head) + bytes(doom_args@));
    argv
}

/// An argument for C: its bytes, then a zero.
pub open spec fn c_text(arg: Seq<u8>) -> Seq<u8> {
    arg.push(0)
}

/// Whether an argument contains a zero, so that C would not see all of it.
pub open spec fn has_nul(arg: Seq<u8>) -> bool {
    arg.contains(0)
}

/// Whether an argument contains a zero.
fn contains_nul(arg: &[u8]) -> (found: bool)
    ensures
        found == has_nul(arg@),
{
    let mut index: usize = 0;
    while index < arg.len()
        invariant
            index <= arg@.len(),
            forall|i: int| 0 <= i < index ==> arg@[i] != 0,
        decreases arg@.len() - index,
    {
        if arg[index] == 0 {
            assert(arg@[index as int] == 0);
            return true;
        }
        index = index + 1;
    }
    false
}

/// The arguments for C, verbatim. Where an argument contains a zero, its index is the error.
pub fn to_c_args(args: &[Vec<u8>]) -> (c_args: Result<Vec<Vec<u8>>, usize>)
    ensures
        match c_args {
            Ok(c_args) => {
                &&& c_args@.len() == args@.len()
                &&& forall|i: int|
                    0 <= i < args@.len() ==> !has_nul(#[trigger] args@[i]@) && c_args@[i]@
                        == c_text(args@[i]@)
            },
            Err(index) => {
                &&& index < args@.len() && has_nul(args@[index as int]@)
                &&& forall|i: int| 0 <= i < index ==> !has_nul(#[trigger] args@[i]@)
            },
        },
{
    let mut c_args: Vec<Vec<u8>> = Vec::new();
    let mut index: usize = 0;
    while index < args.len()
        invariant
            index <= args@.len(),
            c_args@.len() == index,
            forall|i: int|
                0 <= i < index ==> !has_nul(#[trigger] args@[i]@) && c_args@[i]@ == c_text(
                    args@[i]@,
                ),
        decreases args@.len() - index,
    {
        let arg = args[index].as_slice();
        if contains_nul(arg) {
            return Err(index);
        }
        let mut c_arg = vstd::slice::slice_to_vec(arg);
        c_arg.push(0);
        c_args.push(c_arg);
        index = index + 1;
    }
    Ok(c_args)
}

/// The game always knows its data: one of its arguments is `-iwad`.
pub proof fn law_game_data_is_always_named(
    name: Seq<u8>,
    iwad: Seq<u8>,
    doom_args: Seq<Seq<u8>>,
)
    ensures
        has_flag(doom_argv(name, iwad, doom_args), "-iwad"@),
{
    broadcast use vstd::utf8::encode_utf8_valid_utf8, vstd::utf8::encode_utf8_decode_utf8;

    let argv = doom_argv(name, iwad, doom_args);
    if has_flag(doom_args, "-iwad"@) {
        let i = choose|i: int|
            0 <= i < doom_args.len() && same_ignoring_case(
                argument_text(#[trigger] doom_args[i]),
                "-iwad"@,
            );
        assert(argv[i + 1] == doom_args[i]);
    } else {
        assert(argv[1] == encode_utf8("-iwad"@));
        assert(argument_text(argv[1]) == "-iwad"@);
    }
}

/// The user's arguments reach the game unchanged, in their order and after all others.
pub proof fn law_user_arguments_are_kept(name: Seq<u8>, iwad: Seq<u8>, doom_args: Seq<Seq<u8>>)
    ensures
        doom_args.is_suffix_of(doom_argv(name, iwad, doom_args)),
{
    let argv = doom_argv(name, iwad, doom_args);
    assert(argv.subrange(argv.len() - doom_args.len(), argv.len() as int) =~= doom_args);
}

/// The game data that the user names is not overridden: nothing but the program's name is added.
pub proof fn law_explicit_game_data_is_preserved(
    name: Seq<u8>,
    iwad: Seq<u8>,
    doom_args: Seq<Seq<u8>>,
)
    requires
        has_flag(doom_args, "-iwad"@),
    ensures
        doom_argv(name, iwad, doom_args).skip(1) == doom_args,
{
    assert(doom_argv(name, iwad, doom_args).skip(1) =~= doom_args);
}

/// The case of a flag does not matter, neither in the arguments nor in the question.
pub proof fn law_flags_ignore_case(args: Seq<Seq<u8>>, flag: Seq<char>, other: Seq<char>)
    requires
        same_ignoring_case(flag, other),
    ensures
        has_flag(args, flag) == has_flag(args, other),
{
    if has_flag(args, flag) {
        let i = choose|i: int|
            0 <= i < args.len() && same_ignoring_case(argument_text(#[trigger] args[i]), flag);
        assert(same_ignoring_case(argument_text(args[i]), other));
    }
    if has_flag(args, other) {
        let i = choose|i: int|
            0 <= i < args.len() && same_ignoring_case(argument_text(#[trigger] args[i]), other);
        assert(same_ignoring_case(argument_text(args[i]), flag));
    }
}

/// C sees every argument whole: the bytes before the first zero are the argument.
pub proof fn law_c_arguments_are_whole(arg: Seq<u8>)
    requires
        !has_nul(arg),
    ensures
        c_text(arg).last() == 0,
        forall|i: int| 0 <= i < c_text(arg).len() - 1 ==> c_text(arg)[i] != 0,
        c_text(arg).drop_last() == arg,
{
    assert(c_text(arg).drop_last() =~= arg);
    assert forall|i: int| 0 <= i < c_text(arg).len() - 1 implies c_text(arg)[i] != 0 by {
        if arg[i] == 0 {
            assert(arg.contains(0));
        }
    }
}

/// A flag is found wherever it stands among the arguments, in whatever case, and only where it
/// stands.
pub proof fn law_flags_are_found_anywhere(
    args: Seq<Seq<u8>>,
    flag: Seq<char>,
    said: Seq<char>,
    index: int,
)
    requires
        0 <= index < args.len(),
        args[index] == encode_utf8(said),
        said.len() == flag.len(),
        forall|i: int|
            0 <= i < flag.len() ==> said[i] == #[trigger] flag[i] || 'A' <= said[i] <= 'Z' && flag[i]
                as int == said[i] as int + 0x20 || 'A' <= flag[i] <= 'Z' && said[i] as int == flag[i]
                as int + 0x20,
    ensures
        has_flag(args, flag),
{
    broadcast use vstd::utf8::encode_utf8_valid_utf8, vstd::utf8::encode_utf8_decode_utf8;

    assert(argument_text(args[index]) == said);
    assert forall|i: int| 0 <= i < said.len() implies ascii_lower(said[i]) == ascii_lower(flag[i]) by {
        assert(said[i] == flag[i] || 'A' <= said[i] <= 'Z' || 'A' <= flag[i] <= 'Z');
    }
    assert(same_ignoring_case(argument_text(args[index]), flag));
}

/// An argument that differs from a flag in more than the case of ASCII letters makes no difference,
/// wherever it stands. Without arguments there is no flag.
pub proof fn law_other_arguments_are_no_flags(
    args: Seq<Seq<u8>>,
    flag: Seq<char>,
    said: Seq<char>,
    index: int,
)
    requires
        0 <= index <= args.len(),
        said.len() != flag.len() || exists|i: int|
            0 <= i < flag.len() && !(#[trigger] said[i] == flag[i] || 'A' <= said[i] <= 'Z'
                && flag[i] as int == said[i] as int + 0x20 || 'A' <= flag[i] <= 'Z' && said[i] as int
                == flag[i] as int + 0x20),
    ensures
        has_flag(args.insert(index, encode_utf8(said)), flag) == has_flag(args, flag),
        !has_flag(Seq::empty(), flag),
{
    broadcast use vstd::utf8::encode_utf8_valid_utf8, vstd::utf8::encode_utf8_decode_utf8;

    let longer = args.insert(index, encode_utf8(said));
    assert(argument_text(encode_utf8(said)) == said);
    if said.len() == flag.len() {
        let i = choose|i: int|
            0 <= i < flag.len() && !(#[trigger] said[i] == flag[i] || 'A' <= said[i] <= 'Z'
                && flag[i] as int == said[i] as int + 0x20 || 'A' <= flag[i] <= 'Z' && said[i] as int
                == flag[i] as int + 0x20);
        assert(ascii_lower(said[i]) != ascii_lower(flag[i]));
    }
    assert(!same_ignoring_case(said, flag));
    if has_flag(longer, flag) {
        let i = choose|i: int|
            0 <= i < longer.len() && same_ignoring_case(argument_text(#[trigger] longer[i]), flag);
        assert(i != index);
        if i < index {
            assert(args[i] == longer[i]);
        } else {
            assert(args[i - 1] == longer[i]);
        }
    }
    if has_flag(args, flag) {
        let i = choose|i: int|
            0 <= i < args.len() && same_ignoring_case(argument_text(#[trigger] args[i]), flag);
        if i < index {
            assert(longer[i] == args[i]);
        } else {
            assert(longer[i + 1] == args[i]);
        }
    }
}

/// The game is called by its name. Unless the user names the game data, `-iwad` and the default
/// data come next, and then what the user gave, argument by argument.
pub proof fn law_arguments_stand_in_order(name: Seq<u8>, iwad: Seq<u8>, doom_args: Seq<Seq<u8>>)
    ensures
        ({
            let argv = doom_argv(name, iwad, doom_args);
            let added = argv.len() - doom_args.len();
            &&& argv[0] == name
            &&& has_flag(doom_args, "-iwad"@) ==> added == 1
            &&& !has_flag(doom_args, "-iwad"@) ==> {
                &&& added == 3
                &&& argv[1] == encode_utf8("-iwad"@)
                &&& argv[2] == iwad
            }
            &&& forall|i: int|
                0 <= i < doom_args.len() ==> #[trigger] doom_args[i] == argv[i + added]
        }),
{
}

/// The program is known by the name that it was called by, and as `vvdoom` where there was none.
pub proof fn law_program_keeps_its_name(program: Vec<u8>)
    ensures
        program_name(Some(program)) == program@,
        program_name(None) == encode_utf8("vvdoom"@),
{
}

/// An argument has a zero exactly if one of its bytes is zero.
pub proof fn law_zeros_are_found_anywhere(arg: Seq<u8>, index: int)
    requires
        0 <= index < arg.len(),
    ensures
        arg[index] == 0 ==> has_nul(arg),
        !has_nul(arg) ==> arg[index] != 0,
        arg[index] != 0 ==> has_nul(arg) == (has_nul(arg.take(index)) || has_nul(
            arg.skip(index + 1),
        )),
        !has_nul(Seq::empty()),
{
    if arg[index] == 0 {
        assert(arg.contains(0));
    } else if has_nul(arg) {
        let i = arg.index_of(0);
        if i < index {
            assert(arg.take(index)[i] == 0);
        } else {
            assert(arg.skip(index + 1)[i - index - 1] == 0);
        }
    }
    if has_nul(arg.take(index)) {
        let i = arg.take(index).index_of(0);
        assert(arg[i] == 0);
    }
    if has_nul(arg.skip(index + 1)) {
        let i = arg.skip(index + 1).index_of(0);
        assert(arg[i + index + 1] == 0);
    }
}

/// A list of arguments is read argument by argument: each says its own bytes, and its own text
/// where it is UTF-8.
pub proof fn law_arguments_are_read_one_by_one(args: Seq<Vec<u8>>, list: Seq<String>, index: int)
    ensures
        bytes(args).len() == args.len(),
        texts(list).len() == list.len(),
        0 <= index < args.len() ==> bytes(args)[index] == args[index]@,
        0 <= index < list.len() ==> texts(list)[index] == list[index]@,
        0 <= index < args.len() ==> argument_text(args[index]@) == (if valid_utf8(args[index]@) {
            decode_utf8(args[index]@)
        } else {
            lossy_text(args[index]@)
        }),
{
}

} // verus!
