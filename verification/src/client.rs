//! The session that the game asks a presenter for.
use vstd::prelude::*;
use vstd::utf8::encode_utf8;

use crate::cli::{texts, Args};
use crate::error::ErrorKind;

verus! {

/// Why a session is of no use.
#[derive(Debug, Clone, Copy, PartialEq, Eq, Structural)]
pub enum ClientError {
    WrongTarget,
}

impl ClientError {
    /// The kind of the error.
    pub fn kind(&self) -> (kind: ErrorKind)
        ensures
            kind == ErrorKind::Unsupported,
    {
        ErrorKind::Unsupported
    }

    /// The text of the error.
    pub fn message(&self) -> (text: String)
        ensures
            text@ == "presenter did not select terminal-surface-v1"@,
    {
        "presenter did not select terminal-surface-v1".to_owned()
    }
}

/// `vivid_sdk::CORE_CONTROL`: the name of the profile of the control channel,
/// `vivid-core-control-v1`.
#[verifier::external_body]
fn core_control() -> (profile: String)
    ensures
        profile@ == "vivid-core-control-v1"@,
{
    vivid_sdk::CORE_CONTROL.to_owned()
}

/// `vivid_sdk::LIVE_MEDIA`: the name of the profile of live tracks, `live-media-v1`.
#[verifier::external_body]
fn live_media() -> (profile: String)
    ensures
        profile@ == "live-media-v1"@,
{
    vivid_sdk::LIVE_MEDIA.to_owned()
}

/// `vivid_sdk::OBSERVABILITY`: the name of the profile of milestones and waits,
/// `observability-v1`.
#[verifier::external_body]
fn observability() -> (profile: String)
    ensures
        profile@ == "observability-v1"@,
{
    vivid_sdk::OBSERVABILITY.to_owned()
}

/// `vivid_sdk::TERMINAL_SURFACE`: the name of the profile of terminal targets,
/// `terminal-surface-v1`.
#[verifier::external_body]
fn terminal_surface() -> (profile: String)
    ensures
        profile@ == "terminal-surface-v1"@,
{
    vivid_sdk::TERMINAL_SURFACE.to_owned()
}

/// Whether one byte string stands before another in a dictionary.
pub open spec fn bytes_precede(first: Seq<u8>, second: Seq<u8>) -> bool
    decreases first.len(),
{
    if second.len() == 0 {
        false
    } else if first.len() == 0 {
        true
    } else if first[0] != second[0] {
        first[0] < second[0]
    } else {
        bytes_precede(first.skip(1), second.skip(1))
    }
}

/// Whether one text stands before another, by their bytes in UTF-8.
pub open spec fn precedes(first: Seq<char>, second: Seq<char>) -> bool {
    bytes_precede(encode_utf8(first), encode_utf8(second))
}

/// `slice::sort` on strings, which are ordered as their bytes in UTF-8: the strings stay the same
/// ones, and none stands behind one that it precedes.
#[verifier::external_body]
fn sort_texts(list: &mut Vec<String>)
    ensures
        texts(final(list)@).to_multiset() == texts(old(list)@).to_multiset(),
        forall|i: int, j: int|
            0 <= i < j < final(list)@.len() ==> !precedes(
                #[trigger] final(list)@[j]@,
                #[trigger] final(list)@[i]@,
            ),
{
    list.sort();
}

/// The profiles without which the game cannot be played, in order.
pub open spec fn profiles() -> Seq<Seq<char>> {
    seq![
        "live-media-v1"@,
        "observability-v1"@,
        "terminal-surface-v1"@,
        "vivid-core-control-v1"@,
    ]
}

/// Texts that begin with different ASCII characters are in the order of these.
proof fn lemma_first_character_decides(first: Seq<char>, second: Seq<char>)
    requires
        vstd::utf8::is_ascii_chars(first),
        vstd::utf8::is_ascii_chars(second),
        first.len() > 0,
        second.len() > 0,
        first[0] < second[0],
    ensures
        precedes(first, second),
{
    vstd::utf8::is_ascii_chars_encode_utf8(first);
    vstd::utf8::is_ascii_chars_encode_utf8(second);
    assert(encode_utf8(first)[0] == first[0] as u8);
    assert(encode_utf8(second)[0] == second[0] as u8);
}

/// The profiles are in strict order.
pub proof fn law_profiles_are_sorted(i: int, j: int)
    requires
        0 <= i < j < profiles().len(),
    ensures
        precedes(profiles()[i], profiles()[j]),
{
    reveal_strlit("live-media-v1");
    reveal_strlit("observability-v1");
    reveal_strlit("terminal-surface-v1");
    reveal_strlit("vivid-core-control-v1");
    lemma_first_character_decides(profiles()[i], profiles()[j]);
}

/// The profiles without which the game cannot be played, in order.
pub fn required_profiles() -> (list: Vec<String>)
    ensures
        texts(list@) == profiles(),
{
    let mut list: Vec<String> = Vec::new();
    list.push(core_control());
    list.push(live_media());
    list.push(observability());
    list.push(terminal_surface());
    let ghost unsorted = texts(list@);
    sort_texts(&mut list);
    proof {
        let sorted = texts(list@);
        sorted.to_multiset_ensures();
        unsorted.to_multiset_ensures();
        assert(unsorted[0] == profiles()[3]);
        assert(unsorted[1] == profiles()[0]);
        assert(unsorted[2] == profiles()[1]);
        assert(unsorted[3] == profiles()[2]);
        assert forall|k: int| 0 <= k < 4 implies sorted.contains(#[trigger] profiles()[k]) by {
            assert(unsorted.contains(profiles()[k]));
            assert(sorted.to_multiset().count(profiles()[k]) > 0);
        }
        assert(sorted.contains(profiles()[0]));
        assert(sorted.contains(profiles()[1]));
        assert(sorted.contains(profiles()[2]));
        assert(sorted.contains(profiles()[3]));
        let first = sorted.index_of(profiles()[0]);
        let second = sorted.index_of(profiles()[1]);
        let third = sorted.index_of(profiles()[2]);
        let fourth = sorted.index_of(profiles()[3]);
        law_profiles_are_sorted(0, 1);
        law_profiles_are_sorted(1, 2);
        law_profiles_are_sorted(2, 3);
        reveal_strlit("live-media-v1");
        reveal_strlit("observability-v1");
        reveal_strlit("terminal-surface-v1");
        reveal_strlit("vivid-core-control-v1");
        assert(list@[first]@ == profiles()[0]);
        assert(list@[second]@ == profiles()[1]);
        assert(list@[third]@ == profiles()[2]);
        assert(list@[fourth]@ == profiles()[3]);
        assert(profiles()[0][0] == 'l');
        assert(profiles()[1][0] == 'o');
        assert(profiles()[2][0] == 't');
        assert(profiles()[3][0] == 'v');
        assert(first < second && second < third && third < fourth);
        assert(sorted =~= profiles());
    }
    list
}

/// How the game proves that it may use a presenter: with the secret that the environment holds
/// when the connection is made, or with one that it was given.
#[derive(Debug)]
pub enum Authentication {
    RootFromEnvironment,
    Root { secret_hex: String },
}

/// What the game asks a presenter for.
#[derive(Debug)]
pub struct SessionRequest {
    pub endpoint_control: Option<String>,
    pub endpoint_realtime: Option<String>,
    pub endpoint_bulk: Option<String>,
    pub authentication: Authentication,
    pub producer_name: String,
    pub producer_version: String,
    pub target_profile: String,
    pub required_profiles: Vec<String>,
    pub optional_profiles: Vec<String>,
}

/// A copy of an endpoint.
fn copy_endpoint(endpoint: &Option<String>) -> (copy: Option<String>)
    ensures
        copy == *endpoint,
{
    match endpoint {
        Some(endpoint) => Some(endpoint.clone()),
        None => None,
    }
}

/// The session that the arguments ask for, made by the given version of the program. Nothing but
/// the endpoints comes from the arguments; the secret never does.
pub fn session_request(args: &Args, version: &str) -> (request: SessionRequest)
    ensures
        request.endpoint_control == args.control_endpoint,
        request.endpoint_realtime == args.realtime_endpoint,
        request.endpoint_bulk == args.bulk_endpoint,
        request.authentication is RootFromEnvironment,
        request.producer_name@ == "vvdoom"@,
        request.producer_version@ == version@,
        request.target_profile@ == "terminal-surface-v1"@,
        texts(request.required_profiles@) == profiles(),
        request.optional_profiles@.len() == 0,
{
    SessionRequest {
        endpoint_control: copy_endpoint(&args.control_endpoint),
        endpoint_realtime: copy_endpoint(&args.realtime_endpoint),
        endpoint_bulk: copy_endpoint(&args.bulk_endpoint),
        authentication: Authentication::RootFromEnvironment,
        producer_name: "vvdoom".to_owned(),
        producer_version: version.to_owned(),
        target_profile: terminal_surface(),
        required_profiles: required_profiles(),
        optional_profiles: Vec::new(),
    }
}

/// Checks that the presenter shows the game in a terminal.
pub fn check_target_profile(selected: &String) -> (result: Result<(), ClientError>)
    ensures
        result == (if selected@ == "terminal-surface-v1"@ {
            Ok(())
        } else {
            Err(ClientError::WrongTarget)
        }),
{
    let expected = terminal_surface();
    if *selected == expected {
        Ok(())
    } else {
        Err(ClientError::WrongTarget)
    }
}

} // verus!
