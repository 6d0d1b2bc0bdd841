//! The concrete voice service: a stateless transcript parser.
//!
//! The grammar is a small keyword/prefix one. Keywords are looked up in the
//! lowercased, trimmed transcript; positions are byte offsets into its UTF-8
//! encoding, as `str::find` reports them.

use crate::common::MediaAction;
use crate::text::{
    all_whitespace, contains_bytes, contains_bytes_exec, find_bytes, first_match,
    lemma_boundary_after_ascii, lemma_boundary_at_ascii, lemma_first_match, lemma_trim_idempotent,
    lemma_trim_no_ascii_uppercase, lemma_trim_padded, lowercase, matches_at, no_ascii_uppercase,
    starts_with_bytes, to_lowercase, trim, trim_end_spec, trim_spec, trim_start_spec,
};
use crate::voice::api::v1::VoiceApi;
use crate::voice::error::ServiceError;
use crate::voice::intent::{Intent, IntentView};
use vstd::prelude::*;
use vstd::string::StringSliceAdditionalSpecFns;
use vstd::utf8::*;

verus! {

broadcast use {
    vstd::utf8::encode_utf8_valid_utf8,
    vstd::utf8::encode_utf8_decode_utf8,
    vstd::utf8::is_ascii_chars_encode_utf8,
    vstd::string::group_string_axioms,
};

/// The voice service. Stateless — it only interprets text.
#[derive(Debug, Default)]
pub struct VoiceService;

impl VoiceService {
    /// Create a new voice service.
    pub fn new() -> (r: Self) {
        VoiceService
    }
}

impl VoiceApi for VoiceService {
    fn parse(&self, transcript: &str) -> (r: Result<Intent, ServiceError>) {
        match parse_intent(transcript) {
            Some(intent) => Ok(intent),
            None => Err(ServiceError::Unrecognized(transcript.to_string())),
        }
    }
}

// ----- The grammar -----

/// The lowercased text mentions `word` somewhere.
pub open spec fn mentions(lower: Seq<char>, word: Seq<char>) -> bool {
    contains_bytes(encode_utf8(lower), encode_utf8(word))
}

/// The destination named after the first occurrence of `prefix` in the
/// lowercased text: the (trimmed, not lowercased) text from that byte offset
/// on, trimmed again, when the offset starts a character of the text and the
/// rest is not blank.
pub open spec fn destination_after(text: Seq<char>, lower: Seq<char>, prefix: Seq<char>) -> Option<
    Seq<char>,
> {
    let tb = encode_utf8(text);
    match first_match(encode_utf8(lower), encode_utf8(prefix)) {
        Some(idx) => {
            let start = idx + encode_utf8(prefix).len();
            if is_char_boundary(tb, start) {
                let dest = trim_spec(decode_utf8(tb.subrange(start, tb.len() as int)));
                if dest.len() > 0 {
                    Some(dest)
                } else {
                    None
                }
            } else {
                None
            }
        },
        None => None,
    }
}

/// The destination named after the first of the navigation prefixes, in
/// order, that yields one.
pub open spec fn prefixed_destination(text: Seq<char>, lower: Seq<char>) -> Option<Seq<char>> {
    if destination_after(text, lower, "navigate to "@) is Some {
        destination_after(text, lower, "navigate to "@)
    } else if destination_after(text, lower, "drive to "@) is Some {
        destination_after(text, lower, "drive to "@)
    } else if destination_after(text, lower, "take me to "@) is Some {
        destination_after(text, lower, "take me to "@)
    } else if destination_after(text, lower, "go to "@) is Some {
        destination_after(text, lower, "go to "@)
    } else {
        destination_after(text, lower, "navigate "@)
    }
}

/// `set <key> to <value>`: the lowercased text starts with `set `, and is
/// split at the first ` to ` after it into a key and a value, both trimmed
/// and non-blank.
pub open spec fn setting_pair(lower: Seq<char>) -> Option<(Seq<char>, Seq<char>)> {
    let lb = encode_utf8(lower);
    let set = encode_utf8("set "@);
    let to = encode_utf8(" to "@);
    if matches_at(lb, set, 0) {
        let rest = lb.subrange(set.len() as int, lb.len() as int);
        match first_match(rest, to) {
            Some(i) => {
                let key = trim_spec(decode_utf8(rest.subrange(0, i)));
                let value = trim_spec(decode_utf8(rest.subrange(i + to.len(), rest.len() as int)));
                if key.len() > 0 && value.len() > 0 {
                    Some((key, value))
                } else {
                    None
                }
            },
            None => None,
        }
    } else {
        None
    }
}

/// The intent of a trimmed transcript `text`, given its lowercased form
/// `lower`, rule by rule in priority order: pause/stop, next/skip, a
/// navigation verb with "home", a navigation prefix followed by a
/// destination, `set <key> to <value>`, mute, and finally play.
pub open spec fn intent_of(text: Seq<char>, lower: Seq<char>) -> Option<IntentView> {
    if mentions(lower, "pause"@) || mentions(lower, "stop"@) {
        Some(IntentView::Media(MediaAction::Pause))
    } else if mentions(lower, "next"@) || mentions(lower, "skip"@) {
        Some(IntentView::Media(MediaAction::Next))
    } else if (mentions(lower, "navigate"@) || mentions(lower, "drive"@) || mentions(
        lower,
        "take me"@,
    ) || mentions(lower, "go "@)) && mentions(lower, "home"@) {
        Some(IntentView::Navigate("Home"@))
    } else if prefixed_destination(text, lower) is Some {
        Some(IntentView::Navigate(prefixed_destination(text, lower).unwrap()))
    } else if setting_pair(lower) is Some {
        Some(IntentView::Setting(setting_pair(lower).unwrap().0, setting_pair(lower).unwrap().1))
    } else if mentions(lower, "mute"@) {
        Some(IntentView::Setting("volume"@, "0"@))
    } else if mentions(lower, "play"@) {
        Some(IntentView::Media(MediaAction::Play))
    } else {
        None
    }
}

/// The intent of a transcript: the rules of [`intent_of`] applied to the
/// trimmed transcript and its lowercase.
pub open spec fn parse_intent_spec(transcript: Seq<char>) -> Option<IntentView> {
    intent_of(trim_spec(transcript), lowercase(trim_spec(transcript)))
}

// ----- The parser -----

/// Does the lowercased text (as bytes) mention `word`?
fn mentions_exec(lower: &[u8], word: &str) -> (r: bool)
    ensures
        r == contains_bytes(lower@, encode_utf8(word@)),
{
    contains_bytes_exec(lower, word.as_bytes())
}

/// The destination after `prefix`, as [`destination_after`] describes it.
fn destination_after_exec(text: &str, lower: &str, prefix: &str) -> (r: Option<String>)
    ensures
        match r {
            Some(d) => destination_after(text@, lower@, prefix@) == Some(d@),
            None => destination_after(text@, lower@, prefix@) is None,
        },
{
    let lb = lower.as_bytes();
    let pb = prefix.as_bytes();
    let lb_len = lb.len();
    match find_bytes(lb, pb) {
        Some(idx) => {
            proof {
                lemma_first_match(lb@, pb@);
            }
            let start = idx + pb.len();
            if text.is_char_boundary(start) {
                let (_, rest) = text.split_at(start);
                assert(decode_utf8(rest.spec_bytes()) == rest@);
                let dest = trim(rest);
                if !dest.is_empty() {
                    Some(dest.to_string())
                } else {
                    None
                }
            } else {
                None
            }
        },
        None => None,
    }
}

/// The destination after the first navigation prefix that yields one.
fn prefixed_destination_exec(text: &str, lower: &str) -> (r: Option<String>)
    ensures
        match r {
            Some(d) => prefixed_destination(text@, lower@) == Some(d@),
            None => prefixed_destination(text@, lower@) is None,
        },
{
    if let Some(d) = destination_after_exec(text, lower, "navigate to ") {
        return Some(d);
    }
    if let Some(d) = destination_after_exec(text, lower, "drive to ") {
        return Some(d);
    }
    if let Some(d) = destination_after_exec(text, lower, "take me to ") {
        return Some(d);
    }
    if let Some(d) = destination_after_exec(text, lower, "go to ") {
        return Some(d);
    }
    destination_after_exec(text, lower, "navigate ")
}

/// The key and value of `set <key> to <value>`, as [`setting_pair`]
/// describes them.
fn setting_pair_exec(lower: &str) -> (r: Option<(String, String)>)
    ensures
        match r {
            Some((k, v)) => setting_pair(lower@) == Some((k@, v@)),
            None => setting_pair(lower@) is None,
        },
{
    let lb = lower.as_bytes();
    let set = "set ".as_bytes();
    if !starts_with_bytes(lb, set) {
        return None;
    }
    proof {
        reveal_strlit("set ");
        reveal_strlit(" to ");
        assert(is_ascii_chars("set "@));
        assert(is_ascii_chars(" to "@));
        assert(set@.len() == 4 && set@[3] == 0x20);
        assert(lb@.subrange(0, 4)[3] == set@[3]);
        lemma_boundary_after_ascii(lb@, 3);
    }
    let (_, rest) = lower.split_at(set.len());
    let rb = rest.as_bytes();
    assert(rb@ =~= lb@.subrange(4, lb@.len() as int));
    let to = " to ".as_bytes();
    assert(to@.len() == 4 && to@[0] == 0x20 && to@[3] == 0x20);
    match find_bytes(rb, to) {
        Some(i) => {
            proof {
                lemma_first_match(rb@, to@);
                assert(rb@[i as int] == rb@.subrange(i as int, i + 4)[0]);
                lemma_boundary_at_ascii(rb@, i as int);
            }
            let (key_part, tail) = rest.split_at(i);
            let tb = tail.as_bytes();
            proof {
                assert(tb@[3] == rb@.subrange(i as int, i + 4)[3]);
                lemma_boundary_after_ascii(tb@, 3);
            }
            let (_, value_part) = tail.split_at(to.len());
            assert(key_part.spec_bytes() =~= rb@.subrange(0, i as int));
            assert(value_part.spec_bytes() =~= rb@.subrange(i + 4, rb@.len() as int));
            assert(decode_utf8(key_part.spec_bytes()) == key_part@);
            assert(decode_utf8(value_part.spec_bytes()) == value_part@);
            let key = trim(key_part);
            let value = trim(value_part);
            if !key.is_empty() && !value.is_empty() {
                Some((key.to_string(), value.to_string()))
            } else {
                None
            }
        },
        None => None,
    }
}

/// Pure transcript → [`Intent`] parser.
///
/// A deliberately small keyword/prefix grammar ([`parse_intent_spec`]).
/// Returns `None` for transcripts it does not recognize.
pub fn parse_intent(transcript: &str) -> (r: Option<Intent>)
    ensures
        match r {
            Some(intent) => parse_intent_spec(transcript@) == Some(intent@),
            None => parse_intent_spec(transcript@) is None,
        },
        r matches Some(Intent::Navigate { destination }) ==> trimmed_nonblank(destination@),
        r matches Some(Intent::Setting { key, value }) ==> trimmed_nonblank(key@)
            && trimmed_nonblank(value@) && no_ascii_uppercase(key@) && no_ascii_uppercase(value@),
{
    let text = trim(transcript);
    let lower = to_lowercase(text);
    proof {
        parsed_texts_are_trimmed(text@, lower@);
        setting_texts_are_lowercase(text@, lower@);
    }
    interpret(text, lower.as_str())
}

/// The grammar of [`intent_of`]: the intent of the trimmed transcript `text`
/// whose lowercase is `lower`.
pub fn interpret(text: &str, lower: &str) -> (r: Option<Intent>)
    ensures
        match r {
            Some(intent) => intent_of(text@, lower@) == Some(intent@),
            None => intent_of(text@, lower@) is None,
        },
{
    let lb = lower.as_bytes();

    // Media transport (explicit keywords first).
    if mentions_exec(lb, "pause") || mentions_exec(lb, "stop") {
        return Some(Intent::Media(MediaAction::Pause));
    }
    if mentions_exec(lb, "next") || mentions_exec(lb, "skip") {
        return Some(Intent::Media(MediaAction::Next));
    }
    // Navigation.

    let nav_verb = mentions_exec(lb, "navigate") || mentions_exec(lb, "drive") || mentions_exec(
        lb,
        "take me",
    ) || mentions_exec(lb, "go ");
    if nav_verb && mentions_exec(lb, "home") {
        return Some(Intent::Navigate { destination: "Home".to_string() });
    }
    if let Some(destination) = prefixed_destination_exec(text, lower) {
        return Some(Intent::Navigate { destination });
    }
    // Settings.

    if let Some((key, value)) = setting_pair_exec(lower) {
        return Some(Intent::Setting { key, value });
    }
    if mentions_exec(lb, "mute") {
        return Some(Intent::Setting { key: "volume".to_string(), value: "0".to_string() });
    }
    // Media play (broad match, kept last so "navigate to X" wins).

    if mentions_exec(lb, "play") {
        return Some(Intent::Media(MediaAction::Play));
    }
    None
}

// ----- Laws -----

/// A transcript means the same with or without surrounding whitespace.
pub proof fn surrounding_whitespace_is_ignored(transcript: Seq<char>)
    ensures
        parse_intent_spec(trim_spec(transcript)) == parse_intent_spec(transcript),
{
    lemma_trim_idempotent(transcript);
}

/// Padding a transcript with whitespace on either side never changes its
/// meaning.
pub proof fn whitespace_padding_is_ignored(pre: Seq<char>, transcript: Seq<char>, post: Seq<char>)
    requires
        all_whitespace(pre),
        all_whitespace(post),
    ensures
        parse_intent_spec(pre + transcript + post) == parse_intent_spec(transcript),
{
    lemma_trim_padded(pre, transcript, post);
}

/// The keyword rules, in priority order: pause or stop pauses; else next or
/// skip skips; else navigation (home, or a prefixed destination); else
/// `set <key> to <value>`; else mute sets the volume to 0; else play plays;
/// and a text with none of these means nothing.
pub proof fn keywords_decide_in_priority_order(text: Seq<char>, lower: Seq<char>)
    ensures
        ({
            let pause = mentions(lower, "pause"@) || mentions(lower, "stop"@);
            let skip = mentions(lower, "next"@) || mentions(lower, "skip"@);
            let home = (mentions(lower, "navigate"@) || mentions(lower, "drive"@) || mentions(
                lower,
                "take me"@,
            ) || mentions(lower, "go "@)) && mentions(lower, "home"@);
            let prefixed = destination_after(text, lower, "navigate to "@) is Some
                || destination_after(text, lower, "drive to "@) is Some || destination_after(
                text,
                lower,
                "take me to "@,
            ) is Some || destination_after(text, lower, "go to "@) is Some || destination_after(
                text,
                lower,
                "navigate "@,
            ) is Some;
            let navigation = home || prefixed;
            let setting = setting_pair(lower);
            &&& pause ==> intent_of(text, lower) == Some(IntentView::Media(MediaAction::Pause))
            &&& !pause && skip ==> intent_of(text, lower) == Some(
                IntentView::Media(MediaAction::Next),
            )
            &&& !pause && !skip && prefixed && !home ==> (intent_of(text, lower) matches Some(
                IntentView::Navigate(_),
            ))
            &&& !pause && !skip && !navigation && (setting is Some) ==> intent_of(text, lower)
                == Some(IntentView::Setting(setting.unwrap().0, setting.unwrap().1))
            &&& !pause && !skip && !navigation && (setting is None) && mentions(lower, "mute"@)
                ==> intent_of(text, lower) == Some(IntentView::Setting("volume"@, "0"@))
            &&& !pause && !skip && !navigation && (setting is None) && !mentions(lower, "mute"@)
                && mentions(lower, "play"@) ==> intent_of(text, lower) == Some(
                IntentView::Media(MediaAction::Play),
            )
            &&& !pause && !skip && !navigation && (setting is None) && !mentions(lower, "mute"@)
                && !mentions(lower, "play"@) ==> (intent_of(text, lower) is None)
        }),
{
}

/// A transcript that mentions "home" with any navigation verb — navigate,
/// drive, take me, go — and no pause, stop, next or skip, means navigating
/// home.
pub proof fn a_navigation_verb_with_home_navigates_home(text: Seq<char>, lower: Seq<char>)
    requires
        !mentions(lower, "pause"@),
        !mentions(lower, "stop"@),
        !mentions(lower, "next"@),
        !mentions(lower, "skip"@),
        mentions(lower, "home"@),
        mentions(lower, "navigate"@) || mentions(lower, "drive"@) || mentions(lower, "take me"@)
            || mentions(lower, "go "@),
    ensures
        intent_of(text, lower) == Some(IntentView::Navigate("Home"@)),
{
}

/// The navigation prefixes are "navigate to ", "drive to ", "take me to ",
/// "go to " and "navigate ", tried in that order: where no media keyword and
/// no navigation home applies, the first of them that is followed by a
/// destination gives the intent to navigate there.
pub proof fn first_navigation_prefix_with_a_destination_wins(
    text: Seq<char>,
    lower: Seq<char>,
    j: int,
    d: Seq<char>,
)
    requires
        !mentions(lower, "pause"@),
        !mentions(lower, "stop"@),
        !mentions(lower, "next"@),
        !mentions(lower, "skip"@),
        !((mentions(lower, "navigate"@) || mentions(lower, "drive"@) || mentions(lower, "take me"@)
            || mentions(lower, "go "@)) && mentions(lower, "home"@)),
        0 <= j < 5,
        destination_after(
            text,
            lower,
            seq!["navigate to "@, "drive to "@, "take me to "@, "go to "@, "navigate "@][j],
        ) == Some(d),
        j > 0 ==> destination_after(text, lower, "navigate to "@) is None,
        j > 1 ==> destination_after(text, lower, "drive to "@) is None,
        j > 2 ==> destination_after(text, lower, "take me to "@) is None,
        j > 3 ==> destination_after(text, lower, "go to "@) is None,
    ensures
        intent_of(text, lower) == Some(IntentView::Navigate(d)),
{
    let ps = seq!["navigate to "@, "drive to "@, "take me to "@, "go to "@, "navigate "@];
    assert(ps[0] == "navigate to "@ && ps[1] == "drive to "@ && ps[2] == "take me to "@ && ps[3]
        == "go to "@ && ps[4] == "navigate "@);
}

/// A text with something in it and nothing around it to trim.
pub open spec fn trimmed_nonblank(s: Seq<char>) -> bool {
    s.len() > 0 && trim_spec(s) == s
}

/// A destination found after a prefix is trimmed and not blank.
proof fn lemma_destination_after_trimmed(text: Seq<char>, lower: Seq<char>, prefix: Seq<char>)
    ensures
        destination_after(text, lower, prefix) matches Some(d) ==> trimmed_nonblank(d),
{
    let tb = encode_utf8(text);
    if let Some(idx) = first_match(encode_utf8(lower), encode_utf8(prefix)) {
        let start = idx + encode_utf8(prefix).len();
        lemma_trim_idempotent(decode_utf8(tb.subrange(start, tb.len() as int)));
    }
}

/// Every text a transcript is parsed into — a destination, a setting's key
/// and its value — is trimmed and not blank.
pub proof fn parsed_texts_are_trimmed(text: Seq<char>, lower: Seq<char>)
    ensures
        match intent_of(text, lower) {
            Some(IntentView::Navigate(d)) => trimmed_nonblank(d),
            Some(IntentView::Setting(k, v)) => trimmed_nonblank(k) && trimmed_nonblank(v),
            _ => true,
        },
{
    reveal_strlit("Home");
    reveal_strlit("volume");
    reveal_strlit("0");
    assert(trim_start_spec("Home"@) == "Home"@);
    assert(trim_end_spec("Home"@) == "Home"@);
    assert(trim_start_spec("volume"@) == "volume"@);
    assert(trim_end_spec("volume"@) == "volume"@);
    assert(trim_start_spec("0"@) == "0"@);
    assert(trim_end_spec("0"@) == "0"@);
    lemma_destination_after_trimmed(text, lower, "navigate to "@);
    lemma_destination_after_trimmed(text, lower, "drive to "@);
    lemma_destination_after_trimmed(text, lower, "take me to "@);
    lemma_destination_after_trimmed(text, lower, "go to "@);
    lemma_destination_after_trimmed(text, lower, "navigate "@);
    let lb = encode_utf8(lower);
    let set = encode_utf8("set "@);
    let to = encode_utf8(" to "@);
    let rest = lb.subrange(set.len() as int, lb.len() as int);
    if let Some(i) = first_match(rest, to) {
        lemma_trim_idempotent(decode_utf8(rest.subrange(0, i)));
        lemma_trim_idempotent(decode_utf8(rest.subrange(i + to.len(), rest.len() as int)));
    }
}

/// What [`parse_intent`] returns names only trimmed, non-blank texts.
pub proof fn parsed_intents_hold_trimmed_texts(transcript: Seq<char>)
    ensures
        match parse_intent_spec(transcript) {
            Some(IntentView::Navigate(d)) => trimmed_nonblank(d),
            Some(IntentView::Setting(k, v)) => trimmed_nonblank(k) && trimmed_nonblank(v),
            _ => true,
        },
{
    parsed_texts_are_trimmed(trim_spec(transcript), lowercase(trim_spec(transcript)));
}

/// Both halves of a text free of ASCII uppercase letters are free of them.
proof fn lemma_halves_no_ascii_uppercase(a: Seq<char>, b: Seq<char>)
    requires
        no_ascii_uppercase(a + b),
    ensures
        no_ascii_uppercase(a),
        no_ascii_uppercase(b),
{
    assert forall|i: int| 0 <= i < a.len() implies !(0x41 <= (#[trigger] a[i]) as u32 <= 0x5a) by {
        assert((a + b)[i] == a[i]);
    }
    assert forall|i: int| 0 <= i < b.len() implies !(0x41 <= (#[trigger] b[i]) as u32 <= 0x5a) by {
        assert((a + b)[a.len() + i] == b[i]);
    }
}

/// Where the lowercased text holds no ASCII uppercase letter, neither do the
/// key and value of a parsed setting: they are cut out of it and trimmed.
pub proof fn setting_texts_are_lowercase(text: Seq<char>, lower: Seq<char>)
    requires
        no_ascii_uppercase(lower),
    ensures
        intent_of(text, lower) matches Some(IntentView::Setting(k, v)) ==> no_ascii_uppercase(k)
            && no_ascii_uppercase(v),
{
    reveal_strlit("volume");
    reveal_strlit("0");
    reveal_strlit("set ");
    reveal_strlit(" to ");
    let lb = encode_utf8(lower);
    let set = encode_utf8("set "@);
    let to = encode_utf8(" to "@);
    assert(is_ascii_chars("set "@) && is_ascii_chars(" to "@));
    assert(set.len() == 4 && set[3] == 0x20 && to.len() == 4 && to[0] == 0x20 && to[3] == 0x20);
    if matches_at(lb, set, 0) {
        let rest = lb.subrange(4, lb.len() as int);
        assert(lb[3] == lb.subrange(0, 4)[3]);
        lemma_boundary_after_ascii(lb, 3);
        decode_utf8_split(lb, 4);
        valid_utf8_split(lb, 4);
        lemma_halves_no_ascii_uppercase(decode_utf8(lb.subrange(0, 4)), decode_utf8(rest));
        lemma_first_match(rest, to);
        if let Some(i) = first_match(rest, to) {
            assert(rest[i] == rest.subrange(i, i + 4)[0]);
            lemma_boundary_at_ascii(rest, i);
            decode_utf8_split(rest, i);
            valid_utf8_split(rest, i);
            let tail = rest.subrange(i, rest.len() as int);
            lemma_halves_no_ascii_uppercase(decode_utf8(rest.subrange(0, i)), decode_utf8(tail));
            assert(tail[3] == rest.subrange(i, i + 4)[3]);
            lemma_boundary_after_ascii(tail, 3);
            decode_utf8_split(tail, 4);
            lemma_halves_no_ascii_uppercase(
                decode_utf8(tail.subrange(0, 4)),
                decode_utf8(tail.subrange(4, tail.len() as int)),
            );
            assert(tail.subrange(4, tail.len() as int) =~= rest.subrange(i + 4, rest.len() as int));
            lemma_trim_no_ascii_uppercase(decode_utf8(rest.subrange(0, i)));
            lemma_trim_no_ascii_uppercase(decode_utf8(rest.subrange(i + 4, rest.len() as int)));
        }
    }
}

} // verus!
