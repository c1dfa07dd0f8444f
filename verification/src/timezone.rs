//! The condition on the time zone of the host: that its offset from UTC is
//! one of those that the argument text lists.

use vstd::prelude::*;
use crate::error::ConfigError;
use crate::number::{i32_value, parse_i32};
use crate::reason::{failures, is_outcome, reason_text, Wording};
use crate::text::{append_chars, append_str, chars_of, is_text, string_of, views};
use crate::split::{entries, split_entries};

verus! {

/// What a token of a time zone list stands for.
#[derive(Debug, Clone, Copy, PartialEq, Eq, Structural)]
pub enum Zone {
    /// An offset from UTC in minutes, east positive.
    Offset(i64),
    /// An abbreviation in use for more than one offset.
    Ambiguous(ConfigError),
    /// Neither a known abbreviation nor a number of hours.
    Unknown,
}

/// What the token stands for as an abbreviation or as one of the literals
/// for half hours, if it is one.
pub open spec fn named_zone(token: Seq<char>) -> Option<Zone> {
    if token == "PST"@ {
        Some(Zone::Ambiguous(ConfigError::AmbiguousPst))
    } else if token == "CST"@ {
        Some(Zone::Ambiguous(ConfigError::AmbiguousCst))
    } else if token == "IST"@ {
        Some(Zone::Ambiguous(ConfigError::AmbiguousIst))
    } else if token == "NZDT"@ {
        Some(Zone::Offset(780i64))
    } else if token == "NZST"@ {
        Some(Zone::Offset(720i64))
    } else if token == "AEDT"@ {
        Some(Zone::Offset(660i64))
    } else if token == "ACDT"@ {
        Some(Zone::Offset(630i64))
    } else if token == "AEST"@ {
        Some(Zone::Offset(600i64))
    } else if token == "ACST"@ {
        Some(Zone::Offset(570i64))
    } else if token == "KST"@ {
        Some(Zone::Offset(540i64))
    } else if token == "JST"@ {
        Some(Zone::Offset(540i64))
    } else if token == "HKT"@ {
        Some(Zone::Offset(480i64))
    } else if token == "WITA"@ {
        Some(Zone::Offset(480i64))
    } else if token == "AWST"@ {
        Some(Zone::Offset(480i64))
    } else if token == "WIB"@ {
        Some(Zone::Offset(420i64))
    } else if token == "5.5"@ {
        Some(Zone::Offset(330i64))
    } else if token == "+5.5"@ {
        Some(Zone::Offset(330i64))
    } else if token == "PKT"@ {
        Some(Zone::Offset(300i64))
    } else if token == "EAT"@ {
        Some(Zone::Offset(180i64))
    } else if token == "EEST"@ {
        Some(Zone::Offset(180i64))
    } else if token == "IDT"@ {
        Some(Zone::Offset(180i64))
    } else if token == "MSK"@ {
        Some(Zone::Offset(180i64))
    } else if token == "CAT"@ {
        Some(Zone::Offset(120i64))
    } else if token == "EET"@ {
        Some(Zone::Offset(120i64))
    } else if token == "CEST"@ {
        Some(Zone::Offset(120i64))
    } else if token == "SAST"@ {
        Some(Zone::Offset(120i64))
    } else if token == "CET"@ {
        Some(Zone::Offset(60i64))
    } else if token == "WAT"@ {
        Some(Zone::Offset(60i64))
    } else if token == "WEST"@ {
        Some(Zone::Offset(60i64))
    } else if token == "BST"@ {
        Some(Zone::Offset(60i64))
    } else if token == "UTC"@ {
        Some(Zone::Offset(0i64))
    } else if token == "GMT"@ {
        Some(Zone::Offset(0i64))
    } else if token == "WET"@ {
        Some(Zone::Offset(0i64))
    } else if token == "NDT"@ {
        Some(Zone::Offset(-150i64))
    } else if token == "-2.5"@ {
        Some(Zone::Offset(-150i64))
    } else if token == "NST"@ {
        Some(Zone::Offset(-210i64))
    } else if token == "-3.5"@ {
        Some(Zone::Offset(-210i64))
    } else if token == "ADT"@ {
        Some(Zone::Offset(-180i64))
    } else if token == "AST"@ {
        Some(Zone::Offset(-240i64))
    } else if token == "EDT"@ {
        Some(Zone::Offset(-240i64))
    } else if token == "EST"@ {
        Some(Zone::Offset(-300i64))
    } else if token == "CDT"@ {
        Some(Zone::Offset(-300i64))
    } else if token == "MDT"@ {
        Some(Zone::Offset(-360i64))
    } else if token == "MST"@ {
        Some(Zone::Offset(-420i64))
    } else if token == "PDT"@ {
        Some(Zone::Offset(-420i64))
    } else if token == "AKDT"@ {
        Some(Zone::Offset(-480i64))
    } else if token == "HDT"@ {
        Some(Zone::Offset(-540i64))
    } else if token == "AKST"@ {
        Some(Zone::Offset(-540i64))
    } else if token == "HST"@ {
        Some(Zone::Offset(-600i64))
    } else {
        None
    }
}

/// What the token stands for: a name of the table, or a whole number of
/// hours with an optional sign.
pub open spec fn zone_of(token: Seq<char>) -> Zone {
    match named_zone(token) {
        Some(zone) => zone,
        None => match i32_value(token) {
            Some(hours) => Zone::Offset((hours * 60) as i64),
            None => Zone::Unknown,
        },
    }
}

/// The fault of the first ambiguous token, if there is one.
pub open spec fn first_ambiguous(tokens: Seq<Seq<char>>) -> Option<ConfigError>
    decreases tokens.len(),
{
    if tokens.len() == 0 {
        None
    } else {
        match first_ambiguous(tokens.drop_last()) {
            Some(fault) => Some(fault),
            None => match zone_of(tokens.last()) {
                Zone::Ambiguous(fault) => Some(fault),
                _ => None,
            },
        }
    }
}

/// For each token, whether it stands for an offset.
pub open spec fn understood(tokens: Seq<Seq<char>>) -> Seq<bool> {
    Seq::new(tokens.len(), |i: int| zone_of(tokens[i]) is Offset)
}

/// Whether one of the tokens stands for the offset `minutes`.
pub open spec fn names_offset(tokens: Seq<Seq<char>>, minutes: int) -> bool {
    exists|i: int| 0 <= i < tokens.len() && zone_of(#[trigger] tokens[i]) == Zone::Offset(
        minutes as i64,
    )
}

/// The reason given for the tokens `bad` that stand for no offset.
pub open spec fn bad_zone_reason(bad: Seq<Seq<char>>) -> Seq<char> {
    reason_text(
        bad,
        "because timezone "@,
        " is incorrect"@,
        "because following timezones are incorrect:\n"@,
        ", "@,
        "\n"@,
    )
}

/// The reason given where every token stands for an offset and none for
/// that of the host.
pub open spec fn other_zone_reason(attr: Seq<char>) -> Seq<char> {
    "because the test case not run in following timezone:\n"@ + attr + "\n"@
}

/// The verdict of the time zone condition `attr` on a host whose offset from
/// UTC is `minutes`. The tokens are the pieces of `attr` between its commas,
/// as they stand: white space in a token is part of it.
pub open spec fn tz_verdict(attr: Seq<char>, minutes: int) -> Result<
    (bool, Seq<char>),
    ConfigError,
> {
    let tokens = entries(attr);
    match first_ambiguous(tokens) {
        Some(fault) => Err(fault),
        None => {
            let bad = failures(tokens, understood(tokens));
            if bad.len() > 0 {
                Ok((false, bad_zone_reason(bad)))
            } else if names_offset(tokens, minutes) {
                Ok((true, Seq::empty()))
            } else {
                Ok((false, other_zone_reason(attr)))
            }
        },
    }
}

fn read_named_zone(token: &Vec<char>) -> (r: Option<Zone>)
    ensures
        r == named_zone(token@),
{
    if is_text(token, "PST") {
        Some(Zone::Ambiguous(ConfigError::AmbiguousPst))
    } else if is_text(token, "CST") {
        Some(Zone::Ambiguous(ConfigError::AmbiguousCst))
    } else if is_text(token, "IST") {
        Some(Zone::Ambiguous(ConfigError::AmbiguousIst))
    } else if is_text(token, "NZDT") {
        Some(Zone::Offset(780i64))
    } else if is_text(token, "NZST") {
        Some(Zone::Offset(720i64))
    } else if is_text(token, "AEDT") {
        Some(Zone::Offset(660i64))
    } else if is_text(token, "ACDT") {
        Some(Zone::Offset(630i64))
    } else if is_text(token, "AEST") {
        Some(Zone::Offset(600i64))
    } else if is_text(token, "ACST") {
        Some(Zone::Offset(570i64))
    } else if is_text(token, "KST") {
        Some(Zone::Offset(540i64))
    } else if is_text(token, "JST") {
        Some(Zone::Offset(540i64))
    } else if is_text(token, "HKT") {
        Some(Zone::Offset(480i64))
    } else if is_text(token, "WITA") {
        Some(Zone::Offset(480i64))
    } else if is_text(token, "AWST") {
        Some(Zone::Offset(480i64))
    } else if is_text(token, "WIB") {
        Some(Zone::Offset(420i64))
    } else if is_text(token, "5.5") {
        Some(Zone::Offset(330i64))
    } else if is_text(token, "+5.5") {
        Some(Zone::Offset(330i64))
    } else if is_text(token, "PKT") {
        Some(Zone::Offset(300i64))
    } else if is_text(token, "EAT") {
        Some(Zone::Offset(180i64))
    } else if is_text(token, "EEST") {
        Some(Zone::Offset(180i64))
    } else if is_text(token, "IDT") {
        Some(Zone::Offset(180i64))
    } else if is_text(token, "MSK") {
        Some(Zone::Offset(180i64))
    } else if is_text(token, "CAT") {
        Some(Zone::Offset(120i64))
    } else if is_text(token, "EET") {
        Some(Zone::Offset(120i64))
    } else if is_text(token, "CEST") {
        Some(Zone::Offset(120i64))
    } else if is_text(token, "SAST") {
        Some(Zone::Offset(120i64))
    } else if is_text(token, "CET") {
        Some(Zone::Offset(60i64))
    } else if is_text(token, "WAT") {
        Some(Zone::Offset(60i64))
    } else if is_text(token, "WEST") {
        Some(Zone::Offset(60i64))
    } else if is_text(token, "BST") {
        Some(Zone::Offset(60i64))
    } else if is_text(token, "UTC") {
        Some(Zone::Offset(0i64))
    } else if is_text(token, "GMT") {
        Some(Zone::Offset(0i64))
    } else if is_text(token, "WET") {
        Some(Zone::Offset(0i64))
    } else if is_text(token, "NDT") {
        Some(Zone::Offset(-150i64))
    } else if is_text(token, "-2.5") {
        Some(Zone::Offset(-150i64))
    } else if is_text(token, "NST") {
        Some(Zone::Offset(-210i64))
    } else if is_text(token, "-3.5") {
        Some(Zone::Offset(-210i64))
    } else if is_text(token, "ADT") {
        Some(Zone::Offset(-180i64))
    } else if is_text(token, "AST") {
        Some(Zone::Offset(-240i64))
    } else if is_text(token, "EDT") {
        Some(Zone::Offset(-240i64))
    } else if is_text(token, "EST") {
        Some(Zone::Offset(-300i64))
    } else if is_text(token, "CDT") {
        Some(Zone::Offset(-300i64))
    } else if is_text(token, "MDT") {
        Some(Zone::Offset(-360i64))
    } else if is_text(token, "MST") {
        Some(Zone::Offset(-420i64))
    } else if is_text(token, "PDT") {
        Some(Zone::Offset(-420i64))
    } else if is_text(token, "AKDT") {
        Some(Zone::Offset(-480i64))
    } else if is_text(token, "HDT") {
        Some(Zone::Offset(-540i64))
    } else if is_text(token, "AKST") {
        Some(Zone::Offset(-540i64))
    } else if is_text(token, "HST") {
        Some(Zone::Offset(-600i64))
    } else {
        None
    }
}

/// What the token stands for.
pub fn read_zone(token: &Vec<char>) -> (r: Zone)
    ensures
        r == zone_of(token@),
{
    match read_named_zone(token) {
        Some(zone) => zone,
        None => match parse_i32(token) {
            Some(hours) => {
                let wide: i64 = hours as i64;
                Zone::Offset(wide * 60)
            },
            None => Zone::Unknown,
        },
    }
}

/// A fault found among the first tokens is the fault of the whole list.
proof fn lemma_first_ambiguous_stays(tokens: Seq<Seq<char>>, k: int)
    requires
        0 <= k <= tokens.len(),
        first_ambiguous(tokens.take(k)) is Some,
    ensures
        first_ambiguous(tokens) == first_ambiguous(tokens.take(k)),
    decreases tokens.len() - k,
{
    if k < tokens.len() {
        assert(tokens.take(k + 1).drop_last() == tokens.take(k));
        lemma_first_ambiguous_stays(tokens, k + 1);
    } else {
        assert(tokens.take(k) == tokens);
    }
}

/// `chrono::Local::now().offset().local_minus_utc()`: the seconds that the
/// local time of the host is ahead of UTC at this moment. It depends on the
/// clock and the zone of the host; the offset that chrono hands out is less
/// than a day either way, and no more is claimed.
#[verifier::external_body]
fn local_offset_seconds() -> (secs: i32)
    ensures
        -86_400 < secs < 86_400,
{
    chrono::Local::now().offset().local_minus_utc()
}

/// The whole minutes in `secs` seconds, rounded towards zero.
pub open spec fn whole_minutes(secs: int) -> int {
    if secs >= 0 {
        secs / 60
    } else {
        -((-secs) / 60)
    }
}

/// The whole minutes in `secs` seconds, rounded towards zero.
pub fn minutes_of(secs: i32) -> (m: i32)
    ensures
        m == whole_minutes(secs as int),
        -86_400 < secs < 86_400 ==> -1440 < m < 1440,
{
    let wide: i64 = secs as i64;
    if wide >= 0 {
        (wide / 60) as i32
    } else {
        (0 - ((0 - wide) / 60)) as i32
    }
}

/// The verdict of the time zone condition `attr_str` on a host whose offset
/// from UTC is `offset_minutes`: a fault where a token is ambiguous; else
/// unsatisfied with the tokens that stand for no offset; else satisfied
/// exactly where a token stands for the offset of the host.
pub fn judge_timezone(attr_str: &str, offset_minutes: i32) -> (r: Result<
    (bool, String),
    ConfigError,
>)
    ensures
        is_outcome(r, tz_verdict(attr_str@, offset_minutes as int)),
        r matches Ok(v) ==> (v.0 <==> v.1@.len() == 0),
{
    let attr = chars_of(attr_str);
    let tokens = split_entries(&attr);
    let ghost toks = entries(attr_str@);
    let mut ok: Vec<bool> = Vec::new();
    let mut matched = false;
    let mut i: usize = 0;
    while i < tokens.len()
        invariant
            i <= tokens.len(),
            views(tokens@) == toks,
            toks == entries(attr_str@),
            first_ambiguous(toks.take(i as int)) is None,
            ok@ == understood(toks).take(i as int),
            matched == names_offset(toks.take(i as int), offset_minutes as int),
        decreases tokens.len() - i,
    {
        let zone = read_zone(&tokens[i]);
        proof {
            assert(views(tokens@)[i as int] == tokens@[i as int]@);
            assert(toks.take(i + 1).drop_last() == toks.take(i as int));
            assert(toks.take(i + 1).last() == toks[i as int]);
            assert(understood(toks).take(i + 1) == understood(toks).take(i as int).push(
                zone is Offset,
            ));
        }
        let ghost before = toks.take(i as int);
        let ghost after = toks.take(i + 1);
        match zone {
            Zone::Ambiguous(fault) => {
                proof {
                    assert(after.drop_last() == before);
                    assert(zone_of(after.last()) == zone);
                    assert(first_ambiguous(after) == Some(fault));
                    lemma_first_ambiguous_stays(toks, i + 1);
                }
                return Err(fault);
            },
            Zone::Offset(minutes) => {
                ok.push(true);
                if minutes == offset_minutes as i64 {
                    matched = true;
                    assert(zone_of(after[i as int]) == Zone::Offset(offset_minutes as i64));
                } else if matched {
                    let ghost j = choose|j: int|
                        0 <= j < before.len() && zone_of(#[trigger] before[j]) == Zone::Offset(
                            offset_minutes as i64,
                        );
                    assert(after[j] == before[j]);
                } else {
                    assert forall|j: int| 0 <= j < after.len() implies zone_of(
                        #[trigger] after[j],
                    ) != Zone::Offset(offset_minutes as i64) by {
                        if j < i {
                            assert(before[j] == after[j]);
                        }
                    }
                }
            },
            Zone::Unknown => {
                ok.push(false);
                if matched {
                    let ghost j = choose|j: int|
                        0 <= j < before.len() && zone_of(#[trigger] before[j]) == Zone::Offset(
                            offset_minutes as i64,
                        );
                    assert(after[j] == before[j]);
                } else {
                    assert forall|j: int| 0 <= j < after.len() implies zone_of(
                        #[trigger] after[j],
                    ) != Zone::Offset(offset_minutes as i64) by {
                        if j < i {
                            assert(before[j] == after[j]);
                        }
                    }
                }
            },
        }
        i += 1;
    }
    proof {
        assert(toks.take(tokens.len() as int) == toks);
        assert(understood(toks).take(tokens.len() as int) == understood(toks));
        reveal_strlit("because timezone ");
        reveal_strlit("because following timezones are incorrect:\n");
        reveal_strlit("because the test case not run in following timezone:\n");
    }
    let wording = Wording {
        one_before: "because timezone ",
        one_after: " is incorrect",
        many_before: "because following timezones are incorrect:\n",
        between: ", ",
        many_after: "\n",
    };
    let bad = crate::reason::collect_failures(&tokens, &ok);
    if bad.len() > 0 {
        let reason = wording.compose(&bad);
        Ok((false, string_of(&reason)))
    } else if matched {
        Ok((true, String::new()))
    } else {
        let mut reason: Vec<char> = Vec::new();
        append_str(&mut reason, "because the test case not run in following timezone:\n");
        append_chars(&mut reason, &attr);
        append_str(&mut reason, "\n");
        Ok((false, string_of(&reason)))
    }
}

/// The offset of the host from UTC at this moment, in whole minutes.
pub(crate) fn host_offset_minutes() -> (minutes: i32)
    ensures
        -1440 < minutes < 1440,
{
    minutes_of(local_offset_seconds())
}

/// Whether the host is in one of the time zones that `attr_str` lists. The
/// offset of the host is read at the call; the outcome is the verdict for
/// that offset, which is less than a day either way.
pub fn check_tz_condition(attr_str: String) -> (r: Result<(bool, String), ConfigError>)
    ensures
        exists|minutes: int|
            -1440 < minutes < 1440 && is_outcome(r, #[trigger] tz_verdict(attr_str@, minutes)),
        r matches Ok(v) ==> (v.0 <==> v.1@.len() == 0),
{
    let minutes = host_offset_minutes();
    judge_timezone(attr_str.as_str(), minutes)
}

/// The fault of the time zone list `attr_str`, if it has one: that of its
/// first ambiguous token. This is all that is checked of a list before the
/// test runs.
pub fn check_tz_text(attr_str: &str) -> (r: Result<(), ConfigError>)
    ensures
        match r {
            Err(fault) => first_ambiguous(entries(attr_str@)) == Some(fault),
            Ok(_) => first_ambiguous(entries(attr_str@)) is None,
        },
{
    match judge_timezone(attr_str, 0) {
        Err(fault) => Err(fault),
        Ok(_) => Ok(()),
    }
}

} // verus!
