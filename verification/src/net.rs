//! Conditions on what can be reached over the network: web servers, hosts
//! that answer an echo request, and sockets that accept a connection.
//!
//! The requests are made by the caller, who hands in what came of each.

use vstd::prelude::*;
use crate::error::ConfigError;
use crate::reason::{all_ok, failures, is_outcome, lemma_failures, reason_text, Wording};
use crate::text::{append_chars, append_str, chars_of, string_of, string_views, views};
use crate::trim::{parse_entries, trimmed_entries};

verus! {

/// What came of the echo request to one entry of an address list.
#[derive(Debug, Clone, Copy, PartialEq, Eq, Structural)]
pub enum Ping {
    /// The entry is no IP address.
    NoAddress,
    /// The host answered.
    Answered,
    /// The host did not answer.
    Silent,
}

/// The reason given for the sockets `missing` that accept no connection.
pub open spec fn tcp_reason(missing: Seq<Seq<char>>) -> Seq<char> {
    reason_text(
        missing,
        "because fail to connect socket "@,
        ""@,
        "because follow sockets can not connect\n"@,
        ", "@,
        "\n"@,
    )
}

/// The reason given for the addresses `missing` that did not answer.
pub open spec fn echo_reason(missing: Seq<Seq<char>>) -> Seq<char> {
    reason_text(
        missing,
        "because ip "@,
        " not response"@,
        "because following ip not response: \n"@,
        ", "@,
        "\n"@,
    )
}

/// The reason given for the links `missing` that did not respond.
pub open spec fn link_reason(missing: Seq<Seq<char>>) -> Seq<char> {
    reason_text(
        missing,
        "because "@,
        " not response"@,
        "because following links not response: \n"@,
        "\n"@,
        "\n"@,
    )
}

/// The links that the condition `attr` lists: the scheme, `://`, and the
/// entry.
pub open spec fn links(scheme: Seq<char>, attr: Seq<char>) -> Seq<Seq<char>> {
    Seq::new(trimmed_entries(attr).len(), |i: int| scheme + "://"@ + trimmed_entries(attr)[i])
}

/// The verdict of the socket condition `attr`, where `connected` says of
/// each entry whether the connection was made.
pub open spec fn tcp_verdict(attr: Seq<char>, connected: Seq<bool>) -> (bool, Seq<char>) {
    (
        all_ok(trimmed_entries(attr), connected),
        tcp_reason(failures(trimmed_entries(attr), connected)),
    )
}

/// The verdict of the web condition `attr` for the scheme `scheme`, where
/// `responded` says of each entry whether its link responded.
pub open spec fn link_verdict(scheme: Seq<char>, attr: Seq<char>, responded: Seq<bool>) -> (
    bool,
    Seq<char>,
) {
    (
        all_ok(links(scheme, attr), responded),
        link_reason(failures(links(scheme, attr), responded)),
    )
}

/// For each outcome of an echo request, whether the host answered.
pub open spec fn answered(pings: Seq<Ping>) -> Seq<bool> {
    Seq::new(pings.len(), |i: int| pings[i] is Answered)
}

/// Whether one of the first `n` entries is recorded as no IP address.
pub open spec fn any_bad_address(pings: Seq<Ping>, n: int) -> bool {
    exists|i: int| 0 <= i < n && i < pings.len() && #[trigger] pings[i] is NoAddress
}

/// The verdict of the echo condition `attr`, where `pings` tells what came
/// of the request to each entry: a fault where an entry is no IP address.
pub open spec fn echo_verdict(attr: Seq<char>, pings: Seq<Ping>) -> Result<
    (bool, Seq<char>),
    ConfigError,
> {
    let names = trimmed_entries(attr);
    if any_bad_address(pings, names.len() as int) {
        Err(ConfigError::BadIpAddress)
    } else {
        Ok((all_ok(names, answered(pings)), echo_reason(failures(names, answered(pings)))))
    }
}

/// Whether every socket that `attr_str` lists accepted a connection, where
/// `connected` says so of each entry; if not, the reason names each socket
/// that did not. An entry without a recorded attempt counts as not
/// connected.
pub fn check_tcp_condition(attr_str: String, connected: &Vec<bool>) -> (r: (bool, String))
    ensures
        (r.0, r.1@) == tcp_verdict(attr_str@, connected@),
        r.0 <==> r.1@.len() == 0,
{
    let wording = Wording {
        one_before: "because fail to connect socket ",
        one_after: "",
        many_before: "because follow sockets can not connect\n",
        between: ", ",
        many_after: "\n",
    };
    proof {
        reveal_strlit("because fail to connect socket ");
        reveal_strlit("because follow sockets can not connect\n");
    }
    wording.judge_listed(attr_str.as_str(), connected)
}

/// The links that the condition `attr_str` lists for the scheme `scheme`:
/// what is requested for each entry.
pub fn parse_links(scheme: &str, attr_str: &str) -> (out: Vec<String>)
    ensures
        string_views(out@) == links(scheme@, attr_str@),
{
    let list = link_chars(scheme, attr_str);
    let mut out: Vec<String> = Vec::new();
    let mut i: usize = 0;
    while i < list.len()
        invariant
            i <= list.len(),
            string_views(out@) == views(list@).take(i as int),
        decreases list.len() - i,
    {
        let link = string_of(&list[i]);
        proof {
            assert(string_views(out@.push(link)) == string_views(out@).push(link@));
            assert(views(list@).take(i + 1) == views(list@).take(i as int).push(
                list@[i as int]@,
            ));
        }
        out.push(link);
        i += 1;
    }
    assert(views(list@).take(list.len() as int) == views(list@));
    out
}

fn link_chars(scheme: &str, attr_str: &str) -> (out: Vec<Vec<char>>)
    ensures
        views(out@) == links(scheme@, attr_str@),
{
    let attr = chars_of(attr_str);
    let names = parse_entries(&attr);
    let mut out: Vec<Vec<char>> = Vec::new();
    let mut i: usize = 0;
    while i < names.len()
        invariant
            i <= names.len(),
            views(names@) == trimmed_entries(attr_str@),
            views(out@) == links(scheme@, attr_str@).take(i as int),
        decreases names.len() - i,
    {
        let mut link: Vec<char> = Vec::new();
        append_str(&mut link, scheme);
        append_str(&mut link, "://");
        append_chars(&mut link, &names[i]);
        proof {
            assert(views(names@)[i as int] == names@[i as int]@);
            assert(views(out@.push(link)) == views(out@).push(link@));
            assert(links(scheme@, attr_str@).take(i + 1) == links(scheme@, attr_str@).take(
                i as int,
            ).push(links(scheme@, attr_str@)[i as int]));
        }
        out.push(link);
        i += 1;
    }
    assert(links(scheme@, attr_str@).take(names.len() as int) == links(scheme@, attr_str@));
    out
}

fn judge_links(scheme: &str, attr_str: &str, responded: &Vec<bool>) -> (r: (bool, String))
    ensures
        (r.0, r.1@) == link_verdict(scheme@, attr_str@, responded@),
        r.0 <==> r.1@.len() == 0,
{
    let list = link_chars(scheme, attr_str);
    let wording = Wording {
        one_before: "because ",
        one_after: " not response",
        many_before: "because following links not response: \n",
        between: "\n",
        many_after: "\n",
    };
    proof {
        reveal_strlit("because ");
        reveal_strlit("because following links not response: \n");
        lemma_failures(links(scheme@, attr_str@), responded@);
    }
    let verdict = wording.judge(&list, responded);
    (verdict.0, string_of(&verdict.1))
}

/// Whether every web server that `attr_str` lists responded over `http`,
/// where `responded` says so of each entry; if not, the reason names each
/// link that did not. An entry without a recorded request counts as not
/// responding.
pub fn check_http_condition(attr_str: String, responded: &Vec<bool>) -> (r: (bool, String))
    ensures
        (r.0, r.1@) == link_verdict("http"@, attr_str@, responded@),
        r.0 <==> r.1@.len() == 0,
{
    judge_links("http", attr_str.as_str(), responded)
}

/// Whether every web server that `attr_str` lists responded over `https`,
/// where `responded` says so of each entry; if not, the reason names each
/// link that did not. An entry without a recorded request counts as not
/// responding.
pub fn check_https_condition(attr_str: String, responded: &Vec<bool>) -> (r: (bool, String))
    ensures
        (r.0, r.1@) == link_verdict("https"@, attr_str@, responded@),
        r.0 <==> r.1@.len() == 0,
{
    judge_links("https", attr_str.as_str(), responded)
}

/// Whether every address that `attr_str` lists answered an echo request,
/// where `pings` tells what came of the request to each entry. An entry that
/// is no IP address is a fault. Else the reason names each address that did
/// not answer; an entry without a recorded request counts as silent.
pub fn check_icmp_condition(attr_str: String, pings: &Vec<Ping>) -> (r: Result<
    (bool, String),
    ConfigError,
>)
    ensures
        is_outcome(r, echo_verdict(attr_str@, pings@)),
        r matches Ok(v) ==> (v.0 <==> v.1@.len() == 0),
{
    judge_pings(attr_str.as_str(), pings)
}

/// The verdict of the echo condition `attr_str`, where `pings` tells what
/// came of the request to each entry.
pub fn judge_pings(attr_str: &str, pings: &Vec<Ping>) -> (r: Result<(bool, String), ConfigError>)
    ensures
        is_outcome(r, echo_verdict(attr_str@, pings@)),
        r matches Ok(v) ==> (v.0 <==> v.1@.len() == 0),
{
    let attr = chars_of(attr_str);
    let names = parse_entries(&attr);
    let mut ok: Vec<bool> = Vec::new();
    let mut i: usize = 0;
    while i < pings.len()
        invariant
            i <= pings.len(),
            views(names@) == trimmed_entries(attr_str@),
            ok@ == answered(pings@).take(i as int),
            !any_bad_address(pings@, if i < names.len() {
                i as int
            } else {
                names.len() as int
            }),
        decreases pings.len() - i,
    {
        match pings[i] {
            Ping::NoAddress => {
                if i < names.len() {
                    assert(pings@[i as int] is NoAddress);
                    return Err(ConfigError::BadIpAddress);
                }
                ok.push(false);
            },
            Ping::Answered => {
                ok.push(true);
            },
            Ping::Silent => {
                ok.push(false);
            },
        }
        proof {
            assert(answered(pings@).take(i + 1) == answered(pings@).take(i as int).push(
                pings@[i as int] is Answered,
            ));
        }
        i += 1;
    }
    proof {
        assert(answered(pings@).take(pings.len() as int) == answered(pings@));
        reveal_strlit("because ip ");
        reveal_strlit("because following ip not response: \n");
        lemma_failures(trimmed_entries(attr_str@), ok@);
    }
    let wording = Wording {
        one_before: "because ip ",
        one_after: " not response",
        many_before: "because following ip not response: \n",
        between: ", ",
        many_after: "\n",
    };
    let verdict = wording.judge(&names, &ok);
    Ok((verdict.0, string_of(&verdict.1)))
}

/// Whether one of the first `n` entries is recorded as no IP address.
pub open spec fn any_not_address(is_address: Seq<bool>, n: nat) -> bool {
    exists|i: int| 0 <= i < n && i < is_address.len() && !#[trigger] is_address[i]
}

/// Whether the address list `attr_str` is well formed, where `is_address`
/// says of each entry whether it is an IP address: a fault exactly where an
/// entry is recorded as none. This is all that is checked of a list before
/// the test runs.
pub fn check_addresses(attr_str: &str, is_address: &Vec<bool>) -> (r: Result<(), ConfigError>)
    ensures
        r is Err <==> any_not_address(is_address@, trimmed_entries(attr_str@).len()),
        r matches Err(fault) ==> fault == ConfigError::BadIpAddress,
{
    let attr = chars_of(attr_str);
    let names = parse_entries(&attr);
    let mut i: usize = 0;
    while i < names.len() && i < is_address.len()
        invariant
            views(names@) == trimmed_entries(attr_str@),
            !any_not_address(is_address@, i as nat),
        decreases names.len() - i,
    {
        if !is_address[i] {
            return Err(ConfigError::BadIpAddress);
        }
        i += 1;
    }
    Ok(())
}

} // verus!
