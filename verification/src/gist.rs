//! The shareable playground URL built around a paste identifier, and the
//! reading of the paste service's response.

use vstd::prelude::*;
use crate::flags::{Channel, CommandFlags, Edition, Mode};
use crate::text::{contains_seq, lemma_concat_contains};

verus! {

/// The channel's name as the playground URL spells it.
pub open spec fn channel_param(c: Channel) -> Seq<char> {
    match c {
        Channel::Nightly => "nightly"@,
        Channel::Beta => "beta"@,
        Channel::Stable => "stable"@,
    }
}

/// The mode's name as the playground URL spells it.
pub open spec fn mode_param(m: Mode) -> Seq<char> {
    match m {
        Mode::Debug => "debug"@,
        Mode::Release => "release"@,
    }
}

/// The edition's year as the playground URL spells it.
pub open spec fn edition_param(e: Edition) -> Seq<char> {
    match e {
        Edition::E2015 => "2015"@,
        Edition::E2018 => "2018"@,
    }
}

/// The full shareable URL: playground address, the three resolved flags, and
/// the paste identifier, as query parameters.
pub open spec fn spec_play_url(flags: CommandFlags, gist_id: Seq<char>) -> Seq<char> {
    "https://play.rust-lang.org/?version="@ + channel_param(flags.channel) + "&mode="@
        + mode_param(flags.mode) + "&edition="@ + edition_param(flags.edition) + "&gist="@
        + gist_id
}

/// Build the shareable URL for a stored paste under the given flags.
pub fn url_from_gist(flags: &CommandFlags, gist_id: &str) -> (r: String)
    ensures
        r@ == spec_play_url(*flags, gist_id@),
{
    let mut url = String::from_str("https://play.rust-lang.org/?version=");
    url.append(
        match flags.channel {
            Channel::Nightly => "nightly",
            Channel::Beta => "beta",
            Channel::Stable => "stable",
        },
    );
    url.append("&mode=");
    url.append(
        match flags.mode {
            Mode::Debug => "debug",
            Mode::Release => "release",
        },
    );
    url.append("&edition=");
    url.append(
        match flags.edition {
            Edition::E2015 => "2015",
            Edition::E2018 => "2018",
        },
    );
    url.append("&gist=");
    url.append(gist_id);
    proof {
        assert(url@ =~= spec_play_url(*flags, gist_id@));
    }
    url
}

/// The identifier the paste service's response carries, or the error shown
/// when the response has none.
pub fn gist_id_from_response(id: Option<String>) -> (r: Result<String, String>)
    ensures
        match id {
            Some(g) => r matches Ok(v) && v == g,
            None => r matches Err(m) && m@ == "no gist found"@,
        },
{
    match id {
        Some(g) => Ok(g),
        None => Err("no gist found".to_owned()),
    }
}

/// The reply text pointing at the stored paste.
pub open spec fn spec_gist_reply(flags: CommandFlags, gist_id: Seq<char>) -> Seq<char> {
    "Output too large. Playground link: "@ + spec_play_url(flags, gist_id)
}

/// The overflow reply embeds the resolved channel, mode and edition, and the
/// paste identifier, whatever the flags and the identifier are.
pub proof fn lemma_gist_reply_embeds_flags(flags: CommandFlags, gist_id: Seq<char>)
    ensures
        contains_seq(spec_gist_reply(flags, gist_id), channel_param(flags.channel)),
        contains_seq(spec_gist_reply(flags, gist_id), mode_param(flags.mode)),
        contains_seq(spec_gist_reply(flags, gist_id), edition_param(flags.edition)),
        contains_seq(spec_gist_reply(flags, gist_id), gist_id),
{
    let reply = spec_gist_reply(flags, gist_id);
    let pre = "Output too large. Playground link: "@ + "https://play.rust-lang.org/?version="@;
    let after_channel = "&mode="@ + mode_param(flags.mode) + "&edition="@
        + edition_param(flags.edition) + "&gist="@ + gist_id;
    assert(reply =~= pre + channel_param(flags.channel) + after_channel);
    lemma_concat_contains(pre, channel_param(flags.channel), after_channel);

    let pre_mode = pre + channel_param(flags.channel) + "&mode="@;
    let after_mode = "&edition="@ + edition_param(flags.edition) + "&gist="@ + gist_id;
    assert(reply =~= pre_mode + mode_param(flags.mode) + after_mode);
    lemma_concat_contains(pre_mode, mode_param(flags.mode), after_mode);

    let pre_edition = pre_mode + mode_param(flags.mode) + "&edition="@;
    let after_edition = "&gist="@ + gist_id;
    assert(reply =~= pre_edition + edition_param(flags.edition) + after_edition);
    lemma_concat_contains(pre_edition, edition_param(flags.edition), after_edition);

    let pre_gist = pre_edition + edition_param(flags.edition) + "&gist="@;
    assert(reply =~= pre_gist + gist_id + Seq::<char>::empty());
    lemma_concat_contains(pre_gist, gist_id, Seq::<char>::empty());
}

/// Build the short reply sent instead of an oversized inline output.
pub fn gist_overflow_reply(flags: &CommandFlags, gist_id: &str) -> (r: String)
    ensures
        r@ == spec_gist_reply(*flags, gist_id@),
{
    let url = url_from_gist(flags, gist_id);
    let mut reply = String::from_str("Output too large. Playground link: ");
    reply.append(url.as_str());
    proof {
        assert(reply@ =~= spec_gist_reply(*flags, gist_id@));
    }
    reply
}

} // verus!
