//! Telling the user that a newer release exists.
use vstd::prelude::*;
use crate::payloads::Notification;
use crate::util::chars::{str_eq, string_from_str};

verus! {

/// Where the notifications of the project itself take their icon from.
pub open spec fn project_icon() -> Seq<char> {
    "https://avatars.githubusercontent.com/u/25207995?v=4"@
}

/// The notification shown when the latest release, tagged `latest_tag`, is
/// not the running version `current_version`; none when they agree or the
/// release carries no tag. It is stamped `now`.
pub fn update_notice(latest_tag: &Option<String>, current_version: &str, now: i64) -> (r: Option<
    Notification,
>)
    ensures
        r is Some <==> (latest_tag matches Some(t) && t@ != current_version@),
        r matches Some(n) ==> n.title@ == "Update Available!"@ && n.body@
            == "An new update of Orbolay is available and can be downloaded via the GitHub releases"@
            && n.icon@ == project_icon() && n.guild_id is None && n.channel_id is None
            && n.message_id is None && n.actions is None && n.timestamp == Some(now),
{
    match latest_tag {
        Some(tag) => {
            if str_eq(tag.as_str(), current_version) {
                None
            } else {
                Some(
                    Notification::new(
                        string_from_str("Update Available!"),
                        string_from_str(
                            "An new update of Orbolay is available and can be downloaded via the GitHub releases",
                        ),
                        string_from_str("https://avatars.githubusercontent.com/u/25207995?v=4"),
                        now,
                    ),
                )
            }
        },
        None => None,
    }
}

/// What `serde_json` reads from the JSON text `body`: `None` when it is not
/// JSON, else the string under the key "tag_name" of the object, if there is
/// one.
pub uninterp spec fn json_release_tag(body: Seq<char>) -> Option<Option<Seq<char>>>;

/// `serde_json::from_str::<serde_json::Value>` on `body`, then `Value::get`
/// of "tag_name" and `Value::as_str`: the release tag in a release
/// description, read by serde_json. The contract ties the result to `body`
/// through `json_release_tag` and says nothing more of JSON.
#[verifier::external_body]
fn release_tag(body: &str) -> (r: Option<Option<String>>)
    ensures
        match r {
            Some(Some(t)) => json_release_tag(body@) == Some(Some(t@)),
            Some(None) => json_release_tag(body@) == Some(None::<Seq<char>>),
            None => json_release_tag(body@) is None,
        },
{
    let value: serde_json::Value = match serde_json::from_str(body) {
        Ok(v) => v,
        Err(_) => return None,
    };
    match value.get("tag_name") {
        Some(t) => Some(t.as_str().map(String::from)),
        None => Some(None),
    }
}

/// The notification owed for the release description `body` (the latest
/// release as GitHub describes it) when the running version is
/// `current_version`: one when its tag differs from the running version,
/// stamped `now`.
pub fn release_update_notice(body: &str, current_version: &str, now: i64) -> (r: Option<
    Notification,
>)
    ensures
        r is Some <==> (json_release_tag(body@) matches Some(Some(t)) && t != current_version@),
        r matches Some(n) ==> n.title@ == "Update Available!"@ && n.body@
            == "An new update of Orbolay is available and can be downloaded via the GitHub releases"@
            && n.icon@ == project_icon() && n.guild_id is None && n.channel_id is None
            && n.message_id is None && n.actions is None && n.timestamp == Some(now),
{
    match release_tag(body) {
        Some(tag) => update_notice(&tag, current_version, now),
        None => None,
    }
}

} // verus!
