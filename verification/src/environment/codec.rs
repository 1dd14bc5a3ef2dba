use crate::assoc::{assoc_map, has_key, lemma_assoc_dom};
use crate::environment::handle::{
    EnvironmentHandle, EnvironmentStatus, HandleView, StatusView, Timestamp,
};
use crate::environment::vars::EnvVars;
use crate::json::{
    lemma_members_value, members_pairs, members_value, push_member, value_get, value_get_str,
    Json, JsonValue,
};
use crate::mcp::encode::{encode_stored_time, encode_vars, stored_time_value, string_object};
use crate::mcp::params::{get_string_map, string_members};
use crate::text::text_eq;
use vstd::prelude::*;
use vstd::string::StringExecFns;

verus! {

/// The point in time that an RFC 3339 text names, where it names one.
pub uninterp spec fn rfc3339_time(text: Seq<char>) -> Option<Timestamp>;

/// Reads a point in time with `chrono::DateTime::parse_from_rfc3339`. Whether
/// the text is accepted and which time it names depend on the text alone.
#[verifier::external_body]
fn parse_rfc3339(text: &str) -> (r: Option<Timestamp>)
    ensures
        r == rfc3339_time(text@),
{
    chrono::DateTime::parse_from_rfc3339(text).ok().map(
        |t| Timestamp { seconds: t.timestamp(), nanos: t.timestamp_subsec_nanos() },
    )
}

/// A status as a document: the lower-case name of the variant, and for an
/// error an object that holds the reason under `error`.
pub open spec fn status_value(status: StatusView) -> JsonValue {
    match status {
        StatusView::Creating => JsonValue::Str("creating"@),
        StatusView::Running => JsonValue::Str("running"@),
        StatusView::Stopping => JsonValue::Str("stopping"@),
        StatusView::Stopped => JsonValue::Str("stopped"@),
        StatusView::Error(reason) => JsonValue::Object(
            Map::<Seq<char>, JsonValue>::empty().insert("error"@, JsonValue::Str(reason)),
        ),
    }
}

/// The status that a document holds, where it holds one.
pub open spec fn spec_status_from(doc: JsonValue) -> Option<StatusView> {
    match doc {
        JsonValue::Str(tag) => if tag == "creating"@ {
            Some(StatusView::Creating)
        } else if tag == "running"@ {
            Some(StatusView::Running)
        } else if tag == "stopping"@ {
            Some(StatusView::Stopping)
        } else if tag == "stopped"@ {
            Some(StatusView::Stopped)
        } else {
            None
        },
        JsonValue::Object(members) => if members.dom() == set!["error"@] {
            match members["error"@] {
                JsonValue::Str(reason) => Some(StatusView::Error(reason)),
                _ => None,
            }
        } else {
            None
        },
        _ => None,
    }
}

/// A status that was written is read back as it was.
pub proof fn lemma_status_round_trip(status: StatusView)
    ensures
        spec_status_from(status_value(status)) == Some(status),
{
    reveal_strlit("creating");
    reveal_strlit("running");
    reveal_strlit("stopping");
    reveal_strlit("stopped");
    match status {
        StatusView::Creating => {},
        StatusView::Running => {
            assert("running"@[0] != "creating"@[0]);
        },
        StatusView::Stopping => {
            assert("stopping"@[0] != "creating"@[0]);
            assert("stopping"@[0] != "running"@[0]);
        },
        StatusView::Stopped => {
            assert("stopped"@[0] != "creating"@[0]);
            assert("stopped"@[0] != "running"@[0]);
            assert("stopped"@.len() != "stopping"@.len());
        },
        StatusView::Error(reason) => {
            let members = Map::<Seq<char>, JsonValue>::empty().insert(
                "error"@,
                JsonValue::Str(reason),
            );
            assert(members.dom() =~= set!["error"@]);
        },
    }
}

impl EnvironmentStatus {
    /// The status as a document.
    pub fn to_json(&self) -> (doc: Json)
        ensures
            doc@ == status_value(self@),
    {
        match self {
            EnvironmentStatus::Error(reason) => {
                let mut members: Vec<(String, Json)> = Vec::new();
                assert(members_value(members@) =~= Map::empty());
                push_member(&mut members, "error", Json::Str(reason.clone()));
                Json::Object(members)
            },
            _ => Json::Str(String::from_str(self.tag())),
        }
    }

    /// Reads a status out of a document; `None` where the document holds
    /// none.
    pub fn from_json(doc: &Json) -> (r: Option<EnvironmentStatus>)
        ensures
            match r {
                Some(status) => spec_status_from(doc@) == Some(status@),
                None => spec_status_from(doc@).is_none(),
            },
    {
        match doc {
            Json::Str(tag) => {
                if text_eq(tag.as_str(), "creating") {
                    Some(EnvironmentStatus::Creating)
                } else if text_eq(tag.as_str(), "running") {
                    Some(EnvironmentStatus::Running)
                } else if text_eq(tag.as_str(), "stopping") {
                    Some(EnvironmentStatus::Stopping)
                } else if text_eq(tag.as_str(), "stopped") {
                    Some(EnvironmentStatus::Stopped)
                } else {
                    None
                }
            },
            Json::Object(members) => {
                let ghost pairs = members_pairs(members@);
                proof {
                    lemma_members_value(members@);
                    lemma_assoc_dom(pairs);
                }
                let mut i: usize = 0;
                while i < members.len()
                    invariant
                        i <= members@.len(),
                        pairs == members_pairs(members@),
                        doc@ == JsonValue::Object(assoc_map(pairs)),
                        forall|key: Seq<char>|
                            #[trigger] assoc_map(pairs).contains_key(key) <==> has_key(pairs, key),
                        forall|k: int| 0 <= k < i ==> (#[trigger] pairs[k]).0 == "error"@,
                    decreases members@.len() - i,
                {
                    if !text_eq(members[i].0.as_str(), "error") {
                        proof {
                            assert(pairs[i as int].0 == members@[i as int].0@);
                            assert(has_key(pairs, pairs[i as int].0));
                            assert(assoc_map(pairs).dom().contains(pairs[i as int].0));
                        }
                        return None;
                    }
                    proof {
                        assert(pairs[i as int].0 == members@[i as int].0@);
                    }
                    i += 1;
                }
                if members.len() == 0 {
                    assert(!assoc_map(pairs).dom().contains("error"@));
                    return None;
                }
                proof {
                    assert(pairs[0].0 == "error"@);
                    assert(has_key(pairs, "error"@));
                    assert forall|key: Seq<char>| assoc_map(pairs).dom().contains(key) implies key
                        == "error"@ by {
                        assert(has_key(pairs, key));
                        let k = choose|k: int| 0 <= k < pairs.len() && (#[trigger] pairs[k]).0 == key;
                    }
                    assert(assoc_map(pairs).dom() =~= set!["error"@]);
                }
                match doc.get_str("error") {
                    Some(reason) => Some(EnvironmentStatus::Error(String::from_str(reason))),
                    None => None,
                }
            },
            _ => None,
        }
    }
}

/// A handle as a document, one member for each field; the time of creation
/// is written with the offset `Z`.
pub open spec fn handle_value(handle: HandleView) -> JsonValue {
    JsonValue::Object(
        Map::<Seq<char>, JsonValue>::empty().insert("env_id"@, JsonValue::Str(handle.env_id)).insert(
            "container_id"@,
            JsonValue::Str(handle.container_id),
        ).insert("project_root"@, JsonValue::Str(handle.project_root)).insert(
            "mount_path"@,
            JsonValue::Str(handle.mount_path),
        ).insert("created_at"@, stored_time_value(handle.created_at)).insert(
            "status"@,
            status_value(handle.status),
        ).insert("image"@, JsonValue::Str(handle.image)).insert(
            "env_vars"@,
            string_object(handle.env_vars),
        ),
    )
}

/// Every member of an object is a string.
pub open spec fn all_strings(members: Map<Seq<char>, JsonValue>) -> bool {
    forall|key: Seq<char>| members.contains_key(key) ==> (#[trigger] members[key]) is Str
}

/// The variables that a document holds under `env_vars`: none where the
/// member is absent, and no reading at all where it is anything but an object
/// of strings.
pub open spec fn spec_vars_from(doc: JsonValue) -> Option<Map<Seq<char>, Seq<char>>> {
    match value_get(doc, "env_vars"@) {
        None => Some(Map::empty()),
        Some(JsonValue::Object(members)) => if all_strings(members) {
            Some(string_members(members))
        } else {
            None
        },
        Some(_) => None,
    }
}

/// The handle that a document holds, where it holds one: the five texts,
/// the time of creation as RFC 3339 text and the status are required, the
/// variables may be left out.
pub open spec fn spec_handle_from(doc: JsonValue) -> Option<HandleView> {
    match (
        value_get_str(doc, "env_id"@),
        value_get_str(doc, "container_id"@),
        value_get_str(doc, "project_root"@),
        value_get_str(doc, "mount_path"@),
        value_get_str(doc, "image"@),
    ) {
        (Some(env_id), Some(container_id), Some(project_root), Some(mount_path), Some(image)) => {
            match (
                match value_get_str(doc, "created_at"@) {
                    Some(text) => rfc3339_time(text),
                    None => None,
                },
                match value_get(doc, "status"@) {
                    Some(status) => spec_status_from(status),
                    None => None,
                },
                spec_vars_from(doc),
            ) {
                (Some(created_at), Some(status), Some(env_vars)) => Some(
                    HandleView {
                        env_id,
                        container_id,
                        project_root,
                        mount_path,
                        created_at,
                        status,
                        image,
                        env_vars,
                    },
                ),
                _ => None,
            }
        },
        _ => None,
    }
}

fn vars_from(doc: &Json) -> (r: Option<EnvVars>)
    ensures
        match r {
            Some(vars) => spec_vars_from(doc@) == Some(vars@),
            None => spec_vars_from(doc@).is_none(),
        },
{
    let member = match doc.get("env_vars") {
        Some(member) => member,
        None => {
            return Some(EnvVars::new());
        },
    };
    let members = match member.as_object() {
        Some(members) => members,
        None => {
            return None;
        },
    };
    let ghost pairs = members_pairs(members@);
    proof {
        lemma_assoc_dom(pairs);
    }
    let mut i: usize = 0;
    while i < members.len()
        invariant
            i <= members@.len(),
            pairs == members_pairs(members@),
            member@ == JsonValue::Object(assoc_map(pairs)),
            value_get(doc@, "env_vars"@) == Some(member@),
            forall|key: Seq<char>|
                #[trigger] assoc_map(pairs).contains_key(key) <==> has_key(pairs, key),
            forall|k: int| 0 <= k < i ==> assoc_map(pairs)[(#[trigger] pairs[k]).0] is Str,
        decreases members@.len() - i,
    {
        proof {
            assert(pairs[i as int].0 == members@[i as int].0@);
            assert(has_key(pairs, pairs[i as int].0));
        }
        match member.get(members[i].0.as_str()) {
            Some(Json::Str(_)) => {},
            _ => {
                return None;
            },
        }
        i += 1;
    }
    proof {
        assert forall|key: Seq<char>| assoc_map(pairs).contains_key(key) implies (
        #[trigger] assoc_map(pairs)[key]) is Str by {
            assert(has_key(pairs, key));
            let k = choose|k: int| 0 <= k < pairs.len() && (#[trigger] pairs[k]).0 == key;
        }
    }
    Some(get_string_map(doc, "env_vars"))
}

impl EnvironmentHandle {
    /// The handle as a document.
    pub fn to_json(&self) -> (doc: Json)
        ensures
            doc@ == handle_value(self@),
    {
        let mut members: Vec<(String, Json)> = Vec::new();
        assert(members_value(members@) =~= Map::empty());
        push_member(&mut members, "env_id", Json::Str(self.env_id.clone()));
        push_member(&mut members, "container_id", Json::Str(self.container_id.clone()));
        push_member(&mut members, "project_root", Json::Str(self.project_root.clone()));
        push_member(&mut members, "mount_path", Json::Str(self.mount_path.clone()));
        push_member(&mut members, "created_at", encode_stored_time(self.created_at));
        push_member(&mut members, "status", self.status.to_json());
        push_member(&mut members, "image", Json::Str(self.image.clone()));
        push_member(&mut members, "env_vars", encode_vars(&self.env_vars));
        Json::Object(members)
    }

    /// Reads a handle out of a document; `None` where the document holds
    /// none.
    pub fn from_json(doc: &Json) -> (r: Option<EnvironmentHandle>)
        ensures
            match r {
                Some(handle) => spec_handle_from(doc@) == Some(handle@),
                None => spec_handle_from(doc@).is_none(),
            },
    {
        let env_id = match doc.get_str("env_id") {
            Some(text) => String::from_str(text),
            None => {
                return None;
            },
        };
        let container_id = match doc.get_str("container_id") {
            Some(text) => String::from_str(text),
            None => {
                return None;
            },
        };
        let project_root = match doc.get_str("project_root") {
            Some(text) => String::from_str(text),
            None => {
                return None;
            },
        };
        let mount_path = match doc.get_str("mount_path") {
            Some(text) => String::from_str(text),
            None => {
                return None;
            },
        };
        let image = match doc.get_str("image") {
            Some(text) => String::from_str(text),
            None => {
                return None;
            },
        };
        let created_at = match doc.get_str("created_at") {
            Some(text) => match parse_rfc3339(text) {
                Some(at) => at,
                None => {
                    return None;
                },
            },
            None => {
                return None;
            },
        };
        let status = match doc.get("status") {
            Some(member) => match EnvironmentStatus::from_json(member) {
                Some(status) => status,
                None => {
                    return None;
                },
            },
            None => {
                return None;
            },
        };
        let env_vars = match vars_from(doc) {
            Some(vars) => vars,
            None => {
                return None;
            },
        };
        Some(
            EnvironmentHandle {
                env_id,
                container_id,
                project_root,
                mount_path,
                created_at,
                status,
                image,
                env_vars,
            },
        )
    }
}

} // verus!
