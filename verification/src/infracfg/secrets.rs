//! The application's secrets. Every secret takes one resource identifier.
//! Secrets are configured one by one, or all together as a JSON object of
//! strings in one environment variable.
use std::collections::HashMap;
use vstd::prelude::*;
use vstd::utf8::encode_utf8;
use crate::infracfg::map_env_string_to_secret_data;
use crate::infracfg::secret_data_of;
use crate::infracfg::EnvString;
use crate::infracfg::Secrets;
use crate::rid::rid_text;
use crate::rid::RidCounter;
use crate::runtime::AppSecret;
use crate::runtime::AppSecretView;
use crate::runtime::SecretData;
use crate::runtime::SecretDataView;
use crate::runtime::SecretEncoding;
use crate::runtime::SecretSource;
use crate::runtime::SecretSourceView;

verus! {

/// What `serde_json` reads from a text as a JSON object whose values are
/// all strings: the object's members, or nothing where the text is no such
/// object.
pub uninterp spec fn json_string_map(text: Seq<char>) -> Option<Map<Seq<char>, Seq<char>>>;

/// Whether `entries` lists the pairs of `map`, each key once, in some order.
pub open spec fn lists_map(entries: Seq<(Seq<char>, Seq<char>)>, map: Map<Seq<char>, Seq<char>>) -> bool {
    &&& forall|i: int, j: int| 0 <= i < j < entries.len() ==> entries[i].0 != entries[j].0
    &&& forall|i: int|
        0 <= i < entries.len() ==> map.contains_pair((#[trigger] entries[i]).0, entries[i].1)
    &&& forall|key: Seq<char>| #[trigger]
        map.dom().contains(key) ==> exists|i: int| 0 <= i < entries.len() && entries[i].0 == key
}

/// Calls `serde_json::from_str` to read `text` as a map from strings to
/// strings, and lists the map's entries. The call succeeds exactly on the
/// texts that [`json_string_map`] reads, and the list then holds that map's
/// pairs, each key once. In which order is left open: it is the order in
/// which the hash map is walked.
#[verifier::external_body]
fn parse_string_map(text: &str) -> (r: Option<Vec<(String, String)>>)
    ensures
        r is Some <==> json_string_map(text@) is Some,
        r matches Some(entries) ==> lists_map(entries.deep_view(), json_string_map(text@)->0),
{
    match serde_json::from_str::<HashMap<String, String>>(text) {
        Ok(map) => Some(map.into_iter().collect()),
        Err(_) => None,
    }
}

/// Whether `entries` are the secrets that the value of the environment
/// variable gives: the members of its JSON object in some order, or none
/// where the variable is not set or its value is no JSON object of strings.
pub open spec fn env_secrets_listed(value: Option<String>, entries: Seq<(Seq<char>, Seq<char>)>) -> bool {
    match value {
        Some(text) => match json_string_map(text@) {
            Some(map) => lists_map(entries, map),
            None => entries.len() == 0,
        },
        None => entries.len() == 0,
    }
}

/// The secrets in the value of the environment variable.
pub fn read_env_secrets(value: &Option<String>) -> (entries: Vec<(String, String)>)
    ensures
        env_secrets_listed(*value, entries.deep_view()),
{
    match value {
        Some(text) => match parse_string_map(text.as_str()) {
            Some(entries) => entries,
            None => Vec::new(),
        },
        None => Vec::new(),
    }
}

/// A secret that is configured by itself, with the identifier numbered `n`.
pub open spec fn app_secret_of(entry: (String, EnvString), n: nat) -> AppSecretView {
    AppSecretView { rid: rid_text(n), encore_name: entry.0@, data: secret_data_of(entry.1) }
}

/// A secret from the environment variable, with the identifier numbered
/// `n`: its value is embedded.
pub open spec fn env_secret_of(entry: (Seq<char>, Seq<char>), n: nat) -> AppSecretView {
    AppSecretView {
        rid: rid_text(n),
        encore_name: entry.0,
        data: SecretDataView {
            encoding: SecretEncoding::Plain,
            source: SecretSourceView::Embedded(encode_utf8(entry.1)),
            sub_path: None,
        },
    }
}

/// The secrets of the descriptor, numbered from `first` on. Where the
/// configuration refers to the environment variable, they are `env_entries`.
pub open spec fn app_secrets_of(
    secrets: Option<Secrets>,
    env_entries: Seq<(Seq<char>, Seq<char>)>,
    first: nat,
) -> Seq<AppSecretView> {
    match secrets {
        Some(Secrets::Values(entries)) => Seq::new(
            entries@.len(),
            |i: int| app_secret_of(entries@[i], first + i as nat),
        ),
        Some(Secrets::EnvRef(_)) => Seq::new(
            env_entries.len(),
            |i: int| env_secret_of(env_entries[i], first + i as nat),
        ),
        None => Seq::empty(),
    }
}

/// How many identifiers the secrets take.
pub open spec fn secrets_demand(secrets: Option<Secrets>, env_entries: Seq<(Seq<char>, Seq<char>)>) -> nat {
    match secrets {
        Some(Secrets::Values(entries)) => entries@.len(),
        Some(Secrets::EnvRef(_)) => env_entries.len(),
        None => 0,
    }
}

/// Maps the secrets, issuing an identifier for each.
pub fn map_secrets(
    secrets: &Option<Secrets>,
    env_entries: &Vec<(String, String)>,
    rids: &mut RidCounter,
) -> (out: Vec<AppSecret>)
    requires
        old(rids).wf(),
    ensures
        final(rids).wf(),
        final(rids)@ == old(rids)@ + secrets_demand(*secrets, env_entries.deep_view()),
        out.deep_view() == app_secrets_of(*secrets, env_entries.deep_view(), old(rids)@),
{
    let ghost first = rids@;
    let mut out: Vec<AppSecret> = Vec::new();
    match secrets {
        Some(Secrets::Values(entries)) => {
            let mut i: usize = 0;
            while i < entries.len()
                invariant
                    i <= entries.len(),
                    out.len() == i,
                    rids.wf(),
                    rids@ == first + i,
                    forall|j: int|
                        0 <= j < i ==> (#[trigger] out@[j]).deep_view() == app_secret_of(
                            entries@[j],
                            first + j as nat,
                        ),
                decreases entries.len() - i,
            {
                let entry = &entries[i];
                out.push(
                    AppSecret {
                        rid: rids.next(),
                        encore_name: entry.0.clone(),
                        data: map_env_string_to_secret_data(&entry.1),
                    },
                );
                i += 1;
            }
            assert(out.deep_view() =~= app_secrets_of(*secrets, env_entries.deep_view(), first));
        },
        Some(Secrets::EnvRef(_)) => {
            let mut i: usize = 0;
            while i < env_entries.len()
                invariant
                    i <= env_entries.len(),
                    out.len() == i,
                    rids.wf(),
                    rids@ == first + i,
                    forall|j: int|
                        0 <= j < i ==> (#[trigger] out@[j]).deep_view() == env_secret_of(
                            env_entries.deep_view()[j],
                            first + j as nat,
                        ),
                decreases env_entries.len() - i,
            {
                let entry = &env_entries[i];
                let bytes = entry.1.as_str().as_bytes_vec();
                assert(bytes.deep_view() =~= encode_utf8(entry.1@));
                out.push(
                    AppSecret {
                        rid: rids.next(),
                        encore_name: entry.0.clone(),
                        data: SecretData {
                            encoding: SecretEncoding::Plain,
                            source: SecretSource::Embedded(bytes),
                            sub_path: None,
                        },
                    },
                );
                i += 1;
            }
            assert(out.deep_view() =~= app_secrets_of(*secrets, env_entries.deep_view(), first));
        },
        None => {
            assert(out.deep_view() =~= Seq::<AppSecretView>::empty());
        },
    }
    out
}

} // verus!
