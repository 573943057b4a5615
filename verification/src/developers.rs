//! Developers: how their names become path segments.

use crate::text::{lowercase, optional_text, replace, replaced, to_lowercase};
use vstd::prelude::*;

verus! {

/// The path segment of a developer: the name lowercased, its spaces turned
/// into hyphens.
pub open spec fn developer_slug_of(name: Seq<char>) -> Seq<char> {
    replaced(lowercase(name), ' ', '-')
}

/// Makes the path segment of a developer from its name.
pub fn developer_slug(name: &str) -> (segment: String)
    ensures
        segment@ == developer_slug_of(name@),
{
    proof {
        reveal_strlit("-");
    }
    replace(to_lowercase(name).as_str(), ' ', "-")
}

/// The path segment that goes with a new name, where there is one.
pub open spec fn renamed_slug_of(name: Option<Seq<char>>) -> Option<Seq<char>> {
    match name {
        Some(n) => Some(developer_slug_of(n)),
        None => None,
    }
}

/// What is written when a developer is updated: the picture and the name
/// as far as they are given, and with a new name its path segment.
#[derive(Clone, Debug, PartialEq, Eq)]
pub struct UpdateDeveloperSqlPayload {
    pub picture_url: Option<String>,
    pub name: Option<String>,
    pub slug: Option<String>,
}

/// Prepares the update of a developer.
pub fn update_developer(picture_url: Option<String>, name: Option<String>) -> (payload:
    UpdateDeveloperSqlPayload)
    ensures
        optional_text(payload.picture_url) == optional_text(picture_url),
        optional_text(payload.name) == optional_text(name),
        optional_text(payload.slug) == renamed_slug_of(optional_text(name)),
{
    let slug = match &name {
        Some(n) => Some(developer_slug(n.as_str())),
        None => None,
    };
    UpdateDeveloperSqlPayload { picture_url, name, slug }
}

} // verus!
