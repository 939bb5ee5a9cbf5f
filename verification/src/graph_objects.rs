//! Domain objects of the Graph surface: media containers and the publish
//! result.

use vstd::prelude::*;

verus! {

use crate::bytestr::str_eq;
use crate::jsonval::{JsonData, json_of, jfield_str, jfield_u64_coerced, field_string,
    field_u64_coerced, get_field, value_is_object, value_as_str};

/// The lifecycle states of a staged media container.
#[derive(Debug, Clone, Copy, PartialEq, Eq, Structural)]
pub enum IgContainerStatusCode {
    Expired,
    Error,
    Finished,
    InProgress,
    Published,
}

/// The upstream spelling of each container state; anything else fails the
/// decode.
pub open spec fn dec_container_status_code(t: Seq<char>) -> Option<IgContainerStatusCode> {
    if t == "EXPIRED"@ {
        Some(IgContainerStatusCode::Expired)
    } else if t == "ERROR"@ {
        Some(IgContainerStatusCode::Error)
    } else if t == "FINISHED"@ {
        Some(IgContainerStatusCode::Finished)
    } else if t == "IN_PROGRESS"@ {
        Some(IgContainerStatusCode::InProgress)
    } else if t == "PUBLISHED"@ {
        Some(IgContainerStatusCode::Published)
    } else {
        None
    }
}

/// A server-side staged media object awaiting publish.
#[derive(Debug, Clone)]
pub struct IgContainer {
    pub id: u64,
    pub status: String,
    pub status_code: IgContainerStatusCode,
}

/// Ghost image of [`IgContainer`].
pub struct IgContainerView {
    pub id: u64,
    pub status: Seq<char>,
    pub status_code: IgContainerStatusCode,
}

impl View for IgContainer {
    type V = IgContainerView;

    open spec fn view(&self) -> IgContainerView {
        IgContainerView { id: self.id, status: self.status@, status_code: self.status_code }
    }
}

impl IgContainer {
    /// The field list a container read asks for.
    pub fn fields() -> (r: &'static str)
        ensures
            r@ == "id,status,status_code"@,
    {
        "id,status,status_code"
    }
}

/// How a container decodes: id (number or digit string), status text, and a
/// recognized status code.
pub open spec fn dec_container(j: JsonData) -> Option<IgContainerView> {
    if !(j is Obj) {
        None
    } else {
        match jfield_u64_coerced(j, "id"@) {
            None => None,
            Some(id) => match jfield_str(j, "status"@) {
                None => None,
                Some(status) => match jfield_str(j, "status_code"@) {
                    None => None,
                    Some(sc) => match dec_container_status_code(sc) {
                        None => None,
                        Some(status_code) => Some(IgContainerView { id, status, status_code }),
                    },
                },
            },
        }
    }
}

/// Decodes a container node.
pub fn decode_container(v: &serde_json::Value) -> (r: Option<IgContainer>)
    ensures
        match r {
            Some(c) => dec_container(json_of(*v)) == Some(c@),
            None => dec_container(json_of(*v)) is None,
        },
{
    if !value_is_object(v) {
        return None;
    }
    let id = match field_u64_coerced(v, "id") {
        Some(x) => x,
        None => {
            return None;
        },
    };
    let status = match field_string(v, "status") {
        Some(x) => x,
        None => {
            return None;
        },
    };
    let status_code = match get_field(v, "status_code") {
        None => {
            return None;
        },
        Some(x) => match value_as_str(x) {
            None => {
                return None;
            },
            Some(s) => {
                if str_eq(s, "EXPIRED") {
                    IgContainerStatusCode::Expired
                } else if str_eq(s, "ERROR") {
                    IgContainerStatusCode::Error
                } else if str_eq(s, "FINISHED") {
                    IgContainerStatusCode::Finished
                } else if str_eq(s, "IN_PROGRESS") {
                    IgContainerStatusCode::InProgress
                } else if str_eq(s, "PUBLISHED") {
                    IgContainerStatusCode::Published
                } else {
                    return None;
                }
            },
        },
    };
    Some(IgContainer { id, status, status_code })
}

/// What a publish returns: the published media's id.
#[derive(Debug, Clone, PartialEq, Eq, Structural)]
pub struct IgMediaForIgUserMediaPublishCreatingOperation {
    pub id: u64,
}

impl IgMediaForIgUserMediaPublishCreatingOperation {
    /// The field list a publish asks for.
    pub fn fields() -> (r: &'static str)
        ensures
            r@ == "id"@,
    {
        "id"
    }
}

/// How a publish result decodes: just the id, number or digit string.
pub open spec fn dec_publish_media(j: JsonData) -> Option<
    IgMediaForIgUserMediaPublishCreatingOperation,
> {
    if !(j is Obj) {
        None
    } else {
        match jfield_u64_coerced(j, "id"@) {
            None => None,
            Some(id) => Some(IgMediaForIgUserMediaPublishCreatingOperation { id }),
        }
    }
}

/// Decodes a publish result.
pub fn decode_publish_media(v: &serde_json::Value) -> (r: Option<
    IgMediaForIgUserMediaPublishCreatingOperation,
>)
    ensures
        match r {
            Some(m) => dec_publish_media(json_of(*v)) == Some(m),
            None => dec_publish_media(json_of(*v)) is None,
        },
{
    if !value_is_object(v) {
        return None;
    }
    match field_u64_coerced(v, "id") {
        Some(id) => Some(IgMediaForIgUserMediaPublishCreatingOperation { id }),
        None => None,
    }
}

} // verus!
