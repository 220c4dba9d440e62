//! The plain values of the request and response bodies of the API. Every
//! record travels as an encrypted blob with its initialisation vector and its
//! salt; the backend stores and returns them unread.

use vstd::prelude::*;
use vstd::string::*;

verus! {

/// An encrypted record: the cipher text, its initialisation vector and the
/// salt of its key.
#[derive(Debug)]
pub struct EncryptedData {
    pub encrypted_data: String,
    pub iv: String,
    pub salt: String,
}

/// What an encrypted record holds: the mathematical value of `EncryptedData`.
pub struct Sealed {
    pub encrypted_data: Seq<char>,
    pub iv: Seq<char>,
    pub salt: Seq<char>,
}

impl View for EncryptedData {
    type V = Sealed;

    open spec fn view(&self) -> Sealed {
        Sealed { encrypted_data: self.encrypted_data@, iv: self.iv@, salt: self.salt@ }
    }
}

impl Clone for EncryptedData {
    fn clone(&self) -> (copy: Self)
        ensures
            copy == *self,
    {
        EncryptedData {
            encrypted_data: self.encrypted_data.clone(),
            iv: self.iv.clone(),
            salt: self.salt.clone(),
        }
    }
}

/// The new value of a field under an update: the value that the update
/// brings, or the current one where it brings none.
pub open spec fn updated(current: Seq<char>, update: Option<Seq<char>>) -> Seq<char> {
    match update {
        Some(text) => text,
        None => current,
    }
}

/// The view of an optional field of an update.
pub open spec fn brought(update: Option<String>) -> Option<Seq<char>> {
    match update {
        Some(text) => Some(text@),
        None => None,
    }
}

fn update_text(current: String, update: Option<String>) -> (text: String)
    ensures
        text@ == updated(current@, brought(update)),
{
    match update {
        Some(text) => text,
        None => current,
    }
}

/// The body of a successful response: the data, and a message for the user
/// where there is one.
#[derive(Debug)]
pub struct ApiResponse<T> {
    pub data: T,
    pub message: Option<String>,
}

impl<T> ApiResponse<T> {
    /// A response that carries `data` and no message.
    pub fn new(data: T) -> (response: Self)
        ensures
            response.data == data,
            response.message is None,
    {
        ApiResponse { data, message: None }
    }

    /// A response that carries `data` and `message`.
    pub fn with_message(data: T, message: &str) -> (response: Self)
        ensures
            response.data == data,
            brought(response.message) == Some(message@),
    {
        ApiResponse { data, message: Some(String::from_str(message)) }
    }
}

/// The body of a failed response.
#[derive(Debug)]
pub struct ErrorResponse {
    pub error: String,
    pub details: Option<String>,
}

/// The body of a request to register a user.
#[derive(Debug)]
pub struct CreateUserRequest {
    pub email: String,
    pub password: String,
}

/// The body of a request to log in.
#[derive(Debug)]
pub struct LoginRequest {
    pub email: String,
    pub password: String,
}

/// The body of a request to store the settings of a user.
#[derive(Debug)]
pub struct UserSettingsRequest {
    pub encrypted_data: String,
    pub iv: String,
    pub salt: String,
}

/// The settings of a user as they are returned.
#[derive(Debug)]
pub struct UserSettingsResponse {
    pub encrypted_data: String,
    pub iv: String,
    pub salt: String,
}

impl View for UserSettingsResponse {
    type V = Sealed;

    open spec fn view(&self) -> Sealed {
        Sealed { encrypted_data: self.encrypted_data@, iv: self.iv@, salt: self.salt@ }
    }
}

/// The view of an optional encrypted record.
pub open spec fn sealed(stored: Option<EncryptedData>) -> Option<Sealed> {
    match stored {
        Some(data) => Some(data@),
        None => None,
    }
}

impl UserSettingsResponse {
    /// What the settings of a user hold once answered: the stored record, or
    /// the empty object with no vector and no salt where nothing is stored.
    pub open spec fn answer(stored: Option<Sealed>) -> Sealed {
        match stored {
            Some(sealed) => sealed,
            None => Sealed { encrypted_data: "{}"@, iv: Seq::empty(), salt: Seq::empty() },
        }
    }

    /// Answers a request for the settings of a user from what is stored.
    pub fn from_stored(stored: Option<EncryptedData>) -> (response: Self)
        ensures
            response@ == Self::answer(sealed(stored)),
    {
        match stored {
            Some(data) => UserSettingsResponse {
                encrypted_data: data.encrypted_data,
                iv: data.iv,
                salt: data.salt,
            },
            None => UserSettingsResponse {
                encrypted_data: String::from_str("{}"),
                iv: String::new(),
                salt: String::new(),
            },
        }
    }
}

/// The body of a request to create a calendar.
#[derive(Debug)]
pub struct CreateCalendarRequest {
    pub encrypted_data: String,
    pub iv: String,
    pub salt: String,
}

/// The body of a request to update a calendar: each field that is present
/// replaces the stored one.
#[derive(Debug)]
pub struct UpdateCalendarRequest {
    pub encrypted_data: Option<String>,
    pub iv: Option<String>,
    pub salt: Option<String>,
    pub is_default: Option<bool>,
}

impl UpdateCalendarRequest {
    /// Applies the update to the stored record and its default flag.
    pub fn apply(self, current: EncryptedData, is_default: bool) -> (next: (EncryptedData, bool))
        ensures
            next.0@ == (Sealed {
                encrypted_data: updated(current.encrypted_data@, brought(self.encrypted_data)),
                iv: updated(current.iv@, brought(self.iv)),
                salt: updated(current.salt@, brought(self.salt)),
            }),
            next.1 == match self.is_default {
                Some(flag) => flag,
                None => is_default,
            },
    {
        let flag = match self.is_default {
            Some(flag) => flag,
            None => is_default,
        };
        (
            EncryptedData {
                encrypted_data: update_text(current.encrypted_data, self.encrypted_data),
                iv: update_text(current.iv, self.iv),
                salt: update_text(current.salt, self.salt),
            },
            flag,
        )
    }
}

/// The body of a request to create a calendar event.
#[derive(Debug)]
pub struct CreateCalendarEventRequest {
    pub encrypted_data: String,
    pub iv: String,
    pub salt: String,
}

/// The body of a request to update a calendar event: each field that is
/// present replaces the stored one.
#[derive(Debug)]
pub struct UpdateCalendarEventRequest {
    pub encrypted_data: Option<String>,
    pub iv: Option<String>,
    pub salt: Option<String>,
}

impl UpdateCalendarEventRequest {
    /// Applies the update to the stored record.
    pub fn apply(self, current: EncryptedData) -> (next: EncryptedData)
        ensures
            next@ == (Sealed {
                encrypted_data: updated(current.encrypted_data@, brought(self.encrypted_data)),
                iv: updated(current.iv@, brought(self.iv)),
                salt: updated(current.salt@, brought(self.salt)),
            }),
    {
        EncryptedData {
            encrypted_data: update_text(current.encrypted_data, self.encrypted_data),
            iv: update_text(current.iv, self.iv),
            salt: update_text(current.salt, self.salt),
        }
    }
}

/// The new value of a field that an update replaces where it brings one.
pub open spec fn replaced<T>(current: T, update: Option<T>) -> T {
    match update {
        Some(value) => value,
        None => current,
    }
}

/// The new value of a reference to another record under an update: an update
/// can point it elsewhere, but cannot clear it.
pub open spec fn repointed(current: Option<u128>, update: Option<u128>) -> Option<u128> {
    match update {
        Some(id) => Some(id),
        None => current,
    }
}

/// What is stored of a project beside its identity, its owner and its
/// timestamps.
#[derive(Debug)]
pub struct ProjectFields {
    pub data: EncryptedData,
    pub is_default: bool,
    pub parent_id: Option<u128>,
    pub display_order: i32,
    pub is_collapsed: bool,
}

/// The body of a request to create a project.
#[derive(Debug)]
pub struct CreateProjectRequest {
    pub encrypted_data: String,
    pub iv: String,
    pub salt: String,
    pub parent_id: Option<u128>,
    pub display_order: Option<i32>,
    pub is_collapsed: Option<bool>,
}

impl CreateProjectRequest {
    /// The project that the request creates: not the default one, first in
    /// order and expanded unless the request says otherwise.
    pub fn into_fields(self) -> (fields: ProjectFields)
        ensures
            fields.data@ == (Sealed {
                encrypted_data: self.encrypted_data@,
                iv: self.iv@,
                salt: self.salt@,
            }),
            fields.is_default == false,
            fields.parent_id == self.parent_id,
            fields.display_order == replaced(0i32, self.display_order),
            fields.is_collapsed == replaced(false, self.is_collapsed),
    {
        ProjectFields {
            data: EncryptedData {
                encrypted_data: self.encrypted_data,
                iv: self.iv,
                salt: self.salt,
            },
            is_default: false,
            parent_id: self.parent_id,
            display_order: match self.display_order {
                Some(order) => order,
                None => 0,
            },
            is_collapsed: match self.is_collapsed {
                Some(flag) => flag,
                None => false,
            },
        }
    }
}

/// The body of a request to update a project: each field that is present
/// replaces the stored one.
#[derive(Debug)]
pub struct UpdateProjectRequest {
    pub encrypted_data: Option<String>,
    pub iv: Option<String>,
    pub salt: Option<String>,
    pub is_default: Option<bool>,
    pub parent_id: Option<u128>,
    pub display_order: Option<i32>,
    pub is_collapsed: Option<bool>,
}

impl UpdateProjectRequest {
    /// Applies the update to the stored project.
    pub fn apply(self, current: ProjectFields) -> (next: ProjectFields)
        ensures
            next.data@ == (Sealed {
                encrypted_data: updated(current.data.encrypted_data@, brought(self.encrypted_data)),
                iv: updated(current.data.iv@, brought(self.iv)),
                salt: updated(current.data.salt@, brought(self.salt)),
            }),
            next.is_default == replaced(current.is_default, self.is_default),
            next.parent_id == repointed(current.parent_id, self.parent_id),
            next.display_order == replaced(current.display_order, self.display_order),
            next.is_collapsed == replaced(current.is_collapsed, self.is_collapsed),
    {
        ProjectFields {
            data: EncryptedData {
                encrypted_data: update_text(current.data.encrypted_data, self.encrypted_data),
                iv: update_text(current.data.iv, self.iv),
                salt: update_text(current.data.salt, self.salt),
            },
            is_default: match self.is_default {
                Some(flag) => flag,
                None => current.is_default,
            },
            parent_id: match self.parent_id {
                Some(id) => Some(id),
                None => current.parent_id,
            },
            display_order: match self.display_order {
                Some(order) => order,
                None => current.display_order,
            },
            is_collapsed: match self.is_collapsed {
                Some(flag) => flag,
                None => current.is_collapsed,
            },
        }
    }
}

/// Which projects a listing asks for.
#[derive(Clone, Copy, Debug, PartialEq, Eq, Structural)]
pub enum ProjectScope {
    /// Every project of the user.
    All,
    /// The projects directly under the given one.
    ChildrenOf(u128),
    /// The projects under no other.
    Roots,
}

/// The query of a listing of projects.
#[derive(Clone, Copy, Debug)]
pub struct ProjectQuery {
    pub parent_id: Option<u128>,
    pub all: Option<bool>,
}

impl ProjectQuery {
    /// Which projects the query asks for: all of them where `all` is set,
    /// else those under `parent_id`, else those under no other.
    pub fn scope(&self) -> (scope: ProjectScope)
        ensures
            scope == if self.all == Some(true) {
                ProjectScope::All
            } else {
                match self.parent_id {
                    Some(id) => ProjectScope::ChildrenOf(id),
                    None => ProjectScope::Roots,
                }
            },
    {
        let all = match self.all {
            Some(flag) => flag,
            None => false,
        };
        if all {
            ProjectScope::All
        } else {
            match self.parent_id {
                Some(id) => ProjectScope::ChildrenOf(id),
                None => ProjectScope::Roots,
            }
        }
    }
}

/// What is stored of a can-do item beside its identity, its owner and its
/// timestamps.
#[derive(Debug)]
pub struct CanDoItemFields {
    pub data: EncryptedData,
    pub project_id: Option<u128>,
    pub display_order: i32,
}

/// The body of a request to create a can-do item.
#[derive(Debug)]
pub struct CreateCanDoItemRequest {
    pub project_id: Option<u128>,
    pub encrypted_data: String,
    pub iv: String,
    pub salt: String,
    pub display_order: Option<i32>,
}

impl CreateCanDoItemRequest {
    /// The item that the request creates: first in order unless the request
    /// says otherwise.
    pub fn into_fields(self) -> (fields: CanDoItemFields)
        ensures
            fields.data@ == (Sealed {
                encrypted_data: self.encrypted_data@,
                iv: self.iv@,
                salt: self.salt@,
            }),
            fields.project_id == self.project_id,
            fields.display_order == replaced(0i32, self.display_order),
    {
        CanDoItemFields {
            data: EncryptedData {
                encrypted_data: self.encrypted_data,
                iv: self.iv,
                salt: self.salt,
            },
            project_id: self.project_id,
            display_order: match self.display_order {
                Some(order) => order,
                None => 0,
            },
        }
    }
}

/// The body of a request to update a can-do item: each field that is present
/// replaces the stored one.
#[derive(Debug)]
pub struct UpdateCanDoItemRequest {
    pub project_id: Option<u128>,
    pub encrypted_data: Option<String>,
    pub iv: Option<String>,
    pub salt: Option<String>,
    pub display_order: Option<i32>,
}

impl UpdateCanDoItemRequest {
    /// Applies the update to the stored item.
    pub fn apply(self, current: CanDoItemFields) -> (next: CanDoItemFields)
        ensures
            next.data@ == (Sealed {
                encrypted_data: updated(current.data.encrypted_data@, brought(self.encrypted_data)),
                iv: updated(current.data.iv@, brought(self.iv)),
                salt: updated(current.data.salt@, brought(self.salt)),
            }),
            next.project_id == repointed(current.project_id, self.project_id),
            next.display_order == replaced(current.display_order, self.display_order),
    {
        CanDoItemFields {
            data: EncryptedData {
                encrypted_data: update_text(current.data.encrypted_data, self.encrypted_data),
                iv: update_text(current.data.iv, self.iv),
                salt: update_text(current.data.salt, self.salt),
            },
            project_id: match self.project_id {
                Some(id) => Some(id),
                None => current.project_id,
            },
            display_order: match self.display_order {
                Some(order) => order,
                None => current.display_order,
            },
        }
    }
}

/// The query of a listing of can-do items: those of one project, or all.
#[derive(Clone, Copy, Debug)]
pub struct CanDoListQuery {
    pub project_id: Option<u128>,
}

} // verus!
