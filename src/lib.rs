//! Authentication and authorization logic of a gateway that serves static
//! per-page content to users who log in through OpenID Connect.

pub mod access;
pub mod callback;
pub mod json;
pub mod login;
pub mod pages;
pub mod session;

pub use access::{page_access, user_can_view_page, PageAccess};
pub use callback::{
    step, Action, CallbackConfig, CallbackData, CallbackParams, Event, KeyInfo, Outcome,
    Rejection, Stage,
};
pub use json::{to_string_array, value_at_path, JsonValue};
pub use login::login_scopes;
pub use pages::{list_pages, page_for_dir, page_title, sort_pages, visible_dirs, Page};
pub use session::{LoginState, SessionData, User};
