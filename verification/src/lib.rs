//! Core of a desktop application's OAuth sign-in flow: a credential store
//! adapter that keeps an access token and a refresh token in the platform
//! vault, and the decision logic of a one-shot local HTTP listener that
//! captures the authorization code from the browser's redirect.

mod errors;
mod query;
mod session;
mod vault;

pub use errors::AuthError;
pub use query::AMPERSAND;
pub use query::EQUALS_SIGN;
pub use query::HASH_MARK;
pub use query::LETTER_C;
pub use query::LETTER_D;
pub use query::LETTER_E;
pub use query::LETTER_O;
pub use query::QUESTION_MARK;
pub use query::DIGIT_NINE;
pub use query::DIGIT_ZERO;
pub use query::LOWER_A;
pub use query::LOWER_F;
pub use query::PERCENT_SIGN;
pub use query::PLUS_SIGN;
pub use query::SPACE;
pub use query::UPPER_A;
pub use query::UPPER_F;
pub use query::code_key;
pub use query::code_of_pairs;
pub use query::code_of_target;
pub use query::extract_code;
pub use query::find_byte;
pub use query::form_decoded;
pub use query::hex_digit_value;
pub use query::key_of;
pub use query::lemma_find_byte_spec;
pub use query::query_of;
pub use query::value_of;
pub use session::CallbackOutcome;
pub use session::SessionAction;
pub use session::SessionEvent;
pub use session::SessionState;
pub use session::failure_page;
pub use session::failure_page_text;
pub use session::into_outcome;
pub use session::lemma_captured_code_reaches_caller;
pub use session::lemma_missing_code_reaches_caller;
pub use session::lemma_pending_resolves;
pub use session::lemma_terminal_state_is_stable;
pub use session::outcome_resolves;
pub use session::resolve_wait;
pub use session::session_step;
pub use session::step_spec;
pub use session::success_page;
pub use session::success_page_text;
pub use vault::CredentialStore;
pub use vault::Slot;
pub use vault::VaultDeleteOutcome;
pub use vault::VaultGetOutcome;
pub use vault::VaultWriteOutcome;
pub use vault::interpret_delete_outcome;
pub use vault::interpret_get_outcome;
pub use vault::interpret_write_outcome;
pub use vault::service_name;
pub use vault::slot_label;
