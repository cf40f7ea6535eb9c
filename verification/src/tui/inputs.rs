//! The text inputs of the interface, named so that one step of line editing
//! can be stated once for all of them.
use vstd::prelude::*;
use crate::tui::keys::{apply_line_key, edits_at_cursor, line_key, Key};
use crate::tui::state::{cursors_in_text, keeps_cursors, TuiState};

verus! {

broadcast use vstd::string::group_string_axioms;

/// A text input of the interface, with its text and cursor fields.
#[derive(Debug, Clone, Copy, PartialEq, Eq, Structural)]
pub enum LineInput {
    Url,
    Body,
    HeaderKey,
    HeaderValue,
    ParamKey,
    ParamValue,
    VariableKey,
    VariableValue,
    CollectionName,
    EnvironmentName,
    AuthToken,
    AuthUsername,
    AuthPassword,
    AuthKeyName,
    AuthKeyValue,
}

/// The text of input `w`.
pub open spec fn input_text(t: TuiState, w: LineInput) -> Seq<char> {
    match w {
        LineInput::Url => t.url_input@,
        LineInput::Body => t.body_input@,
        LineInput::HeaderKey => t.header_key_input@,
        LineInput::HeaderValue => t.header_value_input@,
        LineInput::ParamKey => t.param_key_input@,
        LineInput::ParamValue => t.param_value_input@,
        LineInput::VariableKey => t.variable_key_input@,
        LineInput::VariableValue => t.variable_value_input@,
        LineInput::CollectionName => t.collection_name_input@,
        LineInput::EnvironmentName => t.environment_name_input@,
        LineInput::AuthToken => t.auth_token_input@,
        LineInput::AuthUsername => t.auth_username_input@,
        LineInput::AuthPassword => t.auth_password_input@,
        LineInput::AuthKeyName => t.auth_key_name_input@,
        LineInput::AuthKeyValue => t.auth_key_value_input@,
    }
}

/// The cursor of input `w`, in characters.
pub open spec fn input_cursor(t: TuiState, w: LineInput) -> usize {
    match w {
        LineInput::Url => t.url_cursor,
        LineInput::Body => t.body_cursor,
        LineInput::HeaderKey => t.header_key_cursor,
        LineInput::HeaderValue => t.header_value_cursor,
        LineInput::ParamKey => t.param_key_cursor,
        LineInput::ParamValue => t.param_value_cursor,
        LineInput::VariableKey => t.variable_key_cursor,
        LineInput::VariableValue => t.variable_value_cursor,
        LineInput::CollectionName => t.collection_name_cursor,
        LineInput::EnvironmentName => t.environment_name_cursor,
        LineInput::AuthToken => t.auth_token_cursor,
        LineInput::AuthUsername => t.auth_username_cursor,
        LineInput::AuthPassword => t.auth_password_cursor,
        LineInput::AuthKeyName => t.auth_key_name_cursor,
        LineInput::AuthKeyValue => t.auth_key_value_cursor,
    }
}

/// `t1` is `t0` but for `url_input` and `url_cursor`.
#[verifier::opaque]
pub open spec fn only_url(t0: TuiState, t1: TuiState) -> bool {
    t1 == (TuiState { url_input: t1.url_input, url_cursor: t1.url_cursor, ..t0 })
}

/// `t1` is `t0` but for `body_input` and `body_cursor`.
#[verifier::opaque]
pub open spec fn only_body(t0: TuiState, t1: TuiState) -> bool {
    t1 == (TuiState { body_input: t1.body_input, body_cursor: t1.body_cursor, ..t0 })
}

/// `t1` is `t0` but for `header_key_input` and `header_key_cursor`.
#[verifier::opaque]
pub open spec fn only_header_key(t0: TuiState, t1: TuiState) -> bool {
    t1 == (TuiState { header_key_input: t1.header_key_input, header_key_cursor: t1.header_key_cursor, ..t0 })
}

/// `t1` is `t0` but for `header_value_input` and `header_value_cursor`.
#[verifier::opaque]
pub open spec fn only_header_value(t0: TuiState, t1: TuiState) -> bool {
    t1 == (TuiState { header_value_input: t1.header_value_input, header_value_cursor: t1.header_value_cursor, ..t0 })
}

/// `t1` is `t0` but for `param_key_input` and `param_key_cursor`.
#[verifier::opaque]
pub open spec fn only_param_key(t0: TuiState, t1: TuiState) -> bool {
    t1 == (TuiState { param_key_input: t1.param_key_input, param_key_cursor: t1.param_key_cursor, ..t0 })
}

/// `t1` is `t0` but for `param_value_input` and `param_value_cursor`.
#[verifier::opaque]
pub open spec fn only_param_value(t0: TuiState, t1: TuiState) -> bool {
    t1 == (TuiState { param_value_input: t1.param_value_input, param_value_cursor: t1.param_value_cursor, ..t0 })
}

/// `t1` is `t0` but for `variable_key_input` and `variable_key_cursor`.
#[verifier::opaque]
pub open spec fn only_variable_key(t0: TuiState, t1: TuiState) -> bool {
    t1 == (TuiState { variable_key_input: t1.variable_key_input, variable_key_cursor: t1.variable_key_cursor, ..t0 })
}

/// `t1` is `t0` but for `variable_value_input` and `variable_value_cursor`.
#[verifier::opaque]
pub open spec fn only_variable_value(t0: TuiState, t1: TuiState) -> bool {
    t1 == (TuiState { variable_value_input: t1.variable_value_input, variable_value_cursor: t1.variable_value_cursor, ..t0 })
}

/// `t1` is `t0` but for `collection_name_input` and `collection_name_cursor`.
#[verifier::opaque]
pub open spec fn only_collection_name(t0: TuiState, t1: TuiState) -> bool {
    t1 == (TuiState { collection_name_input: t1.collection_name_input, collection_name_cursor: t1.collection_name_cursor, ..t0 })
}

/// `t1` is `t0` but for `environment_name_input` and `environment_name_cursor`.
#[verifier::opaque]
pub open spec fn only_environment_name(t0: TuiState, t1: TuiState) -> bool {
    t1 == (TuiState { environment_name_input: t1.environment_name_input, environment_name_cursor: t1.environment_name_cursor, ..t0 })
}

/// `t1` is `t0` but for `auth_token_input` and `auth_token_cursor`.
#[verifier::opaque]
pub open spec fn only_auth_token(t0: TuiState, t1: TuiState) -> bool {
    t1 == (TuiState { auth_token_input: t1.auth_token_input, auth_token_cursor: t1.auth_token_cursor, ..t0 })
}

/// `t1` is `t0` but for `auth_username_input` and `auth_username_cursor`.
#[verifier::opaque]
pub open spec fn only_auth_username(t0: TuiState, t1: TuiState) -> bool {
    t1 == (TuiState { auth_username_input: t1.auth_username_input, auth_username_cursor: t1.auth_username_cursor, ..t0 })
}

/// `t1` is `t0` but for `auth_password_input` and `auth_password_cursor`.
#[verifier::opaque]
pub open spec fn only_auth_password(t0: TuiState, t1: TuiState) -> bool {
    t1 == (TuiState { auth_password_input: t1.auth_password_input, auth_password_cursor: t1.auth_password_cursor, ..t0 })
}

/// `t1` is `t0` but for `auth_key_name_input` and `auth_key_name_cursor`.
#[verifier::opaque]
pub open spec fn only_auth_key_name(t0: TuiState, t1: TuiState) -> bool {
    t1 == (TuiState { auth_key_name_input: t1.auth_key_name_input, auth_key_name_cursor: t1.auth_key_name_cursor, ..t0 })
}

/// `t1` is `t0` but for `auth_key_value_input` and `auth_key_value_cursor`.
#[verifier::opaque]
pub open spec fn only_auth_key_value(t0: TuiState, t1: TuiState) -> bool {
    t1 == (TuiState { auth_key_value_input: t1.auth_key_value_input, auth_key_value_cursor: t1.auth_key_value_cursor, ..t0 })
}

/// `t1` is `t0` but for the text and cursor of input `w`.
pub open spec fn only_input(t0: TuiState, t1: TuiState, w: LineInput) -> bool {
    match w {
        LineInput::Url => only_url(t0, t1),
        LineInput::Body => only_body(t0, t1),
        LineInput::HeaderKey => only_header_key(t0, t1),
        LineInput::HeaderValue => only_header_value(t0, t1),
        LineInput::ParamKey => only_param_key(t0, t1),
        LineInput::ParamValue => only_param_value(t0, t1),
        LineInput::VariableKey => only_variable_key(t0, t1),
        LineInput::VariableValue => only_variable_value(t0, t1),
        LineInput::CollectionName => only_collection_name(t0, t1),
        LineInput::EnvironmentName => only_environment_name(t0, t1),
        LineInput::AuthToken => only_auth_token(t0, t1),
        LineInput::AuthUsername => only_auth_username(t0, t1),
        LineInput::AuthPassword => only_auth_password(t0, t1),
        LineInput::AuthKeyName => only_auth_key_name(t0, t1),
        LineInput::AuthKeyValue => only_auth_key_value(t0, t1),
    }
}

/// `t1` is `t0` after `key` was typed into input `w`: that input's text and
/// cursor as `line_key` gives them, all else unchanged.
pub open spec fn typed(t0: TuiState, t1: TuiState, w: LineInput, key: Key) -> bool {
    &&& only_input(t0, t1, w)
    &&& (input_text(t1, w), input_cursor(t1, w)) == line_key(input_text(t0, w), input_cursor(t0, w), key)
}

/// A copy of the text of input `w`, and its cursor.
pub fn input_of(tui: &TuiState, w: LineInput) -> (r: (String, usize))
    ensures
        r.0@ == input_text(*tui, w),
        r.1 == input_cursor(*tui, w),
{
    match w {
        LineInput::Url => (tui.url_input.clone(), tui.url_cursor),
        LineInput::Body => (tui.body_input.clone(), tui.body_cursor),
        LineInput::HeaderKey => (tui.header_key_input.clone(), tui.header_key_cursor),
        LineInput::HeaderValue => (tui.header_value_input.clone(), tui.header_value_cursor),
        LineInput::ParamKey => (tui.param_key_input.clone(), tui.param_key_cursor),
        LineInput::ParamValue => (tui.param_value_input.clone(), tui.param_value_cursor),
        LineInput::VariableKey => (tui.variable_key_input.clone(), tui.variable_key_cursor),
        LineInput::VariableValue => (tui.variable_value_input.clone(), tui.variable_value_cursor),
        LineInput::CollectionName => (tui.collection_name_input.clone(), tui.collection_name_cursor),
        LineInput::EnvironmentName => (tui.environment_name_input.clone(), tui.environment_name_cursor),
        LineInput::AuthToken => (tui.auth_token_input.clone(), tui.auth_token_cursor),
        LineInput::AuthUsername => (tui.auth_username_input.clone(), tui.auth_username_cursor),
        LineInput::AuthPassword => (tui.auth_password_input.clone(), tui.auth_password_cursor),
        LineInput::AuthKeyName => (tui.auth_key_name_input.clone(), tui.auth_key_name_cursor),
        LineInput::AuthKeyValue => (tui.auth_key_value_input.clone(), tui.auth_key_value_cursor),
    }
}

/// `set_input` for the URL, body and header inputs.
fn set_request_input(tui: &mut TuiState, w: LineInput, text: String, cursor: usize)
    requires
        w == LineInput::Url || w == LineInput::Body || w == LineInput::HeaderKey || w == LineInput::HeaderValue,
    ensures
        only_input(*old(tui), *final(tui), w),
        input_text(*final(tui), w) == text@,
        input_cursor(*final(tui), w) == cursor,
        cursor <= text@.len() ==> keeps_cursors(*old(tui), *final(tui)),
{
    proof {
        reveal(cursors_in_text);
    }
    match w {
        LineInput::Url => {
            tui.url_input = text;
            tui.url_cursor = cursor;
            assert(only_url(*old(tui), *tui)) by { reveal(only_url); }
        },
        LineInput::Body => {
            tui.body_input = text;
            tui.body_cursor = cursor;
            assert(only_body(*old(tui), *tui)) by { reveal(only_body); }
        },
        LineInput::HeaderKey => {
            tui.header_key_input = text;
            tui.header_key_cursor = cursor;
            assert(only_header_key(*old(tui), *tui)) by { reveal(only_header_key); }
        },
        _ => {
            tui.header_value_input = text;
            tui.header_value_cursor = cursor;
            assert(only_header_value(*old(tui), *tui)) by { reveal(only_header_value); }
        },
    }
}

/// `set_input` for the parameter and variable inputs.
fn set_pair_input(tui: &mut TuiState, w: LineInput, text: String, cursor: usize)
    requires
        w == LineInput::ParamKey || w == LineInput::ParamValue || w == LineInput::VariableKey || w == LineInput::VariableValue,
    ensures
        only_input(*old(tui), *final(tui), w),
        input_text(*final(tui), w) == text@,
        input_cursor(*final(tui), w) == cursor,
        cursor <= text@.len() ==> keeps_cursors(*old(tui), *final(tui)),
{
    proof {
        reveal(cursors_in_text);
    }
    match w {
        LineInput::ParamKey => {
            tui.param_key_input = text;
            tui.param_key_cursor = cursor;
            assert(only_param_key(*old(tui), *tui)) by { reveal(only_param_key); }
        },
        LineInput::ParamValue => {
            tui.param_value_input = text;
            tui.param_value_cursor = cursor;
            assert(only_param_value(*old(tui), *tui)) by { reveal(only_param_value); }
        },
        LineInput::VariableKey => {
            tui.variable_key_input = text;
            tui.variable_key_cursor = cursor;
            assert(only_variable_key(*old(tui), *tui)) by { reveal(only_variable_key); }
        },
        _ => {
            tui.variable_value_input = text;
            tui.variable_value_cursor = cursor;
            assert(only_variable_value(*old(tui), *tui)) by { reveal(only_variable_value); }
        },
    }
}

/// `set_input` for the name inputs, the token and the user name.
fn set_name_input(tui: &mut TuiState, w: LineInput, text: String, cursor: usize)
    requires
        w == LineInput::CollectionName || w == LineInput::EnvironmentName || w == LineInput::AuthToken || w == LineInput::AuthUsername,
    ensures
        only_input(*old(tui), *final(tui), w),
        input_text(*final(tui), w) == text@,
        input_cursor(*final(tui), w) == cursor,
        cursor <= text@.len() ==> keeps_cursors(*old(tui), *final(tui)),
{
    proof {
        reveal(cursors_in_text);
    }
    match w {
        LineInput::CollectionName => {
            tui.collection_name_input = text;
            tui.collection_name_cursor = cursor;
            assert(only_collection_name(*old(tui), *tui)) by { reveal(only_collection_name); }
        },
        LineInput::EnvironmentName => {
            tui.environment_name_input = text;
            tui.environment_name_cursor = cursor;
            assert(only_environment_name(*old(tui), *tui)) by { reveal(only_environment_name); }
        },
        LineInput::AuthToken => {
            tui.auth_token_input = text;
            tui.auth_token_cursor = cursor;
            assert(only_auth_token(*old(tui), *tui)) by { reveal(only_auth_token); }
        },
        _ => {
            tui.auth_username_input = text;
            tui.auth_username_cursor = cursor;
            assert(only_auth_username(*old(tui), *tui)) by { reveal(only_auth_username); }
        },
    }
}

/// `set_input` for the password and the API key inputs.
fn set_key_input(tui: &mut TuiState, w: LineInput, text: String, cursor: usize)
    requires
        w == LineInput::AuthPassword || w == LineInput::AuthKeyName || w == LineInput::AuthKeyValue,
    ensures
        only_input(*old(tui), *final(tui), w),
        input_text(*final(tui), w) == text@,
        input_cursor(*final(tui), w) == cursor,
        cursor <= text@.len() ==> keeps_cursors(*old(tui), *final(tui)),
{
    proof {
        reveal(cursors_in_text);
    }
    match w {
        LineInput::AuthPassword => {
            tui.auth_password_input = text;
            tui.auth_password_cursor = cursor;
            assert(only_auth_password(*old(tui), *tui)) by { reveal(only_auth_password); }
        },
        LineInput::AuthKeyName => {
            tui.auth_key_name_input = text;
            tui.auth_key_name_cursor = cursor;
            assert(only_auth_key_name(*old(tui), *tui)) by { reveal(only_auth_key_name); }
        },
        _ => {
            tui.auth_key_value_input = text;
            tui.auth_key_value_cursor = cursor;
            assert(only_auth_key_value(*old(tui), *tui)) by { reveal(only_auth_key_value); }
        },
    }
}

/// Sets the text and cursor of input `w`.
pub fn set_input(tui: &mut TuiState, w: LineInput, text: String, cursor: usize)
    ensures
        only_input(*old(tui), *final(tui), w),
        input_text(*final(tui), w) == text@,
        input_cursor(*final(tui), w) == cursor,
        cursor <= text@.len() ==> keeps_cursors(*old(tui), *final(tui)),
{
    match w {
        LineInput::Url | LineInput::Body | LineInput::HeaderKey | LineInput::HeaderValue => set_request_input(tui, w, text, cursor),
        LineInput::ParamKey | LineInput::ParamValue | LineInput::VariableKey | LineInput::VariableValue => set_pair_input(tui, w, text, cursor),
        LineInput::CollectionName | LineInput::EnvironmentName | LineInput::AuthToken | LineInput::AuthUsername => set_name_input(tui, w, text, cursor),
        LineInput::AuthPassword | LineInput::AuthKeyName | LineInput::AuthKeyValue => set_key_input(tui, w, text, cursor),
    }
}

/// Applies `key` to input `w`.
pub fn type_into(tui: &mut TuiState, w: LineInput, key: Key)
    requires
        edits_at_cursor(key) ==> input_cursor(*old(tui), w) <= input_text(*old(tui), w).len(),
    ensures
        typed(*old(tui), *final(tui), w, key),
        keeps_cursors(*old(tui), *final(tui)),
{
    let ghost within = cursors_in_text(*tui);
    let (mut text, mut cursor) = input_of(tui, w);
    proof {
        if within {
            reveal(cursors_in_text);
            assert(cursor <= text@.len());
        }
    }
    apply_line_key(&mut text, &mut cursor, key);
    proof {
        if within {
            assert(cursor <= text@.len());
        }
    }
    set_input(tui, w, text, cursor);
}

} // verus!
