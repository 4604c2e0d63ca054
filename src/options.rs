//! The options mapping handed to the engine when a session is created.
//!
//! Encoding the mapping into the engine's own value format is the engine's
//! business; this module decides what the mapping holds.
use vstd::prelude::*;

verus! {

/// Options key under which the session cookies are given.
pub const OPTION_COOKIES: &'static str = "cookies";

/// Options key of the flag that lets the engine push conflicting revisions.
pub const OPTION_OUTGOING_CONFLICTS: &'static str = "outgoingConflicts";

/// Name of the cookie that carries a sync gateway session token.
pub const SESSION_COOKIE_NAME: &'static str = "SyncGatewaySession";

/// A value in the options mapping.
#[derive(Debug)]
pub enum OptionValue {
    Bool(bool),
    Text(String),
}

/// One key and its value in the options mapping.
#[derive(Debug)]
pub struct OptionEntry {
    pub key: String,
    pub value: OptionValue,
}

/// A mathematical view of an option value.
pub enum OptionValueView {
    Bool(bool),
    Text(Seq<char>),
}

impl OptionValue {
    pub open spec fn view(&self) -> OptionValueView {
        match *self {
            OptionValue::Bool(b) => OptionValueView::Bool(b),
            OptionValue::Text(s) => OptionValueView::Text(s@),
        }
    }
}

impl OptionEntry {
    pub open spec fn view(&self) -> (Seq<char>, OptionValueView) {
        (self.key@, self.value.view())
    }
}

/// The entries of an options mapping, as keys and viewed values.
pub open spec fn entries_view(entries: Seq<OptionEntry>) -> Seq<(Seq<char>, OptionValueView)> {
    entries.map_values(|e: OptionEntry| e.view())
}

/// The cookie that carries a session token: `SyncGatewaySession=<token>`.
pub open spec fn session_cookie(token: Seq<char>) -> Seq<char> {
    SESSION_COOKIE_NAME@ + "="@ + token
}

/// The entry that allows outgoing conflicts.
pub open spec fn conflicts_entry() -> (Seq<char>, OptionValueView) {
    (OPTION_OUTGOING_CONFLICTS@, OptionValueView::Bool(true))
}

/// The options mapping for an optional session token: the session cookie
/// first when a token is given, then the outgoing-conflicts flag set true.
pub open spec fn options_for(token: Option<Seq<char>>) -> Seq<(Seq<char>, OptionValueView)> {
    match token {
        Some(t) => seq![
            (OPTION_COOKIES@, OptionValueView::Text(session_cookie(t))),
            conflicts_entry(),
        ],
        None => seq![conflicts_entry()],
    }
}

/// The options of every session hold the outgoing-conflicts flag set true,
/// and hold a cookie entry exactly when a token is given, equal to
/// `SyncGatewaySession=<token>`.
pub proof fn options_carry_flag_and_cookie(token: Option<Seq<char>>)
    ensures
        options_for(token).contains(conflicts_entry()),
        (exists|i: int| 0 <= i < options_for(token).len() && #[trigger] options_for(token)[i].0
            == OPTION_COOKIES@) <==> token is Some,
        token matches Some(t) ==> options_for(token).contains(
            (OPTION_COOKIES@, OptionValueView::Text(session_cookie(t))),
        ),
{
    reveal_strlit("cookies");
    reveal_strlit("outgoingConflicts");
    let o = options_for(token);
    assert(OPTION_COOKIES@.len() != OPTION_OUTGOING_CONFLICTS@.len());
    match token {
        Some(t) => {
            assert(o[1] == conflicts_entry());
            assert(o[0].0 == OPTION_COOKIES@);
        },
        None => {
            assert(o[0] == conflicts_entry());
        },
    }
}

/// The session cookie for a token.
pub fn session_cookie_for(token: &str) -> (r: String)
    ensures
        r@ == session_cookie(token@),
{
    let name = String::from_str(SESSION_COOKIE_NAME);
    let with_eq = name.concat("=");
    with_eq.concat(token)
}

/// Builds the options mapping of a session.
pub fn build_options(token: Option<&str>) -> (r: Vec<OptionEntry>)
    ensures
        entries_view(r@) == options_for(
            match token {
                Some(t) => Some(t@),
                None => None,
            },
        ),
{
    let mut entries: Vec<OptionEntry> = Vec::new();
    match token {
        Some(t) => {
            let cookie = session_cookie_for(t);
            entries.push(
                OptionEntry { key: String::from_str(OPTION_COOKIES), value: OptionValue::Text(cookie) },
            );
        },
        None => {},
    }
    entries.push(
        OptionEntry {
            key: String::from_str(OPTION_OUTGOING_CONFLICTS),
            value: OptionValue::Bool(true),
        },
    );
    proof {
        let tv = match token {
            Some(t) => Some(t@),
            None => None,
        };
        assert(entries_view(entries@) =~= options_for(tv));
    }
    entries
}

} // verus!
