//! The home page: what it shows, and to whom.

use crate::guards::{UserOptional, UserOptionalContext};
use crate::permissions::{ADMIN, BANNED};
use vstd::prelude::*;

verus! {

/// How many jams the home page shows.
pub const JAMS_SHOWN: i64 = 3;

/// What a visitor may ask of the home page.
#[derive(Clone, Copy, Debug, PartialEq, Eq)]
pub struct QueryParams {
    /// Whether to show the jams that are not approved yet, too.
    pub show_all_jams: Option<bool>,
}

/// Which jams to load.
#[derive(Clone, Copy, Debug, PartialEq, Eq, Structural)]
pub struct JamQuery {
    /// Whether to leave out the jams that are not approved.
    pub approved_only: bool,
    /// How many jams to skip.
    pub offset: i64,
    /// How many jams to load at most.
    pub limit: i64,
}

/// What the home page is made of, but for the jams themselves, which are
/// still to be loaded.
#[derive(Debug, PartialEq, Eq)]
pub struct Homepage {
    /// Who is looking.
    pub auth: UserOptionalContext,
    /// Which jams to load for the page.
    pub jams: JamQuery,
    /// Whether jams that are not approved are among those shown.
    pub showing_all_jams: bool,
    /// Whether the visitor is offered to enter a jam.
    pub can_create_new_jam_entries: bool,
}

/// Whether all jams are shown: only to an administrator, and only on
/// request.
pub open spec fn shows_all_jams(admin: bool, query_params: QueryParams) -> bool {
    admin && query_params.show_all_jams == Some(true)
}

/// Lays out the home page for whoever is looking.
///
/// Jams that are not approved are shown to an administrator who asks for
/// them, and to nobody else. The first three jams are loaded. Everyone but a
/// banned user is offered to enter a jam.
pub fn homepage(user: &UserOptional, query_params: &QueryParams) -> (page: Homepage)
    ensures
        user.shown_as(page.auth),
        page.showing_all_jams == shows_all_jams(user@.holds(ADMIN@), *query_params),
        page.can_create_new_jam_entries == !user@.holds(BANNED@),
        page.jams == (JamQuery {
            approved_only: !page.showing_all_jams,
            offset: 0,
            limit: JAMS_SHOWN,
        }),
{
    let should_show_all_jams = user.is_admin() && query_params.show_all_jams.unwrap_or(false);
    let can_create_new_jam_entries = !user.is_banned();
    Homepage {
        auth: user.to_context(),
        jams: JamQuery { approved_only: !should_show_all_jams, offset: 0, limit: JAMS_SHOWN },
        showing_all_jams: should_show_all_jams,
        can_create_new_jam_entries,
    }
}

} // verus!
