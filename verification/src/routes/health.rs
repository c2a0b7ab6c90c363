//! Service health report.
use vstd::prelude::*;

verus! {

/// Service health and database connectivity.
pub struct Health {
    pub status: String,
    pub database: String,
}

/// The health report for a database that answered (`database_up`) or not:
/// `ok`/`up` or `degraded`/`down`.
pub fn health_report(database_up: bool) -> (h: Health)
    ensures
        h.status@ == if database_up { "ok"@ } else { "degraded"@ },
        h.database@ == if database_up { "up"@ } else { "down"@ },
{
    Health {
        status: if database_up { "ok".to_string() } else { "degraded".to_string() },
        database: if database_up { "up".to_string() } else { "down".to_string() },
    }
}

} // verus!
