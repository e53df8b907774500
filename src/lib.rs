//! A relay between live chat connections and a shared publish/subscribe topic:
//! a ledger of delivered message identifiers, the enrichment and routing of
//! messages, and the decisions of each connection session.

pub mod ledger;
pub mod json;
pub mod mint;
pub mod relay;
pub mod session;
