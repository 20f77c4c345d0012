//! Survey dialogue core: the answer domain, the choice validator, the
//! per-user session state machine, the session store and the dispatcher that
//! turns each inbound message into outbound effects.

pub mod answers;
pub mod session;
pub mod prompts;
pub mod store;
