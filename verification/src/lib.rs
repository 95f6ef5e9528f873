//! Message history for a chat service: the identifier codec over the store's
//! decimals, the node gate, the query planner and the result assembler, with
//! the rules of each stated as contracts and proved.

pub mod decimal;
pub mod codec;
pub mod model;
pub mod assemble;
pub mod response;
pub mod node;
pub mod plan;
pub mod endpoint;
pub mod users;
